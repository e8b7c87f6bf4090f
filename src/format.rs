use vstd::prelude::*;
use vstd::string::StrSliceExecFns;

verus! {

/// The encodings a capture can be written in.
#[derive(Clone, Copy, Debug, PartialEq, Eq, Structural)]
pub enum OutputFormat {
    Png,
    Pam,
}

/// `s` spells the word whose letters are `lower` in lower case and `upper`
/// in upper case, each letter in either case.
pub open spec fn names(s: Seq<char>, lower: Seq<char>, upper: Seq<char>) -> bool {
    &&& s.len() == lower.len()
    &&& forall|i: int| 0 <= i < s.len() ==> #[trigger] s[i] == lower[i] || s[i] == upper[i]
}

/// The format that a name selects, ignoring ASCII case: `png` or `pam`.
pub open spec fn format_named(s: Seq<char>) -> Option<OutputFormat> {
    if names(s, seq!['p', 'n', 'g'], seq!['P', 'N', 'G']) {
        Some(OutputFormat::Png)
    } else if names(s, seq!['p', 'a', 'm'], seq!['P', 'A', 'M']) {
        Some(OutputFormat::Pam)
    } else {
        None
    }
}

/// Whether `s` has exactly three letters, the i-th being `lower[i]` or `upper[i]`.
fn names3(s: &str, lower: [char; 3], upper: [char; 3]) -> (r: bool)
    ensures
        r == names(s@, lower@, upper@),
{
    if s.unicode_len() != 3 {
        return false;
    }
    let mut i: usize = 0;
    while i < 3
        invariant
            s@.len() == 3,
            lower@.len() == 3,
            upper@.len() == 3,
            i <= 3,
            forall|j: int| 0 <= j < i ==> #[trigger] s@[j] == lower@[j] || s@[j] == upper@[j],
        decreases 3 - i,
    {
        let c = s.get_char(i);
        if c != lower[i] && c != upper[i] {
            return false;
        }
        i = i + 1;
    }
    true
}

impl OutputFormat {
    /// The format that `name` selects, ignoring ASCII case; `None` for any
    /// other name.
    pub fn from_name(name: &str) -> (r: Option<OutputFormat>)
        ensures
            r == format_named(name@),
    {
        if names3(name, ['p', 'n', 'g'], ['P', 'N', 'G']) {
            Some(OutputFormat::Png)
        } else if names3(name, ['p', 'a', 'm'], ['P', 'A', 'M']) {
            Some(OutputFormat::Pam)
        } else {
            None
        }
    }

    /// The file extension of the format, in lower case.
    pub fn extension(&self) -> (r: &'static str)
        ensures
            format_named(r@) == Some(*self),
    {
        match self {
            OutputFormat::Png => {
                proof {
                    reveal_strlit("png");
                    assert("png"@ =~= seq!['p', 'n', 'g']);
                }
                "png"
            },
            OutputFormat::Pam => {
                proof {
                    reveal_strlit("pam");
                    assert("pam"@ =~= seq!['p', 'a', 'm']);
                    assert("pam"@[1] == 'a');
                }
                "pam"
            },
        }
    }
}

} // verus!
