use vstd::prelude::*;
use vstd::string::StrSliceExecFns;

use crate::error::CaptureError;
use crate::rect::Rect;

verus! {

pub open spec fn is_digit(c: char) -> bool {
    '0' <= c && c <= '9'
}

pub open spec fn is_sign(c: char) -> bool {
    c == '+' || c == '-'
}

/// The value of a string of decimal digits.
pub open spec fn decimal(s: Seq<char>) -> int
    decreases s.len(),
{
    if s.len() == 0 {
        0
    } else {
        10 * decimal(s.drop_last()) + (s.last() as int - '0' as int)
    }
}

/// How many decimal digits follow one another from position `i` on.
pub open spec fn digit_run(s: Seq<char>, i: int) -> int
    decreases s.len() - i,
{
    if i < 0 || i >= s.len() || !is_digit(s[i]) {
        0
    } else {
        1 + digit_run(s, i + 1)
    }
}

/// `v` with the sign that `c` gives it.
pub open spec fn signed(c: char, v: int) -> int {
    if c == '-' {
        -v
    } else {
        v
    }
}

pub open spec fn fits_i32(v: int) -> bool {
    i32::MIN <= v && v <= i32::MAX
}

/// The offset part `{+-}X{+-}Y` of a geometry string, from position `p` to the end.
pub open spec fn offset_at(s: Seq<char>, p: int) -> Option<(int, int)> {
    let xs = p + 1;
    let q = xs + digit_run(s, xs);
    let ys = q + 1;
    if !(0 <= p < s.len()) || !is_sign(s[p]) || digit_run(s, xs) == 0 || q >= s.len()
        || !is_sign(s[q]) || digit_run(s, ys) == 0 || ys + digit_run(s, ys) != s.len() {
        None
    } else {
        let x = signed(s[p], decimal(s.subrange(xs, q)));
        let y = signed(s[q], decimal(s.subrange(ys, s.len() as int)));
        if fits_i32(x) && fits_i32(y) {
            Some((x, y))
        } else {
            None
        }
    }
}

/// The rectangle that a geometry string describes. The accepted forms are
/// `WxH`, placed at `0,0`, and `WxH{+-}X{+-}Y`, where `W` and `H` are
/// unsigned decimals that fit in `u32`, `X` and `Y` decimals whose signed
/// value fits in `i32`.
pub open spec fn geometry(s: Seq<char>) -> Option<Rect> {
    let xi = digit_run(s, 0);
    let hs = xi + 1;
    let p = hs + digit_run(s, hs);
    if xi == 0 || xi >= s.len() || s[xi] != 'x' || digit_run(s, hs) == 0 {
        None
    } else {
        let w = decimal(s.subrange(0, xi));
        let h = decimal(s.subrange(hs, p));
        if w > u32::MAX || h > u32::MAX {
            None
        } else if p == s.len() {
            Some(Rect { x: 0, y: 0, w: w as u32, h: h as u32 })
        } else {
            match offset_at(s, p) {
                Some((x, y)) => Some(Rect { x: x as i32, y: y as i32, w: w as u32, h: h as u32 }),
                None => None,
            }
        }
    }
}

/// Reads the run of digits of `s` that starts at `start`. Returns where the
/// run ends and its value, or `None` for the value where it exceeds `limit`.
fn scan_number(s: &str, len: usize, start: usize, limit: u64) -> (r: (usize, Option<u64>))
    requires
        len == s@.len(),
        start <= len,
        limit <= u32::MAX,
    ensures
        r.0 == start + digit_run(s@, start as int),
        r.0 <= len,
        decimal(s@.subrange(start as int, r.0 as int)) >= 0,
        r.1 == (if decimal(s@.subrange(start as int, r.0 as int)) <= limit {
            Some(decimal(s@.subrange(start as int, r.0 as int)) as u64)
        } else {
            None
        }),
{
    let mut i: usize = start;
    let mut acc: u64 = 0;
    let mut over = false;
    proof {
        assert(s@.subrange(start as int, start as int) =~= Seq::<char>::empty());
    }
    while i < len
        invariant
            len == s@.len(),
            start <= i <= len,
            limit <= u32::MAX,
            digit_run(s@, start as int) == (i - start) + digit_run(s@, i as int),
            over ==> decimal(s@.subrange(start as int, i as int)) > limit,
            !over ==> acc == decimal(s@.subrange(start as int, i as int)) && acc <= limit,
        ensures
            digit_run(s@, i as int) == 0,
            over ==> decimal(s@.subrange(start as int, i as int)) > limit,
            !over ==> acc == decimal(s@.subrange(start as int, i as int)) && acc <= limit,
        decreases len - i,
    {
        let c = s.get_char(i);
        if !('0' <= c && c <= '9') {
            break;
        }
        proof {
            assert(s@.subrange(start as int, i + 1).drop_last() =~= s@.subrange(start as int, i as int));
        }
        if !over {
            let d: u64 = (c as u32 - '0' as u32) as u64;
            let next: u64 = acc * 10 + d;
            if next > limit {
                over = true;
            } else {
                acc = next;
            }
        }
        i = i + 1;
    }
    if over {
        (i, None)
    } else {
        (i, Some(acc))
    }
}

/// Parses a geometry string of the form `WxH` or `WxH{+-}X{+-}Y`.
pub fn parse_geometry(spec: &str) -> (r: Result<Rect, CaptureError>)
    ensures
        r == (match geometry(spec@) {
            Some(g) => Ok::<Rect, CaptureError>(g),
            None => Err(CaptureError::InvalidGeometry),
        }),
{
    let len: usize = spec.unicode_len();
    let (xi, w) = scan_number(spec, len, 0, u32::MAX as u64);
    if xi == 0 || xi >= len || spec.get_char(xi) != 'x' {
        return Err(CaptureError::InvalidGeometry);
    }
    let (p, h) = scan_number(spec, len, xi + 1, u32::MAX as u64);
    if p == xi + 1 {
        return Err(CaptureError::InvalidGeometry);
    }
    let (w, h) = match (w, h) {
        (Some(w), Some(h)) => (w as u32, h as u32),
        _ => return Err(CaptureError::InvalidGeometry),
    };
    if p == len {
        return Ok(Rect { x: 0, y: 0, w, h });
    }
    match parse_offset(spec, len, p) {
        Some((x, y)) => Ok(Rect { x, y, w, h }),
        None => Err(CaptureError::InvalidGeometry),
    }
}

/// Parses the `{+-}X{+-}Y` part of a geometry string, from `p` to the end.
fn parse_offset(s: &str, len: usize, p: usize) -> (r: Option<(i32, i32)>)
    requires
        len == s@.len(),
        p < len,
    ensures
        r == (match offset_at(s@, p as int) {
            Some((x, y)) => Some((x as i32, y as i32)),
            None => None,
        }),
{
    let sx = s.get_char(p);
    if !(sx == '+' || sx == '-') {
        return None;
    }
    let (q, xv) = scan_number(s, len, p + 1, 0x8000_0000);
    if q == p + 1 || q >= len {
        return None;
    }
    let sy = s.get_char(q);
    if !(sy == '+' || sy == '-') {
        return None;
    }
    let (e, yv) = scan_number(s, len, q + 1, 0x8000_0000);
    if e == q + 1 || e != len {
        return None;
    }
    let x = signed_i32(sx, xv)?;
    let y = signed_i32(sy, yv)?;
    Some((x, y))
}

/// Applies the sign `c` to a magnitude of at most `2^31`, where the result fits.
fn signed_i32(c: char, v: Option<u64>) -> (r: Option<i32>)
    requires
        v matches Some(m) ==> m <= 0x8000_0000,
    ensures
        r == (match v {
            Some(m) => if fits_i32(signed(c, m as int)) {
                Some(signed(c, m as int) as i32)
            } else {
                None
            },
            None => None,
        }),
{
    match v {
        None => None,
        Some(m) => {
            if c == '-' {
                Some((0 - (m as i64)) as i32)
            } else if m <= i32::MAX as u64 {
                Some(m as i32)
            } else {
                None
            }
        },
    }
}

} // verus!
