use vstd::prelude::*;

verus! {

/// One RGBA8 pixel.
#[derive(Clone, Copy, Debug, PartialEq, Eq, Structural)]
pub struct Pixel {
    pub r: u8,
    pub g: u8,
    pub b: u8,
    pub a: u8,
}

impl Pixel {
    pub open spec fn spec_transparent() -> Pixel {
        Pixel { r: 0, g: 0, b: 0, a: 0 }
    }

    /// The fully transparent black pixel.
    pub fn transparent() -> (p: Pixel)
        ensures
            p == Pixel::spec_transparent(),
    {
        Pixel { r: 0, g: 0, b: 0, a: 0 }
    }
}

/// A grid of RGBA8 pixels, stored as `height` rows of `width` pixels each.
#[derive(Debug)]
pub struct RgbaBuffer {
    pub width: u32,
    pub height: u32,
    pub rows: Vec<Vec<Pixel>>,
}

impl RgbaBuffer {
    /// The rows match the stated dimensions.
    pub open spec fn wf(&self) -> bool {
        &&& self.rows@.len() == self.height
        &&& forall|y: int| 0 <= y < self.rows@.len() ==> #[trigger] self.rows@[y]@.len() == self.width
    }

    /// The pixel in column `x` of row `y`.
    pub open spec fn pixel_at(&self, x: int, y: int) -> Pixel {
        self.rows@[y]@[x]
    }

    /// A buffer of the given size with every pixel set to `fill`.
    pub fn filled(width: u32, height: u32, fill: Pixel) -> (r: RgbaBuffer)
        ensures
            r.wf(),
            r.width == width,
            r.height == height,
            forall|x: int, y: int|
                0 <= x < width && 0 <= y < height ==> #[trigger] r.pixel_at(x, y) == fill,
    {
        let mut rows: Vec<Vec<Pixel>> = Vec::new();
        let mut y: u32 = 0;
        while y < height
            invariant
                y <= height,
                rows@.len() == y,
                forall|j: int| 0 <= j < y ==> #[trigger] rows@[j]@.len() == width,
                forall|j: int, x: int| 0 <= j < y && 0 <= x < width ==> #[trigger] rows@[j]@[x] == fill,
            decreases height - y,
        {
            let row = vec![fill; width as usize];
            rows.push(row);
            y = y + 1;
        }
        RgbaBuffer { width, height, rows }
    }

    /// Builds a buffer from its rows; `None` where a row's length differs
    /// from `width` or the number of rows from `height`.
    pub fn from_rows(width: u32, height: u32, rows: Vec<Vec<Pixel>>) -> (r: Option<RgbaBuffer>)
        ensures
            r matches Some(b) ==> b.wf() && b.width == width && b.height == height && b.rows == rows,
            r is None <==> !(RgbaBuffer { width, height, rows }).wf(),
    {
        if rows.len() != height as usize {
            return None;
        }
        let mut i: usize = 0;
        while i < rows.len()
            invariant
                i <= rows@.len(),
                forall|j: int| 0 <= j < i ==> #[trigger] rows@[j]@.len() == width,
            decreases rows@.len() - i,
        {
            if rows[i].len() != width as usize {
                return None;
            }
            i = i + 1;
        }
        Some(RgbaBuffer { width, height, rows })
    }

    /// The pixel in column `x` of row `y`.
    pub fn pixel(&self, x: u32, y: u32) -> (p: Pixel)
        requires
            self.wf(),
            x < self.width,
            y < self.height,
        ensures
            p == self.pixel_at(x as int, y as int),
    {
        self.rows[y as usize][x as usize]
    }
}

} // verus!
