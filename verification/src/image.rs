//! The frame image the engine renders: a row-major, 8-bit indexed pixel
//! grid together with the palette that resolves each index to a packed
//! 24-bit RGB display color.

use vstd::prelude::*;

verus! {

/// A 24-bit RGB color packed as `0x00RRGGBB` in the low bytes of a `u32`.
pub type Rgb24 = u32;

/// The palette that resolves 8-bit color indices to display colors.
pub struct Palette {
    pub display_colors: Vec<Rgb24>,
}

impl Palette {
    /// The display color of color index `color`.
    pub fn display_color(&self, color: u8) -> (r: Rgb24)
        requires
            (color as int) < self.display_colors@.len(),
        ensures
            r == self.display_colors@[color as int],
    {
        self.display_colors[color as usize]
    }
}

/// A frame image: `height` rows of `width` 8-bit color indices, each
/// resolvable through `palette`.
pub struct Image {
    pub width: u32,
    pub height: u32,
    pub data: Vec<Vec<u8>>,
    pub palette: Palette,
}

impl Image {
    /// The shape the renderer relies on: exactly one row per height unit,
    /// each row exactly `width` pixels wide, and every pixel's color index
    /// resolvable in the palette.
    pub open spec fn wf(self) -> bool {
        &&& self.data@.len() == self.height
        &&& forall|i: int|
            0 <= i < self.data@.len() ==> (#[trigger] self.data@[i])@.len() == self.width
        &&& forall|i: int, j: int|
            0 <= i < self.data@.len() && 0 <= j < self.data@[i]@.len() ==> (
            #[trigger] self.data@[i]@[j] as int) < self.palette.display_colors@.len()
    }

    /// Decides [`Image::wf`] at runtime, so that unverified callers can
    /// guard a frame before handing it to the renderer.
    pub fn is_well_formed(&self) -> (r: bool)
        ensures
            r == self.wf(),
    {
        if self.data.len() != self.height as usize {
            return false;
        }
        let palette_len = self.palette.display_colors.len();
        let mut i: usize = 0;
        while i < self.data.len()
            invariant
                i <= self.data@.len(),
                self.data@.len() == self.height,
                palette_len == self.palette.display_colors@.len(),
                forall|p: int| 0 <= p < i ==> (#[trigger] self.data@[p])@.len() == self.width,
                forall|p: int, q: int|
                    0 <= p < i && 0 <= q < self.data@[p]@.len() ==> (
                    #[trigger] self.data@[p]@[q] as int) < self.palette.display_colors@.len(),
            decreases self.data@.len() - i,
        {
            let row = &self.data[i];
            if row.len() != self.width as usize {
                return false;
            }
            let mut j: usize = 0;
            while j < row.len()
                invariant
                    j <= row@.len(),
                    row@ == self.data@[i as int]@,
                    i < self.data@.len(),
                    palette_len == self.palette.display_colors@.len(),
                    forall|q: int|
                        0 <= q < j ==> (#[trigger] row@[q] as int)
                            < self.palette.display_colors@.len(),
                decreases row@.len() - j,
            {
                if row[j] as usize >= palette_len {
                    assert(self.data@[i as int]@[j as int] == row@[j as int]);
                    return false;
                }
                j += 1;
            }
            assert(forall|q: int|
                0 <= q < self.data@[i as int]@.len() ==> (
                #[trigger] self.data@[i as int]@[q] as int)
                    < self.palette.display_colors@.len());
            i += 1;
        }
        true
    }

    /// Builds a frame image, accepting exactly the well-formed shapes:
    /// the result is `Some` if and only if `data` has `height` rows of
    /// `width` pixels whose color indices all resolve in `palette`.
    pub fn new(width: u32, height: u32, data: Vec<Vec<u8>>, palette: Palette) -> (r: Option<
        Image,
    >)
        ensures
            match r {
                Some(img) => {
                    &&& img.width == width
                    &&& img.height == height
                    &&& img.data@ == data@
                    &&& img.palette.display_colors@ == palette.display_colors@
                    &&& img.wf()
                },
                None => !(Image { width, height, data, palette }).wf(),
            },
    {
        let img = Image { width, height, data, palette };
        if img.is_well_formed() {
            Some(img)
        } else {
            None
        }
    }
}

} // verus!
