//! Pixel formats of a framebuffer: which one a framebuffer has, and how a
//! color is packed into and blended onto a pixel of each.

use vstd::prelude::*;
use crate::error::Error;
use crate::linuxfb::fbio::PixelLayout;
use crate::linuxfb::fbio::VarScreeninfo;

verus! {

/// The pixel formats that are supported.
#[derive(Clone, Copy, Debug, PartialEq, Eq, Structural)]
pub enum PixelFormat {
    /// 32 bits; in memory blue, green, red, alpha.
    Abgr8888,
    /// 32 bits; in memory red, green, blue, alpha.
    Rgba8888,
    /// 32 bits without alpha; in memory blue, green, red, and one byte unused.
    Bgra8888,
    /// 16 bits: 5 of red, 6 of green, 5 of blue.
    Rgb565,
    /// None of these.
    Unknown,
}

/// The format of pixels of `bits_per_pixel` bits with the given layout.
///
/// With 32 bits, alpha at bit 24 goes with red, green, blue from bit 0 up or
/// with blue, green, red from bit 0 up; without alpha only the latter is
/// known. With 16 bits the channels have 5, 6 and 5 bits, blue lowest.
pub open spec fn detect_format(bits_per_pixel: u32, layout: PixelLayout) -> PixelFormat {
    let rgb = layout.red.offset == 0 && layout.green.offset == 8 && layout.blue.offset == 16;
    let bgr = layout.blue.offset == 0 && layout.green.offset == 8 && layout.red.offset == 16;
    if bits_per_pixel == 32 {
        if layout.alpha.offset == 24 {
            if rgb {
                PixelFormat::Rgba8888
            } else if bgr {
                PixelFormat::Abgr8888
            } else {
                PixelFormat::Unknown
            }
        } else if layout.alpha.length == 0 && bgr {
            PixelFormat::Bgra8888
        } else {
            PixelFormat::Unknown
        }
    } else if bits_per_pixel == 16 {
        if layout.red.offset == 11 && layout.green.offset == 5 && layout.blue.offset == 0
            && layout.red.length == 5 && layout.green.length == 6 && layout.blue.length == 5 {
            PixelFormat::Rgb565
        } else {
            PixelFormat::Unknown
        }
    } else {
        PixelFormat::Unknown
    }
}

impl PixelFormat {
    /// Finds the pixel format of a framebuffer from its screen information.
    pub fn from_fb_info(vinfo: &VarScreeninfo) -> (r: PixelFormat)
        ensures
            r == detect_format(vinfo.internal.bits_per_pixel, vinfo.layout()),
    {
        let layout = vinfo.pixel_layout();
        let rgb = layout.red.offset == 0 && layout.green.offset == 8 && layout.blue.offset == 16;
        let bgr = layout.blue.offset == 0 && layout.green.offset == 8 && layout.red.offset == 16;
        if vinfo.internal.bits_per_pixel == 32 {
            if layout.alpha.offset == 24 {
                if rgb {
                    PixelFormat::Rgba8888
                } else if bgr {
                    PixelFormat::Abgr8888
                } else {
                    PixelFormat::Unknown
                }
            } else if layout.alpha.length == 0 {
                if bgr {
                    PixelFormat::Bgra8888
                } else {
                    PixelFormat::Unknown
                }
            } else {
                PixelFormat::Unknown
            }
        } else if vinfo.internal.bits_per_pixel == 16 {
            if layout.red.offset == 11 && layout.green.offset == 5 && layout.blue.offset == 0
                && layout.red.length == 5 && layout.green.length == 6 && layout.blue.length == 5 {
                PixelFormat::Rgb565
            } else {
                PixelFormat::Unknown
            }
        } else {
            PixelFormat::Unknown
        }
    }
}

/// Finds the pixel format of a framebuffer, which has to be one of those
/// supported.
pub fn supported_format(vinfo: &VarScreeninfo) -> (r: Result<PixelFormat, Error>)
    ensures
        match r {
            Ok(format) => format != PixelFormat::Unknown && format == detect_format(
                vinfo.internal.bits_per_pixel,
                vinfo.layout(),
            ),
            Err(e) => e is UnsupportedPixelFormat && detect_format(
                vinfo.internal.bits_per_pixel,
                vinfo.layout(),
            ) == PixelFormat::Unknown,
        },
{
    match PixelFormat::from_fb_info(vinfo) {
        PixelFormat::Unknown => Err(Error::UnsupportedPixelFormat),
        format => Ok(format),
    }
}

/// A color whose channels have been multiplied by its alpha.
#[derive(Clone, Copy, Debug, PartialEq, Eq, Structural)]
pub struct PremultipliedRgbaColor {
    pub red: u8,
    pub green: u8,
    pub blue: u8,
    pub alpha: u8,
}

impl PremultipliedRgbaColor {
    /// No channel is larger than the alpha: the color is what multiplying by
    /// its alpha can give.
    pub open spec fn is_premultiplied(self) -> bool {
        self.red <= self.alpha && self.green <= self.alpha && self.blue <= self.alpha
    }

    /// This color with `color` blended over it: each channel keeps the share
    /// that the alpha of `color` lets through, and `color` is added.
    pub open spec fn blended(self, color: PremultipliedRgbaColor) -> PremultipliedRgbaColor {
        let a = 255 - color.alpha;
        PremultipliedRgbaColor {
            red: (self.red * a / 255 + color.red) as u8,
            green: (self.green * a / 255 + color.green) as u8,
            blue: (self.blue * a / 255 + color.blue) as u8,
            alpha: (self.alpha + color.alpha - self.alpha * color.alpha / 255) as u8,
        }
    }
}

/// `i_slint_core::software_renderer::TargetPixel::blend` on a
/// `PremultipliedRgbaColor`: blends `color` over `background`, channel by
/// channel as `blended` says. A channel of `color` above its alpha can
/// overflow a channel of the result, so such a color is left out.
#[verifier::external_body]
fn blend_premultiplied(background: PremultipliedRgbaColor, color: PremultipliedRgbaColor) -> (r:
    PremultipliedRgbaColor)
    requires
        color.is_premultiplied(),
    ensures
        r == background.blended(color),
{
    let b = background;
    let c = color;
    let mut d = i_slint_core::software_renderer::PremultipliedRgbaColor {
        red: b.red, green: b.green, blue: b.blue, alpha: b.alpha,
    };
    let over = i_slint_core::software_renderer::PremultipliedRgbaColor {
        red: c.red, green: c.green, blue: c.blue, alpha: c.alpha,
    };
    i_slint_core::software_renderer::TargetPixel::blend(&mut d, over);
    PremultipliedRgbaColor { red: d.red, green: d.green, blue: d.blue, alpha: d.alpha }
}

/// The 32-bit word whose bytes are, from the lowest, `b0` to `b3`.
pub open spec fn word_of(b0: u8, b1: u8, b2: u8, b3: u8) -> u32 {
    (b0 + b1 * 0x100 + b2 * 0x1_0000 + b3 * 0x100_0000) as u32
}

/// Byte `i` of a 32-bit word, counted from the lowest.
pub open spec fn byte_of(w: u32, i: int) -> u8 {
    if i == 0 {
        (w % 0x100) as u8
    } else if i == 1 {
        (w / 0x100 % 0x100) as u8
    } else if i == 2 {
        (w / 0x1_0000 % 0x100) as u8
    } else {
        (w / 0x100_0000 % 0x100) as u8
    }
}

/// Puts four bytes together to a word.
fn pack_word(b0: u8, b1: u8, b2: u8, b3: u8) -> (w: u32)
    ensures
        w == word_of(b0, b1, b2, b3),
        byte_of(w, 0) == b0,
        byte_of(w, 1) == b1,
        byte_of(w, 2) == b2,
        byte_of(w, 3) == b3,
{
    b0 as u32 + b1 as u32 * 0x100 + b2 as u32 * 0x1_0000 + b3 as u32 * 0x100_0000
}

/// Takes a word apart into its four bytes.
fn unpack_word(w: u32) -> (b: (u8, u8, u8, u8))
    ensures
        b.0 == byte_of(w, 0),
        b.1 == byte_of(w, 1),
        b.2 == byte_of(w, 2),
        b.3 == byte_of(w, 3),
        w == word_of(b.0, b.1, b.2, b.3),
{
    (
        (w % 0x100) as u8,
        (w / 0x100 % 0x100) as u8,
        (w / 0x1_0000 % 0x100) as u8,
        (w / 0x100_0000 % 0x100) as u8,
    )
}

/// A pixel of 32 bits whose bytes are, in memory, blue, green, red, alpha.
#[derive(Clone, Copy, Debug, PartialEq, Eq, Structural)]
pub struct PixelAbgr8888(pub u32);

impl PixelAbgr8888 {
    /// The pixel of a color.
    pub open spec fn of_color(color: PremultipliedRgbaColor) -> PixelAbgr8888 {
        PixelAbgr8888(word_of(color.blue, color.green, color.red, color.alpha))
    }

    /// The color of the pixel.
    pub open spec fn color(self) -> PremultipliedRgbaColor {
        PremultipliedRgbaColor {
            blue: byte_of(self.0, 0),
            green: byte_of(self.0, 1),
            red: byte_of(self.0, 2),
            alpha: byte_of(self.0, 3),
        }
    }

    /// The pixel with `color` blended over it. A color without alpha changes
    /// nothing.
    pub open spec fn blended(self, color: PremultipliedRgbaColor) -> PixelAbgr8888 {
        if color.alpha == 0 {
            self
        } else {
            PixelAbgr8888::of_color(self.color().blended(color))
        }
    }

    /// The pixel of an opaque color.
    pub fn from_rgb(red: u8, green: u8, blue: u8) -> (p: PixelAbgr8888)
        ensures
            p == PixelAbgr8888::of_color(PremultipliedRgbaColor { red, green, blue, alpha: 0xff }),
    {
        let alpha: u8 = 0xff;
        PixelAbgr8888(pack_word(blue, green, red, alpha))
    }

    /// Blends `color` over the pixel. A color with alpha has to be
    /// premultiplied.
    pub fn blend(&mut self, color: PremultipliedRgbaColor)
        requires
            color.alpha == 0 || color.is_premultiplied(),
        ensures
            *final(self) == old(self).blended(color),
    {
        if color.alpha == 0 {
            return ;
        }
        let (blue, green, red, alpha) = unpack_word(self.0);
        let c = blend_premultiplied(PremultipliedRgbaColor { red, green, blue, alpha }, color);
        self.0 = pack_word(c.blue, c.green, c.red, c.alpha);
    }

    /// Blends `color` over every pixel of the slice. A color with alpha has to
    /// be premultiplied.
    pub fn blend_slice(slice: &mut [PixelAbgr8888], color: PremultipliedRgbaColor)
        requires
            color.alpha == 0 || color.is_premultiplied(),
        ensures
            final(slice)@.len() == old(slice)@.len(),
            forall|i: int|
                0 <= i < old(slice)@.len() ==> final(slice)@[i] == old(slice)@[i].blended(color),
    {
        if color.alpha == 0 {
            return ;
        }
        let n = slice.len();
        let mut i: usize = 0;
        while i < n
            invariant
                i <= n,
                n == slice@.len(),
                slice@.len() == old(slice)@.len(),
                color.is_premultiplied(),
                forall|j: int| 0 <= j < i ==> slice@[j] == old(slice)@[j].blended(color),
                forall|j: int| i <= j < n ==> slice@[j] == old(slice)@[j],
            decreases n - i,
        {
            let mut p = slice[i];
            p.blend(color);
            slice[i] = p;
            i = i + 1;
        }
    }
}

/// A pixel of 32 bits whose bytes are, in memory, red, green, blue, alpha.
#[derive(Clone, Copy, Debug, PartialEq, Eq, Structural)]
pub struct PixelRgba8888(pub u32);

impl PixelRgba8888 {
    /// The pixel of a color.
    pub open spec fn of_color(color: PremultipliedRgbaColor) -> PixelRgba8888 {
        PixelRgba8888(word_of(color.red, color.green, color.blue, color.alpha))
    }

    /// The color of the pixel.
    pub open spec fn color(self) -> PremultipliedRgbaColor {
        PremultipliedRgbaColor {
            red: byte_of(self.0, 0),
            green: byte_of(self.0, 1),
            blue: byte_of(self.0, 2),
            alpha: byte_of(self.0, 3),
        }
    }

    /// The pixel with `color` blended over it. A color without alpha changes
    /// nothing.
    pub open spec fn blended(self, color: PremultipliedRgbaColor) -> PixelRgba8888 {
        if color.alpha == 0 {
            self
        } else {
            PixelRgba8888::of_color(self.color().blended(color))
        }
    }

    /// The pixel of an opaque color.
    pub fn from_rgb(red: u8, green: u8, blue: u8) -> (p: PixelRgba8888)
        ensures
            p == PixelRgba8888::of_color(PremultipliedRgbaColor { red, green, blue, alpha: 0xff }),
    {
        let alpha: u8 = 0xff;
        PixelRgba8888(pack_word(red, green, blue, alpha))
    }

    /// Blends `color` over the pixel. A color with alpha has to be
    /// premultiplied.
    pub fn blend(&mut self, color: PremultipliedRgbaColor)
        requires
            color.alpha == 0 || color.is_premultiplied(),
        ensures
            *final(self) == old(self).blended(color),
    {
        if color.alpha == 0 {
            return ;
        }
        let (red, green, blue, alpha) = unpack_word(self.0);
        let c = blend_premultiplied(PremultipliedRgbaColor { red, green, blue, alpha }, color);
        self.0 = pack_word(c.red, c.green, c.blue, c.alpha);
    }

    /// Blends `color` over every pixel of the slice. A color with alpha has to
    /// be premultiplied.
    pub fn blend_slice(slice: &mut [PixelRgba8888], color: PremultipliedRgbaColor)
        requires
            color.alpha == 0 || color.is_premultiplied(),
        ensures
            final(slice)@.len() == old(slice)@.len(),
            forall|i: int|
                0 <= i < old(slice)@.len() ==> final(slice)@[i] == old(slice)@[i].blended(color),
    {
        if color.alpha == 0 {
            return ;
        }
        let n = slice.len();
        let mut i: usize = 0;
        while i < n
            invariant
                i <= n,
                n == slice@.len(),
                slice@.len() == old(slice)@.len(),
                color.is_premultiplied(),
                forall|j: int| 0 <= j < i ==> slice@[j] == old(slice)@[j].blended(color),
                forall|j: int| i <= j < n ==> slice@[j] == old(slice)@[j],
            decreases n - i,
        {
            let mut p = slice[i];
            p.blend(color);
            slice[i] = p;
            i = i + 1;
        }
    }
}

/// A pixel of 32 bits whose bytes are, in memory, blue, green, red, and a
/// fourth that is kept as an alpha.
#[derive(Clone, Copy, Debug, PartialEq, Eq, Structural)]
pub struct PixelBgra8888(pub u32);

impl PixelBgra8888 {
    /// The pixel of a color.
    pub open spec fn of_color(color: PremultipliedRgbaColor) -> PixelBgra8888 {
        PixelBgra8888(word_of(color.blue, color.green, color.red, color.alpha))
    }

    /// The color of the pixel.
    pub open spec fn color(self) -> PremultipliedRgbaColor {
        PremultipliedRgbaColor {
            blue: byte_of(self.0, 0),
            green: byte_of(self.0, 1),
            red: byte_of(self.0, 2),
            alpha: byte_of(self.0, 3),
        }
    }

    /// The pixel with `color` blended over it. A color without alpha changes
    /// nothing.
    pub open spec fn blended(self, color: PremultipliedRgbaColor) -> PixelBgra8888 {
        if color.alpha == 0 {
            self
        } else {
            PixelBgra8888::of_color(self.color().blended(color))
        }
    }

    /// The pixel of an opaque color.
    pub fn from_rgb(red: u8, green: u8, blue: u8) -> (p: PixelBgra8888)
        ensures
            p == PixelBgra8888::of_color(PremultipliedRgbaColor { red, green, blue, alpha: 0xff }),
    {
        let alpha: u8 = 0xff;
        PixelBgra8888(pack_word(blue, green, red, alpha))
    }

    /// Blends `color` over the pixel. A color with alpha has to be
    /// premultiplied.
    pub fn blend(&mut self, color: PremultipliedRgbaColor)
        requires
            color.alpha == 0 || color.is_premultiplied(),
        ensures
            *final(self) == old(self).blended(color),
    {
        if color.alpha == 0 {
            return ;
        }
        let (blue, green, red, alpha) = unpack_word(self.0);
        let c = blend_premultiplied(PremultipliedRgbaColor { red, green, blue, alpha }, color);
        self.0 = pack_word(c.blue, c.green, c.red, c.alpha);
    }

    /// Blends `color` over every pixel of the slice. A color with alpha has to
    /// be premultiplied.
    pub fn blend_slice(slice: &mut [PixelBgra8888], color: PremultipliedRgbaColor)
        requires
            color.alpha == 0 || color.is_premultiplied(),
        ensures
            final(slice)@.len() == old(slice)@.len(),
            forall|i: int|
                0 <= i < old(slice)@.len() ==> final(slice)@[i] == old(slice)@[i].blended(color),
    {
        if color.alpha == 0 {
            return ;
        }
        let n = slice.len();
        let mut i: usize = 0;
        while i < n
            invariant
                i <= n,
                n == slice@.len(),
                slice@.len() == old(slice)@.len(),
                color.is_premultiplied(),
                forall|j: int| 0 <= j < i ==> slice@[j] == old(slice)@[j].blended(color),
                forall|j: int| i <= j < n ==> slice@[j] == old(slice)@[j],
            decreases n - i,
        {
            let mut p = slice[i];
            p.blend(color);
            slice[i] = p;
            i = i + 1;
        }
    }
}


/// A pixel of 16 bits: 5 of red, 6 of green, 5 of blue, red highest.
#[derive(Clone, Copy, Debug, PartialEq, Eq, Structural)]
pub struct PixelRgb565(pub u16);

impl PixelRgb565 {
    /// The pixel of an opaque color: the highest 5, 6 and 5 bits of its red,
    /// green and blue.
    pub open spec fn of_rgb(red: u8, green: u8, blue: u8) -> PixelRgb565 {
        PixelRgb565(((red / 8) * 0x800 + (green / 4) * 0x20 + blue / 8) as u16)
    }

    /// The color of the pixel, each channel widened to 8 bits by repeating
    /// its highest bits below, and opaque.
    pub open spec fn color(self) -> PremultipliedRgbaColor {
        let r5 = self.0 / 0x800;
        let g6 = self.0 / 0x20 % 0x40;
        let b5 = self.0 % 0x20;
        PremultipliedRgbaColor {
            red: (r5 * 8 + r5 / 4) as u8,
            green: (g6 * 4 + g6 / 16) as u8,
            blue: (b5 * 8 + b5 / 4) as u8,
            alpha: 0xff,
        }
    }

    /// The pixel with `color` blended over it. A color without alpha changes
    /// nothing.
    pub open spec fn blended(self, color: PremultipliedRgbaColor) -> PixelRgb565 {
        if color.alpha == 0 {
            self
        } else {
            let c = self.color().blended(color);
            PixelRgb565::of_rgb(c.red, c.green, c.blue)
        }
    }

    /// The pixel of an opaque color.
    pub fn from_rgb(red: u8, green: u8, blue: u8) -> (p: PixelRgb565)
        ensures
            p == PixelRgb565::of_rgb(red, green, blue),
    {
        PixelRgb565((red as u16 / 8) * 0x800 + (green as u16 / 4) * 0x20 + blue as u16 / 8)
    }

    /// Blends `color` over the pixel. A color with alpha has to be
    /// premultiplied.
    pub fn blend(&mut self, color: PremultipliedRgbaColor)
        requires
            color.alpha == 0 || color.is_premultiplied(),
        ensures
            *final(self) == old(self).blended(color),
    {
        if color.alpha == 0 {
            return ;
        }
        let r5: u16 = self.0 / 0x800;
        let g6: u16 = self.0 / 0x20 % 0x40;
        let b5: u16 = self.0 % 0x20;
        let old_color = PremultipliedRgbaColor {
            red: (r5 * 8 + r5 / 4) as u8,
            green: (g6 * 4 + g6 / 16) as u8,
            blue: (b5 * 8 + b5 / 4) as u8,
            alpha: 0xff,
        };
        let c = blend_premultiplied(old_color, color);
        *self = PixelRgb565::from_rgb(c.red, c.green, c.blue);
    }

    /// Blends `color` over every pixel of the slice. A color with alpha has to
    /// be premultiplied.
    pub fn blend_slice(slice: &mut [PixelRgb565], color: PremultipliedRgbaColor)
        requires
            color.alpha == 0 || color.is_premultiplied(),
        ensures
            final(slice)@.len() == old(slice)@.len(),
            forall|i: int|
                0 <= i < old(slice)@.len() ==> final(slice)@[i] == old(slice)@[i].blended(color),
    {
        if color.alpha == 0 {
            return ;
        }
        let n = slice.len();
        let mut i: usize = 0;
        while i < n
            invariant
                i <= n,
                n == slice@.len(),
                slice@.len() == old(slice)@.len(),
                color.is_premultiplied(),
                forall|j: int| 0 <= j < i ==> slice@[j] == old(slice)@[j].blended(color),
                forall|j: int| i <= j < n ==> slice@[j] == old(slice)@[j],
            decreases n - i,
        {
            let mut p = slice[i];
            p.blend(color);
            slice[i] = p;
            i = i + 1;
        }
    }
}

} // verus!
