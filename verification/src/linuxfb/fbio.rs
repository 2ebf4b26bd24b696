//! The screen information of a framebuffer device, as the kernel hands it
//! out, and what can be read from it and set in it.

use vstd::prelude::*;

verus! {

/// In `activate`: apply the new settings at once.
pub const FB_ACTIVATE_NOW: u32 = 0;

/// Number of bytes that hold the identification of a device.
pub const ID_LEN: usize = 16;

/// An error of the operating system.
#[derive(Debug)]
pub struct ErrnoError {
    /// The error number.
    pub errno: i32,
    /// The system's message for it.
    pub message: String,
}

/// Where the bits of one color channel lie in a pixel, as the kernel says it.
#[derive(Clone, Copy, Debug, PartialEq, Eq, Structural)]
pub struct Bitfield {
    /// First bit of the channel.
    pub offset: u32,
    /// Number of bits.
    pub length: u32,
    /// Not 0 where the most significant bit is on the right.
    pub msb_right: u32,
}

/// Where the bits of one color channel lie in a pixel.
#[derive(Clone, Copy, Debug, PartialEq, Eq, Structural)]
pub struct PixelLayoutChannel {
    /// Start of data, in bits.
    pub offset: u32,
    /// Size of data, in bits.
    pub length: u32,
    /// When true, the most significant bit is on the right.
    pub msb_right: bool,
}

impl PixelLayoutChannel {
    /// The channel that a bitfield of the kernel describes.
    pub open spec fn of(bitfield: Bitfield) -> PixelLayoutChannel {
        PixelLayoutChannel {
            offset: bitfield.offset,
            length: bitfield.length,
            msb_right: bitfield.msb_right != 0,
        }
    }
}

impl From<Bitfield> for PixelLayoutChannel {
    fn from(bitfield: Bitfield) -> (c: PixelLayoutChannel) {
        PixelLayoutChannel {
            offset: bitfield.offset,
            length: bitfield.length,
            msb_right: bitfield.msb_right != 0,
        }
    }
}

impl vstd::std_specs::convert::FromSpecImpl<Bitfield> for PixelLayoutChannel {
    open spec fn obeys_from_spec() -> bool {
        true
    }

    open spec fn from_spec(bitfield: Bitfield) -> PixelLayoutChannel {
        PixelLayoutChannel::of(bitfield)
    }
}

/// The layout of a pixel: where each channel lies.
#[derive(Clone, Copy, Debug, PartialEq, Eq, Structural)]
pub struct PixelLayout {
    pub red: PixelLayoutChannel,
    pub green: PixelLayoutChannel,
    pub blue: PixelLayoutChannel,
    pub alpha: PixelLayoutChannel,
}

/// The variable screen information, field by field as the kernel has it.
#[derive(Clone, Copy, Debug, PartialEq, Eq, Structural)]
pub struct RawVarScreeninfo {
    pub xres: u32,
    pub yres: u32,
    pub xres_virtual: u32,
    pub yres_virtual: u32,
    pub xoffset: u32,
    pub yoffset: u32,
    pub bits_per_pixel: u32,
    pub grayscale: u32,
    pub red: Bitfield,
    pub green: Bitfield,
    pub blue: Bitfield,
    pub transp: Bitfield,
    pub nonstd: u32,
    pub activate: u32,
    pub height: u32,
    pub width: u32,
    pub accel_flags: u32,
    pub pixclock: u32,
    pub left_margin: u32,
    pub right_margin: u32,
    pub upper_margin: u32,
    pub lower_margin: u32,
    pub hsync_len: u32,
    pub vsync_len: u32,
    pub sync: u32,
    pub vmode: u32,
    pub rotate: u32,
    pub colorspace: u32,
}

/// The variable screen information of a framebuffer.
#[derive(Clone, Copy, Debug)]
pub struct VarScreeninfo {
    pub internal: RawVarScreeninfo,
}

impl VarScreeninfo {
    /// The layout of a pixel; its alpha channel is the kernel's transparency
    /// channel.
    pub open spec fn layout(self) -> PixelLayout {
        PixelLayout {
            red: PixelLayoutChannel::of(self.internal.red),
            green: PixelLayoutChannel::of(self.internal.green),
            blue: PixelLayoutChannel::of(self.internal.blue),
            alpha: PixelLayoutChannel::of(self.internal.transp),
        }
    }

    /// Width and height of the visible screen, in pixels.
    pub fn size_in_pixels(&self) -> (r: (u32, u32))
        ensures
            r == (self.internal.xres, self.internal.yres),
    {
        (self.internal.xres, self.internal.yres)
    }

    /// Width and height of the screen, in millimeters.
    pub fn size_in_mm(&self) -> (r: (u32, u32))
        ensures
            r == (self.internal.width, self.internal.height),
    {
        (self.internal.width, self.internal.height)
    }

    /// Number of whole bytes in a pixel.
    pub fn bytes_per_pixel(&self) -> (r: u32)
        ensures
            r == self.internal.bits_per_pixel / 8,
    {
        self.internal.bits_per_pixel / 8
    }

    /// The layout of a pixel.
    pub fn pixel_layout(&self) -> (r: PixelLayout)
        ensures
            r == self.layout(),
    {
        PixelLayout {
            red: PixelLayoutChannel::from(self.internal.red),
            green: PixelLayoutChannel::from(self.internal.green),
            blue: PixelLayoutChannel::from(self.internal.blue),
            alpha: PixelLayoutChannel::from(self.internal.transp),
        }
    }

    /// Sets the size of a pixel to `value` bytes. The number of bits must fit.
    pub fn set_bytes_per_pixel(&mut self, value: u32)
        requires
            value * 8 <= u32::MAX,
        ensures
            final(self).internal == (RawVarScreeninfo {
                bits_per_pixel: (value * 8) as u32,
                ..old(self).internal
            }),
    {
        self.internal.bits_per_pixel = value * 8;
    }

    /// Width and height of the virtual screen, in pixels.
    pub fn virtual_size(&self) -> (r: (u32, u32))
        ensures
            r == (self.internal.xres_virtual, self.internal.yres_virtual),
    {
        (self.internal.xres_virtual, self.internal.yres_virtual)
    }

    /// Sets the size of the virtual screen.
    pub fn set_virtual_size(&mut self, width: u32, height: u32)
        ensures
            final(self).internal == (RawVarScreeninfo {
                xres_virtual: width,
                yres_virtual: height,
                ..old(self).internal
            }),
    {
        self.internal.xres_virtual = width;
        self.internal.yres_virtual = height;
    }

    /// Where the visible screen lies in the virtual one.
    pub fn offset(&self) -> (r: (u32, u32))
        ensures
            r == (self.internal.xoffset, self.internal.yoffset),
    {
        (self.internal.xoffset, self.internal.yoffset)
    }

    /// Moves the visible screen within the virtual one.
    pub fn set_offset(&mut self, x: u32, y: u32)
        ensures
            final(self).internal == (RawVarScreeninfo {
                xoffset: x,
                yoffset: y,
                ..old(self).internal
            }),
    {
        self.internal.xoffset = x;
        self.internal.yoffset = y;
    }

    /// Number of bytes of the virtual screen: what has to be mapped into
    /// memory.
    pub open spec fn mapped_len(self) -> int {
        self.internal.xres_virtual * self.internal.yres_virtual * (self.internal.bits_per_pixel
            / 8)
    }

    /// Computes the number of bytes to map, if it can be addressed.
    pub fn map_len(&self) -> (r: Option<usize>)
        ensures
            self.mapped_len() <= usize::MAX <==> r is Some,
            r matches Some(n) ==> n == self.mapped_len(),
    {
        let w = self.internal.xres_virtual;
        let h = self.internal.yres_virtual;
        let b = self.internal.bits_per_pixel / 8;
        assert(w * h <= 0xffff_ffff * 0xffff_ffff) by (nonlinear_arith)
            requires
                0 <= w <= 0xffff_ffff,
                0 <= h <= 0xffff_ffff,
        ;
        let area: u64 = w as u64 * h as u64;
        assert(area * b <= 0xffff_ffff * 0xffff_ffff * 0xffff_ffff && area * b == w * h * b)
            by (nonlinear_arith)
            requires
                area == w * h,
                0 <= area <= 0xffff_ffff * 0xffff_ffff,
                0 <= b <= 0xffff_ffff,
        ;
        let len: u128 = area as u128 * b as u128;
        if len > usize::MAX as u128 {
            None
        } else {
            Some(len as usize)
        }
    }

    /// Asks for the settings to be applied at once.
    pub fn activate_now(&mut self)
        ensures
            final(self).internal == (RawVarScreeninfo {
                activate: FB_ACTIVATE_NOW,
                ..old(self).internal
            }),
    {
        self.internal.activate = FB_ACTIVATE_NOW;
    }
}

/// The fixed screen information, field by field as the kernel has it.
#[derive(Clone, Copy, Debug)]
pub struct RawFixScreeninfo {
    pub id: [u8; ID_LEN],
    pub smem_start: u64,
    pub smem_len: u32,
    pub kind: u32,
    pub type_aux: u32,
    pub visual: u32,
    pub xpanstep: u16,
    pub ypanstep: u16,
    pub ywrapstep: u16,
    pub line_length: u32,
    pub mmio_start: u64,
    pub mmio_len: u32,
    pub accel: u32,
    pub capabilities: u16,
}

/// The fixed screen information of a framebuffer.
#[derive(Clone, Copy, Debug)]
pub struct FixScreeninfo {
    pub internal: RawFixScreeninfo,
}

/// Number of bytes of `id` before the first zero among the first `n`.
pub open spec fn id_len_below(id: Seq<u8>, n: int) -> int
    decreases n,
{
    if n <= 0 {
        0
    } else if id_len_below(id, n - 1) < n - 1 {
        id_len_below(id, n - 1)
    } else if id[n - 1] == 0 {
        n - 1
    } else {
        n
    }
}

impl FixScreeninfo {
    /// The identification of the device: the bytes before the first zero.
    pub open spec fn id_bytes(self) -> Seq<u8> {
        self.internal.id@.take(id_len_below(self.internal.id@, ID_LEN as int))
    }

    /// The identification of the device, as the driver has set it.
    pub fn id(&self) -> (r: Vec<u8>)
        ensures
            r@ == self.id_bytes(),
            forall|i: int| 0 <= i < r@.len() ==> r@[i] != 0,
            r@.len() < ID_LEN ==> self.internal.id@[r@.len() as int] == 0,
    {
        let mut r: Vec<u8> = Vec::new();
        let mut i: usize = 0;
        while i < ID_LEN && self.internal.id[i] != 0
            invariant
                i <= ID_LEN,
                id_len_below(self.internal.id@, i as int) == i,
                r@ == self.internal.id@.take(i as int),
                forall|j: int| 0 <= j < i ==> self.internal.id@[j] != 0,
            decreases ID_LEN - i,
        {
            r.push(self.internal.id[i]);
            assert(self.internal.id@.take(i + 1) =~= self.internal.id@.take(i as int).push(
                self.internal.id@[i as int],
            ));
            i = i + 1;
        }
        proof {
            lemma_id_len_stops(self.internal.id@, i as int, ID_LEN as int);
        }
        r
    }
}

/// Once a zero byte, or the end, has been reached at `i`, the length stays
/// `i`.
pub proof fn lemma_id_len_stops(id: Seq<u8>, i: int, n: int)
    requires
        0 <= i <= n,
        id_len_below(id, i) == i,
        i < n ==> id[i] == 0,
    ensures
        id_len_below(id, n) == i,
    decreases n - i,
{
    if i < n {
        lemma_id_len_stops(id, i, n - 1);
    }
}

/// How far the screen is blanked.
#[derive(Clone, Copy, Debug, PartialEq, Eq, Structural)]
pub enum BlankingLevel {
    /// The screen is on.
    Unblank,
    /// The screen is blank, the sync signals run.
    Normal,
    /// As `Normal`, with the vertical sync off.
    VsyncSuspend,
    /// As `Normal`, with the horizontal sync off.
    HsyncSuspend,
    /// The screen and the sync circuitry are off.
    Powerdown,
}

impl BlankingLevel {
    /// The number that the kernel has for the level.
    pub fn to_ulong(&self) -> (r: u64)
        ensures
            r == match *self {
                BlankingLevel::Unblank => 0u64,
                BlankingLevel::Normal => 1u64,
                BlankingLevel::VsyncSuspend => 2u64,
                BlankingLevel::HsyncSuspend => 3u64,
                BlankingLevel::Powerdown => 4u64,
            },
    {
        match self {
            BlankingLevel::Unblank => 0,
            BlankingLevel::Normal => 1,
            BlankingLevel::VsyncSuspend => 2,
            BlankingLevel::HsyncSuspend => 3,
            BlankingLevel::Powerdown => 4,
        }
    }
}

/// What a terminal shows.
#[derive(Clone, Copy, Debug, PartialEq, Eq, Structural)]
pub enum TerminalMode {
    /// The console's text.
    Text,
    /// Nothing of its own: the framebuffer belongs to the application.
    Graphics,
}

impl TerminalMode {
    /// The number that the kernel has for the mode.
    pub fn to_ulong(&self) -> (r: u64)
        ensures
            r == match *self {
                TerminalMode::Text => 0u64,
                TerminalMode::Graphics => 1u64,
            },
    {
        match self {
            TerminalMode::Text => 0,
            TerminalMode::Graphics => 1,
        }
    }
}

} // verus!
