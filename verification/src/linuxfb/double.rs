//! The layout of a double buffer on a framebuffer: a virtual screen twice as
//! high as the visible one, of which one half is shown while the other is
//! drawn to.

use vstd::prelude::*;

verus! {

/// Which half is drawn to.
#[derive(Clone, Copy, Debug, PartialEq, Eq, Structural)]
pub enum State {
    DrawToFirst,
    DrawToSecond,
}

impl State {
    /// The other half.
    pub open spec fn flipped(self) -> State {
        match self {
            State::DrawToFirst => State::DrawToSecond,
            State::DrawToSecond => State::DrawToFirst,
        }
    }

    /// Changes to the other half, and returns it.
    pub fn flip(&mut self) -> (r: State)
        ensures
            *final(self) == old(self).flipped(),
            r == old(self).flipped(),
    {
        let next = match self {
            State::DrawToFirst => State::DrawToSecond,
            State::DrawToSecond => State::DrawToFirst,
        };
        *self = next;
        next
    }

    /// The vertical offset at which the screen shows the half that is not
    /// drawn to, for a screen of the given height.
    pub fn shown_offset(&self, height: u32) -> (r: u32)
        ensures
            r == (match *self {
                State::DrawToFirst => height,
                State::DrawToSecond => 0,
            }),
    {
        match self {
            State::DrawToFirst => height,
            State::DrawToSecond => 0,
        }
    }
}

/// What has to be done to a framebuffer before it can serve as a double
/// buffer, and which half is drawn to first.
#[derive(Clone, Copy, Debug)]
pub struct Setup {
    /// The virtual size to set, if the one in place does not fit.
    pub virtual_size: Option<(u32, u32)>,
    /// Whether the offset has to be set to the origin.
    pub reset_offset: bool,
    /// The half that is drawn to first.
    pub state: State,
}

/// The setup for a screen of `width` by `height` pixels whose virtual size
/// and offset are as given. The virtual screen must be as wide as the screen
/// and twice as high. An offset that shows neither half is reset to the
/// origin. Drawing starts in the half that is not shown: in the first where
/// the offset, after a reset the origin, is the height of the screen, and in
/// the second otherwise.
pub open spec fn setup_for(
    width: u32,
    height: u32,
    virtual_size: (u32, u32),
    offset: (u32, u32),
) -> Setup {
    let fits = virtual_size.0 == width && virtual_size.1 == height * 2;
    let reset = offset.0 != 0 || (offset.1 != 0 && offset.1 != height);
    Setup {
        virtual_size: if fits {
            None
        } else {
            Some((width, (height * 2) as u32))
        },
        reset_offset: reset,
        state: if (if reset {
            0
        } else {
            offset.1
        }) == height {
            State::DrawToFirst
        } else {
            State::DrawToSecond
        },
    }
}

/// Plans the setup of a double buffer. A screen too high to be doubled has
/// none.
pub fn plan_setup(width: u32, height: u32, virtual_size: (u32, u32), offset: (u32, u32)) -> (r:
    Option<Setup>)
    ensures
        height * 2 <= u32::MAX <==> r is Some,
        r matches Some(s) ==> s == setup_for(width, height, virtual_size, offset),
{
    if height > u32::MAX / 2 {
        return None;
    }
    let doubled: u32 = height * 2;
    let fits = virtual_size.0 == width && virtual_size.1 == doubled;
    let reset = offset.0 != 0 || (offset.1 != 0 && offset.1 != height);
    let shown: u32 = if reset {
        0
    } else {
        offset.1
    };
    Some(
        Setup {
            virtual_size: if fits {
                None
            } else {
                Some((width, doubled))
            },
            reset_offset: reset,
            state: if shown == height {
                State::DrawToFirst
            } else {
                State::DrawToSecond
            },
        },
    )
}

/// The bytes of the half that is drawn to, as a range of the mapped memory,
/// for pixels of `bytes_per_pixel` bytes: the first page or the second.
pub open spec fn back_buffer_range(
    bytes_per_pixel: u32,
    width: u32,
    height: u32,
    state: State,
) -> (int, int) {
    let page = bytes_per_pixel * height * width;
    match state {
        State::DrawToFirst => (0, page),
        State::DrawToSecond => (page, page * 2),
    }
}

/// Computes the range of the half that is drawn to, if its end can be
/// addressed.
pub fn back_buffer(bytes_per_pixel: u32, width: u32, height: u32, state: State) -> (r: Option<
    (usize, usize),
>)
    ensures
        (bytes_per_pixel * height * width) * 2 <= usize::MAX <==> r is Some,
        r matches Some(range) ==> (range.0 as int, range.1 as int) == back_buffer_range(
            bytes_per_pixel,
            width,
            height,
            state,
        ),
{
    assert(height * width <= 0xffff_ffff * 0xffff_ffff) by (nonlinear_arith)
        requires
            0 <= height <= 0xffff_ffff,
            0 <= width <= 0xffff_ffff,
    ;
    let area: u64 = height as u64 * width as u64;
    assert(bytes_per_pixel * area <= 0xffff_ffff * (0xffff_ffff * 0xffff_ffff) && bytes_per_pixel
        * area == bytes_per_pixel * height * width) by (nonlinear_arith)
        requires
            area == height * width,
            0 <= bytes_per_pixel <= 0xffff_ffff,
            0 <= area <= 0xffff_ffff * 0xffff_ffff,
    ;
    let page: u128 = bytes_per_pixel as u128 * area as u128;
    if page * 2 > usize::MAX as u128 {
        return None;
    }
    let page: usize = page as usize;
    match state {
        State::DrawToFirst => Some((0, page)),
        State::DrawToSecond => Some((page, page * 2)),
    }
}

} // verus!
