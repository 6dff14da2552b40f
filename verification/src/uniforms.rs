//! The values that the fragment program receives with every frame, and the
//! two rules by which they change: start over, and move on by one frame.
//!
//! `T` is the caller's number type for lengths and places on the drawing
//! surface. The library stores such numbers and hands them back; it never
//! computes with them.

use vstd::prelude::*;
use crate::clock::Elapsed;

verus! {

/// The size of the drawing surface. The fragment program also receives the
/// ratio of `width` to `height`, which the caller works out when it draws.
#[derive(Clone, Copy, Debug, PartialEq)]
pub struct Resolution<T> {
    pub width: T,
    pub height: T,
}

/// A place of the pointer as the window system reports it: `y` counts
/// downward from the top edge, and `height` is the height of the surface at
/// the time of the report. In the fragment program's convention, where `y`
/// counts upward, the place is `(x, height - y)`.
#[derive(Clone, Copy, Debug, PartialEq)]
pub struct Spot<T> {
    pub x: T,
    pub y: T,
    pub height: T,
}

/// Where the pointer is, and where the button went down. `None` stands for
/// the point (0, 0).
#[derive(Clone, Copy, Debug, PartialEq)]
pub struct Pointer<T> {
    pub position: Option<Spot<T>>,
    pub click_origin: Option<Spot<T>>,
}

impl<T> Pointer<T> {
    /// The pointer at (0, 0), with no click.
    pub open spec fn spec_origin() -> Pointer<T> {
        Pointer { position: None, click_origin: None }
    }

    #[verifier::when_used_as_spec(spec_origin)]
    pub fn origin() -> (p: Pointer<T>)
        ensures
            p == Pointer::<T>::spec_origin(),
    {
        Pointer { position: None, click_origin: None }
    }
}

/// The per-frame record: the time since the last start in whole
/// milliseconds, the surface's size, the pointer, and the number of the
/// frame. The first frame after a start has number 0.
#[derive(Clone, Copy, Debug, PartialEq)]
pub struct UniformState<T> {
    pub global_time: Elapsed,
    pub resolution: Resolution<T>,
    pub pointer: Pointer<T>,
    pub frame_index: i32,
}

impl<T> UniformState<T> {
    /// The record before the first frame on a surface of the given size.
    pub open spec fn spec_new(width: T, height: T) -> UniformState<T> {
        UniformState {
            global_time: Elapsed::spec_zero(),
            resolution: Resolution { width, height },
            pointer: Pointer::spec_origin(),
            frame_index: -1i32,
        }
    }

    #[verifier::when_used_as_spec(spec_new)]
    pub fn new(width: T, height: T) -> (state: UniformState<T>)
        ensures
            state == UniformState::spec_new(width, height),
    {
        UniformState {
            global_time: Elapsed::zero(),
            resolution: Resolution { width, height },
            pointer: Pointer::origin(),
            frame_index: -1,
        }
    }

    /// The record started over: time, frame number and pointer go back to
    /// their first values together; the surface keeps its size.
    pub open spec fn spec_reset(self) -> UniformState<T> {
        UniformState::spec_new(self.resolution.width, self.resolution.height)
    }

    /// Starts the record over.
    pub fn reset(&mut self)
        ensures
            *final(self) == old(self).spec_reset(),
    {
        self.global_time = Elapsed::zero();
        self.pointer = Pointer::origin();
        self.frame_index = -1;
    }

    /// The record one frame on, `elapsed` after the last start.
    pub open spec fn spec_advance(self, elapsed: Elapsed) -> UniformState<T> {
        UniformState {
            global_time: elapsed,
            frame_index: (self.frame_index + 1) as i32,
            ..self
        }
    }

    /// Moves the record on by one frame.
    pub fn advance(&mut self, elapsed: Elapsed)
        requires
            old(self).frame_index < i32::MAX,
        ensures
            *final(self) == old(self).spec_advance(elapsed),
    {
        self.global_time = elapsed;
        self.frame_index = self.frame_index + 1;
    }
}

} // verus!
