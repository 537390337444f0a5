//! What the loop reads of a window-system event.

use vstd::prelude::*;
use crate::error::ErrorKind;

verus! {

/// A display scale factor, carried as the bit pattern of an IEEE 754 double.
///
/// The harness never computes with the factor. It records the last one the
/// window system reported and hands it on, so the bits are all it needs.
#[derive(Clone, Copy, Debug, PartialEq, Eq, Structural)]
pub struct ScaleFactor {
    pub bits: u64,
}

/// The bit pattern of the factor one.
pub const SCALE_ONE_BITS: u64 = 0x3FF0_0000_0000_0000;

impl ScaleFactor {
    /// The factor one: a logical pixel is a physical pixel.
    pub open spec fn unit() -> ScaleFactor {
        ScaleFactor { bits: SCALE_ONE_BITS }
    }

    pub fn from_bits(bits: u64) -> (f: ScaleFactor)
        ensures
            f.bits == bits,
    {
        ScaleFactor { bits }
    }

    pub fn to_bits(self) -> (bits: u64)
        ensures
            bits == self.bits,
    {
        self.bits
    }

    pub fn one() -> (f: ScaleFactor)
        ensures
            f == ScaleFactor::unit(),
    {
        ScaleFactor { bits: SCALE_ONE_BITS }
    }
}

/// The keys the loop tells apart.
#[derive(Clone, Copy, Debug, PartialEq, Eq, Structural)]
pub enum Key {
    Escape,
    /// Any other key, or a key the window system could not name.
    Other,
}

/// Whether a key went down or came up.
#[derive(Clone, Copy, Debug, PartialEq, Eq, Structural)]
pub enum ElementState {
    Pressed,
    Released,
}

/// One event handed to the loop.
///
/// The first nine come from the window system. `FrameAcquired` and `Failed`
/// come from the embedding program: they report how the work went that the
/// loop asked for.
#[derive(Clone, Copy, Debug, PartialEq, Eq, Structural)]
pub enum LoopEvent {
    /// The loop woke up: a new batch of events begins. `now` is the reading
    /// of a monotonic clock, in nanoseconds.
    NewEvents { now: u128 },
    /// The display scale factor of the window changed.
    ScaleFactorChanged { scale_factor: ScaleFactor },
    /// The window changed size. `width` and `height` are the window's
    /// current inner size in physical pixels.
    Resized { width: u32, height: u32 },
    KeyboardInput { key: Key, state: ElementState },
    CloseRequested,
    /// Every event of this batch has been delivered.
    MainEventsCleared,
    RedrawRequested,
    RedrawEventsCleared,
    /// Any other window or device event.
    Other,
    /// The swap chain answered the request for the next frame.
    FrameAcquired { ready: bool },
    /// Work that the loop asked for has failed.
    Failed { kind: ErrorKind },
}

impl LoopEvent {
    /// The user asks to leave: Escape went down, or the window is to close.
    pub open spec fn exit_requested(self) -> bool {
        ||| self == LoopEvent::CloseRequested
        ||| self == (LoopEvent::KeyboardInput { key: Key::Escape, state: ElementState::Pressed })
    }

    /// The event came from the window system, not from the embedding program.
    pub open spec fn from_window(self) -> bool {
        !(self is FrameAcquired) && !(self is Failed)
    }

    pub fn is_exit_request(&self) -> (b: bool)
        ensures
            b == self.exit_requested(),
    {
        match self {
            LoopEvent::CloseRequested => true,
            LoopEvent::KeyboardInput { key: Key::Escape, state: ElementState::Pressed } => true,
            _ => false,
        }
    }

    pub fn is_window_event(&self) -> (b: bool)
        ensures
            b == self.from_window(),
    {
        match self {
            LoopEvent::FrameAcquired { .. } => false,
            LoopEvent::Failed { .. } => false,
            _ => true,
        }
    }
}

} // verus!
