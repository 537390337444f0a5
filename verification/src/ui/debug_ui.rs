//! The debug overlay: its clock and what it contributes to a frame.

use vstd::prelude::*;
use crate::error::ErrorKind;
use crate::event::LoopEvent;
use crate::render::commands::{Command, CommandEncoder};
use crate::render::renderer::{FrameTarget, TextureFormat};

verus! {

/// The state of the overlay. Times are readings of a monotonic clock, in
/// nanoseconds.
#[derive(Debug, PartialEq, Eq, Structural)]
pub struct DebugUi {
    /// The format of the colour targets the overlay can draw into.
    pub color_format: TextureFormat,
    /// When the loop last woke up.
    pub last_frame: u128,
    /// The time between the last two wake-ups: the frame time on display.
    pub delta_s: u128,
    /// Whether the demo panel is shown.
    pub demo_open: bool,
}

/// The time from `earlier` to `now`; zero where the clock went backwards.
pub open spec fn elapsed(earlier: u128, now: u128) -> u128 {
    if now >= earlier {
        (now - earlier) as u128
    } else {
        0
    }
}

impl DebugUi {
    /// The overlay after a wake-up at `now`.
    pub open spec fn woken(self, now: u128) -> DebugUi {
        DebugUi { last_frame: now, delta_s: elapsed(self.last_frame, now), ..self }
    }

    /// What the overlay adds to the frame `target`.
    pub open spec fn overlay_command(&self, target: u64) -> Command {
        Command::Overlay { target, frame_time: self.delta_s, demo_open: self.demo_open }
    }

    /// An overlay for colour targets of the given format, created at `now`.
    /// No frame time has been measured yet, and the demo panel is hidden.
    pub fn new(color_format: TextureFormat, now: u128) -> (ui: DebugUi)
        ensures
            ui == (DebugUi { color_format, last_frame: now, delta_s: 0, demo_open: false }),
    {
        DebugUi { color_format, last_frame: now, delta_s: 0, demo_open: false }
    }

    /// Advances the clock on a wake-up of the loop: the frame time becomes
    /// the time since the previous wake-up.
    pub fn update(&mut self, now: u128)
        ensures
            *final(self) == old(self).woken(now),
    {
        self.delta_s = if now >= self.last_frame {
            now - self.last_frame
        } else {
            0
        };
        self.last_frame = now;
    }

    /// Takes note of how the synchronisation with the window went, before a
    /// redraw is requested.
    pub fn prepare_frame(&mut self, synchronised: bool) -> (res: Result<(), ErrorKind>)
        ensures
            *final(self) == *old(self),
            synchronised ==> res == Ok::<(), ErrorKind>(()),
            !synchronised ==> res == Err::<(), ErrorKind>(ErrorKind::PlatformIntegration),
    {
        if synchronised {
            Ok(())
        } else {
            Err(ErrorKind::PlatformIntegration)
        }
    }

    /// Looks at an event that the loop has dealt with. The overlay takes
    /// every event of the window system as input, whatever the loop made of
    /// it, and none of the reports of the embedding program. Its clock and
    /// its panels stay as they are, and the event stays with the caller.
    pub fn handle_event(&mut self, event: &LoopEvent) -> (taken: bool)
        ensures
            *final(self) == *old(self),
            taken == event.from_window(),
    {
        event.is_window_event()
    }

    /// Appends the overlay's draw commands for `frame` to what the encoder
    /// has recorded so far.
    pub fn draw(&mut self, encoder: &mut CommandEncoder, frame: &FrameTarget)
        ensures
            *final(self) == *old(self),
            final(encoder)@ == old(encoder)@.push(old(self).overlay_command(frame.generation)),
    {
        encoder.commands.push(
            Command::Overlay {
                target: frame.generation,
                frame_time: self.delta_s,
                demo_open: self.demo_open,
            },
        );
    }
}

/// The frame time is the time that passed between two wake-ups.
pub proof fn lemma_frame_time_is_time_between_wakes(ui: DebugUi, first: u128, second: u128)
    requires
        first <= second,
    ensures
        ui.woken(first).woken(second).delta_s == second - first,
{
}

/// A later reading never shows a shorter frame time.
pub proof fn lemma_frame_time_grows_with_clock(ui: DebugUi, sooner: u128, later: u128)
    requires
        sooner <= later,
    ensures
        ui.woken(sooner).delta_s <= ui.woken(later).delta_s,
{
}

} // verus!
