//! The decisions of the frame loop: when the loop ends, how large the
//! drawing surface is, and how long to wait before the next frame. Whoever
//! owns the terminal runs the loop and asks here.

use vstd::prelude::*;
use crate::event_group::{Event, EventGroup, KeyCode, is_key};
use crate::gfx::Gfx;

verus! {

/// The size that the last resize event of `events` gives, or `size` where
/// there is none.
pub open spec fn resized(events: Seq<Event>, size: (u16, u16)) -> (u16, u16)
    decreases events.len(),
{
    if events.len() == 0 {
        size
    } else {
        match events.last() {
            Event::Resize(w, h) => (w, h),
            _ => resized(events.drop_last(), size),
        }
    }
}

/// Whether one of `events` is for the Escape key.
pub open spec fn escape_pressed(events: Seq<Event>) -> bool {
    exists|i: int| 0 <= i < events.len() && is_key(#[trigger] events[i], KeyCode::Esc)
}

/// The state of the frame loop.
pub struct Terge {
    /// The drawing surface.
    pub gfx: Gfx,
    /// How long a frame lasts at least, in milliseconds; 0 for no lower
    /// limit.
    pub target_frame_length_ms: u128,
    /// Whether the loop is to end.
    pub should_terminate: bool,
}

impl Terge {
    /// A loop of about sixty frames a second.
    pub fn new() -> (r: Self)
        ensures
            r.target_frame_length_ms == 16,
            !r.should_terminate,
            r.gfx.width == 0,
            r.gfx.height == 0,
            r.gfx.recorded() == Seq::<crate::gfx::DrawCommandView>::empty(),
    {
        Self { gfx: Gfx::new(), target_frame_length_ms: 16, should_terminate: false }
    }

    /// Sets the number of frames a second to aim for.
    pub fn set_target_fps(&mut self, target_fps: u128)
        requires
            target_fps != 0,
        ensures
            final(self).target_frame_length_ms == 1000int / (target_fps as int),
            final(self).should_terminate == old(self).should_terminate,
            final(self).gfx == old(self).gfx,
    {
        self.target_frame_length_ms = 1_000 / target_fps;
    }

    /// Lets the frames follow one another without waiting.
    pub fn disable_fps(&mut self)
        ensures
            final(self).target_frame_length_ms == 0,
            final(self).should_terminate == old(self).should_terminate,
            final(self).gfx == old(self).gfx,
    {
        self.target_frame_length_ms = 0;
    }

    /// Takes from the events of a tick what is the loop's own: the Escape
    /// key ends the loop, and a resize sets the size of the drawing surface.
    pub fn on_events(&mut self, events: &EventGroup)
        ensures
            final(self).should_terminate == (old(self).should_terminate || escape_pressed(
                events.events@,
            )),
            (final(self).gfx.width, final(self).gfx.height) == resized(
                events.events@,
                (old(self).gfx.width, old(self).gfx.height),
            ),
            final(self).gfx.commands == old(self).gfx.commands,
            final(self).target_frame_length_ms == old(self).target_frame_length_ms,
    {
        let mut i: usize = 0;
        while i < events.events.len()
            invariant
                0 <= i <= events.events@.len(),
                self.should_terminate == (old(self).should_terminate || escape_pressed(
                    events.events@.take(i as int),
                )),
                (self.gfx.width, self.gfx.height) == resized(
                    events.events@.take(i as int),
                    (old(self).gfx.width, old(self).gfx.height),
                ),
                self.gfx.commands == old(self).gfx.commands,
                self.target_frame_length_ms == old(self).target_frame_length_ms,
            decreases events.events.len() - i,
        {
            let ghost before = events.events@.take(i as int);
            let ghost after = events.events@.take(i + 1);
            proof {
                assert(after.drop_last() =~= before);
                assert(after.last() == events.events@[i as int]);
                if escape_pressed(before) {
                    let k = choose|k: int|
                        0 <= k < before.len() && is_key(#[trigger] before[k], KeyCode::Esc);
                    assert(is_key(after[k], KeyCode::Esc));
                }
                if escape_pressed(after) && !is_key(events.events@[i as int], KeyCode::Esc) {
                    let k = choose|k: int|
                        0 <= k < after.len() && is_key(#[trigger] after[k], KeyCode::Esc);
                    assert(is_key(before[k], KeyCode::Esc));
                }
            }
            match events.events[i] {
                Event::Key(key_event) => {
                    if key_event.code == KeyCode::Esc {
                        self.should_terminate = true;
                        assert(is_key(after[i as int], KeyCode::Esc));
                    }
                },
                Event::Resize(width, height) => {
                    self.gfx.width = width;
                    self.gfx.height = height;
                },
                _ => {},
            }
            i = i + 1;
        }
        assert(events.events@.take(events.events@.len() as int) =~= events.events@);
    }

    /// Takes note of what the application answered to the events of a
    /// tick: the loop ends where it does not want to go on.
    pub fn on_updated(&mut self, go_on: bool)
        ensures
            final(self).should_terminate == (old(self).should_terminate || !go_on),
            final(self).gfx == old(self).gfx,
            final(self).target_frame_length_ms == old(self).target_frame_length_ms,
    {
        if !go_on {
            self.should_terminate = true;
        }
    }

    /// How long to wait after a frame that began at `frame_start_ms` and
    /// was done at `current_ms`: what is left of the frame's length, and
    /// nothing where the frame took that long or the clock went back.
    pub fn frame_sleep_ms(&self, frame_start_ms: u128, current_ms: u128) -> (r: u128)
        ensures
            r == if frame_start_ms <= current_ms && current_ms - frame_start_ms
                < self.target_frame_length_ms {
                self.target_frame_length_ms - (current_ms - frame_start_ms)
            } else {
                0
            },
    {
        if current_ms < frame_start_ms {
            return 0;
        }
        let elapsed_ms: u128 = current_ms - frame_start_ms;
        if elapsed_ms < self.target_frame_length_ms {
            self.target_frame_length_ms - elapsed_ms
        } else {
            0
        }
    }
}

} // verus!
