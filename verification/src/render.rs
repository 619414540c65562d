//! The render loop's per-frame decisions.
//!
//! `RenderState` owns everything the render thread mutates: the current
//! shader, the compile-validity flag, the frame counter, the latched
//! pointer position and the frame-pacing figures. The surrounding program
//! drives it once per frame: drain pending updates, decide whether to
//! draw, record the external compiler's verdict, then pace the frame and
//! fold the achieved rate into a smoothed estimate. All timing figures are
//! integer microseconds; rates are integer milliframes per second.

use crate::background_worker::{update_shader, WorkerUpdate};
use crate::channel::UpdateChannel;
use crate::st_shader::ShadertoyShader;
use vstd::prelude::*;

verus! {

/// The default target frame rate, frames per second.
pub const DEFAULT_TARGET_FPS: u64 = 60;

/// The starting value of the smoothed rate estimate, milliframes per
/// second.
pub const INITIAL_AVERAGE_MFPS: u64 = 60000;

/// One second, in microseconds.
pub const MICROS_PER_SECOND: u64 = 1000000;

/// The frame budget implied by a target rate: how many microseconds one
/// frame may take.
pub open spec fn spec_frame_budget_us(target_fps: u64) -> u64 {
    if target_fps == 0 {
        0
    } else {
        (MICROS_PER_SECOND / target_fps) as u64
    }
}

/// How long to sleep after a frame that took `elapsed_us`: the remainder
/// of the budget, or nothing when the frame already ran over it.
pub open spec fn spec_sleep_us(target_fps: u64, elapsed_us: u64) -> u64 {
    if elapsed_us < spec_frame_budget_us(target_fps) {
        (spec_frame_budget_us(target_fps) - elapsed_us) as u64
    } else {
        0
    }
}

/// The conventional exponential moving average with smoothing factor one
/// tenth, in integer milliframes per second: the estimate moves one tenth
/// of the way (rounded toward the old value) from the old estimate to the
/// instantaneous rate.
pub open spec fn spec_smooth_mfps(avg: u64, instant: u64) -> u64 {
    if instant >= avg {
        (avg + (instant - avg) / 10) as u64
    } else {
        (avg - (avg - instant) / 10) as u64
    }
}

/// All state owned by the render thread.
pub struct RenderState {
    shader: ShadertoyShader,
    has_errors: bool,
    frames_made: u32,
    mouse_x: i64,
    mouse_y: i64,
    pressed: bool,
    max_frames: u64,
    average_mfps: u64,
}

impl RenderState {
    /// The shader currently slated for compilation and drawing.
    pub closed spec fn shader(&self) -> ShadertoyShader {
        self.shader
    }

    /// Whether the last compilation attempt failed and no newer update has
    /// arrived since (the error state of the two-state validity machine).
    pub closed spec fn has_errors(&self) -> bool {
        self.has_errors
    }

    /// How many frames have been submitted for drawing.
    pub closed spec fn frames_made(&self) -> u32 {
        self.frames_made
    }

    /// The latched pointer position.
    pub closed spec fn pointer(&self) -> (i64, i64) {
        (self.mouse_x, self.mouse_y)
    }

    /// Whether the primary pointer button is currently held down.
    pub closed spec fn pressed(&self) -> bool {
        self.pressed
    }

    /// The target frame rate, frames per second.
    pub closed spec fn target_fps(&self) -> u64 {
        self.max_frames
    }

    /// The smoothed achieved-rate estimate, milliframes per second.
    pub closed spec fn average_mfps(&self) -> u64 {
        self.average_mfps
    }

    /// Validity: pacing needs a positive target rate.
    pub open spec fn wf(&self) -> bool {
        self.target_fps() >= 1
    }

    /// Everything but the shader and the validity flag is as in `other`.
    pub open spec fn same_but_shader(&self, other: &RenderState) -> bool {
        &&& self.frames_made() == other.frames_made()
        &&& self.pointer() == other.pointer()
        &&& self.pressed() == other.pressed()
        &&& self.target_fps() == other.target_fps()
        &&& self.average_mfps() == other.average_mfps()
    }

    /// The state at startup, around the first successfully loaded shader:
    /// valid, nothing drawn yet, pointer at the origin and released, the
    /// default target rate, and the estimate primed at that rate.
    pub fn new(shader: ShadertoyShader) -> (r: RenderState)
        ensures
            r.shader() == shader,
            !r.has_errors(),
            r.frames_made() == 0,
            r.pointer() == (0i64, 0i64),
            !r.pressed(),
            r.target_fps() == DEFAULT_TARGET_FPS,
            r.average_mfps() == INITIAL_AVERAGE_MFPS,
            r.wf(),
    {
        RenderState {
            shader,
            has_errors: false,
            frames_made: 0,
            mouse_x: 0,
            mouse_y: 0,
            pressed: false,
            max_frames: DEFAULT_TARGET_FPS,
            average_mfps: INITIAL_AVERAGE_MFPS,
        }
    }

    /// Takes one update: the carried shader becomes current, and any
    /// update unconditionally clears the error state back to valid, even
    /// before recompilation is attempted.
    pub fn apply_update(&mut self, u: WorkerUpdate)
        ensures
            final(self).shader() == update_shader(u),
            !final(self).has_errors(),
            final(self).same_but_shader(old(self)),
    {
        match u {
            WorkerUpdate::NewShader(shader) => {
                self.shader = shader;
                self.has_errors = false;
            },
        }
    }

    /// Drains every pending update without waiting. When at least one
    /// update was queued, the last one enqueued becomes the current shader
    /// and the error state is cleared; with nothing queued the state is
    /// untouched. The channel is empty afterwards either way.
    pub fn drain_updates(&mut self, channel: &mut UpdateChannel)
        ensures
            final(channel)@.len() == 0,
            old(channel)@.len() > 0 ==> {
                &&& final(self).shader() == update_shader(old(channel)@.last())
                &&& !final(self).has_errors()
                &&& final(self).same_but_shader(old(self))
            },
            old(channel)@.len() == 0 ==> *final(self) == *old(self),
    {
        let ghost all = channel@;
        let ghost mut taken: int = 0;
        let mut pending = channel.len();
        while pending > 0
            invariant
                pending == channel@.len(),
                0 <= taken <= all.len(),
                channel@ == all.skip(taken),
                taken > 0 ==> {
                    &&& self.shader() == update_shader(all[taken - 1])
                    &&& !self.has_errors()
                    &&& self.same_but_shader(old(self))
                },
                taken == 0 ==> *self == *old(self),
            decreases pending,
        {
            match channel.try_recv() {
                Some(u) => {
                    proof {
                        assert(all.skip(taken)[0] == all[taken]);
                        assert(all.skip(taken).subrange(1, all.skip(taken).len() as int) =~= all.skip(
                            taken + 1,
                        ));
                    }
                    self.apply_update(u);
                    proof {
                        taken = taken + 1;
                    }
                },
                None => {
                    proof {
                        assert(false);
                    }
                },
            }
            pending = channel.len();
        }
        proof {
            assert(all.skip(taken).len() == all.len() - taken);
            assert(taken == all.len());
            if all.len() > 0 {
                assert(all[taken - 1] == all.last());
            }
        }
    }

    /// Whether this frame should be drawn at all: in the error state the
    /// frame is skipped entirely and nothing further is reported until a
    /// new update arrives.
    pub fn should_draw(&self) -> (r: bool)
        ensures
            r == !self.has_errors(),
    {
        !self.has_errors
    }

    /// Records that the external compiler rejected the current shader:
    /// the validity machine moves to its error state, and stays there
    /// until an update arrives.
    pub fn record_compile_failure(&mut self)
        ensures
            final(self).has_errors(),
            final(self).shader() == old(self).shader(),
            final(self).same_but_shader(old(self)),
    {
        self.has_errors = true;
    }

    /// Counts one more submitted frame.
    pub fn next_frame(&mut self)
        requires
            old(self).frames_made() < u32::MAX,
        ensures
            final(self).frames_made() == old(self).frames_made() + 1,
            final(self).shader() == old(self).shader(),
            final(self).has_errors() == old(self).has_errors(),
            final(self).pointer() == old(self).pointer(),
            final(self).pressed() == old(self).pressed(),
            final(self).target_fps() == old(self).target_fps(),
            final(self).average_mfps() == old(self).average_mfps(),
    {
        self.frames_made = self.frames_made + 1;
    }

    /// Latches a pointer movement: the position is taken over only while
    /// the primary button is held down; motion with the button released
    /// leaves the latched position alone (drag to pan, not continuous
    /// tracking).
    pub fn on_cursor_moved(&mut self, x: i64, y: i64)
        ensures
            final(self).pointer() == if old(self).pressed() {
                (x, y)
            } else {
                old(self).pointer()
            },
            final(self).pressed() == old(self).pressed(),
            final(self).shader() == old(self).shader(),
            final(self).has_errors() == old(self).has_errors(),
            final(self).frames_made() == old(self).frames_made(),
            final(self).target_fps() == old(self).target_fps(),
            final(self).average_mfps() == old(self).average_mfps(),
    {
        if self.pressed {
            self.mouse_x = x;
            self.mouse_y = y;
        }
    }

    /// Records a press or release of the primary pointer button.
    pub fn on_mouse_input(&mut self, pressed: bool)
        ensures
            final(self).pressed() == pressed,
            final(self).pointer() == old(self).pointer(),
            final(self).shader() == old(self).shader(),
            final(self).has_errors() == old(self).has_errors(),
            final(self).frames_made() == old(self).frames_made(),
            final(self).target_fps() == old(self).target_fps(),
            final(self).average_mfps() == old(self).average_mfps(),
    {
        self.pressed = pressed;
    }

    /// How long to sleep after a frame that took `frame_elapsed_us`
    /// microseconds, to hold the target rate: the remainder of the frame
    /// budget, or nothing when the frame already ran over it.
    pub fn sleep_us(&self, frame_elapsed_us: u64) -> (r: u64)
        requires
            self.wf(),
        ensures
            r == spec_sleep_us(self.target_fps(), frame_elapsed_us),
    {
        let budget = MICROS_PER_SECOND / self.max_frames;
        if frame_elapsed_us < budget {
            budget - frame_elapsed_us
        } else {
            0
        }
    }

    /// Folds one instantaneous achieved rate (milliframes per second) into
    /// the smoothed estimate, by the exponential moving average of
    /// [`spec_smooth_mfps`].
    pub fn update_frame_rate(&mut self, achieved_mfps: u64)
        ensures
            final(self).average_mfps() == spec_smooth_mfps(old(self).average_mfps(), achieved_mfps),
            final(self).shader() == old(self).shader(),
            final(self).has_errors() == old(self).has_errors(),
            final(self).frames_made() == old(self).frames_made(),
            final(self).pointer() == old(self).pointer(),
            final(self).pressed() == old(self).pressed(),
            final(self).target_fps() == old(self).target_fps(),
    {
        if achieved_mfps >= self.average_mfps {
            self.average_mfps = self.average_mfps + (achieved_mfps - self.average_mfps) / 10;
        } else {
            self.average_mfps = self.average_mfps - (self.average_mfps - achieved_mfps) / 10;
        }
    }

    /// The assembled program text of the current shader, for the external
    /// compiler.
    pub fn glsl(&self) -> (r: &str)
        ensures
            r@ == self.shader()@,
    {
        self.shader.as_glsl()
    }

    /// The frame counter, for the frame-index uniform.
    pub fn frame_index(&self) -> (r: u32)
        ensures
            r == self.frames_made(),
    {
        self.frames_made
    }

    /// The latched pointer position, for the pointer uniform.
    pub fn pointer_position(&self) -> (r: (i64, i64))
        ensures
            r == self.pointer(),
    {
        (self.mouse_x, self.mouse_y)
    }

    /// The smoothed rate estimate in milliframes per second, for the
    /// frame-rate uniform.
    pub fn frame_rate_mfps(&self) -> (r: u64)
        ensures
            r == self.average_mfps(),
    {
        self.average_mfps
    }
}

/// The smoothed estimate stays between the old estimate and the
/// instantaneous rate: smoothing never overshoots in either direction.
pub proof fn lemma_smooth_bounded(avg: u64, instant: u64)
    ensures
        avg <= instant ==> avg <= spec_smooth_mfps(avg, instant) <= instant,
        instant <= avg ==> instant <= spec_smooth_mfps(avg, instant) <= avg,
{
}

} // verus!
