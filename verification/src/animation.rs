//! The animation player: a per-entity, timer-driven frame-index stepper.
//!
//! An entity's animation is described by an [`AnimationConfig`]: an inclusive
//! frame range, a playback rate, a single-shot countdown timer and a playing
//! flag. While playing, every frame tick feeds the elapsed time to the
//! countdown; when it fires the displayed frame index advances by one, and a
//! fresh countdown starts, until the last frame is reached, at which point the
//! index rewinds to the first frame and playback stops. While idle the frame
//! index is frozen.

use vstd::prelude::*;

verus! {

/// Number of microseconds in one second.
pub const MICROS_PER_SECOND: u64 = 1_000_000;

/// How long one animation frame is shown, in whole microseconds, at `fps`
/// frames per second.
pub open spec fn frame_period_micros(fps: u8) -> int
    recommends
        fps >= 1,
{
    MICROS_PER_SECOND as int / fps as int
}

/// Whether a single-shot countdown with `remaining` microseconds left fires
/// when `dt` microseconds elapse. A countdown that already reached zero fired
/// on an earlier tick and never fires again.
pub open spec fn timer_fires(remaining: u64, dt: u64) -> bool {
    remaining > 0 && dt >= remaining
}

/// What is left of a single-shot countdown with `remaining` microseconds
/// after `dt` microseconds elapse.
pub open spec fn timer_remaining_after(remaining: u64, dt: u64) -> int {
    if dt < remaining {
        remaining - dt
    } else {
        0
    }
}

/// A single-shot countdown timer, measured in whole microseconds. Once it
/// reaches zero it stays there until it is replaced by a fresh one.
pub struct FrameTimer {
    pub remaining_micros: u64,
}

impl FrameTimer {
    pub fn new(duration_micros: u64) -> (t: Self)
        ensures
            t.remaining_micros == duration_micros,
    {
        FrameTimer { remaining_micros: duration_micros }
    }

    /// Advance the countdown by `dt_micros`. The result says whether the
    /// countdown fired on this very tick: it is true exactly when the
    /// countdown was still running and the elapsed time used it up.
    pub fn tick(&mut self, dt_micros: u64) -> (just_finished: bool)
        ensures
            just_finished == timer_fires(old(self).remaining_micros, dt_micros),
            final(self).remaining_micros == timer_remaining_after(old(self).remaining_micros, dt_micros),
    {
        if dt_micros < self.remaining_micros {
            self.remaining_micros = self.remaining_micros - dt_micros;
            false
        } else {
            let fired = self.remaining_micros > 0;
            self.remaining_micros = 0;
            fired
        }
    }
}

/// Per-entity animation state: the inclusive frame range of the loop, the
/// playback rate, the countdown until the next frame advance, and whether
/// the animation is currently playing.
pub struct AnimationConfig {
    pub first_sprite_index: usize,
    pub last_sprite_index: usize,
    pub fps: u8,
    pub frame_timer: FrameTimer,
    pub is_playing: bool,
}

impl AnimationConfig {
    /// Structural invariant: a nonempty frame range and a positive playback
    /// rate.
    pub open spec fn wf(self) -> bool {
        self.first_sprite_index <= self.last_sprite_index && self.fps >= 1
    }

    /// A fresh animation: full frame range recorded, timer seeded to one
    /// frame period, not yet playing.
    pub fn new(first: usize, last: usize, fps: u8) -> (c: Self)
        requires
            first <= last,
            fps >= 1,
        ensures
            c.wf(),
            c.first_sprite_index == first,
            c.last_sprite_index == last,
            c.fps == fps,
            c.frame_timer.remaining_micros == frame_period_micros(fps),
            !c.is_playing,
    {
        AnimationConfig {
            first_sprite_index: first,
            last_sprite_index: last,
            fps,
            frame_timer: Self::timer_from_fps(fps),
            is_playing: false,
        }
    }

    /// A fresh single-shot countdown lasting one frame period at `fps`.
    pub fn timer_from_fps(fps: u8) -> (t: FrameTimer)
        requires
            fps >= 1,
        ensures
            t.remaining_micros == frame_period_micros(fps),
    {
        FrameTimer::new(MICROS_PER_SECOND / (fps as u64))
    }
}

/// Start (or restart) the animation: reseed the frame timer to a full frame
/// period and mark the animation playing.
///
/// Triggering while already playing only restarts the current frame's
/// countdown; the frame range and rate are untouched, and since the displayed
/// frame index is not an input at all, playback continues from whichever
/// frame is currently shown — no frame is skipped or repeated.
pub fn trigger_animation(animation: &mut AnimationConfig)
    requires
        old(animation).fps >= 1,
    ensures
        final(animation).is_playing,
        final(animation).frame_timer.remaining_micros == frame_period_micros(old(animation).fps),
        final(animation).first_sprite_index == old(animation).first_sprite_index,
        final(animation).last_sprite_index == old(animation).last_sprite_index,
        final(animation).fps == old(animation).fps,
{
    animation.frame_timer = AnimationConfig::timer_from_fps(animation.fps);
    animation.is_playing = true;
}

/// One frame tick of the animation player for one entity.
///
/// While idle nothing changes at all. While playing, the elapsed time is fed
/// to the countdown; if it does not fire the frame index is unchanged, if it
/// fires on a frame before the last the index advances by one and a fresh
/// countdown starts, and if it fires on the last frame the index rewinds to
/// the first frame and playback stops. The frame index therefore never
/// leaves the configured range.
pub fn execute_animation(config: &mut AnimationConfig, frame: &mut usize, dt_micros: u64)
    requires
        old(config).wf(),
        old(config).first_sprite_index <= *old(frame) <= old(config).last_sprite_index,
    ensures
        final(config).wf(),
        final(config).first_sprite_index == old(config).first_sprite_index,
        final(config).last_sprite_index == old(config).last_sprite_index,
        final(config).fps == old(config).fps,
        final(config).first_sprite_index <= *final(frame) <= final(config).last_sprite_index,
        !old(config).is_playing ==> (*final(config) == *old(config) && *final(frame) == *old(frame)),
        old(config).is_playing && !timer_fires(old(config).frame_timer.remaining_micros, dt_micros) ==> (
            *final(frame) == *old(frame)
            && final(config).is_playing
            && final(config).frame_timer.remaining_micros
                == timer_remaining_after(old(config).frame_timer.remaining_micros, dt_micros)
        ),
        old(config).is_playing && timer_fires(old(config).frame_timer.remaining_micros, dt_micros)
            && *old(frame) == old(config).last_sprite_index ==> (
            *final(frame) == old(config).first_sprite_index
            && !final(config).is_playing
            && final(config).frame_timer.remaining_micros == 0
        ),
        old(config).is_playing && timer_fires(old(config).frame_timer.remaining_micros, dt_micros)
            && *old(frame) < old(config).last_sprite_index ==> (
            *final(frame) == *old(frame) + 1
            && final(config).is_playing
            && final(config).frame_timer.remaining_micros == frame_period_micros(old(config).fps)
        ),
{
    if !config.is_playing {
        return;
    }
    let just_finished = config.frame_timer.tick(dt_micros);
    if just_finished {
        if *frame == config.last_sprite_index {
            *frame = config.first_sprite_index;
            config.is_playing = false;
        } else {
            *frame = *frame + 1;
            config.frame_timer = AnimationConfig::timer_from_fps(config.fps);
        }
    }
}

} // verus!
