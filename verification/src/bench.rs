//! A bench to run fades on.
//!
//! The bench stands for everything a fade touches: a device with one level
//! and a mute flag, the record of the level before the last mute, and the
//! pauses in which the level is heard. Its device is ideal: it never fails,
//! nothing else changes its level, a step moves the level by exactly its
//! amount, and the level stays within the scale, which runs from silence to
//! the largest value of the scalar. The functions that run whole fades on
//! the bench drive the machines of [`crate::fade`] as any driver would, and
//! say where each fade ends and which levels were heard on the way.

use vstd::prelude::*;
use crate::cache::{le_bytes, lemma_save_then_query, recorded, VolumeCache};
use crate::fade::{
    Action, Event, Fade, MuteFade, MutePhase, Ramp, RampPhase, ToggleFade, UnmuteFade, UnmutePhase,
};
use crate::volume::{
    lowered, raised, spec_step_amount, Volume, DEC_STEPS, FADE_IN_INCREMENT, FADE_OUT_DECREMENT,
    INC_STEPS, MUTED,
};

verus! {

/// The device and the record that a fade works on.
#[derive(Clone, Debug, PartialEq, Eq)]
pub struct Bench {
    /// The level of the device.
    pub volume: Volume,
    /// The mute flag of the device.
    pub muted: bool,
    /// The record of the level before the last mute.
    pub cache: VolumeCache,
    /// Every level that was put on record, oldest first.
    pub saved: Vec<Volume>,
    /// The level during each pause, oldest first.
    pub heard: Vec<Volume>,
}

/// A bench as a mathematical value.
pub struct BenchView {
    pub volume: Volume,
    pub muted: bool,
    pub cache: Option<Seq<u8>>,
    pub saved: Seq<Volume>,
    pub heard: Seq<Volume>,
}

impl View for Bench {
    type V = BenchView;

    open spec fn view(&self) -> BenchView {
        BenchView {
            volume: self.volume,
            muted: self.muted,
            cache: self.cache@,
            saved: self.saved@,
            heard: self.heard@,
        }
    }
}

/// A level moved by an amount in one direction, held within the scale.
pub open spec fn moved_by(rising: bool, level: Volume, amount: int) -> int {
    if rising {
        if level + amount > u32::MAX {
            u32::MAX as int
        } else {
            level + amount
        }
    } else {
        if level <= amount {
            0
        } else {
            level - amount
        }
    }
}

/// The levels heard in the pauses of `count` steps of one size, taken in one
/// direction from a start level: after the first step, after the second, and
/// so on.
pub open spec fn trail(rising: bool, start: Volume, delta: u32, count: int) -> Seq<Volume> {
    if count <= 0 {
        Seq::empty()
    } else {
        Seq::new(count as nat, |i: int| moved_by(rising, start, (i + 1) * delta) as u32)
    }
}

impl BenchView {
    /// The bench after an action was carried out on it.
    pub open spec fn after(self, action: Action) -> BenchView {
        match action {
            Action::SetMute(muted) => BenchView { muted, ..self },
            Action::Raise(amount) => BenchView { volume: raised(self.volume, amount), ..self },
            Action::Lower(amount) => BenchView { volume: lowered(self.volume, amount), ..self },
            Action::Pause => BenchView { heard: self.heard.push(self.volume), ..self },
            Action::SaveCache(level) => BenchView {
                cache: Some(le_bytes(level)),
                saved: self.saved.push(level),
                ..self
            },
            Action::ReadVolume | Action::LoadCache | Action::Done | Action::Abort => self,
        }
    }

    /// What the bench reports of an action.
    pub open spec fn answer(self, action: Action) -> Event {
        match action {
            Action::ReadVolume => Event::Level(self.volume),
            Action::LoadCache => Event::Recorded(recorded(self.cache)),
            _ => Event::Ready,
        }
    }

    /// That a fresh `ramp`, run to its end on this bench, took `applied`
    /// steps and left the bench as `end`.
    ///
    /// Only the level and, for a rising ramp, the mute flag change. Each step
    /// moves the level by the amount of the ramp and is followed by a pause.
    /// Without a target all steps are taken. With one, every step taken began
    /// below the target, and steps were left out only if the target was
    /// reached: these two fix `applied`.
    pub open spec fn ramped_to(self, end: BenchView, ramp: Ramp, applied: int) -> bool {
        &&& end.cache == self.cache
        &&& end.saved == self.saved
        &&& end.muted == if ramp.rising {
            false
        } else {
            self.muted
        }
        &&& 0 <= applied <= ramp.steps
        &&& end.volume == moved_by(ramp.rising, self.volume, applied * ramp.delta)
        &&& end.heard == self.heard + trail(ramp.rising, self.volume, ramp.delta, applied)
        &&& match ramp.target {
            Some(target) => {
                &&& applied < ramp.steps ==> end.volume >= target
                &&& applied > 0 ==> self.volume + (applied - 1) * ramp.delta < target
            },
            None => applied == ramp.steps,
        }
    }

    /// That a fade to silence, run on this bench in rounds of `decrement`,
    /// took `steps` steps and left the bench as `end`.
    ///
    /// A silent bench stays as it is: nothing is put on record and the mute
    /// flag is not touched. On any other the level from before the fade is
    /// put on record, once; the level ends at silence and the mute flag is
    /// set. Each step lowers the level by one tenth of `decrement` and is
    /// followed by a pause. The steps come in whole rounds of `DEC_STEPS`, and
    /// the last round began above silence: this fixes `steps`.
    pub open spec fn muted_to(self, end: BenchView, decrement: u32, steps: int) -> bool {
        let delta = spec_step_amount(decrement, DEC_STEPS);
        if self.volume == MUTED {
            end == self && steps == 0
        } else {
            &&& end.volume == MUTED
            &&& end.muted
            &&& end.cache == Some(le_bytes(self.volume))
            &&& end.saved == self.saved.push(self.volume)
            &&& end.heard == self.heard + trail(false, self.volume, delta, steps)
            &&& steps >= DEC_STEPS
            &&& steps % (DEC_STEPS as int) == 0
            &&& (steps - DEC_STEPS) * delta < self.volume <= steps * delta
        }
    }

    /// That a fade back from silence, run on this bench in rounds of
    /// `increment`, took `steps` steps and left the bench as `end`.
    ///
    /// The record is only read. The mute flag ends clear. Each step raises
    /// the level by one tenth of `increment` and is followed by a pause. The
    /// level ends at or above the level on record, and every step taken began
    /// below it: these two fix `steps`.
    pub open spec fn unmuted_to(self, end: BenchView, increment: u32, steps: int) -> bool {
        let delta = spec_step_amount(increment, INC_STEPS);
        let target = recorded(self.cache);
        &&& end.cache == self.cache
        &&& end.saved == self.saved
        &&& !end.muted
        &&& steps >= 0
        &&& end.volume == moved_by(true, self.volume, steps * delta)
        &&& end.heard == self.heard + trail(true, self.volume, delta, steps)
        &&& end.volume >= target
        &&& steps > 0 ==> self.volume + (steps - 1) * delta < target
    }

    /// That a toggle, run on this bench, took `steps` steps and left the
    /// bench as `end`.
    ///
    /// A bench above silence is faded out, in rounds of `FADE_OUT_DECREMENT`.
    /// A silent one is faded in, in rounds of `FADE_IN_INCREMENT`.
    pub open spec fn toggled_to(self, end: BenchView, steps: int) -> bool {
        if self.volume > MUTED {
            self.muted_to(end, FADE_OUT_DECREMENT, steps)
        } else {
            self.unmuted_to(end, FADE_IN_INCREMENT, steps)
        }
    }

    /// What holds between any two actions of a ramp that began on the bench
    /// `start`.
    spec fn ramp_inv(self, start: BenchView, ramp: Ramp, event: Event) -> bool {
        let paused = if ramp.phase == RampPhase::Moving {
            ramp.applied - 1
        } else {
            ramp.applied as int
        };
        &&& event !is Failed
        &&& ramp.phase != RampPhase::Aborted
        &&& self.cache == start.cache
        &&& self.saved == start.saved
        &&& ramp.applied <= ramp.steps
        &&& self.volume == moved_by(ramp.rising, start.volume, ramp.applied * ramp.delta)
        &&& self.heard == start.heard + trail(ramp.rising, start.volume, ramp.delta, paused)
        &&& self.muted == if ramp.rising && ramp.phase != RampPhase::Start {
            false
        } else {
            start.muted
        }
        &&& ramp.phase == RampPhase::Start ==> ramp.applied == 0
        &&& ramp.phase == RampPhase::Moving ==> ramp.applied >= 1
        &&& ramp.phase == RampPhase::Reading ==> event == Event::Level(self.volume) && ramp.applied
            < ramp.steps && ramp.rising && ramp.target is Some
        &&& ramp.target matches Some(target) ==> (ramp.applied > 0 ==> start.volume + (ramp.applied
            - 1) * ramp.delta < target)
    }

    /// What holds between any two actions of a fade to silence that began on
    /// the bench `start` and has taken `steps` steps.
    spec fn mute_inv(self, start: BenchView, fade: MuteFade, event: Event, steps: int) -> bool {
        let delta = spec_step_amount(fade.decrement, DEC_STEPS);
        let written = {
            &&& start.volume > MUTED
            &&& self.cache == Some(le_bytes(start.volume))
            &&& self.saved == start.saved.push(start.volume)
        };
        let untouched = self.cache == start.cache && self.saved == start.saved;
        let paused = if fade.phase == MutePhase::Fading && fade.ramp.phase == RampPhase::Moving {
            steps - 1
        } else {
            steps
        };
        &&& event !is Failed
        &&& steps >= 0
        &&& self.volume == moved_by(false, start.volume, steps * delta)
        &&& self.heard == start.heard + trail(false, start.volume, delta, paused)
        &&& match fade.phase {
            MutePhase::Start => untouched && self.muted == start.muted && steps == 0,
            MutePhase::Probing => untouched && self.muted == start.muted && steps == 0 && event
                == Event::Level(self.volume),
            MutePhase::Saving => written && self.muted == start.muted && steps == 0,
            MutePhase::Checking => {
                &&& written
                &&& self.muted == start.muted
                &&& event == Event::Level(self.volume)
                &&& steps % (DEC_STEPS as int) == 0
                &&& steps >= DEC_STEPS ==> start.volume > (steps - DEC_STEPS) * delta
            },
            MutePhase::Fading => {
                &&& written
                &&& self.muted == start.muted
                &&& !fade.ramp.rising
                &&& fade.ramp.delta == delta
                &&& fade.ramp.steps == DEC_STEPS
                &&& 1 <= fade.ramp.applied <= DEC_STEPS
                &&& (fade.ramp.phase == RampPhase::Moving || fade.ramp.phase == RampPhase::Pausing)
                &&& steps >= fade.ramp.applied
                &&& (steps - fade.ramp.applied) % (DEC_STEPS as int) == 0
                &&& start.volume > (steps - fade.ramp.applied) * delta
            },
            MutePhase::Muting => {
                &&& written
                &&& self.muted
                &&& self.volume == MUTED
                &&& steps % (DEC_STEPS as int) == 0
                &&& steps >= DEC_STEPS
                &&& start.volume > (steps - DEC_STEPS) * delta
            },
            MutePhase::Finished | MutePhase::Aborted => false,
        }
    }

    /// What holds between any two actions of a fade back from silence that
    /// began on the bench `start` and has taken `steps` steps.
    spec fn unmute_inv(self, start: BenchView, fade: UnmuteFade, event: Event, steps: int) -> bool {
        let delta = spec_step_amount(fade.increment, INC_STEPS);
        let target = recorded(start.cache);
        let paused = if fade.phase == UnmutePhase::Rising && fade.ramp.phase == RampPhase::Moving {
            steps - 1
        } else {
            steps
        };
        &&& event !is Failed
        &&& self.cache == start.cache
        &&& self.saved == start.saved
        &&& steps >= 0
        &&& self.volume == moved_by(true, start.volume, steps * delta)
        &&& self.heard == start.heard + trail(true, start.volume, delta, paused)
        &&& steps > 0 ==> start.volume + (steps - 1) * delta < target
        &&& match fade.phase {
            UnmutePhase::Start => self.muted == start.muted && steps == 0,
            UnmutePhase::Loading => self.muted == start.muted && steps == 0 && event
                == Event::Recorded(target),
            UnmutePhase::Unmuting => !self.muted && steps == 0 && fade.target == target,
            UnmutePhase::Checking => !self.muted && fade.target == target && event == Event::Level(
                self.volume,
            ),
            UnmutePhase::Rising => {
                &&& !self.muted
                &&& fade.target == target
                &&& fade.ramp.rising
                &&& fade.ramp.delta == delta
                &&& fade.ramp.steps == INC_STEPS
                &&& fade.ramp.target == Some(target)
                &&& fade.ramp.applied <= INC_STEPS
                &&& match fade.ramp.phase {
                    RampPhase::Unmuting => fade.ramp.applied == 0,
                    RampPhase::Moving => steps >= 1,
                    RampPhase::Pausing => true,
                    RampPhase::Reading => event == Event::Level(self.volume) && fade.ramp.applied
                        < INC_STEPS,
                    RampPhase::Start | RampPhase::Finished | RampPhase::Aborted => false,
                }
            },
            UnmutePhase::Finished | UnmutePhase::Aborted => false,
        }
    }
}

impl Bench {
    /// A bench with a device at the given level, nothing on record and
    /// nothing heard yet.
    pub fn new(volume: Volume, muted: bool) -> (bench: Bench)
        ensures
            bench@ == (BenchView {
                volume,
                muted,
                cache: None,
                saved: Seq::empty(),
                heard: Seq::empty(),
            }),
    {
        Bench {
            volume,
            muted,
            cache: VolumeCache::absent(),
            saved: Vec::new(),
            heard: Vec::new(),
        }
    }

    /// Carries out one action, as a driver would, and reports what came of it.
    pub fn perform(&mut self, action: Action) -> (event: Event)
        ensures
            final(self)@ == old(self)@.after(action),
            event == old(self)@.answer(action),
    {
        match action {
            Action::ReadVolume => Event::Level(self.volume),
            Action::SetMute(muted) => {
                self.muted = muted;
                Event::Ready
            },
            Action::Raise(amount) => {
                self.volume = if amount > u32::MAX - self.volume {
                    u32::MAX
                } else {
                    self.volume + amount
                };
                Event::Ready
            },
            Action::Lower(amount) => {
                self.volume = if self.volume <= amount {
                    MUTED
                } else {
                    self.volume - amount
                };
                Event::Ready
            },
            Action::Pause => {
                self.heard.push(self.volume);
                Event::Ready
            },
            Action::LoadCache => Event::Recorded(self.cache.query()),
            Action::SaveCache(level) => {
                self.cache.save(level);
                self.saved.push(level);
                Event::Ready
            },
            Action::Done | Action::Abort => Event::Ready,
        }
    }

    /// Runs a fresh ramp to its end and says how many steps it took.
    fn run_ramp(
        &mut self,
        rising: bool,
        total: u32,
        steps: u8,
        target: Option<Volume>,
    ) -> (applied: u8)
        requires
            !rising ==> target is None,
        ensures
            old(self)@.ramped_to(
                final(self)@,
                Ramp::spec_new(rising, total, steps, target),
                applied as int,
            ),
    {
        let ghost start = self@;
        let ghost delta = spec_step_amount(total, steps);
        let mut fade = if rising {
            Fade::inc_vol(total, steps, target)
        } else {
            Fade::dec_vol(total, steps)
        };
        let mut event = Event::Ready;
        let mut applied: u8 = 0;
        proof {
            lemma_trail_grows(start.heard, rising, start.volume, delta, 0);
        }
        loop
            invariant_except_break
                ramp_of(fade).phase != RampPhase::Finished,
            invariant
                self@.ramp_inv(start, ramp_of(fade), event),
                rising ==> fade is Increase,
                !rising ==> fade is Decrease && target is None,
                ramp_of(fade).rising == rising,
                ramp_of(fade).delta == delta,
                ramp_of(fade).steps == steps,
                ramp_of(fade).target == target,
                applied == ramp_of(fade).applied,
            ensures
                ramp_of(fade).phase == RampPhase::Finished,
                rising ==> !self.muted,
                target is Some ==> (applied < steps ==> self.volume >= target.unwrap()),
                target is None ==> applied == steps,
            decreases steps - ramp_of(fade).applied, ramp_rank(ramp_of(fade).phase),
        {
            proof {
                lemma_next_step(applied as int, delta as int);
                lemma_trail_grows(start.heard, rising, start.volume, delta, applied - 1);
            }
            let (next, action) = fade.step(event);
            fade = next;
            match action {
                Action::Done => {
                    break ;
                },
                Action::Raise(_) | Action::Lower(_) => {
                    applied = applied + 1;
                    event = self.perform(action);
                },
                _ => {
                    event = self.perform(action);
                },
            }
        }
        applied
    }

    /// Raises the level by `increment` in `steps` equal steps and says how
    /// many steps were taken.
    ///
    /// The mute flag is cleared first, whatever follows. With a target the
    /// level is looked at before each step, and the remaining steps are left
    /// out once it is at or above the target: so every step taken began
    /// below the target, and fewer than `steps` were taken only if the
    /// target was reached. The level never falls.
    pub fn inc_vol(&mut self, increment: u32, steps: u8, target: Option<Volume>) -> (applied: u8)
        ensures
            old(self)@.ramped_to(
                final(self)@,
                Ramp::spec_new(true, increment, steps, target),
                applied as int,
            ),
            !final(self).muted,
            final(self).volume >= old(self).volume,
    {
        let applied = self.run_ramp(true, increment, steps, target);
        proof {
            lemma_next_step(applied as int, spec_step_amount(increment, steps) as int);
        }
        applied
    }

    /// Lowers the level by `decrement` in `steps` equal steps, all of them,
    /// and holds it at silence. The level never rises.
    pub fn dec_vol(&mut self, decrement: u32, steps: u8)
        ensures
            old(self)@.ramped_to(
                final(self)@,
                Ramp::spec_new(false, decrement, steps, None),
                steps as int,
            ),
            final(self).muted == old(self).muted,
            final(self).volume <= old(self).volume,
    {
        let applied = self.run_ramp(false, decrement, steps, None);
        proof {
            lemma_next_step(applied as int, spec_step_amount(decrement, steps) as int);
        }
    }

    /// Runs a fade to silence from its first look at the level to its end.
    fn drive_mute(&mut self, fade: Fade, event: Event) -> (steps: u64)
        requires
            mute_of(fade) matches Some(mute) && mute.phase == MutePhase::Probing && (old(
                self,
            ).volume == MUTED || spec_step_amount(mute.decrement, DEC_STEPS) > 0),
            event == Event::Level(old(self).volume),
        ensures
            old(self)@.muted_to(final(self)@, mute_of(fade).unwrap().decrement, steps as int),
    {
        let ghost start = self@;
        let ghost decrement = mute_of(fade).unwrap().decrement;
        let ghost delta = spec_step_amount(decrement, DEC_STEPS);
        let mut fade = fade;
        let mut event = event;
        let mut steps: u64 = 0;
        proof {
            lemma_trail_grows(start.heard, false, start.volume, delta, 0);
        }
        loop
            invariant_except_break
                mute_of(fade) matches Some(mute) && self@.mute_inv(start, mute, event, steps as int)
                    && mute.decrement == decrement,
            invariant
                delta == spec_step_amount(decrement, DEC_STEPS),
                start.volume == MUTED || delta > 0,
            ensures
                start.muted_to(self@, decrement, steps as int),
            decreases self.volume, mute_rank(mute_of(fade).unwrap()),
        {
            proof {
                let ramp = mute_of(fade).unwrap().ramp;
                lemma_next_step(steps as int, delta as int);
                lemma_trail_grows(start.heard, false, start.volume, delta, steps - 1);
                if delta > 0 {
                    lemma_steps_bound(steps - ramp.applied, delta as int);
                    lemma_steps_bound(steps as int, delta as int);
                }
            }
            let (next, action) = fade.step(event);
            fade = next;
            match action {
                Action::Done => {
                    break ;
                },
                Action::Lower(_) => {
                    steps = steps + 1;
                    event = self.perform(action);
                },
                _ => {
                    event = self.perform(action);
                },
            }
        }
        steps
    }

    /// Fades the device to silence and mutes it, and says how many steps
    /// that took.
    ///
    /// A device that is already silent is left as it is: nothing is put on
    /// record and the mute flag is not touched. Otherwise the level from
    /// before the fade is put on record, once, the level ends at silence and
    /// the mute flag is set.
    ///
    /// Each round lowers the level by `decrement_per_step`, in `DEC_STEPS`
    /// steps. A fade whose steps have no size never reaches silence: where
    /// there is a level to fade, each step must get at least one unit.
    pub fn mute(&mut self, decrement_per_step: u32) -> (steps: u64)
        requires
            old(self).volume == MUTED || decrement_per_step >= DEC_STEPS,
        ensures
            old(self)@.muted_to(final(self)@, decrement_per_step, steps as int),
    {
        proof {
            if decrement_per_step >= DEC_STEPS {
                lemma_step_has_size(decrement_per_step, DEC_STEPS);
            }
        }
        let (fade, action) = Fade::mute(decrement_per_step).step(Event::Ready);
        let event = self.perform(action);
        self.drive_mute(fade, event)
    }

    /// Runs a fade back from silence from its look at the record to its end.
    fn drive_unmute(&mut self, fade: Fade, event: Event) -> (steps: u64)
        requires
            unmute_of(fade) matches Some(unmute) && unmute.phase == UnmutePhase::Loading && (old(
                self,
            ).volume >= recorded(old(self)@.cache) || spec_step_amount(
                unmute.increment,
                INC_STEPS,
            ) > 0),
            event == Event::Recorded(recorded(old(self)@.cache)),
        ensures
            old(self)@.unmuted_to(final(self)@, unmute_of(fade).unwrap().increment, steps as int),
    {
        let ghost start = self@;
        let ghost target = recorded(start.cache);
        let ghost increment = unmute_of(fade).unwrap().increment;
        let ghost delta = spec_step_amount(increment, INC_STEPS);
        let mut fade = fade;
        let mut event = event;
        let mut steps: u64 = 0;
        proof {
            lemma_trail_grows(start.heard, true, start.volume, delta, 0);
        }
        loop
            invariant_except_break
                unmute_of(fade) matches Some(unmute) && self@.unmute_inv(
                    start,
                    unmute,
                    event,
                    steps as int,
                ) && unmute.increment == increment,
            invariant
                target == recorded(start.cache),
                delta == spec_step_amount(increment, INC_STEPS),
                start.volume >= target || delta > 0,
            ensures
                start.unmuted_to(self@, increment, steps as int),
            decreases
                    gap(target, self.volume),
                    unmute_rank(unmute_of(fade).unwrap(), self.volume >= target),
        {
            proof {
                lemma_next_step(steps as int, delta as int);
                lemma_trail_grows(start.heard, true, start.volume, delta, steps - 1);
                if delta > 0 {
                    lemma_steps_bound(steps as int, delta as int);
                }
            }
            let (next, action) = fade.step(event);
            fade = next;
            match action {
                Action::Done => {
                    break ;
                },
                Action::Raise(_) => {
                    assert(self.volume < target);
                    steps = steps + 1;
                    event = self.perform(action);
                },
                _ => {
                    event = self.perform(action);
                },
            }
        }
        steps
    }

    /// Unmutes the device and fades it back to the level on record, and says
    /// how many steps that took.
    ///
    /// The target is the level on record, the default level where nothing is.
    /// The mute flag is cleared first. Steps of one tenth of
    /// `increment_per_step` follow while the level is below the target: so
    /// the level ends at or above the target, and every step taken began
    /// below it.
    ///
    /// A fade whose steps have no size never reaches its target: where the
    /// level is below the target, each step must get at least one unit.
    pub fn unmute(&mut self, increment_per_step: u32) -> (steps: u64)
        requires
            old(self).volume >= recorded(old(self)@.cache) || increment_per_step >= INC_STEPS,
        ensures
            old(self)@.unmuted_to(final(self)@, increment_per_step, steps as int),
    {
        proof {
            if increment_per_step >= INC_STEPS {
                lemma_step_has_size(increment_per_step, INC_STEPS);
            }
        }
        let (fade, action) = Fade::unmute(increment_per_step).step(Event::Ready);
        let event = self.perform(action);
        self.drive_unmute(fade, event)
    }

    /// Fades out a device that sounds, and fades in one that is silent, with
    /// the built-in amounts, and says how many steps that took.
    ///
    /// What counts is the level alone: a device at silence whose mute flag is
    /// clear is faded in like a muted one.
    pub fn toggle_mute(&mut self) -> (steps: u64)
        ensures
            old(self)@.toggled_to(final(self)@, steps as int),
    {
        proof {
            lemma_step_has_size(FADE_OUT_DECREMENT, DEC_STEPS);
            lemma_step_has_size(FADE_IN_INCREMENT, INC_STEPS);
        }
        let (fade, action) = Fade::toggle_mute().step(Event::Ready);
        let event = self.perform(action);
        let (fade, action) = fade.step(event);
        let event = self.perform(action);
        if self.volume > MUTED {
            self.drive_mute(fade, event)
        } else {
            self.drive_unmute(fade, event)
        }
    }
}

/// The ramp of an increase or a decrease.
spec fn ramp_of(fade: Fade) -> Ramp {
    match fade {
        Fade::Increase(ramp) => ramp,
        Fade::Decrease(ramp) => ramp,
        _ => arbitrary(),
    }
}

/// The fade to silence inside an operation, if it is one.
spec fn mute_of(fade: Fade) -> Option<MuteFade> {
    match fade {
        Fade::Mute(mute) => Some(mute),
        Fade::ToggleMute(ToggleFade::Muting(mute)) => Some(mute),
        _ => None,
    }
}

/// The fade back from silence inside an operation, if it is one.
spec fn unmute_of(fade: Fade) -> Option<UnmuteFade> {
    match fade {
        Fade::Unmute(unmute) => Some(unmute),
        Fade::ToggleMute(ToggleFade::Unmuting(unmute)) => Some(unmute),
        _ => None,
    }
}

/// How far a ramp is from its next step, among the phases between two steps.
spec fn ramp_rank(phase: RampPhase) -> nat {
    match phase {
        RampPhase::Start => 5,
        RampPhase::Unmuting => 4,
        RampPhase::Moving => 3,
        RampPhase::Pausing => 2,
        RampPhase::Reading => 1,
        RampPhase::Finished | RampPhase::Aborted => 0,
    }
}

/// How far a fade to silence is from its end, among the phases in which the
/// level stays the same.
spec fn mute_rank(fade: MuteFade) -> int {
    match fade.phase {
        MutePhase::Start => 30,
        MutePhase::Probing => 29,
        MutePhase::Saving => 28,
        MutePhase::Fading => 3 + 2 * (DEC_STEPS - fade.ramp.applied) + if fade.ramp.phase
            == RampPhase::Moving {
            1int
        } else {
            0int
        },
        MutePhase::Checking => 2,
        MutePhase::Muting => 1,
        MutePhase::Finished | MutePhase::Aborted => 0,
    }
}

/// How far a level is below a target.
spec fn gap(target: Volume, level: Volume) -> int {
    if level < target {
        target - level
    } else {
        0
    }
}

/// How far a fade back from silence is from its next step or its end, among
/// the phases in which the level stays the same.
spec fn unmute_rank(fade: UnmuteFade, reached: bool) -> int {
    match fade.phase {
        UnmutePhase::Start => 9,
        UnmutePhase::Loading => 8,
        UnmutePhase::Unmuting => 7,
        UnmutePhase::Checking => if reached {
            0
        } else {
            3
        },
        UnmutePhase::Rising => match fade.ramp.phase {
            RampPhase::Moving => 5,
            RampPhase::Pausing => 4,
            RampPhase::Unmuting => 2,
            RampPhase::Reading => 1,
            _ => 0,
        },
        UnmutePhase::Finished | UnmutePhase::Aborted => 0,
    }
}

proof fn lemma_next_step(applied: int, delta: int)
    ensures
        (applied + 1) * delta == applied * delta + delta,
        (applied + 1 - 1) * delta == applied * delta,
        (applied - 1) * delta == applied * delta - delta,
        0 * delta == 0,
        applied >= 0 && delta >= 0 ==> applied * delta >= 0,
{
    assert((applied + 1) * delta == applied * delta + delta) by (nonlinear_arith);
    assert((applied - 1) * delta == applied * delta - delta) by (nonlinear_arith);
    assert(applied >= 0 && delta >= 0 ==> applied * delta >= 0) by (nonlinear_arith);
}

proof fn lemma_steps_bound(applied: int, delta: int)
    requires
        delta >= 1,
    ensures
        applied >= 0 ==> applied * delta >= applied,
{
    assert(applied >= 0 ==> applied * delta >= applied) by (nonlinear_arith)
        requires
            delta >= 1,
    ;
}

proof fn lemma_more_steps_move_further(fewer: int, more: int, delta: int)
    requires
        fewer <= more,
        delta >= 0,
    ensures
        fewer * delta <= more * delta,
{
    assert(fewer * delta <= more * delta) by (nonlinear_arith)
        requires
            fewer <= more,
            delta >= 0,
    ;
}

proof fn lemma_step_has_size(total: u32, steps: u8)
    requires
        0 < steps <= total,
    ensures
        spec_step_amount(total, steps) > 0,
{
    vstd::arithmetic::div_mod::lemma_fundamental_div_mod(total as int, steps as int);
    vstd::arithmetic::div_mod::lemma_mod_bound(total as int, steps as int);
    let delta = total as int / steps as int;
    assert(delta >= 1) by (nonlinear_arith)
        requires
            total == steps * delta + (total as int % steps as int),
            0 <= (total as int % steps as int) < steps,
            steps <= total,
    ;
}

/// A trail grows by one level with each pause.
proof fn lemma_trail_grows(before: Seq<Volume>, rising: bool, start: Volume, delta: u32, count: int)
    ensures
        before + trail(rising, start, delta, 0) == before,
        count >= 0 ==> before + trail(rising, start, delta, count + 1) == (before + trail(
            rising,
            start,
            delta,
            count,
        )).push(moved_by(rising, start, (count + 1) * delta) as u32),
{
    assert(before + trail(rising, start, delta, 0) =~= before);
    if count >= 0 {
        assert(before + trail(rising, start, delta, count + 1) =~= (before + trail(
            rising,
            start,
            delta,
            count,
        )).push(moved_by(rising, start, (count + 1) * delta) as u32));
    }
}

/// A fade never jumps: from one pause to the next the level moves in the
/// direction of the fade, and by no more than one step.
pub proof fn lemma_trail_is_gradual(rising: bool, start: Volume, delta: u32, count: int, i: int)
    requires
        0 <= i < count,
    ensures
        trail(rising, start, delta, count).len() == count,
        i == 0 ==> trail(rising, start, delta, count)[i] == moved_by(rising, start, delta as int),
        i > 0 && rising ==> trail(rising, start, delta, count)[i - 1] <= trail(
            rising,
            start,
            delta,
            count,
        )[i] <= trail(rising, start, delta, count)[i - 1] + delta,
        i > 0 && !rising ==> trail(rising, start, delta, count)[i - 1] - delta <= trail(
            rising,
            start,
            delta,
            count,
        )[i] <= trail(rising, start, delta, count)[i - 1],
{
    lemma_next_step(i, delta as int);
    lemma_next_step(i + 1, delta as int);
    lemma_next_step(0, delta as int);
}

/// The end of a ramp is fixed by its start: two runs of one ramp from one
/// bench take the same steps and end alike.
pub proof fn lemma_ramp_end_is_fixed(
    start: BenchView,
    ramp: Ramp,
    end: BenchView,
    applied: int,
    other_end: BenchView,
    other_applied: int,
)
    requires
        start.ramped_to(end, ramp, applied),
        start.ramped_to(other_end, ramp, other_applied),
    ensures
        applied == other_applied,
        end == other_end,
{
    if applied < other_applied {
        lemma_more_steps_move_further(applied, other_applied - 1, ramp.delta as int);
    }
    if other_applied < applied {
        lemma_more_steps_move_further(other_applied, applied - 1, ramp.delta as int);
    }
}

/// The end of a fade to silence is fixed by its start.
pub proof fn lemma_mute_end_is_fixed(
    start: BenchView,
    decrement: u32,
    end: BenchView,
    steps: int,
    other_end: BenchView,
    other_steps: int,
)
    requires
        start.muted_to(end, decrement, steps),
        start.muted_to(other_end, decrement, other_steps),
    ensures
        steps == other_steps,
        end == other_end,
{
    let delta = spec_step_amount(decrement, DEC_STEPS) as int;
    if start.volume != MUTED {
        if steps < other_steps {
            lemma_more_steps_move_further(steps, other_steps - DEC_STEPS, delta);
        }
        if other_steps < steps {
            lemma_more_steps_move_further(other_steps, steps - DEC_STEPS, delta);
        }
    }
}

/// The end of a fade back from silence is fixed by its start.
pub proof fn lemma_unmute_end_is_fixed(
    start: BenchView,
    increment: u32,
    end: BenchView,
    steps: int,
    other_end: BenchView,
    other_steps: int,
)
    requires
        start.unmuted_to(end, increment, steps),
        start.unmuted_to(other_end, increment, other_steps),
    ensures
        steps == other_steps,
        end == other_end,
{
    let delta = spec_step_amount(increment, INC_STEPS) as int;
    if steps < other_steps {
        lemma_more_steps_move_further(steps, other_steps - 1, delta);
    }
    if other_steps < steps {
        lemma_more_steps_move_further(other_steps, steps - 1, delta);
    }
}

/// A decrease takes the whole amount off the level, or all there is.
///
/// Run in any number of steps but none, it leaves the level at the start
/// level less `decrement`, held at silence, but for what is lost in sharing
/// `decrement` out evenly: less than one unit for each step, and nothing
/// where the steps divide it.
pub proof fn lemma_decrease_takes_total(start: BenchView, end: BenchView, decrement: u32, steps: u8)
    requires
        steps > 0,
        start.ramped_to(end, Ramp::spec_new(false, decrement, steps, None), steps as int),
    ensures
        end.volume <= start.volume,
        moved_by(false, start.volume, decrement as int) <= end.volume,
        end.volume - moved_by(false, start.volume, decrement as int) < steps,
        decrement % (steps as u32) == 0 ==> end.volume == moved_by(
            false,
            start.volume,
            decrement as int,
        ),
{
    let delta = spec_step_amount(decrement, steps);
    lemma_next_step(steps as int, delta as int);
    vstd::arithmetic::div_mod::lemma_fundamental_div_mod(decrement as int, steps as int);
    vstd::arithmetic::div_mod::lemma_mod_bound(decrement as int, steps as int);
}

/// An increase towards a target ends at the target, or less than one step
/// above it.
///
/// This holds where the target lies within reach of the steps, and the start
/// level is not already a step or more above it. No more than `steps` steps
/// are taken.
pub proof fn lemma_increase_stops_at_target(
    start: BenchView,
    end: BenchView,
    increment: u32,
    steps: u8,
    target: Volume,
    applied: int,
)
    requires
        start.ramped_to(end, Ramp::spec_new(true, increment, steps, Some(target)), applied),
        start.volume + steps * spec_step_amount(increment, steps) >= target,
        start.volume < target + spec_step_amount(increment, steps),
    ensures
        applied <= steps,
        target <= end.volume < target + spec_step_amount(increment, steps),
{
    let delta = spec_step_amount(increment, steps);
    lemma_next_step(applied - 1, delta as int);
    lemma_next_step(applied, delta as int);
}

/// Muting a silent device does nothing: nothing is put on record, no step
/// is taken, and a mute flag that was set is still set.
pub proof fn lemma_mute_of_silence_is_idle(
    start: BenchView,
    end: BenchView,
    decrement: u32,
    steps: int,
)
    requires
        start.volume == MUTED,
        start.muted_to(end, decrement, steps),
    ensures
        end == start,
        end.saved == start.saved,
        start.muted ==> end.muted,
        steps == 0,
{
}

/// A mute puts on record the level it found, never silence, and does so at
/// most once.
pub proof fn lemma_mute_records_last_level(
    start: BenchView,
    end: BenchView,
    decrement: u32,
    steps: int,
)
    requires
        start.muted_to(end, decrement, steps),
    ensures
        start.volume > MUTED ==> recorded(end.cache) == start.volume && end.saved
            == start.saved.push(start.volume),
        start.volume == MUTED ==> end.cache == start.cache && end.saved == start.saved,
{
    lemma_save_then_query(start.volume);
}

/// A mute followed by an unmute brings a device that sounded back to its
/// level, or less than one step above it, with the mute flag clear.
pub proof fn lemma_mute_then_unmute_restores(
    start: BenchView,
    silent: BenchView,
    end: BenchView,
    decrement: u32,
    increment: u32,
    down: int,
    up: int,
)
    requires
        start.volume > MUTED,
        start.muted_to(silent, decrement, down),
        silent.unmuted_to(end, increment, up),
    ensures
        silent.volume == MUTED && silent.muted,
        !end.muted,
        start.volume <= end.volume < start.volume + spec_step_amount(increment, INC_STEPS),
        recorded(end.cache) == start.volume,
{
    let delta = spec_step_amount(increment, INC_STEPS);
    lemma_save_then_query(start.volume);
    lemma_next_step(up, delta as int);
}

/// Two toggles in a row bring a device that sounded back to its level, or
/// less than one step of the built-in fade-in above it, with the mute flag
/// clear.
pub proof fn lemma_toggle_twice_restores(
    start: BenchView,
    silent: BenchView,
    end: BenchView,
    down: int,
    up: int,
)
    requires
        start.volume > MUTED,
        start.toggled_to(silent, down),
        silent.toggled_to(end, up),
    ensures
        silent.volume == MUTED && silent.muted,
        !end.muted,
        start.volume <= end.volume < start.volume + spec_step_amount(FADE_IN_INCREMENT, INC_STEPS),
{
    lemma_mute_then_unmute_restores(
        start,
        silent,
        end,
        FADE_OUT_DECREMENT,
        FADE_IN_INCREMENT,
        down,
        up,
    );
}

} // verus!
