//! The decisions of a fade, one action at a time.
//!
//! A fade talks to a sound server, sleeps and touches a file: none of that
//! happens here. A machine in this module names the next [`Action`]; its
//! driver carries the action out and hands back what came of it as an
//! [`Event`]. The machine decides from that alone, so the same decisions
//! drive a real device and the bench of this library.
//!
//! Nothing is tried twice. When the driver reports that an action failed, or
//! hands back an event that does not answer what was asked, the machine asks
//! it to give up, and for nothing after that.

use vstd::prelude::*;
use crate::volume::{
    spec_step_amount, step_amount, Volume, DEC_STEPS, FADE_IN_INCREMENT, FADE_OUT_DECREMENT,
    INC_STEPS, MUTED,
};

verus! {

/// What a machine asks its driver to do next.
#[derive(Clone, Copy, Debug, PartialEq, Eq)]
pub enum Action {
    /// Read the level of the device and report it as `Event::Level`.
    ReadVolume,
    /// Set or clear the mute flag of the device.
    SetMute(bool),
    /// Raise the level of the device by an amount.
    Raise(u32),
    /// Lower the level of the device by an amount.
    Lower(u32),
    /// Wait the fixed interval between two steps.
    Pause,
    /// Look up the level on record and report it as `Event::Recorded`.
    LoadCache,
    /// Put a level on record.
    SaveCache(Volume),
    /// Nothing is left to do.
    Done,
    /// Give up: an action failed, and nothing is tried again.
    Abort,
}

/// What the driver reports of the action it carried out.
#[derive(Clone, Copy, Debug, PartialEq, Eq)]
pub enum Event {
    /// Nothing to report: the start of a run, or an action without a result.
    Ready,
    /// The level that was read from the device.
    Level(Volume),
    /// The level on record, the default where nothing is.
    Recorded(Volume),
    /// The action could not be carried out.
    Failed,
}

/// Where a ramp stands: the action it asked for last.
#[derive(Clone, Copy, Debug, PartialEq, Eq)]
pub enum RampPhase {
    /// Nothing asked yet.
    Start,
    /// Asked to clear the mute flag.
    Unmuting,
    /// Asked for the level, to hold it against the target.
    Reading,
    /// Asked for a step.
    Moving,
    /// Asked for the pause after a step.
    Pausing,
    /// Said that it is done.
    Finished,
    /// Gave up after a failure.
    Aborted,
}

/// One run of equal steps in one direction.
///
/// A rising ramp first clears the mute flag. With a target it reads the level
/// before each step and ends, leaving the remaining steps untaken, once the
/// level is at or above the target. A falling ramp takes no target: it always
/// runs its full count of steps, and leaves it to the device to hold the level
/// at silence.
#[derive(Clone, Copy, Debug, PartialEq, Eq)]
pub struct Ramp {
    /// Up or down.
    pub rising: bool,
    /// The amount of one step.
    pub delta: u32,
    /// The number of steps of a full run.
    pub steps: u8,
    /// Where a rising ramp stops early.
    pub target: Option<Volume>,
    /// Steps asked for so far.
    pub applied: u8,
    /// The action asked for last.
    pub phase: RampPhase,
}

impl Ramp {
    /// A ramp that has asked for nothing yet and shares `total` out over `steps` steps.
    pub open spec fn spec_new(rising: bool, total: u32, steps: u8, target: Option<Volume>) -> Ramp {
        Ramp {
            rising,
            delta: spec_step_amount(total, steps),
            steps,
            target,
            applied: 0,
            phase: RampPhase::Start,
        }
    }

    /// The ramp after it has said that it is done.
    pub open spec fn spec_finish(self) -> (Ramp, Action) {
        (Ramp { phase: RampPhase::Finished, ..self }, Action::Done)
    }

    /// The ramp after it has given up.
    pub open spec fn spec_abort(self) -> (Ramp, Action) {
        (Ramp { phase: RampPhase::Aborted, ..self }, Action::Abort)
    }

    /// The ramp after it has asked for its next step.
    pub open spec fn spec_advance(self) -> (Ramp, Action) {
        (
            Ramp { phase: RampPhase::Moving, applied: (self.applied + 1) as u8, ..self },
            if self.rising {
                Action::Raise(self.delta)
            } else {
                Action::Lower(self.delta)
            },
        )
    }

    /// The decision before each step: done after the last one; with a target a
    /// rising ramp looks at the level first; otherwise the step is taken.
    pub open spec fn spec_head(self) -> (Ramp, Action) {
        if self.applied >= self.steps {
            self.spec_finish()
        } else if self.rising && self.target is Some {
            (Ramp { phase: RampPhase::Reading, ..self }, Action::ReadVolume)
        } else {
            self.spec_advance()
        }
    }

    /// The ramp after an event, and the action it asks for next.
    pub open spec fn spec_step(self, event: Event) -> (Ramp, Action) {
        match self.phase {
            RampPhase::Finished => (self, Action::Done),
            RampPhase::Aborted => (self, Action::Abort),
            _ => if event is Failed {
                self.spec_abort()
            } else {
                match self.phase {
                    RampPhase::Start => if self.rising {
                        (Ramp { phase: RampPhase::Unmuting, ..self }, Action::SetMute(false))
                    } else {
                        self.spec_head()
                    },
                    RampPhase::Reading => match event {
                        Event::Level(level) => if self.applied >= self.steps || (
                        self.target matches Some(target) && level >= target) {
                            self.spec_finish()
                        } else {
                            self.spec_advance()
                        },
                        _ => self.spec_abort(),
                    },
                    RampPhase::Moving => (
                        Ramp { phase: RampPhase::Pausing, ..self },
                        Action::Pause,
                    ),
                    _ => self.spec_head(),
                }
            },
        }
    }

    /// A ramp that has asked for nothing yet.
    pub fn new(rising: bool, total: u32, steps: u8, target: Option<Volume>) -> (ramp: Ramp)
        ensures
            ramp == Ramp::spec_new(rising, total, steps, target),
    {
        Ramp {
            rising,
            delta: step_amount(total, steps),
            steps,
            target,
            applied: 0,
            phase: RampPhase::Start,
        }
    }

    fn finish(self) -> (next: (Ramp, Action))
        ensures
            next == self.spec_finish(),
    {
        (Ramp { phase: RampPhase::Finished, ..self }, Action::Done)
    }

    fn abort(self) -> (next: (Ramp, Action))
        ensures
            next == self.spec_abort(),
    {
        (Ramp { phase: RampPhase::Aborted, ..self }, Action::Abort)
    }

    fn advance(self) -> (next: (Ramp, Action))
        requires
            self.applied < self.steps,
        ensures
            next == self.spec_advance(),
    {
        let action = if self.rising {
            Action::Raise(self.delta)
        } else {
            Action::Lower(self.delta)
        };
        (Ramp { phase: RampPhase::Moving, applied: self.applied + 1, ..self }, action)
    }

    fn head(self) -> (next: (Ramp, Action))
        ensures
            next == self.spec_head(),
    {
        if self.applied >= self.steps {
            self.finish()
        } else if self.rising && self.target.is_some() {
            (Ramp { phase: RampPhase::Reading, ..self }, Action::ReadVolume)
        } else {
            self.advance()
        }
    }

    /// Takes in what came of the last action and asks for the next one.
    pub fn step(self, event: Event) -> (next: (Ramp, Action))
        ensures
            next == self.spec_step(event),
    {
        match (self.phase, event) {
            (RampPhase::Finished, _) => (self, Action::Done),
            (RampPhase::Aborted, _) => (self, Action::Abort),
            (_, Event::Failed) => self.abort(),
            (RampPhase::Start, _) => {
                if self.rising {
                    (Ramp { phase: RampPhase::Unmuting, ..self }, Action::SetMute(false))
                } else {
                    self.head()
                }
            },
            (RampPhase::Reading, Event::Level(level)) => {
                let reached = match self.target {
                    Some(target) => level >= target,
                    None => false,
                };
                if self.applied >= self.steps || reached {
                    self.finish()
                } else {
                    self.advance()
                }
            },
            (RampPhase::Reading, _) => self.abort(),
            (RampPhase::Moving, _) => (Ramp { phase: RampPhase::Pausing, ..self }, Action::Pause),
            (RampPhase::Unmuting, _) | (RampPhase::Pausing, _) => self.head(),
        }
    }
}

/// Where a fade to silence stands: the action it asked for last.
#[derive(Clone, Copy, Debug, PartialEq, Eq)]
pub enum MutePhase {
    /// Nothing asked yet.
    Start,
    /// Asked for the level, to see whether there is anything to fade.
    Probing,
    /// Asked to put the level on record.
    Saving,
    /// Asked for the level, to see whether silence is reached.
    Checking,
    /// Inside a falling ramp.
    Fading,
    /// Asked to set the mute flag.
    Muting,
    /// Said that it is done.
    Finished,
    /// Gave up after a failure.
    Aborted,
}

/// A fade to silence.
///
/// On a device that is already silent it does nothing at all. Otherwise it
/// puts the level on record, once, then runs falling ramps of `DEC_STEPS`
/// steps until the level read from the device is silence, and sets the mute
/// flag.
#[derive(Clone, Copy, Debug, PartialEq, Eq)]
pub struct MuteFade {
    /// The amount that one ramp lowers the level by.
    pub decrement: u32,
    /// The action asked for last.
    pub phase: MutePhase,
    /// The ramp that is running while the phase is `Fading`.
    pub ramp: Ramp,
}

impl MuteFade {
    /// A fade to silence that has asked for nothing yet.
    pub open spec fn spec_new(decrement: u32) -> MuteFade {
        MuteFade {
            decrement,
            phase: MutePhase::Start,
            ramp: Ramp::spec_new(false, decrement, DEC_STEPS, None),
        }
    }

    /// The fade after it has given up.
    pub open spec fn spec_abort(self) -> (MuteFade, Action) {
        (MuteFade { phase: MutePhase::Aborted, ..self }, Action::Abort)
    }

    /// The fade after it has asked for the level before the next ramp.
    pub open spec fn spec_check(self) -> (MuteFade, Action) {
        (MuteFade { phase: MutePhase::Checking, ..self }, Action::ReadVolume)
    }

    /// The fade after its ramp took in an event: it passes on what the ramp
    /// asks for; when the ramp is done it looks at the level again, and when
    /// the ramp gives up, so does the fade.
    pub open spec fn spec_fade(self, ramp: Ramp, event: Event) -> (MuteFade, Action) {
        let (next, action) = ramp.spec_step(event);
        if action is Done {
            (MuteFade { ramp: next, ..self }).spec_check()
        } else if action is Abort {
            (MuteFade { ramp: next, ..self }).spec_abort()
        } else {
            (MuteFade { phase: MutePhase::Fading, ramp: next, ..self }, action)
        }
    }

    /// The fade after an event, and the action it asks for next.
    pub open spec fn spec_step(self, event: Event) -> (MuteFade, Action) {
        match self.phase {
            MutePhase::Finished => (self, Action::Done),
            MutePhase::Aborted => (self, Action::Abort),
            _ => if event is Failed {
                self.spec_abort()
            } else {
                match self.phase {
                    MutePhase::Fading => self.spec_fade(self.ramp, event),
                    MutePhase::Start => (
                        MuteFade { phase: MutePhase::Probing, ..self },
                        Action::ReadVolume,
                    ),
                    MutePhase::Probing => match event {
                        Event::Level(level) => if level == MUTED {
                            (MuteFade { phase: MutePhase::Finished, ..self }, Action::Done)
                        } else {
                            (
                                MuteFade { phase: MutePhase::Saving, ..self },
                                Action::SaveCache(level),
                            )
                        },
                        _ => self.spec_abort(),
                    },
                    MutePhase::Checking => match event {
                        Event::Level(level) => if level > MUTED {
                            self.spec_fade(
                                Ramp::spec_new(false, self.decrement, DEC_STEPS, None),
                                Event::Ready,
                            )
                        } else {
                            (MuteFade { phase: MutePhase::Muting, ..self }, Action::SetMute(true))
                        },
                        _ => self.spec_abort(),
                    },
                    MutePhase::Muting => (
                        MuteFade { phase: MutePhase::Finished, ..self },
                        Action::Done,
                    ),
                    _ => self.spec_check(),
                }
            },
        }
    }

    /// A fade to silence that has asked for nothing yet.
    pub fn new(decrement: u32) -> (fade: MuteFade)
        ensures
            fade == MuteFade::spec_new(decrement),
    {
        MuteFade {
            decrement,
            phase: MutePhase::Start,
            ramp: Ramp::new(false, decrement, DEC_STEPS, None),
        }
    }

    fn abort(self) -> (next: (MuteFade, Action))
        ensures
            next == self.spec_abort(),
    {
        (MuteFade { phase: MutePhase::Aborted, ..self }, Action::Abort)
    }

    fn check(self) -> (next: (MuteFade, Action))
        ensures
            next == self.spec_check(),
    {
        (MuteFade { phase: MutePhase::Checking, ..self }, Action::ReadVolume)
    }

    fn fade(self, ramp: Ramp, event: Event) -> (next: (MuteFade, Action))
        ensures
            next == self.spec_fade(ramp, event),
    {
        let (next, action) = ramp.step(event);
        match action {
            Action::Done => (MuteFade { ramp: next, ..self }).check(),
            Action::Abort => (MuteFade { ramp: next, ..self }).abort(),
            _ => (MuteFade { phase: MutePhase::Fading, ramp: next, ..self }, action),
        }
    }

    /// Takes in what came of the last action and asks for the next one.
    pub fn step(self, event: Event) -> (next: (MuteFade, Action))
        ensures
            next == self.spec_step(event),
    {
        match (self.phase, event) {
            (MutePhase::Finished, _) => (self, Action::Done),
            (MutePhase::Aborted, _) => (self, Action::Abort),
            (_, Event::Failed) => self.abort(),
            (MutePhase::Fading, _) => self.fade(self.ramp, event),
            (MutePhase::Start, _) => (
                MuteFade { phase: MutePhase::Probing, ..self },
                Action::ReadVolume,
            ),
            (MutePhase::Probing, Event::Level(level)) => {
                if level == MUTED {
                    (MuteFade { phase: MutePhase::Finished, ..self }, Action::Done)
                } else {
                    (MuteFade { phase: MutePhase::Saving, ..self }, Action::SaveCache(level))
                }
            },
            (MutePhase::Checking, Event::Level(level)) => {
                if level > MUTED {
                    self.fade(Ramp::new(false, self.decrement, DEC_STEPS, None), Event::Ready)
                } else {
                    (MuteFade { phase: MutePhase::Muting, ..self }, Action::SetMute(true))
                }
            },
            (MutePhase::Probing, _) | (MutePhase::Checking, _) => self.abort(),
            (MutePhase::Muting, _) => (
                MuteFade { phase: MutePhase::Finished, ..self },
                Action::Done,
            ),
            (MutePhase::Saving, _) => self.check(),
        }
    }
}

/// Where a fade back from silence stands: the action it asked for last.
#[derive(Clone, Copy, Debug, PartialEq, Eq)]
pub enum UnmutePhase {
    /// Nothing asked yet.
    Start,
    /// Asked for the level on record.
    Loading,
    /// Asked to clear the mute flag.
    Unmuting,
    /// Asked for the level, to see whether the target is reached.
    Checking,
    /// Inside a rising ramp.
    Rising,
    /// Said that it is done.
    Finished,
    /// Gave up after a failure.
    Aborted,
}

/// A fade back to the level on record.
///
/// It takes the level on record as its target, clears the mute flag, and
/// runs rising ramps of `INC_STEPS` steps towards the target until the level
/// read from the device is at or above it.
#[derive(Clone, Copy, Debug, PartialEq, Eq)]
pub struct UnmuteFade {
    /// The amount that one full ramp raises the level by.
    pub increment: u32,
    /// The level to come back to, once it is known.
    pub target: Volume,
    /// The action asked for last.
    pub phase: UnmutePhase,
    /// The ramp that is running while the phase is `Rising`.
    pub ramp: Ramp,
}

impl UnmuteFade {
    /// A fade back from silence that has asked for nothing yet.
    pub open spec fn spec_new(increment: u32) -> UnmuteFade {
        UnmuteFade {
            increment,
            target: MUTED,
            phase: UnmutePhase::Start,
            ramp: Ramp::spec_new(true, increment, INC_STEPS, Some(MUTED)),
        }
    }

    /// The fade after it has given up.
    pub open spec fn spec_abort(self) -> (UnmuteFade, Action) {
        (UnmuteFade { phase: UnmutePhase::Aborted, ..self }, Action::Abort)
    }

    /// The fade after it has asked for the level before the next ramp.
    pub open spec fn spec_check(self) -> (UnmuteFade, Action) {
        (UnmuteFade { phase: UnmutePhase::Checking, ..self }, Action::ReadVolume)
    }

    /// The fade after its ramp took in an event: it passes on what the ramp
    /// asks for; when the ramp is done it looks at the level again, and when
    /// the ramp gives up, so does the fade.
    pub open spec fn spec_rise(self, ramp: Ramp, event: Event) -> (UnmuteFade, Action) {
        let (next, action) = ramp.spec_step(event);
        if action is Done {
            (UnmuteFade { ramp: next, ..self }).spec_check()
        } else if action is Abort {
            (UnmuteFade { ramp: next, ..self }).spec_abort()
        } else {
            (UnmuteFade { phase: UnmutePhase::Rising, ramp: next, ..self }, action)
        }
    }

    /// The fade after an event, and the action it asks for next.
    pub open spec fn spec_step(self, event: Event) -> (UnmuteFade, Action) {
        match self.phase {
            UnmutePhase::Finished => (self, Action::Done),
            UnmutePhase::Aborted => (self, Action::Abort),
            _ => if event is Failed {
                self.spec_abort()
            } else {
                match self.phase {
                    UnmutePhase::Rising => self.spec_rise(self.ramp, event),
                    UnmutePhase::Start => (
                        UnmuteFade { phase: UnmutePhase::Loading, ..self },
                        Action::LoadCache,
                    ),
                    UnmutePhase::Loading => match event {
                        Event::Recorded(level) => (
                            UnmuteFade { phase: UnmutePhase::Unmuting, target: level, ..self },
                            Action::SetMute(false),
                        ),
                        _ => self.spec_abort(),
                    },
                    UnmutePhase::Checking => match event {
                        Event::Level(level) => if level < self.target {
                            self.spec_rise(
                                Ramp::spec_new(true, self.increment, INC_STEPS, Some(self.target)),
                                Event::Ready,
                            )
                        } else {
                            (UnmuteFade { phase: UnmutePhase::Finished, ..self }, Action::Done)
                        },
                        _ => self.spec_abort(),
                    },
                    _ => self.spec_check(),
                }
            },
        }
    }

    /// A fade back from silence that has asked for nothing yet.
    pub fn new(increment: u32) -> (fade: UnmuteFade)
        ensures
            fade == UnmuteFade::spec_new(increment),
    {
        UnmuteFade {
            increment,
            target: MUTED,
            phase: UnmutePhase::Start,
            ramp: Ramp::new(true, increment, INC_STEPS, Some(MUTED)),
        }
    }

    fn abort(self) -> (next: (UnmuteFade, Action))
        ensures
            next == self.spec_abort(),
    {
        (UnmuteFade { phase: UnmutePhase::Aborted, ..self }, Action::Abort)
    }

    fn check(self) -> (next: (UnmuteFade, Action))
        ensures
            next == self.spec_check(),
    {
        (UnmuteFade { phase: UnmutePhase::Checking, ..self }, Action::ReadVolume)
    }

    fn rise(self, ramp: Ramp, event: Event) -> (next: (UnmuteFade, Action))
        ensures
            next == self.spec_rise(ramp, event),
    {
        let (next, action) = ramp.step(event);
        match action {
            Action::Done => (UnmuteFade { ramp: next, ..self }).check(),
            Action::Abort => (UnmuteFade { ramp: next, ..self }).abort(),
            _ => (UnmuteFade { phase: UnmutePhase::Rising, ramp: next, ..self }, action),
        }
    }

    /// Takes in what came of the last action and asks for the next one.
    pub fn step(self, event: Event) -> (next: (UnmuteFade, Action))
        ensures
            next == self.spec_step(event),
    {
        match (self.phase, event) {
            (UnmutePhase::Finished, _) => (self, Action::Done),
            (UnmutePhase::Aborted, _) => (self, Action::Abort),
            (_, Event::Failed) => self.abort(),
            (UnmutePhase::Rising, _) => self.rise(self.ramp, event),
            (UnmutePhase::Start, _) => (
                UnmuteFade { phase: UnmutePhase::Loading, ..self },
                Action::LoadCache,
            ),
            (UnmutePhase::Loading, Event::Recorded(level)) => (
                UnmuteFade { phase: UnmutePhase::Unmuting, target: level, ..self },
                Action::SetMute(false),
            ),
            (UnmutePhase::Checking, Event::Level(level)) => {
                if level < self.target {
                    self.rise(
                        Ramp::new(true, self.increment, INC_STEPS, Some(self.target)),
                        Event::Ready,
                    )
                } else {
                    (UnmuteFade { phase: UnmutePhase::Finished, ..self }, Action::Done)
                }
            },
            (UnmutePhase::Loading, _) | (UnmutePhase::Checking, _) => self.abort(),
            (UnmutePhase::Unmuting, _) => self.check(),
        }
    }
}

/// A toggle between sound and silence.
///
/// It goes by what is heard, not by the mute flag: a device above silence is
/// faded out, any other is faded in.
#[derive(Clone, Copy, Debug, PartialEq, Eq)]
pub enum ToggleFade {
    /// Nothing asked yet.
    Start,
    /// Asked for the level, to choose the direction.
    Probing,
    /// Fading out.
    Muting(MuteFade),
    /// Fading in.
    Unmuting(UnmuteFade),
    /// Gave up after a failure, before a direction was chosen.
    Aborted,
}

impl ToggleFade {
    /// The toggle after an event, and the action it asks for next.
    pub open spec fn spec_step(self, event: Event) -> (ToggleFade, Action) {
        match self {
            ToggleFade::Aborted => (self, Action::Abort),
            ToggleFade::Muting(fade) => {
                let (next, action) = fade.spec_step(event);
                (ToggleFade::Muting(next), action)
            },
            ToggleFade::Unmuting(fade) => {
                let (next, action) = fade.spec_step(event);
                (ToggleFade::Unmuting(next), action)
            },
            ToggleFade::Start => if event is Failed {
                (ToggleFade::Aborted, Action::Abort)
            } else {
                (ToggleFade::Probing, Action::ReadVolume)
            },
            ToggleFade::Probing => match event {
                Event::Level(level) => if level > MUTED {
                    let (next, action) = MuteFade::spec_new(FADE_OUT_DECREMENT).spec_step(
                        Event::Ready,
                    );
                    (ToggleFade::Muting(next), action)
                } else {
                    let (next, action) = UnmuteFade::spec_new(FADE_IN_INCREMENT).spec_step(
                        Event::Ready,
                    );
                    (ToggleFade::Unmuting(next), action)
                },
                _ => (ToggleFade::Aborted, Action::Abort),
            },
        }
    }

    /// Takes in what came of the last action and asks for the next one.
    pub fn step(self, event: Event) -> (next: (ToggleFade, Action))
        ensures
            next == self.spec_step(event),
    {
        match (self, event) {
            (ToggleFade::Aborted, _) => (self, Action::Abort),
            (ToggleFade::Muting(fade), _) => {
                let (next, action) = fade.step(event);
                (ToggleFade::Muting(next), action)
            },
            (ToggleFade::Unmuting(fade), _) => {
                let (next, action) = fade.step(event);
                (ToggleFade::Unmuting(next), action)
            },
            (ToggleFade::Start, Event::Failed) => (ToggleFade::Aborted, Action::Abort),
            (ToggleFade::Start, _) => (ToggleFade::Probing, Action::ReadVolume),
            (ToggleFade::Probing, Event::Level(level)) => {
                if level > MUTED {
                    let (next, action) = MuteFade::new(FADE_OUT_DECREMENT).step(Event::Ready);
                    (ToggleFade::Muting(next), action)
                } else {
                    let (next, action) = UnmuteFade::new(FADE_IN_INCREMENT).step(Event::Ready);
                    (ToggleFade::Unmuting(next), action)
                }
            },
            (ToggleFade::Probing, _) => (ToggleFade::Aborted, Action::Abort),
        }
    }
}

/// One operation on the device, from its first action to its last.
#[derive(Clone, Copy, Debug, PartialEq, Eq)]
pub enum Fade {
    /// Raise the level in steps.
    Increase(Ramp),
    /// Lower the level in steps.
    Decrease(Ramp),
    /// Fade to silence and mute.
    Mute(MuteFade),
    /// Unmute and fade back to the level on record.
    Unmute(UnmuteFade),
    /// Fade out if there is sound, fade in if there is none.
    ToggleMute(ToggleFade),
}

impl Fade {
    /// The operation after an event, and the action it asks for next.
    pub open spec fn spec_step(self, event: Event) -> (Fade, Action) {
        match self {
            Fade::Increase(ramp) => {
                let (next, action) = ramp.spec_step(event);
                (Fade::Increase(next), action)
            },
            Fade::Decrease(ramp) => {
                let (next, action) = ramp.spec_step(event);
                (Fade::Decrease(next), action)
            },
            Fade::Mute(fade) => {
                let (next, action) = fade.spec_step(event);
                (Fade::Mute(next), action)
            },
            Fade::Unmute(fade) => {
                let (next, action) = fade.spec_step(event);
                (Fade::Unmute(next), action)
            },
            Fade::ToggleMute(fade) => {
                let (next, action) = fade.spec_step(event);
                (Fade::ToggleMute(next), action)
            },
        }
    }

    /// An increase by `increment` in `steps` steps, which stops early at `target` if one is given.
    pub fn inc_vol(increment: u32, steps: u8, target: Option<Volume>) -> (fade: Fade)
        ensures
            fade == Fade::Increase(Ramp::spec_new(true, increment, steps, target)),
    {
        Fade::Increase(Ramp::new(true, increment, steps, target))
    }

    /// A decrease by `decrement` in `steps` steps.
    pub fn dec_vol(decrement: u32, steps: u8) -> (fade: Fade)
        ensures
            fade == Fade::Decrease(Ramp::spec_new(false, decrement, steps, None)),
    {
        Fade::Decrease(Ramp::new(false, decrement, steps, None))
    }

    /// A fade to silence in ramps of `decrement_per_step` each.
    pub fn mute(decrement_per_step: u32) -> (fade: Fade)
        ensures
            fade == Fade::Mute(MuteFade::spec_new(decrement_per_step)),
    {
        Fade::Mute(MuteFade::new(decrement_per_step))
    }

    /// A fade back to the level on record in ramps of `increment_per_step` each.
    pub fn unmute(increment_per_step: u32) -> (fade: Fade)
        ensures
            fade == Fade::Unmute(UnmuteFade::spec_new(increment_per_step)),
    {
        Fade::Unmute(UnmuteFade::new(increment_per_step))
    }

    /// A toggle between sound and silence, with the built-in amounts.
    pub fn toggle_mute() -> (fade: Fade)
        ensures
            fade == Fade::ToggleMute(ToggleFade::Start),
    {
        Fade::ToggleMute(ToggleFade::Start)
    }

    /// Takes in what came of the last action and asks for the next one.
    ///
    /// The first call of a run takes `Event::Ready`. The run ends with
    /// `Action::Done`, or with `Action::Abort` after a failure.
    pub fn step(self, event: Event) -> (next: (Fade, Action))
        ensures
            next == self.spec_step(event),
    {
        match self {
            Fade::Increase(ramp) => {
                let (next, action) = ramp.step(event);
                (Fade::Increase(next), action)
            },
            Fade::Decrease(ramp) => {
                let (next, action) = ramp.step(event);
                (Fade::Decrease(next), action)
            },
            Fade::Mute(fade) => {
                let (next, action) = fade.step(event);
                (Fade::Mute(next), action)
            },
            Fade::Unmute(fade) => {
                let (next, action) = fade.step(event);
                (Fade::Unmute(next), action)
            },
            Fade::ToggleMute(fade) => {
                let (next, action) = fade.step(event);
                (Fade::ToggleMute(next), action)
            },
        }
    }
}

/// How many steps an operation asks for while it is handed the given events,
/// one after the other.
pub open spec fn steps_asked(fade: Fade, events: Seq<Event>) -> nat
    decreases events.len(),
{
    if events.len() == 0 {
        0
    } else {
        let (next, action) = fade.spec_step(events[0]);
        let this: nat = if action is Raise || action is Lower {
            1
        } else {
            0
        };
        this + steps_asked(next, events.drop_first())
    }
}

/// How many times an operation asks to put a level on record while it is
/// handed the given events, one after the other.
pub open spec fn saves_asked(fade: Fade, events: Seq<Event>) -> nat
    decreases events.len(),
{
    if events.len() == 0 {
        0
    } else {
        let (next, action) = fade.spec_step(events[0]);
        let this: nat = if action is SaveCache {
            1
        } else {
            0
        };
        this + saves_asked(next, events.drop_first())
    }
}

/// The end is final: an operation that has said it is done, or has given
/// up, says the same again, whatever it is told.
pub proof fn lemma_end_is_final(fade: Fade, event: Event, later: Event)
    requires
        fade.spec_step(event).1 is Done || fade.spec_step(event).1 is Abort,
    ensures
        fade.spec_step(event).0.spec_step(later) == (
            fade.spec_step(event).0,
            fade.spec_step(event).1,
        ),
{
}

/// Nothing is tried again: told of a failure, an operation gives up, unless
/// it was done already, and asks for no step and no record after that.
pub proof fn lemma_failure_ends_the_run(fade: Fade, events: Seq<Event>)
    ensures
        fade.spec_step(Event::Failed).1 is Abort || fade.spec_step(Event::Failed).1 is Done,
        steps_asked(fade, seq![Event::Failed] + events) == 0,
        saves_asked(fade, seq![Event::Failed] + events) == 0,
{
    let rest = seq![Event::Failed] + events;
    assert(rest[0] == Event::Failed);
    assert(rest.drop_first() =~= events);
    lemma_end_is_final(fade, Event::Failed, Event::Failed);
    lemma_nothing_after_the_end(fade.spec_step(Event::Failed).0, events);
}

/// Whether an operation has said that it is done or has given up.
spec fn ended(fade: Fade) -> bool {
    forall|event: Event|
        #![auto]
        fade.spec_step(event) == (fade, Action::Done) || fade.spec_step(event) == (
            fade,
            Action::Abort,
        )
}

proof fn lemma_nothing_after_the_end(fade: Fade, events: Seq<Event>)
    requires
        ended(fade),
    ensures
        steps_asked(fade, events) == 0,
        saves_asked(fade, events) == 0,
    decreases events.len(),
{
    if events.len() > 0 {
        lemma_nothing_after_the_end(fade, events.drop_first());
    }
}

/// A pause follows every step that did not fail.
pub proof fn lemma_pause_follows_step(fade: Fade, event: Event, later: Event)
    requires
        fade.spec_step(event).1 is Raise || fade.spec_step(event).1 is Lower,
    ensures
        later !is Failed ==> fade.spec_step(event).0.spec_step(later).1 == Action::Pause,
        later is Failed ==> fade.spec_step(event).0.spec_step(later).1 == Action::Abort,
{
}

/// An increase begins by clearing the mute flag, whatever follows.
pub proof fn lemma_increase_begins_unmuted(increment: u32, steps: u8, target: Option<Volume>)
    ensures
        Fade::Increase(Ramp::spec_new(true, increment, steps, target)).spec_step(Event::Ready).1
            == Action::SetMute(false),
{
}

/// A ramp that looks at the level takes no further step once the level it is
/// told is at or above its target: it is done, and the remaining steps are
/// left out.
pub proof fn lemma_ramp_heeds_target(ramp: Ramp, level: Volume)
    requires
        ramp.phase == RampPhase::Reading,
        ramp.target matches Some(target) && level >= target,
    ensures
        ramp.spec_step(Event::Level(level)).1 == Action::Done,
        Fade::Increase(ramp).spec_step(Event::Level(level)).1 == Action::Done,
{
}

/// An increase or a decrease asks for no more steps than it was made with,
/// whatever the device does, and never puts a level on record.
pub proof fn lemma_ramp_keeps_to_its_steps(
    rising: bool,
    total: u32,
    steps: u8,
    target: Option<Volume>,
    events: Seq<Event>,
)
    ensures
        steps_asked(Fade::Increase(Ramp::spec_new(rising, total, steps, target)), events) <= steps,
        steps_asked(Fade::Decrease(Ramp::spec_new(rising, total, steps, target)), events) <= steps,
        saves_asked(Fade::Increase(Ramp::spec_new(rising, total, steps, target)), events) == 0,
        saves_asked(Fade::Decrease(Ramp::spec_new(rising, total, steps, target)), events) == 0,
{
    let ramp = Ramp::spec_new(rising, total, steps, target);
    lemma_ramp_steps_left(Fade::Increase(ramp), events);
    lemma_ramp_steps_left(Fade::Decrease(ramp), events);
}

/// A fade to silence and a toggle ask at most once to put a level on record,
/// whatever the device does; a fade back from silence never does.
pub proof fn lemma_at_most_one_save(decrement: u32, increment: u32, events: Seq<Event>)
    ensures
        saves_asked(Fade::Mute(MuteFade::spec_new(decrement)), events) <= 1,
        saves_asked(Fade::ToggleMute(ToggleFade::Start), events) <= 1,
        saves_asked(Fade::Unmute(UnmuteFade::spec_new(increment)), events) == 0,
{
    lemma_saves_left(Fade::Mute(MuteFade::spec_new(decrement)), events);
    lemma_saves_left(Fade::ToggleMute(ToggleFade::Start), events);
    lemma_saves_left(Fade::Unmute(UnmuteFade::spec_new(increment)), events);
}

/// The ramp of an increase or a decrease.
spec fn plain_ramp(fade: Fade) -> Option<Ramp> {
    match fade {
        Fade::Increase(ramp) => Some(ramp),
        Fade::Decrease(ramp) => Some(ramp),
        _ => None,
    }
}

proof fn lemma_ramp_steps_left(fade: Fade, events: Seq<Event>)
    requires
        plain_ramp(fade) matches Some(ramp) && ramp.applied <= ramp.steps,
    ensures
        steps_asked(fade, events) <= plain_ramp(fade).unwrap().steps - plain_ramp(
            fade,
        ).unwrap().applied,
        saves_asked(fade, events) == 0,
    decreases events.len(),
{
    if events.len() > 0 {
        lemma_ramp_steps_left(fade.spec_step(events[0]).0, events.drop_first());
    }
}

/// How many times an operation in a given state may still ask to put a level
/// on record.
spec fn saves_left(fade: Fade) -> nat {
    match fade {
        Fade::Mute(mute) => if mute.phase == MutePhase::Start || mute.phase == MutePhase::Probing {
            1
        } else {
            0
        },
        Fade::ToggleMute(ToggleFade::Muting(mute)) => if mute.phase == MutePhase::Start
            || mute.phase == MutePhase::Probing {
            1
        } else {
            0
        },
        Fade::ToggleMute(ToggleFade::Start) | Fade::ToggleMute(ToggleFade::Probing) => 1,
        _ => 0,
    }
}

proof fn lemma_saves_left(fade: Fade, events: Seq<Event>)
    ensures
        saves_asked(fade, events) <= saves_left(fade),
    decreases events.len(),
{
    if events.len() > 0 {
        lemma_saves_left(fade.spec_step(events[0]).0, events.drop_first());
    }
}

} // verus!
