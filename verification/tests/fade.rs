use volfade::fade::{Action, Event, Fade, MuteFade, Ramp, RampPhase, ToggleFade, UnmuteFade};
use volfade::volume::{
    step_amount, DEC_STEPS, FADE_IN_INCREMENT, FADE_OUT_DECREMENT, INC_STEPS, NORMAL,
    WAIT_BETWEEN_STEPS_MS,
};

/// A device as plain as can be, to play the driver's part.
struct Device {
    volume: u32,
    muted: bool,
    record: u32,
}

/// Drives a fade against the device and lists the actions it asked for,
/// `Done` included. Gives up after `limit` actions.
fn drive(fade: Fade, device: &mut Device, limit: usize) -> Vec<Action> {
    let mut fade = fade;
    let mut event = Event::Ready;
    let mut asked = Vec::new();
    while asked.len() < limit {
        let (next, action) = fade.step(event);
        fade = next;
        asked.push(action);
        event = match action {
            Action::ReadVolume => Event::Level(device.volume),
            Action::SetMute(muted) => {
                device.muted = muted;
                Event::Ready
            }
            Action::Raise(amount) => {
                device.volume = device.volume.saturating_add(amount);
                Event::Ready
            }
            Action::Lower(amount) => {
                device.volume = device.volume.saturating_sub(amount);
                Event::Ready
            }
            Action::Pause => Event::Ready,
            Action::LoadCache => Event::Recorded(device.record),
            Action::SaveCache(level) => {
                device.record = level;
                Event::Ready
            }
            Action::Done | Action::Abort => return asked,
        };
    }
    asked
}

#[test]
fn step_amount_shares_the_total_out() {
    assert_eq!(step_amount(3276, 10), 327);
    assert_eq!(step_amount(100, 8), 12);
    assert_eq!(step_amount(9, 10), 0);
    assert_eq!(step_amount(0, 10), 0);
    assert_eq!(step_amount(u32::MAX, 1), u32::MAX);
    assert_eq!(step_amount(u32::MAX, 255), 16843009);
    assert_eq!(step_amount(500, 0), 0);
}

#[test]
fn built_in_amounts() {
    assert_eq!(NORMAL, 65536);
    assert_eq!(INC_STEPS, 10);
    assert_eq!(DEC_STEPS, 10);
    assert_eq!(FADE_IN_INCREMENT, 5898);
    assert_eq!(FADE_OUT_DECREMENT, 13107);
    assert_eq!(step_amount(FADE_IN_INCREMENT, INC_STEPS), 589);
    assert_eq!(step_amount(FADE_OUT_DECREMENT, DEC_STEPS), 1310);
    assert_eq!(WAIT_BETWEEN_STEPS_MS, 26);
}

#[test]
fn decrease_asks_for_every_step_and_a_pause_after_each() {
    let mut device = Device { volume: 1000, muted: false, record: 0 };
    let asked = drive(Fade::dec_vol(300, 3), &mut device, 100);
    assert_eq!(
        asked,
        vec![
            Action::Lower(100),
            Action::Pause,
            Action::Lower(100),
            Action::Pause,
            Action::Lower(100),
            Action::Pause,
            Action::Done,
        ]
    );
    assert_eq!(device.volume, 700);
    assert!(!device.muted);
}

#[test]
fn decrease_never_looks_at_the_level() {
    let mut device = Device { volume: 50, muted: true, record: 0 };
    let asked = drive(Fade::dec_vol(1000, 10), &mut device, 100);
    assert_eq!(asked.len(), 21);
    assert!(!asked.contains(&Action::ReadVolume));
    assert_eq!(asked.iter().filter(|a| **a == Action::Lower(100)).count(), 10);
    assert_eq!(asked.iter().filter(|a| **a == Action::Pause).count(), 10);
    assert_eq!(device.volume, 0);
    assert!(device.muted);
}

#[test]
fn increase_clears_the_mute_flag_first() {
    let mut device = Device { volume: 10, muted: true, record: 0 };
    let asked = drive(Fade::inc_vol(20, 2, None), &mut device, 100);
    assert_eq!(
        asked,
        vec![
            Action::SetMute(false),
            Action::Raise(10),
            Action::Pause,
            Action::Raise(10),
            Action::Pause,
            Action::Done,
        ]
    );
    assert_eq!(device.volume, 30);
    assert!(!device.muted);
}

#[test]
fn increase_without_steps_still_clears_the_mute_flag() {
    let mut device = Device { volume: 10, muted: true, record: 0 };
    let asked = drive(Fade::inc_vol(20, 0, None), &mut device, 100);
    assert_eq!(asked, vec![Action::SetMute(false), Action::Done]);
    assert_eq!(device.volume, 10);
    assert!(!device.muted);
}

#[test]
fn increase_with_target_looks_before_each_step_and_stops_early() {
    let mut device = Device { volume: 0, muted: false, record: 0 };
    let asked = drive(Fade::inc_vol(100, 10, Some(25)), &mut device, 100);
    assert_eq!(
        asked,
        vec![
            Action::SetMute(false),
            Action::ReadVolume,
            Action::Raise(10),
            Action::Pause,
            Action::ReadVolume,
            Action::Raise(10),
            Action::Pause,
            Action::ReadVolume,
            Action::Raise(10),
            Action::Pause,
            Action::ReadVolume,
            Action::Done,
        ]
    );
    assert_eq!(device.volume, 30);
}

#[test]
fn increase_with_target_out_of_reach_takes_all_steps() {
    let mut device = Device { volume: 0, muted: false, record: 0 };
    let asked = drive(Fade::inc_vol(30, 3, Some(1000)), &mut device, 100);
    assert_eq!(asked.iter().filter(|a| **a == Action::Raise(10)).count(), 3);
    assert_eq!(asked.iter().filter(|a| **a == Action::ReadVolume).count(), 3);
    assert_eq!(asked.last(), Some(&Action::Done));
    assert_eq!(device.volume, 30);
}

#[test]
fn increase_at_target_takes_no_step() {
    let mut device = Device { volume: 500, muted: true, record: 0 };
    let asked = drive(Fade::inc_vol(100, 10, Some(500)), &mut device, 100);
    assert_eq!(asked, vec![Action::SetMute(false), Action::ReadVolume, Action::Done]);
    assert_eq!(device.volume, 500);
    assert!(!device.muted);
}

#[test]
fn ramp_gives_up_when_the_event_is_no_answer() {
    let ramp = Ramp::new(true, 100, 10, Some(50));
    let (ramp, action) = ramp.step(Event::Ready);
    assert_eq!(action, Action::SetMute(false));
    let (ramp, action) = ramp.step(Event::Ready);
    assert_eq!(action, Action::ReadVolume);
    assert_eq!(ramp.phase, RampPhase::Reading);
    for no_answer in [Event::Ready, Event::Recorded(7), Event::Failed] {
        let (given_up, action) = ramp.step(no_answer);
        assert_eq!(action, Action::Abort);
        assert_eq!(given_up.phase, RampPhase::Aborted);
    }
    let (next, action) = ramp.step(Event::Level(7));
    assert_eq!(action, Action::Raise(10));
    assert_eq!(next.applied, 1);
    assert_eq!(next.phase, RampPhase::Moving);
}

#[test]
fn an_event_with_more_than_was_asked_is_taken_as_done() {
    let ramp = Ramp::new(false, 100, 10, None);
    let (ramp, action) = ramp.step(Event::Ready);
    assert_eq!(action, Action::Lower(10));
    let (ramp, action) = ramp.step(Event::Level(3));
    assert_eq!(action, Action::Pause);
    let (_, action) = ramp.step(Event::Recorded(3));
    assert_eq!(action, Action::Lower(10));
}

#[test]
fn failure_ends_every_operation_at_once() {
    let fades = [
        Fade::inc_vol(100, 10, Some(500)),
        Fade::dec_vol(100, 10),
        Fade::mute(100),
        Fade::unmute(100),
        Fade::toggle_mute(),
    ];
    for fresh in fades {
        // Fail the first action, then the second, and so on, as long as the
        // run has that many.
        for fail_at in 0..40 {
            let mut device = Device { volume: 30, muted: false, record: 60 };
            let mut fade = fresh;
            let mut event = Event::Ready;
            let mut turn = 0;
            loop {
                let (next, action) = fade.step(event);
                fade = next;
                if action == Action::Done {
                    break;
                }
                if turn > fail_at {
                    assert_eq!(action, Action::Abort);
                    let (same, again) = fade.step(Event::Level(1));
                    assert_eq!(again, Action::Abort);
                    assert_eq!(same, fade);
                    break;
                }
                assert_ne!(action, Action::Abort);
                event = if turn == fail_at {
                    Event::Failed
                } else {
                    match action {
                        Action::ReadVolume => Event::Level(device.volume),
                        Action::Raise(amount) => {
                            device.volume += amount;
                            Event::Ready
                        }
                        Action::Lower(amount) => {
                            device.volume = device.volume.saturating_sub(amount);
                            Event::Ready
                        }
                        Action::LoadCache => Event::Recorded(device.record),
                        _ => Event::Ready,
                    }
                };
                turn += 1;
            }
        }
    }
}

#[test]
fn failed_record_keeps_the_device_as_it_is() {
    let fade = Fade::mute(100);
    let (fade, action) = fade.step(Event::Ready);
    assert_eq!(action, Action::ReadVolume);
    let (fade, action) = fade.step(Event::Level(500));
    assert_eq!(action, Action::SaveCache(500));
    let (fade, action) = fade.step(Event::Failed);
    assert_eq!(action, Action::Abort);
    let (_, action) = fade.step(Event::Ready);
    assert_eq!(action, Action::Abort);
}

#[test]
fn new_ramp_has_taken_no_step() {
    let ramp = Ramp::new(false, 3276, 10, None);
    assert_eq!(
        ramp,
        Ramp {
            rising: false,
            delta: 327,
            steps: 10,
            target: None,
            applied: 0,
            phase: RampPhase::Start,
        }
    );
}

#[test]
fn mute_on_silence_asks_for_nothing_but_the_level() {
    let mut device = Device { volume: 0, muted: false, record: 77 };
    let asked = drive(Fade::mute(100), &mut device, 100);
    assert_eq!(asked, vec![Action::ReadVolume, Action::Done]);
    assert_eq!(device.record, 77);
    assert!(!device.muted);
}

#[test]
fn mute_records_first_then_fades_then_mutes() {
    let mut device = Device { volume: 15, muted: false, record: 0 };
    let asked = drive(Fade::mute(100), &mut device, 1000);
    assert_eq!(asked[0], Action::ReadVolume);
    assert_eq!(asked[1], Action::SaveCache(15));
    assert_eq!(asked[2], Action::ReadVolume);
    assert_eq!(asked[3], Action::Lower(10));
    assert_eq!(asked[4], Action::Pause);
    assert_eq!(asked.len(), 3 + 20 + 3);
    assert_eq!(asked[23], Action::ReadVolume);
    assert_eq!(asked[24], Action::SetMute(true));
    assert_eq!(asked[25], Action::Done);
    assert_eq!(asked.iter().filter(|a| matches!(a, Action::SaveCache(_))).count(), 1);
    assert_eq!(asked.iter().filter(|a| **a == Action::Lower(10)).count(), 10);
    assert_eq!(device.volume, 0);
    assert_eq!(device.record, 15);
    assert!(device.muted);
}

#[test]
fn mute_runs_rounds_until_silence() {
    let mut device = Device { volume: 250, muted: false, record: 0 };
    let asked = drive(Fade::mute(100), &mut device, 1000);
    // Three rounds of ten steps of 10: 250 is above silence after two.
    assert_eq!(asked.iter().filter(|a| **a == Action::Lower(10)).count(), 30);
    assert_eq!(asked.iter().filter(|a| **a == Action::Pause).count(), 30);
    assert_eq!(asked.iter().filter(|a| **a == Action::ReadVolume).count(), 5);
    assert_eq!(device.volume, 0);
    assert!(device.muted);
}

#[test]
fn unmute_loads_the_record_unmutes_and_rises_to_it() {
    let mut device = Device { volume: 0, muted: true, record: 25 };
    let asked = drive(Fade::unmute(100), &mut device, 1000);
    assert_eq!(
        asked,
        vec![
            Action::LoadCache,
            Action::SetMute(false),
            Action::ReadVolume,
            Action::SetMute(false),
            Action::ReadVolume,
            Action::Raise(10),
            Action::Pause,
            Action::ReadVolume,
            Action::Raise(10),
            Action::Pause,
            Action::ReadVolume,
            Action::Raise(10),
            Action::Pause,
            Action::ReadVolume,
            Action::ReadVolume,
            Action::Done,
        ]
    );
    assert_eq!(device.volume, 30);
    assert!(!device.muted);
    assert_eq!(device.record, 25);
}

#[test]
fn unmute_runs_rounds_until_the_target() {
    let mut device = Device { volume: 0, muted: true, record: 250 };
    let asked = drive(Fade::unmute(100), &mut device, 1000);
    assert_eq!(asked.iter().filter(|a| **a == Action::Raise(10)).count(), 25);
    assert_eq!(asked.iter().filter(|a| **a == Action::Pause).count(), 25);
    assert_eq!(asked.iter().filter(|a| **a == Action::SetMute(false)).count(), 4);
    assert_eq!(device.volume, 250);
}

#[test]
fn unmute_above_the_target_only_clears_the_flag() {
    let mut device = Device { volume: 900, muted: true, record: 250 };
    let asked = drive(Fade::unmute(100), &mut device, 1000);
    assert_eq!(
        asked,
        vec![Action::LoadCache, Action::SetMute(false), Action::ReadVolume, Action::Done]
    );
    assert_eq!(device.volume, 900);
    assert!(!device.muted);
}

#[test]
fn toggle_fades_out_what_sounds() {
    let mut device = Device { volume: 2000, muted: false, record: 0 };
    let asked = drive(Fade::toggle_mute(), &mut device, 1000);
    assert_eq!(asked[0], Action::ReadVolume);
    assert_eq!(asked[1], Action::ReadVolume);
    assert_eq!(asked[2], Action::SaveCache(2000));
    assert_eq!(asked[4], Action::Lower(1310));
    assert_eq!(asked.last(), Some(&Action::Done));
    assert_eq!(device.volume, 0);
    assert_eq!(device.record, 2000);
    assert!(device.muted);
}

#[test]
fn toggle_fades_in_what_is_silent_whatever_the_flag() {
    let mut device = Device { volume: 0, muted: false, record: 2000 };
    let asked = drive(Fade::toggle_mute(), &mut device, 1000);
    assert_eq!(asked[0], Action::ReadVolume);
    assert_eq!(asked[1], Action::LoadCache);
    assert_eq!(asked[2], Action::SetMute(false));
    assert_eq!(asked.iter().filter(|a| **a == Action::Raise(589)).count(), 4);
    assert_eq!(device.volume, 4 * 589);
    assert!(!device.muted);
}

#[test]
fn done_is_final() {
    let fades = [
        Fade::inc_vol(10, 1, None),
        Fade::dec_vol(10, 1),
        Fade::mute(100),
        Fade::unmute(100),
        Fade::toggle_mute(),
    ];
    for fade in fades {
        let mut device = Device { volume: 5, muted: false, record: 5 };
        let mut fade = fade;
        let mut event = Event::Ready;
        let mut turns = 0;
        loop {
            let (next, action) = fade.step(event);
            fade = next;
            turns += 1;
            assert!(turns < 1000);
            event = match action {
                Action::ReadVolume => Event::Level(device.volume),
                Action::Raise(amount) => {
                    device.volume += amount;
                    Event::Ready
                }
                Action::Lower(amount) => {
                    device.volume = device.volume.saturating_sub(amount);
                    Event::Ready
                }
                Action::LoadCache => Event::Recorded(device.record),
                Action::Done => break,
                _ => Event::Ready,
            };
        }
        for later in [Event::Ready, Event::Level(3), Event::Recorded(9), Event::Failed] {
            let (same, action) = fade.step(later);
            assert_eq!(action, Action::Done);
            assert_eq!(same, fade);
        }
    }
}

#[test]
fn fresh_machines() {
    assert_eq!(Fade::mute(200), Fade::Mute(MuteFade::new(200)));
    assert_eq!(Fade::unmute(90), Fade::Unmute(UnmuteFade::new(90)));
    assert_eq!(Fade::toggle_mute(), Fade::ToggleMute(ToggleFade::Start));
    assert_eq!(Fade::inc_vol(50, 10, Some(7)), Fade::Increase(Ramp::new(true, 50, 10, Some(7))));
    assert_eq!(Fade::dec_vol(50, 10), Fade::Decrease(Ramp::new(false, 50, 10, None)));
    assert_eq!(MuteFade::new(200).ramp.delta, 20);
    assert_eq!(UnmuteFade::new(90).ramp.delta, 9);
}
