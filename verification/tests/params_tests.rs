use tracker_core::noise::NoiseMode;
use tracker_core::params::{NudgeError, PulseDir, PulseShape, TimeParam, Volume};
use tracker_core::pulse::{PulseChannel, PulseChannelParams};
use tracker_core::pulse_sweep::{Sweep, SweepDir, SweepTime};
use tracker_core::step::{nudge_note_value, InstrumentParams, Step};
use tracker_core::wave::{
    Voice, WaveAttack, WaveDecay, WaveShape, WaveShapeType, WaveType, WaveTypeType, WaveVolume,
};

#[test]
fn volume_clamps_at_the_top_and_still_errors() {
    // Volume at 95, nudge up: 100, Ok. Nudge up again: stays 100, Err.
    let mut v = Volume { value: 95 };
    assert_eq!(v.nudge_up(), Ok(()));
    assert_eq!(v.value, 100);
    assert_eq!(v.nudge_up(), Err(NudgeError::AtMax));
    assert_eq!(v.value, 100);
}

#[test]
fn volume_errors_below_the_bottom() {
    let mut v = Volume { value: 0 };
    assert_eq!(v.nudge_down(), Err(NudgeError::AtMin));
    assert_eq!(v.value, 0);

    let mut v = Volume { value: 3 };
    assert_eq!(v.nudge_down(), Err(NudgeError::AtMin));
    assert_eq!(v.value, 3);

    let mut v = Volume { value: 5 };
    assert_eq!(v.nudge_down(), Ok(()));
    assert_eq!(v.value, 0);
}

#[test]
fn pulse_shape_steps_and_errors_at_either_end() {
    let mut s = PulseShape::new();
    assert_eq!(s, PulseShape::Half);
    assert_eq!(s.nudge_up(), Ok(()));
    assert_eq!(s, PulseShape::ThreeQuarters);
    assert_eq!(s.nudge_up(), Err(NudgeError::AtMax));
    assert_eq!(s, PulseShape::ThreeQuarters);

    let mut s = PulseShape::Eighth;
    assert_eq!(s.nudge_down(), Err(NudgeError::AtMin));
    assert_eq!(s, PulseShape::Eighth);
    assert_eq!(s.nudge_up(), Ok(()));
    assert_eq!(s, PulseShape::Quarter);
}

#[test]
fn time_param_steps_and_errors_at_either_end() {
    let mut t = TimeParam::new();
    assert_eq!(t, TimeParam::SixTwoMS);
    assert_eq!(t.nudge_down(), Ok(()));
    assert_eq!(t, TimeParam::FourSixMS);

    let mut t = TimeParam::Off;
    assert_eq!(t.nudge_up(), Err(NudgeError::AtMax));
    let mut t = TimeParam::OneFiveMS;
    assert_eq!(t.nudge_down(), Err(NudgeError::AtMin));
    let mut t = TimeParam::OneS;
    assert_eq!(t.nudge_up(), Ok(()));
    assert_eq!(t, TimeParam::Off);
}

#[test]
fn pulse_dir_is_a_pure_toggle_in_both_directions() {
    let mut d = PulseDir::new();
    assert!(!d.up);
    assert_eq!(d.nudge_up(), Ok(()));
    assert!(d.up);
    assert_eq!(d.nudge_up(), Ok(()));
    assert!(!d.up);
    // Nudging down is defined identically to nudging up.
    assert_eq!(d.nudge_down(), Ok(()));
    assert!(d.up);
    assert_eq!(d.nudge_down(), Ok(()));
    assert!(!d.up);
}

#[test]
fn sweep_doubles_and_halves_between_0_and_64() {
    let mut s = Sweep::new();
    assert_eq!(s.value, 0);
    assert_eq!(s.nudge_up(), Ok(()));
    assert_eq!(s.value, 1);
    for expect in [2u8, 4, 8, 16, 32, 64] {
        assert_eq!(s.nudge_up(), Ok(()));
        assert_eq!(s.value, expect);
    }
    assert_eq!(s.nudge_up(), Err(NudgeError::AtMax));
    assert_eq!(s.value, 64);

    for expect in [32u8, 16, 8, 4, 2, 1, 0] {
        assert_eq!(s.nudge_down(), Ok(()));
        assert_eq!(s.value, expect);
    }
    assert_eq!(s.nudge_down(), Err(NudgeError::AtMin));
    assert_eq!(s.value, 0);
}

#[test]
fn sweep_time_steps_and_errors_at_either_end() {
    let mut t = SweepTime::new();
    assert!(matches!(t, SweepTime::Off));
    assert_eq!(t.nudge_down(), Err(NudgeError::AtMin));
    assert_eq!(t.nudge_up(), Ok(()));
    assert!(matches!(t, SweepTime::SevenMS));

    let mut t = SweepTime::FiftyFourMS;
    assert_eq!(t.nudge_up(), Err(NudgeError::AtMax));
    assert_eq!(t.nudge_down(), Ok(()));
    assert!(matches!(t, SweepTime::FortySixMS));
}

#[test]
fn sweep_dir_is_a_pure_toggle() {
    let mut d = SweepDir::new();
    assert_eq!(d.nudge_up(), Ok(()));
    assert!(d.up);
    assert_eq!(d.nudge_down(), Ok(()));
    assert!(!d.up);
}

#[test]
fn noise_mode_errors_at_the_requested_end() {
    let mut m = NoiseMode::new();
    assert!(m.a);
    assert_eq!(m.nudge_down(), Err(NudgeError::AtMin));
    assert_eq!(m.nudge_up(), Ok(()));
    assert!(!m.a);
    assert_eq!(m.nudge_up(), Err(NudgeError::AtMax));
    assert_eq!(m.nudge_down(), Ok(()));
    assert!(m.a);
}

#[test]
fn wave_volume_steps_by_25_and_errors_at_either_end() {
    let mut v = WaveVolume { level: 0 };
    assert_eq!(v.nudge_down(), Err(NudgeError::AtMin));
    for expect in [25usize, 50, 75, 100] {
        assert_eq!(v.nudge_up(), Ok(()));
        assert_eq!(v.level, expect);
    }
    assert_eq!(v.nudge_up(), Err(NudgeError::AtMax));
    assert_eq!(v.level, 100);
}

#[test]
fn wave_attack_and_decay_step_between_0_and_16() {
    let mut a = WaveAttack { atk: 0 };
    assert_eq!(a.nudge_down(), Err(NudgeError::AtMin));
    for _ in 0..16 {
        assert_eq!(a.nudge_up(), Ok(()));
    }
    assert_eq!(a.atk, 16);
    assert_eq!(a.nudge_up(), Err(NudgeError::AtMax));

    let mut d = WaveDecay { decay: 16 };
    assert_eq!(d.nudge_up(), Err(NudgeError::AtMax));
    assert_eq!(d.nudge_down(), Ok(()));
    assert_eq!(d.decay, 15);
    let mut d = WaveDecay { decay: 0 };
    assert_eq!(d.nudge_down(), Err(NudgeError::AtMin));
}

#[test]
fn wave_shape_type_and_voice_step_and_error_at_ends() {
    let mut s = WaveShape { shape: WaveShapeType::Sin, voice: true };
    assert_eq!(s.nudge_down(), Err(NudgeError::AtMin));
    assert_eq!(s.nudge_up(), Ok(()));
    assert!(matches!(s.shape, WaveShapeType::Saw));
    assert_eq!(s.nudge_up(), Ok(()));
    assert!(matches!(s.shape, WaveShapeType::Sqr));
    assert_eq!(s.nudge_up(), Err(NudgeError::AtMax));
    assert!(s.voice);

    let mut t = WaveType { wave_type: WaveTypeType::D, voice: false };
    assert_eq!(t.nudge_up(), Err(NudgeError::AtMax));
    assert_eq!(t.nudge_down(), Ok(()));
    assert!(matches!(t.wave_type, WaveTypeType::C));
    let mut t = WaveType { wave_type: WaveTypeType::A, voice: false };
    assert_eq!(t.nudge_down(), Err(NudgeError::AtMin));

    let mut v = Voice::A;
    assert_eq!(v.nudge_down(), Err(NudgeError::AtMin));
    assert_eq!(v.nudge_up(), Ok(()));
    assert!(matches!(v, Voice::B));
    assert_eq!(v.nudge_up(), Ok(()));
    assert!(matches!(v, Voice::Both));
    assert_eq!(v.nudge_up(), Err(NudgeError::AtMax));
}

#[test]
fn midi_note_errors_at_0_and_127() {
    let mut n: u8 = 127;
    assert_eq!(nudge_note_value(&mut n, true), Err(NudgeError::AtMax));
    assert_eq!(n, 127);
    assert_eq!(nudge_note_value(&mut n, false), Ok(()));
    assert_eq!(n, 126);

    let mut n: u8 = 0;
    assert_eq!(nudge_note_value(&mut n, false), Err(NudgeError::AtMin));
    assert_eq!(n, 0);
    assert_eq!(nudge_note_value(&mut n, true), Ok(()));
    assert_eq!(n, 1);
}

#[test]
fn unused_parameter_slots_report_bad_param_index() {
    let mut p = PulseChannelParams::new();
    assert_eq!(p.nudge_param(4, true), Err(NudgeError::BadParamIndex));
    assert_eq!(p.nudge_param(9, false), Err(NudgeError::BadParamIndex));
    // The bundle is untouched by a bad slot number.
    assert_eq!(p, PulseChannelParams::new());
}

#[test]
fn step_nudges_note_or_parameter_by_slot() {
    let mut s = Step { note: 60u8, params: PulseChannelParams::new(), muted: false };
    // No slot: the note moves one semitone.
    assert_eq!(s.nudge(true, None), Ok(()));
    assert_eq!(s.note, 61);
    // Slot 1 is the volume.
    assert_eq!(s.nudge(true, Some(1)), Ok(()));
    assert_eq!(s.params.volume.value, 5);
    assert_eq!(s.note, 61);
}

#[test]
fn whole_channel_parameter_nudge_visits_every_step() {
    let mut ch = PulseChannel::new();
    // Put one step's volume at the top so its nudge fails.
    ch.steps[9].params.volume.value = 100;

    // Slot 1 is the volume: every step is nudged, the failing one is left
    // clamped, and the first failure is reported.
    let res = ch.nudge(true, Some(1));
    assert_eq!(res, Err(NudgeError::AtMax));
    for (i, step) in ch.steps.iter().enumerate() {
        if i == 9 {
            assert_eq!(step.params.volume.value, 100);
        } else {
            assert_eq!(step.params.volume.value, 5);
        }
        assert_eq!(step.note, 0, "a parameter nudge leaves the notes alone");
    }
}
