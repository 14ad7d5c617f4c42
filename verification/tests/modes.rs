use speex_safe::{ModeId, NbSubmodeId, SpeexStereoState, UwbSubmodeId, WbSubmodeId};

#[test]
fn frame_size_is_stable_and_mode_specific() {
    let nb = ModeId::NarrowBand.get_frame_size();
    let wb = ModeId::WideBand.get_frame_size();
    let uwb = ModeId::UltraWideBand.get_frame_size();
    assert_eq!(nb, 160);
    assert_eq!(wb, 320);
    assert_eq!(uwb, 640);
    // Repeated queries within one run return the same value.
    assert_eq!(ModeId::NarrowBand.get_frame_size(), nb);
    assert_eq!(ModeId::WideBand.get_frame_size(), wb);
    assert_eq!(ModeId::UltraWideBand.get_frame_size(), uwb);
    // The three modes are told apart by their frame sizes.
    assert!(nb != wb && wb != uwb && nb != uwb);
    assert!(nb > 0 && wb > 0 && uwb > 0);
}

#[test]
fn mode_code_round_trip() {
    assert_eq!(ModeId::NarrowBand.to_code(), 0);
    assert_eq!(ModeId::WideBand.to_code(), 1);
    assert_eq!(ModeId::UltraWideBand.to_code(), 2);
    assert_eq!(ModeId::from_code(0), Some(ModeId::NarrowBand));
    assert_eq!(ModeId::from_code(1), Some(ModeId::WideBand));
    assert_eq!(ModeId::from_code(2), Some(ModeId::UltraWideBand));
    assert_eq!(ModeId::from_code(3), None);
    assert_eq!(ModeId::from_code(-1), None);
}

#[test]
fn nominal_sampling_rates() {
    assert_eq!(ModeId::NarrowBand.nominal_sampling_rate(), 8000);
    assert_eq!(ModeId::WideBand.nominal_sampling_rate(), 16000);
    assert_eq!(ModeId::UltraWideBand.nominal_sampling_rate(), 32000);
}

#[test]
fn nb_submode_code_round_trip() {
    let all = [
        NbSubmodeId::VocoderLike,
        NbSubmodeId::VeryLow,
        NbSubmodeId::Low,
        NbSubmodeId::Medium,
        NbSubmodeId::High,
        NbSubmodeId::VeryHigh,
        NbSubmodeId::ExtremeHigh,
        NbSubmodeId::ExtremeLow,
    ];
    for s in all {
        assert_eq!(NbSubmodeId::from_code(s.to_code()), Some(s));
    }
    assert_eq!(NbSubmodeId::VocoderLike.to_code(), 1);
    assert_eq!(NbSubmodeId::ExtremeLow.to_code(), 8);
    assert_eq!(NbSubmodeId::from_code(0), None);
    assert_eq!(NbSubmodeId::from_code(9), None);
}

#[test]
fn wb_submode_code_round_trip() {
    let all = [
        WbSubmodeId::NoQuantize,
        WbSubmodeId::QuantizedLow,
        WbSubmodeId::QuantizedMedium,
        WbSubmodeId::QuantizedHigh,
    ];
    for s in all {
        assert_eq!(WbSubmodeId::from_code(s.to_code()), Some(s));
    }
    assert_eq!(WbSubmodeId::from_code(0), None);
    assert_eq!(WbSubmodeId::from_code(5), None);
}

#[test]
fn uwb_submode_code_round_trip() {
    assert_eq!(UwbSubmodeId::Only.to_code(), 1);
    assert_eq!(UwbSubmodeId::from_code(1), Some(UwbSubmodeId::Only));
    assert_eq!(UwbSubmodeId::from_code(0), None);
    assert_eq!(UwbSubmodeId::from_code(2), None);
}

#[test]
fn submode_catalog_counts() {
    let nb_count = (-2..12)
        .filter(|&c| speex_safe::submode::is_legal_submode_code(ModeId::NarrowBand, c))
        .count();
    let wb_count = (-2..12)
        .filter(|&c| speex_safe::submode::is_legal_submode_code(ModeId::WideBand, c))
        .count();
    let uwb_count = (-2..12)
        .filter(|&c| speex_safe::submode::is_legal_submode_code(ModeId::UltraWideBand, c))
        .count();
    assert_eq!(nb_count, 8);
    assert_eq!(wb_count, 4);
    assert_eq!(uwb_count, 1);
}

#[test]
fn stereo_state_reset_repeats_without_change() {
    let fresh = SpeexStereoState::new();
    assert_eq!(fresh.balance_milli, 1000);
    assert_eq!(fresh.e_ratio_milli, 500);
    assert_eq!(fresh.smooth_left_milli, 1000);
    assert_eq!(fresh.smooth_right_milli, 1000);

    let mut s = SpeexStereoState::new();
    s.balance_milli = 250;
    s.smooth_left_milli = 10;
    s.reset();
    assert_eq!(s, fresh);
    // Any number of further resets changes nothing.
    s.reset();
    s.reset();
    s.reset();
    assert_eq!(s, fresh);
}

#[test]
fn stereo_state_default_matches_new() {
    assert_eq!(SpeexStereoState::default(), SpeexStereoState::new());
}
