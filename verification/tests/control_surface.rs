use speex_safe::control::{
    apply, check_error, fresh_state, handles, SPEEX_GET_BITRATE, SPEEX_GET_FRAME_SIZE,
    SPEEX_SET_QUALITY, SPEEX_SET_VBR,
};
use speex_safe::{
    CoderKind, ControlBuffer, ControlError, ControlFunctions, DynamicDecoder, DynamicEncoder,
    ModeId, NbMode, SpeexDecoder, SpeexEncoder, UwbMode, WbMode,
};

#[test]
fn construct_encoder_and_decoder_of_every_mode() {
    for mode in [ModeId::NarrowBand, ModeId::WideBand, ModeId::UltraWideBand] {
        let mut enc = DynamicEncoder::new(mode);
        let mut dec = DynamicDecoder::new(mode);
        assert_eq!(enc.get_frame_size(), mode.get_frame_size());
        assert_eq!(dec.get_frame_size(), mode.get_frame_size());
        // Both drop here; destruction cannot fault.
    }
}

#[test]
fn fresh_encoder_defaults() {
    let mut enc = SpeexEncoder::<NbMode>::new();
    assert!(!enc.get_vbr());
    assert!(!enc.get_vad());
    assert!(enc.get_submode_encoding());
    assert!(enc.get_highpass());
    assert_eq!(enc.get_abr(), 0);
    assert_eq!(enc.get_vbr_max_bitrate(), 0);
    assert_eq!(enc.get_plc_tuning(), 2);
    assert_eq!(enc.get_sampling_rate(), 8000);
    assert_eq!(enc.get_bitrate(), 15000);
}

#[test]
fn fresh_wideband_defaults() {
    let mut enc = SpeexEncoder::<WbMode>::new();
    assert_eq!(enc.get_sampling_rate(), 16000);
    assert_eq!(enc.get_bitrate(), 27800);
    let mut enc = SpeexEncoder::<UwbMode>::new();
    assert_eq!(enc.get_sampling_rate(), 32000);
    assert_eq!(enc.get_bitrate(), 29600);
}

#[test]
fn boolean_controls_round_trip_idempotently() {
    let mut enc = SpeexEncoder::<WbMode>::new();
    for x in [true, false] {
        enc.set_vbr(x);
        assert_eq!(enc.get_vbr(), x);
        enc.set_vbr(x);
        assert_eq!(enc.get_vbr(), x);
        enc.set_vad(x);
        assert_eq!(enc.get_vad(), x);
        enc.set_vad(x);
        assert_eq!(enc.get_vad(), x);
        enc.set_submode_encoding(x);
        assert_eq!(enc.get_submode_encoding(), x);
        enc.set_submode_encoding(x);
        assert_eq!(enc.get_submode_encoding(), x);
        enc.set_highpass(x);
        assert_eq!(enc.get_highpass(), x);
        enc.set_highpass(x);
        assert_eq!(enc.get_highpass(), x);
    }
}

#[test]
fn decoder_boolean_controls_round_trip() {
    let mut dec = SpeexDecoder::<NbMode>::new();
    for x in [true, false] {
        dec.set_submode_encoding(x);
        assert_eq!(dec.get_submode_encoding(), x);
        dec.set_highpass(x);
        assert_eq!(dec.get_highpass(), x);
    }
}

#[test]
fn scalar_controls_round_trip() {
    let mut enc = SpeexEncoder::<NbMode>::new();
    enc.set_abr(9600);
    assert_eq!(enc.get_abr(), 9600);
    enc.set_bitrate(11000);
    assert_eq!(enc.get_bitrate(), 11000);
    enc.set_sampling_rate(8000);
    assert_eq!(enc.get_sampling_rate(), 8000);
    enc.set_plc_tuning(15);
    assert_eq!(enc.get_plc_tuning(), 15);
    enc.set_vbr_max_bitrate(24600);
    assert_eq!(enc.get_vbr_max_bitrate(), 24600);
}

#[test]
fn reset_restores_defaults_not_previous_values() {
    let mut enc = SpeexEncoder::<NbMode>::new();
    enc.set_vbr(true);
    enc.set_bitrate(2150);
    enc.set_plc_tuning(40);
    enc.reset_state();
    // Post-reset reads are the construction defaults, not the values that
    // were stored just before the reset.
    assert!(!enc.get_vbr());
    assert_eq!(enc.get_bitrate(), 15000);
    assert_eq!(enc.get_plc_tuning(), 2);
}

#[test]
fn lookahead_is_fixed_and_sums_to_total_delay() {
    let expected = [
        (ModeId::NarrowBand, 40, 40, 80),
        (ModeId::WideBand, 143, 80, 223),
        (ModeId::UltraWideBand, 349, 160, 509),
    ];
    for (mode, enc_la, dec_la, total) in expected {
        let mut enc = DynamicEncoder::new(mode);
        let mut dec = DynamicDecoder::new(mode);
        assert_eq!(enc.get_lookahead(), enc_la);
        assert_eq!(dec.get_lookahead(), dec_la);
        assert_eq!(enc.get_lookahead() + dec.get_lookahead(), total);
    }
}

#[test]
fn facade_matches_direct_handle() {
    // The dynamic facade must forward so faithfully that the same two calls
    // give identical results on a directly-typed coder of the same mode.
    let mut direct = SpeexEncoder::<WbMode>::new();
    direct.set_quality(7);
    let direct_bitrate = direct.get_bitrate();

    let mut dynamic = DynamicEncoder::new(ModeId::WideBand);
    dynamic.set_quality(7);
    assert_eq!(dynamic.get_bitrate(), direct_bitrate);
}

#[test]
fn unsupported_request_reports_exact_code() {
    let mut st = fresh_state(CoderKind::Decoder, ModeId::NarrowBand);
    let before = st;
    let mut buf = ControlBuffer::Int(1);
    let r = apply(&mut st, SPEEX_SET_VBR, &mut buf);
    assert_eq!(r, Err(ControlError::UnknownRequest(SPEEX_SET_VBR)));
    assert_eq!(st, before);
    assert_eq!(buf, ControlBuffer::Int(1));
}

#[test]
fn out_of_range_set_reports_invalid_parameter() {
    let mut st = fresh_state(CoderKind::Encoder, ModeId::NarrowBand);
    let before = st;
    let mut buf = ControlBuffer::Int(11);
    let r = apply(&mut st, SPEEX_SET_QUALITY, &mut buf);
    assert_eq!(r, Err(ControlError::InvalidParameter));
    assert_eq!(st, before);
}

#[test]
fn apply_get_writes_buffer() {
    let mut st = fresh_state(CoderKind::Encoder, ModeId::NarrowBand);
    let mut buf = ControlBuffer::Int(0);
    let r = apply(&mut st, SPEEX_GET_FRAME_SIZE, &mut buf);
    assert_eq!(r, Ok(()));
    assert_eq!(buf, ControlBuffer::Int(160));
    assert_eq!(buf.int_value(), 160);
    let r = apply(&mut st, SPEEX_GET_BITRATE, &mut buf);
    assert_eq!(r, Ok(()));
    assert_eq!(buf, ControlBuffer::Int(15000));
}

#[test]
fn handle_kinds_answer_their_own_requests() {
    assert!(handles(CoderKind::Encoder, SPEEX_SET_VBR));
    assert!(!handles(CoderKind::Decoder, SPEEX_SET_VBR));
    assert!(handles(CoderKind::Decoder, SPEEX_GET_FRAME_SIZE));
    assert!(handles(CoderKind::Decoder, SPEEX_GET_BITRATE));
    // A code outside the modeled surface is answered by neither kind.
    assert!(!handles(CoderKind::Encoder, 999));
    assert!(!handles(CoderKind::Decoder, 999));
}

#[test]
fn check_error_translates_each_status() {
    assert_eq!(check_error(0, None), Ok(()));
    assert_eq!(
        check_error(-1, Some(7)),
        Err(ControlError::UnknownRequest(7))
    );
    assert_eq!(check_error(-2, None), Err(ControlError::InvalidParameter));
}

#[test]
fn control_error_descriptions() {
    assert_eq!(
        ControlError::UnknownRequest(42).describe(),
        "unknown request type passed to a control function"
    );
    assert_eq!(ControlError::InvalidParameter.describe(), "invalid parameter");
}
