use vstd::prelude::*;
use crate::control::{
    apply, fresh_state, fresh_state_spec, CoderKind, CoderState, ControlBuffer, ControlFunctions,
    Sealed, SPEEX_GET_ABR, SPEEX_GET_BITRATE, SPEEX_GET_FRAME_SIZE, SPEEX_GET_HIGHPASS,
    SPEEX_GET_LOOKAHEAD, SPEEX_GET_PLC_TUNING, SPEEX_GET_SAMPLING_RATE,
    SPEEX_GET_SUBMODE_ENCODING, SPEEX_GET_VAD, SPEEX_GET_VBR, SPEEX_GET_VBR_MAX_BITRATE,
    SPEEX_RESET_STATE, SPEEX_SET_ABR, SPEEX_SET_BITRATE, SPEEX_SET_HIGHPASS,
    SPEEX_SET_PLC_TUNING, SPEEX_SET_QUALITY, SPEEX_SET_SAMPLING_RATE,
    SPEEX_SET_SUBMODE_ENCODING, SPEEX_SET_VAD, SPEEX_SET_VBR, SPEEX_SET_VBR_MAX_BITRATE,
};
use crate::mode::{CoderMode, ModeId, NbMode, UwbMode, WbMode};

verus! {

/// A decoder instance whose bandwidth mode is fixed at compile time by the
/// marker `M`. It carries the control-visible state that the named parameter
/// operations act on; the opaque engine handle it mirrors lives outside the
/// verified crate. A decoder answers only the decoder subset of the control
/// surface: the encoder-side tuning operations are unknown requests for it.
pub struct SpeexDecoder<M: CoderMode> {
    st: CoderState,
    marker: core::marker::PhantomData<M>,
}

impl<M: CoderMode> SpeexDecoder<M> {
    /// Constructs a decoder of mode `M` with the documented construction
    /// defaults. Construction is total: it cannot fail.
    pub fn new() -> (r: Self)
        ensures
            r.wf(),
            r.coder() == fresh_state_spec(CoderKind::Decoder, M::mode_spec()),
    {
        SpeexDecoder {
            st: fresh_state(CoderKind::Decoder, M::mode_id()),
            marker: core::marker::PhantomData,
        }
    }
}

impl<M: CoderMode> Sealed for SpeexDecoder<M> {

}

impl<M: CoderMode> ControlFunctions for SpeexDecoder<M> {
    closed spec fn coder(&self) -> CoderState {
        self.st
    }

    closed spec fn wf(&self) -> bool {
        self.st.kind == CoderKind::Decoder && self.st.mode == M::mode_spec()
    }

    fn get_frame_size(&mut self) -> i32 {
        let mut buf = ControlBuffer::Int(0);
        let _ = apply(&mut self.st, SPEEX_GET_FRAME_SIZE, &mut buf);
        buf.int_value()
    }

    fn set_vbr(&mut self, vbr: bool) {
        let mut buf = ControlBuffer::Int(if vbr { 1 } else { 0 });
        let _ = apply(&mut self.st, SPEEX_SET_VBR, &mut buf);
    }

    fn get_vbr(&mut self) -> bool {
        let mut buf = ControlBuffer::Int(0);
        let _ = apply(&mut self.st, SPEEX_GET_VBR, &mut buf);
        buf.int_value() != 0
    }

    fn set_vad(&mut self, vad: bool) {
        let mut buf = ControlBuffer::Int(if vad { 1 } else { 0 });
        let _ = apply(&mut self.st, SPEEX_SET_VAD, &mut buf);
    }

    fn get_vad(&mut self) -> bool {
        let mut buf = ControlBuffer::Int(0);
        let _ = apply(&mut self.st, SPEEX_GET_VAD, &mut buf);
        buf.int_value() != 0
    }

    fn set_abr(&mut self, abr: i32) {
        let mut buf = ControlBuffer::Int(abr);
        let _ = apply(&mut self.st, SPEEX_SET_ABR, &mut buf);
    }

    fn get_abr(&mut self) -> i32 {
        let mut buf = ControlBuffer::Int(0);
        let _ = apply(&mut self.st, SPEEX_GET_ABR, &mut buf);
        buf.int_value()
    }

    fn set_quality(&mut self, quality: i32) {
        let mut buf = ControlBuffer::Int(quality);
        let _ = apply(&mut self.st, SPEEX_SET_QUALITY, &mut buf);
    }

    fn set_bitrate(&mut self, bitrate: i32) {
        let mut buf = ControlBuffer::Int(bitrate);
        let _ = apply(&mut self.st, SPEEX_SET_BITRATE, &mut buf);
    }

    fn get_bitrate(&mut self) -> i32 {
        let mut buf = ControlBuffer::Int(0);
        let _ = apply(&mut self.st, SPEEX_GET_BITRATE, &mut buf);
        buf.int_value()
    }

    fn set_sampling_rate(&mut self, samplingrate: i32) {
        let mut buf = ControlBuffer::Int(samplingrate);
        let _ = apply(&mut self.st, SPEEX_SET_SAMPLING_RATE, &mut buf);
    }

    fn get_sampling_rate(&mut self) -> i32 {
        let mut buf = ControlBuffer::Int(0);
        let _ = apply(&mut self.st, SPEEX_GET_SAMPLING_RATE, &mut buf);
        buf.int_value()
    }

    fn reset_state(&mut self) {
        let mut buf = ControlBuffer::Empty;
        let _ = apply(&mut self.st, SPEEX_RESET_STATE, &mut buf);
    }

    fn set_submode_encoding(&mut self, submode: bool) {
        let mut buf = ControlBuffer::Int(if submode { 1 } else { 0 });
        let _ = apply(&mut self.st, SPEEX_SET_SUBMODE_ENCODING, &mut buf);
    }

    fn get_submode_encoding(&mut self) -> bool {
        let mut buf = ControlBuffer::Int(0);
        let _ = apply(&mut self.st, SPEEX_GET_SUBMODE_ENCODING, &mut buf);
        buf.int_value() != 0
    }

    fn get_lookahead(&mut self) -> i32 {
        let mut buf = ControlBuffer::Int(0);
        let _ = apply(&mut self.st, SPEEX_GET_LOOKAHEAD, &mut buf);
        buf.int_value()
    }

    fn set_plc_tuning(&mut self, tuning: i32) {
        let mut buf = ControlBuffer::Int(tuning);
        let _ = apply(&mut self.st, SPEEX_SET_PLC_TUNING, &mut buf);
    }

    fn get_plc_tuning(&mut self) -> i32 {
        let mut buf = ControlBuffer::Int(0);
        let _ = apply(&mut self.st, SPEEX_GET_PLC_TUNING, &mut buf);
        buf.int_value()
    }

    fn set_vbr_max_bitrate(&mut self, max_bitrate: i32) {
        let mut buf = ControlBuffer::Int(max_bitrate);
        let _ = apply(&mut self.st, SPEEX_SET_VBR_MAX_BITRATE, &mut buf);
    }

    fn get_vbr_max_bitrate(&mut self) -> i32 {
        let mut buf = ControlBuffer::Int(0);
        let _ = apply(&mut self.st, SPEEX_GET_VBR_MAX_BITRATE, &mut buf);
        buf.int_value()
    }

    fn set_highpass(&mut self, highpass: bool) {
        let mut buf = ControlBuffer::Int(if highpass { 1 } else { 0 });
        let _ = apply(&mut self.st, SPEEX_SET_HIGHPASS, &mut buf);
    }

    fn get_highpass(&mut self) -> bool {
        let mut buf = ControlBuffer::Int(0);
        let _ = apply(&mut self.st, SPEEX_GET_HIGHPASS, &mut buf);
        buf.int_value() != 0
    }
}

/// A decoder whose bandwidth mode is chosen at run time: a tagged union over
/// the three per-mode decoder types. The active tag is fixed at construction
/// and no operation changes it; every parameter operation forwards to the
/// one live variant.
pub enum DynamicDecoder {
    Nb(SpeexDecoder<NbMode>),
    Wb(SpeexDecoder<WbMode>),
    Uwb(SpeexDecoder<UwbMode>),
}

impl DynamicDecoder {
    /// Constructs a decoder of the mode chosen at run time, with the
    /// documented construction defaults. Construction is total.
    pub fn new(mode: ModeId) -> (r: Self)
        ensures
            r.wf(),
            r.coder() == fresh_state_spec(CoderKind::Decoder, mode),
    {
        match mode {
            ModeId::NarrowBand => DynamicDecoder::Nb(SpeexDecoder::<NbMode>::new()),
            ModeId::WideBand => DynamicDecoder::Wb(SpeexDecoder::<WbMode>::new()),
            ModeId::UltraWideBand => DynamicDecoder::Uwb(SpeexDecoder::<UwbMode>::new()),
        }
    }
}

impl Sealed for DynamicDecoder {

}

impl ControlFunctions for DynamicDecoder {
    closed spec fn coder(&self) -> CoderState {
        match self {
            DynamicDecoder::Nb(d) => d.coder(),
            DynamicDecoder::Wb(d) => d.coder(),
            DynamicDecoder::Uwb(d) => d.coder(),
        }
    }

    closed spec fn wf(&self) -> bool {
        match self {
            DynamicDecoder::Nb(d) => d.wf(),
            DynamicDecoder::Wb(d) => d.wf(),
            DynamicDecoder::Uwb(d) => d.wf(),
        }
    }

    fn get_frame_size(&mut self) -> i32 {
        match self {
            DynamicDecoder::Nb(d) => d.get_frame_size(),
            DynamicDecoder::Wb(d) => d.get_frame_size(),
            DynamicDecoder::Uwb(d) => d.get_frame_size(),
        }
    }

    fn set_vbr(&mut self, vbr: bool) {
        match self {
            DynamicDecoder::Nb(d) => d.set_vbr(vbr),
            DynamicDecoder::Wb(d) => d.set_vbr(vbr),
            DynamicDecoder::Uwb(d) => d.set_vbr(vbr),
        }
    }

    fn get_vbr(&mut self) -> bool {
        match self {
            DynamicDecoder::Nb(d) => d.get_vbr(),
            DynamicDecoder::Wb(d) => d.get_vbr(),
            DynamicDecoder::Uwb(d) => d.get_vbr(),
        }
    }

    fn set_vad(&mut self, vad: bool) {
        match self {
            DynamicDecoder::Nb(d) => d.set_vad(vad),
            DynamicDecoder::Wb(d) => d.set_vad(vad),
            DynamicDecoder::Uwb(d) => d.set_vad(vad),
        }
    }

    fn get_vad(&mut self) -> bool {
        match self {
            DynamicDecoder::Nb(d) => d.get_vad(),
            DynamicDecoder::Wb(d) => d.get_vad(),
            DynamicDecoder::Uwb(d) => d.get_vad(),
        }
    }

    fn set_abr(&mut self, abr: i32) {
        match self {
            DynamicDecoder::Nb(d) => d.set_abr(abr),
            DynamicDecoder::Wb(d) => d.set_abr(abr),
            DynamicDecoder::Uwb(d) => d.set_abr(abr),
        }
    }

    fn get_abr(&mut self) -> i32 {
        match self {
            DynamicDecoder::Nb(d) => d.get_abr(),
            DynamicDecoder::Wb(d) => d.get_abr(),
            DynamicDecoder::Uwb(d) => d.get_abr(),
        }
    }

    fn set_quality(&mut self, quality: i32) {
        match self {
            DynamicDecoder::Nb(d) => d.set_quality(quality),
            DynamicDecoder::Wb(d) => d.set_quality(quality),
            DynamicDecoder::Uwb(d) => d.set_quality(quality),
        }
    }

    fn set_bitrate(&mut self, bitrate: i32) {
        match self {
            DynamicDecoder::Nb(d) => d.set_bitrate(bitrate),
            DynamicDecoder::Wb(d) => d.set_bitrate(bitrate),
            DynamicDecoder::Uwb(d) => d.set_bitrate(bitrate),
        }
    }

    fn get_bitrate(&mut self) -> i32 {
        match self {
            DynamicDecoder::Nb(d) => d.get_bitrate(),
            DynamicDecoder::Wb(d) => d.get_bitrate(),
            DynamicDecoder::Uwb(d) => d.get_bitrate(),
        }
    }

    fn set_sampling_rate(&mut self, samplingrate: i32) {
        match self {
            DynamicDecoder::Nb(d) => d.set_sampling_rate(samplingrate),
            DynamicDecoder::Wb(d) => d.set_sampling_rate(samplingrate),
            DynamicDecoder::Uwb(d) => d.set_sampling_rate(samplingrate),
        }
    }

    fn get_sampling_rate(&mut self) -> i32 {
        match self {
            DynamicDecoder::Nb(d) => d.get_sampling_rate(),
            DynamicDecoder::Wb(d) => d.get_sampling_rate(),
            DynamicDecoder::Uwb(d) => d.get_sampling_rate(),
        }
    }

    fn reset_state(&mut self) {
        match self {
            DynamicDecoder::Nb(d) => d.reset_state(),
            DynamicDecoder::Wb(d) => d.reset_state(),
            DynamicDecoder::Uwb(d) => d.reset_state(),
        }
    }

    fn set_submode_encoding(&mut self, submode: bool) {
        match self {
            DynamicDecoder::Nb(d) => d.set_submode_encoding(submode),
            DynamicDecoder::Wb(d) => d.set_submode_encoding(submode),
            DynamicDecoder::Uwb(d) => d.set_submode_encoding(submode),
        }
    }

    fn get_submode_encoding(&mut self) -> bool {
        match self {
            DynamicDecoder::Nb(d) => d.get_submode_encoding(),
            DynamicDecoder::Wb(d) => d.get_submode_encoding(),
            DynamicDecoder::Uwb(d) => d.get_submode_encoding(),
        }
    }

    fn get_lookahead(&mut self) -> i32 {
        match self {
            DynamicDecoder::Nb(d) => d.get_lookahead(),
            DynamicDecoder::Wb(d) => d.get_lookahead(),
            DynamicDecoder::Uwb(d) => d.get_lookahead(),
        }
    }

    fn set_plc_tuning(&mut self, tuning: i32) {
        match self {
            DynamicDecoder::Nb(d) => d.set_plc_tuning(tuning),
            DynamicDecoder::Wb(d) => d.set_plc_tuning(tuning),
            DynamicDecoder::Uwb(d) => d.set_plc_tuning(tuning),
        }
    }

    fn get_plc_tuning(&mut self) -> i32 {
        match self {
            DynamicDecoder::Nb(d) => d.get_plc_tuning(),
            DynamicDecoder::Wb(d) => d.get_plc_tuning(),
            DynamicDecoder::Uwb(d) => d.get_plc_tuning(),
        }
    }

    fn set_vbr_max_bitrate(&mut self, max_bitrate: i32) {
        match self {
            DynamicDecoder::Nb(d) => d.set_vbr_max_bitrate(max_bitrate),
            DynamicDecoder::Wb(d) => d.set_vbr_max_bitrate(max_bitrate),
            DynamicDecoder::Uwb(d) => d.set_vbr_max_bitrate(max_bitrate),
        }
    }

    fn get_vbr_max_bitrate(&mut self) -> i32 {
        match self {
            DynamicDecoder::Nb(d) => d.get_vbr_max_bitrate(),
            DynamicDecoder::Wb(d) => d.get_vbr_max_bitrate(),
            DynamicDecoder::Uwb(d) => d.get_vbr_max_bitrate(),
        }
    }

    fn set_highpass(&mut self, highpass: bool) {
        match self {
            DynamicDecoder::Nb(d) => d.set_highpass(highpass),
            DynamicDecoder::Wb(d) => d.set_highpass(highpass),
            DynamicDecoder::Uwb(d) => d.set_highpass(highpass),
        }
    }

    fn get_highpass(&mut self) -> bool {
        match self {
            DynamicDecoder::Nb(d) => d.get_highpass(),
            DynamicDecoder::Wb(d) => d.get_highpass(),
            DynamicDecoder::Uwb(d) => d.get_highpass(),
        }
    }
}

} // verus!
