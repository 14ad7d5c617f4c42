use vstd::prelude::*;
use crate::control::{
    apply, fresh_state, fresh_state_spec, read_param_spec, write_param_spec,
    CoderKind, CoderState, ControlBuffer, ControlFunctions, Sealed,
    SPEEX_GET_ABR, SPEEX_GET_BITRATE, SPEEX_GET_FRAME_SIZE, SPEEX_GET_HIGHPASS,
    SPEEX_GET_LOOKAHEAD, SPEEX_GET_PLC_TUNING, SPEEX_GET_SAMPLING_RATE,
    SPEEX_GET_SUBMODE_ENCODING, SPEEX_GET_VAD, SPEEX_GET_VBR, SPEEX_GET_VBR_MAX_BITRATE,
    SPEEX_RESET_STATE, SPEEX_SET_ABR, SPEEX_SET_BITRATE, SPEEX_SET_HIGHPASS,
    SPEEX_SET_PLC_TUNING, SPEEX_SET_QUALITY, SPEEX_SET_SAMPLING_RATE,
    SPEEX_SET_SUBMODE_ENCODING, SPEEX_SET_VAD, SPEEX_SET_VBR, SPEEX_SET_VBR_MAX_BITRATE,
};
use crate::mode::{CoderMode, ModeId, NbMode, UwbMode, WbMode};

verus! {

/// An encoder instance whose bandwidth mode is fixed at compile time by the
/// marker `M`. It carries the control-visible state that the named parameter
/// operations act on; the opaque engine handle it mirrors lives outside the
/// verified crate.
pub struct SpeexEncoder<M: CoderMode> {
    st: CoderState,
    marker: core::marker::PhantomData<M>,
}

impl<M: CoderMode> SpeexEncoder<M> {
    /// Constructs an encoder of mode `M` with the documented construction
    /// defaults. Construction is total: it cannot fail.
    pub fn new() -> (r: Self)
        ensures
            r.wf(),
            r.coder() == fresh_state_spec(CoderKind::Encoder, M::mode_spec()),
    {
        SpeexEncoder {
            st: fresh_state(CoderKind::Encoder, M::mode_id()),
            marker: core::marker::PhantomData,
        }
    }
}

impl<M: CoderMode> Sealed for SpeexEncoder<M> {

}

impl<M: CoderMode> ControlFunctions for SpeexEncoder<M> {
    closed spec fn coder(&self) -> CoderState {
        self.st
    }

    closed spec fn wf(&self) -> bool {
        self.st.kind == CoderKind::Encoder && self.st.mode == M::mode_spec()
    }

    fn get_frame_size(&mut self) -> i32 {
        let mut buf = ControlBuffer::Int(0);
        let _ = apply(&mut self.st, SPEEX_GET_FRAME_SIZE, &mut buf);
        buf.int_value()
    }

    fn set_vbr(&mut self, vbr: bool) {
        let mut buf = ControlBuffer::Int(if vbr { 1 } else { 0 });
        let _ = apply(&mut self.st, SPEEX_SET_VBR, &mut buf);
    }

    fn get_vbr(&mut self) -> bool {
        let mut buf = ControlBuffer::Int(0);
        let _ = apply(&mut self.st, SPEEX_GET_VBR, &mut buf);
        buf.int_value() != 0
    }

    fn set_vad(&mut self, vad: bool) {
        let mut buf = ControlBuffer::Int(if vad { 1 } else { 0 });
        let _ = apply(&mut self.st, SPEEX_SET_VAD, &mut buf);
    }

    fn get_vad(&mut self) -> bool {
        let mut buf = ControlBuffer::Int(0);
        let _ = apply(&mut self.st, SPEEX_GET_VAD, &mut buf);
        buf.int_value() != 0
    }

    fn set_abr(&mut self, abr: i32) {
        let mut buf = ControlBuffer::Int(abr);
        let _ = apply(&mut self.st, SPEEX_SET_ABR, &mut buf);
    }

    fn get_abr(&mut self) -> i32 {
        let mut buf = ControlBuffer::Int(0);
        let _ = apply(&mut self.st, SPEEX_GET_ABR, &mut buf);
        buf.int_value()
    }

    fn set_quality(&mut self, quality: i32) {
        let mut buf = ControlBuffer::Int(quality);
        let _ = apply(&mut self.st, SPEEX_SET_QUALITY, &mut buf);
    }

    fn set_bitrate(&mut self, bitrate: i32) {
        let mut buf = ControlBuffer::Int(bitrate);
        let _ = apply(&mut self.st, SPEEX_SET_BITRATE, &mut buf);
    }

    fn get_bitrate(&mut self) -> i32 {
        let mut buf = ControlBuffer::Int(0);
        let _ = apply(&mut self.st, SPEEX_GET_BITRATE, &mut buf);
        buf.int_value()
    }

    fn set_sampling_rate(&mut self, samplingrate: i32) {
        let mut buf = ControlBuffer::Int(samplingrate);
        let _ = apply(&mut self.st, SPEEX_SET_SAMPLING_RATE, &mut buf);
    }

    fn get_sampling_rate(&mut self) -> i32 {
        let mut buf = ControlBuffer::Int(0);
        let _ = apply(&mut self.st, SPEEX_GET_SAMPLING_RATE, &mut buf);
        buf.int_value()
    }

    fn reset_state(&mut self) {
        let mut buf = ControlBuffer::Empty;
        let _ = apply(&mut self.st, SPEEX_RESET_STATE, &mut buf);
    }

    fn set_submode_encoding(&mut self, submode: bool) {
        let mut buf = ControlBuffer::Int(if submode { 1 } else { 0 });
        let _ = apply(&mut self.st, SPEEX_SET_SUBMODE_ENCODING, &mut buf);
    }

    fn get_submode_encoding(&mut self) -> bool {
        let mut buf = ControlBuffer::Int(0);
        let _ = apply(&mut self.st, SPEEX_GET_SUBMODE_ENCODING, &mut buf);
        buf.int_value() != 0
    }

    fn get_lookahead(&mut self) -> i32 {
        let mut buf = ControlBuffer::Int(0);
        let _ = apply(&mut self.st, SPEEX_GET_LOOKAHEAD, &mut buf);
        buf.int_value()
    }

    fn set_plc_tuning(&mut self, tuning: i32) {
        let mut buf = ControlBuffer::Int(tuning);
        let _ = apply(&mut self.st, SPEEX_SET_PLC_TUNING, &mut buf);
    }

    fn get_plc_tuning(&mut self) -> i32 {
        let mut buf = ControlBuffer::Int(0);
        let _ = apply(&mut self.st, SPEEX_GET_PLC_TUNING, &mut buf);
        buf.int_value()
    }

    fn set_vbr_max_bitrate(&mut self, max_bitrate: i32) {
        let mut buf = ControlBuffer::Int(max_bitrate);
        let _ = apply(&mut self.st, SPEEX_SET_VBR_MAX_BITRATE, &mut buf);
    }

    fn get_vbr_max_bitrate(&mut self) -> i32 {
        let mut buf = ControlBuffer::Int(0);
        let _ = apply(&mut self.st, SPEEX_GET_VBR_MAX_BITRATE, &mut buf);
        buf.int_value()
    }

    fn set_highpass(&mut self, highpass: bool) {
        let mut buf = ControlBuffer::Int(if highpass { 1 } else { 0 });
        let _ = apply(&mut self.st, SPEEX_SET_HIGHPASS, &mut buf);
    }

    fn get_highpass(&mut self) -> bool {
        let mut buf = ControlBuffer::Int(0);
        let _ = apply(&mut self.st, SPEEX_GET_HIGHPASS, &mut buf);
        buf.int_value() != 0
    }
}

/// An encoder whose bandwidth mode is chosen at run time: a tagged union
/// over the three per-mode encoder types. The active tag is fixed at
/// construction and no operation changes it; every parameter operation
/// forwards to the one live variant.
pub enum DynamicEncoder {
    Nb(SpeexEncoder<NbMode>),
    Wb(SpeexEncoder<WbMode>),
    Uwb(SpeexEncoder<UwbMode>),
}

impl DynamicEncoder {
    /// Constructs an encoder of the mode chosen at run time, with the
    /// documented construction defaults. Construction is total.
    pub fn new(mode: ModeId) -> (r: Self)
        ensures
            r.wf(),
            r.coder() == fresh_state_spec(CoderKind::Encoder, mode),
    {
        match mode {
            ModeId::NarrowBand => DynamicEncoder::Nb(SpeexEncoder::<NbMode>::new()),
            ModeId::WideBand => DynamicEncoder::Wb(SpeexEncoder::<WbMode>::new()),
            ModeId::UltraWideBand => DynamicEncoder::Uwb(SpeexEncoder::<UwbMode>::new()),
        }
    }
}

impl Sealed for DynamicEncoder {

}

impl ControlFunctions for DynamicEncoder {
    closed spec fn coder(&self) -> CoderState {
        match self {
            DynamicEncoder::Nb(e) => e.coder(),
            DynamicEncoder::Wb(e) => e.coder(),
            DynamicEncoder::Uwb(e) => e.coder(),
        }
    }

    closed spec fn wf(&self) -> bool {
        match self {
            DynamicEncoder::Nb(e) => e.wf(),
            DynamicEncoder::Wb(e) => e.wf(),
            DynamicEncoder::Uwb(e) => e.wf(),
        }
    }

    fn get_frame_size(&mut self) -> i32 {
        match self {
            DynamicEncoder::Nb(e) => e.get_frame_size(),
            DynamicEncoder::Wb(e) => e.get_frame_size(),
            DynamicEncoder::Uwb(e) => e.get_frame_size(),
        }
    }

    fn set_vbr(&mut self, vbr: bool) {
        match self {
            DynamicEncoder::Nb(e) => e.set_vbr(vbr),
            DynamicEncoder::Wb(e) => e.set_vbr(vbr),
            DynamicEncoder::Uwb(e) => e.set_vbr(vbr),
        }
    }

    fn get_vbr(&mut self) -> bool {
        match self {
            DynamicEncoder::Nb(e) => e.get_vbr(),
            DynamicEncoder::Wb(e) => e.get_vbr(),
            DynamicEncoder::Uwb(e) => e.get_vbr(),
        }
    }

    fn set_vad(&mut self, vad: bool) {
        match self {
            DynamicEncoder::Nb(e) => e.set_vad(vad),
            DynamicEncoder::Wb(e) => e.set_vad(vad),
            DynamicEncoder::Uwb(e) => e.set_vad(vad),
        }
    }

    fn get_vad(&mut self) -> bool {
        match self {
            DynamicEncoder::Nb(e) => e.get_vad(),
            DynamicEncoder::Wb(e) => e.get_vad(),
            DynamicEncoder::Uwb(e) => e.get_vad(),
        }
    }

    fn set_abr(&mut self, abr: i32) {
        match self {
            DynamicEncoder::Nb(e) => e.set_abr(abr),
            DynamicEncoder::Wb(e) => e.set_abr(abr),
            DynamicEncoder::Uwb(e) => e.set_abr(abr),
        }
    }

    fn get_abr(&mut self) -> i32 {
        match self {
            DynamicEncoder::Nb(e) => e.get_abr(),
            DynamicEncoder::Wb(e) => e.get_abr(),
            DynamicEncoder::Uwb(e) => e.get_abr(),
        }
    }

    fn set_quality(&mut self, quality: i32) {
        match self {
            DynamicEncoder::Nb(e) => e.set_quality(quality),
            DynamicEncoder::Wb(e) => e.set_quality(quality),
            DynamicEncoder::Uwb(e) => e.set_quality(quality),
        }
    }

    fn set_bitrate(&mut self, bitrate: i32) {
        match self {
            DynamicEncoder::Nb(e) => e.set_bitrate(bitrate),
            DynamicEncoder::Wb(e) => e.set_bitrate(bitrate),
            DynamicEncoder::Uwb(e) => e.set_bitrate(bitrate),
        }
    }

    fn get_bitrate(&mut self) -> i32 {
        match self {
            DynamicEncoder::Nb(e) => e.get_bitrate(),
            DynamicEncoder::Wb(e) => e.get_bitrate(),
            DynamicEncoder::Uwb(e) => e.get_bitrate(),
        }
    }

    fn set_sampling_rate(&mut self, samplingrate: i32) {
        match self {
            DynamicEncoder::Nb(e) => e.set_sampling_rate(samplingrate),
            DynamicEncoder::Wb(e) => e.set_sampling_rate(samplingrate),
            DynamicEncoder::Uwb(e) => e.set_sampling_rate(samplingrate),
        }
    }

    fn get_sampling_rate(&mut self) -> i32 {
        match self {
            DynamicEncoder::Nb(e) => e.get_sampling_rate(),
            DynamicEncoder::Wb(e) => e.get_sampling_rate(),
            DynamicEncoder::Uwb(e) => e.get_sampling_rate(),
        }
    }

    fn reset_state(&mut self) {
        match self {
            DynamicEncoder::Nb(e) => e.reset_state(),
            DynamicEncoder::Wb(e) => e.reset_state(),
            DynamicEncoder::Uwb(e) => e.reset_state(),
        }
    }

    fn set_submode_encoding(&mut self, submode: bool) {
        match self {
            DynamicEncoder::Nb(e) => e.set_submode_encoding(submode),
            DynamicEncoder::Wb(e) => e.set_submode_encoding(submode),
            DynamicEncoder::Uwb(e) => e.set_submode_encoding(submode),
        }
    }

    fn get_submode_encoding(&mut self) -> bool {
        match self {
            DynamicEncoder::Nb(e) => e.get_submode_encoding(),
            DynamicEncoder::Wb(e) => e.get_submode_encoding(),
            DynamicEncoder::Uwb(e) => e.get_submode_encoding(),
        }
    }

    fn get_lookahead(&mut self) -> i32 {
        match self {
            DynamicEncoder::Nb(e) => e.get_lookahead(),
            DynamicEncoder::Wb(e) => e.get_lookahead(),
            DynamicEncoder::Uwb(e) => e.get_lookahead(),
        }
    }

    fn set_plc_tuning(&mut self, tuning: i32) {
        match self {
            DynamicEncoder::Nb(e) => e.set_plc_tuning(tuning),
            DynamicEncoder::Wb(e) => e.set_plc_tuning(tuning),
            DynamicEncoder::Uwb(e) => e.set_plc_tuning(tuning),
        }
    }

    fn get_plc_tuning(&mut self) -> i32 {
        match self {
            DynamicEncoder::Nb(e) => e.get_plc_tuning(),
            DynamicEncoder::Wb(e) => e.get_plc_tuning(),
            DynamicEncoder::Uwb(e) => e.get_plc_tuning(),
        }
    }

    fn set_vbr_max_bitrate(&mut self, max_bitrate: i32) {
        match self {
            DynamicEncoder::Nb(e) => e.set_vbr_max_bitrate(max_bitrate),
            DynamicEncoder::Wb(e) => e.set_vbr_max_bitrate(max_bitrate),
            DynamicEncoder::Uwb(e) => e.set_vbr_max_bitrate(max_bitrate),
        }
    }

    fn get_vbr_max_bitrate(&mut self) -> i32 {
        match self {
            DynamicEncoder::Nb(e) => e.get_vbr_max_bitrate(),
            DynamicEncoder::Wb(e) => e.get_vbr_max_bitrate(),
            DynamicEncoder::Uwb(e) => e.get_vbr_max_bitrate(),
        }
    }

    fn set_highpass(&mut self, highpass: bool) {
        match self {
            DynamicEncoder::Nb(e) => e.set_highpass(highpass),
            DynamicEncoder::Wb(e) => e.set_highpass(highpass),
            DynamicEncoder::Uwb(e) => e.set_highpass(highpass),
        }
    }

    fn get_highpass(&mut self) -> bool {
        match self {
            DynamicEncoder::Nb(e) => e.get_highpass(),
            DynamicEncoder::Wb(e) => e.get_highpass(),
            DynamicEncoder::Uwb(e) => e.get_highpass(),
        }
    }
}

/// The dynamic facade forwards faithfully: its operations and the
/// directly-typed coder's are pinned to one and the same transition of the
/// control-visible state, so a facade and a direct coder holding equal
/// states produce identical results for the same calls. For the
/// quality-then-bit-rate sequence that shared transition is stated here
/// exactly: the quality store lands the requested tier and leaves every
/// other parameter — the bit-rate reading among them — untouched.
pub proof fn lemma_facade_forwards_identically(st: CoderState, q: i32)
    ensures
        ({
            let after = CoderState {
                params: write_param_spec(st.params, SPEEX_SET_QUALITY, q),
                ..st
            };
            after.params.quality == q && after.kind == st.kind && after.mode == st.mode
                && read_param_spec(after, SPEEX_GET_BITRATE) == read_param_spec(
                st,
                SPEEX_GET_BITRATE,
            )
        }),
{
}

} // verus!
