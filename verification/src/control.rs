use vstd::prelude::*;
use crate::mode::ModeId;

verus! {

// Request identifiers of the engine's control protocol. Each control call
// names one of these plus a buffer; the same numbering is shared by encoders
// and decoders, though each handle kind answers only a subset.

/// Get the native frame size in samples.
pub const SPEEX_GET_FRAME_SIZE: i32 = 3;

/// Set the overall quality tier, 0 to 10.
pub const SPEEX_SET_QUALITY: i32 = 4;

/// Enable or disable variable bit-rate.
pub const SPEEX_SET_VBR: i32 = 12;

/// Read whether variable bit-rate is enabled.
pub const SPEEX_GET_VBR: i32 = 13;

/// Set the variable bit-rate quality target (float-buffered).
pub const SPEEX_SET_VBR_QUALITY: i32 = 14;

/// Read the variable bit-rate quality target (float-buffered).
pub const SPEEX_GET_VBR_QUALITY: i32 = 15;

/// Set the bit-rate in bits per second.
pub const SPEEX_SET_BITRATE: i32 = 18;

/// Read the bit-rate in bits per second.
pub const SPEEX_GET_BITRATE: i32 = 19;

/// Set the sampling rate used for bit-rate computation.
pub const SPEEX_SET_SAMPLING_RATE: i32 = 24;

/// Read the sampling rate used for bit-rate computation.
pub const SPEEX_GET_SAMPLING_RATE: i32 = 25;

/// Reset the coder to its freshly constructed condition.
pub const SPEEX_RESET_STATE: i32 = 26;

/// Enable or disable voice-activity detection.
pub const SPEEX_SET_VAD: i32 = 30;

/// Read whether voice-activity detection is enabled.
pub const SPEEX_GET_VAD: i32 = 31;

/// Set the average bit-rate target; zero disables it.
pub const SPEEX_SET_ABR: i32 = 32;

/// Read the average bit-rate target.
pub const SPEEX_GET_ABR: i32 = 33;

/// Choose whether each frame carries an explicit submode tag.
pub const SPEEX_SET_SUBMODE_ENCODING: i32 = 36;

/// Read whether each frame carries an explicit submode tag.
pub const SPEEX_GET_SUBMODE_ENCODING: i32 = 37;

/// Read the algorithmic delay in samples.
pub const SPEEX_GET_LOOKAHEAD: i32 = 39;

/// Set the expected packet-loss percentage used to tune concealment.
pub const SPEEX_SET_PLC_TUNING: i32 = 40;

/// Read the expected packet-loss percentage.
pub const SPEEX_GET_PLC_TUNING: i32 = 41;

/// Set the ceiling on the bit-rate that VBR may select; zero means none.
pub const SPEEX_SET_VBR_MAX_BITRATE: i32 = 42;

/// Read the ceiling on the bit-rate that VBR may select.
pub const SPEEX_GET_VBR_MAX_BITRATE: i32 = 43;

/// Enable or disable highpass filtering of the input/output.
pub const SPEEX_SET_HIGHPASS: i32 = 44;

/// Read whether highpass filtering is enabled.
pub const SPEEX_GET_HIGHPASS: i32 = 45;

/// Error type for the control functions of the encoder and decoder.
///
/// The engine reports each control call's outcome as an integer: 0 for
/// success, -1 for a request code the handle does not know, -2 for a rejected
/// parameter value. This type is the faithful image of the two failures; any
/// other integer is a defect of the engine itself, not an error value.
#[derive(Copy, Clone, PartialEq, Eq, Debug)]
pub enum ControlError {
    /// The request type passed to the control function was invalid.
    /// The payload is the request code that was passed.
    UnknownRequest(i32),
    /// The parameter passed to the control function was rejected as out of
    /// its accepted range.
    InvalidParameter,
}

impl ControlError {
    /// The fixed description of each error variant.
    pub open spec fn describe_spec(self) -> Seq<char> {
        match self {
            ControlError::UnknownRequest(_) => "unknown request type passed to a control function"@,
            ControlError::InvalidParameter => "invalid parameter"@,
        }
    }

    /// Returns a short human-readable description of the error. The offending
    /// request code of `UnknownRequest` is carried in the variant itself.
    pub fn describe(&self) -> (r: &'static str)
        ensures
            r@ == self.describe_spec(),
    {
        match self {
            ControlError::UnknownRequest(_) => "unknown request type passed to a control function",
            ControlError::InvalidParameter => "invalid parameter",
        }
    }
}

/// Translates the engine's integer control-call status into a typed result:
/// 0 is success, -1 an unknown request (carrying the request code that was
/// passed along in `param`), -2 a rejected parameter. Any other status is an
/// engine defect and is excluded by the precondition; an unverified caller
/// must check the status range first and halt loudly on a violation.
pub fn check_error(err_code: i32, param: Option<i32>) -> (r: Result<(), ControlError>)
    requires
        -2 <= err_code <= 0,
        err_code == -1 ==> param is Some,
    ensures
        err_code == 0 ==> r == Ok::<(), ControlError>(()),
        err_code == -1 ==> r == Err::<(), ControlError>(
            ControlError::UnknownRequest(param.unwrap()),
        ),
        err_code == -2 ==> r == Err::<(), ControlError>(ControlError::InvalidParameter),
{
    if err_code == 0 {
        Ok(())
    } else if err_code == -1 {
        Err(ControlError::UnknownRequest(param.unwrap()))
    } else {
        Err(ControlError::InvalidParameter)
    }
}

/// Which of the two handle kinds a coder instance is.
#[derive(Copy, Clone, PartialEq, Eq, Debug)]
pub enum CoderKind {
    Encoder,
    Decoder,
}

/// The tunable per-instance parameters of the control surface, one field per
/// stored scalar of the protocol. Each named get operation reads one of
/// these; each named set operation overwrites exactly one.
#[derive(Copy, Clone, PartialEq, Eq, Debug)]
pub struct CoderParams {
    /// Variable bit-rate enabled.
    pub vbr: bool,
    /// Voice-activity detection enabled.
    pub vad: bool,
    /// Whether each frame carries an explicit submode tag; disabling this
    /// breaks the format specification.
    pub submode_encoding: bool,
    /// Highpass filtering of the input/output enabled.
    pub highpass: bool,
    /// Overall quality tier, 0 to 10.
    pub quality: i32,
    /// Average bit-rate target in bits per second; zero disables it.
    pub abr: i32,
    /// Bit-rate in bits per second.
    pub bitrate: i32,
    /// Sampling rate used for bit-rate computation, in hertz.
    pub sampling_rate: i32,
    /// Expected packet-loss percentage used to tune concealment.
    pub plc_tuning: i32,
    /// Ceiling on the bit-rate that VBR may select; zero means none.
    pub vbr_max_bitrate: i32,
}

/// The control-visible state of one coder instance: its fixed handle kind,
/// its fixed bandwidth mode, and its tunable parameters. Kind and mode are
/// chosen at construction and no control operation changes them.
#[derive(Copy, Clone, PartialEq, Eq, Debug)]
pub struct CoderState {
    pub kind: CoderKind,
    pub mode: ModeId,
    pub params: CoderParams,
}

/// One call's buffer: absent for pure actions, an integer scalar otherwise.
/// Booleans travel as integers, zero meaning false, as in the engine's
/// protocol.
#[derive(Copy, Clone, PartialEq, Eq, Debug)]
pub enum ControlBuffer {
    Empty,
    Int(i32),
}

/// The parameter values of a freshly constructed coder of the given mode:
/// VBR, VAD off; submode tagging and highpass filtering on; quality 8; no
/// average-bit-rate target and no VBR ceiling; loss tuning at 2 percent; the
/// mode's nominal sampling rate; and the bit-rate of the mode's default
/// submode selection at that rate (15000, 27800 and 29600 bits per second
/// for the three tiers).
pub open spec fn default_params_spec(mode: ModeId) -> CoderParams {
    CoderParams {
        vbr: false,
        vad: false,
        submode_encoding: true,
        highpass: true,
        quality: 8,
        abr: 0,
        bitrate: match mode {
            ModeId::NarrowBand => 15000,
            ModeId::WideBand => 27800,
            ModeId::UltraWideBand => 29600,
        },
        sampling_rate: mode.sampling_rate_spec(),
        plc_tuning: 2,
        vbr_max_bitrate: 0,
    }
}

/// The full control-visible state of a freshly constructed coder.
pub open spec fn fresh_state_spec(kind: CoderKind, mode: ModeId) -> CoderState {
    CoderState { kind, mode, params: default_params_spec(mode) }
}

/// Builds the parameter values of a freshly constructed coder of `mode`.
pub fn fresh_params(mode: ModeId) -> (p: CoderParams)
    ensures
        p == default_params_spec(mode),
{
    CoderParams {
        vbr: false,
        vad: false,
        submode_encoding: true,
        highpass: true,
        quality: 8,
        abr: 0,
        bitrate: match mode {
            ModeId::NarrowBand => 15000,
            ModeId::WideBand => 27800,
            ModeId::UltraWideBand => 29600,
        },
        sampling_rate: mode.nominal_sampling_rate(),
        plc_tuning: 2,
        vbr_max_bitrate: 0,
    }
}

/// Builds the control-visible state of a freshly constructed coder.
pub fn fresh_state(kind: CoderKind, mode: ModeId) -> (st: CoderState)
    ensures
        st == fresh_state_spec(kind, mode),
{
    CoderState { kind, mode, params: fresh_params(mode) }
}

/// The integer-buffered and bufferless request codes this control surface
/// models. The two float-buffered VBR-quality requests are outside it.
pub open spec fn modeled_request_spec(code: i32) -> bool {
    is_get_request_spec(code) || is_set_request_spec(code) || is_action_request_spec(code)
}

/// The requests that read one scalar into the buffer.
pub open spec fn is_get_request_spec(code: i32) -> bool {
    code == SPEEX_GET_FRAME_SIZE || code == SPEEX_GET_VBR || code == SPEEX_GET_BITRATE
        || code == SPEEX_GET_SAMPLING_RATE || code == SPEEX_GET_VAD || code == SPEEX_GET_ABR
        || code == SPEEX_GET_SUBMODE_ENCODING || code == SPEEX_GET_LOOKAHEAD
        || code == SPEEX_GET_PLC_TUNING || code == SPEEX_GET_VBR_MAX_BITRATE
        || code == SPEEX_GET_HIGHPASS
}

/// The requests that store the buffer's scalar into one parameter.
pub open spec fn is_set_request_spec(code: i32) -> bool {
    code == SPEEX_SET_QUALITY || code == SPEEX_SET_VBR || code == SPEEX_SET_BITRATE
        || code == SPEEX_SET_SAMPLING_RATE || code == SPEEX_SET_VAD || code == SPEEX_SET_ABR
        || code == SPEEX_SET_SUBMODE_ENCODING || code == SPEEX_SET_PLC_TUNING
        || code == SPEEX_SET_VBR_MAX_BITRATE || code == SPEEX_SET_HIGHPASS
}

/// The requests that take no buffer and act on the whole state.
pub open spec fn is_action_request_spec(code: i32) -> bool {
    code == SPEEX_RESET_STATE
}

/// The subset of modeled requests a decoder handle answers. A decoder has no
/// bit-rate selection of its own, so every encoder-side tuning request is
/// unknown to it.
pub open spec fn decoder_handles_spec(code: i32) -> bool {
    code == SPEEX_GET_FRAME_SIZE || code == SPEEX_GET_BITRATE || code == SPEEX_SET_SAMPLING_RATE
        || code == SPEEX_GET_SAMPLING_RATE || code == SPEEX_RESET_STATE
        || code == SPEEX_SET_SUBMODE_ENCODING || code == SPEEX_GET_SUBMODE_ENCODING
        || code == SPEEX_GET_LOOKAHEAD || code == SPEEX_SET_HIGHPASS || code == SPEEX_GET_HIGHPASS
}

/// Which modeled requests each handle kind answers: an encoder answers all
/// of them, a decoder its subset.
pub open spec fn handles_spec(kind: CoderKind, code: i32) -> bool {
    match kind {
        CoderKind::Encoder => modeled_request_spec(code),
        CoderKind::Decoder => decoder_handles_spec(code),
    }
}

/// Reports whether a handle of `kind` answers request `code`.
pub fn handles(kind: CoderKind, code: i32) -> (r: bool)
    ensures
        r == handles_spec(kind, code),
{
    match kind {
        CoderKind::Encoder => is_modeled_request(code),
        CoderKind::Decoder => code == SPEEX_GET_FRAME_SIZE || code == SPEEX_GET_BITRATE
            || code == SPEEX_SET_SAMPLING_RATE || code == SPEEX_GET_SAMPLING_RATE
            || code == SPEEX_RESET_STATE || code == SPEEX_SET_SUBMODE_ENCODING
            || code == SPEEX_GET_SUBMODE_ENCODING || code == SPEEX_GET_LOOKAHEAD
            || code == SPEEX_SET_HIGHPASS || code == SPEEX_GET_HIGHPASS,
    }
}

/// Reports whether `code` is one of the modeled requests.
pub fn is_modeled_request(code: i32) -> (r: bool)
    ensures
        r == modeled_request_spec(code),
{
    code == SPEEX_GET_FRAME_SIZE || code == SPEEX_SET_QUALITY || code == SPEEX_SET_VBR
        || code == SPEEX_GET_VBR || code == SPEEX_SET_BITRATE || code == SPEEX_GET_BITRATE
        || code == SPEEX_SET_SAMPLING_RATE || code == SPEEX_GET_SAMPLING_RATE
        || code == SPEEX_RESET_STATE || code == SPEEX_SET_VAD || code == SPEEX_GET_VAD
        || code == SPEEX_SET_ABR || code == SPEEX_GET_ABR || code == SPEEX_SET_SUBMODE_ENCODING
        || code == SPEEX_GET_SUBMODE_ENCODING || code == SPEEX_GET_LOOKAHEAD
        || code == SPEEX_SET_PLC_TUNING || code == SPEEX_GET_PLC_TUNING
        || code == SPEEX_SET_VBR_MAX_BITRATE || code == SPEEX_GET_VBR_MAX_BITRATE
        || code == SPEEX_SET_HIGHPASS || code == SPEEX_GET_HIGHPASS
}

/// The accepted value range of each set request: quality 0–10, loss tuning
/// 0–100 percent, bit-rate and sampling rate positive, the two optional
/// rate targets non-negative (zero turns them off), and any integer for the
/// boolean-valued switches.
pub open spec fn set_in_domain_spec(code: i32, v: i32) -> bool {
    if code == SPEEX_SET_QUALITY {
        0 <= v <= 10
    } else if code == SPEEX_SET_PLC_TUNING {
        0 <= v <= 100
    } else if code == SPEEX_SET_BITRATE || code == SPEEX_SET_SAMPLING_RATE {
        v >= 1
    } else if code == SPEEX_SET_ABR || code == SPEEX_SET_VBR_MAX_BITRATE {
        v >= 0
    } else {
        true
    }
}

/// The buffer shape each request expects: none for actions, an integer
/// scalar for every modeled get and set. A mismatched buffer is a caller
/// contract violation, not a recoverable error.
pub open spec fn buffer_shape_ok_spec(code: i32, b: ControlBuffer) -> bool {
    if is_action_request_spec(code) {
        b == ControlBuffer::Empty
    } else {
        b is Int
    }
}

/// The scalar a buffer carries; an empty buffer carries zero.
pub open spec fn buffer_value_spec(b: ControlBuffer) -> i32 {
    match b {
        ControlBuffer::Int(v) => v,
        ControlBuffer::Empty => 0,
    }
}

/// The parameter state after a set request stores `v`: the one addressed
/// field changes, every other field keeps its value. Boolean switches store
/// whether `v` is non-zero.
pub open spec fn write_param_spec(p: CoderParams, code: i32, v: i32) -> CoderParams {
    if code == SPEEX_SET_VBR {
        CoderParams { vbr: v != 0, ..p }
    } else if code == SPEEX_SET_VAD {
        CoderParams { vad: v != 0, ..p }
    } else if code == SPEEX_SET_SUBMODE_ENCODING {
        CoderParams { submode_encoding: v != 0, ..p }
    } else if code == SPEEX_SET_HIGHPASS {
        CoderParams { highpass: v != 0, ..p }
    } else if code == SPEEX_SET_QUALITY {
        CoderParams { quality: v, ..p }
    } else if code == SPEEX_SET_ABR {
        CoderParams { abr: v, ..p }
    } else if code == SPEEX_SET_BITRATE {
        CoderParams { bitrate: v, ..p }
    } else if code == SPEEX_SET_SAMPLING_RATE {
        CoderParams { sampling_rate: v, ..p }
    } else if code == SPEEX_SET_PLC_TUNING {
        CoderParams { plc_tuning: v, ..p }
    } else if code == SPEEX_SET_VBR_MAX_BITRATE {
        CoderParams { vbr_max_bitrate: v, ..p }
    } else {
        p
    }
}

/// The scalar a get request reads: stored parameters come back as stored,
/// booleans as one or zero, and the frame size and lookahead as the fixed
/// constants of the instance's kind and mode.
pub open spec fn read_param_spec(st: CoderState, code: i32) -> i32 {
    if code == SPEEX_GET_FRAME_SIZE {
        st.mode.frame_size_spec()
    } else if code == SPEEX_GET_VBR {
        if st.params.vbr {
            1
        } else {
            0
        }
    } else if code == SPEEX_GET_VAD {
        if st.params.vad {
            1
        } else {
            0
        }
    } else if code == SPEEX_GET_SUBMODE_ENCODING {
        if st.params.submode_encoding {
            1
        } else {
            0
        }
    } else if code == SPEEX_GET_HIGHPASS {
        if st.params.highpass {
            1
        } else {
            0
        }
    } else if code == SPEEX_GET_ABR {
        st.params.abr
    } else if code == SPEEX_GET_BITRATE {
        st.params.bitrate
    } else if code == SPEEX_GET_SAMPLING_RATE {
        st.params.sampling_rate
    } else if code == SPEEX_GET_PLC_TUNING {
        st.params.plc_tuning
    } else if code == SPEEX_GET_VBR_MAX_BITRATE {
        st.params.vbr_max_bitrate
    } else if code == SPEEX_GET_LOOKAHEAD {
        match st.kind {
            CoderKind::Encoder => st.mode.encoder_lookahead_spec(),
            CoderKind::Decoder => st.mode.decoder_lookahead_spec(),
        }
    } else {
        0
    }
}

impl ControlBuffer {
    /// Reads the scalar this buffer carries; an empty buffer carries zero.
    pub fn int_value(&self) -> (v: i32)
        ensures
            v == buffer_value_spec(*self),
    {
        match self {
            ControlBuffer::Int(v) => *v,
            ControlBuffer::Empty => 0,
        }
    }
}

/// The low-level control primitive: applies one request code with one buffer
/// to a coder's control-visible state and translates the outcome.
///
/// A request the handle kind does not answer fails as `UnknownRequest`
/// carrying that exact code; a set request whose value is outside its
/// accepted range fails as `InvalidParameter`; both leave state and buffer
/// untouched. A successful get writes the read scalar into the buffer, a
/// successful set stores the buffer's scalar into the one addressed
/// parameter, and the reset action restores the construction defaults. The
/// instance's kind and mode never change.
pub fn apply(st: &mut CoderState, request: i32, buffer: &mut ControlBuffer) -> (r: Result<
    (),
    ControlError,
>)
    requires
        modeled_request_spec(request),
        buffer_shape_ok_spec(request, *old(buffer)),
    ensures
        !handles_spec(old(st).kind, request) ==> r == Err::<(), ControlError>(
            ControlError::UnknownRequest(request),
        ) && *final(st) == *old(st) && *final(buffer) == *old(buffer),
        handles_spec(old(st).kind, request) && is_set_request_spec(request)
            && !set_in_domain_spec(request, buffer_value_spec(*old(buffer))) ==> r == Err::<
            (),
            ControlError,
        >(ControlError::InvalidParameter) && *final(st) == *old(st) && *final(buffer) == *old(
            buffer,
        ),
        handles_spec(old(st).kind, request) && is_set_request_spec(request) && set_in_domain_spec(
            request,
            buffer_value_spec(*old(buffer)),
        ) ==> r == Ok::<(), ControlError>(()) && *final(st) == (CoderState {
            params: write_param_spec(old(st).params, request, buffer_value_spec(*old(buffer))),
            ..*old(st)
        }) && *final(buffer) == *old(buffer),
        handles_spec(old(st).kind, request) && is_get_request_spec(request) ==> r == Ok::<
            (),
            ControlError,
        >(()) && *final(st) == *old(st) && *final(buffer) == ControlBuffer::Int(
            read_param_spec(*old(st), request),
        ),
        handles_spec(old(st).kind, request) && is_action_request_spec(request) ==> r == Ok::<
            (),
            ControlError,
        >(()) && *final(st) == (CoderState {
            params: default_params_spec(old(st).mode),
            ..*old(st)
        }) && *final(buffer) == *old(buffer),
{
    let supported = handles(st.kind, request);
    if !supported {
        return Err(ControlError::UnknownRequest(request));
    }
    if request == SPEEX_RESET_STATE {
        st.params = fresh_params(st.mode);
        return Ok(());
    }
    if request == SPEEX_GET_FRAME_SIZE {
        *buffer = ControlBuffer::Int(st.mode.get_frame_size());
        return Ok(());
    }
    if request == SPEEX_GET_LOOKAHEAD {
        let la = match st.kind {
            CoderKind::Encoder => st.mode.encoder_lookahead(),
            CoderKind::Decoder => st.mode.decoder_lookahead(),
        };
        *buffer = ControlBuffer::Int(la);
        return Ok(());
    }
    if request == SPEEX_GET_VBR {
        *buffer = ControlBuffer::Int(if st.params.vbr { 1 } else { 0 });
        return Ok(());
    }
    if request == SPEEX_GET_VAD {
        *buffer = ControlBuffer::Int(if st.params.vad { 1 } else { 0 });
        return Ok(());
    }
    if request == SPEEX_GET_SUBMODE_ENCODING {
        *buffer = ControlBuffer::Int(if st.params.submode_encoding { 1 } else { 0 });
        return Ok(());
    }
    if request == SPEEX_GET_HIGHPASS {
        *buffer = ControlBuffer::Int(if st.params.highpass { 1 } else { 0 });
        return Ok(());
    }
    if request == SPEEX_GET_ABR {
        *buffer = ControlBuffer::Int(st.params.abr);
        return Ok(());
    }
    if request == SPEEX_GET_BITRATE {
        *buffer = ControlBuffer::Int(st.params.bitrate);
        return Ok(());
    }
    if request == SPEEX_GET_SAMPLING_RATE {
        *buffer = ControlBuffer::Int(st.params.sampling_rate);
        return Ok(());
    }
    if request == SPEEX_GET_PLC_TUNING {
        *buffer = ControlBuffer::Int(st.params.plc_tuning);
        return Ok(());
    }
    if request == SPEEX_GET_VBR_MAX_BITRATE {
        *buffer = ControlBuffer::Int(st.params.vbr_max_bitrate);
        return Ok(());
    }
    // Set requests from here on.
    let v = buffer.int_value();
    if request == SPEEX_SET_VBR {
        st.params.vbr = v != 0;
        return Ok(());
    }
    if request == SPEEX_SET_VAD {
        st.params.vad = v != 0;
        return Ok(());
    }
    if request == SPEEX_SET_SUBMODE_ENCODING {
        st.params.submode_encoding = v != 0;
        return Ok(());
    }
    if request == SPEEX_SET_HIGHPASS {
        st.params.highpass = v != 0;
        return Ok(());
    }
    if request == SPEEX_SET_QUALITY {
        if v < 0 || v > 10 {
            return Err(ControlError::InvalidParameter);
        }
        st.params.quality = v;
        return Ok(());
    }
    if request == SPEEX_SET_PLC_TUNING {
        if v < 0 || v > 100 {
            return Err(ControlError::InvalidParameter);
        }
        st.params.plc_tuning = v;
        return Ok(());
    }
    if request == SPEEX_SET_BITRATE {
        if v < 1 {
            return Err(ControlError::InvalidParameter);
        }
        st.params.bitrate = v;
        return Ok(());
    }
    if request == SPEEX_SET_SAMPLING_RATE {
        if v < 1 {
            return Err(ControlError::InvalidParameter);
        }
        st.params.sampling_rate = v;
        return Ok(());
    }
    if request == SPEEX_SET_ABR {
        if v < 0 {
            return Err(ControlError::InvalidParameter);
        }
        st.params.abr = v;
        return Ok(());
    }
    // The only request left under the precondition.
    if v < 0 {
        return Err(ControlError::InvalidParameter);
    }
    st.params.vbr_max_bitrate = v;
    Ok(())
}

/// The get request paired with each set request; the quality setter is the
/// one without a readback.
pub open spec fn get_code_for_spec(set_code: i32) -> i32 {
    if set_code == SPEEX_SET_VBR {
        SPEEX_GET_VBR
    } else if set_code == SPEEX_SET_VAD {
        SPEEX_GET_VAD
    } else if set_code == SPEEX_SET_SUBMODE_ENCODING {
        SPEEX_GET_SUBMODE_ENCODING
    } else if set_code == SPEEX_SET_HIGHPASS {
        SPEEX_GET_HIGHPASS
    } else if set_code == SPEEX_SET_ABR {
        SPEEX_GET_ABR
    } else if set_code == SPEEX_SET_BITRATE {
        SPEEX_GET_BITRATE
    } else if set_code == SPEEX_SET_SAMPLING_RATE {
        SPEEX_GET_SAMPLING_RATE
    } else if set_code == SPEEX_SET_PLC_TUNING {
        SPEEX_GET_PLC_TUNING
    } else if set_code == SPEEX_SET_VBR_MAX_BITRATE {
        SPEEX_GET_VBR_MAX_BITRATE
    } else {
        set_code
    }
}

/// How a stored value reads back: scalar requests read back the value as
/// stored, boolean switches read back one for any non-zero value and zero
/// otherwise.
pub open spec fn stored_value_spec(set_code: i32, v: i32) -> i32 {
    if set_code == SPEEX_SET_VBR || set_code == SPEEX_SET_VAD || set_code
        == SPEEX_SET_SUBMODE_ENCODING || set_code == SPEEX_SET_HIGHPASS {
        if v != 0 {
            1
        } else {
            0
        }
    } else {
        v
    }
}

/// Setting then getting reads back what was stored: after any in-domain set
/// request, the paired get request returns exactly the stored value, on
/// every state, for every parameter that has a readback.
pub proof fn lemma_set_then_get_round_trip(st: CoderState, set_code: i32, v: i32)
    requires
        is_set_request_spec(set_code),
        set_code != SPEEX_SET_QUALITY,
        set_in_domain_spec(set_code, v),
    ensures
        read_param_spec(
            (CoderState { params: write_param_spec(st.params, set_code, v), ..st }),
            get_code_for_spec(set_code),
        ) == stored_value_spec(set_code, v),
{
}

/// Every set request is idempotent: storing the same value twice leaves the
/// parameters exactly as storing it once does.
pub proof fn lemma_set_idempotent(p: CoderParams, set_code: i32, v: i32)
    ensures
        write_param_spec(write_param_spec(p, set_code, v), set_code, v) == write_param_spec(
            p,
            set_code,
            v,
        ),
{
}

/// A set request changes only its own parameter: the value any get request
/// reads afterwards differs from before only if the get is the one paired
/// with the set.
pub proof fn lemma_set_is_local(st: CoderState, set_code: i32, get_code: i32, v: i32)
    requires
        is_set_request_spec(set_code),
        is_get_request_spec(get_code),
        get_code != get_code_for_spec(set_code),
    ensures
        read_param_spec(
            (CoderState { params: write_param_spec(st.params, set_code, v), ..st }),
            get_code,
        ) == read_param_spec(st, get_code),
{
}

/// Marker supertrait that keeps `ControlFunctions` implementable only by
/// this crate's coder types.
pub trait Sealed {

}

/// The uniform parameter surface shared by every coder type: each named
/// operation packages one request code and one buffer for the low-level
/// control primitive, under the documented precondition that the request is
/// valid for the instance's handle kind. Under those preconditions no named
/// operation can fail, and each one's effect on the control-visible state is
/// stated exactly.
pub trait ControlFunctions: Sealed {
    /// The control-visible state of this instance.
    spec fn coder(&self) -> CoderState;

    /// Whether the instance is well formed: its state's handle kind and mode
    /// agree with the type it sits in.
    spec fn wf(&self) -> bool;

    /// Gets the frame size (in samples) of the encoder/decoder.
    fn get_frame_size(&mut self) -> (r: i32)
        requires
            old(self).wf(),
        ensures
            final(self).wf(),
            final(self).coder() == old(self).coder(),
            r == old(self).coder().mode.frame_size_spec(),
    ;

    /// Sets whether Variable BitRate is enabled or not.
    fn set_vbr(&mut self, vbr: bool)
        requires
            old(self).wf(),
            old(self).coder().kind == CoderKind::Encoder,
        ensures
            final(self).wf(),
            final(self).coder() == (CoderState {
                params: (CoderParams { vbr: vbr, ..old(self).coder().params }),
                ..old(self).coder()
            }),
    ;

    /// Gets whether Variable BitRate is enabled or not.
    fn get_vbr(&mut self) -> (r: bool)
        requires
            old(self).wf(),
            old(self).coder().kind == CoderKind::Encoder,
        ensures
            final(self).wf(),
            final(self).coder() == old(self).coder(),
            r == old(self).coder().params.vbr,
    ;

    /// Sets whether Voice Activity Detection is enabled or not.
    fn set_vad(&mut self, vad: bool)
        requires
            old(self).wf(),
            old(self).coder().kind == CoderKind::Encoder,
        ensures
            final(self).wf(),
            final(self).coder() == (CoderState {
                params: (CoderParams { vad: vad, ..old(self).coder().params }),
                ..old(self).coder()
            }),
    ;

    /// Gets whether Voice Activity Detection is enabled or not.
    fn get_vad(&mut self) -> (r: bool)
        requires
            old(self).wf(),
            old(self).coder().kind == CoderKind::Encoder,
        ensures
            final(self).wf(),
            final(self).coder() == old(self).coder(),
            r == old(self).coder().params.vad,
    ;

    /// Sets the Average BitRate of the encoder; zero disables the target.
    fn set_abr(&mut self, abr: i32)
        requires
            old(self).wf(),
            old(self).coder().kind == CoderKind::Encoder,
            abr >= 0,
        ensures
            final(self).wf(),
            final(self).coder() == (CoderState {
                params: (CoderParams { abr: abr, ..old(self).coder().params }),
                ..old(self).coder()
            }),
    ;

    /// Gets the Average BitRate of the encoder.
    fn get_abr(&mut self) -> (r: i32)
        requires
            old(self).wf(),
            old(self).coder().kind == CoderKind::Encoder,
        ensures
            final(self).wf(),
            final(self).coder() == old(self).coder(),
            r == old(self).coder().params.abr,
    ;

    /// Sets the overall quality of the encoder.
    /// The value should be between 0 and 10, with 10 being the highest
    /// quality. Default is 8.
    fn set_quality(&mut self, quality: i32)
        requires
            old(self).wf(),
            old(self).coder().kind == CoderKind::Encoder,
            0 <= quality <= 10,
        ensures
            final(self).wf(),
            final(self).coder() == (CoderState {
                params: (CoderParams { quality: quality, ..old(self).coder().params }),
                ..old(self).coder()
            }),
    ;

    /// Sets the current bitrate of the encoder.
    fn set_bitrate(&mut self, bitrate: i32)
        requires
            old(self).wf(),
            old(self).coder().kind == CoderKind::Encoder,
            bitrate >= 1,
        ensures
            final(self).wf(),
            final(self).coder() == (CoderState {
                params: (CoderParams { bitrate: bitrate, ..old(self).coder().params }),
                ..old(self).coder()
            }),
    ;

    /// Gets the current bitrate of the encoder/decoder.
    fn get_bitrate(&mut self) -> (r: i32)
        requires
            old(self).wf(),
        ensures
            final(self).wf(),
            final(self).coder() == old(self).coder(),
            r == old(self).coder().params.bitrate,
    ;

    /// Sets the sampling rate used for bitrate computation.
    fn set_sampling_rate(&mut self, samplingrate: i32)
        requires
            old(self).wf(),
            samplingrate >= 1,
        ensures
            final(self).wf(),
            final(self).coder() == (CoderState {
                params: (CoderParams { sampling_rate: samplingrate, ..old(self).coder().params }),
                ..old(self).coder()
            }),
    ;

    /// Gets the sampling rate used for bitrate computation.
    fn get_sampling_rate(&mut self) -> (r: i32)
        requires
            old(self).wf(),
        ensures
            final(self).wf(),
            final(self).coder() == old(self).coder(),
            r == old(self).coder().params.sampling_rate,
    ;

    /// Resets the encoder/decoder to its freshly constructed condition:
    /// every stored parameter returns to its construction default.
    fn reset_state(&mut self)
        requires
            old(self).wf(),
        ensures
            final(self).wf(),
            final(self).coder() == (CoderState {
                params: default_params_spec(old(self).coder().mode),
                ..old(self).coder()
            }),
    ;

    /// Sets whether submode encoding is done in each frame.
    ///
    /// Note that false breaks the specification for the format.
    fn set_submode_encoding(&mut self, submode: bool)
        requires
            old(self).wf(),
        ensures
            final(self).wf(),
            final(self).coder() == (CoderState {
                params: (CoderParams { submode_encoding: submode, ..old(self).coder().params }),
                ..old(self).coder()
            }),
    ;

    /// Gets whether submode encoding is enabled or not.
    fn get_submode_encoding(&mut self) -> (r: bool)
        requires
            old(self).wf(),
        ensures
            final(self).wf(),
            final(self).coder() == old(self).coder(),
            r == old(self).coder().params.submode_encoding,
    ;

    /// Gets the lookahead value currently in use by the encoder/decoder.
    ///
    /// Sum the lookahead of a decoder and the lookahead of an encoder of the
    /// same mode to get the total end-to-end delay.
    fn get_lookahead(&mut self) -> (r: i32)
        requires
            old(self).wf(),
        ensures
            final(self).wf(),
            final(self).coder() == old(self).coder(),
            old(self).coder().kind == CoderKind::Encoder ==> r == old(
                self,
            ).coder().mode.encoder_lookahead_spec(),
            old(self).coder().kind == CoderKind::Decoder ==> r == old(
                self,
            ).coder().mode.decoder_lookahead_spec(),
    ;

    /// Sets tuning for Packet-Loss Concealment (expected loss rate as a
    /// percentage).
    fn set_plc_tuning(&mut self, tuning: i32)
        requires
            old(self).wf(),
            old(self).coder().kind == CoderKind::Encoder,
            0 <= tuning <= 100,
        ensures
            final(self).wf(),
            final(self).coder() == (CoderState {
                params: (CoderParams { plc_tuning: tuning, ..old(self).coder().params }),
                ..old(self).coder()
            }),
    ;

    /// Gets current Packet-Loss Concealment tuning value.
    fn get_plc_tuning(&mut self) -> (r: i32)
        requires
            old(self).wf(),
            old(self).coder().kind == CoderKind::Encoder,
        ensures
            final(self).wf(),
            final(self).coder() == old(self).coder(),
            r == old(self).coder().params.plc_tuning,
    ;

    /// Sets the max bit-rate allowed in VBR mode; zero lifts the ceiling.
    fn set_vbr_max_bitrate(&mut self, max_bitrate: i32)
        requires
            old(self).wf(),
            old(self).coder().kind == CoderKind::Encoder,
            max_bitrate >= 0,
        ensures
            final(self).wf(),
            final(self).coder() == (CoderState {
                params: (CoderParams { vbr_max_bitrate: max_bitrate, ..old(self).coder().params }),
                ..old(self).coder()
            }),
    ;

    /// Gets the max bit-rate allowed in VBR mode.
    fn get_vbr_max_bitrate(&mut self) -> (r: i32)
        requires
            old(self).wf(),
            old(self).coder().kind == CoderKind::Encoder,
        ensures
            final(self).wf(),
            final(self).coder() == old(self).coder(),
            r == old(self).coder().params.vbr_max_bitrate,
    ;

    /// Enables or disables highpass filtering of the input/output.
    fn set_highpass(&mut self, highpass: bool)
        requires
            old(self).wf(),
        ensures
            final(self).wf(),
            final(self).coder() == (CoderState {
                params: (CoderParams { highpass: highpass, ..old(self).coder().params }),
                ..old(self).coder()
            }),
    ;

    /// Gets whether highpass filtering of the input/output is enabled.
    fn get_highpass(&mut self) -> (r: bool)
        requires
            old(self).wf(),
        ensures
            final(self).wf(),
            final(self).coder() == old(self).coder(),
            r == old(self).coder().params.highpass,
    ;
}

/// The reset action restores the construction defaults, not the pre-reset
/// values: after a reset every get request reads what it reads on a freshly
/// constructed coder of the same kind and mode, so a reset is observably not
/// a no-op whenever a stored parameter had left its default.
pub proof fn lemma_reset_restores_defaults(st: CoderState, get_code: i32)
    requires
        is_get_request_spec(get_code),
    ensures
        read_param_spec(
            (CoderState { params: default_params_spec(st.mode), ..st }),
            get_code,
        ) == read_param_spec(fresh_state_spec(st.kind, st.mode), get_code),
        st.params.vbr != default_params_spec(st.mode).vbr ==> read_param_spec(
            (CoderState { params: default_params_spec(st.mode), ..st }),
            SPEEX_GET_VBR,
        ) != read_param_spec(st, SPEEX_GET_VBR),
        st.params.bitrate != default_params_spec(st.mode).bitrate ==> read_param_spec(
            (CoderState { params: default_params_spec(st.mode), ..st }),
            SPEEX_GET_BITRATE,
        ) != read_param_spec(st, SPEEX_GET_BITRATE),
{
}

} // verus!
