use vstd::prelude::*;

verus! {

/// Selector for one of the three fixed audio bandwidth tiers of the codec
/// engine. A coder instance is bound to one tier when it is constructed and
/// keeps it for its whole lifetime.
#[derive(Copy, Clone, PartialEq, Eq, Debug)]
pub enum ModeId {
    /// Narrowband, 8 kHz sampling.
    NarrowBand,
    /// Wideband, 16 kHz sampling.
    WideBand,
    /// Ultra-wideband, 32 kHz sampling.
    UltraWideBand,
}

impl ModeId {
    /// The integer selector under which the engine's mode table lists this
    /// mode: narrowband 0, wideband 1, ultra-wideband 2.
    pub open spec fn code_spec(self) -> i32 {
        match self {
            ModeId::NarrowBand => 0,
            ModeId::WideBand => 1,
            ModeId::UltraWideBand => 2,
        }
    }

    /// Returns the engine's integer selector for this mode.
    pub fn to_code(self) -> (r: i32)
        ensures
            r == self.code_spec(),
    {
        match self {
            ModeId::NarrowBand => 0,
            ModeId::WideBand => 1,
            ModeId::UltraWideBand => 2,
        }
    }

    /// What parsing an integer bandwidth selector yields: the mode it names,
    /// or nothing for the values the mode table does not list.
    pub open spec fn from_code_spec(value: i32) -> Option<ModeId> {
        if value == 0 {
            Some(ModeId::NarrowBand)
        } else if value == 1 {
            Some(ModeId::WideBand)
        } else if value == 2 {
            Some(ModeId::UltraWideBand)
        } else {
            None
        }
    }

    /// Parses an integer bandwidth selector. An unrecognized value is a typed
    /// failure, never a silent default.
    pub fn from_code(value: i32) -> (r: Option<ModeId>)
        ensures
            r == Self::from_code_spec(value),
    {
        if value == 0 {
            Some(ModeId::NarrowBand)
        } else if value == 1 {
            Some(ModeId::WideBand)
        } else if value == 2 {
            Some(ModeId::UltraWideBand)
        } else {
            None
        }
    }

    /// The native frame length in samples of each mode: a constant of the
    /// engine's static mode table (20 ms of audio at the mode's sampling
    /// rate).
    pub open spec fn frame_size_spec(self) -> i32 {
        match self {
            ModeId::NarrowBand => 160,
            ModeId::WideBand => 320,
            ModeId::UltraWideBand => 640,
        }
    }

    /// Returns the mode's native frame length in samples.
    pub fn get_frame_size(self) -> (r: i32)
        ensures
            r == self.frame_size_spec(),
    {
        match self {
            ModeId::NarrowBand => 160,
            ModeId::WideBand => 320,
            ModeId::UltraWideBand => 640,
        }
    }

    /// The nominal sampling rate of each mode in hertz, used by the engine
    /// for bit-rate computation until the caller overrides it.
    pub open spec fn sampling_rate_spec(self) -> i32 {
        match self {
            ModeId::NarrowBand => 8000,
            ModeId::WideBand => 16000,
            ModeId::UltraWideBand => 32000,
        }
    }

    /// Returns the mode's nominal sampling rate in hertz.
    pub fn nominal_sampling_rate(self) -> (r: i32)
        ensures
            r == self.sampling_rate_spec(),
    {
        match self {
            ModeId::NarrowBand => 8000,
            ModeId::WideBand => 16000,
            ModeId::UltraWideBand => 32000,
        }
    }

    /// Algorithmic delay of a freshly constructed encoder of this mode, in
    /// samples. The wideband tiers embed the narrower encoder behind a
    /// 64-tap quadrature-mirror filterbank, so each step doubles the inner
    /// delay and adds 63 samples.
    pub open spec fn encoder_lookahead_spec(self) -> i32 {
        match self {
            ModeId::NarrowBand => 40,
            ModeId::WideBand => 143,
            ModeId::UltraWideBand => 349,
        }
    }

    /// Algorithmic delay of a freshly constructed decoder of this mode, in
    /// samples: one subframe for narrowband, doubled by each filterbank
    /// stage above it.
    pub open spec fn decoder_lookahead_spec(self) -> i32 {
        match self {
            ModeId::NarrowBand => 40,
            ModeId::WideBand => 80,
            ModeId::UltraWideBand => 160,
        }
    }

    /// Returns the algorithmic delay of a fresh encoder of this mode.
    pub fn encoder_lookahead(self) -> (r: i32)
        ensures
            r == self.encoder_lookahead_spec(),
    {
        match self {
            ModeId::NarrowBand => 40,
            ModeId::WideBand => 143,
            ModeId::UltraWideBand => 349,
        }
    }

    /// Returns the algorithmic delay of a fresh decoder of this mode.
    pub fn decoder_lookahead(self) -> (r: i32)
        ensures
            r == self.decoder_lookahead_spec(),
    {
        match self {
            ModeId::NarrowBand => 40,
            ModeId::WideBand => 80,
            ModeId::UltraWideBand => 160,
        }
    }

    /// Total end-to-end algorithmic delay of a matched encoder/decoder pair
    /// of this mode, in samples.
    pub open spec fn total_lookahead_spec(self) -> i32 {
        match self {
            ModeId::NarrowBand => 80,
            ModeId::WideBand => 223,
            ModeId::UltraWideBand => 509,
        }
    }
}

/// Parsing an integer selector undoes `to_code`: every mode is recovered
/// exactly from its own selector.
pub proof fn lemma_mode_code_round_trip(m: ModeId)
    ensures
        ModeId::from_code_spec(m.code_spec()) == Some(m),
{
}

/// Each mode's frame size is a positive constant, and distinct modes have
/// distinct frame sizes, so repeated queries within one process always agree
/// and identify the mode.
pub proof fn lemma_frame_size_mode_specific(a: ModeId, b: ModeId)
    ensures
        a.frame_size_spec() > 0,
        a != b ==> a.frame_size_spec() != b.frame_size_spec(),
{
}

/// The encoder and decoder lookahead of one mode are non-negative, and their
/// sum is the mode's total end-to-end algorithmic delay.
pub proof fn lemma_total_lookahead(m: ModeId)
    ensures
        m.encoder_lookahead_spec() >= 0,
        m.decoder_lookahead_spec() >= 0,
        m.encoder_lookahead_spec() + m.decoder_lookahead_spec() == m.total_lookahead_spec(),
{
}

/// Marker trait naming the bandwidth mode that a compile-time-moded coder
/// type is bound to.
pub trait CoderMode {
    /// The bandwidth mode this marker stands for.
    spec fn mode_spec() -> ModeId;

    /// Returns the `ModeId` value this marker stands for.
    fn mode_id() -> (m: ModeId)
        ensures
            m == Self::mode_spec(),
    ;
}

/// Narrowband mode (8 kHz).
///
/// This is a marker type used to pick the mode of a coder at compile time.
pub struct NbMode;

impl CoderMode for NbMode {
    open spec fn mode_spec() -> ModeId {
        ModeId::NarrowBand
    }

    fn mode_id() -> ModeId {
        ModeId::NarrowBand
    }
}

/// Wideband mode (16 kHz).
///
/// This is a marker type used to pick the mode of a coder at compile time.
pub struct WbMode;

impl CoderMode for WbMode {
    open spec fn mode_spec() -> ModeId {
        ModeId::WideBand
    }

    fn mode_id() -> ModeId {
        ModeId::WideBand
    }
}

/// Ultra-wideband mode (32 kHz).
///
/// This is a marker type used to pick the mode of a coder at compile time.
pub struct UwbMode;

impl CoderMode for UwbMode {
    open spec fn mode_spec() -> ModeId {
        ModeId::UltraWideBand
    }

    fn mode_id() -> ModeId {
        ModeId::UltraWideBand
    }
}

} // verus!
