use vstd::prelude::*;
use crate::mode::ModeId;

verus! {

/// Possible submodes for the narrowband mode.
///
/// As wideband and ultra-wideband modes both embed narrowband, this is also
/// used for those.
#[derive(Copy, Clone, PartialEq, Eq, Debug)]
pub enum NbSubmodeId {
    /// 2150 bps "vocoder-like" mode for comfort noise
    VocoderLike,
    /// 3.95 kbps very low bit-rate mode
    ExtremeLow,
    /// 5.95 kbps very low bit-rate mode
    VeryLow,
    /// 8 kbps low bit-rate mode
    Low,
    /// 11 kbps medium bit-rate mode
    Medium,
    /// 15 kbps high bit-rate mode
    High,
    /// 18.2 kbps very high bit-rate mode
    VeryHigh,
    /// 24.6 kbps very high bit-rate mode
    ExtremeHigh,
}

impl NbSubmodeId {
    /// The integer identifier the engine's narrowband mode table gives this
    /// submode. The numbering is not monotone in bit-rate: the 3.95 kbps
    /// tier was added last and sits at 8.
    pub open spec fn code_spec(self) -> i32 {
        match self {
            NbSubmodeId::VocoderLike => 1,
            NbSubmodeId::VeryLow => 2,
            NbSubmodeId::Low => 3,
            NbSubmodeId::Medium => 4,
            NbSubmodeId::High => 5,
            NbSubmodeId::VeryHigh => 6,
            NbSubmodeId::ExtremeHigh => 7,
            NbSubmodeId::ExtremeLow => 8,
        }
    }

    /// Returns the engine's integer identifier for this submode.
    pub fn to_code(self) -> (r: i32)
        ensures
            r == self.code_spec(),
    {
        match self {
            NbSubmodeId::VocoderLike => 1,
            NbSubmodeId::VeryLow => 2,
            NbSubmodeId::Low => 3,
            NbSubmodeId::Medium => 4,
            NbSubmodeId::High => 5,
            NbSubmodeId::VeryHigh => 6,
            NbSubmodeId::ExtremeHigh => 7,
            NbSubmodeId::ExtremeLow => 8,
        }
    }

    /// What parsing an integer narrowband submode identifier yields.
    pub open spec fn from_code_spec(value: i32) -> Option<NbSubmodeId> {
        if value == 1 {
            Some(NbSubmodeId::VocoderLike)
        } else if value == 2 {
            Some(NbSubmodeId::VeryLow)
        } else if value == 3 {
            Some(NbSubmodeId::Low)
        } else if value == 4 {
            Some(NbSubmodeId::Medium)
        } else if value == 5 {
            Some(NbSubmodeId::High)
        } else if value == 6 {
            Some(NbSubmodeId::VeryHigh)
        } else if value == 7 {
            Some(NbSubmodeId::ExtremeHigh)
        } else if value == 8 {
            Some(NbSubmodeId::ExtremeLow)
        } else {
            None
        }
    }

    /// Parses an integer narrowband submode identifier; values outside 1–8
    /// are a typed failure.
    pub fn from_code(value: i32) -> (r: Option<NbSubmodeId>)
        ensures
            r == Self::from_code_spec(value),
    {
        if value == 1 {
            Some(NbSubmodeId::VocoderLike)
        } else if value == 2 {
            Some(NbSubmodeId::VeryLow)
        } else if value == 3 {
            Some(NbSubmodeId::Low)
        } else if value == 4 {
            Some(NbSubmodeId::Medium)
        } else if value == 5 {
            Some(NbSubmodeId::High)
        } else if value == 6 {
            Some(NbSubmodeId::VeryHigh)
        } else if value == 7 {
            Some(NbSubmodeId::ExtremeHigh)
        } else if value == 8 {
            Some(NbSubmodeId::ExtremeLow)
        } else {
            None
        }
    }
}

/// Possible submodes for the wideband mode.
#[derive(Copy, Clone, PartialEq, Eq, Debug)]
pub enum WbSubmodeId {
    /// disables innovation quantization entirely
    NoQuantize,
    /// enables innovation quantization, but with a lower rate than the default
    QuantizedLow,
    /// enables innovation quantization with the default rate
    QuantizedMedium,
    /// enables innovation quantization, but with a higher rate than the default
    QuantizedHigh,
}

impl WbSubmodeId {
    /// The integer identifier the engine's wideband mode table gives this
    /// submode. Identifier 1 here names a different tier than the same
    /// number in the narrowband table; the per-mode tables are independent.
    pub open spec fn code_spec(self) -> i32 {
        match self {
            WbSubmodeId::NoQuantize => 1,
            WbSubmodeId::QuantizedLow => 2,
            WbSubmodeId::QuantizedMedium => 3,
            WbSubmodeId::QuantizedHigh => 4,
        }
    }

    /// Returns the engine's integer identifier for this submode.
    pub fn to_code(self) -> (r: i32)
        ensures
            r == self.code_spec(),
    {
        match self {
            WbSubmodeId::NoQuantize => 1,
            WbSubmodeId::QuantizedLow => 2,
            WbSubmodeId::QuantizedMedium => 3,
            WbSubmodeId::QuantizedHigh => 4,
        }
    }

    /// What parsing an integer wideband submode identifier yields.
    pub open spec fn from_code_spec(value: i32) -> Option<WbSubmodeId> {
        if value == 1 {
            Some(WbSubmodeId::NoQuantize)
        } else if value == 2 {
            Some(WbSubmodeId::QuantizedLow)
        } else if value == 3 {
            Some(WbSubmodeId::QuantizedMedium)
        } else if value == 4 {
            Some(WbSubmodeId::QuantizedHigh)
        } else {
            None
        }
    }

    /// Parses an integer wideband submode identifier; values outside 1–4 are
    /// a typed failure.
    pub fn from_code(value: i32) -> (r: Option<WbSubmodeId>)
        ensures
            r == Self::from_code_spec(value),
    {
        if value == 1 {
            Some(WbSubmodeId::NoQuantize)
        } else if value == 2 {
            Some(WbSubmodeId::QuantizedLow)
        } else if value == 3 {
            Some(WbSubmodeId::QuantizedMedium)
        } else if value == 4 {
            Some(WbSubmodeId::QuantizedHigh)
        } else {
            None
        }
    }
}

/// Possible submodes for the ultra-wideband mode.
///
/// While this is an enum, ultra-wideband mode only has one submode, so it's
/// effectively a constant.
#[derive(Copy, Clone, PartialEq, Eq, Debug)]
pub enum UwbSubmodeId {
    /// The single ultra-wideband tier; it shares identifier 1 with the
    /// wideband table's no-quantization tier.
    Only,
}

impl UwbSubmodeId {
    /// The integer identifier of the single ultra-wideband submode.
    pub open spec fn code_spec(self) -> i32 {
        1
    }

    /// Returns the engine's integer identifier for this submode.
    pub fn to_code(self) -> (r: i32)
        ensures
            r == self.code_spec(),
    {
        1
    }

    /// What parsing an integer ultra-wideband submode identifier yields.
    pub open spec fn from_code_spec(value: i32) -> Option<UwbSubmodeId> {
        if value == 1 {
            Some(UwbSubmodeId::Only)
        } else {
            None
        }
    }

    /// Parses an integer ultra-wideband submode identifier; every value but
    /// 1 is a typed failure.
    pub fn from_code(value: i32) -> (r: Option<UwbSubmodeId>)
        ensures
            r == Self::from_code_spec(value),
    {
        if value == 1 {
            Some(UwbSubmodeId::Only)
        } else {
            None
        }
    }
}

/// The catalog of legal submode identifiers per bandwidth mode: narrowband
/// lists 1–8, wideband 1–4, ultra-wideband exactly 1.
pub open spec fn legal_submode_code_spec(mode: ModeId, code: i32) -> bool {
    match mode {
        ModeId::NarrowBand => 1 <= code <= 8,
        ModeId::WideBand => 1 <= code <= 4,
        ModeId::UltraWideBand => code == 1,
    }
}

/// Reports whether `code` names a submode of `mode`.
pub fn is_legal_submode_code(mode: ModeId, code: i32) -> (r: bool)
    ensures
        r == legal_submode_code_spec(mode, code),
{
    match mode {
        ModeId::NarrowBand => 1 <= code && code <= 8,
        ModeId::WideBand => 1 <= code && code <= 4,
        ModeId::UltraWideBand => code == 1,
    }
}

/// Parsing an integer submode identifier undoes `to_code` in each of the
/// three per-mode tables.
pub proof fn lemma_submode_code_round_trip(nb: NbSubmodeId, wb: WbSubmodeId, uwb: UwbSubmodeId)
    ensures
        NbSubmodeId::from_code_spec(nb.code_spec()) == Some(nb),
        WbSubmodeId::from_code_spec(wb.code_spec()) == Some(wb),
        UwbSubmodeId::from_code_spec(uwb.code_spec()) == Some(uwb),
{
}

/// Each per-mode parser accepts exactly the identifiers of that mode's
/// catalog: narrowband 1–8, wideband 1–4, ultra-wideband only 1.
pub proof fn lemma_submode_catalog_exact(code: i32)
    ensures
        NbSubmodeId::from_code_spec(code) is Some <==> legal_submode_code_spec(
            ModeId::NarrowBand,
            code,
        ),
        WbSubmodeId::from_code_spec(code) is Some <==> legal_submode_code_spec(
            ModeId::WideBand,
            code,
        ),
        UwbSubmodeId::from_code_spec(code) is Some <==> legal_submode_code_spec(
            ModeId::UltraWideBand,
            code,
        ),
{
}

} // verus!
