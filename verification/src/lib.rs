//! Safe, verified control plane for a narrowband/wideband/ultra-wideband
//! speech codec engine.
//!
//! The crate models the engine's control protocol — one request code plus one
//! typed buffer per call — as a verified state machine: mode and submode
//! selectors, the request-code table, the integer-status-to-typed-error
//! translation, the per-instance parameter state that the ~20 named get/set
//! operations act on, and the mode-polymorphic facades over the three coder
//! variants. The raw engine itself (DSP math, opaque handles, native calls)
//! stays outside this crate; a thin unverified shell drives it with the
//! commands and translations this crate proves correct.

pub mod control;
pub mod decoder;
pub mod encoder;
pub mod mode;
pub mod stereo_state;
pub mod submode;

pub use crate::control::{
    ControlBuffer, ControlError, ControlFunctions, CoderKind, CoderParams, CoderState, Sealed,
};
pub use crate::decoder::{DynamicDecoder, SpeexDecoder};
pub use crate::encoder::{DynamicEncoder, SpeexEncoder};
pub use crate::mode::{CoderMode, ModeId, NbMode, UwbMode, WbMode};
pub use crate::stereo_state::SpeexStereoState;
pub use crate::submode::{NbSubmodeId, UwbSubmodeId, WbSubmodeId};
