//! Frame geometry, configuration and filter-bank layout for short-time
//! Fourier analysis of audio signals.
//!
//! The library decides everything about an STFT that is not arithmetic on
//! samples: which options are valid, how the signal is padded and cut into
//! frames, where the window sits in the transform buffer, how a window is
//! mirrored from its first half, and the exact triangular weights of a mel
//! filter bank over its bin landmarks. Sample values are carried through
//! unchanged as a generic `T`.
use vstd::prelude::*;

pub mod filters;
pub mod scaling;
pub mod spectrum;
pub mod windows;

pub use crate::filters::{mel_weights, Weight};
pub use crate::scaling::{db_range, DbRange};
pub use crate::spectrum::{PadMode, Stft, StftBuilder, StftError, WindowSource};
pub use crate::windows::Window;

verus! {

/// The sample type that the engine moves through padding, framing and
/// window placement.
pub trait StftNum: Copy {
}

impl<T: Copy> StftNum for T {
}

} // verus!
