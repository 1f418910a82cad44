//! The decisions of four statistics over series of samples: when a statistic
//! is undefined, and which samples its arithmetic reads.
//!
//! The arithmetic itself runs on 64-bit floats next to this library; here the
//! series are known by their lengths, and each function says, for every length,
//! whether the statistic is undefined (the caller answers NaN) or which window
//! of leading samples, or which two samples, the formula is applied to.

pub mod window;
