//! Synthetic sequencing-summary generator.
//!
//! The library builds fake basecalling summary records: a random read
//! identifier, a sequence length drawn from a heavy-tailed distribution,
//! a mean quality score drawn from a skewed normal distribution, a barcode
//! label drawn from a weighted categorical split, and a pass/fail flag
//! coupled to the quality score.
//!
//! Quality scores are held in fixed-point pico units (multiples of 1e-12),
//! which represent every constant of the score model exactly; the raw
//! draws from the continuous distributions enter the library as plain
//! integers in the same units.

pub mod entropy;
pub mod record;
pub mod sampling;
pub mod text;
