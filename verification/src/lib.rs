//! The De Jong attractor: a two-dimensional map that is iterated on a point.
//!
//! One step takes the point `(x, y)` to `(x', y')` with
//!
//! ```text
//! x' = sin(a * y) - cos(b * x)
//! y' = sin(c * x') - cos(d * y)
//! ```
//!
//! where the second line reads the coordinate that the first line has just
//! produced. The engine is generic in the arithmetic it is iterated in (see
//! [`Scalar`]); every contract holds for whatever arithmetic it is given.

pub mod attractor;
pub mod scalar;
pub mod trajectory;

pub use attractor::{step, DeJongAttractor, Point, State};
pub use scalar::{
    cosine, cosine_of_product, difference, lemma_wave_is_determined, lemma_wave_stays_in_band,
    product, sine, sine_of_product, single_valued, wave, Scalar,
};
pub use trajectory::{
    is_run, is_trajectory, lemma_parameters_never_change, lemma_runs_agree,
    lemma_step_is_determined, lemma_step_stays_in_band,
};
