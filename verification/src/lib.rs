//! Weighted discrete sampling: drawing an index from a vector of
//! non-negative fixed-point weights with a uniform variate.

mod entropy;
pub mod sampler;

pub use sampler::collapse_wave_fn;
pub use sampler::default_state;
pub use sampler::resolve_state;
pub use sampler::sample;
pub use sampler::SampleError;
pub use sampler::SCALE;
