pub mod component;
pub mod estimator;
pub mod laws;
pub mod scalar;
