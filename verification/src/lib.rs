pub mod decimal;
pub mod metrics;
