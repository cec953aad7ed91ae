pub mod math;
pub mod token;
