pub mod error;
