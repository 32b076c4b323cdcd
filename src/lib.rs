pub mod ecc;
pub mod errors;

pub use ecc::{FieldElement, FieldElementOps};
pub use errors::InvalidValueError;
