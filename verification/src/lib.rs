//! Elements of a prime field: integers modulo a fixed modulus, with validated
//! construction, structural equality, textual rendering and modular addition.

pub mod decimal;
pub mod element;
pub mod error;

pub use element::FieldElement;
pub use error::FiniteFieldError;
