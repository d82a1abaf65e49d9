//! Diffie-Hellman key-pair generation over arbitrary-precision integers.
//!
//! Parameters are resolved from text or from a named group and validated,
//! a private exponent is drawn from `[2, p - 2]`, and the public value
//! `g^x mod p` is derived. Integers are rendered as even-length uppercase
//! hex or as decimal text.

pub mod error;
pub mod keygen;
pub mod natural;
pub mod params;
pub mod text;

pub use error::KeyGenError;
pub use keygen::{
    create_private_key, derive_public_key, generate_key_report, generate_private_key, KeyReport,
    OutputFormat,
};
pub use natural::Natural;
pub use params::{resolve_parameters, DhGroup, DhParameters};
pub use text::{parse_biguint, parse_hex_biguint, to_decimal, to_even_length_hex};
