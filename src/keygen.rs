//! Drawing the private exponent, deriving the public value, and the
//! report of one run.

use crate::error::KeyGenError;
use crate::natural::{bit_length, bits, difference, mod_pow, random_in_range, Natural};
use crate::params::{resolve_parameters, resolved, text_of, DhGroup, DhParameters};
use crate::text::{digits_of, even_hex, to_decimal, to_even_length_hex};
use vstd::arithmetic::power::pow;
use vstd::prelude::*;

verus! {

/// How the private key is written out.
#[derive(Clone, Copy, Debug, PartialEq, Eq, Structural)]
pub enum OutputFormat {
    Hex,
    Decimal,
    Both,
}

impl OutputFormat {
    /// The format writes the private key in hex.
    pub open spec fn shows_hex(self) -> bool {
        self == OutputFormat::Hex || self == OutputFormat::Both
    }

    /// The format writes the private key in decimal.
    pub open spec fn shows_decimal(self) -> bool {
        self == OutputFormat::Decimal || self == OutputFormat::Both
    }
}

/// Draws a private exponent uniformly from `[2, prime - 2]` with the
/// operating system's secure random source.
pub fn generate_private_key(prime: &Natural) -> (r: Natural)
    requires
        prime@ > 3,
    ensures
        2 <= r@ <= prime@ - 2,
{
    let two = Natural::from_u32(2);
    let one = Natural::from_u32(1);
    let upper_exclusive = difference(prime, &one);
    random_in_range(&two, &upper_exclusive)
}

/// The public value `generator ^ private_key mod prime`.
pub fn derive_public_key(generator: &Natural, private_key: &Natural, prime: &Natural) -> (r:
    Natural)
    requires
        prime@ > 0,
    ensures
        r@ == pow(generator@ as int, private_key@) % (prime@ as int),
{
    mod_pow(generator, private_key, prime)
}

/// What one run produces: the facts printed about the parameters, the two
/// keys, and their text.
#[derive(Debug)]
pub struct KeyReport {
    /// The number of bits of the modulus.
    pub prime_bits: u64,
    /// The generator in decimal.
    pub generator: String,
    pub private_key: Natural,
    pub public_key: Natural,
    /// The private key in even-length hex, where the format asks for it.
    pub private_key_hex: Option<String>,
    /// The private key in decimal, where the format asks for it.
    pub private_key_dec: Option<String>,
    /// The public key in even-length hex.
    pub public_key_hex: String,
}

/// `report` describes the key pair drawn for modulus `p` and generator `g`
/// and writes the private key as `format` asks.
pub open spec fn describes(report: KeyReport, p: nat, g: nat, format: OutputFormat) -> bool {
    let x = report.private_key@;
    &&& report.prime_bits as nat == bit_length(p)
    &&& report.generator@ == digits_of(g, 10)
    &&& 2 <= x <= p - 2
    &&& report.public_key@ == pow(g as int, x) % (p as int)
    &&& report.public_key_hex@ == even_hex(report.public_key@)
    &&& if format.shows_hex() {
        report.private_key_hex matches Some(h) && h@ == even_hex(x)
    } else {
        report.private_key_hex is None
    }
    &&& if format.shows_decimal() {
        report.private_key_dec matches Some(d) && d@ == digits_of(x, 10)
    } else {
        report.private_key_dec is None
    }
}

/// Draws a key pair for validated parameters and writes it out.
pub fn generate_key_report(params: &DhParameters, format: OutputFormat) -> (r: KeyReport)
    requires
        params.is_valid(),
    ensures
        describes(r, params.prime@, params.generator@, format),
{
    let private_key = generate_private_key(&params.prime);
    let public_key = derive_public_key(&params.generator, &private_key, &params.prime);
    let private_key_hex = match format {
        OutputFormat::Hex | OutputFormat::Both => Some(to_even_length_hex(&private_key)),
        OutputFormat::Decimal => None,
    };
    let private_key_dec = match format {
        OutputFormat::Decimal | OutputFormat::Both => Some(to_decimal(&private_key)),
        OutputFormat::Hex => None,
    };
    let public_key_hex = to_even_length_hex(&public_key);
    KeyReport {
        prime_bits: bits(&params.prime),
        generator: to_decimal(&params.generator),
        private_key,
        public_key,
        private_key_hex,
        private_key_dec,
        public_key_hex,
    }
}

/// One whole run: resolves and validates the parameters, then draws a key
/// pair and writes it out; fails exactly where validation fails.
pub fn create_private_key(
    prime: Option<&str>,
    generator: Option<&str>,
    group: DhGroup,
    format: OutputFormat,
) -> (r: Result<KeyReport, KeyGenError>)
    ensures
        match resolved(text_of(prime), text_of(generator), group) {
            Ok((p, g)) => r matches Ok(report) && describes(report, p, g, format),
            Err(e) => r == Err::<KeyReport, KeyGenError>(e),
        },
{
    match resolve_parameters(prime, generator, group) {
        Ok(params) => Ok(generate_key_report(&params, format)),
        Err(e) => Err(e),
    }
}

} // verus!
