//! Domain parameters: the named groups, and the resolution and validation
//! of a modulus and a generator.

use crate::error::KeyGenError;
use crate::natural::{compare, is_even, Natural};
use crate::text::{parse_biguint, parse_hex_biguint, parsed, parsed_hex};
use core::cmp::Ordering;
use vstd::prelude::*;

verus! {

/// The modulus of the 2048-bit MODP group of RFC 3526, in hex.
pub const MODP14_PRIME_HEX: &'static str = "FFFFFFFFFFFFFFFFC90FDAA22168C234C4C6628B80DC1CD129024E088A67CC74020BBEA63B139B22514A08798E3404DDEF9519B3CD3A431B302B0A6DF25F14374FE1356D6D51C245E485B576625E7EC6F44C42E9A637ED6B0BFF5CB6F406B7EDEE386BFB5A899FA5AE9F24117C4B1FE649286651ECE45B3DC2007CB8A163BF0598DA48361C55D39A69163FA8FD24CF5F83655D23DCA3AD961C62F356208552BB9ED529077096966D670C354E4ABC9804F1746C08CA18217C32905E462E36CE3BE39E772C180E86039B2783A2EC07A28FB5C55DF06F4C52C9DE2BCBF6955817183995497CEA956AE515D2261898FA051015728E5A8AACAA68FFFFFFFFFFFFFFFF";

/// The generator of the 2048-bit MODP group of RFC 3526.
pub const MODP14_GENERATOR: &'static str = "2";

/// A built-in, publicly documented Diffie-Hellman group.
#[derive(Clone, Copy, Debug, PartialEq, Eq, Structural)]
pub enum DhGroup {
    /// RFC 3526 MODP group 14 (2048-bit safe prime, generator 2).
    Modp14,
}

/// The hex text of a group's modulus.
pub open spec fn group_prime_text(group: DhGroup) -> Seq<char> {
    match group {
        DhGroup::Modp14 => MODP14_PRIME_HEX@,
    }
}

/// The text of a group's generator.
pub open spec fn group_generator_text(group: DhGroup) -> Seq<char> {
    match group {
        DhGroup::Modp14 => MODP14_GENERATOR@,
    }
}

impl DhGroup {
    /// The group's modulus, as bare hex digits.
    pub fn default_prime_hex(self) -> (r: &'static str)
        ensures
            r@ == group_prime_text(self),
    {
        match self {
            DhGroup::Modp14 => MODP14_PRIME_HEX,
        }
    }

    /// The group's generator, as decimal digits.
    pub fn default_generator(self) -> (r: &'static str)
        ensures
            r@ == group_generator_text(self),
    {
        match self {
            DhGroup::Modp14 => MODP14_GENERATOR,
        }
    }
}

/// A modulus and a generator that passed validation.
#[derive(Debug)]
pub struct DhParameters {
    /// The modulus `p`.
    pub prime: Natural,
    /// The generator `g`.
    pub generator: Natural,
}

/// The rules that a modulus `p` and a generator `g` must meet.
pub open spec fn valid_parameters(p: nat, g: nat) -> bool {
    p > 3 && p % 2 == 1 && 1 < g < p
}

impl DhParameters {
    /// The validity rules hold of the two values.
    pub open spec fn is_valid(&self) -> bool {
        valid_parameters(self.prime@, self.generator@)
    }
}

/// The text of an optional string.
pub open spec fn text_of(s: Option<&str>) -> Option<Seq<char>> {
    match s {
        Some(t) => Some(t@),
        None => None,
    }
}

/// The modulus that the text, or else the group, gives.
pub open spec fn resolved_prime(prime_text: Option<Seq<char>>, group: DhGroup) -> Result<
    nat,
    KeyGenError,
> {
    match prime_text {
        Some(t) => parsed(t),
        None => match parsed_hex(group_prime_text(group)) {
            Some(p) => Ok(p),
            None => Err(KeyGenError::MalformedNumber),
        },
    }
}

/// What resolving and validating the parameters gives: the modulus is
/// read and checked (greater than 3, then odd) before the generator is
/// read and checked (greater than 1, then below the modulus).
pub open spec fn resolved(
    prime_text: Option<Seq<char>>,
    generator_text: Option<Seq<char>>,
    group: DhGroup,
) -> Result<(nat, nat), KeyGenError> {
    match resolved_prime(prime_text, group) {
        Err(e) => Err(e),
        Ok(p) => if p <= 3 {
            Err(KeyGenError::PrimeTooSmall)
        } else if p % 2 == 0 {
            Err(KeyGenError::PrimeEven)
        } else {
            let gt = match generator_text {
                Some(t) => t,
                None => group_generator_text(group),
            };
            match parsed(gt) {
                Err(e) => Err(e),
                Ok(g) => if g <= 1 {
                    Err(KeyGenError::GeneratorTooSmall)
                } else if g >= p {
                    Err(KeyGenError::GeneratorTooLarge)
                } else {
                    Ok((p, g))
                },
            }
        },
    }
}

/// Selects the modulus (the given text, else the group's) and the generator
/// (the given text, else the group's) and validates them.
pub fn resolve_parameters(prime: Option<&str>, generator: Option<&str>, group: DhGroup) -> (r:
    Result<DhParameters, KeyGenError>)
    ensures
        match r {
            Ok(params) => resolved(text_of(prime), text_of(generator), group) == Ok::<
                (nat, nat),
                KeyGenError,
            >((params.prime@, params.generator@)),
            Err(e) => resolved(text_of(prime), text_of(generator), group) == Err::<
                (nat, nat),
                KeyGenError,
            >(e),
        },
        r matches Ok(params) ==> params.is_valid(),
{
    let p = match prime {
        Some(text) => parse_biguint(text),
        None => match parse_hex_biguint(group.default_prime_hex()) {
            Some(n) => Ok(n),
            None => Err(KeyGenError::MalformedNumber),
        },
    };
    let p = match p {
        Ok(n) => n,
        Err(e) => {
            return Err(e);
        },
    };
    let three = Natural::from_u32(3);
    match compare(&p, &three) {
        Ordering::Greater => {},
        _ => {
            return Err(KeyGenError::PrimeTooSmall);
        },
    }
    if is_even(&p) {
        return Err(KeyGenError::PrimeEven);
    }
    let g = match generator {
        Some(text) => parse_biguint(text),
        None => parse_biguint(group.default_generator()),
    };
    let g = match g {
        Ok(n) => n,
        Err(e) => {
            return Err(e);
        },
    };
    let one = Natural::from_u32(1);
    match compare(&g, &one) {
        Ordering::Greater => {},
        _ => {
            return Err(KeyGenError::GeneratorTooSmall);
        },
    }
    match compare(&g, &p) {
        Ordering::Less => {},
        _ => {
            return Err(KeyGenError::GeneratorTooLarge);
        },
    }
    Ok(DhParameters { prime: p, generator: g })
}

} // verus!
