//! The primitive sampler: one value of a scalar type, drawn from the type's
//! default distribution.

use vstd::prelude::*;
use rand::rngs::StdRng;
use rand::Rng;

verus! {

/// `StdRng` of the `rand` crate: the random source. It is carried through
/// and handed to the crate's own functions; nothing is known of its state.
#[verifier::external_type_specification]
#[verifier::external_body]
pub struct ExStdRng(StdRng);

/// A type that has a generation entry point: from a context and a random
/// source to one instance of the type.
pub trait Rand<C>: Sized {
    /// The entry point without a context. A type has none unless it
    /// provides one.
    fn rand_deprecated() -> (r: Option<Self>)
        default_ensures
            r is None,
    {
        None
    }

    /// One instance of the type.
    fn rand(usr: &C, rng: &mut StdRng) -> Self;
}

/// `Rng::gen` of the `rand` crate at `bool`: one value of the standard
/// distribution, which consumes entropy of `rng`. Nothing is claimed of
/// the value.
#[verifier::external_body]
fn draw_bool(rng: &mut StdRng) -> bool {
    rng.gen()
}

impl<C> Rand<C> for bool {
    fn rand(usr: &C, rng: &mut StdRng) -> bool {
        draw_bool(rng)
    }
}

/// `Rng::gen` of the `rand` crate at `u8`: one value of the standard
/// distribution, which consumes entropy of `rng`. Nothing is claimed of
/// the value.
#[verifier::external_body]
fn draw_u8(rng: &mut StdRng) -> u8 {
    rng.gen()
}

impl<C> Rand<C> for u8 {
    fn rand(usr: &C, rng: &mut StdRng) -> u8 {
        draw_u8(rng)
    }
}

/// `Rng::gen` of the `rand` crate at `u16`: one value of the standard
/// distribution, which consumes entropy of `rng`. Nothing is claimed of
/// the value.
#[verifier::external_body]
fn draw_u16(rng: &mut StdRng) -> u16 {
    rng.gen()
}

impl<C> Rand<C> for u16 {
    fn rand(usr: &C, rng: &mut StdRng) -> u16 {
        draw_u16(rng)
    }
}

/// `Rng::gen` of the `rand` crate at `u32`: one value of the standard
/// distribution, which consumes entropy of `rng`. Nothing is claimed of
/// the value.
#[verifier::external_body]
fn draw_u32(rng: &mut StdRng) -> u32 {
    rng.gen()
}

impl<C> Rand<C> for u32 {
    fn rand(usr: &C, rng: &mut StdRng) -> u32 {
        draw_u32(rng)
    }
}

/// `Rng::gen` of the `rand` crate at `u64`: one value of the standard
/// distribution, which consumes entropy of `rng`. Nothing is claimed of
/// the value.
#[verifier::external_body]
fn draw_u64(rng: &mut StdRng) -> u64 {
    rng.gen()
}

impl<C> Rand<C> for u64 {
    fn rand(usr: &C, rng: &mut StdRng) -> u64 {
        draw_u64(rng)
    }
}

/// `Rng::gen` of the `rand` crate at `i8`: one value of the standard
/// distribution, which consumes entropy of `rng`. Nothing is claimed of
/// the value.
#[verifier::external_body]
fn draw_i8(rng: &mut StdRng) -> i8 {
    rng.gen()
}

impl<C> Rand<C> for i8 {
    fn rand(usr: &C, rng: &mut StdRng) -> i8 {
        draw_i8(rng)
    }
}

/// `Rng::gen` of the `rand` crate at `i16`: one value of the standard
/// distribution, which consumes entropy of `rng`. Nothing is claimed of
/// the value.
#[verifier::external_body]
fn draw_i16(rng: &mut StdRng) -> i16 {
    rng.gen()
}

impl<C> Rand<C> for i16 {
    fn rand(usr: &C, rng: &mut StdRng) -> i16 {
        draw_i16(rng)
    }
}

/// `Rng::gen` of the `rand` crate at `i32`: one value of the standard
/// distribution, which consumes entropy of `rng`. Nothing is claimed of
/// the value.
#[verifier::external_body]
fn draw_i32(rng: &mut StdRng) -> i32 {
    rng.gen()
}

impl<C> Rand<C> for i32 {
    fn rand(usr: &C, rng: &mut StdRng) -> i32 {
        draw_i32(rng)
    }
}

/// `Rng::gen` of the `rand` crate at `i64`: one value of the standard
/// distribution, which consumes entropy of `rng`. Nothing is claimed of
/// the value.
#[verifier::external_body]
fn draw_i64(rng: &mut StdRng) -> i64 {
    rng.gen()
}

impl<C> Rand<C> for i64 {
    fn rand(usr: &C, rng: &mut StdRng) -> i64 {
        draw_i64(rng)
    }
}

/// `Rng::gen` of the `rand` crate at `u128`: one value of the standard
/// distribution, which consumes entropy of `rng`. Nothing is claimed of
/// the value.
#[verifier::external_body]
fn draw_u128(rng: &mut StdRng) -> u128 {
    rng.gen()
}

impl<C> Rand<C> for u128 {
    fn rand(usr: &C, rng: &mut StdRng) -> u128 {
        draw_u128(rng)
    }
}

/// `Rng::gen` of the `rand` crate at `usize`: one value of the standard
/// distribution, which consumes entropy of `rng`. Nothing is claimed of
/// the value.
#[verifier::external_body]
fn draw_usize(rng: &mut StdRng) -> usize {
    rng.gen()
}

impl<C> Rand<C> for usize {
    fn rand(usr: &C, rng: &mut StdRng) -> usize {
        draw_usize(rng)
    }
}

/// `Rng::gen` of the `rand` crate at `i128`: one value of the standard
/// distribution, which consumes entropy of `rng`. Nothing is claimed of
/// the value.
#[verifier::external_body]
fn draw_i128(rng: &mut StdRng) -> i128 {
    rng.gen()
}

impl<C> Rand<C> for i128 {
    fn rand(usr: &C, rng: &mut StdRng) -> i128 {
        draw_i128(rng)
    }
}

/// `Rng::gen` of the `rand` crate at `isize`: one value of the standard
/// distribution, which consumes entropy of `rng`. Nothing is claimed of
/// the value.
#[verifier::external_body]
fn draw_isize(rng: &mut StdRng) -> isize {
    rng.gen()
}

impl<C> Rand<C> for isize {
    fn rand(usr: &C, rng: &mut StdRng) -> isize {
        draw_isize(rng)
    }
}

/// `Rng::gen` of the `rand` crate at `char`: one value of the standard
/// distribution, which consumes entropy of `rng`. Nothing is claimed of
/// the value.
#[verifier::external_body]
fn draw_char(rng: &mut StdRng) -> char {
    rng.gen()
}

impl<C> Rand<C> for char {
    fn rand(usr: &C, rng: &mut StdRng) -> char {
        draw_char(rng)
    }
}

} // verus!
