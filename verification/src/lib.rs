//! Random BOFH-style excuse generation.
//!
//! Two curated lists of excuses are provided: a classic list, themed around
//! hardware and in-person support problems, and a modern list, themed around
//! cloud and remote-work problems. A selector draws one entry uniformly at
//! random from the chosen list, and a small command-line surface resolves
//! which list to draw from.

use rand::RngExt;
use vstd::prelude::*;

pub mod cli;
pub mod excuses;

pub use cli::{parse_args, Cli, ExcuseType, ParseError};
pub use excuses::{classic_table, modern_table};

verus! {

use crate::excuses::{
    classic_sentinel, classic_spec, excuse_ok, lemma_classic_table_ok, lemma_modern_table_ok,
    modern_sentinel, modern_spec, views_of,
};

/// Upper bound (exclusive) on the length of any excuse, in characters.
pub const EXCUSE_LEN_BOUND: usize = 1000;

/// Relies on rand: `rng()` hands out the thread-local generator, and
/// `RngExt::random_range(0..n)` returns a uniformly distributed value of the
/// range, panicking only when the range is empty. Nothing more than the
/// bound can be promised of a random draw.
#[verifier::external_body]
fn random_index(n: usize) -> (r: usize)
    requires
        n > 0,
    ensures
        r < n,
{
    rand::rng().random_range(0..n)
}

/// Returns a random classic excuse.
///
/// The result is always an entry of the classic table, hence non-empty,
/// under the length bound, and never the classic fallback sentinel.
pub fn random_classic() -> (r: &'static str)
    ensures
        classic_spec().contains(r@),
        r@ != classic_sentinel(),
        excuse_ok(r@),
{
    let table = classic_table();
    proof {
        lemma_classic_table_ok();
    }
    if table.len() == 0 {
        "No excuse found, try again later"
    } else {
        let i = random_index(table.len());
        let r = table[i];
        proof {
            assert(r@ == views_of(table@)[i as int]);
            assert(classic_spec().contains(r@)) by {
                assert(classic_spec()[i as int] == r@);
            }
        }
        r
    }
}

/// Returns a random modern excuse.
///
/// The result is always an entry of the modern table, hence non-empty,
/// under the length bound, and never the modern fallback sentinel.
pub fn random_modern() -> (r: &'static str)
    ensures
        modern_spec().contains(r@),
        r@ != modern_sentinel(),
        excuse_ok(r@),
{
    let table = modern_table();
    proof {
        lemma_modern_table_ok();
    }
    if table.len() == 0 {
        "Excuse engine not initialized. Please try again later."
    } else {
        let i = random_index(table.len());
        let r = table[i];
        proof {
            assert(r@ == views_of(table@)[i as int]);
            assert(modern_spec().contains(r@)) by {
                assert(modern_spec()[i as int] == r@);
            }
        }
        r
    }
}

} // verus!
