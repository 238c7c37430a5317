//! Command-stream front end of the PlayStation's graphics coprocessor,
//! together with the supporting register, envelope, and fixed-point units.
//!
//! The heart of the crate is the GP0 primitive command engine in [`gp0`]:
//! a state machine that reassembles variable-length draw commands out of a
//! flat stream of 32-bit words and hands completed primitives to a
//! rasterizer as plain data.

use vstd::prelude::*;

pub mod api;
pub mod config;
pub mod envelope;
pub mod fixedpoint;
pub mod spu;
pub mod gp0;
pub mod gte;
pub mod rasterizer;
pub mod registers;

verus! {

/// Whether bit `n` of `w` is set; `n` must be below 32.
pub open spec fn bit_set(w: u32, n: u32) -> bool {
    (w >> n) & 1 == 1
}

/// Masking keeps a word at or below the mask.
pub proof fn lemma_word_mask_bound(x: u32, m: u32)
    ensures
        x & m <= m,
{
    assert(x & m <= m) by (bit_vector);
}

/// Reads one flag bit out of a command word.
pub fn word_bit(w: u32, n: u32) -> (r: bool)
    requires
        n < 32,
    ensures
        r == bit_set(w, n),
{
    (w >> n) & 1 == 1
}

} // verus!
