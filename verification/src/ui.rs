//! Immediate-mode UI: layout geometry, interaction state and window ordering.

pub mod container;
pub mod context_menu;
pub mod ids;
pub mod interaction;
pub mod layout;
pub mod outline;
pub mod rect;
pub mod scroll;
pub mod text;
pub mod text_input;
pub mod text_layout;
pub mod theme;
pub mod tree;
pub mod window;
pub mod window_order;

use vstd::prelude::*;

pub use crate::color::be_bytes;

verus! {

/// First layer used by windows.
pub const WINDOW_LAYER: u16 = 100;

/// Layer of context menus; window bands saturate below it.
pub const CONTEXT_LAYER: u16 = 10000;

/// Layer of dragged widgets.
pub const DRAG_LAYER: u16 = 10000;

/// Half of `n`, rounded towards zero (Rust's `n / 2`).
pub open spec fn spec_half(n: int) -> int {
    if n >= 0 {
        n / 2
    } else {
        -((-n) / 2)
    }
}

/// Half of `n`, rounded away from zero: `n / 2 + n % 2` in Rust.
pub open spec fn spec_half_ceil(n: int) -> int {
    if n >= 0 {
        (n + 1) / 2
    } else {
        -((-n + 1) / 2)
    }
}

/// `n / 2`, rounded towards zero.
pub(crate) fn div_half(n: i32) -> (r: i32)
    ensures
        r == spec_half(n as int),
{
    n / 2
}

/// Half of `n`, rounded away from zero.
pub(crate) fn div_half_ceil(n: i32) -> (r: i32)
    ensures
        r == spec_half_ceil(n as int),
{
    let d = n / 2;
    let r = n % 2;
    d + r
}

/// The 32-bit FNV-1a offset basis.
pub const FNV_OFFSET_BASIS: u32 = 0x811c9dc5;

/// The 32-bit FNV prime.
pub const FNV_PRIME: u32 = 0x1000193;

/// The 32-bit FNV-1a hash of `bytes`: starting from the offset basis, each
/// byte is xored in and the result multiplied by the prime modulo 2^32.
pub open spec fn spec_fnv_1a(bytes: Seq<u8>) -> u32
    decreases bytes.len(),
{
    if bytes.len() == 0 {
        FNV_OFFSET_BASIS
    } else {
        ((((spec_fnv_1a(bytes.drop_last()) ^ (bytes.last() as u32)) as int) * (FNV_PRIME as int))
            % 0x1_0000_0000) as u32
    }
}

/// The 32-bit FNV-1a hash of `value`.
pub fn fnv_1a(value: &[u8]) -> (h: u32)
    ensures
        h == spec_fnv_1a(value@),
{
    let mut hash: u32 = FNV_OFFSET_BASIS;
    let mut i: usize = 0;
    while i < value.len()
        invariant
            i <= value.len(),
            hash == spec_fnv_1a(value@.subrange(0, i as int)),
        decreases value.len() - i,
    {
        assert(value@.subrange(0, i + 1).drop_last() =~= value@.subrange(0, i as int));
        hash = hash ^ (value[i] as u32);
        hash = hash.wrapping_mul(FNV_PRIME);
        i += 1;
    }
    assert(value@.subrange(0, value.len() as int) =~= value@);
    hash
}

/// Text shaping results unused for more ticks than this are collected.
pub const SHAPING_MAX_AGE: u64 = 120;

/// At most this many cached texts are collected per tick.
pub const SHAPING_GC_BUDGET: u32 = 100;

/// Whether a cached text is kept, given the tick its shaping result was last
/// used (`None` when the result is gone) and the current tick.
pub open spec fn spec_text_cache_keep(budget: u32, last_access: Option<u64>, tick: u64) -> bool {
    budget == 0 || match last_access {
        None => false,
        Some(t) => (if tick >= t {
            tick - t
        } else {
            0
        }) <= SHAPING_MAX_AGE,
    }
}

/// Decide whether to keep a cached text; each entry dropped uses up one unit
/// of the tick's collection budget, and nothing is dropped once it is spent.
pub fn text_cache_keep(budget: &mut u32, last_access: Option<u64>, tick: u64) -> (keep: bool)
    ensures
        keep == spec_text_cache_keep(*old(budget), last_access, tick),
        keep ==> *final(budget) == *old(budget),
        !keep ==> *final(budget) == *old(budget) - 1,
{
    if *budget == 0 {
        return true;
    }
    match last_access {
        None => {
            *budget = *budget - 1;
            false
        },
        Some(t) => {
            let retain = tick.saturating_sub(t) <= SHAPING_MAX_AGE;
            if !retain {
                *budget = *budget - 1;
            }
            retain
        },
    }
}

/// The four bytes of `v`, least significant first.
pub open spec fn le_bytes(v: u32) -> Seq<u8> {
    seq![
        (v % 0x100) as u8,
        (v / 0x100 % 0x100) as u8,
        (v / 0x10000 % 0x100) as u8,
        (v / 0x1000000) as u8,
    ]
}

/// The bytes of `words`, each least significant first.
pub open spec fn words_le(words: Seq<u32>) -> Seq<u8>
    decreases words.len(),
{
    if words.len() == 0 {
        Seq::empty()
    } else {
        words_le(words.drop_last()) + le_bytes(words.last())
    }
}

/// The bytes of `words`, each most significant first.
pub open spec fn words_be(words: Seq<u32>) -> Seq<u8>
    decreases words.len(),
{
    if words.len() == 0 {
        Seq::empty()
    } else {
        words_be(words.drop_last()) + be_bytes(words.last())
    }
}

/// Trusted: `bytemuck::cast_slice::<u32, u8>`, copied out. It reinterprets
/// the words' memory, so each word appears in the machine's byte order, which
/// is least or most significant byte first; which of the two is not stated.
#[verifier::external_body]
pub(crate) fn native_bytes_of_words(words: &Vec<u32>) -> (r: Vec<u8>)
    ensures
        r@ == words_le(words@) || r@ == words_be(words@),
{
    bytemuck::cast_slice::<u32, u8>(words.as_slice()).to_vec()
}

} // verus!
