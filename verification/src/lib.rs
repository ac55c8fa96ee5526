//! Model catalog, cache planning and host-capability checking for running
//! small language models locally.
//!
//! The crate has three cooperating parts: a static catalog of model variants
//! with their metadata ([`phi_models`]), a cache manager that derives one
//! canonical artifact path per variant and plans fetches ([`cache`]), and a
//! capability advisor that judges whether a host can run a variant and which
//! compute backend to prefer ([`system`]).  Everything here is plain
//! computation; the surrounding binary performs the filesystem and network
//! work and feeds the results back in.

pub mod cache;
pub mod chat;
pub mod phi_models;
pub mod strutil;
pub mod system;

pub use cache::{EnsureAction, PhiModelManager};
pub use chat::ChatSession;
pub use phi_models::{CatalogError, PhiFamily, PhiModel};
pub use system::{DiskInfo, GpuInfo, MemoryInfo, SystemInfo};

use crate::strutil::{digit_char, digit_to_char, push_char, spec_dec_digits, u64_to_string};
use vstd::prelude::*;
use vstd::string::StringExecFns;

verus! {

/// Crate version, mirrored from the package manifest.
pub const VERSION: &'static str = "0.1.0";

/// Crate name.
pub const NAME: &'static str = "phi_local_llm";

/// One-line description of the crate.
pub const DESCRIPTION: &'static str =
    "Catalog, cache planning and capability checks for local Phi models";

/// Placeholder for a wired-up inference engine: selecting, sizing and
/// caching a model are this crate's business, running it is not.
pub struct PhiInference {}

/// `1024^k`, for the unit scales used by [`format_bytes`].
pub open spec fn spec_pow1024(k: nat) -> int {
    if k == 0 {
        1
    } else if k == 1 {
        1024
    } else if k == 2 {
        1048576
    } else if k == 3 {
        1073741824
    } else {
        1099511627776
    }
}

/// The unit in which `n` bytes are displayed: the largest `k <= 4` with
/// `1024^k <= n`.
pub open spec fn spec_unit_index(n: nat) -> nat {
    if n < 1024 {
        0
    } else if n < 1048576 {
        1
    } else if n < 1073741824 {
        2
    } else if n < 1099511627776 {
        3
    } else {
        4
    }
}

/// Unit suffix for scale `k`, including the separating space.
pub open spec fn spec_unit_suffix(k: nat) -> Seq<char> {
    if k == 0 {
        " B"@
    } else if k == 1 {
        " KB"@
    } else if k == 2 {
        " MB"@
    } else if k == 3 {
        " GB"@
    } else {
        " TB"@
    }
}

/// `num / den` rounded to the nearest integer, ties to even.
pub open spec fn spec_round_half_even(num: int, den: int) -> int
    recommends
        den > 0,
{
    let q = num / den;
    let r = num % den;
    if 2 * r < den {
        q
    } else if 2 * r > den {
        q + 1
    } else if q % 2 == 0 {
        q
    } else {
        q + 1
    }
}

/// The human-readable rendering of a byte count: the count itself below one
/// kilobyte, otherwise the count scaled to the largest fitting binary unit
/// (up to terabytes) with one rounded decimal digit.
pub open spec fn spec_format_bytes(n: u64) -> Seq<char> {
    let k = spec_unit_index(n as nat);
    if k == 0 {
        spec_dec_digits(n as nat) + spec_unit_suffix(0)
    } else {
        let t = spec_round_half_even(10 * n, spec_pow1024(k));
        spec_dec_digits((t / 10) as nat) + seq!['.'] + seq![digit_char(t % 10)] + spec_unit_suffix(
            k,
        )
    }
}

/// Formats a byte count as a human-readable string, e.g. `1536` becomes
/// `"1.5 KB"` and `17` becomes `"17 B"`.
pub fn format_bytes(bytes: u64) -> (r: String)
    ensures
        r@ == spec_format_bytes(bytes),
{
    let k: u64 = if bytes < 1024 {
        0
    } else if bytes < 1048576 {
        1
    } else if bytes < 1073741824 {
        2
    } else if bytes < 1099511627776 {
        3
    } else {
        4
    };
    if k == 0 {
        let mut s = u64_to_string(bytes);
        s.append(" B");
        return s;
    }
    let den64: u64 = if k == 1 {
        1024
    } else if k == 2 {
        1048576
    } else if k == 3 {
        1073741824
    } else {
        1099511627776
    };
    assert(den64 == spec_pow1024(k as nat));
    let num: u128 = (bytes as u128) * 10;
    let den: u128 = den64 as u128;
    let q: u128 = num / den;
    let rem: u128 = num % den;
    proof {
        vstd::arithmetic::div_mod::lemma_fundamental_div_mod(num as int, den as int);
        assert(q < 0x400000000000000) by (nonlinear_arith)
            requires
                num < 0x100000000000000000,
                den >= 1024,
                num == den * q + rem,
                rem >= 0,
        ;
    }
    let t128: u128 = if 2 * rem < den {
        q
    } else if 2 * rem > den {
        q + 1
    } else if q % 2 == 0 {
        q
    } else {
        q + 1
    };
    let t: u64 = t128 as u64;
    assert(t == spec_round_half_even(10 * bytes, spec_pow1024(k as nat)));
    let mut s = u64_to_string(t / 10);
    push_char(&mut s, '.');
    push_char(&mut s, digit_to_char(t % 10));
    if k == 1 {
        s.append(" KB");
    } else if k == 2 {
        s.append(" MB");
    } else if k == 3 {
        s.append(" GB");
    } else {
        s.append(" TB");
    }
    assert(s@ =~= spec_format_bytes(bytes));
    s
}

} // verus!
