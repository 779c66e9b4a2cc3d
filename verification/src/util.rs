//! Small utilities: identifier generation from the clock.

use vstd::prelude::*;
use vstd::string::*;
use crate::text;
use crate::text::hex_of;

verus! {

/// Relies on `std::time::SystemTime::now` and
/// `Duration::as_nanos`: nanoseconds since the Unix epoch, truncated to 64
/// bits. Nothing is promised of the value.
#[verifier::external_body]
fn now_nanos() -> u64 {
    std::time::SystemTime::now().duration_since(std::time::UNIX_EPOCH).unwrap_or_default()
        .as_nanos() as u64
}

/// A fresh identifier: the current clock reading in lower-case hexadecimal.
/// Distinctness is best-effort; the contract promises only the shape.
pub fn random_id() -> (r: String)
    ensures
        exists|n: int| 0 <= n <= u64::MAX && r@ == hex_of(n),
{
    let n = now_nanos();
    let r = text::u64_to_hex_string(n);
    proof {
        assert(0 <= n as int <= u64::MAX && r@ == hex_of(n as int));
    }
    r
}

} // verus!
