//! Decisions of the BLE greeting: which cached device is the target, how
//! long to rescan, and how often to try to connect.

use vstd::prelude::*;
use crate::text::text_eq;

verus! {

/// Attempts to connect before giving up.
pub const CONNECT_ATTEMPTS: u32 = 3;
/// Milliseconds between two connection attempts, and between two looks
/// during a rescan.
pub const RETRY_PAUSE_MS: u64 = 500;
/// Seconds a rescan may take.
pub const RESCAN_LIMIT_SECS: u64 = 5;

/// The greeting.
pub open spec fn greeting() -> Seq<char> {
    "Hello DropTea"@
}

/// The index of the first device whose address text is `mac`.
pub fn find_device(addresses: &Vec<String>, mac: &str) -> (r: Option<usize>)
    ensures
        match r {
            Some(i) => i < addresses@.len() && addresses@[i as int]@ == mac@ && forall|j: int|
                0 <= j < i ==> addresses@[j]@ != mac@,
            None => forall|j: int| 0 <= j < addresses@.len() ==> addresses@[j]@ != mac@,
        },
{
    let n = addresses.len();
    let mut i: usize = 0;
    while i < n
        invariant
            n == addresses@.len(),
            i <= n,
            forall|j: int| 0 <= j < i ==> addresses@[j]@ != mac@,
        decreases n - i,
    {
        if text_eq(addresses[i].as_str(), mac) {
            return Some(i);
        }
        i = i + 1;
    }
    None
}

/// Whether another connection attempt follows `attempts_made` failed ones.
pub fn retry_connect(attempts_made: u32) -> (r: bool)
    ensures
        r == (attempts_made < CONNECT_ATTEMPTS),
{
    attempts_made < CONNECT_ATTEMPTS
}

/// Whether a rescan that has run `elapsed_secs` is over.
pub fn rescan_over(elapsed_secs: u64) -> (r: bool)
    ensures
        r == (elapsed_secs > RESCAN_LIMIT_SECS),
{
    elapsed_secs > RESCAN_LIMIT_SECS
}

/// The bytes of the greeting.
pub fn greeting_bytes() -> (r: Vec<u8>)
    ensures
        r@.len() == greeting().len(),
        forall|i: int| 0 <= i < r@.len() ==> r@[i] as char == #[trigger] greeting()[i],
{
    proof {
        reveal_strlit("Hello DropTea");
    }
    let s = "Hello DropTea";
    let n = s.unicode_len();
    let mut out: Vec<u8> = Vec::new();
    let mut i: usize = 0;
    while i < n
        invariant
            n == s@.len(),
            s@ == greeting(),
            vstd::string::is_ascii(s),
            i <= n,
            out@.len() == i,
            forall|j: int| 0 <= j < i ==> out@[j] as char == #[trigger] s@[j],
        decreases n - i,
    {
        out.push(s.get_ascii(i));
        i = i + 1;
    }
    out
}

} // verus!
