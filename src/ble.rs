//! Decisions of the BLE scanner: which advertisements belong to this
//! protocol, how often one device is looked at, and the id it gets.

use vstd::prelude::*;
use crate::keyed::KeyedVec;
use crate::text::{
    contains_text, has_prefix, hex_char, hex_piece, is_prefix_of, occurs_in, remove_char,
    without_char,
};

verus! {

/// Milliseconds during which a device that was just looked at is skipped.
pub const BLE_CACHE_TTL_MS: u64 = 1000;

/// The 32 lower-case hex digits of `v`, most significant first.
pub open spec fn uuid_hex(v: u128) -> Seq<char> {
    Seq::new(32, |i: int| hex_char((v >> (4 * (31 - i)) as u128) & 15))
}

/// The hyphenated text of the UUID whose 128 bits are `v`: hex digits in
/// groups of 8, 4, 4, 4 and 12.
pub open spec fn uuid_text(v: u128) -> Seq<char> {
    let h = uuid_hex(v);
    h.subrange(0, 8) + "-"@ + h.subrange(8, 12) + "-"@ + h.subrange(12, 16) + "-"@ + h.subrange(
        16,
        20,
    ) + "-"@ + h.subrange(20, 32)
}

/// The hyphenated lower-case text of the UUID whose 128 bits are `v`.
pub fn uuid_hyphenated(v: u128) -> (r: String)
    ensures
        r@ == uuid_text(v),
{
    let mut h = String::new();
    let mut i: usize = 0;
    while i < 32
        invariant
            i <= 32,
            h@ == uuid_hex(v).subrange(0, i as int),
        decreases 32 - i,
    {
        let shift: u128 = 4 * (31 - i as u128);
        let d: u128 = (v >> shift) & 15;
        assert(d < 16) by (bit_vector)
            requires
                d == (v >> shift) & 15,
        ;
        h.append(hex_piece(d));
        i = i + 1;
        assert(h@ =~= uuid_hex(v).subrange(0, i as int));
    }
    assert(uuid_hex(v).subrange(0, 32) =~= uuid_hex(v));
    let hs = h.as_str();
    let r = String::from_str(hs.substring_char(0, 8)).concat("-").concat(
        hs.substring_char(8, 12),
    ).concat("-").concat(hs.substring_char(12, 16)).concat("-").concat(
        hs.substring_char(16, 20),
    ).concat("-").concat(hs.substring_char(20, 32));
    r
}

/// The advertised name marks a device of this protocol, or the text of one
/// of the advertised service UUIDs holds the protocol's mark.
pub open spec fn is_target_spec(name: Seq<char>, services: Seq<u128>) -> bool {
    is_prefix_of("DT-"@, name) || exists|i: int|
        0 <= i < services.len() && occurs_in("d7ea"@, uuid_text(#[trigger] services[i]))
}

/// The texts of a list of strings.
pub open spec fn texts_of(v: Seq<String>) -> Seq<Seq<char>> {
    v.map_values(|s: String| s@)
}

/// Whether a device with this advertised name and these service UUIDs (as
/// their 128 bits) is a device of this protocol.
pub fn is_target_device(name: &str, services: &[u128]) -> (r: bool)
    ensures
        r == is_target_spec(name@, services@),
{
    if has_prefix(name, "DT-") {
        return true;
    }
    let n = services.len();
    let mut i: usize = 0;
    while i < n
        invariant
            n == services@.len(),
            i <= n,
            !is_prefix_of("DT-"@, name@),
            forall|j: int| 0 <= j < i ==> !occurs_in("d7ea"@, uuid_text(#[trigger] services@[j])),
        decreases n - i,
    {
        let text = uuid_hyphenated(services[i]);
        if contains_text(text.as_str(), "d7ea") {
            return true;
        }
        i = i + 1;
    }
    false
}

/// The id and the display name of a device: its advertised name when it
/// has one, else an id made of its MAC address without colons.
pub open spec fn ble_identity_spec(local_name: Option<String>, mac: Seq<char>) -> (
    Seq<char>,
    Seq<char>,
) {
    match local_name {
        Some(n) => (n@, n@),
        None => ("ble-"@ + without_char(mac, ':'), "iPad/iPhone (DropTea)"@),
    }
}

/// The id and the display name under which a BLE device is reported.
pub fn ble_identity(local_name: Option<String>, mac: &str) -> (r: (String, String))
    ensures
        (r.0@, r.1@) == ble_identity_spec(local_name, mac@),
{
    match local_name {
        Some(name) => {
            let display = name.clone();
            (name, display)
        },
        None => {
            let id = String::from_str("ble-").concat(remove_char(mac, ':').as_str());
            (id, String::from_str("iPad/iPhone (DropTea)"))
        },
    }
}

/// `t` is a look at a device recent enough, at time `now`, to skip another.
pub open spec fn is_recent(t: u64, now: u64) -> bool {
    now < t || now - t < BLE_CACHE_TTL_MS
}

/// When each device was last looked at, keyed by device id.
pub struct BleThrottle {
    pub seen: KeyedVec<u64>,
}

impl BleThrottle {
    pub open spec fn wf(&self) -> bool {
        self.seen.wf()
    }

    pub open spec fn view(&self) -> Map<Seq<char>, u64> {
        self.seen@
    }

    /// Nothing looked at yet.
    pub fn new() -> (r: Self)
        ensures
            r.wf(),
            r@ == Map::<Seq<char>, u64>::empty(),
    {
        BleThrottle { seen: KeyedVec::new() }
    }

    /// Whether device `id` is to be looked at now. A device looked at less
    /// than a second ago is skipped; otherwise the time of this look is kept.
    pub fn should_process(&mut self, id: &str, now: u64) -> (r: bool)
        requires
            old(self).wf(),
        ensures
            final(self).wf(),
            r == !(old(self)@.contains_key(id@) && is_recent(old(self)@[id@], now)),
            r ==> final(self)@ == old(self)@.insert(id@, now),
            !r ==> final(self)@ == old(self)@,
    {
        match self.seen.get(id) {
            Some(t) => {
                let t = *t;
                if now < t || now - t < BLE_CACHE_TTL_MS {
                    return false;
                }
            },
            None => {},
        }
        self.seen.insert(String::from_str(id), now);
        true
    }
}

} // verus!
