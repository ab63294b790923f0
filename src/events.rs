//! What the engine tells its host, as events.

use vstd::prelude::*;
use crate::text::{decimal, decimal_text};

verus! {

/// An event for the host.
pub enum TransferEvent {
    Log { level: String, msg: String },
    ServerStarted { port: u16 },
    Error { task_id: String, error: String },
    Incoming { task_id: String, filename: String },
    Started { task_id: String, msg: String },
    Progress { task_id: String, current: u64, total: u64 },
    Completed { task_id: String, info: String },
    Rejected { task_id: String, reason: String },
    DiscoveryStarted,
    PeerFound {
        id: String,
        name: String,
        ip: String,
        port: u16,
        ssid: Option<String>,
        transport: String,
    },
    PeerLost { id: String },
}

/// A host that receives events.
pub trait TransferEventHandler {
    fn on_event(&self, event: TransferEvent);
}

/// The text of an `Incoming` event: `[[REQUEST]]|name|size|sender|device`.
pub open spec fn request_text(
    filename: Seq<char>,
    size: u64,
    sender: Seq<char>,
    device: Seq<char>,
) -> Seq<char> {
    "[[REQUEST]]|"@ + filename + "|"@ + decimal(size as nat) + "|"@ + sender + "|"@ + device
}

/// The text with which the host is asked to accept a file.
pub fn incoming_request_text(filename: &str, size: u64, sender: &str, device: &str) -> (r: String)
    ensures
        r@ == request_text(filename@, size, sender@, device@),
{
    let digits = decimal_text(size as u128);
    String::from_str("[[REQUEST]]|").concat(filename).concat("|").concat(digits.as_str()).concat(
        "|",
    ).concat(sender).concat("|").concat(device)
}

} // verus!
