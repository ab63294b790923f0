//! The engine's own state: which transport it runs, how many transfers may
//! run at once, and which incoming transfers wait for the user's answer.

use vstd::prelude::*;
use crate::keyed::KeyedVec;
use crate::notification::UserResponse;
use crate::text::{contains_text, has_prefix, is_prefix_of, occurs_in};

verus! {

/// Transfers that may arrive at once.
pub const INBOUND_LIMIT: usize = 5;
/// Transfers that may leave at once.
pub const OUTBOUND_LIMIT: usize = 50;
/// Milliseconds the accept loop waits after a failed accept.
pub const ACCEPT_RETRY_MS: u64 = 50;

/// The transport a node runs.
#[derive(Debug, Clone, Copy, PartialEq, Eq, Structural)]
pub enum TransportMode {
    Tcp,
    Quic,
    PlainTcp,
}

/// What an engine is started with.
pub struct DropTeaConfig {
    pub mode: TransportMode,
    pub port: u16,
    pub storage_path: String,
    pub node_name: String,
    pub dev_mode: bool,
}

/// A counting limit on work that runs at once.
pub struct Limiter {
    pub capacity: usize,
    pub in_use: usize,
}

impl Limiter {
    /// Never more in use than the capacity.
    pub open spec fn wf(&self) -> bool {
        self.in_use <= self.capacity
    }

    /// A limit of `capacity`, none in use.
    pub fn new(capacity: usize) -> (r: Self)
        ensures
            r.wf(),
            r.capacity == capacity,
            r.in_use == 0,
    {
        Limiter { capacity, in_use: 0 }
    }

    /// Takes a permit if one is free, without waiting.
    pub fn try_acquire(&mut self) -> (r: bool)
        requires
            old(self).wf(),
        ensures
            final(self).wf(),
            final(self).capacity == old(self).capacity,
            r == (old(self).in_use < old(self).capacity),
            r ==> final(self).in_use == old(self).in_use + 1,
            !r ==> final(self).in_use == old(self).in_use,
    {
        if self.in_use < self.capacity {
            self.in_use = self.in_use + 1;
            true
        } else {
            false
        }
    }

    /// Gives a permit back.
    pub fn release(&mut self)
        requires
            old(self).wf(),
            old(self).in_use > 0,
        ensures
            final(self).wf(),
            final(self).capacity == old(self).capacity,
            final(self).in_use == old(self).in_use - 1,
    {
        self.in_use = self.in_use - 1;
    }
}

/// The limits of an engine: inbound and outbound transfers.
pub struct TransferLimits {
    pub inbound: Limiter,
    pub outbound: Limiter,
}

impl TransferLimits {
    pub open spec fn wf(&self) -> bool {
        &&& self.inbound.wf()
        &&& self.outbound.wf()
        &&& self.inbound.capacity == INBOUND_LIMIT
        &&& self.outbound.capacity == OUTBOUND_LIMIT
    }

    /// Five inbound and fifty outbound permits, none in use.
    pub fn new() -> (r: Self)
        ensures
            r.wf(),
            r.inbound.in_use == 0,
            r.outbound.in_use == 0,
    {
        TransferLimits { inbound: Limiter::new(INBOUND_LIMIT), outbound: Limiter::new(OUTBOUND_LIMIT) }
    }
}

/// In every state that the limiter's operations reach, at most five
/// transfers come in and at most fifty go out at once.
pub proof fn lemma_transfer_limits(l: TransferLimits)
    requires
        l.wf(),
    ensures
        l.inbound.in_use <= 5,
        l.outbound.in_use <= 50,
{
}

/// Incoming transfers that wait for the user's answer, keyed by task id;
/// `T` is the channel on which the answer is passed on.
pub struct PendingRequests<T> {
    pub waiting: KeyedVec<T>,
}

impl<T> PendingRequests<T> {
    pub open spec fn wf(&self) -> bool {
        self.waiting.wf()
    }

    pub open spec fn view(&self) -> Map<Seq<char>, T> {
        self.waiting@
    }

    /// Nothing waiting.
    pub fn new() -> (r: Self)
        ensures
            r.wf(),
            r@ == Map::<Seq<char>, T>::empty(),
    {
        PendingRequests { waiting: KeyedVec::new() }
    }

    /// Registers the channel of a transfer that waits for the user.
    pub fn register(&mut self, task_id: String, channel: T)
        requires
            old(self).wf(),
        ensures
            final(self).wf(),
            final(self)@ == old(self)@.insert(task_id@, channel),
    {
        self.waiting.insert(task_id, channel);
    }

    /// Drops a waiting transfer without an answer, as when it times out.
    pub fn forget(&mut self, task_id: &str)
        requires
            old(self).wf(),
        ensures
            final(self).wf(),
            final(self)@ == old(self)@.remove(task_id@),
    {
        let _ = self.waiting.remove(task_id);
    }

    /// Takes the waiting transfer `task_id` out and gives its channel with
    /// the answer to pass on; nothing when no such transfer waits.
    pub fn resolve_request(&mut self, task_id: &str, accept: bool) -> (r: Option<(T, UserResponse)>)
        requires
            old(self).wf(),
        ensures
            final(self).wf(),
            final(self)@ == old(self)@.remove(task_id@),
            r is None <==> !old(self)@.contains_key(task_id@),
            r is Some ==> (r->0).0 == old(self)@[task_id@] && (r->0).1 == (if accept {
                UserResponse::Accept
            } else {
                UserResponse::Decline
            }),
    {
        match self.waiting.remove(task_id) {
            Some(ch) => Some((ch, if accept {
                UserResponse::Accept
            } else {
                UserResponse::Decline
            })),
            None => None,
        }
    }
}

/// Resolving a request a second time has no effect: after the first call
/// the task is no longer waiting, so the second finds nothing and removes
/// nothing.
pub proof fn lemma_resolve_idempotent<T>(waiting: Map<Seq<char>, T>, task_id: Seq<char>)
    ensures
        !waiting.remove(task_id).contains_key(task_id),
        waiting.remove(task_id).remove(task_id) == waiting.remove(task_id),
{
    assert(waiting.remove(task_id).remove(task_id) =~= waiting.remove(task_id));
}

/// An IPv6 address text in brackets, unless it has them already.
pub open spec fn dial_host(ip: Seq<char>) -> Seq<char> {
    if occurs_in(":"@, ip) && !is_prefix_of("["@, ip) {
        "["@ + ip + "]"@
    } else {
        ip
    }
}

/// The host text a transfer dials: an IPv6 literal gets brackets.
pub fn bracket_host(ip: &str) -> (r: String)
    ensures
        r@ == dial_host(ip@),
{
    if contains_text(ip, ":") && !has_prefix(ip, "[") {
        String::from_str("[").concat(ip).concat("]")
    } else {
        String::from_str(ip)
    }
}

} // verus!
