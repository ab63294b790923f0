//! Settings of the transports, and the pool of QUIC connections that
//! transfers to one address share.

use vstd::prelude::*;
use crate::keyed::KeyedVec;

verus! {

/// Settings of the QUIC transport.
pub struct QuicConfig {
    pub stream_window_size: u64,
    pub connection_window_size: u64,
    pub max_concurrent_streams: u32,
    pub keep_alive_interval_secs: u64,
    pub max_idle_timeout_secs: u64,
}

impl Default for QuicConfig {
    /// 32 MiB per stream, 128 MiB per connection, 1000 streams of each kind,
    /// keep-alive every 5 s, idle timeout after 60 s.
    fn default() -> (r: Self)
        ensures
            r.stream_window_size == 33554432,
            r.connection_window_size == 134217728,
            r.max_concurrent_streams == 1000,
            r.keep_alive_interval_secs == 5,
            r.max_idle_timeout_secs == 60,
    {
        QuicConfig {
            stream_window_size: 33554432,
            connection_window_size: 134217728,
            max_concurrent_streams: 1000,
            keep_alive_interval_secs: 5,
            max_idle_timeout_secs: 60,
        }
    }
}

/// Settings of the TLS-over-TCP transport.
pub struct TcpConfig {
    pub nodelay: bool,
    pub keepalive_secs: Option<u64>,
    pub socket_buffer_size: usize,
}

impl Default for TcpConfig {
    /// No Nagle delay, keep-alive after 60 s, 2 MiB socket buffers.
    fn default() -> (r: Self)
        ensures
            r.nodelay,
            r.keepalive_secs == Some(60u64),
            r.socket_buffer_size == 2097152,
    {
        TcpConfig { nodelay: true, keepalive_secs: Some(60), socket_buffer_size: 2097152 }
    }
}

/// Live connections keyed by remote address, one per address.
pub struct ConnectionPool<C> {
    pub connections: KeyedVec<C>,
}

impl<C> ConnectionPool<C> {
    pub open spec fn wf(&self) -> bool {
        self.connections.wf()
    }

    pub open spec fn view(&self) -> Map<Seq<char>, C> {
        self.connections@
    }

    /// An empty pool.
    pub fn new() -> (r: Self)
        ensures
            r.wf(),
            r@ == Map::<Seq<char>, C>::empty(),
    {
        ConnectionPool { connections: KeyedVec::new() }
    }

    /// The pooled connection to `addr`; the caller checks that it is live.
    pub fn get(&self, addr: &str) -> (r: Option<&C>)
        requires
            self.wf(),
        ensures
            r is None <==> !self@.contains_key(addr@),
            r is Some ==> *r->0 == self@[addr@],
    {
        self.connections.get(addr)
    }

    /// Settles a connection dialled to `addr` outside any lock: when a live
    /// one was pooled meanwhile (`pooled_live`), the pool keeps it and the
    /// fresh one is handed back to be dropped; otherwise the fresh one takes
    /// the place of whatever was there.
    pub fn settle(&mut self, addr: String, fresh: C, pooled_live: bool) -> (r: Option<C>)
        requires
            old(self).wf(),
        ensures
            final(self).wf(),
            final(self)@.dom() == old(self)@.dom().insert(addr@),
            pooled_live && old(self)@.contains_key(addr@) ==> {
                &&& final(self)@ == old(self)@
                &&& r == Some(fresh)
            },
            !(pooled_live && old(self)@.contains_key(addr@)) ==> {
                &&& final(self)@ == old(self)@.insert(addr@, fresh)
                &&& r is None
            },
    {
        if pooled_live && self.connections.contains(addr.as_str()) {
            return Some(fresh);
        }
        self.connections.insert(addr, fresh);
        None
    }

    /// Drops the connection to `addr`, as when it reports a close reason.
    pub fn evict(&mut self, addr: &str)
        requires
            old(self).wf(),
        ensures
            final(self).wf(),
            final(self)@ == old(self)@.remove(addr@),
    {
        let _ = self.connections.remove(addr);
    }
}

} // verus!
