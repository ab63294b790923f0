//! Wire records of the transfer protocol: the ACK frame, the header frame,
//! and the decisions that the sender and the receiver take around them.

use vstd::prelude::*;
use crate::compression::{algo_name, choose_sender_algo, sender_algo, CompressionAlgo};
use crate::notification::UserResponse;
use crate::utils::{file_name_of, path_file_name};

verus! {

/// Length in bytes of an ACK frame: one status byte and a little-endian `u64` offset.
pub const ACK_SIZE: usize = 9;

/// The byte of `v` at little-endian position `k` (0 is the least significant).
pub open spec fn le_byte(v: u64, k: u64) -> u8 {
    (v >> (8 * k)) as u8
}

/// The eight little-endian bytes of `v`.
pub open spec fn le_u64(v: u64) -> Seq<u8> {
    seq![
        le_byte(v, 0), le_byte(v, 1), le_byte(v, 2), le_byte(v, 3),
        le_byte(v, 4), le_byte(v, 5), le_byte(v, 6), le_byte(v, 7),
    ]
}

/// The `u64` whose little-endian bytes are `b[0..8]`.
pub open spec fn from_le_u64(b: Seq<u8>) -> u64
    recommends
        b.len() >= 8,
{
    (b[0] as u64) | ((b[1] as u64) << 8) | ((b[2] as u64) << 16) | ((b[3] as u64) << 24)
        | ((b[4] as u64) << 32) | ((b[5] as u64) << 40) | ((b[6] as u64) << 48) | ((b[7]
        as u64) << 56)
}

/// The ACK frame for `status` and `offset`.
pub open spec fn ack_frame(status: u8, offset: u64) -> Seq<u8> {
    seq![status] + le_u64(offset)
}

/// Why an ACK frame could not be read.
#[derive(Debug, Clone, Copy, PartialEq, Eq, Structural)]
pub enum AckError {
    /// Fewer than nine bytes were given.
    TooShort,
}

/// Encodes an ACK frame: the status byte, then the offset in little-endian order.
pub fn pack_ack(status: u8, offset: u64) -> (r: Vec<u8>)
    ensures
        r@ == ack_frame(status, offset),
        r@.len() == ACK_SIZE,
{
    let mut buf: Vec<u8> = Vec::with_capacity(ACK_SIZE);
    buf.push(status);
    let mut k: u64 = 0;
    while k < 8
        invariant
            k <= 8,
            buf@.len() == 1 + k,
            buf@[0] == status,
            forall|j: int| 1 <= j <= k ==> #[trigger] buf@[j] == le_byte(offset, (j - 1) as u64),
        decreases 8 - k,
    {
        buf.push((offset >> (8 * k)) as u8);
        k = k + 1;
    }
    assert(buf@ =~= ack_frame(status, offset));
    buf
}

/// Decodes an ACK frame from the first nine bytes of `data`.
pub fn unpack_ack(data: &[u8]) -> (r: Result<(u8, u64), AckError>)
    ensures
        data@.len() < ACK_SIZE <==> r is Err,
        r is Ok ==> r->Ok_0 == (data@[0], from_le_u64(data@.subrange(1, 9))),
{
    if data.len() < ACK_SIZE {
        return Err(AckError::TooShort);
    }
    let offset: u64 = (data[1] as u64) | ((data[2] as u64) << 8) | ((data[3] as u64) << 16)
        | ((data[4] as u64) << 24) | ((data[5] as u64) << 32) | ((data[6] as u64) << 40)
        | ((data[7] as u64) << 48) | ((data[8] as u64) << 56);
    proof {
        let tail = data@.subrange(1, 9);
        assert(tail[0] == data@[1] && tail[1] == data@[2] && tail[2] == data@[3]);
        assert(tail[3] == data@[4] && tail[4] == data@[5] && tail[5] == data@[6]);
        assert(tail[6] == data@[7] && tail[7] == data@[8]);
    }
    Ok((data[0], offset))
}

/// Reading back the eight little-endian bytes of `v` gives `v`.
pub proof fn lemma_le_u64_round_trip(v: u64)
    ensures
        from_le_u64(le_u64(v)) == v,
{
    let b = le_u64(v);
    assert(b[0] == (v >> 0u64) as u8 && b[1] == (v >> 8u64) as u8 && b[2] == (v >> 16u64) as u8
        && b[3] == (v >> 24u64) as u8);
    assert(b[4] == (v >> 32u64) as u8 && b[5] == (v >> 40u64) as u8 && b[6] == (v >> 48u64) as u8
        && b[7] == (v >> 56u64) as u8);
    assert((((v >> 0u64) as u8) as u64) | ((((v >> 8u64) as u8) as u64) << 8u64) | ((((v
        >> 16u64) as u8) as u64) << 16u64) | ((((v >> 24u64) as u8) as u64) << 24u64) | ((((v
        >> 32u64) as u8) as u64) << 32u64) | ((((v >> 40u64) as u8) as u64) << 40u64) | ((((v
        >> 48u64) as u8) as u64) << 48u64) | ((((v >> 56u64) as u8) as u64) << 56u64) == v)
        by (bit_vector);
}

/// Decoding an encoded ACK frame gives back its status and offset, for every
/// status byte and every offset.
pub proof fn lemma_ack_round_trip(status: u8, offset: u64)
    ensures
        ack_frame(status, offset).len() == ACK_SIZE,
        ack_frame(status, offset)[0] == status,
        from_le_u64(ack_frame(status, offset).subrange(1, 9)) == offset,
{
    lemma_le_u64_round_trip(offset);
    assert(ack_frame(status, offset).subrange(1, 9) =~= le_u64(offset));
}

/// Largest header, in bytes, that a receiver reads.
pub const MAX_HEADER_SIZE: usize = 65536;
/// Seconds that one read or write of a transfer may take.
pub const IO_TIMEOUT_SECS: u64 = 60;
/// Seconds that a sender waits for the ACK, and a receiver for the user.
pub const USER_DECISION_TIMEOUT_SECS: u64 = 120;
/// Least milliseconds between two progress notifications.
pub const NOTIFY_INTERVAL_MS: u64 = 100;
/// Least progress in bytes between two progress notifications.
pub const NOTIFY_STEP_BYTES: u64 = 1048576;
/// Size of one chunk of the copy pipeline.
pub const PIPELINE_BUFFER_SIZE: usize = 4194304;
/// Chunks in flight in the copy pipeline.
pub const CHANNEL_CAPACITY: usize = 32;

/// The user's verdict on a peer certificate.
#[derive(Debug, Clone, Copy, PartialEq, Eq, Structural)]
pub enum CertificateAction {
    Accept,
    Reject,
}

/// The record a sender puts in front of a file.
pub struct FileHeader {
    pub filename: String,
    pub filesize: u64,
    pub sender_name: String,
    pub sender_device: String,
    pub compression: Option<String>,
}

/// What the host is told of a transfer, and asked about it.
pub trait TransferCallback {
    fn on_start(&self, task_id: &str, filename: &str);

    fn on_progress(&self, task_id: &str, current: u64, total: u64);

    fn on_complete(&self, task_id: &str, info: &str);

    fn on_error(&self, task_id: &str, error: &str);

    fn on_reject(&self, task_id: &str, reason: &str);

    fn on_peer_found(
        &self,
        id: &str,
        name: &str,
        ip: &str,
        port: u16,
        ssid: Option<&str>,
        transport: &str,
    );

    fn on_peer_lost(&self, id: &str);

    fn ask_accept_file(
        &self,
        task_id: &str,
        filename: &str,
        filesize: u64,
        sender_name: &str,
        sender_device: &str,
    ) -> Result<bool, String>;

    fn ask_verify_certificate(
        &self,
        peer_id: &str,
        fingerprint: &str,
        filename: Option<&str>,
    ) -> Result<CertificateAction, String>;
}

/// Why a header frame cannot be read or written.
#[derive(Debug, Clone, Copy, PartialEq, Eq, Structural)]
pub enum FrameError {
    /// The stream ended before the four length bytes: a ghost connection.
    Truncated,
    /// The header is longer than `MAX_HEADER_SIZE`.
    TooLarge,
}

/// The four little-endian bytes of `v`.
pub open spec fn le_u32(v: u32) -> Seq<u8> {
    seq![v as u8, (v >> 8u32) as u8, (v >> 16u32) as u8, (v >> 24u32) as u8]
}

/// The `u32` whose little-endian bytes are `b[0..4]`.
pub open spec fn from_le_u32(b: Seq<u8>) -> u32
    recommends
        b.len() >= 4,
{
    (b[0] as u32) | ((b[1] as u32) << 8u32) | ((b[2] as u32) << 16u32) | ((b[3] as u32) << 24u32)
}

/// The length of the header that the first four bytes of a frame announce.
pub fn read_header_len(prefix: &[u8]) -> (r: Result<usize, FrameError>)
    ensures
        prefix@.len() < 4 <==> r == Err::<usize, FrameError>(FrameError::Truncated),
        prefix@.len() >= 4 ==> (r == Err::<usize, FrameError>(FrameError::TooLarge) <==> from_le_u32(
            prefix@,
        ) > MAX_HEADER_SIZE),
        r is Ok ==> r->Ok_0 == from_le_u32(prefix@) as usize,
{
    if prefix.len() < 4 {
        return Err(FrameError::Truncated);
    }
    let n: u32 = (prefix[0] as u32) | ((prefix[1] as u32) << 8u32) | ((prefix[2] as u32) << 16u32)
        | ((prefix[3] as u32) << 24u32);
    if n as usize > MAX_HEADER_SIZE {
        return Err(FrameError::TooLarge);
    }
    Ok(n as usize)
}

/// The frame of a header: its length in four little-endian bytes, then its bytes.
pub fn frame_header(json: &Vec<u8>) -> (r: Result<Vec<u8>, FrameError>)
    ensures
        json@.len() > MAX_HEADER_SIZE <==> r is Err,
        r is Err ==> r == Err::<Vec<u8>, FrameError>(FrameError::TooLarge),
        r is Ok ==> r->Ok_0@ == le_u32(json@.len() as u32) + json@,
{
    if json.len() > MAX_HEADER_SIZE {
        return Err(FrameError::TooLarge);
    }
    let n = json.len() as u32;
    let mut out: Vec<u8> = Vec::with_capacity(json.len() + 4);
    out.push(n as u8);
    out.push((n >> 8u32) as u8);
    out.push((n >> 16u32) as u8);
    out.push((n >> 24u32) as u8);
    let mut i: usize = 0;
    while i < json.len()
        invariant
            out@ == le_u32(n) + json@.subrange(0, i as int),
            i <= json@.len(),
        decreases json@.len() - i,
    {
        out.push(json[i]);
        i = i + 1;
        assert(out@ =~= le_u32(n) + json@.subrange(0, i as int));
    }
    assert(json@.subrange(0, json@.len() as int) =~= json@);
    Ok(out)
}

/// Reading back the four little-endian bytes of `v` gives `v`.
pub proof fn lemma_le_u32_round_trip(v: u32)
    ensures
        from_le_u32(le_u32(v)) == v,
{
    assert(((v as u8) as u32) | ((((v >> 8u32) as u8) as u32) << 8u32) | ((((v >> 16u32) as u8)
        as u32) << 16u32) | ((((v >> 24u32) as u8) as u32) << 24u32) == v) by (bit_vector);
}

/// A framed header announces its own length: what `read_header_len` reads
/// from the first four bytes of a frame is the length of the header in it.
pub proof fn lemma_header_frame_round_trip(json: Seq<u8>)
    requires
        json.len() <= MAX_HEADER_SIZE,
    ensures
        from_le_u32((le_u32(json.len() as u32) + json).subrange(0, 4)) == json.len(),
        (le_u32(json.len() as u32) + json).subrange(4, json.len() + 4int) == json,
{
    let f = le_u32(json.len() as u32) + json;
    lemma_le_u32_round_trip(json.len() as u32);
    assert(f.subrange(0, 4) =~= le_u32(json.len() as u32));
    assert(f.subrange(4, json.len() + 4int) =~= json);
}

/// What a receiver does with a header it has read.
#[derive(Debug, Clone, Copy, PartialEq, Eq, Structural)]
pub enum Admission {
    /// No inbound permit is free: reject with "System Busy".
    Busy,
    /// The sender is trusted: accept without asking.
    AutoAccept,
    /// Ask the user, and wait for the answer.
    AskUser,
}

/// What a receiver does with a header: busy when no permit was free, else
/// accept a trusted sender and ask the user about any other.
pub fn admission(permit_acquired: bool, sender_trusted: bool) -> (r: Admission)
    ensures
        r == (if !permit_acquired {
            Admission::Busy
        } else if sender_trusted {
            Admission::AutoAccept
        } else {
            Admission::AskUser
        }),
{
    if !permit_acquired {
        Admission::Busy
    } else if sender_trusted {
        Admission::AutoAccept
    } else {
        Admission::AskUser
    }
}

/// Whether the user's answer, if one came in time, accepts the file.
pub fn user_accepted(response: Option<UserResponse>) -> (r: bool)
    ensures
        r == (response == Some(UserResponse::Accept)),
{
    match response {
        Some(UserResponse::Accept) => true,
        _ => false,
    }
}

/// The path that an incoming file is written to before it is complete.
pub fn part_path(final_path: &str) -> (r: String)
    ensures
        r@ == final_path@ + ".part"@,
{
    String::from_str(final_path).concat(".part")
}

/// What a sender does once the ACK has been awaited.
pub enum SenderStep {
    /// Stream the body.
    Stream,
    /// Stop, and report the reason as a rejection.
    Reject { reason: String },
}

/// What a sender does with the ACK bytes it read, or with none when no
/// complete ACK came in time: stream on a non-zero status, else report why not.
pub fn sender_step(ack: Option<&[u8]>) -> (r: SenderStep)
    ensures
        match ack {
            None => r matches SenderStep::Reject { reason } && reason@ == "Timeout"@,
            Some(a) => if a@.len() < ACK_SIZE {
                r matches SenderStep::Reject { reason } && reason@ == "Timeout"@
            } else if a@[0] == 0 {
                r matches SenderStep::Reject { reason } && reason@ == "Receiver Rejected"@
            } else {
                r is Stream
            },
        },
{
    match ack {
        None => SenderStep::Reject { reason: String::from_str("Timeout") },
        Some(a) => match unpack_ack(a) {
            Err(_) => SenderStep::Reject { reason: String::from_str("Timeout") },
            Ok((status, _)) => if status == 0 {
                SenderStep::Reject { reason: String::from_str("Receiver Rejected") }
            } else {
                SenderStep::Stream
            },
        },
    }
}

/// Progress of one copy: bytes written, the total expected, and the last
/// notification (bytes and clock reading in milliseconds).
pub struct Progress {
    pub uploaded: u64,
    pub total: u64,
    pub last_reported: u64,
    pub last_time_ms: u64,
}

/// A notification is due after `uploaded` bytes at time `now`: at least a
/// step of progress and an interval of time since the last one, or the end.
pub open spec fn notify_due(p: Progress, uploaded: u64, now: u64) -> bool {
    (uploaded - p.last_reported >= NOTIFY_STEP_BYTES && now >= p.last_time_ms && now
        - p.last_time_ms >= NOTIFY_INTERVAL_MS) || uploaded == p.total
}

impl Progress {
    /// Nothing written yet, at time `now`.
    pub fn new(total: u64, now: u64) -> (r: Self)
        ensures
            r == (Progress { uploaded: 0, total, last_reported: 0, last_time_ms: now }),
    {
        Progress { uploaded: 0, total, last_reported: 0, last_time_ms: now }
    }

    /// Counts `n` more bytes written at time `now`, and gives the
    /// notification `(current, total)` when one is due.
    pub fn record(&mut self, n: u64, now: u64) -> (r: Option<(u64, u64)>)
        requires
            old(self).last_reported <= old(self).uploaded,
            old(self).uploaded + n <= u64::MAX,
        ensures
            final(self).uploaded == old(self).uploaded + n,
            final(self).total == old(self).total,
            final(self).last_reported <= final(self).uploaded,
            notify_due(*old(self), (old(self).uploaded + n) as u64, now) ==> {
                &&& r == Some(((old(self).uploaded + n) as u64, old(self).total))
                &&& final(self).last_reported == final(self).uploaded
                &&& final(self).last_time_ms == now
            },
            r matches Some((c, t)) ==> {
                &&& t == old(self).total
                &&& (n > 0 ==> c > old(self).last_reported)
                &&& (old(self).uploaded + n <= old(self).total ==> c <= old(self).total)
            },
            old(self).uploaded + n == old(self).total ==> r == Some(
                (old(self).total, old(self).total),
            ),
            !notify_due(*old(self), (old(self).uploaded + n) as u64, now) ==> {
                &&& r is None
                &&& final(self).last_reported == old(self).last_reported
                &&& final(self).last_time_ms == old(self).last_time_ms
            },
    {
        self.uploaded = self.uploaded + n;
        let stepped = self.uploaded - self.last_reported >= NOTIFY_STEP_BYTES;
        let waited = now >= self.last_time_ms && now - self.last_time_ms >= NOTIFY_INTERVAL_MS;
        if (stepped && waited) || self.uploaded == self.total {
            self.last_reported = self.uploaded;
            self.last_time_ms = now;
            Some((self.uploaded, self.total))
        } else {
            None
        }
    }
}

/// The header a sender puts in front of the file at `path` of `filesize`
/// bytes, with the codec it chose for `target_os`; nothing when the path
/// names no file.
pub fn outgoing_header(
    path: &str,
    filesize: u64,
    sender_name: String,
    sender_device: String,
    target_os: Option<&str>,
) -> (r: Option<(FileHeader, CompressionAlgo)>)
    ensures
        r is None <==> path_file_name(path@) is None,
        r matches Some((h, a)) ==> {
            &&& Some(h.filename@) == path_file_name(path@)
            &&& h.filesize == filesize
            &&& h.sender_name == sender_name
            &&& h.sender_device == sender_device
            &&& a == sender_algo(
                match target_os {
                    Some(t) => Some(t@),
                    None => None,
                },
            )
            &&& h.compression matches Some(c) && c@ == algo_name(a)
        },
{
    let filename = match file_name_of(path) {
        Some(n) => n,
        None => return None,
    };
    let algo = choose_sender_algo(target_os);
    let header = FileHeader {
        filename,
        filesize,
        sender_name,
        sender_device,
        compression: Some(String::from_str(algo.as_str())),
    };
    Some((header, algo))
}

} // verus!
