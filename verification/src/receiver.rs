//! The receiving side of a transfer, as a state machine: the caller reads
//! each message from the connection, hands it here, and carries out the
//! action that comes back (write bytes to the file, send a reply).

use vstd::prelude::*;
use crate::compression::decompress;
use crate::crypto::aes256gcm_opened;
use crate::crypto::chunk_nonce_of;
use crate::crypto::open_chunk;
use crate::crypto::transfer_key;
use crate::crypto::transfer_key_of;
use crate::compression::zstd_decoded;
use crate::integrity::checksum_text;
use crate::integrity::verify_checksum;
use crate::message::ChunkAck;
use crate::message::ChunkData;
use crate::message::ChunkStatus;
use crate::message::ProtocolMessage;
use crate::message::TransferComplete;
use crate::message::TransferRequest;
use crate::message::TransferResponse;
use crate::parallel::TRANSFER_CHUNK_SIZE;
use crate::chunker::Chunker;
use crate::chunker::chunk_bytes;
use crate::chunker::covered;
use crate::chunker::joined_chunks;
use crate::sender::carries;
use crate::metadata::file_name_or;
use crate::metadata::is_safe_name;
use crate::metadata::is_safe_file_name;
use crate::metadata::is_slash_path;
use crate::metadata::name_or;
use crate::metadata::is_substring;

verus! {

/// The number of parallel connections a receiver offers.
pub const RECEIVER_MAX_CONNECTIONS: u8 = 8;

/// The receiver's answer to a transfer request: accepted exactly when the
/// request carries the receiver's group code (an empty code included).
pub open spec fn is_answer(req: TransferRequest, local_group_code: Seq<char>, resp: TransferResponse) -> bool {
    if req.group_code@ == local_group_code {
        resp == (TransferResponse::Accepted {
            transfer_id: req.transfer_id,
            port: 0,
            max_parallel_connections: RECEIVER_MAX_CONNECTIONS,
        })
    } else {
        resp matches TransferResponse::Rejected { reason } && reason@ == "Invalid group code"@
    }
}

/// The state of one incoming transfer.
#[derive(Clone, Debug, PartialEq, Eq)]
pub struct ReceiverSession {
    /// The transfer, as the request named it.
    pub transfer_id: u128,
    /// The name under which the file is saved.
    pub file_name: String,
    /// The bytes written so far.
    pub total_bytes: u64,
    /// Whether the last chunk has been stored.
    pub finished: bool,
    /// The key the transfer's chunks are sealed under.
    pub key: [u8; 32],
}

/// How a transfer begins.
#[derive(Debug, PartialEq, Eq)]
pub enum SessionStart {
    /// The request was refused; send the response and stop.
    Rejected(TransferResponse),
    /// The request was accepted; send the response and receive chunks.
    Accepted(TransferResponse, ReceiverSession),
}

/// What the receiver does with a message.
#[derive(Debug, PartialEq, Eq)]
pub enum ReceiverAction {
    /// The message is not a chunk: nothing to do.
    Ignore,
    /// The chunk is unusable: send this acknowledgement and go on.
    Reply(ChunkAck),
    /// Write `data` at `offset` of the file, then send `ack`; where `last`,
    /// the transfer is complete.
    Store { offset: u64, data: Vec<u8>, ack: ChunkAck, last: bool },
    /// The chunk's numbers are out of the range the receiver can count:
    /// its offset, the running total or the chunk count cannot be computed.
    OutOfRange,
}

/// The acknowledgement of `chunk` with `status`.
pub open spec fn ack_for(chunk: ChunkData, status: ChunkStatus) -> ChunkAck {
    ChunkAck {
        transfer_id: chunk.transfer_id,
        file_index: chunk.file_index,
        chunk_index: chunk.chunk_index,
        status,
    }
}

/// The offset at which chunk `index` is written.
pub open spec fn receive_offset(index: u64) -> int {
    index * TRANSFER_CHUNK_SIZE
}

/// Whether a chunk whose payload decodes to `len` bytes can be counted:
/// its offset fits in 64 bits, the chunk count is positive and the running
/// total does not overflow.
pub open spec fn chunk_fits(session: ReceiverSession, chunk: ChunkData, len: int) -> bool {
    &&& receive_offset(chunk.chunk_index) <= u64::MAX
    &&& chunk.total_chunks > 0
    &&& session.total_bytes + len <= u64::MAX
}

/// Whether `chunk` is the last of its transfer.
pub open spec fn is_last_chunk(chunk: ChunkData) -> bool {
    chunk.chunk_index >= chunk.total_chunks - 1
}

/// The session after storing a chunk of `len` bytes.
pub open spec fn after_store(session: ReceiverSession, chunk: ChunkData, len: int) -> ReceiverSession {
    ReceiverSession {
        total_bytes: (session.total_bytes + len) as u64,
        finished: is_last_chunk(chunk),
        ..session
    }
}

/// One step of the receiver on a chunk: a payload that does not open under
/// the transfer's key, does not decompress, or whose checksum does not
/// match is acknowledged as corrupted and not stored; otherwise its opened,
/// decompressed bytes are written at the chunk's offset and acknowledged as
/// received.
#[verifier::opaque]
pub open spec fn chunk_step(
    old: ReceiverSession,
    chunk: ChunkData,
    new: ReceiverSession,
    action: ReceiverAction,
) -> bool {
    match aes256gcm_opened(old.key@, chunk_nonce_of(chunk.chunk_index), chunk.data@) {
        None => new == old && action == ReceiverAction::Reply(
            ack_for(chunk, ChunkStatus::Corrupted),
        ),
        Some(frame) => chunk_step_opened(old, chunk, frame, new, action),
    }
}

/// The receiver's step on a chunk whose payload opened to `frame`.
pub open spec fn chunk_step_opened(
    old: ReceiverSession,
    chunk: ChunkData,
    frame: Seq<u8>,
    new: ReceiverSession,
    action: ReceiverAction,
) -> bool {
    match zstd_decoded(frame) {
        None => new == old && action == ReceiverAction::Reply(
            ack_for(chunk, ChunkStatus::Corrupted),
        ),
        Some(plain) => if checksum_text(chunk.data@) != chunk.checksum@ {
            new == old && action == ReceiverAction::Reply(ack_for(chunk, ChunkStatus::Corrupted))
        } else if !chunk_fits(old, chunk, plain.len() as int) {
            new == old && action == ReceiverAction::OutOfRange
        } else {
            &&& new == after_store(old, chunk, plain.len() as int)
            &&& action matches ReceiverAction::Store { offset, data, ack, last }
            &&& offset == receive_offset(chunk.chunk_index)
            &&& data@ == plain
            &&& ack == ack_for(chunk, ChunkStatus::Received)
            &&& last == is_last_chunk(chunk)
        },
    }
}

/// The name under which the first file of a request is saved: the last
/// component of its path, or `received_file` where it has none or where
/// that component is not a safe name on every platform. The name is always
/// safe, so the file is saved inside the folder it is joined to.
pub fn received_file_name(files: &Vec<String>) -> (name: String)
    ensures
        is_safe_name(name@),
        files.len() == 0 ==> name@ == "received_file"@,
        files.len() > 0 ==> name@ == "received_file"@ || is_substring(name@, files[0]@),
        files.len() > 0 && is_slash_path(files[0]@) ==> name@ == name_or(
            files[0]@,
            "received_file"@,
        ),
{
    proof {
        reveal_strlit("received_file");
        assert(!"received_file"@.contains('/') && !"received_file"@.contains('\\')
            && !"received_file"@.contains(':')) by {
            assert forall|i: int| 0 <= i < "received_file"@.len() implies "received_file"@[i]
                != '/' && "received_file"@[i] != '\\' && "received_file"@[i] != ':' by {}
        }
        assert("received_file"@ != seq!['.']) by {
            assert("received_file"@.len() != 1);
        }
        assert("received_file"@ != seq!['.', '.']) by {
            assert("received_file"@.len() != 2);
        }
    }
    if files.len() > 0 {
        let name = file_name_or(files[0].as_str(), "received_file");
        proof {
            if is_slash_path(files[0]@) {
                crate::metadata::lemma_last_component_is_safe(files[0]@);
            }
        }
        if is_safe_file_name(name.as_str()) {
            return name;
        }
    }
    String::from_str("received_file")
}

/// The receiver's answer to a transfer request.
pub fn answer_request(req: &TransferRequest, local_group_code: &str) -> (resp: TransferResponse)
    ensures
        is_answer(*req, local_group_code@, resp),
{
    if crate::text::str_equal(req.group_code.as_str(), local_group_code) {
        TransferResponse::Accepted {
            transfer_id: req.transfer_id,
            port: 0,
            max_parallel_connections: RECEIVER_MAX_CONNECTIONS,
        }
    } else {
        TransferResponse::Rejected { reason: String::from_str("Invalid group code") }
    }
}

/// Starts an incoming transfer from its first message, which must be a
/// transfer request; a request with another group code is rejected.
pub fn start_session(first: &ProtocolMessage, local_group_code: &str) -> (r: Result<
    SessionStart,
    String,
>)
    ensures
        first !is TransferRequest ==> (r matches Err(e) && e@ == "Expected TransferRequest"@),
        first matches ProtocolMessage::TransferRequest(req) ==> {
            &&& r is Ok
            &&& req.group_code@ != local_group_code@ ==> (r matches Ok(SessionStart::Rejected(resp))
                && is_answer(*req, local_group_code@, resp))
            &&& req.group_code@ == local_group_code@ ==> (r matches Ok(
                SessionStart::Accepted(resp, session),
            ) && is_answer(*req, local_group_code@, resp) && session.key@ == transfer_key_of(
                local_group_code@,
                req.transfer_id,
            ) && session.transfer_id
                == req.transfer_id && session.total_bytes == 0 && !session.finished
                && is_safe_name(session.file_name@) && (req.files.len() == 0
                ==> session.file_name@ == "received_file"@) && (req.files.len() > 0
                ==> session.file_name@ == "received_file"@ || is_substring(
                session.file_name@,
                req.files[0]@,
            )) && (req.files.len() > 0 && is_slash_path(req.files[0]@)
                ==> session.file_name@ == name_or(req.files[0]@, "received_file"@)))
        },
{
    match first {
        ProtocolMessage::TransferRequest(req) => {
            let resp = answer_request(req, local_group_code);
            match resp {
                TransferResponse::Rejected { .. } => Ok(SessionStart::Rejected(resp)),
                TransferResponse::Accepted { .. } => {
                    let session = ReceiverSession {
                        transfer_id: req.transfer_id,
                        file_name: received_file_name(&req.files),
                        total_bytes: 0,
                        finished: false,
                        key: transfer_key(local_group_code, req.transfer_id),
                    };
                    Ok(SessionStart::Accepted(resp, session))
                },
            }
        },
        _ => Err(String::from_str("Expected TransferRequest")),
    }
}

/// The acknowledgement of `chunk` with `status`.
fn ack(chunk: &ChunkData, status: ChunkStatus) -> (a: ChunkAck)
    ensures
        a == ack_for(*chunk, status),
{
    ChunkAck {
        transfer_id: chunk.transfer_id,
        file_index: chunk.file_index,
        chunk_index: chunk.chunk_index,
        status,
    }
}

impl ReceiverSession {
    /// Stores a chunk whose payload decoded to `data`: write it at the
    /// chunk's offset, count its bytes and acknowledge it.
    pub fn store(&mut self, chunk: &ChunkData, data: Vec<u8>) -> (action: ReceiverAction)
        requires
            chunk_fits(*old(self), *chunk, data@.len() as int),
        ensures
            *final(self) == after_store(*old(self), *chunk, data@.len() as int),
            action matches ReceiverAction::Store { offset, data: d, ack, last } && offset
                == receive_offset(chunk.chunk_index) && d@ == data@ && ack == ack_for(
                *chunk,
                ChunkStatus::Received,
            ) && last == is_last_chunk(*chunk),
    {
        let offset = chunk.chunk_index * 1024 * 1024;
        self.total_bytes = self.total_bytes + data.len() as u64;
        let last = chunk.chunk_index >= chunk.total_chunks - 1;
        self.finished = last;
        ReceiverAction::Store { offset, data, ack: ack(chunk, ChunkStatus::Received), last }
    }

    /// Handles one chunk: decompress its payload, check its checksum, and
    /// store it.
    pub fn receive_chunk(&mut self, chunk: &ChunkData) -> (action: ReceiverAction)
        ensures
            chunk_step(*old(self), *chunk, *final(self), action),
    {
        proof {
            reveal(chunk_step);
        }
        let frame = match open_chunk(&self.key, chunk.chunk_index, chunk.data.as_slice()) {
            Some(f) => f,
            None => {
                return ReceiverAction::Reply(ack(chunk, ChunkStatus::Corrupted));
            },
        };
        let decompressed = match decompress(frame.as_slice()) {
            Ok(d) => d,
            Err(_) => {
                return ReceiverAction::Reply(ack(chunk, ChunkStatus::Corrupted));
            },
        };
        if !verify_checksum(chunk.data.as_slice(), chunk.checksum.as_str()) {
            return ReceiverAction::Reply(ack(chunk, ChunkStatus::Corrupted));
        }
        let len = decompressed.len() as u64;
        if chunk.chunk_index > u64::MAX / 1048576 || chunk.total_chunks == 0 || self.total_bytes
            > u64::MAX - len {
            return ReceiverAction::OutOfRange;
        }
        self.store(chunk, decompressed)
    }

    /// Handles one message of the transfer: chunks are received, anything
    /// else is ignored.
    pub fn receive(&mut self, msg: &ProtocolMessage) -> (action: ReceiverAction)
        ensures
            msg matches ProtocolMessage::ChunkData(chunk) ==> chunk_step(
                *old(self),
                *chunk,
                *final(self),
                action,
            ),
            msg !is ChunkData ==> *final(self) == *old(self) && action == ReceiverAction::Ignore,
    {
        match msg {
            ProtocolMessage::ChunkData(chunk) => self.receive_chunk(chunk),
            _ => ReceiverAction::Ignore,
        }
    }

    /// The message that closes a successful transfer.
    pub fn completion(&self, transfer_id: u128, duration_ms: u64) -> (c: TransferComplete)
        ensures
            c == (TransferComplete {
                transfer_id,
                success: true,
                total_bytes: self.total_bytes,
                duration_ms,
            }),
    {
        TransferComplete { transfer_id, success: true, total_bytes: self.total_bytes, duration_ms }
    }
}

/// A chunk that a sender sent reaches the receiver intact: the receiver
/// stores exactly the bytes that were read for it, at the offset that the
/// sender's chunker gave the chunk, acknowledges it as received, counts its
/// bytes, and marks the transfer finished exactly at the last chunk.
pub proof fn lemma_sent_chunk_is_stored(
    chunker: Chunker,
    i: u64,
    m: ChunkData,
    plain: Seq<u8>,
    old: ReceiverSession,
    new: ReceiverSession,
    action: ReceiverAction,
)
    requires
        chunker.wf(),
        chunker.chunk_size == TRANSFER_CHUNK_SIZE,
        i < chunker.total_chunks,
        m.chunk_index == i,
        m.total_chunks == chunker.total_chunks,
        carries(m, old.key@, plain),
        old.total_bytes + plain.len() <= u64::MAX,
        chunk_step(old, m, new, action),
    ensures
        action matches ReceiverAction::Store { offset, data, ack, last } && offset
            == chunker.chunk_offset(i as int) && data@ == plain && ack == ack_for(
            m,
            ChunkStatus::Received,
        ) && last == (i + 1 == chunker.total_chunks),
        new.total_bytes == old.total_bytes + plain.len(),
        new.finished == (i + 1 == chunker.total_chunks),
        new.key == old.key,
{
    reveal(chunk_step);
    crate::chunker::lemma_chunks_tile_file(chunker, i);
}

#[verifier::rlimit(40)]
/// The first `n` steps of a transfer of `f`: each sent chunk is stored at
/// its place, and the running total is what the first `n` chunks hold.
proof fn lemma_transfer_prefix(
    c: Chunker,
    f: Seq<u8>,
    msgs: Seq<ChunkData>,
    sessions: Seq<ReceiverSession>,
    actions: Seq<ReceiverAction>,
    n: nat,
)
    requires
        c.wf(),
        c.chunk_size == TRANSFER_CHUNK_SIZE,
        f.len() == c.file_size,
        n <= c.total_chunks,
        msgs.len() == c.total_chunks,
        sessions.len() == c.total_chunks + 1,
        actions.len() == c.total_chunks,
        sessions[0].total_bytes == 0,
        forall|i: int|
            0 <= i < c.total_chunks ==> (#[trigger] msgs[i]).chunk_index == i && msgs[i].total_chunks
                == c.total_chunks && carries(msgs[i], sessions[0].key@, chunk_bytes(c, f, i)),
        forall|i: int|
            0 <= i < c.total_chunks ==> chunk_step(
                #[trigger] sessions[i],
                msgs[i],
                sessions[i + 1],
                actions[i],
            ),
    ensures
        sessions[n as int].total_bytes == covered(c, n),
        sessions[n as int].key == sessions[0].key,
        forall|i: int|
            0 <= i < n ==> (#[trigger] actions[i] matches ReceiverAction::Store {
                offset,
                data,
                ack,
                last,
            } && offset == c.chunk_offset(i) && data@ == chunk_bytes(c, f, i) && ack.status
                == ChunkStatus::Received && last == (i + 1 == c.total_chunks)),
        n > 0 ==> sessions[n as int].finished == (n == c.total_chunks),
    decreases n,
{
    if n > 0 {
        let k = n - 1;
        lemma_transfer_prefix(c, f, msgs, sessions, actions, k as nat);
        crate::chunker::lemma_chunks_tile_file(c, k as u64);
        crate::chunker::lemma_chunks_cover_file(c, n);
        crate::chunker::lemma_chunks_cover_file(c, k as nat);
        let plain = chunk_bytes(c, f, k);
        assert(plain.len() == c.chunk_len(k));
        assert(covered(c, n) <= c.file_size) by {
            assert(crate::chunker::min_int(n * c.chunk_size, c.file_size as int) <= c.file_size);
        }
        assert(sessions[k] == sessions[k as int]);
        lemma_sent_chunk_is_stored(
            c,
            k as u64,
            msgs[k],
            plain,
            sessions[k],
            sessions[k + 1],
            actions[k],
        );
    }
}

/// A whole transfer delivers the file: when every chunk of `f` is sent in
/// order and received, each is written at its place with exactly its bytes
/// (and the chunks, one after the other, are `f`), the receiver counts
/// `f.len()` bytes, and it is finished after the last chunk.
pub proof fn lemma_transfer_delivers_file(
    c: Chunker,
    f: Seq<u8>,
    msgs: Seq<ChunkData>,
    sessions: Seq<ReceiverSession>,
    actions: Seq<ReceiverAction>,
)
    requires
        c.wf(),
        c.chunk_size == TRANSFER_CHUNK_SIZE,
        f.len() == c.file_size,
        msgs.len() == c.total_chunks,
        sessions.len() == c.total_chunks + 1,
        actions.len() == c.total_chunks,
        sessions[0].total_bytes == 0,
        forall|i: int|
            0 <= i < c.total_chunks ==> (#[trigger] msgs[i]).chunk_index == i && msgs[i].total_chunks
                == c.total_chunks && carries(msgs[i], sessions[0].key@, chunk_bytes(c, f, i)),
        forall|i: int|
            0 <= i < c.total_chunks ==> chunk_step(
                #[trigger] sessions[i],
                msgs[i],
                sessions[i + 1],
                actions[i],
            ),
    ensures
        forall|i: int|
            0 <= i < c.total_chunks ==> (#[trigger] actions[i] matches ReceiverAction::Store {
                offset,
                data,
                ack,
                last,
            } && offset == c.chunk_offset(i) && data@ == chunk_bytes(c, f, i) && ack.status
                == ChunkStatus::Received && last == (i + 1 == c.total_chunks)),
        joined_chunks(c, f, c.total_chunks as nat) == f,
        sessions[c.total_chunks as int].total_bytes == f.len(),
        c.total_chunks > 0 ==> sessions[c.total_chunks as int].finished,
{
    lemma_transfer_prefix(c, f, msgs, sessions, actions, c.total_chunks as nat);
    crate::chunker::lemma_chunks_cover_file(c, c.total_chunks as nat);
    crate::chunker::lemma_chunks_rebuild_file(c, f, c.total_chunks as nat);
}

/// Sender and receiver seal and open with the same key: a request that the
/// receiver accepts carries the receiver's group code, so the key the
/// sender derives from the request's code and id is the receiver's key.
pub proof fn lemma_accepted_keys_agree(
    req: TransferRequest,
    local_group_code: Seq<char>,
    resp: TransferResponse,
)
    requires
        is_answer(req, local_group_code, resp),
        resp is Accepted,
    ensures
        transfer_key_of(req.group_code@, req.transfer_id) == transfer_key_of(
            local_group_code,
            req.transfer_id,
        ),
{
}

} // verus!
