//! The sending side of a transfer: the request that opens it, the check of
//! the receiver's answer, the sealed chunk messages, and the session that
//! sends each chunk until the receiver acknowledges it, resending only the
//! chunks it reports as corrupted.

use vstd::prelude::*;
use crate::chunker::Chunk;
use crate::chunker::Chunker;
use crate::compression::compress;
use crate::compression::zstd_decoded;
use crate::compression::zstd_frame;
use crate::compression::COMPRESSION_LEVEL;
use crate::integrity::calculate_checksum;
use crate::integrity::checksum_text;
use crate::crypto::aes256gcm_opened;
use crate::crypto::aes256gcm_sealed;
use crate::crypto::chunk_nonce_of;
use crate::crypto::seal_chunk;
use crate::crypto::transfer_key;
use crate::crypto::transfer_key_of;
use crate::crypto::AES_GCM_MAX_PLAINTEXT;
use crate::message::ChunkStatus;
use crate::message::ChunkData;
use crate::message::CompressionType;
use crate::message::ProtocolMessage;
use crate::message::TransferRequest;
use crate::message::TransferResponse;
use crate::parallel::TRANSFER_CHUNK_SIZE;

verus! {

/// The request that opens the transfer of one file.
pub fn transfer_request(
    transfer_id: u128,
    device_id: u128,
    group_code: String,
    file_path: String,
    file_size: u64,
) -> (req: TransferRequest)
    ensures
        req.transfer_id == transfer_id,
        req.device_id == device_id,
        req.group_code == group_code,
        req.files@ == seq![file_path],
        req.total_size == file_size,
        req.compression == (CompressionType::Zstd { level: COMPRESSION_LEVEL }),
        req.encryption,
{
    let mut files: Vec<String> = Vec::new();
    files.push(file_path);
    TransferRequest {
        transfer_id,
        device_id,
        group_code,
        files,
        total_size: file_size,
        compression: CompressionType::Zstd { level: COMPRESSION_LEVEL },
        encryption: true,
    }
}

/// Checks the receiver's answer to a transfer request: go on where it was
/// accepted; otherwise fail with the reason it gave, or because the answer
/// is not a transfer response.
pub fn check_transfer_response(msg: &ProtocolMessage) -> (r: Result<(), String>)
    ensures
        msg matches ProtocolMessage::TransferResponse(TransferResponse::Accepted { .. }) ==> r is Ok,
        msg matches ProtocolMessage::TransferResponse(TransferResponse::Rejected { reason }) ==> (
        r matches Err(e) && e@ == "Transfer rejected: "@ + reason@),
        msg !is TransferResponse ==> (r matches Err(e) && e@ == "Unexpected response"@),
{
    match msg {
        ProtocolMessage::TransferResponse(TransferResponse::Accepted { .. }) => Ok(()),
        ProtocolMessage::TransferResponse(TransferResponse::Rejected { reason }) => {
            let mut e = String::from_str("Transfer rejected: ");
            e.append(reason.as_str());
            Err(e)
        },
        _ => Err(String::from_str("Unexpected response")),
    }
}

/// What a chunk message carries for `plain` under `key`: the compressed
/// bytes, sealed with AES-256-GCM under the chunk's nonce, which open and
/// decompress to `plain`, and the checksum of the sealed bytes.
pub open spec fn carries(m: ChunkData, key: Seq<u8>, plain: Seq<u8>) -> bool {
    let frame = zstd_frame(plain, COMPRESSION_LEVEL);
    &&& m.data@ == aes256gcm_sealed(key, chunk_nonce_of(m.chunk_index), frame)
    &&& aes256gcm_opened(key, chunk_nonce_of(m.chunk_index), m.data@) == Some(frame)
    &&& zstd_decoded(frame) == Some(plain)
    &&& m.checksum@ == checksum_text(m.data@)
}

/// The message that carries `data`, the bytes of `chunk`: compressed, then
/// sealed under `key`, with the checksum of the sealed bytes. It is refused
/// only where the compressed bytes are more than AES-GCM can seal.
pub fn chunk_message(key: &[u8; 32], transfer_id: u128, chunk: &Chunk, data: &[u8]) -> (r:
    Option<ChunkData>)
    ensures
        r is Some <==> zstd_frame(data@, COMPRESSION_LEVEL).len() <= AES_GCM_MAX_PLAINTEXT,
        r matches Some(m) ==> {
            &&& m.transfer_id == transfer_id
            &&& m.file_index == 0
            &&& m.chunk_index == chunk.index
            &&& m.total_chunks == chunk.total_chunks
            &&& carries(m, key@, data@)
        },
{
    let compressed = match compress(data) {
        Ok(c) => c,
        Err(_) => {
            return None;
        },
    };
    let sealed = match seal_chunk(key, chunk.index, compressed.as_slice()) {
        Some(c) => c,
        None => {
            return None;
        },
    };
    let checksum = calculate_checksum(sealed.as_slice());
    Some(
        ChunkData {
            transfer_id,
            file_index: 0,
            chunk_index: chunk.index,
            total_chunks: chunk.total_chunks,
            data: sealed,
            checksum,
        },
    )
}

/// What the sender does next.
#[derive(Clone, Debug, PartialEq, Eq)]
pub enum SendStep {
    /// Send this chunk (the next one, or again the one just refused).
    Send(Chunk),
    /// Every chunk has been acknowledged as delivered.
    Finished,
    /// The receiver answered something else than an acknowledgement of the
    /// chunk in flight.
    Failed(String),
}

/// An outgoing file: its chunks are sent one at a time, each until the
/// receiver acknowledges it as delivered.
#[derive(Clone, Copy, Debug, PartialEq, Eq)]
pub struct SenderSession {
    pub transfer_id: u128,
    /// The transfer's key.
    pub key: [u8; 32],
    pub chunker: Chunker,
    /// The index of the chunk in flight; all chunks before it are delivered.
    pub next_index: u64,
}

/// Whether `reply` acknowledges chunk `index` of transfer `transfer_id` as
/// delivered: received, or already held by the receiver.
pub open spec fn delivers(reply: ProtocolMessage, transfer_id: u128, index: u64) -> bool {
    reply matches ProtocolMessage::ChunkAck(a) && a.transfer_id == transfer_id && a.chunk_index
        == index && a.status != ChunkStatus::Corrupted
}

/// Whether `reply` reports chunk `index` of transfer `transfer_id` as
/// corrupted.
pub open spec fn refuses(reply: ProtocolMessage, transfer_id: u128, index: u64) -> bool {
    reply matches ProtocolMessage::ChunkAck(a) && a.transfer_id == transfer_id && a.chunk_index
        == index && a.status == ChunkStatus::Corrupted
}

/// The step that sends chunk `i` of `s`, or finishes past the last chunk.
pub open spec fn step_at(s: SenderSession, i: u64) -> SendStep {
    if i < s.chunker.total_chunks {
        SendStep::Send(s.chunker.spec_chunk(i)->Some_0)
    } else {
        SendStep::Finished
    }
}

/// One step of the sender on the receiver's reply to the chunk in flight:
/// a delivered chunk (acknowledged as received, or as a duplicate the
/// receiver already holds) moves the session on to the next chunk (or
/// finishes), a corrupted one is sent again, and anything else (another
/// message, or an acknowledgement of another chunk or transfer) fails the
/// transfer, since the receiver answers each chunk with exactly one
/// acknowledgement.
pub open spec fn send_step(
    old: SenderSession,
    reply: ProtocolMessage,
    new: SenderSession,
    step: SendStep,
) -> bool {
    if old.next_index >= old.chunker.total_chunks {
        new == old && step == SendStep::Finished
    } else if delivers(reply, old.transfer_id, old.next_index) {
        new == SenderSession { next_index: (old.next_index + 1) as u64, ..old } && step == step_at(
            old,
            (old.next_index + 1) as u64,
        )
    } else if refuses(reply, old.transfer_id, old.next_index) {
        new == old && step == step_at(old, old.next_index)
    } else {
        new == old && (step matches SendStep::Failed(e) && e@ == "Unexpected acknowledgement"@)
    }
}

impl SenderSession {
    /// The session's fields agree: the chunker is well formed and has one
    /// mebibyte chunks, and the chunk in flight is at most the chunk count.
    pub open spec fn wf(&self) -> bool {
        &&& self.chunker.wf()
        &&& self.chunker.chunk_size == TRANSFER_CHUNK_SIZE
        &&& self.next_index <= self.chunker.total_chunks
    }

    /// The session for a file of `file_size` bytes, in one mebibyte chunks,
    /// sealed under the key of the transfer for `group_code`.
    pub fn new(transfer_id: u128, group_code: &str, file_size: u64) -> (s: Self)
        requires
            file_size + TRANSFER_CHUNK_SIZE - 1 <= u64::MAX,
        ensures
            s.wf(),
            s.transfer_id == transfer_id,
            s.key@ == transfer_key_of(group_code@, transfer_id),
            s.chunker.file_size == file_size,
            s.next_index == 0,
    {
        SenderSession {
            transfer_id,
            key: transfer_key(group_code, transfer_id),
            chunker: Chunker::new(file_size, TRANSFER_CHUNK_SIZE),
            next_index: 0,
        }
    }

    /// The step that sends chunk `i`, or finishes past the last chunk.
    fn step_for(&self, i: u64) -> (step: SendStep)
        requires
            self.chunker.wf(),
        ensures
            step == step_at(*self, i),
    {
        match self.chunker.get_chunk(i) {
            Some(c) => SendStep::Send(c),
            None => SendStep::Finished,
        }
    }

    /// The first step: send the first chunk, or finish at once for an empty
    /// file.
    pub fn first_step(&self) -> (step: SendStep)
        requires
            self.wf(),
        ensures
            step == step_at(*self, self.next_index),
    {
        self.step_for(self.next_index)
    }

    /// Takes the receiver's reply to the chunk in flight (see `send_step`).
    pub fn on_reply(&mut self, reply: &ProtocolMessage) -> (step: SendStep)
        requires
            old(self).wf(),
        ensures
            final(self).wf(),
            send_step(*old(self), *reply, *final(self), step),
    {
        if self.next_index >= self.chunker.total_chunks {
            return SendStep::Finished;
        }
        match reply {
            ProtocolMessage::ChunkAck(a) => {
                if a.transfer_id == self.transfer_id && a.chunk_index == self.next_index {
                    match a.status {
                        ChunkStatus::Corrupted => {
                            return self.step_for(self.next_index);
                        },
                        _ => {
                            self.next_index = self.next_index + 1;
                            return self.step_for(self.next_index);
                        },
                    }
                }
            },
            _ => {},
        }
        SendStep::Failed(String::from_str("Unexpected acknowledgement"))
    }
}

/// Whether one of the first `upto` replies acknowledges chunk `i` of
/// transfer `transfer_id` as delivered.
pub open spec fn delivered_in(replies: Seq<ProtocolMessage>, upto: int, transfer_id: u128, i: u64) -> bool {
    exists|j: int| 0 <= j < upto && #[trigger] delivers(replies[j], transfer_id, i)
}

/// The invariant of a run of sender steps: the session stays the same
/// transfer, and every chunk before the one in flight was acknowledged as
/// delivered by one of the replies so far.
proof fn lemma_sender_prefix(
    sessions: Seq<SenderSession>,
    replies: Seq<ProtocolMessage>,
    steps: Seq<SendStep>,
    k: nat,
)
    requires
        k < sessions.len(),
        sessions.len() == replies.len() + 1,
        steps.len() == replies.len(),
        sessions[0].wf(),
        sessions[0].next_index == 0,
        forall|j: int|
            0 <= j < replies.len() ==> send_step(
                #[trigger] sessions[j],
                replies[j],
                sessions[j + 1],
                steps[j],
            ),
    ensures
        sessions[k as int].wf(),
        sessions[k as int].transfer_id == sessions[0].transfer_id,
        sessions[k as int].chunker == sessions[0].chunker,
        forall|i: u64|
            i < sessions[k as int].next_index ==> #[trigger] delivered_in(
                replies,
                k as int,
                sessions[0].transfer_id,
                i,
            ),
    decreases k,
{
    if k > 0 {
        let p = (k - 1) as nat;
        lemma_sender_prefix(sessions, replies, steps, p);
        assert(send_step(sessions[p as int], replies[p as int], sessions[k as int], steps[p as int]));
        assert forall|i: u64| i < sessions[k as int].next_index implies #[trigger] delivered_in(
            replies,
            k as int,
            sessions[0].transfer_id,
            i,
        ) by {
            if i < sessions[p as int].next_index {
                assert(delivered_in(replies, p as int, sessions[0].transfer_id, i));
                let j = choose|j: int|
                    0 <= j < p && #[trigger] delivers(replies[j], sessions[0].transfer_id, i);
                assert(0 <= j < k && delivers(replies[j], sessions[0].transfer_id, i));
            } else {
                assert(delivers(replies[p as int], sessions[0].transfer_id, i));
            }
        }
    }
}

/// A transfer only succeeds when every chunk was delivered: if a run of
/// sender steps, from the first chunk, ends in `Finished`, then each chunk
/// of the file was acknowledged as delivered by some reply of the run.
pub proof fn lemma_finished_means_all_delivered(
    sessions: Seq<SenderSession>,
    replies: Seq<ProtocolMessage>,
    steps: Seq<SendStep>,
)
    requires
        replies.len() > 0,
        sessions.len() == replies.len() + 1,
        steps.len() == replies.len(),
        sessions[0].wf(),
        sessions[0].next_index == 0,
        forall|j: int|
            0 <= j < replies.len() ==> send_step(
                #[trigger] sessions[j],
                replies[j],
                sessions[j + 1],
                steps[j],
            ),
        steps.last() == SendStep::Finished,
    ensures
        forall|i: u64|
            i < sessions[0].chunker.total_chunks ==> #[trigger] delivered_in(
                replies,
                replies.len() as int,
                sessions[0].transfer_id,
                i,
            ),
{
    let n = replies.len();
    lemma_sender_prefix(sessions, replies, steps, n);
    lemma_sender_prefix(sessions, replies, steps, (n - 1) as nat);
    assert(send_step(sessions[n - 1], replies[n - 1], sessions[n as int], steps[n - 1]));
    assert(sessions[n as int].next_index == sessions[0].chunker.total_chunks);
}

} // verus!
