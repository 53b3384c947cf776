//! The messages that devices exchange. Identifiers (devices, transfers)
//! are held as their 128-bit values and socket addresses as plain octets
//! and a port, so that the protocol's decisions can be stated over them.

use vstd::prelude::*;

verus! {

/// An IP address as octets.
#[derive(Clone, Copy, Debug, PartialEq, Eq)]
pub enum IpAddress {
    V4([u8; 4]),
    V6([u8; 16]),
}

/// A socket address: an IP address and a port.
#[derive(Clone, Copy, Debug, PartialEq, Eq)]
pub struct PeerAddress {
    pub ip: IpAddress,
    pub port: u16,
}

/// Every message of the protocol.
#[derive(Clone, Debug, PartialEq, Eq)]
pub enum ProtocolMessage {
    Discovery(DiscoveryMessage),
    DiscoveryResponse(DiscoveryResponse),
    FileListRequest(FileListRequest),
    FileListResponse(FileListResponse),
    TransferRequest(TransferRequest),
    TransferResponse(TransferResponse),
    ChunkData(ChunkData),
    ChunkAck(ChunkAck),
    TransferComplete(TransferComplete),
    TransferError(TransferError),
    Ping,
    Pong,
    Goodbye(GoodbyeMessage),
}

/// The periodic broadcast by which a device announces itself.
#[derive(Clone, Debug, PartialEq, Eq)]
pub struct DiscoveryMessage {
    pub device_id: u128,
    pub display_name: String,
    pub hostname: String,
    pub group_code: String,
    pub transfer_port: u16,
}

/// The answer of a device that heard a [`DiscoveryMessage`].
#[derive(Clone, Debug, PartialEq, Eq)]
pub struct DiscoveryResponse {
    pub device_id: u128,
    pub display_name: String,
    pub hostname: String,
    pub group_code: String,
    pub socket_addr: PeerAddress,
}

/// A request for the files shared by a peer, optionally below a sub-path.
#[derive(Clone, Debug, PartialEq, Eq)]
pub struct FileListRequest {
    pub device_id: u128,
    pub group_code: String,
    pub path: Option<String>,
}

/// The files a peer shares.
#[derive(Clone, Debug, PartialEq, Eq)]
pub struct FileListResponse {
    pub device_id: u128,
    pub display_name: String,
    pub files: Vec<FileMetadata>,
    pub path: String,
}

/// What a peer tells of one shared file.
#[derive(Clone, Debug, PartialEq, Eq)]
pub struct FileMetadata {
    pub name: String,
    pub path: String,
    pub size: u64,
    pub is_directory: bool,
    pub modified: String,
    pub checksum: Option<String>,
    pub mime_type: String,
}

/// The opening message of a transfer.
#[derive(Clone, Debug, PartialEq, Eq)]
pub struct TransferRequest {
    pub transfer_id: u128,
    pub device_id: u128,
    pub group_code: String,
    pub files: Vec<String>,
    pub total_size: u64,
    pub compression: CompressionType,
    pub encryption: bool,
}

/// How chunk payloads are compressed.
#[derive(Clone, Copy, Debug, PartialEq, Eq)]
pub enum CompressionType {
    Uncompressed,
    Zstd { level: i32 },
}

/// The receiver's answer to a [`TransferRequest`].
#[derive(Clone, Debug, PartialEq, Eq)]
pub enum TransferResponse {
    Accepted { transfer_id: u128, port: u16, max_parallel_connections: u8 },
    Rejected { reason: String },
}

/// One compressed chunk of a file, with the checksum of the compressed bytes.
#[derive(Clone, Debug, PartialEq, Eq)]
pub struct ChunkData {
    pub transfer_id: u128,
    pub file_index: u32,
    pub chunk_index: u64,
    pub total_chunks: u64,
    pub data: Vec<u8>,
    pub checksum: String,
}

/// The receiver's acknowledgement of one chunk.
#[derive(Clone, Debug, PartialEq, Eq)]
pub struct ChunkAck {
    pub transfer_id: u128,
    pub file_index: u32,
    pub chunk_index: u64,
    pub status: ChunkStatus,
}

/// What became of a received chunk.
#[derive(Clone, Copy, Debug, PartialEq, Eq)]
pub enum ChunkStatus {
    Received,
    Corrupted,
    Duplicate,
}

/// The end of a transfer. The average speed that travels with it on the
/// wire is a measurement of the clock and is added where the message is
/// sent.
#[derive(Clone, Debug, PartialEq, Eq)]
pub struct TransferComplete {
    pub transfer_id: u128,
    pub success: bool,
    pub total_bytes: u64,
    pub duration_ms: u64,
}

/// A transfer that failed.
#[derive(Clone, Debug, PartialEq, Eq)]
pub struct TransferError {
    pub transfer_id: u128,
    pub error_type: TransferErrorType,
    pub message: String,
}

/// Why a transfer failed.
#[derive(Clone, Copy, Debug, PartialEq, Eq)]
pub enum TransferErrorType {
    FileNotFound,
    PermissionDenied,
    DiskFull,
    ConnectionLost,
    ChecksumMismatch,
    Cancelled,
    Unknown,
}

/// A device leaving the network.
#[derive(Clone, Debug, PartialEq, Eq)]
pub struct GoodbyeMessage {
    pub device_id: u128,
}

} // verus!
