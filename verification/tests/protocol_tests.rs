use closeshare::chunker::Chunk;
use closeshare::compression::compress;
use closeshare::integrity::calculate_checksum;
use closeshare::message::{
    ChunkAck, ChunkData, ChunkStatus, CompressionType, ProtocolMessage, TransferComplete,
    TransferRequest, TransferResponse,
};
use closeshare::crypto::transfer_key;
use closeshare::receiver::{received_file_name, start_session, ReceiverAction, ReceiverSession, SessionStart};
use closeshare::sender::{check_transfer_response, chunk_message, transfer_request, SendStep, SenderSession};

const KEY_GROUP: &str = "1111";

fn key() -> [u8; 32] {
    transfer_key(KEY_GROUP, 77)
}

fn request(group: &str, files: Vec<String>) -> ProtocolMessage {
    ProtocolMessage::TransferRequest(TransferRequest {
        transfer_id: 77,
        device_id: 5,
        group_code: group.to_string(),
        files,
        total_size: 10,
        compression: CompressionType::Zstd { level: 1 },
        encryption: true,
    })
}

fn session() -> ReceiverSession {
    ReceiverSession { transfer_id: 77, file_name: "f".to_string(), total_bytes: 0, finished: false, key: key() }
}

#[test]
fn first_message_must_be_a_request() {
    assert_eq!(start_session(&ProtocolMessage::Ping, "").unwrap_err(), "Expected TransferRequest");
}

#[test]
fn request_of_another_group_is_rejected() {
    match start_session(&request("1111", vec![]), "2222").unwrap() {
        SessionStart::Rejected(TransferResponse::Rejected { reason }) => {
            assert_eq!(reason, "Invalid group code")
        }
        other => panic!("unexpected {:?}", other),
    }
    // The receiver compares codes as they are: an empty local code only
    // admits an empty code.
    assert!(matches!(start_session(&request("1111", vec![]), "").unwrap(), SessionStart::Rejected(_)));
}

#[test]
fn request_of_the_same_group_is_accepted() {
    match start_session(&request("1111", vec!["some/dir/report.pdf".to_string()]), "1111").unwrap() {
        SessionStart::Accepted(resp, s) => {
            assert_eq!(
                resp,
                TransferResponse::Accepted { transfer_id: 77, port: 0, max_parallel_connections: 8 }
            );
            assert_eq!(s.transfer_id, 77);
            assert_eq!(s.file_name, "report.pdf");
            assert_eq!(s.key, transfer_key("1111", 77));
            assert_eq!(s.total_bytes, 0);
            assert!(!s.finished);
        }
        other => panic!("unexpected {:?}", other),
    }
}

#[test]
fn file_name_falls_back() {
    assert_eq!(received_file_name(&vec![]), "received_file");
    assert_eq!(received_file_name(&vec!["/".to_string()]), "received_file");
    assert_eq!(received_file_name(&vec!["a.txt".to_string(), "b".to_string()]), "a.txt");
    assert_eq!(received_file_name(&vec!["../../etc/passwd".to_string()]), "passwd");
    assert_eq!(received_file_name(&vec!["..".to_string()]), "received_file");
    assert_eq!(received_file_name(&vec!["/tmp/".to_string()]), "tmp");
    assert_eq!(received_file_name(&vec!["dir/a.txt".to_string()]), "a.txt");
    assert_eq!(received_file_name(&vec!["a:b".to_string()]), "received_file");
}

#[test]
fn sent_chunks_are_stored_in_place() {
    let data: Vec<u8> = (0..3000u32).map(|i| (i % 256) as u8).collect();
    let mut s = session();
    let chunk0 = Chunk { index: 0, offset: 0, size: 3000, total_chunks: 2 };
    let m0 = chunk_message(&key(), 77, &chunk0, &data).unwrap();
    match s.receive(&ProtocolMessage::ChunkData(m0)) {
        ReceiverAction::Store { offset, data: d, ack, last } => {
            assert_eq!(offset, 0);
            assert_eq!(d, data);
            assert_eq!(ack, ChunkAck { transfer_id: 77, file_index: 0, chunk_index: 0, status: ChunkStatus::Received });
            assert!(!last);
        }
        other => panic!("unexpected {:?}", other),
    }
    assert_eq!(s.total_bytes, 3000);
    assert!(!s.finished);
    let chunk1 = Chunk { index: 1, offset: 1048576, size: 5, total_chunks: 2 };
    let m1 = chunk_message(&key(), 77, &chunk1, b"hello").unwrap();
    match s.receive(&ProtocolMessage::ChunkData(m1)) {
        ReceiverAction::Store { offset, data: d, last, .. } => {
            assert_eq!(offset, 1048576);
            assert_eq!(d, b"hello".to_vec());
            assert!(last);
        }
        other => panic!("unexpected {:?}", other),
    }
    assert_eq!(s.total_bytes, 3005);
    assert!(s.finished);
    assert_eq!(
        s.completion(77, 12),
        TransferComplete { transfer_id: 77, success: true, total_bytes: 3005, duration_ms: 12 }
    );
}

#[test]
fn corrupted_chunks_are_acknowledged_not_stored() {
    let mut s = session();
    let chunk = Chunk { index: 3, offset: 0, size: 5, total_chunks: 9 };
    let mut m = chunk_message(&key(), 77, &chunk, b"hello").unwrap();
    m.checksum = calculate_checksum(b"other");
    let corrupted = ChunkAck { transfer_id: 77, file_index: 0, chunk_index: 3, status: ChunkStatus::Corrupted };
    assert_eq!(s.receive_chunk(&m), ReceiverAction::Reply(corrupted.clone()));
    let bad = ChunkData {
        transfer_id: 77,
        file_index: 0,
        chunk_index: 3,
        total_chunks: 9,
        data: b"not zstd".to_vec(),
        checksum: calculate_checksum(b"not zstd"),
    };
    assert_eq!(s.receive_chunk(&bad), ReceiverAction::Reply(corrupted));
    assert_eq!(s, session());
}

#[test]
fn chunks_out_of_range_are_refused() {
    let mut s = session();
    let no_chunks = sealed_chunk(0, 0);
    assert_eq!(s.receive_chunk(&no_chunks), ReceiverAction::OutOfRange);
    let far = sealed_chunk(1 << 44, u64::MAX);
    assert_eq!(s.receive_chunk(&far), ReceiverAction::OutOfRange);
    let last_fit = sealed_chunk((1 << 44) - 1, u64::MAX);
    assert!(matches!(s.receive_chunk(&last_fit), ReceiverAction::Store { offset, .. } if offset == ((1u64 << 44) - 1) << 20));
    let mut full = ReceiverSession { total_bytes: u64::MAX, ..session() };
    assert_eq!(full.receive_chunk(&sealed_chunk(0, 1)), ReceiverAction::OutOfRange);
}

fn sealed_chunk(index: u64, total: u64) -> ChunkData {
    chunk_message(&key(), 77, &Chunk { index, offset: 0, size: 1, total_chunks: total }, b"x").unwrap()
}

#[test]
fn other_messages_are_ignored() {
    let mut s = session();
    assert_eq!(s.receive(&ProtocolMessage::Ping), ReceiverAction::Ignore);
    assert_eq!(s, session());
}

#[test]
fn responses_are_checked() {
    let ok = ProtocolMessage::TransferResponse(TransferResponse::Accepted { transfer_id: 1, port: 0, max_parallel_connections: 8 });
    assert_eq!(check_transfer_response(&ok), Ok(()));
    let no = ProtocolMessage::TransferResponse(TransferResponse::Rejected { reason: "Invalid group code".to_string() });
    assert_eq!(check_transfer_response(&no), Err("Transfer rejected: Invalid group code".to_string()));
    assert_eq!(check_transfer_response(&ProtocolMessage::Pong), Err("Unexpected response".to_string()));
}

#[test]
fn requests_name_one_file_and_are_encrypted() {
    let r = transfer_request(1, 2, "1234".to_string(), "/tmp/a.bin".to_string(), 99);
    assert_eq!(
        r,
        TransferRequest {
            transfer_id: 1,
            device_id: 2,
            group_code: "1234".to_string(),
            files: vec!["/tmp/a.bin".to_string()],
            total_size: 99,
            compression: CompressionType::Zstd { level: 1 },
            encryption: true,
        }
    );
}

fn ack(index: u64, status: ChunkStatus) -> ProtocolMessage {
    ProtocolMessage::ChunkAck(ChunkAck { transfer_id: 9, file_index: 0, chunk_index: index, status })
}

#[test]
fn sender_moves_on_only_when_a_chunk_is_delivered() {
    let mut s = SenderSession::new(9, "", 2 * 1048576 + 10);
    let c0 = Chunk { index: 0, offset: 0, size: 1048576, total_chunks: 3 };
    let c1 = Chunk { index: 1, offset: 1048576, size: 1048576, total_chunks: 3 };
    let c2 = Chunk { index: 2, offset: 2097152, size: 10, total_chunks: 3 };
    assert_eq!(s.first_step(), SendStep::Send(c0));
    assert_eq!(s.on_reply(&ack(0, ChunkStatus::Received)), SendStep::Send(c1));
    assert_eq!(s.on_reply(&ack(1, ChunkStatus::Corrupted)), SendStep::Send(c1));
    assert_eq!(s.on_reply(&ack(1, ChunkStatus::Corrupted)), SendStep::Send(c1));
    assert_eq!(s.next_index, 1);
    assert_eq!(s.on_reply(&ack(1, ChunkStatus::Duplicate)), SendStep::Send(c2));
    assert_eq!(s.on_reply(&ack(2, ChunkStatus::Received)), SendStep::Finished);
    assert_eq!(s.on_reply(&ack(2, ChunkStatus::Received)), SendStep::Finished);
    let empty = SenderSession::new(9, "", 0);
    assert_eq!(empty.first_step(), SendStep::Finished);
}

#[test]
fn sender_fails_on_other_replies() {
    let mut s = SenderSession::new(9, "", 10);
    let unexpected = SendStep::Failed("Unexpected acknowledgement".to_string());
    assert_eq!(s.on_reply(&ProtocolMessage::Pong), unexpected);
    assert_eq!(s.on_reply(&ack(1, ChunkStatus::Received)), unexpected);
    let other_transfer = ProtocolMessage::ChunkAck(ChunkAck {
        transfer_id: 10,
        file_index: 0,
        chunk_index: 0,
        status: ChunkStatus::Received,
    });
    assert_eq!(s.on_reply(&other_transfer), unexpected);
    assert_eq!(s.next_index, 0);
}

#[test]
fn chunk_messages_carry_sealed_compressed_data_and_its_checksum() {
    let chunk = Chunk { index: 4, offset: 0, size: 3, total_chunks: 5 };
    let m = chunk_message(&key(), 77, &chunk, b"abc").unwrap();
    assert_eq!(m.transfer_id, 77);
    assert_eq!(m.file_index, 0);
    assert_eq!(m.chunk_index, 4);
    assert_eq!(m.total_chunks, 5);
    let compressed = compress(b"abc").unwrap();
    assert_ne!(m.data, compressed);
    assert_eq!(m.data.len(), compressed.len() + 16);
    assert_eq!(m.checksum, calculate_checksum(&m.data));
    assert_eq!(
        closeshare::crypto::open_chunk(&key(), 4, &m.data).unwrap(),
        compressed
    );
    assert_eq!(closeshare::crypto::open_chunk(&key(), 5, &m.data), None);
    assert_eq!(closeshare::crypto::open_chunk(&transfer_key("2222", 77), 4, &m.data), None);
}

#[test]
fn chunks_sealed_under_another_key_are_corrupted() {
    let mut s = session();
    let chunk = Chunk { index: 0, offset: 0, size: 5, total_chunks: 1 };
    let m = chunk_message(&transfer_key("9999", 77), 77, &chunk, b"hello").unwrap();
    assert_eq!(
        s.receive_chunk(&m),
        ReceiverAction::Reply(ChunkAck { transfer_id: 77, file_index: 0, chunk_index: 0, status: ChunkStatus::Corrupted })
    );
    assert_eq!(s, session());
}

#[test]
fn keys_depend_on_group_and_transfer() {
    assert_eq!(transfer_key("1234", 5), transfer_key("1234", 5));
    assert_ne!(transfer_key("1234", 5), transfer_key("1235", 5));
    assert_ne!(transfer_key("1234", 5), transfer_key("1234", 6));
}

#[test]
fn a_whole_transfer_delivers_the_file() {
    let file: Vec<u8> = (0..(2 * 1048576 + 12345u32)).map(|i| (i.wrapping_mul(2654435761) >> 13) as u8).collect();
    let mut sender = SenderSession::new(77, "7777", file.len() as u64);
    let mut receiver = match start_session(&request("7777", vec!["x/y/data.bin".to_string()]), "7777").unwrap() {
        SessionStart::Accepted(_, s) => s,
        other => panic!("unexpected {:?}", other),
    };
    assert_eq!(receiver.file_name, "data.bin");
    let mut written = vec![0u8; 0];
    let mut finished_at = None;
    let mut sends = 0;
    let mut step = sender.first_step();
    while let SendStep::Send(chunk) = step {
        sends += 1;
        let bytes = &file[chunk.offset as usize..chunk.offset as usize + chunk.size];
        let mut m = chunk_message(&sender.key, sender.transfer_id, &chunk, bytes).unwrap();
        if sends == 2 {
            // The first attempt at the second chunk arrives damaged.
            m.data[0] ^= 1;
        }
        let reply = match receiver.receive(&ProtocolMessage::ChunkData(m)) {
            ReceiverAction::Store { offset, data, ack, last } => {
                assert_eq!(ack.status, ChunkStatus::Received);
                let end = offset as usize + data.len();
                if written.len() < end {
                    written.resize(end, 0);
                }
                written[offset as usize..end].copy_from_slice(&data);
                if last {
                    finished_at = Some(chunk.index);
                }
                ack
            }
            ReceiverAction::Reply(ack) => {
                assert_eq!(ack.status, ChunkStatus::Corrupted);
                ack
            }
            other => panic!("unexpected {:?}", other),
        };
        step = sender.on_reply(&ProtocolMessage::ChunkAck(reply));
    }
    assert_eq!(step, SendStep::Finished);
    assert_eq!(sends, 4);
    assert_eq!(written, file);
    assert_eq!(receiver.total_bytes, file.len() as u64);
    assert!(receiver.finished);
    assert_eq!(finished_at, Some(2));
}
