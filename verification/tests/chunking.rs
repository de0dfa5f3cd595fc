use bunkr_uploader::chunks::chunk_count;
use bunkr_uploader::chunks::split_into_chunks;
use bunkr_uploader::response::FileRef;
use bunkr_uploader::response::ServerReply;
use bunkr_uploader::response::UploadOutcome;
use bunkr_uploader::response::conclude_upload;
use bunkr_uploader::session::ChunkFileAction;
use bunkr_uploader::session::ChunkSession;
use bunkr_uploader::session::scratch_dir_path;

#[test]
fn chunk_count_is_the_ceiling() {
    assert_eq!(chunk_count(0, 25_000_000), 0);
    assert_eq!(chunk_count(1, 25_000_000), 1);
    assert_eq!(chunk_count(24_999_999, 25_000_000), 1);
    assert_eq!(chunk_count(25_000_000, 25_000_000), 1);
    assert_eq!(chunk_count(25_000_001, 25_000_000), 2);
    assert_eq!(chunk_count(50_000_000, 25_000_000), 2);
    assert_eq!(chunk_count(60_000_000, 25_000_000), 3);
}

#[test]
fn split_keeps_every_byte_in_order() {
    let data: Vec<u8> = (0u8..=9).collect();
    let chunks = split_into_chunks(&data, 4);
    assert_eq!(chunks.len(), 3);
    assert_eq!(chunks[0], vec![0, 1, 2, 3]);
    assert_eq!(chunks[1], vec![4, 5, 6, 7]);
    assert_eq!(chunks[2], vec![8, 9]);
}

#[test]
fn split_of_exact_multiple_has_no_short_chunk() {
    let data: Vec<u8> = vec![7; 8];
    let chunks = split_into_chunks(&data, 4);
    assert_eq!(chunks.len(), 2);
    assert_eq!(chunks[0].len(), 4);
    assert_eq!(chunks[1].len(), 4);
}

#[test]
fn split_of_empty_data_yields_no_chunks() {
    let data: Vec<u8> = vec![];
    let chunks = split_into_chunks(&data, 4);
    assert_eq!(chunks.len(), 0);
}

#[test]
fn sixty_megabytes_split_into_three_chunks() {
    let data: Vec<u8> = vec![0xab; 60_000_000];
    let chunks = split_into_chunks(&data, 25_000_000);
    assert_eq!(chunks.len(), 3);
    assert_eq!(chunks[0].len(), 25_000_000);
    assert_eq!(chunks[1].len(), 25_000_000);
    assert_eq!(chunks[2].len(), 10_000_000);
}

#[test]
fn chunked_session_drives_three_requests_then_finishes() {
    let mut session = ChunkSession::begin(60_000_000, 25_000_000);
    assert_eq!(session.session_id.len(), 36);
    assert_eq!(session.total_chunks, 3);

    let mut offsets = Vec::new();
    while !session.is_complete() {
        let request = session.chunk_request();
        assert_eq!(request.session_id, session.session_id);
        assert_eq!(request.total_file_size, 60_000_000);
        assert_eq!(request.chunk_size, 25_000_000);
        assert_eq!(request.total_chunk_count, 3);
        offsets.push(request.byte_offset);
        let action = session.record_chunk_outcome(true);
        assert_eq!(action, ChunkFileAction::Delete);
    }
    assert_eq!(offsets, vec![0, 25_000_000, 50_000_000]);
    assert_eq!(session.acked_bytes, 60_000_000);

    let finish = session.finish_request("movie.mp4", "video/mp4", "");
    assert_eq!(finish.session_id, session.session_id);
    assert_eq!(finish.original_name, "movie.mp4");
    assert_eq!(finish.mime_type, "video/mp4");
    assert!(finish.album_id.is_none());

    let reply = ServerReply::Parsed {
        success: true,
        files: vec![FileRef {
            name: "movie.mp4".to_string(),
            url: "https://files.example/movie".to_string(),
        }],
    };
    match conclude_upload(&reply, "/home/u/movie.mp4", "movie.mp4") {
        UploadOutcome::Completed { url, .. } => assert_eq!(url, "https://files.example/movie"),
        UploadOutcome::Failed { .. } => panic!("expected completion"),
    }
}

#[test]
fn failed_chunk_is_kept_and_the_loop_continues() {
    let mut session = ChunkSession::begin(60_000_000, 25_000_000);

    let first = session.record_chunk_outcome(true);
    assert_eq!(first, ChunkFileAction::Delete);
    assert_eq!(session.acked_bytes, 25_000_000);

    let second = session.record_chunk_outcome(false);
    assert_eq!(second, ChunkFileAction::Keep);
    assert_eq!(session.acked_bytes, 25_000_000);
    assert_eq!(session.next_index, 2);

    let third = session.record_chunk_outcome(true);
    assert_eq!(third, ChunkFileAction::Delete);
    assert_eq!(session.acked_bytes, 50_000_000);
    assert!(session.is_complete());

    let reply = ServerReply::Parsed {
        success: true,
        files: vec![FileRef {
            name: "f".to_string(),
            url: "https://files.example/f".to_string(),
        }],
    };
    match conclude_upload(&reply, "/p", "f") {
        UploadOutcome::Completed { .. } => (),
        UploadOutcome::Failed { .. } => panic!("overall outcome depends on the finish call alone"),
    }
}

#[test]
fn acknowledged_bytes_cap_at_the_file_size() {
    let mut session = ChunkSession::begin(10, 4);
    assert_eq!(session.total_chunks, 3);
    session.record_chunk_outcome(true);
    session.record_chunk_outcome(true);
    assert_eq!(session.acked_bytes, 8);
    session.record_chunk_outcome(true);
    assert_eq!(session.acked_bytes, 10);
}

#[test]
fn album_choice_rides_in_the_finish_call() {
    let session = ChunkSession::begin(30_000_000, 25_000_000);
    let finish = session.finish_request("a.bin", "application/octet-stream", "alb42");
    assert_eq!(finish.album_id, Some("alb42".to_string()));
}

#[test]
fn fresh_session_ids_differ_between_sessions() {
    let one = ChunkSession::begin(30_000_000, 25_000_000);
    let two = ChunkSession::begin(30_000_000, 25_000_000);
    assert_eq!(one.session_id.len(), 36);
    assert_eq!(two.session_id.len(), 36);
    assert_ne!(one.session_id, two.session_id);
}

#[test]
fn scratch_dir_sits_under_the_resources_dir() {
    let dir = scratch_dir_path("/home/u/.local/share/uploader");
    assert_eq!(dir.len(), "/home/u/.local/share/uploader".len() + 11);
    assert!(dir.starts_with("/home/u/.local/share/uploader/"));
    let token = &dir["/home/u/.local/share/uploader/".len()..];
    assert!(token.chars().all(|c| c.is_ascii_alphanumeric()));
}
