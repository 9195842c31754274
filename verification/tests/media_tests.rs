use me_tube::authentication::StoreError;
use me_tube::media::{
    extension_of, resolve_media_token, resolve_video_record, slice_window, MediaStream, Range,
    RangeError, StreamError, CHUNK_SIZE,
};
use me_tube::video::{
    AudioCodec, Either, Format, Video, VideoCodec, VideoFile, VideoToken,
    VIDEO_TOKEN_DURATION_MILLIS,
};

fn sample_video(name: Option<&str>, format: Format) -> Video {
    Video {
        id: "vid123".to_owned(),
        file: Either::Right(VideoFile {
            id: "file456".to_owned(),
            size: Some(1000),
            audio_codec: AudioCodec::Aac,
            video_codec: VideoCodec::H264,
            format,
            converted: None,
        }),
        name: name.map(|n| n.to_owned()),
        game: "game1".to_owned(),
        public: false,
        owner: "alice".to_owned(),
        added: 0,
    }
}

fn sample_bytes(len: usize) -> Vec<u8> {
    (0..len).map(|i| (i % 251) as u8).collect()
}

fn emit(data: &Vec<u8>, ms: &MediaStream) -> Vec<u8> {
    let mut out = Vec::new();
    for chunk in ms.gen_stream() {
        let mut part = slice_window(data, &chunk);
        assert!(part.len() as u64 <= CHUNK_SIZE);
        out.append(&mut part);
    }
    out
}

#[test]
fn whole_file_response() {
    let v = sample_video(Some("clip"), Format::Mp4);
    let ms = MediaStream::from_video(None, &v, 1000).expect("no range is fine");
    assert_eq!(ms.status, 200);
    assert_eq!(ms.content_length, 1000);
    assert!(ms.content_range.is_none());
    assert_eq!(ms.content_disposition, "inline; filename=\"clip.mp4\"");
    assert_eq!(ms.content_type, "video/mp4");

    let data = sample_bytes(1000);
    let out = emit(&data, &ms);
    assert_eq!(out, data);
}

#[test]
fn ranged_response() {
    let v = sample_video(Some("clip"), Format::Mp4);
    let range = Range { start: Some(500), end: Some(599) };
    let ms = MediaStream::from_video(Some(range), &v, 1000).expect("range in bounds");
    assert_eq!(ms.status, 206);
    assert_eq!(ms.content_length, 100);
    assert_eq!(ms.content_range.as_deref(), Some("bytes 500-599/1000"));

    let data = sample_bytes(1000);
    let out = emit(&data, &ms);
    assert_eq!(out, &data[500..600]);
}

#[test]
fn out_of_bounds_rejected_before_streaming() {
    let v = sample_video(Some("clip"), Format::Mp4);
    let r = MediaStream::from_video(Some(Range { start: Some(1000), end: None }), &v, 1000);
    assert!(matches!(r, Err(StreamError::RangeError(RangeError::Start))));
    let r = MediaStream::from_video(Some(Range { start: None, end: Some(1000) }), &v, 1000);
    assert!(matches!(r, Err(StreamError::RangeError(RangeError::End))));
}

#[test]
fn chunking_covers_large_windows() {
    let len = 2 * CHUNK_SIZE + CHUNK_SIZE / 2;
    let v = sample_video(None, Format::Mkv);
    let ms = MediaStream::from_video(None, &v, len).expect("no range");
    let chunks = ms.gen_stream();
    assert_eq!(chunks.len(), 3);
    assert_eq!(chunks[0].offset, 0);
    assert_eq!(chunks[0].end, CHUNK_SIZE);
    assert_eq!(chunks[1].offset, CHUNK_SIZE);
    assert_eq!(chunks[1].end, 2 * CHUNK_SIZE);
    assert_eq!(chunks[2].offset, 2 * CHUNK_SIZE);
    assert_eq!(chunks[2].end, len);
}

#[test]
fn chunking_exact_multiple_has_no_empty_tail() {
    let len = 2 * CHUNK_SIZE;
    let v = sample_video(None, Format::Mkv);
    let ms = MediaStream::from_video(None, &v, len).expect("no range");
    let chunks = ms.gen_stream();
    assert_eq!(chunks.len(), 2);
    assert_eq!(chunks[1].end, len);
    assert_eq!(chunks[1].end - chunks[1].offset, CHUNK_SIZE);
}

#[test]
fn empty_file_streams_nothing() {
    let v = sample_video(None, Format::Mkv);
    let ms = MediaStream::from_video(None, &v, 0).expect("no range");
    assert_eq!(ms.status, 200);
    assert_eq!(ms.content_length, 0);
    assert!(ms.gen_stream().is_empty());
}

#[test]
fn download_name_falls_back_to_id() {
    let v = sample_video(None, Format::Mkv);
    assert_eq!(v.download_name(), "vid123.mkv");
    let ms = MediaStream::from_video(None, &v, 10).expect("no range");
    assert_eq!(ms.content_disposition, "inline; filename=\"vid123.mkv\"");
    assert_eq!(ms.content_type, "video/x-matroska");
}

#[test]
fn unknown_extension_served_as_octet_stream() {
    let v = sample_video(Some("weird"), Format::Unk("xyz".to_owned()));
    let ms = MediaStream::from_video(None, &v, 10).expect("no range");
    assert_eq!(ms.content_type, "application/octet-stream");
}

#[test]
fn extension_extraction() {
    assert_eq!(extension_of("a.b.mkv"), "mkv");
    assert_eq!(extension_of("noext"), "noext");
    assert_eq!(extension_of("trailing."), "");
    assert_eq!(extension_of(""), "");
}

#[test]
fn media_token_resolves_only_its_video() {
    let vt = VideoToken::new_at("videoA", 1_000);
    let secret = vt.token.token.clone();
    let id = resolve_media_token(Ok(Some(vt)), &secret, 2_000).expect("live token");
    assert_eq!(id, "videoA");
    assert_ne!(id, "videoB");
}

#[test]
fn expired_media_token_is_not_found() {
    let vt = VideoToken::new_at("videoA", 1_000);
    assert_eq!(vt.token.expires, 1_000 + VIDEO_TOKEN_DURATION_MILLIS);
    let secret = vt.token.token.clone();
    let r = resolve_media_token(Ok(Some(vt)), &secret, 1_000 + VIDEO_TOKEN_DURATION_MILLIS);
    assert!(matches!(r, Err(StreamError::NotFound)));
}

#[test]
fn wrong_or_unknown_media_token_is_not_found() {
    let vt = VideoToken::new_at("videoA", 1_000);
    let r = resolve_media_token(Ok(Some(vt)), "not-the-secret", 2_000);
    assert!(matches!(r, Err(StreamError::NotFound)));
    let r = resolve_media_token(Ok(None), "anything", 2_000);
    assert!(matches!(r, Err(StreamError::NotFound)));
}

#[test]
fn absent_video_record_is_not_found() {
    let r = resolve_video_record(Ok(None));
    assert!(matches!(r, Err(StreamError::NotFound)));
    let v = resolve_video_record(Ok(Some(sample_video(None, Format::Mp4)))).expect("present");
    assert_eq!(v.id, "vid123");
    let r = resolve_video_record(Err(StoreError { message: "down".to_owned() }));
    match r {
        Err(StreamError::ApiError(a)) => {
            assert_eq!(a.error, "database_error");
            assert_eq!(a.status, 500);
        }
        _ => panic!("expected an internal error"),
    }
}

#[test]
fn store_failure_on_media_path_is_internal() {
    let r = resolve_media_token(Err(StoreError { message: "down".to_owned() }), "t", 0);
    match r {
        Err(StreamError::ApiError(a)) => {
            assert_eq!(a.error, "database_error");
            assert_eq!(a.status, 500);
            assert_eq!(a.message, "down");
        }
        other => panic!("expected an internal error, got {:?}", other.is_ok()),
    }
}
