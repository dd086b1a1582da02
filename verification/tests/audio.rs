use std::path::PathBuf;
use termusiclib::audio_service::{
    formats, is_supported_format, sanitize_file_id, AudioError, AudioService, AudioStream,
    ByteWindow, RangeRequest,
};
use termusiclib::rest_api::{decode_upload, parse_range_header, ApiResponse, INVALID_CONTENT};

fn service() -> AudioService {
    AudioService::new(PathBuf::from("/srv/audio"))
}

#[test]
fn formats_in_the_order_of_the_search() {
    assert_eq!(formats(), vec!["mp3", "flac", "wav", "m4a", "ogg", "aiff"]);
}

#[test]
fn formats_count_whatever_their_case() {
    assert!(is_supported_format("mp3"));
    assert!(is_supported_format("FLAC"));
    assert!(is_supported_format("Ogg"));
    assert!(!is_supported_format("mp4"));
    assert!(!is_supported_format(""));
    assert!(!is_supported_format(".mp3"));
}

#[test]
fn file_ids_lose_separators_and_dot_pairs() {
    assert_eq!(sanitize_file_id("song"), "song");
    assert_eq!(sanitize_file_id("../../etc/passwd"), "etcpasswd");
    assert_eq!(sanitize_file_id("..\\..\\boot.ini"), "boot.ini");
    assert_eq!(sanitize_file_id("a/../b"), "ab");
    assert_eq!(sanitize_file_id("..."), ".");
    assert_eq!(sanitize_file_id("...."), "");
    assert_eq!(sanitize_file_id("./."), "");
    assert_eq!(sanitize_file_id(".a."), ".a.");
    assert_eq!(sanitize_file_id(""), "");
}

#[test]
fn candidates_are_the_clean_id_with_each_extension() {
    assert_eq!(
        service().file_candidates("../x"),
        vec!["x.mp3", "x.flac", "x.wav", "x.m4a", "x.ogg", "x.aiff"]
    );
}

#[test]
fn the_first_existing_candidate_is_the_file() {
    let s = service();
    assert_eq!(s.get_file_path("x", &vec![false, true, false, true, false, false]), Ok(1));
    assert_eq!(s.get_file_path("x", &vec![true]), Ok(0));
    assert_eq!(
        s.get_file_path("x/y", &vec![false; 6]),
        Err(AudioError::NotFound("x/y".to_string()))
    );
    assert_eq!(s.get_file_path("z", &vec![]), Err(AudioError::NotFound("z".to_string())));
}

#[test]
fn content_types_by_extension() {
    let s = service();
    assert_eq!(s.get_content_type(Some("mp3")), "audio/mpeg");
    assert_eq!(s.get_content_type(Some("flac")), "audio/flac");
    assert_eq!(s.get_content_type(Some("wav")), "audio/wav");
    assert_eq!(s.get_content_type(Some("m4a")), "audio/mp4");
    assert_eq!(s.get_content_type(Some("ogg")), "audio/ogg");
    assert_eq!(s.get_content_type(Some("aiff")), "audio/aiff");
    assert_eq!(s.get_content_type(Some("MP3")), "application/octet-stream");
    assert_eq!(s.get_content_type(Some("txt")), "application/octet-stream");
    assert_eq!(s.get_content_type(None), "application/octet-stream");
}

#[test]
fn titles_from_file_names() {
    let s = service();
    assert_eq!(
        s.extract_title_from_filename(Some("my_great-song")),
        Some("my great song".to_string())
    );
    assert_eq!(s.extract_title_from_filename(Some("plain")), Some("plain".to_string()));
    assert_eq!(s.extract_title_from_filename(Some("")), Some(String::new()));
    assert_eq!(s.extract_title_from_filename(None), None);
}

#[test]
fn metadata_from_name_and_size() {
    let m = service().extract_metadata("/srv/audio/a_b.FLAC", Some("a_b"), Some("FLAC"), 42);
    assert_eq!(m.file_path, "/srv/audio/a_b.FLAC");
    assert_eq!(m.title, Some("a b".to_string()));
    assert_eq!(m.format, "flac");
    assert_eq!(m.file_size, 42);
    assert_eq!(m.artist, None);
    assert_eq!(m.album, None);
    assert_eq!(m.duration_seconds, None);
    assert_eq!(m.sample_rate, None);
    assert_eq!(m.channels, None);
    assert_eq!(m.bitrate, None);
    let unknown = service().extract_metadata("x", None, None, 0);
    assert_eq!(unknown.format, "unknown");
    assert_eq!(unknown.title, None);
}

#[test]
fn metadata_is_kept_by_file_id() {
    let mut s = service();
    assert!(s.cached_metadata("a").is_none());
    let m = s.extract_metadata("/srv/audio/a.mp3", Some("a"), Some("mp3"), 7);
    s.cache_metadata("a", m);
    let kept = s.cached_metadata("a").unwrap();
    assert_eq!(kept.file_size, 7);
    assert_eq!(kept.file_path, "/srv/audio/a.mp3");
    assert!(s.cached_metadata("b").is_none());
    assert_eq!(s.audio_directory(), &PathBuf::from("/srv/audio"));
}

#[test]
fn uploads_are_named_by_id_and_format() {
    let s = service();
    assert_eq!(s.upload_file_name("song", "mp3"), Ok("song.mp3".to_string()));
    assert_eq!(s.upload_file_name("song", "FLAC"), Ok("song.FLAC".to_string()));
    assert_eq!(
        s.upload_file_name("song", "exe"),
        Err(AudioError::UnsupportedFormat("exe".to_string()))
    );
}

#[test]
fn audio_errors_in_words() {
    assert_eq!(
        AudioError::NotFound("x".to_string()).to_string(),
        "Audio file not found: x"
    );
    assert_eq!(
        AudioError::UnsupportedFormat("exe".to_string()).to_string(),
        "Unsupported audio format: exe"
    );
}

#[test]
fn windows_of_a_file() {
    let size = 1000;
    let whole = RangeRequest { start: 0, end: None };
    assert!(whole.servable(size));
    assert_eq!(whole.window(size), ByteWindow { start: 0, length: 1000 });
    let middle = RangeRequest { start: 100, end: Some(199) };
    assert_eq!(middle.window(size), ByteWindow { start: 100, length: 100 });
    let beyond = RangeRequest { start: 990, end: Some(5000) };
    assert_eq!(beyond.window(size), ByteWindow { start: 990, length: 10 });
    let one = RangeRequest { start: 999, end: Some(999) };
    assert_eq!(one.window(size), ByteWindow { start: 999, length: 1 });
    let huge = RangeRequest { start: 0, end: Some(u64::MAX) };
    assert_eq!(huge.window(u64::MAX), ByteWindow { start: 0, length: u64::MAX });
}

#[test]
fn ranges_that_no_file_can_serve() {
    assert!(!RangeRequest { start: 0, end: None }.servable(0));
    assert!(!RangeRequest { start: 1000, end: None }.servable(1000));
    assert!(!RangeRequest { start: 10, end: Some(9) }.servable(1000));
    assert!(RangeRequest { start: 10, end: Some(10) }.servable(1000));
}

#[test]
fn a_stream_counts_its_content() {
    let stream = AudioStream::new(vec![1, 2, 3], "audio/mpeg".to_string());
    assert_eq!(stream.content, vec![1, 2, 3]);
    assert_eq!(stream.content_type, "audio/mpeg");
    assert_eq!(stream.content_length, 3);
    assert!(stream.accept_ranges);
}

fn range(value: &str) -> Option<(u64, Option<u64>)> {
    parse_range_header(value).map(|r| (r.start, r.end))
}

#[test]
fn range_headers() {
    assert_eq!(range("bytes=0-99"), Some((0, Some(99))));
    assert_eq!(range("bytes=100-"), Some((100, None)));
    assert_eq!(range("bytes=007-+8"), Some((7, Some(8))));
    assert_eq!(range("bytes=+5-"), Some((5, None)));
    assert_eq!(range("bytes=18446744073709551615-"), Some((u64::MAX, None)));
}

#[test]
fn a_last_byte_that_is_no_number_counts_as_missing() {
    assert_eq!(range("bytes=5-abc"), Some((5, None)));
    assert_eq!(range("bytes=5-18446744073709551616"), Some((5, None)));
    assert_eq!(range("bytes=5- 9"), Some((5, None)));
}

#[test]
fn range_headers_that_are_void() {
    assert_eq!(range(""), None);
    assert_eq!(range("bytes="), None);
    assert_eq!(range("bytes=-"), None);
    assert_eq!(range("bytes=-5"), None);
    assert_eq!(range("bytes=5"), None);
    assert_eq!(range("bytes=1-2-3"), None);
    assert_eq!(range("bytes=a-5"), None);
    assert_eq!(range("bytes=+-5"), None);
    assert_eq!(range("bytes=18446744073709551616-"), None);
    assert_eq!(range("Bytes=0-1"), None);
    assert_eq!(range("items=0-1"), None);
    assert_eq!(range(" bytes=0-1"), None);
    assert_eq!(range("bytes=１-2"), None);
}

#[test]
fn uploads_are_decoded_from_base64() {
    assert_eq!(decode_upload("aGVsbG8="), Ok(b"hello".to_vec()));
    assert_eq!(decode_upload(""), Ok(vec![]));
    assert_eq!(decode_upload("not base64!"), Err(INVALID_CONTENT.to_string()));
    assert_eq!(decode_upload("aGVsbG8"), Err("Invalid base64 content".to_string()));
}

#[test]
fn api_responses() {
    let ok = ApiResponse::success(5u8);
    assert!(ok.success);
    assert_eq!(ok.data, Some(5));
    assert_eq!(ok.error, None);
    let failed: ApiResponse<u8> = ApiResponse::error("no".to_string());
    assert!(!failed.success);
    assert_eq!(failed.data, None);
    assert_eq!(failed.error, Some("no".to_string()));
}
