use rockey_hockey::preview::{PreviewFrames, PreviewStreamKind};
use rockey_hockey::http::{
    build_mjpeg_chunk, log_response, preview_response, request_path, HttpMethod, MjpegChunkReader,
    ReplyContent, Route,
};

#[test]
fn routes_get_endpoints() {
    let cases = [
        ("/", Route::Home),
        ("/api/settings", Route::GetSettings),
        ("/api/preview/detection.jpg", Route::GetDetectionPreview),
        ("/api/preview/mask.jpg", Route::GetMaskPreview),
        ("/api/preview/mask-h.jpg", Route::GetHMaskPreview),
        ("/api/preview/mask-s.jpg", Route::GetSMaskPreview),
        ("/api/preview/mask-v.jpg", Route::GetVMaskPreview),
        ("/api/stream/detection.mjpg", Route::GetDetectionStream),
        ("/api/stream/mask.mjpg", Route::GetMaskStream),
        ("/api/stream/mask-h.mjpg", Route::GetHMaskStream),
        ("/api/stream/mask-s.mjpg", Route::GetSMaskStream),
        ("/api/stream/mask-v.mjpg", Route::GetVMaskStream),
        ("/api/logs/latest", Route::GetLatestLogs),
        ("/api/playback", Route::GetPlayback),
        ("/api/unknown", Route::NotFound),
        ("", Route::NotFound),
    ];
    for (path, route) in cases {
        assert_eq!(Route::from_method_path(HttpMethod::Get, path), route, "{path}");
    }
}

#[test]
fn routes_post_and_other_methods() {
    assert_eq!(Route::from_method_path(HttpMethod::Post, "/api/settings"), Route::PostSettings);
    assert_eq!(Route::from_method_path(HttpMethod::Post, "/api/playback"), Route::PostPlayback);
    assert_eq!(Route::from_method_path(HttpMethod::Post, "/"), Route::NotFound);
    assert_eq!(Route::from_method_path(HttpMethod::Other, "/api/settings"), Route::NotFound);
}

#[test]
fn request_path_drops_query() {
    assert_eq!(request_path("/api/settings?x=1?y"), "/api/settings");
    assert_eq!(request_path("/"), "/");
    assert_eq!(request_path("?only"), "");
    assert_eq!(request_path("/ünïcode?q"), "/ünïcode");
}

#[test]
fn mjpeg_chunk_layout() {
    let chunk = build_mjpeg_chunk(b"abc");
    assert_eq!(chunk, b"--frame\r\nContent-Type: image/jpeg\r\nContent-Length: 3\r\n\r\nabc\r\n".to_vec());
    let big = vec![7u8; 1234];
    let chunk = build_mjpeg_chunk(&big);
    let header = b"--frame\r\nContent-Type: image/jpeg\r\nContent-Length: 1234\r\n\r\n";
    assert_eq!(&chunk[..header.len()], header);
    assert_eq!(chunk.len(), header.len() + 1234 + 2);
}

#[test]
fn mjpeg_reader_hands_out_whole_chunk() {
    let mut reader = MjpegChunkReader::new();
    assert!(reader.needs_refill());
    assert_eq!(reader.last_frame(), 0);
    reader.load_frame(9, b"xyz");
    assert_eq!(reader.last_frame(), 9);
    let expected = build_mjpeg_chunk(b"xyz");
    let mut got = Vec::new();
    let mut buf = [0u8; 7];
    while !reader.needs_refill() {
        let n = reader.read_into(&mut buf);
        assert!(n > 0 && n <= buf.len());
        got.extend_from_slice(&buf[..n]);
    }
    assert_eq!(got, expected);
    let mut empty: [u8; 0] = [];
    assert_eq!(reader.read_into(&mut empty), 0);
}

#[test]
fn preview_and_log_replies() {
    let r = preview_response(Some(vec![1, 2, 3]));
    assert_eq!((r.status, r.content, r.no_store), (200, ReplyContent::Jpeg, true));
    assert_eq!(r.body, vec![1, 2, 3]);
    let r = preview_response(None);
    assert_eq!((r.status, r.content, r.no_store), (503, ReplyContent::PlainText, false));
    assert_eq!(r.body, b"No preview frame yet");
    let r = log_response(Some("{\"frame\":1}".to_string()));
    assert_eq!((r.status, r.content, r.no_store), (200, ReplyContent::Json, true));
    assert_eq!(r.body, b"{\"frame\":1}");
    let r = log_response(None);
    assert_eq!(r.status, 503);
    assert_eq!(r.body, b"No runtime log yet");
}

#[test]
fn preview_routes_name_their_stream() {
    assert_eq!(Route::GetMaskPreview.snapshot_stream(), Some(PreviewStreamKind::Mask));
    assert_eq!(Route::GetVMaskPreview.snapshot_stream(), Some(PreviewStreamKind::VMask));
    assert_eq!(Route::GetMaskStream.snapshot_stream(), None);
    assert_eq!(Route::GetHMaskStream.live_stream(), Some(PreviewStreamKind::HMask));
    assert_eq!(Route::GetDetectionStream.live_stream(), Some(PreviewStreamKind::Detection));
    assert_eq!(Route::Home.live_stream(), None);
}

#[test]
fn content_type_headers() {
    assert_eq!(ReplyContent::Html.header_value(), "text/html; charset=UTF-8");
    assert_eq!(ReplyContent::Json.header_value(), "application/json");
    assert_eq!(ReplyContent::Jpeg.header_value(), "image/jpeg");
    assert_eq!(ReplyContent::PlainText.header_value(), "text/plain; charset=UTF-8");
}

#[test]
fn stream_reader_loads_each_new_frame_once() {
    let mut frames = PreviewFrames::new();
    let mut reader = MjpegChunkReader::new();
    assert!(!reader.refill_from(&frames, PreviewStreamKind::Detection));
    assert!(reader.needs_refill());

    frames.publish(vec![0xff, 0xd8], None, None, None, None);
    assert!(!reader.refill_from(&frames, PreviewStreamKind::Mask));
    assert!(reader.refill_from(&frames, PreviewStreamKind::Detection));
    assert_eq!(reader.last_frame(), 1);
    let mut buf = [0u8; 256];
    let n = reader.read_into(&mut buf);
    assert_eq!(&buf[..n], build_mjpeg_chunk(&[0xff, 0xd8]).as_slice());
    assert!(!reader.refill_from(&frames, PreviewStreamKind::Detection));
    assert_eq!(reader.last_frame(), 1);

    frames.publish(vec![7], None, None, None, None);
    assert!(reader.refill_from(&frames, PreviewStreamKind::Detection));
    assert_eq!(reader.last_frame(), 2);
}
