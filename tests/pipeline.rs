use embed_bot::assemble::{Action, Assembly, Download, Event, MediaKind, Phase, THUMBNAIL_WIDTH};
use embed_bot::budget::{ByteBudget, TooLarge};
use embed_bot::media::{
    generate_thumbnail, parse_dimensions, probe_media, probe_request, thumbnail_request, MediaInfo,
    ProbeError, ProcessResult, ThumbnailError, ToolInput,
};
use embed_bot::placeholder::{generate_blurhash, EncodeError};
use embed_bot::remux::{remux_next, remux_request, remux_start, RemuxError, RemuxStage, RemuxStep, StageOutcome};

fn matroska_bytes() -> Vec<u8> {
    let mut b = vec![0x1a, 0x45, 0xdf, 0xa3, 0x9f, 0x42, 0x86, 0x81, 0x01];
    b.extend_from_slice(b"\x42\x82\x88matroska");
    b.resize(400, 0);
    b
}

fn webm_bytes() -> Vec<u8> {
    let mut b = vec![0x1a, 0x45, 0xdf, 0xa3, 0x9f, 0x42, 0x86, 0x81, 0x01];
    b.extend_from_slice(b"\x42\x82\x84webm");
    b.resize(400, 0);
    b
}

fn jpeg_bytes(w: u32, h: u32) -> Vec<u8> {
    let img = image::RgbImage::from_fn(w, h, |x, y| image::Rgb([(x * 30) as u8, (y * 40) as u8, 128]));
    let mut out = Vec::new();
    image::codecs::jpeg::JpegEncoder::new(&mut out).encode_image(&img).unwrap();
    out
}

fn ok(stdout: &[u8]) -> ProcessResult {
    ProcessResult { success: true, stdout: stdout.to_vec(), stderr: String::new() }
}

fn download(data: Vec<u8>, path: &str) -> Download {
    Download { content_type: None, content_disposition: None, url_path: path.to_string(), data }
}

#[test]
fn declared_length_over_budget_fails_fast() {
    let r = ByteBudget::open(100000000, Some(200000000));
    assert!(matches!(r, Err(TooLarge::Declared(200000000))));
}

#[test]
fn declared_length_at_budget_is_accepted() {
    let b = ByteBudget::open(100, Some(100)).ok().unwrap();
    assert_eq!(b.accepted(), 0);
    assert_eq!(b.limit(), 100);
}

#[test]
fn streamed_overrun_stops_within_one_chunk() {
    let budget: u64 = 100000000;
    let chunk: usize = 1 << 20;
    let mut b = ByteBudget::open(budget, None).ok().unwrap();
    let mut written: u64 = 0;
    let mut err = None;
    for _ in 0..150 {
        match b.accept_chunk(chunk) {
            Ok(()) => written += chunk as u64,
            Err(e) => {
                err = Some(e);
                break;
            }
        }
        assert!(b.accepted() <= budget);
    }
    match err {
        Some(TooLarge::Streamed(n)) => {
            assert!(n > budget);
            assert!(n <= budget + chunk as u64);
        }
        other => panic!("expected a streamed overrun, got {:?}", other),
    }
    assert!(written <= budget);
    assert_eq!(written, b.accepted());
}

#[test]
fn chunk_reaching_budget_exactly_is_kept() {
    let mut b = ByteBudget::open(10, None).ok().unwrap();
    assert!(b.accept_chunk(4).is_ok());
    assert!(b.accept_chunk(6).is_ok());
    assert_eq!(b.accepted(), 10);
    assert_eq!(b.accept_chunk(1), Err(TooLarge::Streamed(11)));
    assert_eq!(b.accepted(), 10);
    assert!(b.accept_chunk(0).is_ok());
}

#[test]
fn streamed_total_saturates() {
    let mut b = ByteBudget::open(u64::MAX - 1, None).ok().unwrap();
    assert!(b.accept_chunk(usize::MAX - 2).is_ok());
    assert_eq!(b.accept_chunk(usize::MAX), Err(TooLarge::Streamed(u64::MAX)));
}

#[test]
fn dimensions_are_read() {
    assert_eq!(parse_dimensions("1280x720"), Ok(MediaInfo { width: 1280, height: 720 }));
    assert_eq!(parse_dimensions("  1280x720\n"), Ok(MediaInfo { width: 1280, height: 720 }));
    assert_eq!(parse_dimensions("+5x6"), Ok(MediaInfo { width: 5, height: 6 }));
    assert_eq!(parse_dimensions("4294967295x1"), Ok(MediaInfo { width: 4294967295, height: 1 }));
}

#[test]
fn malformed_dimensions_are_refused() {
    assert_eq!(parse_dimensions(""), Err(ProbeError::EmptyOutput));
    assert_eq!(parse_dimensions(" \n\t"), Err(ProbeError::EmptyOutput));
    assert_eq!(parse_dimensions("1280"), Err(ProbeError::Malformed));
    assert_eq!(parse_dimensions("1280x720x1"), Err(ProbeError::Malformed));
    assert_eq!(parse_dimensions("ax720"), Err(ProbeError::Malformed));
    assert_eq!(parse_dimensions("x720"), Err(ProbeError::Malformed));
    assert_eq!(parse_dimensions("-1x720"), Err(ProbeError::Malformed));
    assert_eq!(parse_dimensions("4294967296x1"), Err(ProbeError::Malformed));
    assert_eq!(parse_dimensions("12 x 34"), Err(ProbeError::Malformed));
}

#[test]
fn probe_result_is_read() {
    assert_eq!(probe_media(&ok(b"640x480\n")), Ok(MediaInfo { width: 640, height: 480 }));
    let failed = ProcessResult { success: false, stdout: Vec::new(), stderr: "bad input".to_string() };
    assert_eq!(probe_media(&failed), Err(ProbeError::ToolFailed("bad input".to_string())));
    assert_eq!(probe_media(&ok(b"\xff\xfe")), Err(ProbeError::Malformed));
}

#[test]
fn thumbnail_result_is_read() {
    assert_eq!(generate_thumbnail(&ok(b"jpeg")), Ok(b"jpeg".to_vec()));
    let failed = ProcessResult { success: false, stdout: b"x".to_vec(), stderr: "oops".to_string() };
    assert_eq!(generate_thumbnail(&failed), Err(ThumbnailError::ToolFailed("oops".to_string())));
}

#[test]
fn tool_invocations() {
    let p = probe_request();
    assert_eq!(p.program, "ffprobe");
    assert_eq!(
        p.args,
        vec!["-v", "error", "-select_streams", "v:0", "-show_entries", "stream=width,height", "-of", "csv=s=x:p=0", "-"]
    );
    assert!(matches!(p.input, ToolInput::Media { write_timeout_secs: 10 }));
    assert_eq!(p.wait_timeout_secs, 10);

    let t = thumbnail_request(320);
    assert_eq!(t.program, "ffmpeg");
    assert_eq!(t.args[10], "scale=320:-1");
    assert_eq!(t.args.len(), 16);
    assert_eq!(thumbnail_request(0).args[10], "scale=0:-1");
    assert_eq!(thumbnail_request(4294967295).args[10], "scale=4294967295:-1");

    let c = remux_request(RemuxStage::StreamCopy, "/tmp/in", "/tmp/out.mp4");
    assert_eq!(
        c.args,
        vec!["-hide_banner", "-loglevel", "error", "-i", "/tmp/in", "-c", "copy", "-movflags", "+faststart", "-f", "mp4", "-y", "/tmp/out.mp4"]
    );
    assert_eq!(c.wait_timeout_secs, 20);
    assert!(matches!(c.input, ToolInput::Closed));
    let r = remux_request(RemuxStage::Reencode, "/tmp/in", "/tmp/out.mp4");
    assert_eq!(r.args[5..13], ["-c:v", "libx264", "-preset", "fast", "-crf", "23", "-c:a", "aac"]);
    assert_eq!(r.wait_timeout_secs, 60);
}

/// Drives the remux decisions against a tool double, recording the stages run.
fn run_remux(mut tool: impl FnMut(RemuxStage) -> StageOutcome) -> (Vec<RemuxStage>, Result<Vec<u8>, RemuxError>) {
    let mut calls = Vec::new();
    let mut step = remux_start();
    loop {
        match step {
            RemuxStep::Run(stage) => {
                calls.push(stage);
                step = remux_next(stage, tool(stage));
            }
            RemuxStep::Finished(out) => return (calls, Ok(out)),
            RemuxStep::Failed(e) => return (calls, Err(e)),
        }
    }
}

#[test]
fn remux_falls_back_to_reencode() {
    let (calls, result) = run_remux(|stage| match stage {
        RemuxStage::StreamCopy => StageOutcome::Rejected("codec not supported".to_string()),
        RemuxStage::Reencode => StageOutcome::Produced(b"reencoded".to_vec()),
    });
    assert_eq!(calls, vec![RemuxStage::StreamCopy, RemuxStage::Reencode]);
    assert_eq!(result, Ok(b"reencoded".to_vec()));
}

#[test]
fn remux_stream_copy_first() {
    let (calls, result) = run_remux(|_| StageOutcome::Produced(b"copied".to_vec()));
    assert_eq!(calls, vec![RemuxStage::StreamCopy]);
    assert_eq!(result, Ok(b"copied".to_vec()));
}

#[test]
fn remux_failures() {
    let (calls, result) = run_remux(|_| StageOutcome::Rejected("no".to_string()));
    assert_eq!(calls, vec![RemuxStage::StreamCopy, RemuxStage::Reencode]);
    assert_eq!(result, Err(RemuxError::ReencodeRejected("no".to_string())));
    let (calls, result) = run_remux(|_| StageOutcome::Aborted);
    assert_eq!(calls, vec![RemuxStage::StreamCopy, RemuxStage::Reencode]);
    assert_eq!(result, Err(RemuxError::ReencodeAborted));
}

#[test]
fn remux_timed_out_stream_copy_falls_back_to_reencode() {
    let (calls, result) = run_remux(|stage| match stage {
        RemuxStage::StreamCopy => StageOutcome::Aborted,
        RemuxStage::Reencode => StageOutcome::Produced(b"reencoded".to_vec()),
    });
    assert_eq!(calls, vec![RemuxStage::StreamCopy, RemuxStage::Reencode]);
    assert_eq!(result, Ok(b"reencoded".to_vec()));
}

#[test]
fn placeholder_is_stable_and_nonempty() {
    let jpeg = jpeg_bytes(32, 24);
    let a = generate_blurhash(&jpeg).unwrap();
    let b = generate_blurhash(&jpeg).unwrap();
    assert_eq!(a, b);
    assert_eq!(a.len(), 4 + 2 * 12);
}

#[test]
fn placeholder_needs_an_image() {
    assert_eq!(generate_blurhash(b"not an image"), Err(EncodeError::NotAnImage));
    assert_eq!(generate_blurhash(&[]), Err(EncodeError::NotAnImage));
}

#[test]
fn probe_failure_ships_without_extras() {
    let mut a = Assembly::start(download(b"plain bytes".to_vec(), "/notes.txt"), 1000, None);
    assert_eq!(a.mime_type(), "text/plain");
    assert_eq!(a.next_action(), Action::Probe);
    a.advance(Event::Probed(None));
    assert_eq!(a.phase(), Phase::Done);
    assert_eq!(a.next_action(), Action::Finish);
    let r = a.finish();
    assert_eq!(r.filename, "notes.txt");
    assert_eq!(r.data, b"plain bytes".to_vec());
    assert_eq!(r.width, None);
    assert_eq!(r.height, None);
    assert!(r.thumbnail.is_none());
    assert_eq!(r.placeholder, None);
}

#[test]
fn matroska_is_remuxed_to_mp4() {
    let original = matroska_bytes();
    let mut a = Assembly::start(download(original.clone(), "/"), 10000, None);
    assert_eq!(a.mime_type(), "video/x-matroska");
    assert_eq!(a.next_action(), Action::Remux);
    a.advance(Event::Remuxed(Some(b"mp4 bytes".to_vec())));
    assert_eq!(a.next_action(), Action::Probe);
    a.advance(Event::Probed(None));
    let r = a.finish();
    assert_eq!(r.mime_type, "video/mp4");
    assert_ne!(r.data, original);
    assert_eq!(r.filename, "media.mp4");
}

#[test]
fn failed_remux_keeps_original() {
    let original = matroska_bytes();
    let mut a = Assembly::start(download(original.clone(), "/v/clip.mkv"), 10000, None);
    a.advance(Event::Remuxed(None));
    a.advance(Event::Probed(None));
    let r = a.finish();
    assert_eq!(r.mime_type, "video/x-matroska");
    assert_eq!(r.data, original);
    assert_eq!(r.filename, "clip.mkv");
}

#[test]
fn remux_output_over_budget_is_dropped() {
    let original = matroska_bytes();
    let mut a = Assembly::start(download(original.clone(), "/"), 400, None);
    a.advance(Event::Remuxed(Some(vec![0; 401])));
    assert_eq!(a.mime_type(), "video/x-matroska");
    assert_eq!(a.input(), &original[..]);
}

#[test]
fn process_response_video_names_media_webm() {
    let a = Assembly::start(download(webm_bytes(), "/"), 10 * 1024 * 1024, None);
    assert_eq!(a.next_action(), Action::Probe);
    let r = a.finish();
    assert_eq!(r.mime_type, "video/webm");
    assert_eq!(r.filename, "media.webm");
    assert_eq!(r.kind, MediaKind::Video);
}

#[test]
fn full_chain_records_thumbnail_and_placeholder() {
    let thumb = jpeg_bytes(60, 40);
    let mut a = Assembly::start(download(webm_bytes(), "/watch"), 100000, None);
    a.advance(Event::Probed(Some(MediaInfo { width: 1280, height: 720 })));
    assert_eq!(a.next_action(), Action::Thumbnail(THUMBNAIL_WIDTH));
    assert_eq!(THUMBNAIL_WIDTH, 600);
    a.advance(Event::Thumbnailed(Some(thumb.clone())));
    assert_eq!(a.next_action(), Action::ProbeThumbnail);
    assert_eq!(a.input(), &thumb[..]);
    a.advance(Event::ThumbnailProbed(Some(MediaInfo { width: 60, height: 40 })));
    let r = a.finish();
    assert_eq!(r.filename, "watch.webm");
    assert_eq!((r.width, r.height), (Some(1280), Some(720)));
    assert_eq!(r.placeholder, Some(generate_blurhash(&thumb).unwrap()));
    let t = r.thumbnail.unwrap();
    assert_eq!((t.width, t.height), (60, 40));
    assert_eq!(t.mime_type, "image/jpeg");
    assert_eq!(t.data, thumb);
}

#[test]
fn failed_thumbnail_probe_keeps_placeholder_only() {
    let thumb = jpeg_bytes(20, 10);
    let mut a = Assembly::start(download(thumb.clone(), "/p/pic.jpg"), 100000, None);
    assert_eq!(a.mime_type(), "image/jpeg");
    a.advance(Event::Probed(Some(MediaInfo { width: 20, height: 10 })));
    a.advance(Event::Thumbnailed(Some(thumb.clone())));
    a.advance(Event::ThumbnailProbed(None));
    let r = a.finish();
    assert_eq!(r.kind, MediaKind::Image);
    assert!(r.thumbnail.is_none());
    assert!(r.placeholder.is_some());
    assert_eq!(r.width, Some(20));
}

#[test]
fn dimensions_not_recorded_for_audio() {
    let mut a = Assembly::start(
        Download {
            content_type: Some("audio/mpeg".to_string()),
            content_disposition: None,
            url_path: "/a".to_string(),
            data: b"....".to_vec(),
        },
        100,
        None,
    );
    a.advance(Event::Probed(Some(MediaInfo { width: 1, height: 1 })));
    a.advance(Event::Thumbnailed(None));
    let r = a.finish();
    assert_eq!(r.kind, MediaKind::Audio);
    assert_eq!(r.width, None);
    assert_eq!(r.filename, "a.m2a");
}

#[test]
fn outcome_for_another_phase_changes_nothing() {
    let mut a = Assembly::start(download(b"x".to_vec(), "/"), 10, None);
    a.advance(Event::Thumbnailed(Some(b"t".to_vec())));
    assert_eq!(a.phase(), Phase::Probe);
    a.advance(Event::Remuxed(Some(b"y".to_vec())));
    assert_eq!(a.input(), b"x");
}
