//! The external media tools: what each invocation asks for, and how the
//! prober's and the thumbnailer's results are read.
use crate::text::{decimal_string, decimal_text, parse_u32, parsed_u32, trim, trimmed};
use vstd::prelude::*;

verus! {

/// Intrinsic dimensions of an image or of the first video stream.
#[derive(Debug, Clone, Copy, PartialEq, Eq, Structural)]
pub struct MediaInfo {
    pub width: u32,
    pub height: u32,
}

/// What a finished tool run handed back.
pub struct ProcessResult {
    /// The tool exited with status zero.
    pub success: bool,
    pub stdout: Vec<u8>,
    /// The error channel, decoded as text.
    pub stderr: String,
}

/// How a tool is fed.
pub enum ToolInput {
    /// The media bytes go to the tool's input channel, under this time budget.
    Media { write_timeout_secs: u64 },
    /// The tool's input channel is closed; it reads from a file path in its arguments.
    Closed,
}

/// One invocation of an external tool.
pub struct ToolRequest {
    pub program: String,
    pub args: Vec<String>,
    pub input: ToolInput,
    /// Time budget for waiting on the tool and draining its output.
    pub wait_timeout_secs: u64,
}

#[derive(Debug, Clone, PartialEq, Eq)]
pub enum ProbeError {
    /// The prober exited unsuccessfully; its error text.
    ToolFailed(String),
    /// The prober printed nothing but whitespace.
    EmptyOutput,
    /// The output is not two integers separated by a single `x`.
    Malformed,
}

#[derive(Debug, Clone, PartialEq, Eq)]
pub enum ThumbnailError {
    /// The thumbnailer exited unsuccessfully; its error text.
    ToolFailed(String),
}

pub const PROBE_WRITE_TIMEOUT_SECS: u64 = 10;

pub const PROBE_READ_TIMEOUT_SECS: u64 = 10;

pub const THUMBNAIL_WRITE_TIMEOUT_SECS: u64 = 10;

pub const THUMBNAIL_READ_TIMEOUT_SECS: u64 = 10;

/// `t[k]` is the one and only `x` of `t`.
pub open spec fn sole_separator(t: Seq<char>, k: int) -> bool {
    0 <= k < t.len() && t[k] == 'x' && forall|j: int| 0 <= j < t.len() && j != k ==> #[trigger] t[j] != 'x'
}

/// How the prober's output text is read: trimmed, then exactly two decimal
/// numbers around a single `x`.
pub open spec fn dimensions_reading(text: Seq<char>) -> Result<MediaInfo, ProbeError> {
    let t = trimmed(text);
    if t.len() == 0 {
        Err(ProbeError::EmptyOutput)
    } else if exists|k: int| sole_separator(t, k) {
        let k = choose|k: int| sole_separator(t, k);
        match (parsed_u32(t.subrange(0, k)), parsed_u32(t.subrange(k + 1, t.len() as int))) {
            (Some(w), Some(h)) => Ok(MediaInfo { width: w, height: h }),
            _ => Err(ProbeError::Malformed),
        }
    } else {
        Err(ProbeError::Malformed)
    }
}

/// The text that `String::from_utf8_lossy` makes of `b`.
pub uninterp spec fn lossy_text(b: Seq<u8>) -> Seq<char>;

/// Relies on `String::from_utf8_lossy`: decodes the bytes, replacing invalid
/// sequences; the text depends on the bytes alone.
#[verifier::external_body]
fn utf8_lossy(b: &[u8]) -> (r: String)
    ensures
        r@ == lossy_text(b@),
{
    String::from_utf8_lossy(b).into_owned()
}

/// Reads the prober's output text `WxH`.
pub fn parse_dimensions(text: &str) -> (r: Result<MediaInfo, ProbeError>)
    ensures
        r == dimensions_reading(text@),
{
    let t = trim(text);
    let n = t.unicode_len();
    if n == 0 {
        return Err(ProbeError::EmptyOutput);
    }
    let mut count: usize = 0;
    let mut at: usize = 0;
    let mut i: usize = 0;
    while i < n
        invariant
            i <= n,
            n == t@.len(),
            count <= i,
            count == 0 ==> forall|j: int| 0 <= j < i ==> #[trigger] t@[j] != 'x',
            count == 1 ==> sole_separator(t@.subrange(0, i as int), at as int),
            count >= 2 ==> exists|a: int, b: int|
                0 <= a < b < i && #[trigger] t@[a] == 'x' && #[trigger] t@[b] == 'x',
        decreases n - i,
    {
        if t.get_char(i) == 'x' {
            if count == 1 {
                assert(t@.subrange(0, i as int)[at as int] == 'x');
                assert(t@[at as int] == 'x' && t@[i as int] == 'x');
            }
            if count == 0 {
                at = i;
                assert(sole_separator(t@.subrange(0, i + 1), at as int));
            }
            if count < 2 {
                count = count + 1;
            }
        } else {
            if count == 1 {
                assert(sole_separator(t@.subrange(0, i + 1), at as int)) by {
                    assert forall|j: int| 0 <= j < i + 1 && j != at implies #[trigger] t@.subrange(0, i + 1)[j] != 'x' by {
                        if j < i {
                            assert(t@.subrange(0, i + 1)[j] == t@.subrange(0, i as int)[j]);
                        }
                    }
                }
            }
        }
        i = i + 1;
    }
    assert(t@.subrange(0, n as int) =~= t@);
    if count != 1 {
        if count == 0 {
            assert(!exists|k: int| sole_separator(t@, k));
        } else {
            assert forall|k: int| !sole_separator(t@, k) by {
                let (a, b) = choose|a: int, b: int|
                    0 <= a < b < n && #[trigger] t@[a] == 'x' && #[trigger] t@[b] == 'x';
                if sole_separator(t@, k) {
                    assert(a == k && b == k);
                }
            }
        }
        return Err(ProbeError::Malformed);
    }
    assert(sole_separator(t@, at as int));
    assert forall|k: int| #[trigger] sole_separator(t@, k) implies k == at by {
        if k != at {
            assert(t@[at as int] == 'x');
        }
    }
    let w = parse_u32(t.substring_char(0, at));
    let h = parse_u32(t.substring_char(at + 1, n));
    match (w, h) {
        (Some(w), Some(h)) => Ok(MediaInfo { width: w, height: h }),
        _ => Err(ProbeError::Malformed),
    }
}

/// The prober's result: its error text when it failed, else its output read as `WxH`.
pub fn probe_media(result: &ProcessResult) -> (r: Result<MediaInfo, ProbeError>)
    ensures
        !result.success ==> (r matches Err(ProbeError::ToolFailed(e)) && e@ == result.stderr@),
        result.success ==> r == dimensions_reading(lossy_text(result.stdout@)),
{
    if !result.success {
        return Err(ProbeError::ToolFailed(result.stderr.clone()));
    }
    let text = utf8_lossy(result.stdout.as_slice());
    parse_dimensions(text.as_str())
}

/// The thumbnailer's result: the still image it printed, or its error text.
pub fn generate_thumbnail(result: &ProcessResult) -> (r: Result<Vec<u8>, ThumbnailError>)
    ensures
        result.success ==> (r matches Ok(img) && img@ == result.stdout@),
        !result.success ==> (r matches Err(ThumbnailError::ToolFailed(e)) && e@ == result.stderr@),
{
    if result.success {
        Ok(result.stdout.clone())
    } else {
        Err(ThumbnailError::ToolFailed(result.stderr.clone()))
    }
}

pub(crate) fn push_arg(args: &mut Vec<String>, a: &str)
    ensures
        final(args).deep_view() == old(args).deep_view().push(a@),
{
    args.push(String::from_str(a));
    assert(args.deep_view() =~= old(args).deep_view().push(a@));
}

/// Arguments of the prober: the first video stream's width and height, as
/// `WxH`, from media on the input channel.
pub open spec fn probe_args() -> Seq<Seq<char>> {
    seq![
        "-v"@,
        "error"@,
        "-select_streams"@,
        "v:0"@,
        "-show_entries"@,
        "stream=width,height"@,
        "-of"@,
        "csv=s=x:p=0"@,
        "-"@,
    ]
}

/// Arguments of the thumbnailer: the first frame, scaled to `width` with the
/// aspect ratio kept, as one JPEG image on the output channel.
pub open spec fn thumbnail_args(width: u32) -> Seq<Seq<char>> {
    seq![
        "-hide_banner"@,
        "-loglevel"@,
        "error"@,
        "-i"@,
        "-"@,
        "-ss"@,
        "0"@,
        "-vframes"@,
        "1"@,
        "-vf"@,
        "scale="@ + decimal_text(width as nat) + ":-1"@,
        "-f"@,
        "image2"@,
        "-c:v"@,
        "mjpeg"@,
        "-"@,
    ]
}

/// The prober's invocation.
pub fn probe_request() -> (r: ToolRequest)
    ensures
        r.program@ == "ffprobe"@,
        r.args.deep_view() == probe_args(),
        r.input == (ToolInput::Media { write_timeout_secs: PROBE_WRITE_TIMEOUT_SECS }),
        r.wait_timeout_secs == PROBE_READ_TIMEOUT_SECS,
{
    let mut args: Vec<String> = Vec::new();
    push_arg(&mut args, "-v");
    push_arg(&mut args, "error");
    push_arg(&mut args, "-select_streams");
    push_arg(&mut args, "v:0");
    push_arg(&mut args, "-show_entries");
    push_arg(&mut args, "stream=width,height");
    push_arg(&mut args, "-of");
    push_arg(&mut args, "csv=s=x:p=0");
    push_arg(&mut args, "-");
    assert(args.deep_view() =~= probe_args());
    ToolRequest {
        program: String::from_str("ffprobe"),
        args,
        input: ToolInput::Media { write_timeout_secs: PROBE_WRITE_TIMEOUT_SECS },
        wait_timeout_secs: PROBE_READ_TIMEOUT_SECS,
    }
}

/// The thumbnailer's invocation for a frame `target_width` pixels wide.
pub fn thumbnail_request(target_width: u32) -> (r: ToolRequest)
    ensures
        r.program@ == "ffmpeg"@,
        r.args.deep_view() == thumbnail_args(target_width),
        r.input == (ToolInput::Media { write_timeout_secs: THUMBNAIL_WRITE_TIMEOUT_SECS }),
        r.wait_timeout_secs == THUMBNAIL_READ_TIMEOUT_SECS,
{
    let mut scale = String::from_str("scale=");
    let digits = decimal_string(target_width);
    scale.append(digits.as_str());
    scale.append(":-1");
    let mut args: Vec<String> = Vec::new();
    push_arg(&mut args, "-hide_banner");
    push_arg(&mut args, "-loglevel");
    push_arg(&mut args, "error");
    push_arg(&mut args, "-i");
    push_arg(&mut args, "-");
    push_arg(&mut args, "-ss");
    push_arg(&mut args, "0");
    push_arg(&mut args, "-vframes");
    push_arg(&mut args, "1");
    push_arg(&mut args, "-vf");
    push_arg(&mut args, scale.as_str());
    push_arg(&mut args, "-f");
    push_arg(&mut args, "image2");
    push_arg(&mut args, "-c:v");
    push_arg(&mut args, "mjpeg");
    push_arg(&mut args, "-");
    assert(args.deep_view() =~= thumbnail_args(target_width));
    ToolRequest {
        program: String::from_str("ffmpeg"),
        args,
        input: ToolInput::Media { write_timeout_secs: THUMBNAIL_WRITE_TIMEOUT_SECS },
        wait_timeout_secs: THUMBNAIL_READ_TIMEOUT_SECS,
    }
}

} // verus!
