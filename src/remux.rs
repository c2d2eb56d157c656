//! Container normalization: a stream copy into MP4 first, a full reencode only
//! when the stream copy fails.
use crate::media::{push_arg, ToolInput, ToolRequest};
use vstd::prelude::*;

verus! {

#[derive(Debug, Clone, Copy, PartialEq, Eq, Structural)]
pub enum RemuxStage {
    /// Audio and video streams copied verbatim into the new container.
    StreamCopy,
    /// Video and audio encoded anew.
    Reencode,
}

/// How one stage ended.
pub enum StageOutcome {
    /// The tool succeeded; the finished container's bytes.
    Produced(Vec<u8>),
    /// The tool exited unsuccessfully; its error text.
    Rejected(String),
    /// The tool could not be run, ran out of time, or its output could not be
    /// read. Like a rejection, it is a failure of the stage: after the stream
    /// copy the reencode follows.
    Aborted,
}

#[derive(Debug, Clone, PartialEq, Eq)]
pub enum RemuxError {
    /// The reencode, tried after a failed stream copy, was rejected too.
    ReencodeRejected(String),
    /// The reencode, tried after a failed stream copy, could not be carried out.
    ReencodeAborted,
}

/// What to do next.
pub enum RemuxStep {
    Run(RemuxStage),
    Finished(Vec<u8>),
    Failed(RemuxError),
}

pub const REMUX_TIMEOUT_SECS: u64 = 20;

pub const REENCODE_TIMEOUT_SECS: u64 = 60;

/// The step after `stage` ended with `outcome`.
pub open spec fn step_after(stage: RemuxStage, outcome: StageOutcome) -> RemuxStep {
    match outcome {
        StageOutcome::Produced(out) => RemuxStep::Finished(out),
        StageOutcome::Rejected(err) => match stage {
            RemuxStage::StreamCopy => RemuxStep::Run(RemuxStage::Reencode),
            RemuxStage::Reencode => RemuxStep::Failed(RemuxError::ReencodeRejected(err)),
        },
        StageOutcome::Aborted => match stage {
            RemuxStage::StreamCopy => RemuxStep::Run(RemuxStage::Reencode),
            RemuxStage::Reencode => RemuxStep::Failed(RemuxError::ReencodeAborted),
        },
    }
}

/// The first step: always the stream copy.
pub fn remux_start() -> (r: RemuxStep)
    ensures
        r == RemuxStep::Run(RemuxStage::StreamCopy),
{
    RemuxStep::Run(RemuxStage::StreamCopy)
}

/// The step after `stage` ended with `outcome`.
pub fn remux_next(stage: RemuxStage, outcome: StageOutcome) -> (r: RemuxStep)
    ensures
        r == step_after(stage, outcome),
{
    match outcome {
        StageOutcome::Produced(out) => RemuxStep::Finished(out),
        StageOutcome::Rejected(err) => match stage {
            RemuxStage::StreamCopy => RemuxStep::Run(RemuxStage::Reencode),
            RemuxStage::Reencode => RemuxStep::Failed(RemuxError::ReencodeRejected(err)),
        },
        StageOutcome::Aborted => match stage {
            RemuxStage::StreamCopy => RemuxStep::Run(RemuxStage::Reencode),
            RemuxStage::Reencode => RemuxStep::Failed(RemuxError::ReencodeAborted),
        },
    }
}

/// When the tool rejects the stream copy and the reencode succeeds, the
/// stream copy is tried first, the reencode second, and the result is the
/// reencode's output.
pub proof fn remux_falls_back_in_order(copy_error: String, reencoded: Vec<u8>)
    ensures
        step_after(RemuxStage::StreamCopy, StageOutcome::Rejected(copy_error)) == RemuxStep::Run(
            RemuxStage::Reencode,
        ),
        step_after(RemuxStage::Reencode, StageOutcome::Produced(reencoded)) == RemuxStep::Finished(
            reencoded,
        ),
{
}

/// A stream copy that cannot be carried out (a timeout, a tool that cannot be
/// run, output that cannot be read) is followed by the reencode, whose output
/// is the result.
pub proof fn remux_falls_back_after_abort(reencoded: Vec<u8>)
    ensures
        step_after(RemuxStage::StreamCopy, StageOutcome::Aborted) == RemuxStep::Run(
            RemuxStage::Reencode,
        ),
        step_after(RemuxStage::Reencode, StageOutcome::Produced(reencoded)) == RemuxStep::Finished(
            reencoded,
        ),
{
}

/// A stream copy that succeeds is the result; no reencode follows.
pub proof fn remux_stream_copy_suffices(copied: Vec<u8>)
    ensures
        step_after(RemuxStage::StreamCopy, StageOutcome::Produced(copied)) == RemuxStep::Finished(
            copied,
        ),
{
}

/// Arguments of one stage, from the file at `input` to an MP4 file at
/// `output` with its index at the front.
pub open spec fn remux_args(stage: RemuxStage, input: Seq<char>, output: Seq<char>) -> Seq<
    Seq<char>,
> {
    let head = seq!["-hide_banner"@, "-loglevel"@, "error"@, "-i"@, input];
    let codecs = match stage {
        RemuxStage::StreamCopy => seq!["-c"@, "copy"@],
        RemuxStage::Reencode => seq![
            "-c:v"@,
            "libx264"@,
            "-preset"@,
            "fast"@,
            "-crf"@,
            "23"@,
            "-c:a"@,
            "aac"@,
        ],
    };
    head + codecs + seq!["-movflags"@, "+faststart"@, "-f"@, "mp4"@, "-y"@, output]
}

pub open spec fn stage_timeout(stage: RemuxStage) -> u64 {
    match stage {
        RemuxStage::StreamCopy => REMUX_TIMEOUT_SECS,
        RemuxStage::Reencode => REENCODE_TIMEOUT_SECS,
    }
}

/// The tool invocation of one stage.
pub fn remux_request(stage: RemuxStage, input: &str, output: &str) -> (r: ToolRequest)
    ensures
        r.program@ == "ffmpeg"@,
        r.args.deep_view() == remux_args(stage, input@, output@),
        r.input == ToolInput::Closed,
        r.wait_timeout_secs == stage_timeout(stage),
{
    let mut args: Vec<String> = Vec::new();
    push_arg(&mut args, "-hide_banner");
    push_arg(&mut args, "-loglevel");
    push_arg(&mut args, "error");
    push_arg(&mut args, "-i");
    push_arg(&mut args, input);
    match stage {
        RemuxStage::StreamCopy => {
            push_arg(&mut args, "-c");
            push_arg(&mut args, "copy");
        },
        RemuxStage::Reencode => {
            push_arg(&mut args, "-c:v");
            push_arg(&mut args, "libx264");
            push_arg(&mut args, "-preset");
            push_arg(&mut args, "fast");
            push_arg(&mut args, "-crf");
            push_arg(&mut args, "23");
            push_arg(&mut args, "-c:a");
            push_arg(&mut args, "aac");
        },
    }
    push_arg(&mut args, "-movflags");
    push_arg(&mut args, "+faststart");
    push_arg(&mut args, "-f");
    push_arg(&mut args, "mp4");
    push_arg(&mut args, "-y");
    push_arg(&mut args, output);
    assert(args.deep_view() =~= remux_args(stage, input@, output@));
    let wait_timeout_secs = match stage {
        RemuxStage::StreamCopy => REMUX_TIMEOUT_SECS,
        RemuxStage::Reencode => REENCODE_TIMEOUT_SECS,
    };
    ToolRequest { program: String::from_str("ffmpeg"), args, input: ToolInput::Closed, wait_timeout_secs }
}

} // verus!
