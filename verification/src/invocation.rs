//! A single sandbox invocation: the command line a stage is started with,
//! and the verdict on what the finished sandbox reported.

use crate::confinement::{
    get_security_args, lemma_mismatch_is_not_network, lemma_profile_disables_network,
    names_network, network_disabled_only_at, network_flag_index, security_args,
};
use vstd::prelude::*;

verus! {

broadcast use vstd::string::group_string_axioms;

/// Reference of the container image that holds both converters.
pub const IMAGE_NAME: &'static str = "ghcr.io/freedomofpress/dangerzone/v1";

/// The two conversions, each run in a sandbox of its own.
#[derive(Clone, Copy, Debug, PartialEq, Eq)]
pub enum Stage {
    /// Renders the untrusted document to a pixel stream.
    DocToPixels,
    /// Encodes a pixel stream as a fresh PDF.
    PixelsToPdf,
}

impl Stage {
    /// Ordinal of the stage: 1 for the first conversion, 2 for the second.
    pub open spec fn ordinal(self) -> int {
        match self {
            Stage::DocToPixels => 1,
            Stage::PixelsToPdf => 2,
        }
    }

    /// Ordinal of the stage, as used in messages.
    pub fn number(self) -> (n: u8)
        ensures
            n == self.ordinal(),
    {
        match self {
            Stage::DocToPixels => 1,
            Stage::PixelsToPdf => 2,
        }
    }
}

/// Module that the interpreter runs for a stage.
pub open spec fn module_name(stage: Stage) -> Seq<char> {
    match stage {
        Stage::DocToPixels => "dangerzone.conversion.doc_to_pixels"@,
        Stage::PixelsToPdf => "dangerzone.conversion.pixels_to_pdf"@,
    }
}

/// Whether a stage's converter is asked for a searchable text layer. Only
/// the second stage ever is.
pub open spec fn wants_ocr(stage: Stage, ocr: bool) -> bool {
    ocr && stage == Stage::PixelsToPdf
}

/// The command run inside the sandbox: the interpreter, the stage's module
/// and, where a text layer is wanted, the converter's switch for it.
pub open spec fn entry_command(stage: Stage, ocr: bool) -> Seq<Seq<char>> {
    let plain = seq!["/usr/bin/python3"@, "-m"@, module_name(stage)];
    if wants_ocr(stage, ocr) {
        plain.push("--ocr"@)
    } else {
        plain
    }
}

/// The part of the command line that the runtime itself interprets: the
/// subcommand, the confinement profile, removal of the container at exit,
/// an open standard input, and the image.
pub open spec fn runtime_args(image: Seq<char>) -> Seq<Seq<char>> {
    seq!["run"@] + security_args() + seq!["--rm"@, "-i"@, image]
}

/// Arguments for running `entry` in a one-shot sandbox made from `image`.
pub open spec fn run_args(image: Seq<char>, entry: Seq<Seq<char>>) -> Seq<Seq<char>> {
    runtime_args(image) + entry
}

/// Arguments the runtime is called with for a stage.
pub open spec fn stage_args(stage: Stage, ocr: bool) -> Seq<Seq<char>> {
    run_args(IMAGE_NAME@, entry_command(stage, ocr))
}

/// Builds the command that a stage runs inside its sandbox.
pub fn build_entry_command(stage: Stage, ocr: bool) -> (entry: Vec<String>)
    ensures
        entry.deep_view() == entry_command(stage, ocr),
{
    let module = match stage {
        Stage::DocToPixels => "dangerzone.conversion.doc_to_pixels",
        Stage::PixelsToPdf => "dangerzone.conversion.pixels_to_pdf",
    };
    let mut entry = vec!["/usr/bin/python3".to_string(), "-m".to_string(), module.to_string()];
    match stage {
        Stage::PixelsToPdf => {
            if ocr {
                entry.push("--ocr".to_string());
            }
        },
        Stage::DocToPixels => {},
    }
    assert(entry.deep_view() =~= entry_command(stage, ocr));
    entry
}

/// Builds the runtime's arguments for running `entry` in a one-shot sandbox
/// made from `image`.
pub fn build_run_args(image: &str, entry: Vec<String>) -> (args: Vec<String>)
    ensures
        args.deep_view() == run_args(image@, entry.deep_view()),
{
    let mut tail = entry;
    let mut profile = get_security_args();
    let mut args = vec!["run".to_string()];
    args.append(&mut profile);
    args.push("--rm".to_string());
    args.push("-i".to_string());
    args.push(image.to_string());
    args.append(&mut tail);
    assert(args.deep_view() =~= run_args(image@, entry.deep_view()));
    args
}

/// Builds the runtime's arguments for a stage.
///
/// Whatever the stage and the options, the result switches networking off
/// exactly once and addresses the network option nowhere else.
pub fn build_stage_args(stage: Stage, ocr: bool) -> (args: Vec<String>)
    ensures
        args.deep_view() == stage_args(stage, ocr),
        network_disabled_only_at(args.deep_view(), 1 + network_flag_index()),
{
    proof {
        lemma_stage_args_disable_network(stage, ocr);
    }
    build_run_args(IMAGE_NAME, build_entry_command(stage, ocr))
}

/// Any two invocations are started under the very same confinement
/// profile, whatever their stages and options. Everything else that the
/// runtime interprets is the same as well: the command lines differ only in
/// the command that runs inside the sandbox.
pub proof fn lemma_confinement_is_uniform(stage_a: Stage, ocr_a: bool, stage_b: Stage, ocr_b: bool)
    ensures
        stage_args(stage_a, ocr_a).subrange(1, 1 + security_args().len() as int)
            == security_args(),
        stage_args(stage_a, ocr_a).subrange(1, 1 + security_args().len() as int) == stage_args(
            stage_b,
            ocr_b,
        ).subrange(1, 1 + security_args().len() as int),
        runtime_args(IMAGE_NAME@).is_prefix_of(stage_args(stage_a, ocr_a)),
        stage_args(stage_a, ocr_a).skip(runtime_args(IMAGE_NAME@).len() as int) == entry_command(
            stage_a,
            ocr_a,
        ),
{
    let head = runtime_args(IMAGE_NAME@);
    let profile = security_args();
    let a = stage_args(stage_a, ocr_a);
    let b = stage_args(stage_b, ocr_b);
    assert(a.subrange(1, 1 + profile.len() as int) =~= profile);
    assert(b.subrange(1, 1 + profile.len() as int) =~= profile);
    assert(a.subrange(0, head.len() as int) =~= head);
    assert(a.skip(head.len() as int) =~= entry_command(stage_a, ocr_a));
}

/// The request for a text layer reaches the second stage only: the first
/// stage is started exactly as it is without the request, and the second
/// stage's command line grows by the converter's switch and nothing else.
pub proof fn lemma_ocr_reaches_second_stage_only(ocr: bool)
    ensures
        stage_args(Stage::DocToPixels, ocr) == stage_args(Stage::DocToPixels, false),
        stage_args(Stage::PixelsToPdf, true) == stage_args(Stage::PixelsToPdf, false).push(
            "--ocr"@,
        ),
        stage_args(Stage::PixelsToPdf, true) != stage_args(Stage::PixelsToPdf, false),
{
    let plain = stage_args(Stage::PixelsToPdf, false);
    let with_ocr = stage_args(Stage::PixelsToPdf, true);
    assert(with_ocr =~= plain.push("--ocr"@));
    assert(with_ocr.len() == plain.len() + 1);
}

/// Where `image` does not itself address the network option, the arguments
/// that the runtime interprets switch networking off exactly once, within
/// the confinement profile, and hold nothing that could switch it back on.
pub proof fn lemma_runtime_args_disable_network(image: Seq<char>)
    requires
        !names_network(image),
    ensures
        network_disabled_only_at(runtime_args(image), 1 + network_flag_index()),
{
    lemma_profile_disables_network();
    reveal_strlit("--net");
    reveal_strlit("run");
    reveal_strlit("--rm");
    reveal_strlit("-i");
    let args = runtime_args(image);
    let profile = security_args();
    lemma_mismatch_is_not_network(args[0], 0);
    lemma_mismatch_is_not_network(args[14], 2);
    lemma_mismatch_is_not_network(args[15], 1);
    assert forall|j: int| 0 <= j < args.len() && j != 1 + network_flag_index() implies !names_network(
        #[trigger] args[j],
    ) by {
        if 1 <= j < 14 {
            assert(args[j] == profile[j - 1]);
        }
    }
}

/// Every command line that a conversion hands to the runtime switches
/// networking off exactly once and holds no argument, anywhere, that
/// addresses the network option otherwise.
pub proof fn lemma_stage_args_disable_network(stage: Stage, ocr: bool)
    ensures
        network_disabled_only_at(stage_args(stage, ocr), 1 + network_flag_index()),
{
    reveal_strlit("--net");
    reveal_strlit("ghcr.io/freedomofpress/dangerzone/v1");
    reveal_strlit("/usr/bin/python3");
    reveal_strlit("-m");
    reveal_strlit("dangerzone.conversion.doc_to_pixels");
    reveal_strlit("dangerzone.conversion.pixels_to_pdf");
    reveal_strlit("--ocr");
    let head = runtime_args(IMAGE_NAME@);
    let entry = entry_command(stage, ocr);
    let args = stage_args(stage, ocr);
    lemma_mismatch_is_not_network(IMAGE_NAME@, 0);
    lemma_runtime_args_disable_network(IMAGE_NAME@);
    lemma_mismatch_is_not_network(entry[0], 0);
    lemma_mismatch_is_not_network(entry[1], 1);
    lemma_mismatch_is_not_network(entry[2], 0);
    if wants_ocr(stage, ocr) {
        lemma_mismatch_is_not_network(entry[3], 2);
    }
    assert forall|j: int| 0 <= j < args.len() && j != 1 + network_flag_index() implies !names_network(
        #[trigger] args[j],
    ) by {
        if j < head.len() {
            assert(args[j] == head[j]);
        } else {
            assert(args[j] == entry[j - head.len()]);
        }
    }
}

/// What the driver observed of one sandbox, from spawn to exit.
#[derive(Clone, Debug, PartialEq, Eq)]
pub struct SandboxReport {
    /// The runtime process was started.
    pub spawned: bool,
    /// The whole payload was written to standard input and the pipe closed.
    pub stdin_delivered: bool,
    /// Standard output was read to its end without an error.
    pub stdout_drained: bool,
    /// Exit code of the reaped process, where it left one.
    pub exit_status: Option<i32>,
    /// Everything read from standard output.
    pub stdout: Vec<u8>,
}

/// A [`SandboxReport`] as a mathematical value.
pub struct SandboxReportView {
    pub spawned: bool,
    pub stdin_delivered: bool,
    pub stdout_drained: bool,
    pub exit_status: Option<i32>,
    pub stdout: Seq<u8>,
}

impl View for SandboxReport {
    type V = SandboxReportView;

    open spec fn view(&self) -> SandboxReportView {
        SandboxReportView {
            spawned: self.spawned,
            stdin_delivered: self.stdin_delivered,
            stdout_drained: self.stdout_drained,
            exit_status: self.exit_status,
            stdout: self.stdout@,
        }
    }
}

/// Why an invocation failed, named after the boundary that failed.
#[derive(Clone, Copy, Debug, PartialEq, Eq)]
pub enum InvokeError {
    /// The runtime could not be started.
    SpawnFailed,
    /// The payload could not be delivered in full.
    StdinWriteFailed,
    /// The output could not be collected in full.
    StdoutReadFailed,
    /// The sandbox ran but did not exit with status zero. The status is
    /// absent where the process left none.
    SandboxNonZeroExit { status: Option<i32> },
}

impl SandboxReportView {
    /// The sandbox ran to completion and reported success: it was started,
    /// took all of its input, gave all of its output and exited with zero.
    pub open spec fn succeeded(self) -> bool {
        &&& self.spawned
        &&& self.stdin_delivered
        &&& self.stdout_drained
        &&& self.exit_status == Some(0i32)
    }

    /// The failure a report stands for: the first boundary that failed, in
    /// the order in which an invocation crosses them.
    pub open spec fn failure(self) -> InvokeError
        recommends
            !self.succeeded(),
    {
        if !self.spawned {
            InvokeError::SpawnFailed
        } else if !self.stdin_delivered {
            InvokeError::StdinWriteFailed
        } else if !self.stdout_drained {
            InvokeError::StdoutReadFailed
        } else {
            InvokeError::SandboxNonZeroExit { status: self.exit_status }
        }
    }

    /// The verdict on a report: its output on success, else its failure.
    pub open spec fn verdict(self) -> Result<Seq<u8>, InvokeError> {
        if self.succeeded() {
            Ok(self.stdout)
        } else {
            Err(self.failure())
        }
    }
}

/// Judges a finished sandbox.
///
/// The exit status alone decides between success and failure of a sandbox
/// that ran: the output is handed on as it is, whatever its length.
pub fn judge(report: SandboxReport) -> (result: Result<Vec<u8>, InvokeError>)
    ensures
        result is Ok <==> report@.succeeded(),
        result matches Ok(bytes) ==> bytes == report.stdout,
        result matches Err(error) ==> error == report@.failure(),
        result == Err::<Vec<u8>, InvokeError>(InvokeError::SpawnFailed) <==> !report.spawned,
        result == Err::<Vec<u8>, InvokeError>(InvokeError::StdinWriteFailed) <==> report.spawned
            && !report.stdin_delivered,
        result == Err::<Vec<u8>, InvokeError>(InvokeError::StdoutReadFailed) <==> report.spawned
            && report.stdin_delivered && !report.stdout_drained,
        result matches Err(InvokeError::SandboxNonZeroExit { status }) <==> report.spawned
            && report.stdin_delivered && report.stdout_drained && report.exit_status != Some(
            0i32,
        ),
{
    if !report.spawned {
        return Err(InvokeError::SpawnFailed);
    }
    if !report.stdin_delivered {
        return Err(InvokeError::StdinWriteFailed);
    }
    if !report.stdout_drained {
        return Err(InvokeError::StdoutReadFailed);
    }
    match report.exit_status {
        Some(0) => Ok(report.stdout),
        status => Err(InvokeError::SandboxNonZeroExit { status }),
    }
}

} // verus!
