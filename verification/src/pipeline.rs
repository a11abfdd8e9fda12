//! The conversion as a state machine.
//!
//! A conversion is always in one of eight phases. Each phase has one pending
//! action, which the driver carries out; the event that reports how the action
//! went moves the conversion to its next phase. Nothing here touches a file or
//! a process: the machine only decides what is to be done next.

use crate::error::{stage_failure, PipelineError, EXIT_FAILURE, EXIT_SUCCESS};
use crate::invocation::{
    build_stage_args, judge, stage_args, SandboxReport, SandboxReportView, Stage,
};
use crate::runtime::{executable_name, select_runtime, RuntimePreference};
use vstd::prelude::*;
use vstd::string::StringExecFns;

verus! {

broadcast use vstd::string::group_string_axioms;

/// The host-side options of a conversion. There are no others.
#[derive(Clone, Copy, Debug, PartialEq, Eq)]
pub struct ConversionOptions {
    /// Ask the second stage for a searchable text layer.
    pub ocr: bool,
    /// The container runtime to use.
    pub runtime_preference: RuntimePreference,
}

impl Default for ConversionOptions {
    /// No text layer, and the rootless runtime.
    fn default() -> (options: ConversionOptions)
        ensures
            options == (ConversionOptions {
                ocr: false,
                runtime_preference: RuntimePreference::Rootless,
            }),
    {
        ConversionOptions { ocr: false, runtime_preference: RuntimePreference::Rootless }
    }
}

/// What is to be converted, to where, and how. A request is fixed when the
/// conversion is created and never changes afterwards.
#[derive(Clone, Debug, PartialEq, Eq)]
pub struct ConversionRequest {
    pub input_path: String,
    pub output_path: String,
    pub options: ConversionOptions,
}

/// A [`ConversionRequest`] as a mathematical value.
pub struct ConversionRequestView {
    pub input_path: Seq<char>,
    pub output_path: Seq<char>,
    pub options: ConversionOptions,
}

impl View for ConversionRequest {
    type V = ConversionRequestView;

    open spec fn view(&self) -> ConversionRequestView {
        ConversionRequestView {
            input_path: self.input_path@,
            output_path: self.output_path@,
            options: self.options,
        }
    }
}

/// The phases of a conversion, each holding the bytes that are in flight
/// while it lasts.
#[derive(Clone, Debug, PartialEq, Eq)]
pub enum State {
    /// Nothing has happened yet; the input is still to be read.
    Ready,
    /// The first stage is to be run on the document.
    Stage1Running { input: Vec<u8> },
    /// The first stage has exited with success and left its pixel stream.
    Stage1Ok { pixels: Vec<u8> },
    /// The second stage is to be run on the pixel stream.
    Stage2Running { pixels: Vec<u8> },
    /// The second stage has exited with success and left the PDF.
    Stage2Ok { pdf: Vec<u8> },
    /// The PDF is in place at the destination.
    Persisted,
    /// The conversion has succeeded and holds nothing any more.
    Done,
    /// The conversion has failed. Nothing follows.
    Failed { error: PipelineError },
}

/// A [`State`] as a mathematical value.
pub enum StateView {
    Ready,
    Stage1Running { input: Seq<u8> },
    Stage1Ok { pixels: Seq<u8> },
    Stage2Running { pixels: Seq<u8> },
    Stage2Ok { pdf: Seq<u8> },
    Persisted,
    Done,
    Failed { error: PipelineError },
}

impl View for State {
    type V = StateView;

    open spec fn view(&self) -> StateView {
        match *self {
            State::Ready => StateView::Ready,
            State::Stage1Running { input } => StateView::Stage1Running { input: input@ },
            State::Stage1Ok { pixels } => StateView::Stage1Ok { pixels: pixels@ },
            State::Stage2Running { pixels } => StateView::Stage2Running { pixels: pixels@ },
            State::Stage2Ok { pdf } => StateView::Stage2Ok { pdf: pdf@ },
            State::Persisted => StateView::Persisted,
            State::Done => StateView::Done,
            State::Failed { error } => StateView::Failed { error },
        }
    }
}

/// What the driver reports after carrying out an action.
#[derive(Clone, Debug, PartialEq, Eq)]
pub enum Event {
    /// The input file was read in full.
    InputRead { bytes: Vec<u8> },
    /// The input file could not be read.
    InputUnreadable,
    /// A sandbox has come to its end, one way or another.
    SandboxFinished { report: SandboxReport },
    /// An action that asks for no outside work is acknowledged.
    Proceeded,
    /// The PDF was moved into place at the destination.
    OutputWritten,
    /// The PDF could not be written or moved into place.
    OutputUnwritable,
    /// The user interrupted the conversion; a sandbox that was running has
    /// been terminated and reaped.
    Interrupted,
}

/// An [`Event`] as a mathematical value.
pub enum EventView {
    InputRead { bytes: Seq<u8> },
    InputUnreadable,
    SandboxFinished { report: SandboxReportView },
    Proceeded,
    OutputWritten,
    OutputUnwritable,
    Interrupted,
}

impl View for Event {
    type V = EventView;

    open spec fn view(&self) -> EventView {
        match *self {
            Event::InputRead { bytes } => EventView::InputRead { bytes: bytes@ },
            Event::InputUnreadable => EventView::InputUnreadable,
            Event::SandboxFinished { report } => EventView::SandboxFinished { report: report@ },
            Event::Proceeded => EventView::Proceeded,
            Event::OutputWritten => EventView::OutputWritten,
            Event::OutputUnwritable => EventView::OutputUnwritable,
            Event::Interrupted => EventView::Interrupted,
        }
    }
}

/// What the driver is asked to do. Payloads are lent from the conversion and
/// paths from its request.
#[derive(Debug, PartialEq, Eq)]
pub enum Action<'a> {
    /// Read the whole input file and report its bytes.
    ReadInput { path: &'a str },
    /// Run `program` with `args`, deliver `stdin` while collecting standard
    /// output, pass standard error through, wait for the exit, and report
    /// what was observed.
    Invoke { stage: Stage, program: &'static str, args: Vec<String>, stdin: &'a [u8] },
    /// Nothing is to be done outside; acknowledge to move on.
    Proceed,
    /// Write `bytes` to `temp_path` and rename it to `output_path`, so that
    /// the destination changes in one step or not at all.
    Persist { temp_path: String, output_path: &'a str, bytes: &'a [u8] },
    /// The conversion succeeded: end with `exit_code`.
    Finish { exit_code: i32 },
    /// The conversion failed: remove `temp_path` if it exists, tell the user
    /// the kind of `error`, and end with `exit_code`.
    Abandon { error: PipelineError, temp_path: String, exit_code: i32 },
}

/// An [`Action`] as a mathematical value.
pub enum ActionView {
    ReadInput { path: Seq<char> },
    Invoke { stage: Stage, program: Seq<char>, args: Seq<Seq<char>>, stdin: Seq<u8> },
    Proceed,
    Persist { temp_path: Seq<char>, output_path: Seq<char>, bytes: Seq<u8> },
    Finish { exit_code: i32 },
    Abandon { error: PipelineError, temp_path: Seq<char>, exit_code: i32 },
}

impl<'a> View for Action<'a> {
    type V = ActionView;

    open spec fn view(&self) -> ActionView {
        match *self {
            Action::ReadInput { path } => ActionView::ReadInput { path: path@ },
            Action::Invoke { stage, program, args, stdin } => ActionView::Invoke {
                stage,
                program: program@,
                args: args.deep_view(),
                stdin: stdin@,
            },
            Action::Proceed => ActionView::Proceed,
            Action::Persist { temp_path, output_path, bytes } => ActionView::Persist {
                temp_path: temp_path@,
                output_path: output_path@,
                bytes: bytes@,
            },
            Action::Finish { exit_code } => ActionView::Finish { exit_code },
            Action::Abandon { error, temp_path, exit_code } => ActionView::Abandon {
                error,
                temp_path: temp_path@,
                exit_code,
            },
        }
    }
}

/// Path of the temporary file that the PDF is written to before it is moved
/// into place: the destination's own path with a suffix, and therefore a
/// sibling of the destination.
pub open spec fn temp_path_of(output_path: Seq<char>) -> Seq<char> {
    output_path + ".part"@
}

/// The invocation of a stage on a payload.
pub open spec fn invocation_of(
    request: ConversionRequestView,
    stage: Stage,
    stdin: Seq<u8>,
) -> ActionView {
    ActionView::Invoke {
        stage,
        program: executable_name(request.options.runtime_preference),
        args: stage_args(stage, request.options.ocr),
        stdin,
    }
}

/// The action that is pending in a state.
pub open spec fn action_for(request: ConversionRequestView, state: StateView) -> ActionView {
    match state {
        StateView::Ready => ActionView::ReadInput { path: request.input_path },
        StateView::Stage1Running { input } => invocation_of(request, Stage::DocToPixels, input),
        StateView::Stage1Ok { .. } => ActionView::Proceed,
        StateView::Stage2Running { pixels } => invocation_of(request, Stage::PixelsToPdf, pixels),
        StateView::Stage2Ok { pdf } => ActionView::Persist {
            temp_path: temp_path_of(request.output_path),
            output_path: request.output_path,
            bytes: pdf,
        },
        StateView::Persisted => ActionView::Proceed,
        StateView::Done => ActionView::Finish { exit_code: EXIT_SUCCESS },
        StateView::Failed { error } => ActionView::Abandon {
            error,
            temp_path: temp_path_of(request.output_path),
            exit_code: EXIT_FAILURE,
        },
    }
}

/// The state that follows the run of a stage, given what its sandbox
/// reported.
pub open spec fn after_stage(stage: Stage, report: SandboxReportView) -> StateView {
    match report.verdict() {
        Ok(bytes) => match stage {
            Stage::DocToPixels => StateView::Stage1Ok { pixels: bytes },
            Stage::PixelsToPdf => StateView::Stage2Ok { pdf: bytes },
        },
        Err(error) => StateView::Failed { error: stage_failure(stage, error) },
    }
}

/// The state that follows `state` when `event` is reported.
///
/// A finished conversion stays as it is. An interrupt fails any conversion
/// that is not finished. Otherwise the event that answers the pending action
/// moves the conversion on, and any other event changes nothing.
pub open spec fn transition(state: StateView, event: EventView) -> StateView {
    match (state, event) {
        (StateView::Done, _) => state,
        (StateView::Failed { .. }, _) => state,
        (_, EventView::Interrupted) => StateView::Failed { error: PipelineError::Cancelled },
        (StateView::Ready, EventView::InputRead { bytes }) => StateView::Stage1Running {
            input: bytes,
        },
        (StateView::Ready, EventView::InputUnreadable) => StateView::Failed {
            error: PipelineError::InputUnavailable,
        },
        (StateView::Stage1Running { .. }, EventView::SandboxFinished { report }) => after_stage(
            Stage::DocToPixels,
            report,
        ),
        (StateView::Stage1Ok { pixels }, EventView::Proceeded) => StateView::Stage2Running {
            pixels,
        },
        (StateView::Stage2Running { .. }, EventView::SandboxFinished { report }) => after_stage(
            Stage::PixelsToPdf,
            report,
        ),
        (StateView::Stage2Ok { .. }, EventView::OutputWritten) => StateView::Persisted,
        (StateView::Stage2Ok { .. }, EventView::OutputUnwritable) => StateView::Failed {
            error: PipelineError::OutputUnwritable,
        },
        (StateView::Persisted, EventView::Proceeded) => StateView::Done,
        _ => state,
    }
}

/// Builds the path of the temporary file for a destination.
pub fn temp_path_for(output_path: &str) -> (path: String)
    ensures
        path@ == temp_path_of(output_path@),
{
    output_path.to_string().concat(".part")
}

/// Moves on from the run of a stage.
pub fn conclude_stage(stage: Stage, report: SandboxReport) -> (next: State)
    ensures
        next@ == after_stage(stage, report@),
{
    match judge(report) {
        Ok(bytes) => match stage {
            Stage::DocToPixels => State::Stage1Ok { pixels: bytes },
            Stage::PixelsToPdf => State::Stage2Ok { pdf: bytes },
        },
        Err(error) => State::Failed { error: PipelineError::from_stage(stage, error) },
    }
}

/// One conversion: its request, and the phase it is in.
#[derive(Debug)]
pub struct Conversion {
    request: ConversionRequest,
    state: State,
}

/// A [`Conversion`] as a mathematical value.
pub struct ConversionView {
    pub request: ConversionRequestView,
    pub state: StateView,
}

impl View for Conversion {
    type V = ConversionView;

    closed spec fn view(&self) -> ConversionView {
        ConversionView { request: self.request@, state: self.state@ }
    }
}

impl Conversion {
    /// Starts a conversion for a request.
    pub fn new(request: ConversionRequest) -> (conversion: Conversion)
        ensures
            conversion@ == (ConversionView { request: request@, state: StateView::Ready }),
    {
        Conversion { request, state: State::Ready }
    }

    /// The request this conversion was created for.
    pub fn request(&self) -> (request: &ConversionRequest)
        ensures
            request@ == self@.request,
    {
        &self.request
    }

    /// The phase the conversion is in.
    pub fn state(&self) -> (state: &State)
        ensures
            state@ == self@.state,
    {
        &self.state
    }

    /// Whether the conversion has come to its end, in success or in failure.
    pub fn is_finished(&self) -> (finished: bool)
        ensures
            finished <==> self@.state is Done || self@.state is Failed,
    {
        match &self.state {
            State::Done => true,
            State::Failed { .. } => true,
            _ => false,
        }
    }

    /// The action the driver is to carry out next.
    pub fn pending_action(&self) -> (action: Action<'_>)
        ensures
            action@ == action_for(self@.request, self@.state),
    {
        match &self.state {
            State::Ready => Action::ReadInput { path: self.request.input_path.as_str() },
            State::Stage1Running { input } => self.invoke(Stage::DocToPixels, input),
            State::Stage1Ok { .. } => Action::Proceed,
            State::Stage2Running { pixels } => self.invoke(Stage::PixelsToPdf, pixels),
            State::Stage2Ok { pdf } => Action::Persist {
                temp_path: temp_path_for(self.request.output_path.as_str()),
                output_path: self.request.output_path.as_str(),
                bytes: pdf.as_slice(),
            },
            State::Persisted => Action::Proceed,
            State::Done => Action::Finish { exit_code: EXIT_SUCCESS },
            State::Failed { error } => Action::Abandon {
                error: *error,
                temp_path: temp_path_for(self.request.output_path.as_str()),
                exit_code: EXIT_FAILURE,
            },
        }
    }

    fn invoke<'a>(&'a self, stage: Stage, stdin: &'a Vec<u8>) -> (action: Action<'a>)
        ensures
            action@ == invocation_of(self@.request, stage, stdin@),
    {
        let options = self.request.options;
        Action::Invoke {
            stage,
            program: select_runtime(options.runtime_preference).executable,
            args: build_stage_args(stage, options.ocr),
            stdin: stdin.as_slice(),
        }
    }

    /// Takes the driver's report and moves the conversion on.
    pub fn handle(self, event: Event) -> (next: Conversion)
        ensures
            next@.request == self@.request,
            next@.state == transition(self@.state, event@),
    {
        let Conversion { request, state } = self;
        let state = match (state, event) {
            (State::Done, _) => State::Done,
            (State::Failed { error }, _) => State::Failed { error },
            (_, Event::Interrupted) => State::Failed { error: PipelineError::Cancelled },
            (State::Ready, Event::InputRead { bytes }) => State::Stage1Running { input: bytes },
            (State::Ready, Event::InputUnreadable) => State::Failed {
                error: PipelineError::InputUnavailable,
            },
            (State::Stage1Running { .. }, Event::SandboxFinished { report }) => conclude_stage(
                Stage::DocToPixels,
                report,
            ),
            (State::Stage1Ok { pixels }, Event::Proceeded) => State::Stage2Running { pixels },
            (State::Stage2Running { .. }, Event::SandboxFinished { report }) => conclude_stage(
                Stage::PixelsToPdf,
                report,
            ),
            (State::Stage2Ok { .. }, Event::OutputWritten) => State::Persisted,
            (State::Stage2Ok { .. }, Event::OutputUnwritable) => State::Failed {
                error: PipelineError::OutputUnwritable,
            },
            (State::Persisted, Event::Proceeded) => State::Done,
            (state, _) => state,
        };
        Conversion { request, state }
    }
}

} // verus!
