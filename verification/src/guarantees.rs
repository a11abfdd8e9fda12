//! What holds of every conversion, whatever the driver reports and in
//! whatever order.
//!
//! The statements here speak of a conversion's history: the events reported
//! since it was created. They are proved from the transition function alone.

use crate::error::{PipelineError, EXIT_SUCCESS};
use crate::invocation::{SandboxReportView, Stage};
use crate::pipeline::{
    action_for, invocation_of, temp_path_of, transition, ActionView, ConversionRequestView,
    EventView, StateView,
};
use vstd::prelude::*;

verus! {

/// The state reached from `state` when `events` are reported in order.
pub open spec fn run(state: StateView, events: Seq<EventView>) -> StateView
    decreases events.len(),
{
    if events.len() == 0 {
        state
    } else {
        transition(run(state, events.drop_last()), events.last())
    }
}

/// The state of a conversion with history `events`.
pub open spec fn state_after(events: Seq<EventView>) -> StateView {
    run(StateView::Ready, events)
}

/// How far a conversion has come. A failed conversion has no rank.
pub open spec fn rank(state: StateView) -> int {
    match state {
        StateView::Ready => 0,
        StateView::Stage1Running { .. } => 1,
        StateView::Stage1Ok { .. } => 2,
        StateView::Stage2Running { .. } => 3,
        StateView::Stage2Ok { .. } => 4,
        StateView::Persisted => 5,
        StateView::Done => 6,
        StateView::Failed { .. } => -1,
    }
}

/// The event at position `at` is the successful end of the sandbox of
/// `stage`: it was reported while that stage's invocation was pending, the
/// process had exited with status zero, and `output` is all it wrote.
pub open spec fn stage_exited_at(
    events: Seq<EventView>,
    at: int,
    stage: Stage,
    output: Seq<u8>,
) -> bool {
    &&& 0 <= at < events.len()
    &&& match stage {
        Stage::DocToPixels => state_after(events.take(at)) is Stage1Running,
        Stage::PixelsToPdf => state_after(events.take(at)) is Stage2Running,
    }
    &&& events[at] matches EventView::SandboxFinished { report }
    &&& report.succeeded()
    &&& report.stdout == output
}

/// The output that the history holds of the sandbox of `stage`, if that
/// sandbox has come to a successful end.
pub open spec fn stage_output(events: Seq<EventView>, stage: Stage) -> Option<Seq<u8>>
    decreases events.len(),
{
    if events.len() == 0 {
        None
    } else if stage_exited_at(events, events.len() - 1, stage, ended_with(events.last())) {
        Some(ended_with(events.last()))
    } else {
        stage_output(events.drop_last(), stage)
    }
}

/// The output carried by an event that reports the end of a sandbox.
pub open spec fn ended_with(event: EventView) -> Seq<u8> {
    match event {
        EventView::SandboxFinished { report } => report.stdout,
        _ => Seq::empty(),
    }
}

/// The bytes that the history's completed persist step has put at the
/// destination, if there was such a step.
pub open spec fn persisted(events: Seq<EventView>) -> Option<Seq<u8>>
    decreases events.len(),
{
    if events.len() == 0 {
        None
    } else {
        match (state_after(events.drop_last()), events.last()) {
            (StateView::Stage2Ok { pdf }, EventView::OutputWritten) => Some(pdf),
            _ => persisted(events.drop_last()),
        }
    }
}

/// What the destination holds after a history, where it held `before` when
/// the conversion was created (`None` for a destination that does not
/// exist), given a driver that reports a written output exactly when it has
/// moved the whole PDF into place.
pub open spec fn destination_after(
    before: Option<Seq<u8>>,
    events: Seq<EventView>,
) -> Option<Seq<u8>> {
    match persisted(events) {
        Some(pdf) => Some(pdf),
        None => before,
    }
}

/// The history of a conversion in which every action succeeds.
pub open spec fn successful_history(
    input: Seq<u8>,
    first: SandboxReportView,
    second: SandboxReportView,
) -> Seq<EventView> {
    seq![
        EventView::InputRead { bytes: input },
        EventView::SandboxFinished { report: first },
        EventView::Proceeded,
        EventView::SandboxFinished { report: second },
        EventView::OutputWritten,
        EventView::Proceeded,
    ]
}

/// A finished conversion stays as it is: no event leads out of success or
/// out of failure.
pub proof fn lemma_finished_is_final(state: StateView, event: EventView)
    requires
        state is Done || state is Failed,
    ensures
        transition(state, event) == state,
{
}

/// An event moves a conversion by one phase at most: it stays where it is,
/// fails, or enters the phase that follows. No phase is skipped and none is
/// entered again.
pub proof fn lemma_one_phase_at_a_time(state: StateView, event: EventView)
    ensures
        ({
            let next = transition(state, event);
            ||| next == state
            ||| next is Failed
            ||| rank(next) == rank(state) + 1
        }),
{
}

/// A sandbox is asked for only while its stage is the current one, and is
/// given exactly the bytes that the conversion holds at that moment; the
/// destination is asked to change only once the second stage has succeeded.
pub proof fn lemma_actions_follow_phase(request: ConversionRequestView, state: StateView)
    ensures
        action_for(request, state) is Invoke <==> state is Stage1Running || state is Stage2Running,
        state matches StateView::Stage1Running { input } ==> action_for(request, state)
            == invocation_of(request, Stage::DocToPixels, input),
        state matches StateView::Stage2Running { pixels } ==> action_for(request, state)
            == invocation_of(request, Stage::PixelsToPdf, pixels),
        action_for(request, state) is Persist <==> state is Stage2Ok,
        action_for(request, state) is Finish <==> state is Done,
        action_for(request, state) is Abandon <==> state is Failed,
{
}

/// What a history that has brought a conversion to `state` must hold.
spec fn history_matches(events: Seq<EventView>) -> bool {
    let pixels = stage_output(events, Stage::DocToPixels);
    let pdf = stage_output(events, Stage::PixelsToPdf);
    let written = persisted(events);
    &&& pdf is Some ==> pixels is Some
    &&& written is Some ==> written == pdf
    &&& match state_after(events) {
        StateView::Ready => pixels is None && pdf is None && written is None,
        StateView::Stage1Running { .. } => pixels is None && pdf is None && written is None,
        StateView::Stage1Ok { pixels: held } => pixels == Some(held) && pdf is None
            && written is None,
        StateView::Stage2Running { pixels: held } => pixels == Some(held) && pdf is None
            && written is None,
        StateView::Stage2Ok { pdf: held } => pdf == Some(held) && written is None,
        StateView::Persisted => written is Some,
        StateView::Done => written is Some,
        StateView::Failed { error } => error != PipelineError::Cancelled ==> written is None,
    }
}

proof fn lemma_history_matches(events: Seq<EventView>)
    ensures
        history_matches(events),
    decreases events.len(),
{
    if events.len() > 0 {
        let earlier = events.drop_last();
        lemma_history_matches(earlier);
        assert(events.take(events.len() - 1) == earlier);
    }
}

proof fn lemma_stage_output_has_origin(events: Seq<EventView>, stage: Stage)
    requires
        stage_output(events, stage) is Some,
    ensures
        exists|at: int| #[trigger]
            stage_exited_at(events, at, stage, stage_output(events, stage)->Some_0),
    decreases events.len(),
{
    let output = stage_output(events, stage)->Some_0;
    if stage_exited_at(events, events.len() - 1, stage, ended_with(events.last())) {
        assert(stage_exited_at(events, events.len() - 1, stage, output));
    } else {
        let earlier = events.drop_last();
        lemma_stage_output_has_origin(earlier, stage);
        let at = choose|at: int| #[trigger] stage_exited_at(earlier, at, stage, output);
        assert(earlier.take(at) == events.take(at));
        assert(stage_exited_at(events, at, stage, output));
    }
}

/// The second stage is asked for only after the first stage's process has
/// ended: wherever the invocation of the second stage is pending, the
/// history holds, at an earlier position, the report that the first sandbox
/// exited with status zero and that all of its output was collected. What
/// the second stage is given on standard input is that output, byte for
/// byte.
pub proof fn lemma_second_stage_follows_first_exit(
    request: ConversionRequestView,
    events: Seq<EventView>,
)
    requires
        action_for(request, state_after(events)) matches ActionView::Invoke { stage, .. }
            && stage == Stage::PixelsToPdf,
    ensures
        state_after(events) is Stage2Running,
        exists|at: int| #[trigger]
            stage_exited_at(
                events,
                at,
                Stage::DocToPixels,
                action_for(request, state_after(events))->Invoke_stdin,
            ),
{
    lemma_history_matches(events);
    lemma_stage_output_has_origin(events, Stage::DocToPixels);
    let pixels = stage_output(events, Stage::DocToPixels)->Some_0;
    let at = choose|at: int| #[trigger] stage_exited_at(events, at, Stage::DocToPixels, pixels);
    assert(action_for(request, state_after(events))->Invoke_stdin == pixels);
    assert(stage_exited_at(events, at, Stage::DocToPixels, pixels));
}

/// The PDF that is to be put at the destination is the whole output of the
/// second stage's sandbox, which had exited with status zero, and nothing
/// else.
pub proof fn lemma_persisted_bytes_are_second_stage_output(
    request: ConversionRequestView,
    events: Seq<EventView>,
)
    requires
        action_for(request, state_after(events)) is Persist,
    ensures
        exists|at: int| #[trigger]
            stage_exited_at(
                events,
                at,
                Stage::PixelsToPdf,
                action_for(request, state_after(events))->Persist_bytes,
            ),
{
    lemma_history_matches(events);
    lemma_stage_output_has_origin(events, Stage::PixelsToPdf);
    let pdf = stage_output(events, Stage::PixelsToPdf)->Some_0;
    let at = choose|at: int| #[trigger] stage_exited_at(events, at, Stage::PixelsToPdf, pdf);
    assert(action_for(request, state_after(events))->Persist_bytes == pdf);
    assert(stage_exited_at(events, at, Stage::PixelsToPdf, pdf));
}

/// The destination changes in one step or not at all. Until the PDF has
/// been moved into place the destination holds what it held before, however
/// the conversion goes: in every phase up to the persist step, and after
/// every failure other than an interrupt. Whatever happens, the destination
/// holds either what it held before or the complete output of a second
/// stage that succeeded, never anything in between.
///
/// An interrupt is left out of the second statement because it can arrive
/// after the PDF is in place: the conversion is then reported as cancelled
/// although the destination already holds the new PDF.
pub proof fn lemma_destination_changes_atomically(before: Option<Seq<u8>>, events: Seq<EventView>)
    ensures
        0 <= rank(state_after(events)) <= 4 ==> destination_after(before, events) == before,
        state_after(events) matches StateView::Failed { error } && error
            != PipelineError::Cancelled ==> destination_after(before, events) == before,
        destination_after(before, events) == before || (destination_after(before, events)
            is Some && destination_after(before, events) == stage_output(
            events,
            Stage::PixelsToPdf,
        )),
        state_after(events) is Persisted || state_after(events) is Done ==> destination_after(
            before,
            events,
        ) is Some && destination_after(before, events) == stage_output(
            events,
            Stage::PixelsToPdf,
        ),
{
    lemma_history_matches(events);
}

/// A conversion adds nothing of its own to its result. Where the input is
/// read and both sandboxes succeed, the first stage is given the input, the
/// second stage is given what the first one wrote, and the destination ends
/// up holding what the second one wrote, byte for byte. Two conversions of
/// the same input therefore leave the same PDF whenever the converters give
/// the same output, whatever the destination held before.
pub proof fn lemma_success_is_determined(
    request: ConversionRequestView,
    input: Seq<u8>,
    first: SandboxReportView,
    second: SandboxReportView,
    before: Option<Seq<u8>>,
    other_before: Option<Seq<u8>>,
)
    requires
        first.succeeded(),
        second.succeeded(),
    ensures
        ({
            let events = successful_history(input, first, second);
            &&& action_for(request, state_after(events.take(0))) == (ActionView::ReadInput {
                path: request.input_path,
            })
            &&& action_for(request, state_after(events.take(1))) == invocation_of(
                request,
                Stage::DocToPixels,
                input,
            )
            &&& action_for(request, state_after(events.take(2))) == ActionView::Proceed
            &&& action_for(request, state_after(events.take(3))) == invocation_of(
                request,
                Stage::PixelsToPdf,
                first.stdout,
            )
            &&& action_for(request, state_after(events.take(4))) == (ActionView::Persist {
                temp_path: temp_path_of(request.output_path),
                output_path: request.output_path,
                bytes: second.stdout,
            })
            &&& action_for(request, state_after(events.take(5))) == ActionView::Proceed
            &&& state_after(events) == StateView::Done
            &&& action_for(request, state_after(events)) == (ActionView::Finish {
                exit_code: EXIT_SUCCESS,
            })
            &&& destination_after(before, events) == Some(second.stdout)
            &&& destination_after(other_before, events) == destination_after(before, events)
        }),
{
    let events = successful_history(input, first, second);
    let e0 = events.take(0);
    let e1 = events.take(1);
    let e2 = events.take(2);
    let e3 = events.take(3);
    let e4 = events.take(4);
    let e5 = events.take(5);
    assert(e1.drop_last() == e0 && e1.last() == events[0]);
    assert(e2.drop_last() == e1 && e2.last() == events[1]);
    assert(e3.drop_last() == e2 && e3.last() == events[2]);
    assert(e4.drop_last() == e3 && e4.last() == events[3]);
    assert(e5.drop_last() == e4 && e5.last() == events[4]);
    assert(events.drop_last() == e5 && events.last() == events[5]);
    assert(state_after(e0) == StateView::Ready);
    assert(state_after(e1) == StateView::Stage1Running { input });
    assert(state_after(e2) == StateView::Stage1Ok { pixels: first.stdout });
    assert(state_after(e3) == StateView::Stage2Running { pixels: first.stdout });
    assert(state_after(e4) == StateView::Stage2Ok { pdf: second.stdout });
    assert(state_after(e5) == StateView::Persisted);
    assert(state_after(events) == StateView::Done);
    assert(persisted(e5) == Some(second.stdout));
    assert(persisted(events) == Some(second.stdout));
}

} // verus!
