//! Whole runs of the pipeline: what holds of the answers to any series of
//! reports, whatever the caller reports and in whatever order.

use vstd::prelude::*;
use crate::failure::InstallFailure;
use crate::format::supported;
use crate::pipeline::{complete, proceed, Event, NextModel, Phase, Pipeline, ReactionModel};
use crate::progress::{lemma_level_bounded, lemma_level_monotonic, InstallProgress};

verus! {

/// The answers to a series of reports, one after another.
pub open spec fn answers(p: Pipeline, events: Seq<Event>) -> Seq<ReactionModel>
    decreases events.len(),
{
    if events.len() == 0 {
        Seq::empty()
    } else {
        seq![p.reaction(events[0])] + answers(p.after(events[0]), events.drop_first())
    }
}

/// The byte count fits at every chunk of the series.
pub open spec fn admits_all(p: Pipeline, events: Seq<Event>) -> bool
    decreases events.len(),
{
    events.len() > 0 ==> p.admits(events[0]) && admits_all(
        p.after(events[0]),
        events.drop_first(),
    )
}

/// The run is over: it succeeded or it failed.
pub open spec fn over(p: Pipeline) -> bool {
    p.phase == Phase::Finished || p.phase == Phase::Failed
}

/// The highest progress value that the run may have announced so far.
pub open spec fn shown(p: Pipeline) -> nat {
    match p.phase {
        Phase::Fetching => 0,
        Phase::CreatingFile | Phase::Streaming => p.tracker.last as nat,
        Phase::Opening | Phase::Extracting | Phase::Registering | Phase::Linking => 99,
        Phase::Finished | Phase::Failed => 100,
    }
}

/// The run has not yet come to the opening of the package.
pub open spec fn before_unpacking(p: Pipeline) -> bool {
    p.phase == Phase::Fetching || p.phase == Phase::CreatingFile || p.phase == Phase::Streaming
}

/// The answer asks for the package to be opened, unpacked or registered.
pub open spec fn touches_package(answer: ReactionModel) -> bool {
    answer.next == NextModel::OpenArchive || answer.next == NextModel::Extract
        || answer.next is WriteRegistry || answer.next is CreateShortcut
}

/// There is one answer to each report, and the answers after the first are
/// those of the run that the first report leaves behind.
pub proof fn lemma_answers_unfold(p: Pipeline, events: Seq<Event>)
    ensures
        answers(p, events).len() == events.len(),
        events.len() > 0 ==> answers(p, events)[0] == p.reaction(events[0]),
        forall|i: int|
            0 < i < events.len() ==> #[trigger] answers(p, events)[i] == answers(
                p.after(events[0]),
                events.drop_first(),
            )[i - 1],
    decreases events.len(),
{
    if events.len() > 0 {
        lemma_answers_unfold(p.after(events[0]), events.drop_first());
    }
}

/// Once a run is over, no report changes it or asks for anything.
pub proof fn lemma_over_is_over(p: Pipeline, events: Seq<Event>)
    requires
        over(p),
    ensures
        forall|i: int|
            0 <= i < events.len() ==> #[trigger] answers(p, events)[i] == proceed(
                NextModel::Nothing,
            ),
    decreases events.len(),
{
    lemma_answers_unfold(p, events);
    if events.len() > 0 {
        assert(p.after(events[0]) == p);
        lemma_over_is_over(p, events.drop_first());
    }
}

/// A failure is reported together with the removal of the save file, ends
/// the run, and is the last thing the run asks for.
pub proof fn lemma_failure_cleans_up(p: Pipeline, event: Event)
    ensures
        p.reaction(event).failure.is_some() ==> p.reaction(event).remove_save_file && p.reaction(
            event,
        ).next == NextModel::Stop && p.after(event).phase == Phase::Failed,
{
}

/// A run reports at most one failure: after the first, every answer is
/// empty.
pub proof fn lemma_at_most_one_failure(p: Pipeline, events: Seq<Event>)
    ensures
        forall|i: int, j: int|
            0 <= i < j < events.len() && (#[trigger] answers(p, events)[i]).failure.is_some()
                ==> #[trigger] answers(p, events)[j] == proceed(NextModel::Nothing),
    decreases events.len(),
{
    lemma_answers_unfold(p, events);
    if events.len() > 0 {
        let q = p.after(events[0]);
        let rest = events.drop_first();
        lemma_at_most_one_failure(q, rest);
        lemma_failure_cleans_up(p, events[0]);
        if p.reaction(events[0]).failure.is_some() {
            lemma_over_is_over(q, rest);
        }
        assert forall|i: int, j: int|
            0 <= i < j < events.len() && (#[trigger] answers(p, events)[i]).failure.is_some()
            implies #[trigger] answers(p, events)[j] == proceed(NextModel::Nothing) by {
            if i > 0 {
                assert(answers(q, rest)[i - 1].failure.is_some());
            }
        }
    }
}

/// One report never lowers what was shown, and a value it announces lies
/// strictly above all that was shown before.
pub proof fn lemma_step_raises_progress(p: Pipeline, event: Event)
    requires
        p.wf(),
        p.admits(event),
    ensures
        p.after(event).wf(),
        shown(p) <= shown(p.after(event)) <= 100,
        p.reaction(event).progress matches Some(value) ==> shown(p) < value.progress <= shown(
            p.after(event),
        ),
{
    match (p.phase, event) {
        (Phase::Streaming, Event::ChunkStored { len }) => {
            lemma_level_monotonic(
                p.tracker.total as nat,
                p.tracker.downloaded as nat,
                (p.tracker.downloaded + len) as nat,
            );
        },
        _ => {},
    }
}

/// The progress values of a run strictly increase from one announcement to
/// the next, whatever lies between them, and none exceeds 100.
pub proof fn lemma_progress_strictly_increases(p: Pipeline, events: Seq<Event>)
    requires
        p.wf(),
        admits_all(p, events),
    ensures
        forall|i: int|
            0 <= i < events.len() ==> ((#[trigger] answers(p, events)[i]).progress matches Some(
                value,
            ) ==> shown(p) < value.progress <= 100),
        forall|i: int, j: int|
            0 <= i < j < events.len() ==> ((#[trigger] answers(p, events)[i]).progress matches Some(
                earlier,
            ) ==> ((#[trigger] answers(p, events)[j]).progress matches Some(later)
                ==> earlier.progress < later.progress)),
    decreases events.len(),
{
    lemma_answers_unfold(p, events);
    if events.len() > 0 {
        let q = p.after(events[0]);
        let rest = events.drop_first();
        lemma_step_raises_progress(p, events[0]);
        lemma_progress_strictly_increases(q, rest);
        let all = answers(p, events);
        assert forall|i: int| 0 <= i < events.len() implies ((#[trigger] all[i]).progress matches Some(
            value,
        ) ==> shown(p) < value.progress <= 100) by {
            if i > 0 {
                assert(all[i] == answers(q, rest)[i - 1]);
            }
        }
        assert forall|i: int, j: int| 0 <= i < j < events.len() implies ((#[trigger] all[i]).progress matches Some(
            earlier,
        ) ==> ((#[trigger] all[j]).progress matches Some(later) ==> earlier.progress
            < later.progress)) by {
            assert(all[j] == answers(q, rest)[j - 1]);
            if i > 0 {
                assert(all[i] == answers(q, rest)[i - 1]);
            }
        }
    }
}

/// A part of the settings that is absent is never asked for: without a
/// registry record no registry write, without a shortcut record no shortcut.
pub proof fn lemma_absent_parts_are_skipped(p: Pipeline, events: Seq<Event>)
    ensures
        p.reg.is_none() ==> forall|i: int|
            0 <= i < events.len() ==> !((#[trigger] answers(p, events)[i]).next is WriteRegistry),
        p.short_cut.is_none() ==> forall|i: int|
            0 <= i < events.len() ==> !((#[trigger] answers(p, events)[i]).next is CreateShortcut),
    decreases events.len(),
{
    lemma_answers_unfold(p, events);
    if events.len() > 0 {
        let q = p.after(events[0]);
        assert(q.reg == p.reg && q.short_cut == p.short_cut);
        lemma_absent_parts_are_skipped(q, events.drop_first());
    }
}

/// A part of the settings that is present is asked for with the plan laid
/// out for it, and a registry failure ends the run before the shortcut.
pub proof fn lemma_present_parts_are_applied(p: Pipeline)
    requires
        p.phase == Phase::Extracting,
    ensures
        p.reg.is_some() ==> p.reaction(Event::Extracted).next is WriteRegistry,
        p.reg.is_none() && p.short_cut.is_some() ==> p.reaction(
            Event::Extracted,
        ).next is CreateShortcut,
        p.reg.is_some() && p.short_cut.is_some() ==> p.after(Event::Extracted).reaction(
            Event::RegistryWritten,
        ).next is CreateShortcut,
        p.reg.is_none() && p.short_cut.is_none() ==> p.reaction(Event::Extracted) == complete(),
{
}

/// Completion is announced only at the very end: after the last
/// registration step that the settings ask for, together with the removal of
/// the save file, and nothing is asked for after it.
pub proof fn lemma_completion_comes_last(p: Pipeline, event: Event)
    ensures
        p.reaction(event).progress == Some(InstallProgress { progress: 100 }) ==> p.reaction(event)
            == complete() && p.after(event).phase == Phase::Finished && (event is ShortcutCreated
            || (event is RegistryWritten && p.short_cut.is_none()) || (event is Extracted
            && p.reg.is_none() && p.short_cut.is_none())),
{
    match (p.phase, event) {
        (Phase::Streaming, Event::ChunkStored { len }) => {
            lemma_level_bounded(p.tracker.total as nat, (p.tracker.downloaded + len) as nat);
        },
        _ => {},
    }
}

/// A package of another format is never opened, unpacked or registered, and
/// its run never announces completion.
pub proof fn lemma_unsupported_format_is_never_unpacked(p: Pipeline, events: Seq<Event>)
    requires
        before_unpacking(p) || p.phase == Phase::Failed,
        !supported(p.extension@),
    ensures
        forall|i: int|
            0 <= i < events.len() ==> !touches_package(#[trigger] answers(p, events)[i]) && answers(
                p,
                events,
            )[i].progress != Some(InstallProgress { progress: 100 }),
    decreases events.len(),
{
    lemma_answers_unfold(p, events);
    if events.len() > 0 {
        let q = p.after(events[0]);
        assert(q.extension == p.extension);
        lemma_unsupported_format_is_never_unpacked(q, events.drop_first());
    }
}

/// At the end of the body a package of another format is reported as
/// unsupported, right after the value for a completed download.
pub proof fn lemma_unsupported_format_fails(p: Pipeline)
    requires
        p.phase == Phase::Streaming,
        !supported(p.extension@),
    ensures
        p.reaction(Event::StreamEnded).progress == Some(InstallProgress { progress: 99 }),
        p.reaction(Event::StreamEnded).failure == Some(
            InstallFailure::UnsupportedFormat { extension: p.extension },
        ),
{
}

/// A body of unknown or zero length streams without any announcement and
/// without any failure of its own, and its run goes on to the unpacking.
pub proof fn lemma_unknown_length_streams_on(p: Pipeline, len: u64)
    requires
        p.phase == Phase::Streaming,
        p.tracker.total == 0,
    ensures
        p.reaction(Event::ChunkStored { len }).progress.is_none(),
        p.reaction(Event::ChunkStored { len }).failure.is_none(),
        p.reaction(Event::ChunkStored { len }).next == NextModel::ReadChunk,
        p.after(Event::ChunkStored { len }).phase == Phase::Streaming,
        p.after(Event::ChunkStored { len }).tracker.total == 0,
        supported(p.extension@) ==> p.reaction(Event::StreamEnded).next == NextModel::OpenArchive
            && p.reaction(Event::StreamEnded).failure.is_none(),
{
}

} // verus!
