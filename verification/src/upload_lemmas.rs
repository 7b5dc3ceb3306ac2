//! What holds of every upload, whatever the file system does.

use vstd::prelude::*;
use crate::upload::{
    destination_path, next_stage, outcome_of, past_start, pending, upload_directory, ActionView,
    Event, FailureKind, Stage, UploadFormView, PART_LIMIT,
};

verus! {

/// The stage that an upload is at after the operations asked for have ended as
/// `events` tells, in that order, beginning at `stage`.
pub open spec fn run(stage: Stage, events: Seq<Event>, named: bool) -> Stage
    decreases events.len(),
{
    if events.len() == 0 {
        stage
    } else {
        next_stage(run(stage, events.drop_last(), named), events.last(), named)
    }
}

/// Whether the first `count` events all report success.
pub open spec fn all_done(events: Seq<Event>, count: int) -> bool {
    forall|i: int| 0 <= i < count ==> #[trigger] events[i] == Event::Done
}

/// Where an upload stands after any events, counted from the start.
///
/// It stands at the stage that as many successes lead to, and only if nothing
/// failed before and the form declares a file name; it is completed after four
/// successes, whatever follows them; in every other case it has failed.
pub proof fn lemma_run_from_start(events: Seq<Event>, named: bool)
    ensures
        run(Stage::Start, events, named) is Start <==> events.len() == 0,
        run(Stage::Start, events, named) is DirectoryEnsured <==> named && events.len() == 1
            && all_done(events, 1),
        run(Stage::Start, events, named) is DestinationOpened <==> named && events.len() == 2
            && all_done(events, 2),
        run(Stage::Start, events, named) is CopyInProgress <==> named && events.len() == 3
            && all_done(events, 3),
        run(Stage::Start, events, named) is Completed <==> named && events.len() >= 4
            && all_done(events, 4),
    decreases events.len(),
{
    if events.len() > 0 {
        let before = events.drop_last();
        lemma_run_from_start(before, named);
        assert(forall|i: int| 0 <= i < before.len() ==> before[i] == events[i]);
        let stage = run(Stage::Start, before, named);
        let next = run(Stage::Start, events, named);
        assert(next == next_stage(stage, events.last(), named));
        assert(events.last() == events[events.len() - 1]);
        if next is DirectoryEnsured {
            assert(stage is Start);
        }
        if next is DestinationOpened {
            assert(stage is DirectoryEnsured);
            assert(all_done(before, 1));
        }
        if next is CopyInProgress {
            assert(stage is DestinationOpened);
            assert(all_done(before, 2));
        }
        if next is Completed {
            assert(stage is CopyInProgress || stage is Completed);
            assert(all_done(before, 3));
        }
        if named && events.len() == 1 && all_done(events, 1) {
            assert(events[0] == Event::Done);
        }
        if named && events.len() == 2 && all_done(events, 2) {
            assert(all_done(before, 1));
            assert(events[1] == Event::Done);
        }
        if named && events.len() == 3 && all_done(events, 3) {
            assert(all_done(before, 2));
            assert(events[2] == Event::Done);
        }
        if named && events.len() >= 4 && all_done(events, 4) {
            if events.len() == 4 {
                assert(all_done(before, 3));
                assert(events[3] == Event::Done);
            } else {
                assert(all_done(before, 4));
            }
        }
    }
}

/// An upload that is completed or has failed stays as it is: no later event
/// turns a failure into a success, or a success into a failure.
pub proof fn lemma_settled_stays(stage: Stage, events: Seq<Event>, named: bool)
    requires
        stage is Completed || stage is Failed,
    ensures
        run(stage, events, named) == stage,
    decreases events.len(),
{
    if events.len() > 0 {
        lemma_settled_stays(stage, events.drop_last(), named);
    }
}

/// No upload gets past the start without a file name.
pub proof fn lemma_named_past_start(events: Seq<Event>, named: bool)
    ensures
        past_start(run(Stage::Start, events, named)) ==> named,
{
    lemma_run_from_start(events, named);
}

/// Every upload begins with the directory, and none gets further unless the
/// directory is reported to be there.
pub proof fn lemma_directory_comes_first(form: UploadFormView, events: Seq<Event>)
    ensures
        pending(Stage::Start, form) == (ActionView::EnsureDirectory { path: upload_directory() }),
        past_start(run(Stage::Start, events, form.file_name is Some)) ==> events.len() > 0
            && events[0] == Event::Done,
{
    lemma_run_from_start(events, form.file_name is Some);
    let stage = run(Stage::Start, events, form.file_name is Some);
    if past_start(stage) {
        assert(all_done(events, 1));
        assert(events[0] == Event::Done);
    }
}

/// Where the directory cannot be created, the upload fails for want of storage,
/// and at no time after that is the caller asked for anything but to tell the
/// client so: no destination file is created.
pub proof fn lemma_directory_failure_stops(form: UploadFormView, events: Seq<Event>, count: int)
    requires
        1 <= count <= events.len(),
        events[0] == Event::Failed,
    ensures
        run(Stage::Start, events.take(count), form.file_name is Some) == Stage::Failed(
            FailureKind::StorageUnavailable,
        ),
        pending(run(Stage::Start, events.take(count), form.file_name is Some), form) == (
        ActionView::Reject(FailureKind::StorageUnavailable)),
    decreases count,
{
    let named = form.file_name is Some;
    let seen = events.take(count);
    assert(seen.drop_last() =~= events.take(count - 1));
    if count == 1 {
        assert(run(Stage::Start, seen.drop_last(), named) == Stage::Start);
        assert(seen.last() == events[0]);
    } else {
        lemma_directory_failure_stops(form, events, count - 1);
    }
}

/// An upload is completed by four successes and by nothing less, and what is
/// then handed out is the destination under the client's file name, the name
/// from the metadata, and the size that the file part reports, which is within
/// the limit wherever the form is.
pub proof fn lemma_stored_upload(form: UploadFormView, events: Seq<Event>)
    requires
        run(Stage::Start, events, form.file_name is Some) is Completed,
    ensures
        form.file_name is Some,
        events.len() >= 4,
        all_done(events, 4),
        pending(run(Stage::Start, events, form.file_name is Some), form) == ActionView::Finish(
            outcome_of(form),
        ),
        outcome_of(form).path == destination_path(form.file_name->Some_0),
        outcome_of(form).name == form.name,
        outcome_of(form).size == form.size,
        form.wf() ==> outcome_of(form).size <= PART_LIMIT,
{
    lemma_run_from_start(events, form.file_name is Some);
}

/// Four successes complete the upload of a form that declares a file name;
/// one that declares none fails for want of it, whatever else succeeds.
pub proof fn lemma_four_successes()
    ensures
        run(Stage::Start, seq![Event::Done, Event::Done, Event::Done, Event::Done], true)
            == Stage::Completed,
        run(Stage::Start, seq![Event::Done, Event::Done, Event::Done, Event::Done], false)
            == Stage::Failed(FailureKind::MissingFilename),
{
    let events = seq![Event::Done, Event::Done, Event::Done, Event::Done];
    assert(events.drop_last() =~= seq![Event::Done, Event::Done, Event::Done]);
    assert(events.drop_last().drop_last() =~= seq![Event::Done, Event::Done]);
    assert(events.drop_last().drop_last().drop_last() =~= seq![Event::Done]);
    reveal_with_fuel(run, 5);
}

/// Two uploads are stored at the same place exactly when the client gave them
/// the same file name: nothing else goes into the destination, so the second
/// of two uploads under one name writes over the first.
pub proof fn lemma_destination_by_name(first: Seq<char>, second: Seq<char>)
    ensures
        destination_path(first) == destination_path(second) <==> first == second,
{
    let prefix = "uploads/"@;
    if destination_path(first) == destination_path(second) {
        assert((prefix + first).subrange(prefix.len() as int, (prefix + first).len() as int)
            =~= first);
        assert((prefix + second).subrange(prefix.len() as int, (prefix + second).len() as int)
            =~= second);
        assert(first == second);
    }
}

} // verus!
