//! What holds of every deployment, whatever the events: the remote directory
//! is created only with the operator's consent, an upload takes all its steps
//! in order, the binaries go up in the order of the list, and a session that
//! was opened is closed before the end.

use crate::config::{local_path, remote_path, ConfigView};
use crate::deploy::{
    failing, fits, initial, next_stage, pending, position, settled, take_up, upload_steps,
    ActionView, DeployError, EventView, Stage, UploadStep,
};
use crate::remote::affirmative;
use vstd::prelude::*;

verus! {

/// The stage reached from `s` when the events `events` come in, in order.
pub open spec fn run(c: ConfigView, s: Stage, events: Seq<EventView>) -> Stage
    decreases events.len(),
{
    if events.len() == 0 {
        s
    } else {
        next_stage(c, run(c, s, events.drop_last()), events.last())
    }
}

/// The stage that a deployment with `c` is in after the events `events`.
pub open spec fn stage_after(c: ConfigView, events: Seq<EventView>) -> Stage {
    run(c, initial(c), events)
}

/// The actions that create the remote directory and hand it over.
pub open spec fn is_provisioning(a: ActionView) -> bool {
    a is CreateDirectory || a is ChangeOwner
}

/// The events by which one upload succeeds for a file of `bytes` bytes: the
/// size, and then the success of each of the six steps that follow.
pub open spec fn upload_events(bytes: u64) -> Seq<EventView> {
    seq![
        EventView::Size(bytes),
        EventView::Done,
        EventView::Done,
        EventView::Done,
        EventView::Done,
        EventView::Done,
        EventView::Done,
    ]
}

/// The events by which the uploads of files of the sizes `sizes` succeed one
/// after the other.
pub open spec fn all_upload_events(sizes: Seq<u64>) -> Seq<EventView>
    decreases sizes.len(),
{
    if sizes.len() == 0 {
        Seq::<EventView>::empty()
    } else {
        all_upload_events(sizes.drop_last()) + upload_events(sizes.last())
    }
}

/// The initial stage fits, and every stage that follows a fitting stage fits.
pub proof fn lemma_stages_fit(c: ConfigView, s: Stage, e: EventView)
    ensures
        fits(c, initial(c)),
        fits(c, s) ==> fits(c, next_stage(c, s, e)),
{
}

/// Running over two runs of events is running over the first and then, from
/// where that ended, over the second.
pub proof fn lemma_run_append(
    c: ConfigView,
    s: Stage,
    first: Seq<EventView>,
    second: Seq<EventView>,
)
    ensures
        run(c, s, first + second) == run(c, run(c, s, first), second),
    decreases second.len(),
{
    if second.len() == 0 {
        assert(first + second =~= first);
    } else {
        lemma_run_append(c, s, first, second.drop_last());
        assert((first + second).drop_last() =~= first + second.drop_last());
        assert((first + second).last() == second.last());
    }
}

/// Running over one event is taking one step.
pub proof fn lemma_run_one(c: ConfigView, s: Stage, e: EventView)
    ensures
        run(c, s, seq![e]) == next_stage(c, s, e),
{
    assert(seq![e].drop_last().len() == 0);
    assert(run(c, s, seq![e].drop_last()) == s);
    assert(seq![e].last() == e);
}

/// The command that creates the remote directory becomes due only on the
/// operator's affirmative answer to the question that a missing directory
/// raises; that question is raised only when the test for the directory
/// exited with a status other than zero; and the change of owner becomes due
/// only when the directory was created.
pub proof fn lemma_provisioning_needs_consent(c: ConfigView, s: Stage, e: EventView)
    ensures
        next_stage(c, s, e) is CreatingDirectory ==> s is DirectoryMissing && (e matches
            EventView::Answered(answer) && affirmative(answer)),
        next_stage(c, s, e) is DirectoryMissing ==> s is Authenticated && (e matches
            EventView::Exited(status) && status != 0),
        next_stage(c, s, e) is ChangingOwner ==> s is CreatingDirectory && e
            == EventView::Exited(0),
        next_stage(c, s, e) is DirectoryProvisioned ==> s is ChangingOwner && e
            == EventView::Exited(0),
        is_provisioning(pending(c, s)) <==> s is CreatingDirectory || s is ChangingOwner,
{
}

/// Any answer of the operator that is not affirmative, and anything else
/// that comes in place of an answer, ends the work with the error that the
/// directory was not created.
pub proof fn lemma_refusal_aborts(c: ConfigView, e: EventView)
    requires
        !(e matches EventView::Answered(answer) && affirmative(answer)),
    ensures
        next_stage(c, Stage::DirectoryMissing, e) == failing(DeployError::NotCreated),
{
}

/// Once the session is being closed, nothing but closing and the end
/// follows, with the same outcome, and no provisioning command is due.
pub proof fn lemma_closing_is_final(
    c: ConfigView,
    error: Option<DeployError>,
    events: Seq<EventView>,
)
    ensures
        run(c, Stage::Closing { error }, events) == (if events.len() == 0 {
            Stage::Closing { error }
        } else {
            Stage::Closed { error }
        }),
        !is_provisioning(pending(c, run(c, Stage::Closing { error }, events))),
    decreases events.len(),
{
    if events.len() > 0 {
        lemma_closing_is_final(c, error, events.drop_last());
    }
}

/// After an answer that is not affirmative no provisioning command is ever
/// due, whatever events follow, and the deployment ends with the error that
/// the directory was not created.
pub proof fn lemma_refusal_never_provisions(c: ConfigView, e: EventView, later: Seq<EventView>)
    requires
        !(e matches EventView::Answered(answer) && affirmative(answer)),
    ensures
        !is_provisioning(pending(c, run(c, Stage::DirectoryMissing, seq![e] + later))),
        later.len() > 0 ==> run(c, Stage::DirectoryMissing, seq![e] + later) == (Stage::Closed {
            error: Some(DeployError::NotCreated),
        }),
{
    lemma_run_append(c, Stage::DirectoryMissing, seq![e], later);
    lemma_run_one(c, Stage::DirectoryMissing, e);
    lemma_closing_is_final(c, Some(DeployError::NotCreated), later);
}

/// In every deployment, when the command that creates the remote directory
/// is due, the last event was an affirmative answer of the operator and the
/// event before it was a test for the directory that exited with a status
/// other than zero.
pub proof fn lemma_creation_follows_consent(c: ConfigView, events: Seq<EventView>)
    requires
        pending(c, stage_after(c, events)) is CreateDirectory,
    ensures
        events.len() >= 2,
        events[events.len() - 1] matches EventView::Answered(answer) && affirmative(answer),
        events[events.len() - 2] matches EventView::Exited(status) && status != 0,
{
    let s = stage_after(c, events);
    assert(s is CreatingDirectory);
    assert(events.len() > 0);
    let before = events.drop_last();
    let s1 = run(c, initial(c), before);
    lemma_provisioning_needs_consent(c, s1, events.last());
    assert(s1 is DirectoryMissing);
    assert(before.len() > 0);
    let s2 = run(c, initial(c), before.drop_last());
    lemma_provisioning_needs_consent(c, s2, before.last());
    assert(before.last() == events[events.len() - 2]);
}

/// In every deployment, when the command that changes the owner of the
/// remote directory is due, the directory was created with the operator's
/// consent: the last three events were the test that found no directory, the
/// affirmative answer, and the success of the creation.
pub proof fn lemma_owner_change_follows_consent(c: ConfigView, events: Seq<EventView>)
    requires
        pending(c, stage_after(c, events)) is ChangeOwner,
    ensures
        events.len() >= 3,
        events[events.len() - 1] == EventView::Exited(0),
        events[events.len() - 2] matches EventView::Answered(answer) && affirmative(answer),
        events[events.len() - 3] matches EventView::Exited(status) && status != 0,
{
    let s = stage_after(c, events);
    assert(s is ChangingOwner);
    assert(events.len() > 0);
    let before = events.drop_last();
    lemma_provisioning_needs_consent(c, run(c, initial(c), before), events.last());
    assert(pending(c, stage_after(c, before)) is CreateDirectory);
    lemma_creation_follows_consent(c, before);
    assert(before[before.len() - 1] == events[events.len() - 2]);
    assert(before[before.len() - 2] == events[events.len() - 3]);
}

/// One upload takes its steps in order. From the stage in which the binary
/// at `index` is taken up, the actions that come due as the steps succeed
/// are: finding the size of the local file; opening the channel for the
/// remote path with that size and the mode for executables; writing the
/// content; signalling the end of the stream; waiting for its
/// acknowledgement; closing; waiting for the acknowledgement of the close.
/// Then the next binary is taken up, or the session closed after the last.
pub proof fn lemma_upload_handshake(c: ConfigView, index: usize, bytes: u64)
    requires
        index < c.binaries.len(),
    ensures
        ({
            let s = take_up(c, index as int);
            let events = upload_events(bytes);
            let name = c.binaries[index as int];
            &&& pending(c, run(c, s, events.take(0))) == ActionView::Stat {
                local_path: local_path(c, name),
            }
            &&& pending(c, run(c, s, events.take(1))) == ActionView::OpenChannel {
                remote_path: remote_path(c, name),
                mode: 0o755,
                size: bytes,
            }
            &&& pending(c, run(c, s, events.take(2))) == ActionView::Write {
                local_path: local_path(c, name),
            }
            &&& pending(c, run(c, s, events.take(3))) == ActionView::SendEof
            &&& pending(c, run(c, s, events.take(4))) == ActionView::WaitEof
            &&& pending(c, run(c, s, events.take(5))) == ActionView::CloseChannel
            &&& pending(c, run(c, s, events.take(6))) == ActionView::WaitClose
            &&& run(c, s, events) == take_up(c, index + 1)
        }),
{
    let s = take_up(c, index as int);
    let events = upload_events(bytes);
    assert(events.take(0).len() == 0);
    assert(events.take(1).drop_last() =~= events.take(0));
    assert(events.take(2).drop_last() =~= events.take(1));
    assert(events.take(3).drop_last() =~= events.take(2));
    assert(events.take(4).drop_last() =~= events.take(3));
    assert(events.take(5).drop_last() =~= events.take(4));
    assert(events.take(6).drop_last() =~= events.take(5));
    assert(events.drop_last() =~= events.take(6));
    assert(run(c, s, events.take(1)) == Stage::Uploading {
        index,
        step: UploadStep::OpenChannel,
        size: bytes,
    });
    assert(run(c, s, events.take(2)) == Stage::Uploading {
        index,
        step: UploadStep::Write,
        size: bytes,
    });
    assert(run(c, s, events.take(3)) == Stage::Uploading {
        index,
        step: UploadStep::SendEof,
        size: bytes,
    });
    assert(run(c, s, events.take(4)) == Stage::Uploading {
        index,
        step: UploadStep::WaitEof,
        size: bytes,
    });
    assert(run(c, s, events.take(5)) == Stage::Uploading {
        index,
        step: UploadStep::Close,
        size: bytes,
    });
    assert(run(c, s, events.take(6)) == Stage::Uploading {
        index,
        step: UploadStep::WaitClose,
        size: bytes,
    });
}

/// No step of an upload can be left out. A step of an upload comes due only
/// as the step that follows the one before it in the same upload, on that
/// step's success, or as the first step of the next binary when the last
/// step of the binary before it succeeded.
pub proof fn lemma_no_upload_step_is_skipped(c: ConfigView, s: Stage, e: EventView)
    requires
        c.binaries.len() <= usize::MAX,
        next_stage(c, s, e) is Uploading,
    ensures
        settled(c, s) is Uploading,
        e is Done || e is Size,
        ({
            let from = settled(c, s);
            let to = next_stage(c, s, e);
            ||| (to->index == from->index && position(to->step) == position(from->step) + 1
                && upload_steps()[position(to->step)] == to->step)
            ||| (to->index == from->index + 1 && from->step == UploadStep::WaitClose && to->step
                == UploadStep::Stat)
        }),
{
}

/// A step of an upload that does not succeed ends the uploads: the session
/// is closed with the error that names the binary and the step, and no
/// further binary is taken up.
pub proof fn lemma_failed_step_ends_uploads(
    c: ConfigView,
    index: usize,
    step: UploadStep,
    size: u64,
    e: EventView,
)
    requires
        !(e is Done) && !(step == UploadStep::Stat && e is Size),
    ensures
        next_stage(c, Stage::Uploading { index, step, size }, e) == failing(
            DeployError::TransferFailed { index, step },
        ),
{
}

/// The binaries go up in the order of the list: when the uploads of the
/// first `sizes.len()` binaries have succeeded, the next binary is taken up,
/// or the session is closed in good order when that was the last.
pub proof fn lemma_uploads_in_order(c: ConfigView, sizes: Seq<u64>)
    requires
        sizes.len() <= c.binaries.len(),
        c.binaries.len() <= usize::MAX,
    ensures
        run(c, take_up(c, 0), all_upload_events(sizes)) == take_up(c, sizes.len() as int),
    decreases sizes.len(),
{
    if sizes.len() > 0 {
        let done = sizes.drop_last();
        lemma_uploads_in_order(c, done);
        lemma_run_append(c, take_up(c, 0), all_upload_events(done), upload_events(sizes.last()));
        lemma_upload_handshake(c, done.len() as usize, sizes.last());
    }
}

/// A stage and the stage it stands for are left in the same way.
pub proof fn lemma_run_settled(c: ConfigView, s: Stage, events: Seq<EventView>)
    requires
        events.len() > 0,
    ensures
        run(c, s, events) == run(c, settled(c, s), events),
    decreases events.len(),
{
    if events.len() > 1 {
        lemma_run_settled(c, s, events.drop_last());
    } else {
        assert(run(c, s, events.drop_last()) == s);
        assert(run(c, settled(c, s), events.drop_last()) == settled(c, s));
        assert(settled(c, settled(c, s)) == settled(c, s));
    }
}

/// The events by which a deployment comes to its uploads when nothing goes
/// wrong and the remote directory is there: the success of the build where
/// one is called for, of the connection and of the authentication, and the
/// directory test's exit with status zero.
pub open spec fn opening_events(c: ConfigView) -> Seq<EventView> {
    (if c.build {
        seq![EventView::Exited(0)]
    } else {
        Seq::<EventView>::empty()
    }) + seq![EventView::Done, EventView::Authenticated(true), EventView::Exited(0)]
}

/// A deployment in which nothing goes wrong runs through the build where one
/// is called for, the connection, the authentication and the directory test,
/// uploads every binary in the order of the list, closes the session, and
/// ends without an error.
pub proof fn lemma_successful_deployment(c: ConfigView, sizes: Seq<u64>, closed: EventView)
    requires
        sizes.len() == c.binaries.len(),
        c.binaries.len() <= usize::MAX,
    ensures
        stage_after(c, opening_events(c)) == Stage::DirectoryVerified,
        stage_after(c, opening_events(c) + all_upload_events(sizes) + seq![closed]) == (
        Stage::Closed { error: None }),
{
    let start = initial(c);
    let connect = seq![EventView::Done, EventView::Authenticated(true), EventView::Exited(0)];
    let built = if c.build {
        seq![EventView::Exited(0)]
    } else {
        Seq::<EventView>::empty()
    };
    assert(run(c, start, built) == Stage::Disconnected) by {
        if c.build {
            lemma_run_one(c, start, EventView::Exited(0));
        }
    }
    assert(run(c, Stage::Disconnected, connect) == Stage::DirectoryVerified) by {
        let two = connect.drop_last();
        assert(two.drop_last() =~= seq![EventView::Done]);
        lemma_run_one(c, Stage::Disconnected, EventView::Done);
        assert(run(c, Stage::Disconnected, two.drop_last()) == Stage::Connected);
        assert(two.last() == EventView::Authenticated(true));
        assert(run(c, Stage::Disconnected, two) == Stage::Authenticated);
        assert(connect.last() == EventView::Exited(0));
    }
    lemma_run_append(c, start, built, connect);
    let uploads = all_upload_events(sizes);
    let rest = uploads + seq![closed];
    assert(opening_events(c) + uploads + seq![closed] =~= opening_events(c) + rest);
    lemma_run_append(c, start, opening_events(c), rest);
    lemma_run_settled(c, Stage::DirectoryVerified, rest);
    lemma_run_append(c, take_up(c, 0), uploads, seq![closed]);
    lemma_uploads_in_order(c, sizes);
    lemma_run_one(c, take_up(c, sizes.len() as int), closed);
}

/// A deployment whose session was opened comes to its end only through the
/// closing of the session: the end is reached only from the end itself, from
/// a stage in which closing the session is due, or from a stage in which no
/// session was open yet because the build or the connection was due.
pub proof fn lemma_session_closed_before_end(c: ConfigView, s: Stage, e: EventView)
    requires
        next_stage(c, s, e) is Closed,
    ensures
        s is Closed || pending(c, s) is Disconnect || pending(c, s) is Build || pending(c, s)
            is Connect,
{
}

/// Every failure is final: whatever goes wrong once the session stands leads
/// to the closing of the session with an error, and a deployment that is
/// closing or has ended keeps its outcome.
pub proof fn lemma_outcome_is_kept(c: ConfigView, error: Option<DeployError>, e: EventView)
    ensures
        next_stage(c, Stage::Closing { error }, e) == (Stage::Closed { error }),
        next_stage(c, Stage::Closed { error }, e) == (Stage::Closed { error }),
        pending(c, Stage::Closed { error }) == (ActionView::Finish { error }),
{
}

/// The work ends in good order only when it is done: closing without an
/// error comes due only on the success of the last step of the last binary,
/// or, where there is nothing to upload, once the remote directory is there.
pub proof fn lemma_success_only_after_last_upload(c: ConfigView, s: Stage, e: EventView)
    requires
        fits(c, s),
        next_stage(c, s, e) == (Stage::Closing { error: None }),
    ensures
        s matches Stage::Uploading { index, step, .. } && index + 1 == c.binaries.len() && step
            == UploadStep::WaitClose && e is Done,
{
}

/// How far a stage is along the course of a deployment: the stages before
/// the uploads count one each, every step of every upload counts one, and
/// closing and the end come last.
pub open spec fn progress(c: ConfigView, s: Stage) -> int {
    match settled(c, s) {
        Stage::Building => 0,
        Stage::Disconnected => 1,
        Stage::Connected => 2,
        Stage::Authenticated => 3,
        Stage::DirectoryMissing => 4,
        Stage::CreatingDirectory => 5,
        Stage::ChangingOwner => 6,
        Stage::Uploading { index, step, .. } => 7 + 7 * index + position(step),
        Stage::Closing { .. } => 7 + 7 * (c.binaries.len() as int),
        Stage::Closed { .. } => 8 + 7 * (c.binaries.len() as int),
        Stage::DirectoryVerified | Stage::DirectoryProvisioned => 7,
    }
}

/// Every event moves a deployment that has not ended strictly forward: there
/// is no way back to an earlier stage and no stage is repeated.
pub proof fn lemma_every_event_advances(c: ConfigView, s: Stage, e: EventView)
    requires
        c.binaries.len() <= usize::MAX,
        fits(c, s),
        !(s is Closed),
    ensures
        progress(c, next_stage(c, s, e)) > progress(c, s),
        progress(c, next_stage(c, s, e)) <= 8 + 7 * c.binaries.len(),
{
}

/// Every stage that a run passes through fits the configuration.
pub proof fn lemma_run_fits(c: ConfigView, s: Stage, events: Seq<EventView>)
    requires
        fits(c, s),
    ensures
        fits(c, run(c, s, events)),
    decreases events.len(),
{
    if events.len() > 0 {
        lemma_run_fits(c, s, events.drop_last());
        lemma_stages_fit(c, run(c, s, events.drop_last()), events.last());
    }
}

/// After `k` events a deployment that has not ended has come at least `k`
/// stages further.
pub proof fn lemma_progress_grows(c: ConfigView, s: Stage, events: Seq<EventView>)
    requires
        c.binaries.len() <= usize::MAX,
        fits(c, s),
    ensures
        run(c, s, events) is Closed || progress(c, run(c, s, events)) >= progress(c, s)
            + events.len(),
        progress(c, run(c, s, events)) >= progress(c, s),
    decreases events.len(),
{
    if events.len() > 0 {
        let before = run(c, s, events.drop_last());
        lemma_progress_grows(c, s, events.drop_last());
        lemma_run_fits(c, s, events.drop_last());
        if !(before is Closed) {
            lemma_every_event_advances(c, before, events.last());
        }
    }
}

/// Every deployment ends: after eight events and seven more for every
/// binary, at the latest, it has come to its end.
pub proof fn lemma_deployment_ends(c: ConfigView, events: Seq<EventView>)
    requires
        c.binaries.len() <= usize::MAX,
        events.len() >= 8 + 7 * c.binaries.len(),
    ensures
        stage_after(c, events) is Closed,
{
    lemma_progress_grows(c, initial(c), events);
    lemma_run_fits(c, initial(c), events);
}

/// The credentials are presented at most once: after the stage in which
/// authenticating is due, no later stage of the run calls for it again.
pub proof fn lemma_one_authentication(c: ConfigView, s: Stage, later: Seq<EventView>)
    requires
        c.binaries.len() <= usize::MAX,
        s is Connected,
        later.len() > 0,
    ensures
        !(pending(c, run(c, s, later)) is AuthenticateWithKey),
        !(pending(c, run(c, s, later)) is AuthenticateWithPassword),
{
    lemma_progress_grows(c, s, later);
}

} // verus!
