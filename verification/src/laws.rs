use vstd::prelude::*;
use crate::operation::{is_terminal, next, SpecAction, SpecEvent, SpecPhase};
use crate::request::SpecSaveRequest;

verus! {

/// A cancelled dialog ends the operation at once with `Ok(false)`: the
/// transition out of `AwaitingDialog` on `DialogCancelled` reports that
/// outcome and reaches a phase from which nothing further is requested —
/// in particular, the filesystem writer is never invoked.
pub proof fn cancelled_dialog_reports_false(req: SpecSaveRequest)
    ensures
        next(SpecPhase::AwaitingDialog, req, SpecEvent::DialogCancelled) == Some((
            SpecPhase::Cancelled,
            (SpecAction::Report { outcome: Ok(false) }),
        )),
        forall|ev: SpecEvent| next(SpecPhase::Cancelled, req, ev) is None,
{
}

/// A write is only ever requested on the single transition out of
/// `AwaitingDialog` on a user-confirmed path, and it carries exactly that
/// path and the request's bytes: the operation never writes to a location
/// it did not just obtain from the dialog.
pub proof fn write_only_from_confirmed_dialog(
    phase: SpecPhase,
    req: SpecSaveRequest,
    ev: SpecEvent,
    after: SpecPhase,
    action: SpecAction,
)
    requires
        next(phase, req, ev) == Some((after, action)),
        action is WriteBytes,
    ensures
        phase == SpecPhase::AwaitingDialog,
        ev matches SpecEvent::DialogChose { path }
            && action == (SpecAction::WriteBytes { path, data: req.content })
            && after == (SpecPhase::Writing { path }),
{
}

/// When the user confirms a path, the write succeeds, and no follow-up open
/// was asked for, the run reports `Ok(true)`; and under a request without
/// `open_after_save` no transition whatsoever requests an open.
pub proof fn save_without_open_reports_true(req: SpecSaveRequest, path: Seq<char>)
    requires
        !req.open_after_save,
    ensures
        next(SpecPhase::AwaitingDialog, req, (SpecEvent::DialogChose { path })) == Some((
            (SpecPhase::Writing { path }),
            (SpecAction::WriteBytes { path, data: req.content }),
        )),
        next((SpecPhase::Writing { path }), req, SpecEvent::WriteSucceeded) == Some((
            SpecPhase::Done,
            (SpecAction::Report { outcome: Ok(true) }),
        )),
        forall|phase: SpecPhase, ev: SpecEvent|
            (#[trigger] next(phase, req, ev)) matches Some(pa) ==> !(pa.1 is OpenPath),
{
}

/// A failed write ends the operation with the writer's error, and nothing
/// further is requested afterwards — in particular no open: the write
/// always comes before the open, so an unwritten file is never opened.
pub proof fn failed_write_stops_the_run(req: SpecSaveRequest, path: Seq<char>, message: Seq<char>)
    ensures
        next((SpecPhase::Writing { path }), req, (SpecEvent::WriteFailed { message })) == Some((
            (SpecPhase::WriteFailed { message }),
            (SpecAction::Report { outcome: Err(message) }),
        )),
        forall|ev: SpecEvent|
            next((SpecPhase::WriteFailed { message }), req, ev) is None,
{
}

/// An open is only ever requested right after a successful write, for the
/// very path the writer has just written, and only when the request asked
/// for it.
pub proof fn open_only_after_successful_write(
    phase: SpecPhase,
    req: SpecSaveRequest,
    ev: SpecEvent,
    after: SpecPhase,
    action: SpecAction,
)
    requires
        next(phase, req, ev) == Some((after, action)),
        action is OpenPath,
    ensures
        req.open_after_save,
        ev == SpecEvent::WriteSucceeded,
        phase matches SpecPhase::Writing { path }
            && action == (SpecAction::OpenPath { path })
            && after == (SpecPhase::Written { path }),
{
}

/// Driving two operations whose requests hold the same bytes, with the
/// dialog confirming the same path both times, requests the identical
/// write both times: the same bytes to the same location. A repeated save
/// therefore overwrites the first file with equal content.
pub proof fn repeated_save_writes_identical_bytes(
    first: SpecSaveRequest,
    second: SpecSaveRequest,
    path: Seq<char>,
)
    requires
        first.content == second.content,
    ensures
        next(SpecPhase::AwaitingDialog, first, (SpecEvent::DialogChose { path }))
            == next(SpecPhase::AwaitingDialog, second, (SpecEvent::DialogChose { path })),
        next(SpecPhase::AwaitingDialog, first, (SpecEvent::DialogChose { path })) == Some((
            (SpecPhase::Writing { path }),
            (SpecAction::WriteBytes { path, data: first.content }),
        )),
{
}

/// Once a run is over it stays over: a terminal phase accepts no event, so
/// nothing a service reports can make the operation act again.
pub proof fn terminal_accepts_nothing(phase: SpecPhase, req: SpecSaveRequest, ev: SpecEvent)
    requires
        is_terminal(phase),
    ensures
        next(phase, req, ev) is None,
{
}

/// The reported outcome names exactly how the run ended: `Ok(false)` for a
/// cancelled dialog, `Ok(true)` for a completed save, and otherwise the
/// error of the service that failed, carrying that service's message.
pub proof fn outcome_matches_terminal_phase(
    phase: SpecPhase,
    req: SpecSaveRequest,
    ev: SpecEvent,
    after: SpecPhase,
    outcome: Result<bool, Seq<char>>,
)
    requires
        next(phase, req, ev) == Some((after, (SpecAction::Report { outcome }))),
    ensures
        outcome == Ok::<bool, Seq<char>>(false) <==> after == SpecPhase::Cancelled,
        outcome == Ok::<bool, Seq<char>>(true) <==> after == SpecPhase::Done,
        after matches SpecPhase::PathInvalid { message } ==> outcome == Err::<bool, Seq<char>>(
            message,
        ),
        after matches SpecPhase::WriteFailed { message } ==> outcome == Err::<bool, Seq<char>>(
            message,
        ),
        after matches SpecPhase::OpenFailed { message } ==> outcome == Err::<bool, Seq<char>>(
            message,
        ),
        outcome is Err ==> after is PathInvalid || after is WriteFailed || after is OpenFailed,
{
}

/// A transition reports an outcome exactly when it ends the run: the phase
/// it reaches is terminal if and only if its action is a `Report`.
pub proof fn report_marks_the_end(
    phase: SpecPhase,
    req: SpecSaveRequest,
    ev: SpecEvent,
    after: SpecPhase,
    action: SpecAction,
)
    requires
        next(phase, req, ev) == Some((after, action)),
    ensures
        is_terminal(after) <==> action is Report,
{
}

} // verus!
