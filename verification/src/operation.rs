use vstd::prelude::*;
use crate::request::{SaveRequest, SpecSaveRequest};

verus! {

/// What one of the three outside services reported back to the operation.
pub enum Event {
    /// The dialog closed without a chosen location.
    DialogCancelled,
    /// The dialog confirmed `path` as the place to save.
    DialogChose { path: String },
    /// The dialog's answer could not be turned into a filesystem path.
    DialogPathInvalid { message: String },
    /// The filesystem writer persisted the whole buffer.
    WriteSucceeded,
    /// The filesystem writer failed.
    WriteFailed { message: String },
    /// The opener launched the default handler.
    OpenSucceeded,
    /// The opener failed.
    OpenFailed { message: String },
}

/// What the caller is asked to do next with the outside services.
pub enum Action {
    /// Present the native save dialog with this title and suggested name.
    PromptSave { title: String, suggested_name: String },
    /// Write `data` to `path`, overwriting an existing file.
    WriteBytes { path: String, data: Vec<u8> },
    /// Open the file at `path` with its default handler.
    OpenPath { path: String },
    /// The operation is over; hand this outcome to the caller.
    /// `Ok(true)` means the bytes were written, `Ok(false)` that the user
    /// cancelled the dialog.
    Report { outcome: Result<bool, String> },
}

/// Where one save operation stands.
pub enum Phase {
    /// Nothing has happened yet.
    Idle,
    /// The dialog has been requested; its answer is awaited.
    AwaitingDialog,
    /// The user confirmed `path`; the write there is awaited.
    Writing { path: String },
    /// The bytes are on disk at `path`; the open action is awaited.
    Written { path: String },
    /// Terminal: the user cancelled the dialog.
    Cancelled,
    /// Terminal: the dialog's answer was not a usable path.
    PathInvalid { message: String },
    /// Terminal: the filesystem writer failed.
    WriteFailed { message: String },
    /// Terminal: the file was written but the opener failed.
    OpenFailed { message: String },
    /// Terminal: every requested step succeeded.
    Done,
}

/// The mathematical value of an [`Event`].
pub ghost enum SpecEvent {
    DialogCancelled,
    DialogChose { path: Seq<char> },
    DialogPathInvalid { message: Seq<char> },
    WriteSucceeded,
    WriteFailed { message: Seq<char> },
    OpenSucceeded,
    OpenFailed { message: Seq<char> },
}

/// The mathematical value of an [`Action`].
pub ghost enum SpecAction {
    PromptSave { title: Seq<char>, suggested_name: Seq<char> },
    WriteBytes { path: Seq<char>, data: Seq<u8> },
    OpenPath { path: Seq<char> },
    Report { outcome: Result<bool, Seq<char>> },
}

/// The mathematical value of a [`Phase`].
pub ghost enum SpecPhase {
    Idle,
    AwaitingDialog,
    Writing { path: Seq<char> },
    Written { path: Seq<char> },
    Cancelled,
    PathInvalid { message: Seq<char> },
    WriteFailed { message: Seq<char> },
    OpenFailed { message: Seq<char> },
    Done,
}

impl View for Event {
    type V = SpecEvent;

    open spec fn view(&self) -> SpecEvent {
        match self {
            Event::DialogCancelled => SpecEvent::DialogCancelled,
            Event::DialogChose { path } => (SpecEvent::DialogChose { path: path@ }),
            Event::DialogPathInvalid { message } => (SpecEvent::DialogPathInvalid {
                message: message@,
            }),
            Event::WriteSucceeded => SpecEvent::WriteSucceeded,
            Event::WriteFailed { message } => (SpecEvent::WriteFailed { message: message@ }),
            Event::OpenSucceeded => SpecEvent::OpenSucceeded,
            Event::OpenFailed { message } => (SpecEvent::OpenFailed { message: message@ }),
        }
    }
}

impl View for Action {
    type V = SpecAction;

    open spec fn view(&self) -> SpecAction {
        match self {
            Action::PromptSave { title, suggested_name } => (SpecAction::PromptSave {
                title: title@,
                suggested_name: suggested_name@,
            }),
            Action::WriteBytes { path, data } => (SpecAction::WriteBytes {
                path: path@,
                data: data@,
            }),
            Action::OpenPath { path } => (SpecAction::OpenPath { path: path@ }),
            Action::Report { outcome } => (SpecAction::Report {
                outcome: match outcome {
                    Ok(written) => Ok(*written),
                    Err(message) => Err(message@),
                },
            }),
        }
    }
}

impl View for Phase {
    type V = SpecPhase;

    open spec fn view(&self) -> SpecPhase {
        match self {
            Phase::Idle => SpecPhase::Idle,
            Phase::AwaitingDialog => SpecPhase::AwaitingDialog,
            Phase::Writing { path } => (SpecPhase::Writing { path: path@ }),
            Phase::Written { path } => (SpecPhase::Written { path: path@ }),
            Phase::Cancelled => SpecPhase::Cancelled,
            Phase::PathInvalid { message } => (SpecPhase::PathInvalid { message: message@ }),
            Phase::WriteFailed { message } => (SpecPhase::WriteFailed { message: message@ }),
            Phase::OpenFailed { message } => (SpecPhase::OpenFailed { message: message@ }),
            Phase::Done => SpecPhase::Done,
        }
    }
}

/// The transition relation of one save operation: from the current phase,
/// the request, and a service's answer to the next phase and the next thing
/// to do. `None` means the event does not belong to the current phase.
///
/// Every write the protocol ever requests is issued here, in the single
/// transition out of `AwaitingDialog` on a confirmed path; its target is that
/// very path and its payload the request's bytes. That is the security
/// invariant of the flow: no write without a fresh, user-confirmed location.
pub open spec fn next(
    phase: SpecPhase,
    req: SpecSaveRequest,
    ev: SpecEvent,
) -> Option<(SpecPhase, SpecAction)> {
    match (phase, ev) {
        (SpecPhase::AwaitingDialog, SpecEvent::DialogCancelled) => Some(
            (SpecPhase::Cancelled, SpecAction::Report { outcome: Ok(false) }),
        ),
        (SpecPhase::AwaitingDialog, SpecEvent::DialogChose { path }) => Some(
            (
                SpecPhase::Writing { path },
                SpecAction::WriteBytes { path, data: req.content },
            ),
        ),
        (SpecPhase::AwaitingDialog, SpecEvent::DialogPathInvalid { message }) => Some(
            (
                SpecPhase::PathInvalid { message },
                SpecAction::Report { outcome: Err(message) },
            ),
        ),
        (SpecPhase::Writing { path }, SpecEvent::WriteSucceeded) => if req.open_after_save {
            Some((SpecPhase::Written { path }, SpecAction::OpenPath { path }))
        } else {
            Some((SpecPhase::Done, SpecAction::Report { outcome: Ok(true) }))
        },
        (SpecPhase::Writing { .. }, SpecEvent::WriteFailed { message }) => Some(
            (
                SpecPhase::WriteFailed { message },
                SpecAction::Report { outcome: Err(message) },
            ),
        ),
        (SpecPhase::Written { .. }, SpecEvent::OpenSucceeded) => Some(
            (SpecPhase::Done, SpecAction::Report { outcome: Ok(true) }),
        ),
        (SpecPhase::Written { .. }, SpecEvent::OpenFailed { message }) => Some(
            (
                SpecPhase::OpenFailed { message },
                SpecAction::Report { outcome: Err(message) },
            ),
        ),
        _ => None,
    }
}

/// A phase from which no event is expected any more.
pub open spec fn is_terminal(phase: SpecPhase) -> bool {
    match phase {
        SpecPhase::Cancelled => true,
        SpecPhase::PathInvalid { .. } => true,
        SpecPhase::WriteFailed { .. } => true,
        SpecPhase::OpenFailed { .. } => true,
        SpecPhase::Done => true,
        _ => false,
    }
}

/// Copies a byte buffer; the copy holds exactly the same bytes.
fn copy_bytes(v: &Vec<u8>) -> (r: Vec<u8>)
    ensures
        r@ == v@,
{
    let r = v.clone();
    proof {
        assert forall|i: int| 0 <= i < v@.len() implies r@[i] == v@[i] by {
            assert(cloned::<u8>(v[i], r[i]));
        }
        assert(v@ =~= r@);
    }
    r
}

/// One save operation: the request it was created for and where it stands.
///
/// The caller drives it: [`SaveFileOperation::start`] yields the first
/// [`Action`], and each service answer, fed to [`SaveFileOperation::step`]
/// as an [`Event`], yields the next one, until an [`Action::Report`] ends
/// the run. The request is never changed, and each transition is exactly
/// the one [`next`] prescribes.
pub struct SaveFileOperation {
    pub request: SaveRequest,
    pub phase: Phase,
}

impl SaveFileOperation {
    /// Begins a fresh operation for `request`.
    pub fn new(request: SaveRequest) -> (op: Self)
        ensures
            op.request == request,
            op.phase@ == SpecPhase::Idle,
    {
        SaveFileOperation { request, phase: Phase::Idle }
    }

    /// Leaves `Idle` and asks for the save dialog, titled and pre-filled
    /// from the request. From any other phase it does nothing and yields
    /// no action.
    pub fn start(&mut self) -> (r: Option<Action>)
        ensures
            final(self).request == old(self).request,
            old(self).phase@ == SpecPhase::Idle ==> {
                &&& final(self).phase@ == SpecPhase::AwaitingDialog
                &&& r matches Some(a) && a@ == (SpecAction::PromptSave {
                    title: old(self).request@.title,
                    suggested_name: old(self).request@.default_name,
                })
            },
            old(self).phase@ != SpecPhase::Idle ==> {
                &&& final(self).phase@ == old(self).phase@
                &&& r is None
            },
    {
        match &self.phase {
            Phase::Idle => {
                self.phase = Phase::AwaitingDialog;
                Some(Action::PromptSave {
                    title: self.request.title.clone(),
                    suggested_name: self.request.default_name.clone(),
                })
            },
            _ => None,
        }
    }

    /// Feeds one service answer to the operation. If the event belongs to
    /// the current phase, the operation moves exactly as [`next`] says and
    /// the prescribed action comes back; an event out of order changes
    /// nothing and yields no action.
    pub fn step(&mut self, ev: Event) -> (r: Option<Action>)
        ensures
            final(self).request == old(self).request,
            next(old(self).phase@, old(self).request@, ev@) matches Some(pa) ==> {
                &&& final(self).phase@ == pa.0
                &&& r matches Some(a) && a@ == pa.1
            },
            next(old(self).phase@, old(self).request@, ev@) is None ==> {
                &&& final(self).phase@ == old(self).phase@
                &&& r is None
            },
    {
        let mut phase = Phase::Idle;
        core::mem::swap(&mut phase, &mut self.phase);
        match (phase, ev) {
            (Phase::AwaitingDialog, Event::DialogCancelled) => {
                self.phase = Phase::Cancelled;
                Some(Action::Report { outcome: Ok(false) })
            },
            (Phase::AwaitingDialog, Event::DialogChose { path }) => {
                let data = copy_bytes(&self.request.content);
                self.phase = Phase::Writing { path: path.clone() };
                Some(Action::WriteBytes { path, data })
            },
            (Phase::AwaitingDialog, Event::DialogPathInvalid { message }) => {
                self.phase = Phase::PathInvalid { message: message.clone() };
                Some(Action::Report { outcome: Err(message) })
            },
            (Phase::Writing { path }, Event::WriteSucceeded) => {
                if self.request.open_after_save {
                    self.phase = Phase::Written { path: path.clone() };
                    Some(Action::OpenPath { path })
                } else {
                    self.phase = Phase::Done;
                    Some(Action::Report { outcome: Ok(true) })
                }
            },
            (Phase::Writing { .. }, Event::WriteFailed { message }) => {
                self.phase = Phase::WriteFailed { message: message.clone() };
                Some(Action::Report { outcome: Err(message) })
            },
            (Phase::Written { .. }, Event::OpenSucceeded) => {
                self.phase = Phase::Done;
                Some(Action::Report { outcome: Ok(true) })
            },
            (Phase::Written { .. }, Event::OpenFailed { message }) => {
                self.phase = Phase::OpenFailed { message: message.clone() };
                Some(Action::Report { outcome: Err(message) })
            },
            (phase, _) => {
                self.phase = phase;
                None
            },
        }
    }

    /// Whether the operation has reached a terminal phase.
    pub fn finished(&self) -> (b: bool)
        ensures
            b == is_terminal(self.phase@),
    {
        match &self.phase {
            Phase::Cancelled => true,
            Phase::PathInvalid { .. } => true,
            Phase::WriteFailed { .. } => true,
            Phase::OpenFailed { .. } => true,
            Phase::Done => true,
            _ => false,
        }
    }
}

} // verus!
