//! How a dialog behaves while it is shown. The handles of the window, its
//! controls and its thread are the caller's: they are kept and handed back.

use vstd::prelude::*;

use crate::layout::{DialogContent, DialogRequest, DialogType};

verus! {

/// How long the creation of a dialog may take, in milliseconds.
pub const CREATE_TIMEOUT_MS: u64 = 500;

/// The highest position of a progress bar.
pub const FULL: u32 = 100;

/// Something that happened to a dialog.
#[derive(Clone, Copy, PartialEq, Eq, Structural, Debug)]
pub enum DialogEvent {
    /// The button was clicked.
    ButtonClicked,
    /// The window is to close, because the user or the button said so.
    CloseRequested,
    /// The program is done with the dialog.
    Dismissed,
    /// The window is gone.
    Destroyed,
}

/// What is to be done about it.
#[derive(Clone, Copy, PartialEq, Eq, Structural, Debug)]
pub enum DialogAction {
    /// Ask the window to close.
    CloseWindow,
    /// End the message loop of the dialog with this code.
    PostQuit(i32),
    /// End the whole process with this code.
    ExitProcess(i32),
    /// Nothing.
    Nothing,
}

/// The controls of the dialog that a thread shows, and what it is for. `P` is
/// the handle of a progress bar, `L` of a label, `E` of a text field and `B` of
/// a button.
#[derive(Debug)]
pub struct DialogState<P, L, E, B> {
    pub progress_hwnd: Option<P>,
    pub status_hwnd: Option<L>,
    pub edit_hwnd: Option<E>,
    pub button_hwnd: Option<B>,
    pub dialog_type: Option<DialogType>,
}

/// The handles of the controls that were made for a dialog.
#[derive(Debug)]
pub enum DialogHandles<P, L, E, B> {
    /// Those of a status line and a progress bar.
    Progress { status: L, bar: P },
    /// Those of a message and a button.
    Message { edit: E, button: B },
}

impl<P, L, E, B> DialogHandles<P, L, E, B> {
    /// The handles are those of a dialog of the type.
    pub open spec fn belong_to(self, dialog_type: DialogType) -> bool {
        self is Progress <==> dialog_type == DialogType::Progress
    }

    /// The handles are those of the controls of the content.
    pub open spec fn made_for(self, content: DialogContent) -> bool {
        self is Progress <==> content is Progress
    }

    /// Whether the handles are those of a dialog of the type.
    pub fn are_for(&self, dialog_type: DialogType) -> (r: bool)
        ensures
            r == self.belong_to(dialog_type),
    {
        match self {
            DialogHandles::Progress { .. } => dialog_type == DialogType::Progress,
            DialogHandles::Message { .. } => dialog_type != DialogType::Progress,
        }
    }
}

/// A position that a progress bar has.
pub open spec fn position(percent: u32) -> u32 {
    if percent <= FULL {
        percent
    } else {
        FULL
    }
}

impl<P, L, E, B> DialogState<P, L, E, B> {
    /// The state of a thread that shows no dialog.
    pub open spec fn empty() -> DialogState<P, L, E, B> {
        DialogState {
            progress_hwnd: None,
            status_hwnd: None,
            edit_hwnd: None,
            button_hwnd: None,
            dialog_type: None,
        }
    }

    /// The state with the controls of a progress dialog.
    pub open spec fn with_progress(self, status: L, bar: P) -> DialogState<P, L, E, B> {
        DialogState {
            status_hwnd: Some(status),
            progress_hwnd: Some(bar),
            dialog_type: Some(DialogType::Progress),
            ..self
        }
    }

    /// The state with the controls of a message dialog.
    pub open spec fn with_message(self, edit: E, button: B) -> DialogState<P, L, E, B> {
        DialogState { edit_hwnd: Some(edit), button_hwnd: Some(button), ..self }
    }

    /// The state with the controls of a dialog.
    pub open spec fn with_handles(
        self,
        handles: DialogHandles<P, L, E, B>,
    ) -> DialogState<P, L, E, B> {
        match handles {
            DialogHandles::Progress { status, bar } => self.with_progress(status, bar),
            DialogHandles::Message { edit, button } => self.with_message(edit, button),
        }
    }

    /// What is to be done about an event. A progress dialog that the user
    /// closes takes the process with it; one that the program is done with does
    /// not.
    pub open spec fn reaction(self, event: DialogEvent) -> DialogAction {
        match event {
            DialogEvent::ButtonClicked => DialogAction::CloseWindow,
            DialogEvent::CloseRequested => if self.dialog_type == Some(DialogType::Progress) {
                DialogAction::ExitProcess(0)
            } else {
                DialogAction::PostQuit(0)
            },
            DialogEvent::Dismissed => DialogAction::PostQuit(0),
            DialogEvent::Destroyed => DialogAction::Nothing,
        }
    }

    /// The state after an event.
    pub open spec fn after(self, event: DialogEvent) -> DialogState<P, L, E, B> {
        if event == DialogEvent::Destroyed {
            DialogState::empty()
        } else {
            self
        }
    }

    /// The state of a thread that shows no dialog.
    pub fn new() -> (state: DialogState<P, L, E, B>)
        ensures
            state == DialogState::<P, L, E, B>::empty(),
    {
        DialogState {
            progress_hwnd: None,
            status_hwnd: None,
            edit_hwnd: None,
            button_hwnd: None,
            dialog_type: None,
        }
    }

    /// Forgets the controls and what the dialog was for.
    pub fn clear(&mut self)
        ensures
            *final(self) == DialogState::<P, L, E, B>::empty(),
    {
        self.progress_hwnd = None;
        self.status_hwnd = None;
        self.button_hwnd = None;
        self.dialog_type = None;
        self.edit_hwnd = None;
    }

    /// Remembers the controls of a dialog of the type. Only a progress dialog is
    /// remembered for what it is; a message dialog leaves that as it was.
    pub fn attach(&mut self, dialog_type: DialogType, handles: DialogHandles<P, L, E, B>)
        requires
            handles.belong_to(dialog_type),
        ensures
            *final(self) == old(self).with_handles(handles),
            final(self).dialog_type == (if dialog_type == DialogType::Progress {
                Some(DialogType::Progress)
            } else {
                old(self).dialog_type
            }),
    {
        match handles {
            DialogHandles::Progress { status, bar } => {
                self.status_hwnd = Some(status);
                self.progress_hwnd = Some(bar);
                self.dialog_type = Some(dialog_type);
            },
            DialogHandles::Message { edit, button } => {
                self.edit_hwnd = Some(edit);
                self.button_hwnd = Some(button);
            },
        }
    }

    /// Takes note of an event and says what is to be done about it.
    pub fn on_event(&mut self, event: DialogEvent) -> (action: DialogAction)
        ensures
            action == old(self).reaction(event),
            *final(self) == old(self).after(event),
    {
        match event {
            DialogEvent::ButtonClicked => DialogAction::CloseWindow,
            DialogEvent::CloseRequested => match self.dialog_type {
                Some(DialogType::Progress) => DialogAction::ExitProcess(0),
                _ => DialogAction::PostQuit(0),
            },
            DialogEvent::Dismissed => DialogAction::PostQuit(0),
            DialogEvent::Destroyed => {
                self.clear();
                DialogAction::Nothing
            },
        }
    }

    /// The progress bar and the position to give it; nothing if the dialog has
    /// no progress bar.
    pub fn set_progress(&self, percent: u32) -> (update: Option<(&P, u32)>)
        ensures
            update == (match self.progress_hwnd {
                Some(bar) => Some((&bar, position(percent))),
                None => None,
            }),
    {
        match &self.progress_hwnd {
            Some(bar) => {
                let at: u32 = if percent <= FULL {
                    percent
                } else {
                    FULL
                };
                Some((bar, at))
            },
            None => None,
        }
    }

    /// The status line and the text to give it; nothing if the dialog has no
    /// status line.
    pub fn set_status(&self, text: String) -> (update: Option<(&L, String)>)
        ensures
            update == (match self.status_hwnd {
                Some(label) => Some((&label, text)),
                None => None,
            }),
    {
        match &self.status_hwnd {
            Some(label) => Some((label, text)),
            None => None,
        }
    }
}

impl<P, L, E, B> Default for DialogState<P, L, E, B> {
    fn default() -> (state: DialogState<P, L, E, B>)
        ensures
            state == DialogState::<P, L, E, B>::empty(),
    {
        DialogState::new()
    }
}

/// A dialog that is shown: its window and the thread that it runs on.
#[derive(Debug)]
pub struct CustomDialog<W, H> {
    pub hwnd: W,
    pub handle: Option<H>,
}

/// How to take leave of a dialog.
#[derive(Debug)]
pub struct Farewell<W, H> {
    pub hwnd: W,
    /// The event to hand to the thread of the window first.
    pub event: Option<DialogEvent>,
    /// The thread to wait for then.
    pub join: Option<H>,
}

/// A step of taking leave of a dialog.
#[derive(Debug)]
pub enum FarewellStep<H> {
    /// Hand the event to the thread of the window.
    Tell(DialogEvent),
    /// Wait for the thread to end.
    Join(H),
}

impl<W, H> Farewell<W, H> {
    /// The steps, one after another: the event comes before the thread.
    pub open spec fn steps(self) -> Seq<FarewellStep<H>> {
        let told = match self.event {
            Some(event) => seq![FarewellStep::Tell(event)],
            None => Seq::empty(),
        };
        match self.join {
            Some(handle) => told.push(FarewellStep::Join(handle)),
            None => told,
        }
    }

    /// Takes the first of the steps that are left; nothing once all are taken.
    pub fn next(&mut self) -> (step: Option<FarewellStep<H>>)
        ensures
            step == (if old(self).steps().len() > 0 {
                Some(old(self).steps()[0])
            } else {
                None
            }),
            final(self).steps() == (if old(self).steps().len() > 0 {
                old(self).steps().drop_first()
            } else {
                old(self).steps()
            }),
            final(self).hwnd == old(self).hwnd,
            step matches Some(FarewellStep::Join(handle)) ==> old(self).event is None
                && old(self).join == Some(handle),
            old(self).event matches Some(event) ==> step == Some(FarewellStep::<H>::Tell(event)),
    {
        match self.event.take() {
            Some(event) => {
                assert(self.steps() =~= old(self).steps().drop_first());
                Some(FarewellStep::Tell(event))
            },
            None => match self.join.take() {
                Some(handle) => {
                    assert(self.steps() =~= old(self).steps().drop_first());
                    Some(FarewellStep::Join(handle))
                },
                None => None,
            },
        }
    }
}

/// What became of a request for a dialog.
#[derive(Debug)]
pub enum Presented<W, H> {
    /// The dialog could not be created.
    NotCreated,
    /// The dialog is shown, and the caller goes on with it.
    HandedBack(CustomDialog<W, H>),
    /// The dialog is shown, and the caller waits until the user has closed it.
    WaitedFor(Farewell<W, H>),
}

impl<W, H> CustomDialog<W, H> {
    /// Taking leave of the dialog because the program is done with it.
    pub open spec fn dismissal(self) -> Farewell<W, H> {
        Farewell { hwnd: self.hwnd, event: Some(DialogEvent::Dismissed), join: self.handle }
    }

    /// Taking leave of the dialog once the user has closed it.
    pub open spec fn patience(self) -> Farewell<W, H> {
        Farewell { hwnd: self.hwnd, event: None, join: self.handle }
    }

    /// The dialog whose window the thread sent in time; none if it sent none.
    pub fn create(received: Option<W>, handle: H) -> (dialog: Option<CustomDialog<W, H>>)
        ensures
            dialog == (match received {
                Some(hwnd) => Some(CustomDialog { hwnd, handle: Some(handle) }),
                None => None,
            }),
    {
        match received {
            Some(hwnd) => Some(CustomDialog { hwnd, handle: Some(handle) }),
            None => None,
        }
    }

    /// What becomes of a dialog after its creation: the caller waits for its end
    /// or gets it, as was requested.
    pub fn present(created: Option<CustomDialog<W, H>>, waits: bool) -> (r: Presented<W, H>)
        ensures
            r == (match created {
                None => Presented::NotCreated,
                Some(dialog) => if waits {
                    Presented::WaitedFor(dialog.patience())
                } else {
                    Presented::HandedBack(dialog)
                },
            }),
    {
        match created {
            None => Presented::NotCreated,
            Some(dialog) => {
                if waits {
                    Presented::WaitedFor(dialog.wait())
                } else {
                    Presented::HandedBack(dialog)
                }
            },
        }
    }

    /// Takes leave of the dialog because the program is done with it: the thread
    /// of the window is told first, and waited for then. The window is not asked
    /// to close: that is the way of a user who gives up.
    pub fn close(self) -> (farewell: Farewell<W, H>)
        ensures
            farewell == self.dismissal(),
            farewell.steps() == (match self.handle {
                Some(handle) => seq![
                    FarewellStep::Tell(DialogEvent::Dismissed),
                    FarewellStep::Join(handle),
                ],
                None => seq![FarewellStep::Tell(DialogEvent::Dismissed)],
            }),
    {
        Farewell { hwnd: self.hwnd, event: Some(DialogEvent::Dismissed), join: self.handle }
    }

    /// Takes leave of the dialog once the user has closed it: the thread of the
    /// window is told nothing and waited for.
    pub fn wait(self) -> (farewell: Farewell<W, H>)
        ensures
            farewell == self.patience(),
            farewell.steps() == (match self.handle {
                Some(handle) => seq![FarewellStep::Join(handle)],
                None => Seq::empty(),
            }),
    {
        Farewell { hwnd: self.hwnd, event: None, join: self.handle }
    }
}

/// A thread is waited for last: nothing is left to do after it, and before it
/// the event is handed over if there is one.
pub proof fn join_comes_last<W, H>(farewell: Farewell<W, H>, i: int)
    requires
        0 <= i < farewell.steps().len(),
    ensures
        farewell.steps()[i] is Join <==> (farewell.join is Some && i == farewell.steps().len() - 1),
        farewell.steps()[i] is Tell <==> (farewell.event is Some && i == 0),
{
}

/// The controls that were made for the content of a request belong to a dialog
/// of its type. Shown on a fresh thread, the dialog is remembered as one of
/// progress exactly if that was requested, and a user who closes it ends the
/// process exactly then.
pub proof fn request_decides_behaviour<P, L, E, B>(
    request: DialogRequest,
    content: DialogContent,
    handles: DialogHandles<P, L, E, B>,
)
    requires
        call_ensures(DialogRequest::content, (&request,), content),
        handles.made_for(content),
    ensures
        handles.belong_to(request.dialog_type),
        ({
            let shown = DialogState::<P, L, E, B>::empty().with_handles(handles);
            &&& shown.dialog_type == Some(DialogType::Progress) <==> request.dialog_type
                == DialogType::Progress
            &&& shown.dialog_type is None <==> request.dialog_type != DialogType::Progress
            &&& shown.reaction(DialogEvent::CloseRequested) == if request.dialog_type
                == DialogType::Progress {
                DialogAction::ExitProcess(0)
            } else {
                DialogAction::PostQuit(0)
            }
        }),
{
}

/// A progress dialog is handed back to the caller, who never waits for it.
pub proof fn progress_is_handed_back<W, H>(
    title: &str,
    status: &str,
    request: DialogRequest,
    created: Option<CustomDialog<W, H>>,
    presented: Presented<W, H>,
)
    requires
        call_ensures(DialogRequest::new_progress, (title, status), request),
        call_ensures(CustomDialog::<W, H>::present, (created, request.waits), presented),
    ensures
        presented == (match created {
            Some(dialog) => Presented::HandedBack(dialog),
            None => Presented::NotCreated,
        }),
{
}

/// A message dialog is waited for, if it could be created, and never handed back.
pub proof fn message_is_waited_for<W, H>(
    title: &str,
    message: &str,
    request: DialogRequest,
    created: Option<CustomDialog<W, H>>,
    presented: Presented<W, H>,
)
    requires
        call_ensures(DialogRequest::show_success, (title, message), request) || call_ensures(
            DialogRequest::show_error,
            (title, message),
            request,
        ),
        call_ensures(CustomDialog::<W, H>::present, (created, request.waits), presented),
    ensures
        presented == (match created {
            Some(dialog) => Presented::WaitedFor(dialog.patience()),
            None => Presented::NotCreated,
        }),
{
}

/// Only a user can end the process through a dialog, and only by closing one
/// that shows progress.
pub proof fn only_cancelled_progress_exits<P, L, E, B>(
    state: DialogState<P, L, E, B>,
    event: DialogEvent,
)
    ensures
        state.reaction(event) is ExitProcess <==> (event == DialogEvent::CloseRequested
            && state.dialog_type == Some(DialogType::Progress)),
{
}

/// A program that closes its dialog ends the message loop and not the process,
/// whatever the dialog shows.
pub proof fn close_spares_the_process<P, L, E, B, W, H>(
    state: DialogState<P, L, E, B>,
    dialog: CustomDialog<W, H>,
    farewell: Farewell<W, H>,
)
    requires
        call_ensures(CustomDialog::<W, H>::close, (dialog,), farewell),
    ensures
        farewell.event matches Some(event) && state.reaction(event) == DialogAction::PostQuit(0),
        farewell.join == dialog.handle,
{
}

/// A user who closes a progress dialog ends the process, and one who closes a
/// message dialog ends its message loop alone.
pub proof fn user_close<P, L, E, B>(status: L, bar: P, edit: E, button: B)
    ensures
        DialogState::<P, L, E, B>::empty().with_progress(status, bar).reaction(
            DialogEvent::CloseRequested,
        ) == DialogAction::ExitProcess(0),
        DialogState::<P, L, E, B>::empty().with_message(edit, button).reaction(
            DialogEvent::CloseRequested,
        ) == DialogAction::PostQuit(0),
{
}

/// A window that is gone leaves a state as of a thread that showed no dialog,
/// and any other event leaves the controls alone.
pub proof fn controls_last_as_long_as_the_window<P, L, E, B>(
    state: DialogState<P, L, E, B>,
    event: DialogEvent,
)
    ensures
        state.after(DialogEvent::Destroyed) == DialogState::<P, L, E, B>::empty(),
        event != DialogEvent::Destroyed ==> state.after(event) == state,
{
}

/// A dialog without a progress bar and a status line is left as it is by news of
/// progress: so is one that shows a message, and one whose window is gone.
pub proof fn updates_need_controls<P, L, E, B>(
    state: DialogState<P, L, E, B>,
    edit: E,
    button: B,
    percent: u32,
    text: String,
    moved: Option<(&P, u32)>,
    renamed: Option<(&L, String)>,
)
    requires
        state == DialogState::<P, L, E, B>::empty().with_message(edit, button) || exists|
            before: DialogState<P, L, E, B>,
        | #[trigger] before.after(DialogEvent::Destroyed) == state,
        call_ensures(DialogState::<P, L, E, B>::set_progress, (&state, percent), moved),
        call_ensures(DialogState::<P, L, E, B>::set_status, (&state, text), renamed),
    ensures
        moved is None,
        renamed is None,
{
}

/// A progress bar never goes past its end, never goes back as the percentage
/// grows, and shows every percentage there is as it is.
pub proof fn position_is_clamped(percent: u32, more: u32)
    requires
        percent <= more,
    ensures
        position(percent) <= FULL,
        position(percent) <= position(more),
        percent <= FULL ==> position(percent) == percent,
        position(position(percent)) == position(percent),
{
}

/// News of progress moves the bar that the dialog has to the percentage, or to
/// the end if it is past that, and news of the status gives the line that the
/// dialog has the text as it is.
pub proof fn updates_show_what_they_are_given<P, L, E, B>(
    state: DialogState<P, L, E, B>,
    percent: u32,
    text: String,
    moved: Option<(&P, u32)>,
    renamed: Option<(&L, String)>,
)
    requires
        call_ensures(DialogState::<P, L, E, B>::set_progress, (&state, percent), moved),
        call_ensures(DialogState::<P, L, E, B>::set_status, (&state, text), renamed),
    ensures
        match state.progress_hwnd {
            Some(bar) => moved matches Some((handle, at)) && *handle == bar && (percent <= 100
                ==> at == percent) && (percent > 100 ==> at == 100),
            None => moved is None,
        },
        match state.status_hwnd {
            Some(label) => renamed matches Some((handle, shown)) && *handle == label && shown
                == text,
            None => renamed is None,
        },
{
}

/// A dialog keeps the handles of its controls and, of those it has not, what
/// was there before. Only the controls of progress make it one of progress.
pub proof fn handles_are_kept<P, L, E, B>(
    state: DialogState<P, L, E, B>,
    handles: DialogHandles<P, L, E, B>,
    dialog_type: DialogType,
    fitting: bool,
)
    requires
        call_ensures(DialogHandles::<P, L, E, B>::are_for, (&handles, dialog_type), fitting),
    ensures
        ({
            let shown = state.with_handles(handles);
            match handles {
                DialogHandles::Progress { status, bar } => {
                    &&& fitting <==> dialog_type is Progress
                    &&& shown.status_hwnd == Some(status)
                    &&& shown.progress_hwnd == Some(bar)
                    &&& shown.dialog_type == Some(DialogType::Progress)
                    &&& shown.edit_hwnd == state.edit_hwnd
                    &&& shown.button_hwnd == state.button_hwnd
                },
                DialogHandles::Message { edit, button } => {
                    &&& fitting <==> dialog_type is Success || dialog_type is Error
                    &&& shown.edit_hwnd == Some(edit)
                    &&& shown.button_hwnd == Some(button)
                    &&& shown.status_hwnd == state.status_hwnd
                    &&& shown.progress_hwnd == state.progress_hwnd
                    &&& shown.dialog_type == state.dialog_type
                },
            }
        }),
        fitting == handles.belong_to(dialog_type),
{
}

/// What every event leads to. The button asks the window to close; a window that
/// is asked to close ends the process if it shows progress and the message loop
/// if not; a program that is done ends the message loop; and a window that is
/// gone leaves nothing behind, while all else leaves the dialog as it is.
pub proof fn events_have_their_effect<P, L, E, B>(state: DialogState<P, L, E, B>)
    ensures
        state.reaction(DialogEvent::ButtonClicked) is CloseWindow,
        state.dialog_type == Some(DialogType::Progress) ==> state.reaction(
            DialogEvent::CloseRequested,
        ) == DialogAction::ExitProcess(0),
        state.dialog_type != Some(DialogType::Progress) ==> state.reaction(
            DialogEvent::CloseRequested,
        ) == DialogAction::PostQuit(0),
        state.reaction(DialogEvent::Dismissed) == DialogAction::PostQuit(0),
        state.reaction(DialogEvent::Destroyed) is Nothing,
        state.after(DialogEvent::ButtonClicked) == state,
        state.after(DialogEvent::CloseRequested) == state,
        state.after(DialogEvent::Dismissed) == state,
        ({
            let gone = state.after(DialogEvent::Destroyed);
            &&& gone.progress_hwnd is None
            &&& gone.status_hwnd is None
            &&& gone.edit_hwnd is None
            &&& gone.button_hwnd is None
            &&& gone.dialog_type is None
        }),
        ({
            let fresh = DialogState::<P, L, E, B>::empty();
            &&& fresh.progress_hwnd is None
            &&& fresh.status_hwnd is None
            &&& fresh.edit_hwnd is None
            &&& fresh.button_hwnd is None
            &&& fresh.dialog_type is None
        }),
{
}

/// A farewell has a step for the event, if there is one, and then one for the
/// thread, if there is one, and no other.
pub proof fn farewells_have_their_steps<W, H>(farewell: Farewell<W, H>)
    ensures
        match (farewell.event, farewell.join) {
            (Some(event), Some(handle)) => {
                &&& farewell.steps().len() == 2
                &&& farewell.steps()[0] == FarewellStep::<H>::Tell(event)
                &&& farewell.steps()[1] == FarewellStep::Join(handle)
            },
            (Some(event), None) => {
                &&& farewell.steps().len() == 1
                &&& farewell.steps()[0] == FarewellStep::<H>::Tell(event)
            },
            (None, Some(handle)) => {
                &&& farewell.steps().len() == 1
                &&& farewell.steps()[0] == FarewellStep::Join(handle)
            },
            (None, None) => farewell.steps().len() == 0,
        },
{
}

/// A dialog is the window and the thread that it was created with, until the end:
/// it is handed back or waited for with both, and taken leave of with both.
pub proof fn dialogs_keep_window_and_thread<W, H>(
    received: Option<W>,
    handle: H,
    created: Option<CustomDialog<W, H>>,
    waits: bool,
    presented: Presented<W, H>,
    dialog: CustomDialog<W, H>,
    closed: Farewell<W, H>,
    waited: Farewell<W, H>,
)
    requires
        call_ensures(CustomDialog::<W, H>::create, (received, handle), created),
        call_ensures(CustomDialog::<W, H>::present, (created, waits), presented),
        call_ensures(CustomDialog::<W, H>::close, (dialog,), closed),
        call_ensures(CustomDialog::<W, H>::wait, (dialog,), waited),
    ensures
        match received {
            Some(hwnd) => {
                &&& created matches Some(shown) && shown.hwnd == hwnd && shown.handle == Some(
                    handle,
                )
                &&& if waits {
                    presented matches Presented::WaitedFor(farewell) && farewell.hwnd == hwnd
                        && farewell.event is None && farewell.join == Some(handle)
                } else {
                    presented matches Presented::HandedBack(shown) && shown.hwnd == hwnd
                        && shown.handle == Some(handle)
                }
            },
            None => created is None && presented is NotCreated,
        },
        closed.hwnd == dialog.hwnd,
        closed.event == Some(DialogEvent::Dismissed),
        closed.join == dialog.handle,
        waited.hwnd == dialog.hwnd,
        waited.event is None,
        waited.join == dialog.handle,
{
}

} // verus!
