use webview2::dialog::{
    CustomDialog, DialogAction, DialogEvent, DialogHandles, DialogState, FarewellStep, Presented,
    CREATE_TIMEOUT_MS,
};
use webview2::layout::{DialogRequest, DialogType};

type State = DialogState<u8, u16, u32, u64>;

fn progress() -> State {
    let mut state = State::default();
    state.attach(DialogType::Progress, DialogHandles::Progress { status: 2, bar: 1 });
    state
}

fn message() -> State {
    let mut state = State::new();
    state.attach(DialogType::Error, DialogHandles::Message { edit: 3, button: 4 });
    state
}

fn assert_empty(state: &State) {
    assert_eq!(state.progress_hwnd, None);
    assert_eq!(state.status_hwnd, None);
    assert_eq!(state.edit_hwnd, None);
    assert_eq!(state.button_hwnd, None);
    assert_eq!(state.dialog_type, None);
}

#[test]
fn new_state_is_empty() {
    assert_empty(&State::new());
    assert_empty(&State::default());
}

#[test]
fn attached_controls() {
    let state = progress();
    assert_eq!(state.progress_hwnd, Some(1));
    assert_eq!(state.status_hwnd, Some(2));
    assert_eq!(state.edit_hwnd, None);
    assert_eq!(state.button_hwnd, None);
    assert_eq!(state.dialog_type, Some(DialogType::Progress));
    let state = message();
    assert_eq!(state.progress_hwnd, None);
    assert_eq!(state.status_hwnd, None);
    assert_eq!(state.edit_hwnd, Some(3));
    assert_eq!(state.button_hwnd, Some(4));
    assert_eq!(state.dialog_type, None);
}

#[test]
fn clear_forgets_everything() {
    let mut state = progress();
    state.attach(DialogType::Success, DialogHandles::Message { edit: 3, button: 4 });
    assert_eq!(state.dialog_type, Some(DialogType::Progress));
    state.clear();
    assert_empty(&state);
}

#[test]
fn user_close_of_progress_exits() {
    let mut state = progress();
    assert_eq!(state.on_event(DialogEvent::CloseRequested), DialogAction::ExitProcess(0));
    assert_eq!(state.progress_hwnd, Some(1));
}

#[test]
fn user_close_of_message_quits() {
    let mut state = message();
    assert_eq!(state.on_event(DialogEvent::ButtonClicked), DialogAction::CloseWindow);
    assert_eq!(state.on_event(DialogEvent::CloseRequested), DialogAction::PostQuit(0));
    assert_eq!(state.button_hwnd, Some(4));
}

#[test]
fn dismissal_spares_the_process() {
    assert_eq!(progress().on_event(DialogEvent::Dismissed), DialogAction::PostQuit(0));
    assert_eq!(message().on_event(DialogEvent::Dismissed), DialogAction::PostQuit(0));
}

#[test]
fn destruction_clears() {
    let mut state = progress();
    assert_eq!(state.on_event(DialogEvent::Destroyed), DialogAction::Nothing);
    assert_empty(&state);
    assert_eq!(state.on_event(DialogEvent::CloseRequested), DialogAction::PostQuit(0));
}

#[test]
fn progress_is_clamped() {
    let state = progress();
    assert_eq!(state.set_progress(0), Some((&1, 0)));
    assert_eq!(state.set_progress(42), Some((&1, 42)));
    assert_eq!(state.set_progress(100), Some((&1, 100)));
    assert_eq!(state.set_progress(101), Some((&1, 100)));
    assert_eq!(state.set_progress(u32::MAX), Some((&1, 100)));
}

#[test]
fn updates_without_controls() {
    assert_eq!(message().set_progress(50), None);
    assert_eq!(message().set_status("x".to_string()), None);
    let mut state = progress();
    state.on_event(DialogEvent::Destroyed);
    assert_eq!(state.set_progress(50), None);
    assert_eq!(state.set_status("x".to_string()), None);
}

#[test]
fn status_is_handed_on() {
    assert_eq!(
        progress().set_status("下载中".to_string()),
        Some((&2, "下载中".to_string()))
    );
}

#[test]
fn creation_needs_a_window() {
    assert_eq!(CREATE_TIMEOUT_MS, 500);
    assert!(CustomDialog::<u8, u16>::create(None, 7).is_none());
    let dialog = CustomDialog::create(Some(5u8), 7u16).unwrap();
    assert_eq!(dialog.hwnd, 5);
    assert_eq!(dialog.handle, Some(7));
}

#[test]
fn farewells() {
    let farewell = CustomDialog { hwnd: 5u8, handle: Some(7u16) }.close();
    assert_eq!(farewell.hwnd, 5);
    assert_eq!(farewell.event, Some(DialogEvent::Dismissed));
    assert_eq!(farewell.join, Some(7));
    let farewell = CustomDialog { hwnd: 5u8, handle: None::<u16> }.wait();
    assert_eq!(farewell.hwnd, 5);
    assert_eq!(farewell.event, None);
    assert_eq!(farewell.join, None);
}

#[test]
fn handles_know_their_dialog() {
    let bar: DialogHandles<u8, u16, u32, u64> = DialogHandles::Progress { status: 2, bar: 1 };
    assert!(bar.are_for(DialogType::Progress));
    assert!(!bar.are_for(DialogType::Success));
    assert!(!bar.are_for(DialogType::Error));
    let text: DialogHandles<u8, u16, u32, u64> = DialogHandles::Message { edit: 3, button: 4 };
    assert!(!text.are_for(DialogType::Progress));
    assert!(text.are_for(DialogType::Success));
    assert!(text.are_for(DialogType::Error));
}

#[test]
fn close_tells_before_it_waits() {
    let mut farewell = CustomDialog { hwnd: 5u8, handle: Some(7u16) }.close();
    assert!(matches!(farewell.next(), Some(FarewellStep::Tell(DialogEvent::Dismissed))));
    assert!(matches!(farewell.next(), Some(FarewellStep::Join(7))));
    assert!(farewell.next().is_none());
    assert_eq!(farewell.hwnd, 5);
    let mut farewell = CustomDialog { hwnd: 5u8, handle: None::<u16> }.close();
    assert!(matches!(farewell.next(), Some(FarewellStep::Tell(DialogEvent::Dismissed))));
    assert!(farewell.next().is_none());
}

#[test]
fn wait_tells_nothing() {
    let mut farewell = CustomDialog { hwnd: 5u8, handle: Some(7u16) }.wait();
    assert!(matches!(farewell.next(), Some(FarewellStep::Join(7))));
    assert!(farewell.next().is_none());
    let mut farewell = CustomDialog { hwnd: 5u8, handle: None::<u16> }.wait();
    assert!(farewell.next().is_none());
}

#[test]
fn progress_goes_back_to_the_caller() {
    let waits = DialogRequest::new_progress("t", "s").waits;
    match CustomDialog::present(CustomDialog::create(Some(5u8), 7u16), waits) {
        Presented::HandedBack(dialog) => {
            assert_eq!(dialog.hwnd, 5);
            assert_eq!(dialog.handle, Some(7));
        }
        other => panic!("{:?}", other),
    }
    assert!(matches!(
        CustomDialog::<u8, u16>::present(None, waits),
        Presented::NotCreated
    ));
}

#[test]
fn messages_are_waited_for() {
    for request in [DialogRequest::show_success("t", "m"), DialogRequest::show_error("t", "m")] {
        match CustomDialog::present(CustomDialog::create(Some(5u8), 7u16), request.waits) {
            Presented::WaitedFor(farewell) => {
                assert_eq!(farewell.hwnd, 5);
                assert_eq!(farewell.event, None);
                assert_eq!(farewell.join, Some(7));
            }
            other => panic!("{:?}", other),
        }
        assert!(matches!(
            CustomDialog::<u8, u16>::present(None, request.waits),
            Presented::NotCreated
        ));
    }
}
