use webview2::layout::{
    Area, ClassStyle, DialogContent, DialogRequest, DialogType, FrameStyle, Rect,
};

fn area(x: i32, y: i32, width: i32, height: i32) -> Area {
    Area { x, y, width, height }
}

#[test]
fn progress_request() {
    let request = DialogRequest::new_progress("title", "status");
    assert_eq!(request.dialog_type, DialogType::Progress);
    assert_eq!(request.title, "title");
    assert_eq!(request.message, "status");
    assert_eq!((request.width, request.height), (440, 150));
    assert!(!request.waits);
    assert_eq!(request.client_rect(), Rect { left: 0, top: 0, right: 440, bottom: 150 });
}

#[test]
fn message_requests() {
    let success = DialogRequest::show_success("t", "m");
    assert_eq!(success.dialog_type, DialogType::Success);
    assert_eq!((success.width, success.height), (420, 170));
    assert!(success.waits);
    let error = DialogRequest::show_error("t", "m");
    assert_eq!(error.dialog_type, DialogType::Error);
    assert_eq!((error.width, error.height), (560, 500));
    assert!(error.waits);
}

#[test]
fn progress_content() {
    match DialogRequest::new_progress("title", "status").content() {
        DialogContent::Progress { status, bar } => {
            assert_eq!(status.text, "status");
            assert!(status.centered);
            assert_eq!(status.area, area(24, 24, 392, 24));
            assert_eq!(bar, area(24, 56, 392, 22));
        }
        other => panic!("{:?}", other),
    }
}

#[test]
fn success_content() {
    match DialogRequest::show_success("title", "done").content() {
        DialogContent::Message { text, button } => {
            assert_eq!(text.text, "done");
            assert!(text.multiline && text.read_only && text.auto_vscroll);
            assert!(button.is_default);
            assert_eq!(text.area, area(24, 24, 372, 90));
            assert_eq!(button.text, "确定");
            assert_eq!(button.area, area(162, 126, 96, 32));
        }
        other => panic!("{:?}", other),
    }
}

#[test]
fn error_content() {
    match DialogRequest::show_error("title", "failed").content() {
        DialogContent::Message { text, button } => {
            assert_eq!(text.text, "failed");
            assert!(text.multiline && text.read_only && text.auto_vscroll);
            assert!(button.is_default);
            assert_eq!(text.area, area(24, 24, 512, 420));
            assert_eq!(button.text, "确定");
            assert_eq!(button.area, area(232, 456, 96, 32));
        }
        other => panic!("{:?}", other),
    }
}

#[test]
fn narrow_window_halves_towards_zero() {
    let request = DialogRequest::create(DialogType::Error, "t", "m", 93, 10, true);
    match request.content() {
        DialogContent::Message { text, button } => {
            assert_eq!(text.area, area(24, 24, 45, -70));
            assert_eq!(button.area, area(-1, -34, 96, 32));
        }
        other => panic!("{:?}", other),
    }
}

#[test]
fn window_size_takes_the_frame() {
    let request = DialogRequest::new_progress("t", "s");
    let frame = Rect { left: -8, top: -31, right: 448, bottom: 158 };
    assert_eq!(request.window_size(Some(frame)), (456, 189));
    assert_eq!(request.window_size(None), (440, 150));
}

#[test]
fn windows_look_alike() {
    for request in [
        DialogRequest::new_progress("title", "m"),
        DialogRequest::show_success("title", "m"),
        DialogRequest::show_error("title", "m"),
    ] {
        let plan = request.window_plan();
        assert_eq!(plan.title, "title");
        assert_eq!(plan.class_name, "WebView2CustomDialog");
        assert_eq!(
            plan.frame,
            FrameStyle { overlapped: true, caption: true, sysmenu: true, menu: false }
        );
        assert_eq!(plan.class_style, ClassStyle { hredraw: true, vredraw: true });
    }
}

#[test]
fn progress_content_of_another_size() {
    let request = DialogRequest::create(DialogType::Progress, "t", "m", 300, 100, false);
    match request.content() {
        DialogContent::Progress { status, bar } => {
            assert_eq!(status.text, "m");
            assert!(status.centered);
            assert_eq!(status.area, area(24, 24, 252, 24));
            assert_eq!(bar, area(24, 56, 252, 22));
        }
        other => panic!("{:?}", other),
    }
}

#[test]
fn room_for_the_margins() {
    let room = |dialog_type, width, height| {
        DialogRequest::create(dialog_type, "t", "m", width, height, false).has_room()
    };
    assert!(DialogRequest::new_progress("t", "m").has_room());
    assert!(DialogRequest::show_success("t", "m").has_room());
    assert!(DialogRequest::show_error("t", "m").has_room());
    assert!(room(DialogType::Progress, i32::MIN + 48, i32::MIN));
    assert!(!room(DialogType::Progress, i32::MIN + 47, 0));
    assert!(room(DialogType::Error, i32::MIN + 96, i32::MIN + 80));
    assert!(!room(DialogType::Error, i32::MIN + 95, 0));
    assert!(!room(DialogType::Success, 0, i32::MIN + 79));
}
