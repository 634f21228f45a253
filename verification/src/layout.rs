//! What a dialog shows, and where.

use vstd::prelude::*;

verus! {

/// The distance of the contents from the edges, in pixels.
pub const MARGIN: i32 = 24;

/// The width of the button.
pub const BTN_W: i32 = 96;

/// The height of the button.
pub const BTN_H: i32 = 32;

/// The distance of the button from the text above it and the edge below it.
pub const BTN_GAP: i32 = 12;

/// The height of the status line.
pub const STATUS_H: i32 = 24;

/// The distance of the progress bar from the status line.
pub const BAR_GAP: i32 = 8;

/// The height of the progress bar.
pub const BAR_H: i32 = 22;

/// The name of the window class of the dialogs.
pub const WINDOW_CLASS: &'static str = "WebView2CustomDialog";

/// The text of the button.
pub const BUTTON_TEXT: &'static str = "确定";

/// What a dialog is for.
#[derive(Clone, Copy, PartialEq, Eq, Structural, Debug)]
pub enum DialogType {
    /// To show how far a task has come.
    Progress,
    /// To say that it succeeded.
    Success,
    /// To say that it failed.
    Error,
}

/// A rectangle by its edges.
#[derive(Clone, Copy, PartialEq, Eq, Structural, Debug)]
pub struct Rect {
    pub left: i32,
    pub top: i32,
    pub right: i32,
    pub bottom: i32,
}

/// A rectangle by its position and size.
#[derive(Clone, Copy, PartialEq, Eq, Structural, Debug)]
pub struct Area {
    pub x: i32,
    pub y: i32,
    pub width: i32,
    pub height: i32,
}

/// Half of a number, towards zero.
pub open spec fn half(n: int) -> int {
    if n >= 0 {
        n / 2
    } else {
        -((-n) / 2)
    }
}

/// What a window has around its client area. What is not named here it has not.
#[derive(Clone, Copy, PartialEq, Eq, Structural, Debug)]
pub struct FrameStyle {
    /// It is a window of its own, with a border.
    pub overlapped: bool,
    /// It has a title bar.
    pub caption: bool,
    /// The title bar has a window menu, and with it a box to close the window.
    pub sysmenu: bool,
    /// It has a menu bar.
    pub menu: bool,
}

/// What a window class does when a window is resized.
#[derive(Clone, Copy, PartialEq, Eq, Structural, Debug)]
pub struct ClassStyle {
    /// It is redrawn when its width changes.
    pub hredraw: bool,
    /// It is redrawn when its height changes.
    pub vredraw: bool,
}

/// The window of a dialog.
#[derive(Debug)]
pub struct WindowPlan {
    pub title: String,
    pub class_name: String,
    /// The frame, both of the window and for its size to be worked out.
    pub frame: FrameStyle,
    pub class_style: ClassStyle,
}

/// A line of text that cannot be changed.
#[derive(Debug)]
pub struct StatusLine {
    pub text: String,
    pub area: Area,
    /// The text stands in the middle.
    pub centered: bool,
}

/// A field of text. What is not named here it does not do.
#[derive(Debug)]
pub struct TextField {
    pub text: String,
    pub area: Area,
    /// The text can have several lines.
    pub multiline: bool,
    /// The user cannot change the text.
    pub read_only: bool,
    /// The text scrolls up and down as needed.
    pub auto_vscroll: bool,
}

/// A button.
#[derive(Debug)]
pub struct PushButton {
    pub text: String,
    pub area: Area,
    /// The enter key presses it.
    pub is_default: bool,
}

/// The controls of a dialog.
#[derive(Debug)]
pub enum DialogContent {
    /// A status line and a progress bar.
    Progress { status: StatusLine, bar: Area },
    /// A message and a button that closes the dialog.
    Message { text: TextField, button: PushButton },
}

/// The status line of a progress dialog.
pub open spec fn status_area(width: int, area: Area) -> bool {
    &&& area.x == MARGIN
    &&& area.y == MARGIN
    &&& area.width == width - 2 * MARGIN
    &&& area.height == STATUS_H
}

/// The bar of a progress dialog.
pub open spec fn bar_area(width: int, area: Area) -> bool {
    &&& area.x == MARGIN
    &&& area.y == MARGIN + STATUS_H + BAR_GAP
    &&& area.width == width - 2 * MARGIN
    &&& area.height == BAR_H
}

/// The message of a dialog that shows one.
pub open spec fn message_area(width: int, height: int, area: Area) -> bool {
    &&& area.x == MARGIN
    &&& area.y == MARGIN
    &&& area.width == width - 2 * MARGIN
    &&& area.height == height - (MARGIN + BTN_GAP + BTN_H + BTN_GAP)
}

/// The button of a dialog that shows a message.
pub open spec fn button_area(width: int, height: int, area: Area) -> bool {
    &&& area.x == half(width - BTN_W)
    &&& area.y == height - BTN_GAP - BTN_H
    &&& area.width == BTN_W
    &&& area.height == BTN_H
}

/// A dialog that is to be shown.
#[derive(Debug)]
pub struct DialogRequest {
    pub dialog_type: DialogType,
    pub title: String,
    pub message: String,
    /// The size of the client area.
    pub width: i32,
    pub height: i32,
    /// Whether the caller waits until the dialog is closed.
    pub waits: bool,
}

/// The difference of two edges is a size.
pub open spec fn measurable(rect: Rect) -> bool {
    &&& i32::MIN <= rect.right - rect.left <= i32::MAX
    &&& i32::MIN <= rect.bottom - rect.top <= i32::MAX
}

impl DialogRequest {
    /// The size leaves room to take the margins off it.
    pub open spec fn fits(self) -> bool {
        match self.dialog_type {
            DialogType::Progress => self.width - 2 * MARGIN >= i32::MIN,
            DialogType::Success | DialogType::Error => {
                &&& self.width - BTN_W >= i32::MIN
                &&& self.height - (MARGIN + BTN_GAP + BTN_H + BTN_GAP) >= i32::MIN
            },
        }
    }

    /// Whether the size leaves room to take the margins off it.
    pub fn has_room(&self) -> (r: bool)
        ensures
            r == self.fits(),
    {
        match self.dialog_type {
            DialogType::Progress => self.width >= i32::MIN + 2 * MARGIN,
            DialogType::Success | DialogType::Error => self.width >= i32::MIN + BTN_W
                && self.height >= i32::MIN + (MARGIN + BTN_GAP + BTN_H + BTN_GAP),
        }
    }

    /// A dialog of the given type and size.
    pub fn create(
        dialog_type: DialogType,
        title: &str,
        message: &str,
        width: i32,
        height: i32,
        waits: bool,
    ) -> (request: DialogRequest)
        ensures
            request.dialog_type == dialog_type,
            request.title@ == title@,
            request.message@ == message@,
            request.width == width,
            request.height == height,
            request.waits == waits,
    {
        DialogRequest {
            dialog_type,
            title: title.to_owned(),
            message: message.to_owned(),
            width,
            height,
            waits,
        }
    }

    /// A dialog that shows how far a task has come, beside which the caller
    /// goes on.
    pub fn new_progress(title: &str, initial_status: &str) -> (request: DialogRequest)
        ensures
            request.dialog_type == DialogType::Progress,
            request.title@ == title@,
            request.message@ == initial_status@,
            request.width == 440 && request.height == 150,
            !request.waits,
            request.fits(),
    {
        DialogRequest::create(DialogType::Progress, title, initial_status, 440, 150, false)
    }

    /// A dialog that says that a task succeeded, until it is closed.
    pub fn show_success(title: &str, message: &str) -> (request: DialogRequest)
        ensures
            request.dialog_type == DialogType::Success,
            request.title@ == title@,
            request.message@ == message@,
            request.width == 420 && request.height == 170,
            request.waits,
            request.fits(),
    {
        DialogRequest::create(DialogType::Success, title, message, 420, 170, true)
    }

    /// A dialog that says that a task failed, until it is closed.
    pub fn show_error(title: &str, message: &str) -> (request: DialogRequest)
        ensures
            request.dialog_type == DialogType::Error,
            request.title@ == title@,
            request.message@ == message@,
            request.width == 560 && request.height == 500,
            request.waits,
            request.fits(),
    {
        DialogRequest::create(DialogType::Error, title, message, 560, 500, true)
    }

    /// The window of the dialog, whatever the dialog is for.
    pub fn window_plan(&self) -> (plan: WindowPlan)
        ensures
            plan.title@ == self.title@,
            plan.class_name@ == WINDOW_CLASS@,
            plan.frame == (FrameStyle {
                overlapped: true,
                caption: true,
                sysmenu: true,
                menu: false,
            }),
            plan.class_style == (ClassStyle { hredraw: true, vredraw: true }),
    {
        WindowPlan {
            title: self.title.clone(),
            class_name: WINDOW_CLASS.to_owned(),
            frame: FrameStyle { overlapped: true, caption: true, sysmenu: true, menu: false },
            class_style: ClassStyle { hredraw: true, vredraw: true },
        }
    }

    /// The client area, for the host to add the frame to.
    pub fn client_rect(&self) -> (rect: Rect)
        ensures
            rect == (Rect { left: 0, top: 0, right: self.width, bottom: self.height }),
    {
        Rect { left: 0, top: 0, right: self.width, bottom: self.height }
    }

    /// The size of the window: that of the client area with the frame added, or
    /// of the client area alone if the host could not add it.
    pub fn window_size(&self, adjusted: Option<Rect>) -> (size: (i32, i32))
        requires
            adjusted matches Some(rect) ==> measurable(rect),
        ensures
            match adjusted {
                Some(rect) => size.0 == rect.right - rect.left && size.1 == rect.bottom - rect.top,
                None => size == (self.width, self.height),
            },
    {
        match adjusted {
            Some(rect) => (rect.right - rect.left, rect.bottom - rect.top),
            None => (self.width, self.height),
        }
    }

    /// The controls of the dialog.
    pub fn content(&self) -> (content: DialogContent)
        requires
            self.fits(),
        ensures
            match content {
                DialogContent::Progress { status, bar } => {
                    &&& self.dialog_type == DialogType::Progress
                    &&& status.text@ == self.message@
                    &&& status.centered
                    &&& status_area(self.width as int, status.area)
                    &&& bar_area(self.width as int, bar)
                },
                DialogContent::Message { text, button } => {
                    &&& self.dialog_type != DialogType::Progress
                    &&& text.text@ == self.message@
                    &&& text.multiline && text.read_only && text.auto_vscroll
                    &&& message_area(self.width as int, self.height as int, text.area)
                    &&& button.is_default
                    &&& button.text@ == BUTTON_TEXT@
                    &&& button_area(self.width as int, self.height as int, button.area)
                },
            },
    {
        match self.dialog_type {
            DialogType::Progress => DialogContent::Progress {
                status: StatusLine {
                    text: self.message.clone(),
                    area: Area {
                        x: MARGIN,
                        y: MARGIN,
                        width: self.width - 2 * MARGIN,
                        height: STATUS_H,
                    },
                    centered: true,
                },
                bar: Area {
                    x: MARGIN,
                    y: MARGIN + STATUS_H + BAR_GAP,
                    width: self.width - 2 * MARGIN,
                    height: BAR_H,
                },
            },
            DialogType::Success | DialogType::Error => DialogContent::Message {
                text: TextField {
                    text: self.message.clone(),
                    area: Area {
                        x: MARGIN,
                        y: MARGIN,
                        width: self.width - 2 * MARGIN,
                        height: self.height - (MARGIN + BTN_GAP + BTN_H + BTN_GAP),
                    },
                    multiline: true,
                    read_only: true,
                    auto_vscroll: true,
                },
                button: PushButton {
                    text: BUTTON_TEXT.to_owned(),
                    area: Area {
                        x: (self.width - BTN_W) / 2,
                        y: self.height - BTN_GAP - BTN_H,
                        width: BTN_W,
                        height: BTN_H,
                    },
                    is_default: true,
                },
            },
        }
    }
}

/// The area lies within a client area of the given size.
pub open spec fn within(area: Area, width: int, height: int) -> bool {
    &&& 0 <= area.x && 0 <= area.width && area.x + area.width <= width
    &&& 0 <= area.y && 0 <= area.height && area.y + area.height <= height
}

/// A client area that is large enough shows the whole of a progress dialog: the
/// status line and the bar lie within it, the bar below the line, both with the
/// same margin on the left and on the right.
pub proof fn progress_controls_fit(width: int, height: int, status: Area, bar: Area)
    requires
        width >= 2 * MARGIN,
        height >= MARGIN + STATUS_H + BAR_GAP + BAR_H,
        status_area(width, status),
        bar_area(width, bar),
    ensures
        within(status, width, height),
        within(bar, width, height),
        bar.y - (status.y + status.height) == BAR_GAP,
        status.x == width - (status.x + status.width),
        bar.x == width - (bar.x + bar.width),
{
}

/// A client area that is large enough shows the whole of a message dialog: the
/// text and the button lie within it, the button below the text, with the same
/// distance from the text as from the edge, and in the middle.
pub proof fn message_controls_fit(width: int, height: int, text: Area, button: Area)
    requires
        width >= BTN_W,
        height >= MARGIN + BTN_GAP + BTN_H + BTN_GAP,
        message_area(width, height, text),
        button_area(width, height, button),
    ensures
        within(text, width, height),
        within(button, width, height),
        button.y - (text.y + text.height) == BTN_GAP,
        height - (button.y + button.height) == BTN_GAP,
        text.x == width - (text.x + text.width),
        0 <= width - (button.x + button.width) - button.x <= 1,
{
}

/// A request carries the texts it is given, whatever they are, and the size, the
/// type and the waiting that go with its kind.
pub proof fn requests_carry_what_they_are_given(
    title: &str,
    text: &str,
    dialog_type: DialogType,
    width: i32,
    height: i32,
    waits: bool,
    progress: DialogRequest,
    success: DialogRequest,
    error: DialogRequest,
    any: DialogRequest,
)
    requires
        call_ensures(DialogRequest::new_progress, (title, text), progress),
        call_ensures(DialogRequest::show_success, (title, text), success),
        call_ensures(DialogRequest::show_error, (title, text), error),
        call_ensures(
            DialogRequest::create,
            (dialog_type, title, text, width, height, waits),
            any,
        ),
    ensures
        progress.title@ == title@ && progress.message@ == text@,
        progress.dialog_type is Progress && progress.width == 440 && progress.height == 150,
        !progress.waits,
        success.title@ == title@ && success.message@ == text@,
        success.dialog_type is Success && success.width == 420 && success.height == 170,
        success.waits,
        error.title@ == title@ && error.message@ == text@,
        error.dialog_type is Error && error.width == 560 && error.height == 500,
        error.waits,
        any.title@ == title@ && any.message@ == text@,
        any.dialog_type == dialog_type && any.width == width && any.height == height,
        any.waits == waits,
{
}

/// Every window has the title of its request, the same class and the same frame.
/// It is as large as the host says it must be to leave the client area, and as
/// large as the client area if the host does not say.
pub proof fn windows_surround_the_client_area(
    request: DialogRequest,
    plan: WindowPlan,
    client: Rect,
    adjusted: Rect,
    framed: (i32, i32),
    bare: (i32, i32),
)
    requires
        call_ensures(DialogRequest::window_plan, (&request,), plan),
        call_ensures(DialogRequest::client_rect, (&request,), client),
        call_ensures(DialogRequest::window_size, (&request, Some(adjusted)), framed),
        call_ensures(DialogRequest::window_size, (&request, None), bare),
    ensures
        plan.title@ == request.title@,
        plan.class_name@ == "WebView2CustomDialog"@,
        plan.frame.overlapped && plan.frame.caption && plan.frame.sysmenu && !plan.frame.menu,
        plan.class_style.hredraw && plan.class_style.vredraw,
        client.left == 0 && client.top == 0,
        client.right == request.width && client.bottom == request.height,
        adjusted.left + framed.0 == adjusted.right,
        adjusted.top + framed.1 == adjusted.bottom,
        bare.0 == request.width && bare.1 == request.height,
{
}

/// The controls of a dialog of any size, in pixels. The status line is 24 high
/// and stands 24 from the top, the bar is 22 high and stands 8 below it, and both
/// keep 24 from the sides. A message keeps 24 from the top and the sides and 56
/// from the bottom, and the button, 96 by 32, keeps 12 from the bottom and as much
/// from the left as from the right, but for a pixel.
pub proof fn controls_lie_where_they_belong(request: DialogRequest, content: DialogContent)
    requires
        call_ensures(DialogRequest::content, (&request,), content),
    ensures
        content is Progress <==> request.dialog_type is Progress,
        content matches DialogContent::Progress { status, bar } ==> {
            &&& status.text@ == request.message@
            &&& status.centered
            &&& status.area.x == 24 && status.area.y == 24
            &&& status.area.x + status.area.width == request.width - 24
            &&& status.area.height == 24
            &&& bar.x == 24 && bar.y == 56
            &&& bar.x + bar.width == request.width - 24
            &&& bar.height == 22
        },
        content matches DialogContent::Message { text, button } ==> {
            &&& text.text@ == request.message@
            &&& text.multiline && text.read_only && text.auto_vscroll
            &&& text.area.x == 24 && text.area.y == 24
            &&& text.area.x + text.area.width == request.width - 24
            &&& text.area.y + text.area.height == request.height - 56
            &&& button.text@ == "确定"@
            &&& button.is_default
            &&& button.area.width == 96 && button.area.height == 32
            &&& button.area.y + button.area.height == request.height - 12
            &&& request.width >= 96 ==> 0 <= request.width - 96 - 2 * button.area.x <= 1
            &&& request.width < 96 ==> -1 <= request.width - 96 - 2 * button.area.x <= 0
        },
{
}

/// A size has room exactly if what is taken off it leaves a number that a
/// coordinate can be.
pub proof fn room_is_for_the_margins(request: DialogRequest, room: bool)
    requires
        call_ensures(DialogRequest::has_room, (&request,), room),
    ensures
        room == request.fits(),
        request.dialog_type is Progress ==> (room <==> request.width >= i32::MIN + 48),
        !(request.dialog_type is Progress) ==> (room <==> request.width >= i32::MIN + 96
            && request.height >= i32::MIN + 80),
{
}

} // verus!
