//! Text of the relayed lines: which captured events are reported and how.

use crate::decimal::{
    decimal, lemma_decimal_is_frameable, push_decimal, push_signed_decimal, signed_decimal,
};
use crate::frame::{has_terminator, lemma_join_keeps_frameable, lemma_terminator_is_nul};
use vstd::prelude::*;
use vstd::string::*;

verus! {

// Message codes of the pointer events that have a name, and of the two
// window events that are reported.
pub const WM_MOUSEACTIVATE: u32 = 33;
pub const WM_NCHITTEST: u32 = 132;
pub const WM_NCMOUSEMOVE: u32 = 160;
pub const WM_NCLBUTTONDOWN: u32 = 161;
pub const WM_NCLBUTTONUP: u32 = 162;
pub const WM_NCLBUTTONDBLCLK: u32 = 163;
pub const WM_NCRBUTTONDOWN: u32 = 164;
pub const WM_NCRBUTTONUP: u32 = 165;
pub const WM_NCRBUTTONDBLCLK: u32 = 166;
pub const WM_NCMBUTTONDOWN: u32 = 167;
pub const WM_NCMBUTTONUP: u32 = 168;
pub const WM_NCMBUTTONDBLCLK: u32 = 169;
pub const WM_NCXBUTTONDOWN: u32 = 171;
pub const WM_NCXBUTTONUP: u32 = 172;
pub const WM_NCXBUTTONDBLCLK: u32 = 173;
pub const WM_MOUSEMOVE: u32 = 512;
pub const WM_LBUTTONDOWN: u32 = 513;
pub const WM_LBUTTONUP: u32 = 514;
pub const WM_LBUTTONDBLCLK: u32 = 515;
pub const WM_RBUTTONDOWN: u32 = 516;
pub const WM_RBUTTONUP: u32 = 517;
pub const WM_RBUTTONDBLCLK: u32 = 518;
pub const WM_MBUTTONDOWN: u32 = 519;
pub const WM_MBUTTONUP: u32 = 520;
pub const WM_MBUTTONDBLCLK: u32 = 521;
pub const WM_MOUSEWHEEL: u32 = 522;
pub const WM_XBUTTONDOWN: u32 = 523;
pub const WM_XBUTTONUP: u32 = 524;
pub const WM_XBUTTONDBLCLK: u32 = 525;
pub const WM_MOUSEHWHEEL: u32 = 526;
pub const WM_CAPTURECHANGED: u32 = 533;
pub const WM_NCMOUSEHOVER: u32 = 672;
pub const WM_NCMOUSELEAVE: u32 = 674;
pub const WM_APPCOMMAND: u32 = 793;
pub const WM_CLOSE: u32 = 16;
pub const WM_MOVING: u32 = 534;

/// A captured pointer event: the message code as delivered, the screen
/// position, and the extra data word of the extended record.
#[derive(Debug, Clone, Copy, PartialEq, Eq, Structural)]
pub struct PointerEvent {
    pub code: u64,
    pub x: i32,
    pub y: i32,
    pub data: u32,
}

/// A captured message on its way to a window procedure.
#[derive(Debug, Clone, Copy, PartialEq, Eq, Structural)]
pub struct WindowEvent {
    pub message: u32,
    pub window: u64,
    pub wparam: u64,
    pub lparam: i64,
}

/// Which extra field a pointer event carries.
#[derive(Debug, Clone, Copy, PartialEq, Eq, Structural)]
pub enum PointerKind {
    /// A wheel turn: the line ends with the wheel delta.
    Wheel,
    /// An extended button: the line ends with the button index.
    ExtendedButton,
    /// Anything else: position only.
    Plain,
}

/// The low 32 bits of a delivered code, by which events are recognised.
pub open spec fn message_code(code: u64) -> u32 {
    (code % 0x1_0000_0000) as u32
}

/// The name of a pointer message, for the codes that have one.
pub open spec fn message_name(code: u32) -> Option<Seq<char>> {
    if code == WM_APPCOMMAND {
        Some("WM_APPCOMMAND"@)
    } else if code == WM_CAPTURECHANGED {
        Some("WM_CAPTURECHANGED"@)
    } else if code == WM_LBUTTONDBLCLK {
        Some("WM_LBUTTONDBLCLK"@)
    } else if code == WM_LBUTTONDOWN {
        Some("WM_LBUTTONDOWN"@)
    } else if code == WM_LBUTTONUP {
        Some("WM_LBUTTONUP"@)
    } else if code == WM_MBUTTONDBLCLK {
        Some("WM_MBUTTONDBLCLK"@)
    } else if code == WM_MBUTTONDOWN {
        Some("WM_MBUTTONDOWN"@)
    } else if code == WM_MBUTTONUP {
        Some("WM_MBUTTONUP"@)
    } else if code == WM_MOUSEACTIVATE {
        Some("WM_MOUSEACTIVATE"@)
    } else if code == WM_MOUSEHWHEEL {
        Some("WM_MOUSEHWHEEL"@)
    } else if code == WM_MOUSEMOVE {
        Some("WM_MOUSEMOVE"@)
    } else if code == WM_MOUSEWHEEL {
        Some("WM_MOUSEWHEEL"@)
    } else if code == WM_NCHITTEST {
        Some("WM_NCHITTEST"@)
    } else if code == WM_NCLBUTTONDBLCLK {
        Some("WM_NCLBUTTONDBLCLK"@)
    } else if code == WM_NCLBUTTONDOWN {
        Some("WM_NCLBUTTONDOWN"@)
    } else if code == WM_NCLBUTTONUP {
        Some("WM_NCLBUTTONUP"@)
    } else if code == WM_NCMBUTTONDBLCLK {
        Some("WM_NCMBUTTONDBLCLK"@)
    } else if code == WM_NCMBUTTONDOWN {
        Some("WM_NCMBUTTONDOWN"@)
    } else if code == WM_NCMBUTTONUP {
        Some("WM_NCMBUTTONUP"@)
    } else if code == WM_NCMOUSEHOVER {
        Some("WM_NCMOUSEHOVER"@)
    } else if code == WM_NCMOUSELEAVE {
        Some("WM_NCMOUSELEAVE"@)
    } else if code == WM_NCMOUSEMOVE {
        Some("WM_NCMOUSEMOVE"@)
    } else if code == WM_NCRBUTTONDBLCLK {
        Some("WM_NCRBUTTONDBLCLK"@)
    } else if code == WM_NCRBUTTONDOWN {
        Some("WM_NCRBUTTONDOWN"@)
    } else if code == WM_NCRBUTTONUP {
        Some("WM_NCRBUTTONUP"@)
    } else if code == WM_NCXBUTTONDBLCLK {
        Some("WM_NCXBUTTONDBLCLK"@)
    } else if code == WM_NCXBUTTONDOWN {
        Some("WM_NCXBUTTONDOWN"@)
    } else if code == WM_NCXBUTTONUP {
        Some("WM_NCXBUTTONUP"@)
    } else if code == WM_RBUTTONDBLCLK {
        Some("WM_RBUTTONDBLCLK"@)
    } else if code == WM_RBUTTONDOWN {
        Some("WM_RBUTTONDOWN"@)
    } else if code == WM_RBUTTONUP {
        Some("WM_RBUTTONUP"@)
    } else if code == WM_XBUTTONDBLCLK {
        Some("WM_XBUTTONDBLCLK"@)
    } else if code == WM_XBUTTONDOWN {
        Some("WM_XBUTTONDOWN"@)
    } else if code == WM_XBUTTONUP {
        Some("WM_XBUTTONUP"@)
    } else {
        None
    }
}

/// The extra field that goes with a message code.
pub open spec fn pointer_kind(code: u32) -> PointerKind {
    if code == WM_MOUSEWHEEL || code == WM_MOUSEHWHEEL {
        PointerKind::Wheel
    } else if code == WM_XBUTTONDOWN || code == WM_XBUTTONUP || code == WM_XBUTTONDBLCLK || code
        == WM_NCXBUTTONDOWN || code == WM_NCXBUTTONUP || code == WM_NCXBUTTONDBLCLK {
        PointerKind::ExtendedButton
    } else {
        PointerKind::Plain
    }
}

/// The wheel delta: the high half of the data word, read as a signed
/// 16-bit number.
pub open spec fn wheel_delta(data: u32) -> int {
    let high = data as int / 0x1_0000;
    if high >= 0x8000 {
        high - 0x1_0000
    } else {
        high
    }
}

/// The button index: the high half of the data word.
pub open spec fn button_index(data: u32) -> nat {
    (data / 0x1_0000) as nat
}

/// The text of an optional label.
pub open spec fn label_text(label: Option<&str>) -> Option<Seq<char>> {
    match label {
        Some(l) => Some(l@),
        None => None,
    }
}

/// The start of every line: the label of the process and a colon, or nothing.
pub open spec fn prefix_text(label: Option<Seq<char>>) -> Seq<char> {
    match label {
        Some(l) => l + ": "@,
        None => Seq::empty(),
    }
}

/// How a code is shown: its name and number, or the number alone when the
/// code has no name.
pub open spec fn message_display(code: u64) -> Seq<char> {
    match message_name(message_code(code)) {
        Some(name) => name + ": "@ + decimal(code as nat),
        None => decimal(code as nat),
    }
}

/// The line that reports a pointer event.
pub open spec fn pointer_line(label: Option<Seq<char>>, event: PointerEvent) -> Seq<char> {
    let head = prefix_text(label) + "mouse msg ("@ + message_display(event.code) + "): x/y = "@
        + signed_decimal(event.x as int) + "/"@ + signed_decimal(event.y as int);
    match pointer_kind(message_code(event.code)) {
        PointerKind::Wheel => head + ", wheel: "@ + signed_decimal(wheel_delta(event.data)),
        PointerKind::ExtendedButton => head + ", button target: "@ + decimal(
            button_index(event.data),
        ),
        PointerKind::Plain => head,
    }
}

/// The name under which a window message is reported, if it is.
pub open spec fn reported_window_message(message: u32) -> Option<Seq<char>> {
    if message == WM_CLOSE {
        Some("WM_CLOSE"@)
    } else if message == WM_MOVING {
        Some("WM_MOVING"@)
    } else {
        None
    }
}

/// The line that reports a window event, for the two messages that are
/// reported.
pub open spec fn window_line(label: Option<Seq<char>>, event: WindowEvent) -> Option<Seq<char>> {
    match reported_window_message(event.message) {
        Some(name) => Some(
            prefix_text(label) + name + " of hWnd("@ + decimal(event.window as nat)
                + "): wParam/lParam = "@ + decimal(event.wparam as nat) + "/"@ + signed_decimal(
                event.lparam as int,
            ),
        ),
        None => None,
    }
}

/// No name of the catalogue holds the terminator.
proof fn lemma_names_are_frameable(code: u32)
    ensures
        message_name(code) matches Some(name) ==> !has_terminator(name),
{
    reveal_strlit("WM_APPCOMMAND");
    reveal_strlit("WM_CAPTURECHANGED");
    reveal_strlit("WM_LBUTTONDBLCLK");
    reveal_strlit("WM_LBUTTONDOWN");
    reveal_strlit("WM_LBUTTONUP");
    reveal_strlit("WM_MBUTTONDBLCLK");
    reveal_strlit("WM_MBUTTONDOWN");
    reveal_strlit("WM_MBUTTONUP");
    reveal_strlit("WM_MOUSEACTIVATE");
    reveal_strlit("WM_MOUSEHWHEEL");
    reveal_strlit("WM_MOUSEMOVE");
    reveal_strlit("WM_MOUSEWHEEL");
    reveal_strlit("WM_NCHITTEST");
    reveal_strlit("WM_NCLBUTTONDBLCLK");
    reveal_strlit("WM_NCLBUTTONDOWN");
    reveal_strlit("WM_NCLBUTTONUP");
    reveal_strlit("WM_NCMBUTTONDBLCLK");
    reveal_strlit("WM_NCMBUTTONDOWN");
    reveal_strlit("WM_NCMBUTTONUP");
    reveal_strlit("WM_NCMOUSEHOVER");
    reveal_strlit("WM_NCMOUSELEAVE");
    reveal_strlit("WM_NCMOUSEMOVE");
    reveal_strlit("WM_NCRBUTTONDBLCLK");
    reveal_strlit("WM_NCRBUTTONDOWN");
    reveal_strlit("WM_NCRBUTTONUP");
    reveal_strlit("WM_NCXBUTTONDBLCLK");
    reveal_strlit("WM_NCXBUTTONDOWN");
    reveal_strlit("WM_NCXBUTTONUP");
    reveal_strlit("WM_RBUTTONDBLCLK");
    reveal_strlit("WM_RBUTTONDOWN");
    reveal_strlit("WM_RBUTTONUP");
    reveal_strlit("WM_XBUTTONDBLCLK");
    reveal_strlit("WM_XBUTTONDOWN");
    reveal_strlit("WM_XBUTTONUP");
    if let Some(name) = message_name(code) {
        assert(!name.contains('\0'));
        lemma_terminator_is_nul(name);
    }
}

/// None of the fixed parts of a line holds the terminator.
proof fn lemma_fixed_parts_are_frameable()
    ensures
        !has_terminator(Seq::empty()),
        !has_terminator(": "@),
        !has_terminator("mouse msg ("@),
        !has_terminator("): x/y = "@),
        !has_terminator("/"@),
        !has_terminator(", wheel: "@),
        !has_terminator(", button target: "@),
        !has_terminator("WM_CLOSE"@),
        !has_terminator("WM_MOVING"@),
        !has_terminator(" of hWnd("@),
        !has_terminator("): wParam/lParam = "@),
{
    reveal_strlit(": ");
    reveal_strlit("mouse msg (");
    reveal_strlit("): x/y = ");
    reveal_strlit("/");
    reveal_strlit(", wheel: ");
    reveal_strlit(", button target: ");
    reveal_strlit("WM_CLOSE");
    reveal_strlit("WM_MOVING");
    reveal_strlit(" of hWnd(");
    reveal_strlit("): wParam/lParam = ");
    lemma_terminator_is_nul(Seq::empty());
    lemma_terminator_is_nul(": "@);
    lemma_terminator_is_nul("mouse msg ("@);
    lemma_terminator_is_nul("): x/y = "@);
    lemma_terminator_is_nul("/"@);
    lemma_terminator_is_nul(", wheel: "@);
    lemma_terminator_is_nul(", button target: "@);
    lemma_terminator_is_nul("WM_CLOSE"@);
    lemma_terminator_is_nul("WM_MOVING"@);
    lemma_terminator_is_nul(" of hWnd("@);
    lemma_terminator_is_nul("): wParam/lParam = "@);
}

/// The start of a line can be framed if the label can.
proof fn lemma_prefix_is_frameable(label: Option<Seq<char>>)
    requires
        label matches Some(l) ==> !has_terminator(l),
    ensures
        !has_terminator(prefix_text(label)),
{
    lemma_fixed_parts_are_frameable();
    if let Some(l) = label {
        lemma_join_keeps_frameable(l, ": "@);
    }
}

/// The way a code is shown can be framed.
proof fn lemma_display_is_frameable(code: u64)
    ensures
        !has_terminator(message_display(code)),
{
    lemma_fixed_parts_are_frameable();
    lemma_decimal_is_frameable(code as int);
    lemma_names_are_frameable(message_code(code));
    if let Some(name) = message_name(message_code(code)) {
        lemma_join_keeps_frameable(name, ": "@);
        lemma_join_keeps_frameable(name + ": "@, decimal(code as nat));
    }
}

/// No pointer event is lost to framing: its line can be framed whenever
/// the label can.
pub proof fn lemma_pointer_line_is_frameable(label: Option<Seq<char>>, event: PointerEvent)
    requires
        label matches Some(l) ==> !has_terminator(l),
    ensures
        !has_terminator(pointer_line(label, event)),
{
    lemma_fixed_parts_are_frameable();
    lemma_prefix_is_frameable(label);
    lemma_display_is_frameable(event.code);
    lemma_decimal_is_frameable(event.x as int);
    lemma_decimal_is_frameable(event.y as int);
    lemma_decimal_is_frameable(wheel_delta(event.data));
    lemma_decimal_is_frameable(button_index(event.data) as int);
    let a = prefix_text(label) + "mouse msg ("@;
    lemma_join_keeps_frameable(prefix_text(label), "mouse msg ("@);
    let b = a + message_display(event.code);
    lemma_join_keeps_frameable(a, message_display(event.code));
    let c = b + "): x/y = "@;
    lemma_join_keeps_frameable(b, "): x/y = "@);
    let d = c + signed_decimal(event.x as int);
    lemma_join_keeps_frameable(c, signed_decimal(event.x as int));
    let e = d + "/"@;
    lemma_join_keeps_frameable(d, "/"@);
    let head = e + signed_decimal(event.y as int);
    lemma_join_keeps_frameable(e, signed_decimal(event.y as int));
    lemma_join_keeps_frameable(head, ", wheel: "@);
    lemma_join_keeps_frameable(head + ", wheel: "@, signed_decimal(wheel_delta(event.data)));
    lemma_join_keeps_frameable(head, ", button target: "@);
    lemma_join_keeps_frameable(head + ", button target: "@, decimal(button_index(event.data)));
}

/// No reported window event is lost to framing: its line can be framed
/// whenever the label can.
pub proof fn lemma_window_line_is_frameable(label: Option<Seq<char>>, event: WindowEvent)
    requires
        label matches Some(l) ==> !has_terminator(l),
    ensures
        window_line(label, event) matches Some(line) ==> !has_terminator(line),
{
    if let Some(name) = reported_window_message(event.message) {
        lemma_fixed_parts_are_frameable();
        lemma_prefix_is_frameable(label);
        lemma_decimal_is_frameable(event.window as int);
        lemma_decimal_is_frameable(event.wparam as int);
        lemma_decimal_is_frameable(event.lparam as int);
        let a = prefix_text(label) + name;
        lemma_join_keeps_frameable(prefix_text(label), name);
        let b = a + " of hWnd("@;
        lemma_join_keeps_frameable(a, " of hWnd("@);
        let c = b + decimal(event.window as nat);
        lemma_join_keeps_frameable(b, decimal(event.window as nat));
        let d = c + "): wParam/lParam = "@;
        lemma_join_keeps_frameable(c, "): wParam/lParam = "@);
        let e = d + decimal(event.wparam as nat);
        lemma_join_keeps_frameable(d, decimal(event.wparam as nat));
        let f = e + "/"@;
        lemma_join_keeps_frameable(e, "/"@);
        lemma_join_keeps_frameable(f, signed_decimal(event.lparam as int));
    }
}

/// Looks a 32-bit message code up in the catalogue of pointer messages.
fn catalogue_name(code: u32) -> (r: Option<&'static str>)
    ensures
        match r {
            Some(name) => message_name(code) == Some(name@),
            None => message_name(code) is None,
        },
{
    if code == WM_APPCOMMAND {
        Some("WM_APPCOMMAND")
    } else if code == WM_CAPTURECHANGED {
        Some("WM_CAPTURECHANGED")
    } else if code == WM_LBUTTONDBLCLK {
        Some("WM_LBUTTONDBLCLK")
    } else if code == WM_LBUTTONDOWN {
        Some("WM_LBUTTONDOWN")
    } else if code == WM_LBUTTONUP {
        Some("WM_LBUTTONUP")
    } else if code == WM_MBUTTONDBLCLK {
        Some("WM_MBUTTONDBLCLK")
    } else if code == WM_MBUTTONDOWN {
        Some("WM_MBUTTONDOWN")
    } else if code == WM_MBUTTONUP {
        Some("WM_MBUTTONUP")
    } else if code == WM_MOUSEACTIVATE {
        Some("WM_MOUSEACTIVATE")
    } else if code == WM_MOUSEHWHEEL {
        Some("WM_MOUSEHWHEEL")
    } else if code == WM_MOUSEMOVE {
        Some("WM_MOUSEMOVE")
    } else if code == WM_MOUSEWHEEL {
        Some("WM_MOUSEWHEEL")
    } else if code == WM_NCHITTEST {
        Some("WM_NCHITTEST")
    } else if code == WM_NCLBUTTONDBLCLK {
        Some("WM_NCLBUTTONDBLCLK")
    } else if code == WM_NCLBUTTONDOWN {
        Some("WM_NCLBUTTONDOWN")
    } else if code == WM_NCLBUTTONUP {
        Some("WM_NCLBUTTONUP")
    } else if code == WM_NCMBUTTONDBLCLK {
        Some("WM_NCMBUTTONDBLCLK")
    } else if code == WM_NCMBUTTONDOWN {
        Some("WM_NCMBUTTONDOWN")
    } else if code == WM_NCMBUTTONUP {
        Some("WM_NCMBUTTONUP")
    } else if code == WM_NCMOUSEHOVER {
        Some("WM_NCMOUSEHOVER")
    } else if code == WM_NCMOUSELEAVE {
        Some("WM_NCMOUSELEAVE")
    } else if code == WM_NCMOUSEMOVE {
        Some("WM_NCMOUSEMOVE")
    } else if code == WM_NCRBUTTONDBLCLK {
        Some("WM_NCRBUTTONDBLCLK")
    } else if code == WM_NCRBUTTONDOWN {
        Some("WM_NCRBUTTONDOWN")
    } else if code == WM_NCRBUTTONUP {
        Some("WM_NCRBUTTONUP")
    } else if code == WM_NCXBUTTONDBLCLK {
        Some("WM_NCXBUTTONDBLCLK")
    } else if code == WM_NCXBUTTONDOWN {
        Some("WM_NCXBUTTONDOWN")
    } else if code == WM_NCXBUTTONUP {
        Some("WM_NCXBUTTONUP")
    } else if code == WM_RBUTTONDBLCLK {
        Some("WM_RBUTTONDBLCLK")
    } else if code == WM_RBUTTONDOWN {
        Some("WM_RBUTTONDOWN")
    } else if code == WM_RBUTTONUP {
        Some("WM_RBUTTONUP")
    } else if code == WM_XBUTTONDBLCLK {
        Some("WM_XBUTTONDBLCLK")
    } else if code == WM_XBUTTONDOWN {
        Some("WM_XBUTTONDOWN")
    } else if code == WM_XBUTTONUP {
        Some("WM_XBUTTONUP")
    } else {
        None
    }
}

/// The name of the pointer message that was delivered with `code`, if its
/// low 32 bits are in the catalogue.
pub fn parse_mouse_msg(code: u64) -> (r: Option<String>)
    ensures
        match r {
            Some(name) => message_name(message_code(code)) == Some(name@),
            None => message_name(message_code(code)) is None,
        },
{
    match catalogue_name((code % 0x1_0000_0000) as u32) {
        Some(name) => Some(String::from_str(name)),
        None => None,
    }
}

/// Classifies a delivered code by the extra field its line carries.
pub fn classify_pointer(code: u64) -> (kind: PointerKind)
    ensures
        kind == pointer_kind(message_code(code)),
{
    let low: u32 = (code % 0x1_0000_0000) as u32;
    if low == WM_MOUSEWHEEL || low == WM_MOUSEHWHEEL {
        PointerKind::Wheel
    } else if low == WM_XBUTTONDOWN || low == WM_XBUTTONUP || low == WM_XBUTTONDBLCLK || low
        == WM_NCXBUTTONDOWN || low == WM_NCXBUTTONUP || low == WM_NCXBUTTONDBLCLK {
        PointerKind::ExtendedButton
    } else {
        PointerKind::Plain
    }
}

/// Starts a line with the label of the process, if there is one.
fn start_line(label: Option<&str>) -> (line: String)
    ensures
        line@ == prefix_text(label_text(label)),
{
    let mut line = String::new();
    match label {
        Some(l) => {
            line.append(l);
            line.append(": ");
            assert(line@ =~= l@ + ": "@);
        },
        None => {},
    }
    line
}

/// Writes the line that reports a pointer event.
pub fn describe_pointer_event(label: Option<&str>, event: &PointerEvent) -> (line: String)
    ensures
        line@ == pointer_line(label_text(label), *event),
{
    let mut line = start_line(label);
    line.append("mouse msg (");
    match parse_mouse_msg(event.code) {
        Some(name) => {
            line.append(name.as_str());
            line.append(": ");
        },
        None => {},
    }
    push_decimal(&mut line, event.code);
    assert(line@ =~= prefix_text(label_text(label)) + "mouse msg ("@ + message_display(event.code));
    line.append("): x/y = ");
    push_signed_decimal(&mut line, event.x as i64);
    line.append("/");
    push_signed_decimal(&mut line, event.y as i64);
    let ghost head = line@;
    let high: u32 = event.data / 0x1_0000;
    match classify_pointer(event.code) {
        PointerKind::Wheel => {
            let delta: i64 = if high >= 0x8000 {
                high as i64 - 0x1_0000
            } else {
                high as i64
            };
            line.append(", wheel: ");
            push_signed_decimal(&mut line, delta);
            assert(line@ =~= head + ", wheel: "@ + signed_decimal(wheel_delta(event.data)));
        },
        PointerKind::ExtendedButton => {
            line.append(", button target: ");
            push_decimal(&mut line, high as u64);
            assert(line@ =~= head + ", button target: "@ + decimal(button_index(event.data)));
        },
        PointerKind::Plain => {},
    }
    line
}

/// Writes the line that reports a window event. Only a close and a move in
/// progress are reported; every other message yields nothing.
pub fn describe_window_event(label: Option<&str>, event: &WindowEvent) -> (line: Option<String>)
    ensures
        match line {
            Some(text) => window_line(label_text(label), *event) == Some(text@),
            None => window_line(label_text(label), *event) is None,
        },
{
    let name = if event.message == WM_CLOSE {
        "WM_CLOSE"
    } else if event.message == WM_MOVING {
        "WM_MOVING"
    } else {
        return None;
    };
    let mut line = start_line(label);
    line.append(name);
    line.append(" of hWnd(");
    push_decimal(&mut line, event.window);
    line.append("): wParam/lParam = ");
    push_decimal(&mut line, event.wparam);
    line.append("/");
    push_signed_decimal(&mut line, event.lparam);
    assert(line@ =~= window_line(label_text(label), *event).unwrap());
    Some(line)
}

/// The pointer hook's decision: a notification with a negative hook code is
/// passed on unreported, any other is reported with its line.
pub fn hook_mouse_proc(ncode: i32, label: Option<&str>, event: &PointerEvent) -> (line: Option<
    String,
>)
    ensures
        match line {
            Some(text) => ncode >= 0 && text@ == pointer_line(label_text(label), *event),
            None => ncode < 0,
        },
{
    if ncode >= 0 {
        Some(describe_pointer_event(label, event))
    } else {
        None
    }
}

/// The window hook's decision: a notification with a negative hook code is
/// passed on unreported, and so is every message but the two reported ones.
pub fn hook_wnd_proc(ncode: i32, label: Option<&str>, event: &WindowEvent) -> (line: Option<
    String,
>)
    ensures
        match line {
            Some(text) => ncode >= 0 && window_line(label_text(label), *event) == Some(text@),
            None => ncode < 0 || window_line(label_text(label), *event) is None,
        },
{
    if ncode >= 0 {
        describe_window_event(label, event)
    } else {
        None
    }
}

} // verus!
