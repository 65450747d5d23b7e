//! The text of the status window.
use vstd::prelude::*;
use crate::adb::device::{device_display_name, status_text, DeviceView};
use crate::app::{AppStatus, AppStatusView};
use crate::call::state::call_state_text;
use crate::config::settings::clone_opt_text;
use crate::text::{
    chars_of, contains_seq, contains_str, has_prefix, push_str, starts_with_str, string_of,
};

verus! {

/// The lines describing the device, or its absence.
pub open spec fn device_lines(d: Option<DeviceView>) -> Seq<Seq<char>> {
    match d {
        Some(dev) => seq![
            "  Device: "@ + device_display_name(dev),
            "  Android: "@ + match dev.android_version {
                Some(v) => v,
                None => "15"@,
            },
            "  Serial: "@ + dev.serial,
            "  Status: "@ + status_text(dev.status),
            "  Transport: "@ + if dev.usb_connection {
                "USB"@
            } else {
                "TCP/IP"@
            },
        ],
        None => seq!["  Device: None detected (connect USB cable)"@],
    }
}

/// The lines of the status window, top to bottom.
pub open spec fn status_window_text(s: AppStatusView) -> Seq<Seq<char>> {
    seq![
        "PHONE CALL MONITOR (ANDROID 15)"@,
        "──────────────────────────────────────────"@,
        "Connection:"@,
        if s.adb_connected {
            "  ● ADB: Connected"@
        } else {
            "  ○ ADB: Waiting for connection..."@
        },
    ] + device_lines(s.device_info) + seq![
        ""@,
        "Monitoring:"@,
        "  Status: "@ + if s.monitoring_active {
            "Active"@
        } else {
            "Paused"@
        },
        "  Call State: "@ + call_state_text(s.current_call_state),
        ""@,
        "Last Event:"@,
        "  "@ + s.last_event_time + " - "@ + s.last_event,
    ]
}

fn push_line(lines: &mut Vec<String>, a: &str)
    ensures
        final(lines).deep_view() == old(lines).deep_view().push(a@),
{
    let ghost before = lines.deep_view();
    lines.push(String::from_str(a));
    assert(lines.deep_view() =~= before.push(a@));
}

fn push_line2(lines: &mut Vec<String>, a: &str, b: &str)
    ensures
        final(lines).deep_view() == old(lines).deep_view().push(a@ + b@),
{
    let mut out: Vec<char> = Vec::new();
    push_str(&mut out, a);
    push_str(&mut out, b);
    let ghost before = lines.deep_view();
    lines.push(string_of(out.as_slice()));
    assert(lines.deep_view() =~= before.push(a@ + b@));
}

fn push_line4(lines: &mut Vec<String>, a: &str, b: &str, c: &str, d: &str)
    ensures
        final(lines).deep_view() == old(lines).deep_view().push(a@ + b@ + c@ + d@),
{
    let mut out: Vec<char> = Vec::new();
    push_str(&mut out, a);
    push_str(&mut out, b);
    push_str(&mut out, c);
    push_str(&mut out, d);
    let ghost before = lines.deep_view();
    lines.push(string_of(out.as_slice()));
    assert(lines.deep_view() =~= before.push(a@ + b@ + c@ + d@));
}

/// The lines of the status window, and the notice to show under them.
pub fn status_window_lines(st: &AppStatus) -> (r: (Vec<String>, Option<String>))
    ensures
        r.0.deep_view() == status_window_text(st@),
        r.1.deep_view() == st@.error_message,
{
    let mut lines: Vec<String> = Vec::new();
    push_line(&mut lines, "PHONE CALL MONITOR (ANDROID 15)");
    push_line(&mut lines, "──────────────────────────────────────────");
    push_line(&mut lines, "Connection:");
    if st.adb_connected {
        push_line(&mut lines, "  ● ADB: Connected");
    } else {
        push_line(&mut lines, "  ○ ADB: Waiting for connection...");
    }
    let ghost head = lines.deep_view();
    match &st.device_info {
        Some(dev) => {
            let name = dev.display_name();
            push_line2(&mut lines, "  Device: ", name.as_str());
            let version = match &dev.android_version {
                Some(v) => v.as_str(),
                None => "15",
            };
            push_line2(&mut lines, "  Android: ", version);
            push_line2(&mut lines, "  Serial: ", dev.serial.as_str());
            let status = dev.status.display_text();
            push_line2(&mut lines, "  Status: ", status.as_str());
            let transport = if dev.usb_connection {
                "USB"
            } else {
                "TCP/IP"
            };
            push_line2(&mut lines, "  Transport: ", transport);
        },
        None => {
            push_line(&mut lines, "  Device: None detected (connect USB cable)");
        },
    }
    let ghost mid = lines.deep_view();
    assert(mid =~= head + device_lines(st@.device_info));
    push_line(&mut lines, "");
    push_line(&mut lines, "Monitoring:");
    let active = if st.monitoring_active {
        "Active"
    } else {
        "Paused"
    };
    push_line2(&mut lines, "  Status: ", active);
    let state = st.current_call_state.display_text();
    push_line2(&mut lines, "  Call State: ", state.as_str());
    push_line(&mut lines, "");
    push_line(&mut lines, "Last Event:");
    push_line4(&mut lines, "  ", st.last_event_time.as_str(), " - ", st.last_event.as_str());
    assert(lines.deep_view() =~= status_window_text(st@));
    (lines, clone_opt_text(&st.error_message))
}

/// How a line of the status window is drawn.
#[derive(Debug, Clone, Copy, PartialEq, Eq, Structural)]
pub enum LineStyle {
    /// Bold, navy: the window's title line.
    Title,
    /// Bold, dark gray: a section heading.
    Heading,
    /// Regular, green: a line with an active-connection dot.
    Active,
    /// Regular, near black.
    Plain,
}

/// Style of line number `index` with text `line`: the first line is the
/// title, `Connection:`, `Monitoring:` and `Last Event:` lines are
/// headings, lines with a `●` are active, the rest plain.
pub open spec fn line_style_of(index: int, line: Seq<char>) -> LineStyle {
    if index == 0 {
        LineStyle::Title
    } else if has_prefix(line, "Connection:"@) || has_prefix(line, "Monitoring:"@) || has_prefix(
        line,
        "Last Event:"@,
    ) {
        LineStyle::Heading
    } else if contains_seq(line, "●"@) {
        LineStyle::Active
    } else {
        LineStyle::Plain
    }
}

pub fn status_line_style(index: usize, line: &str) -> (r: LineStyle)
    ensures
        r == line_style_of(index as int, line@),
{
    if index == 0 {
        return LineStyle::Title;
    }
    let v = chars_of(line);
    if starts_with_str(&v, "Connection:") || starts_with_str(&v, "Monitoring:") || starts_with_str(
        &v,
        "Last Event:",
    ) {
        LineStyle::Heading
    } else if contains_str(&v, "●") {
        LineStyle::Active
    } else {
        LineStyle::Plain
    }
}

} // verus!
