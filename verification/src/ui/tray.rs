//! What the tray menu shows, and the pixels of the tray icon.
use vstd::prelude::*;
use crate::adb::device::{device_display_name, status_text};
use crate::app::{AppStatus, AppStatusView};
use crate::call::state::call_state_text;
use crate::text::{push_str, string_of};

verus! {

/// The connection line of the tray menu.
pub open spec fn tray_connection_text(s: AppStatusView) -> Seq<char> {
    if s.adb_connected {
        match s.device_info {
            Some(d) => "● Connected ("@ + status_text(d.status) + ") - Call: "@ + call_state_text(
                s.current_call_state,
            ),
            None => "● ADB Connected (Waiting for phone...)"@,
        }
    } else {
        "○ Waiting for ADB..."@
    }
}

/// The device line of the tray menu.
pub open spec fn tray_device_text(s: AppStatusView) -> Seq<char> {
    match s.device_info {
        Some(d) => "Device: "@ + device_display_name(d),
        None => "Device: None"@,
    }
}

/// The two status lines of the tray menu: connection and device.
pub fn tray_status_texts(st: &AppStatus) -> (r: (String, String))
    ensures
        r.0@ == tray_connection_text(st@),
        r.1@ == tray_device_text(st@),
{
    let conn = if st.adb_connected {
        match &st.device_info {
            Some(dev) => {
                let mut out: Vec<char> = Vec::new();
                push_str(&mut out, "● Connected (");
                let s = dev.status.display_text();
                push_str(&mut out, s.as_str());
                push_str(&mut out, ") - Call: ");
                let c = st.current_call_state.display_text();
                push_str(&mut out, c.as_str());
                string_of(out.as_slice())
            },
            None => String::from_str("● ADB Connected (Waiting for phone...)"),
        }
    } else {
        String::from_str("○ Waiting for ADB...")
    };
    let dev = match &st.device_info {
        Some(d) => {
            let mut out: Vec<char> = Vec::new();
            push_str(&mut out, "Device: ");
            let n = d.display_name();
            push_str(&mut out, n.as_str());
            string_of(out.as_slice())
        },
        None => String::from_str("Device: None"),
    };
    (conn, dev)
}

/// Whether pixel `(x, y)` of the 16×16 icon belongs to the phone outline.
pub open spec fn is_phone_shape(x: int, y: int) -> bool {
    (4 <= x <= 11 && (y == 2 || y == 13)) || ((x == 4 || x == 5 || x == 10 || x == 11) && 3 <= y
        <= 12) || (6 <= x <= 9 && (y == 3 || y == 12))
}

/// Channel `c` (red, green, blue, alpha) of pixel `(x, y)`: a green phone
/// on a navy square, transparent around it.
pub open spec fn icon_channel(x: int, y: int, c: int) -> u8 {
    if is_phone_shape(x, y) {
        if c == 0 { 30 } else if c == 1 { 200 } else if c == 2 { 100 } else { 255 }
    } else if 2 <= x <= 13 && 2 <= y <= 13 {
        if c == 0 { 20 } else if c == 1 { 30 } else if c == 2 { 50 } else { 220 }
    } else {
        0
    }
}

/// The icon's RGBA bytes, row by row.
pub open spec fn icon_rgba() -> Seq<u8> {
    Seq::new(1024, |i: int| icon_channel((i % 64) / 4, i / 64, i % 4))
}

proof fn lemma_icon_index(x: int, y: int, c: int)
    requires
        0 <= x < 16,
        0 <= y < 16,
        0 <= c < 4,
    ensures
        (y * 64 + x * 4 + c) / 64 == y,
        ((y * 64 + x * 4 + c) % 64) / 4 == x,
        (y * 64 + x * 4 + c) % 4 == c,
        0 <= y * 64 + x * 4 + c < 1024,
{
    assert((y * 64 + x * 4 + c) / 64 == y) by (nonlinear_arith)
        requires
            0 <= x < 16,
            0 <= y < 16,
            0 <= c < 4,
    ;
    assert((y * 64 + x * 4 + c) % 64 == x * 4 + c) by (nonlinear_arith)
        requires
            0 <= x < 16,
            0 <= y < 16,
            0 <= c < 4,
    ;
    assert((x * 4 + c) / 4 == x) by (nonlinear_arith)
        requires
            0 <= x < 16,
            0 <= c < 4,
    ;
    assert((y * 64 + x * 4 + c) % 4 == c) by (nonlinear_arith)
        requires
            0 <= x < 16,
            0 <= y < 16,
            0 <= c < 4,
    ;
    assert(0 <= y * 64 + x * 4 + c < 1024) by (nonlinear_arith)
        requires
            0 <= x < 16,
            0 <= y < 16,
            0 <= c < 4,
    ;
}

/// The RGBA bytes of the 16×16 tray icon.
pub fn default_icon_rgba() -> (r: Vec<u8>)
    ensures
        r@ == icon_rgba(),
{
    let mut rgba: Vec<u8> = Vec::new();
    let mut y: u32 = 0;
    while y < 16
        invariant
            y <= 16,
            rgba@.len() == y * 64,
            forall|j: int| 0 <= j < rgba@.len() ==> rgba@[j] == #[trigger] icon_rgba()[j],
        decreases 16 - y,
    {
        let mut x: u32 = 0;
        while x < 16
            invariant
                y < 16,
                x <= 16,
                rgba@.len() == y * 64 + x * 4,
                forall|j: int| 0 <= j < rgba@.len() ==> rgba@[j] == #[trigger] icon_rgba()[j],
            decreases 16 - x,
        {
            let is_phone = (x >= 4 && x <= 11 && (y == 2 || y == 13)) || ((x == 4 || x == 5 || x
                == 10 || x == 11) && y >= 3 && y <= 12) || (x >= 6 && x <= 9 && (y == 3 || y
                == 12));
            let px: [u8; 4] = if is_phone {
                [30, 200, 100, 255]
            } else if x >= 2 && x <= 13 && y >= 2 && y <= 13 {
                [20, 30, 50, 220]
            } else {
                [0, 0, 0, 0]
            };
            let ghost before = rgba@;
            proof {
                lemma_icon_index(x as int, y as int, 0);
                lemma_icon_index(x as int, y as int, 1);
                lemma_icon_index(x as int, y as int, 2);
                lemma_icon_index(x as int, y as int, 3);
            }
            rgba.push(px[0]);
            rgba.push(px[1]);
            rgba.push(px[2]);
            rgba.push(px[3]);
            assert forall|j: int| 0 <= j < rgba@.len() implies rgba@[j] == #[trigger] icon_rgba()[j] by {
                if j >= before.len() {
                    let c = j - before.len();
                    assert(j == y * 64 + x * 4 + c);
                }
            }
            x = x + 1;
        }
        y = y + 1;
    }
    rgba
}

} // verus!
