//! Devices as `adb devices -l` reports them, and the names shown for them.
use vstd::prelude::*;
use vstd::std_specs::cmp::PartialEqSpecImpl;
use vstd::std_specs::convert::FromSpecImpl;
use crate::text::{
    chars_of, contains_char, has_prefix, push_str, str_to_lowercase, string_of, to_lowercase_text,
    trim_seq, trim_text, chars_eq_str, starts_with_chars,
};

verus! {

#[derive(Debug)]
pub enum DeviceStatus {
    Device,
    Unauthorized,
    Offline,
    NoPermissions,
    Authorizing,
    Unknown(String),
}

/// A device status, with the text of an unrecognized status as characters.
pub enum DeviceStatusView {
    Device,
    Unauthorized,
    Offline,
    NoPermissions,
    Authorizing,
    Unknown(Seq<char>),
}

impl View for DeviceStatus {
    type V = DeviceStatusView;

    open spec fn view(&self) -> DeviceStatusView {
        match self {
            DeviceStatus::Device => DeviceStatusView::Device,
            DeviceStatus::Unauthorized => DeviceStatusView::Unauthorized,
            DeviceStatus::Offline => DeviceStatusView::Offline,
            DeviceStatus::NoPermissions => DeviceStatusView::NoPermissions,
            DeviceStatus::Authorizing => DeviceStatusView::Authorizing,
            DeviceStatus::Unknown(s) => DeviceStatusView::Unknown(s@),
        }
    }
}

impl Clone for DeviceStatus {
    fn clone(&self) -> (r: DeviceStatus)
        ensures
            r@ == self@,
    {
        match self {
            DeviceStatus::Device => DeviceStatus::Device,
            DeviceStatus::Unauthorized => DeviceStatus::Unauthorized,
            DeviceStatus::Offline => DeviceStatus::Offline,
            DeviceStatus::NoPermissions => DeviceStatus::NoPermissions,
            DeviceStatus::Authorizing => DeviceStatus::Authorizing,
            DeviceStatus::Unknown(s) => DeviceStatus::Unknown(s.clone()),
        }
    }
}

impl PartialEq for DeviceStatus {
    fn eq(&self, other: &DeviceStatus) -> (r: bool) {
        match (self, other) {
            (DeviceStatus::Device, DeviceStatus::Device) => true,
            (DeviceStatus::Unauthorized, DeviceStatus::Unauthorized) => true,
            (DeviceStatus::Offline, DeviceStatus::Offline) => true,
            (DeviceStatus::NoPermissions, DeviceStatus::NoPermissions) => true,
            (DeviceStatus::Authorizing, DeviceStatus::Authorizing) => true,
            (DeviceStatus::Unknown(a), DeviceStatus::Unknown(b)) => a.eq(b),
            _ => false,
        }
    }
}

impl PartialEqSpecImpl for DeviceStatus {
    open spec fn obeys_eq_spec() -> bool {
        true
    }

    open spec fn eq_spec(&self, other: &DeviceStatus) -> bool {
        self@ == other@
    }
}

impl Eq for DeviceStatus {

}

/// Status named by an already lower-cased word.
pub open spec fn status_of_keyword(k: Seq<char>) -> DeviceStatusView {
    if k == "device"@ {
        DeviceStatusView::Device
    } else if k == "unauthorized"@ {
        DeviceStatusView::Unauthorized
    } else if k == "offline"@ {
        DeviceStatusView::Offline
    } else if k == "no permissions"@ {
        DeviceStatusView::NoPermissions
    } else if k == "authorizing"@ {
        DeviceStatusView::Authorizing
    } else {
        DeviceStatusView::Unknown(k)
    }
}

/// Status named by a raw word: trimmed, lower-cased, then looked up.
pub open spec fn status_of_text(s: Seq<char>) -> DeviceStatusView {
    status_of_keyword(str_to_lowercase(trim_seq(s)))
}

/// Text that `Display` shows for a status.
pub open spec fn status_text(s: DeviceStatusView) -> Seq<char> {
    match s {
        DeviceStatusView::Device => "Authorized"@,
        DeviceStatusView::Unauthorized => "Unauthorized"@,
        DeviceStatusView::Offline => "Offline"@,
        DeviceStatusView::NoPermissions => "No Permissions"@,
        DeviceStatusView::Authorizing => "Authorizing"@,
        DeviceStatusView::Unknown(t) => "Unknown ("@ + t + ")"@,
    }
}

impl DeviceStatus {
    /// Maps a lower-cased status word to its status; anything else is kept
    /// as `Unknown` with the word.
    pub fn from_keyword(k: &str) -> (r: DeviceStatus)
        ensures
            r@ == status_of_keyword(k@),
    {
        let v = chars_of(k);
        if chars_eq_str(&v, "device") {
            DeviceStatus::Device
        } else if chars_eq_str(&v, "unauthorized") {
            DeviceStatus::Unauthorized
        } else if chars_eq_str(&v, "offline") {
            DeviceStatus::Offline
        } else if chars_eq_str(&v, "no permissions") {
            DeviceStatus::NoPermissions
        } else if chars_eq_str(&v, "authorizing") {
            DeviceStatus::Authorizing
        } else {
            DeviceStatus::Unknown(string_of(v.as_slice()))
        }
    }

    /// The text `Display` shows, e.g. `Authorized` or `Unknown (recovery)`.
    pub fn display_text(&self) -> (r: String)
        ensures
            r@ == status_text(self@),
    {
        match self {
            DeviceStatus::Device => String::from_str("Authorized"),
            DeviceStatus::Unauthorized => String::from_str("Unauthorized"),
            DeviceStatus::Offline => String::from_str("Offline"),
            DeviceStatus::NoPermissions => String::from_str("No Permissions"),
            DeviceStatus::Authorizing => String::from_str("Authorizing"),
            DeviceStatus::Unknown(s) => {
                let mut out: Vec<char> = Vec::new();
                push_str(&mut out, "Unknown (");
                push_str(&mut out, s.as_str());
                push_str(&mut out, ")");
                assert(out@ =~= "Unknown ("@ + s@ + ")"@);
                string_of(out.as_slice())
            },
        }
    }
}

impl<'a> From<&'a str> for DeviceStatus {
    /// Reads a status word as `adb devices` prints it, ignoring case and
    /// surrounding whitespace.
    fn from(s: &'a str) -> (r: DeviceStatus)
        ensures
            r@ == status_of_text(s@),
    {
        let t = trim_text(s);
        let lower = to_lowercase_text(t.as_str());
        DeviceStatus::from_keyword(lower.as_str())
    }
}

impl<'a> FromSpecImpl<&'a str> for DeviceStatus {
    /// Two statuses with the same text need not be the same value, so the
    /// contract of `from` is stated over views instead.
    open spec fn obeys_from_spec() -> bool {
        false
    }

    open spec fn from_spec(s: &'a str) -> DeviceStatus {
        choose|r: DeviceStatus| r@ == status_of_text(s@)
    }
}

#[derive(Debug, PartialEq, Eq)]
pub struct DeviceInfo {
    pub serial: String,
    pub status: DeviceStatus,
    pub model: Option<String>,
    pub manufacturer: Option<String>,
    pub android_version: Option<String>,
    pub sdk_level: Option<u32>,
    pub usb_connection: bool,
}

/// Everything a `DeviceInfo` holds, texts as characters.
pub struct DeviceView {
    pub serial: Seq<char>,
    pub status: DeviceStatusView,
    pub model: Option<Seq<char>>,
    pub manufacturer: Option<Seq<char>>,
    pub android_version: Option<Seq<char>>,
    pub sdk_level: Option<u32>,
    pub usb_connection: bool,
}

impl View for DeviceInfo {
    type V = DeviceView;

    open spec fn view(&self) -> DeviceView {
        DeviceView {
            serial: self.serial@,
            status: self.status@,
            model: self.model.deep_view(),
            manufacturer: self.manufacturer.deep_view(),
            android_version: self.android_version.deep_view(),
            sdk_level: self.sdk_level,
            usb_connection: self.usb_connection,
        }
    }
}

fn clone_text(s: &Option<String>) -> (r: Option<String>)
    ensures
        r.deep_view() == s.deep_view(),
{
    match s {
        Some(t) => Some(t.clone()),
        None => None,
    }
}

impl Clone for DeviceInfo {
    fn clone(&self) -> (r: DeviceInfo)
        ensures
            r@ == self@,
    {
        DeviceInfo {
            serial: self.serial.clone(),
            status: self.status.clone(),
            model: clone_text(&self.model),
            manufacturer: clone_text(&self.manufacturer),
            android_version: clone_text(&self.android_version),
            sdk_level: self.sdk_level,
            usb_connection: self.usb_connection,
        }
    }
}

/// A fresh device: only serial and status known; it counts as a USB device
/// unless its serial holds a `:` (an `IP:port` connection).
pub open spec fn new_device(serial: Seq<char>, status: DeviceStatusView) -> DeviceView {
    DeviceView {
        serial,
        status,
        model: None,
        manufacturer: None,
        android_version: None,
        sdk_level: None,
        usb_connection: !serial.contains(':'),
    }
}

/// The name shown for a device: the model alone when it already begins with
/// the manufacturer (ignoring case), else `manufacturer model`; the model
/// when there is no manufacturer; the serial when there is no model.
pub open spec fn device_display_name(d: DeviceView) -> Seq<char> {
    match (d.manufacturer, d.model) {
        (Some(mfg), Some(model)) => if has_prefix(str_to_lowercase(model), str_to_lowercase(mfg)) {
            model
        } else {
            mfg + " "@ + model
        },
        (None, Some(model)) => model,
        _ => d.serial,
    }
}

impl DeviceInfo {
    pub fn new(serial: String, status: DeviceStatus) -> (r: Self)
        ensures
            r@ == new_device(serial@, status@),
    {
        let v = chars_of(serial.as_str());
        let is_usb = !contains_char(&v, ':');
        DeviceInfo {
            serial,
            status,
            model: None,
            manufacturer: None,
            android_version: None,
            sdk_level: None,
            usb_connection: is_usb,
        }
    }

    pub fn display_name(&self) -> (r: String)
        ensures
            r@ == device_display_name(self@),
    {
        match (&self.manufacturer, &self.model) {
            (Some(mfg), Some(model)) => {
                let lm = to_lowercase_text(model.as_str());
                let lf = to_lowercase_text(mfg.as_str());
                let lmv = chars_of(lm.as_str());
                let lfv = chars_of(lf.as_str());
                if starts_with_chars(&lmv, &lfv) {
                    model.clone()
                } else {
                    let mut out: Vec<char> = Vec::new();
                    push_str(&mut out, mfg.as_str());
                    push_str(&mut out, " ");
                    push_str(&mut out, model.as_str());
                    assert(out@ =~= mfg@ + " "@ + model@);
                    string_of(out.as_slice())
                }
            },
            (None, Some(model)) => model.clone(),
            _ => self.serial.clone(),
        }
    }
}

} // verus!
