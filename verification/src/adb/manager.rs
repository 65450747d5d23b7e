//! Which of the listed devices the monitor follows.
use vstd::prelude::*;
use crate::adb::device::{DeviceInfo, DeviceView, DeviceStatusView};

verus! {

/// Index of the first device among `ds` (from `i` on) whose serial is `serial`.
pub open spec fn first_with_serial(ds: Seq<DeviceView>, serial: Seq<char>, i: int) -> Option<int>
    decreases ds.len() - i,
{
    if i < 0 || i >= ds.len() {
        None
    } else if ds[i].serial == serial {
        Some(i)
    } else {
        first_with_serial(ds, serial, i + 1)
    }
}

/// Index of the first authorized device among `ds` (from `i` on).
pub open spec fn first_authorized(ds: Seq<DeviceView>, i: int) -> Option<int>
    decreases ds.len() - i,
{
    if i < 0 || i >= ds.len() {
        None
    } else if ds[i].status == DeviceStatusView::Device {
        Some(i)
    } else {
        first_authorized(ds, i + 1)
    }
}

/// Index of the device the monitor follows: the one with the target serial
/// when a target is set; otherwise the first authorized device, or the
/// first device when none is authorized.
pub open spec fn chosen_device(ds: Seq<DeviceView>, target: Option<Seq<char>>) -> Option<int> {
    match target {
        Some(t) => first_with_serial(ds, t, 0),
        None => match first_authorized(ds, 0) {
            Some(i) => Some(i),
            None => if ds.len() > 0 {
                Some(0)
            } else {
                None
            },
        },
    }
}

pub open spec fn device_views(devices: Seq<DeviceInfo>) -> Seq<DeviceView> {
    devices.map_values(|d: DeviceInfo| d@)
}

/// Picks the device to follow among those listed (see `chosen_device`).
pub fn select_device(devices: Vec<DeviceInfo>, target_serial: Option<String>) -> (r: Option<
    DeviceInfo,
>)
    ensures
        match chosen_device(device_views(devices@), target_serial.deep_view()) {
            Some(i) => r matches Some(d) && d@ == devices@[i]@,
            None => r is None,
        },
{
    let ghost ds = device_views(devices@);
    let mut i: usize = 0;
    match &target_serial {
        Some(t) => {
            while i < devices.len()
                invariant
                    i <= devices@.len(),
                    ds == device_views(devices@),
                    first_with_serial(ds, t@, i as int) == first_with_serial(ds, t@, 0),
                    target_serial.deep_view() == Some(t@),
                decreases devices@.len() - i,
            {
                assert(ds[i as int] == devices@[i as int]@);
                if devices[i].serial.eq(t) {
                    assert(first_with_serial(ds, t@, i as int) == Some(i as int));
                    assert(target_serial.deep_view() == Some(t@));
                    return Some(devices[i].clone());
                }
                i = i + 1;
            }
            None
        },
        None => {
            while i < devices.len()
                invariant
                    i <= devices@.len(),
                    ds == device_views(devices@),
                    first_authorized(ds, i as int) == first_authorized(ds, 0),
                    target_serial is None,
                decreases devices@.len() - i,
            {
                assert(ds[i as int] == devices@[i as int]@);
                if crate::adb::client::wants_device_details(&devices[i]) {
                    assert(first_authorized(ds, i as int) == Some(i as int));
                    return Some(devices[i].clone());
                }
                i = i + 1;
            }
            if devices.len() > 0 {
                Some(devices[0].clone())
            } else {
                None
            }
        },
    }
}

/// Whether the details of a chosen device still have to be fetched: it is
/// authorized and its model is unknown.
pub fn needs_details(device: &DeviceInfo) -> (r: bool)
    ensures
        r == (device@.status == DeviceStatusView::Device && device@.model is None),
{
    crate::adb::client::wants_device_details(device) && device.model.is_none()
}

/// Whether `device` differs from the recorded one: another serial or
/// another status, or none recorded.
pub open spec fn active_device_changed_spec(current: Option<DeviceView>, device: DeviceView) -> bool {
    match current {
        Some(c) => c.serial != device.serial || c.status != device.status,
        None => true,
    }
}

/// Whether the followed device differs from the one recorded: another
/// serial or another status, or none recorded.
pub fn active_device_changed(current: &Option<DeviceInfo>, device: &DeviceInfo) -> (r: bool)
    ensures
        r == match current {
            Some(c) => c@.serial != device@.serial || c@.status != device@.status,
            None => true,
        },
{
    match current {
        Some(c) => !c.serial.eq(&device.serial) || !c.status.eq(&device.status),
        None => true,
    }
}

/// The device recorded as active after a refresh that picked `picked`:
/// none when nothing was picked (no device listed, or the target serial is
/// not among them); the picked device when it differs from the recorded one
/// (see `active_device_changed`); otherwise the recorded one, kept as it was.
pub open spec fn next_active_view(current: Option<DeviceView>, picked: Option<DeviceView>) -> Option<
    DeviceView,
> {
    match picked {
        None => None,
        Some(d) => match current {
            Some(c) => if c.serial != d.serial || c.status != d.status {
                Some(d)
            } else {
                Some(c)
            },
            None => Some(d),
        },
    }
}

pub open spec fn opt_device_view(d: Option<DeviceInfo>) -> Option<DeviceView> {
    match d {
        Some(x) => Some(x@),
        None => None,
    }
}

/// The active device after a refresh that picked `picked` (see
/// `next_active_view`), and whether a picked device replaced the recorded one.
pub fn next_active(current: Option<DeviceInfo>, picked: &Option<DeviceInfo>) -> (r: (
    Option<DeviceInfo>,
    bool,
))
    ensures
        opt_device_view(r.0) == next_active_view(opt_device_view(current), opt_device_view(*picked)),
        r.1 == (picked is Some && active_device_changed_spec(opt_device_view(current), picked->0@)),
{
    match picked {
        None => (None, false),
        Some(d) => {
            let changed = active_device_changed(&current, d);
            if changed {
                (Some(d.clone()), true)
            } else {
                (current, false)
            }
        },
    }
}

} // verus!
