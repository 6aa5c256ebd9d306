//! Choosing the display among the USB devices of the host.
//!
//! The caller enumerates the devices and reads each device's descriptor. What
//! it hands over is one entry per device, in the order of enumeration: the
//! identifiers that the descriptor reports, or `None` where the descriptor
//! could not be read. Selection succeeds when exactly one entry carries the
//! display's vendor and product ID.

use vstd::prelude::*;
use vstd::relations::injective_on;
use vstd::set_lib::*;

verus! {

/// Vendor ID that the display reports.
pub const VENDOR_ID: u16 = 0x0FA8;

/// Product ID that the display reports.
pub const PRODUCT_ID: u16 = 0xA030;

/// Exit status of a process that could not acquire the display.
pub const EXIT_STATUS: i32 = 2;

/// The identifiers that a device descriptor reports.
#[derive(Clone, Copy, Debug, PartialEq, Eq, Structural)]
pub struct UsbId {
    pub vendor_id: u16,
    pub product_id: u16,
}

/// Why no display was acquired.
#[derive(Clone, Copy, Debug, PartialEq, Eq, Structural)]
pub enum OpenError {
    /// The host could not enumerate its USB devices.
    Enumerate,
    /// No device reports the display's vendor and product ID.
    NoDevice,
    /// More than one device reports the display's vendor and product ID.
    MultipleDevices,
    /// The one matching device could not be opened.
    Open,
}

/// Whether an entry of the enumeration is a display: its descriptor was read
/// and reports [`VENDOR_ID`] and [`PRODUCT_ID`].
pub open spec fn is_display(entry: Option<UsbId>) -> bool {
    match entry {
        Some(id) => id.vendor_id == VENDOR_ID && id.product_id == PRODUCT_ID,
        None => false,
    }
}

/// Whether position `i` of `devices` holds a display.
pub open spec fn is_candidate(devices: Seq<Option<UsbId>>, i: int) -> bool {
    0 <= i < devices.len() && is_display(devices[i])
}

/// The candidate set: the positions of all displays in `devices`.
pub open spec fn candidates(devices: Seq<Option<UsbId>>) -> Set<int> {
    Set::new(|i: int| is_candidate(devices, i))
}

/// The outcome of selection: the position of the display where the candidate
/// set holds exactly one, and the reason where it holds none or several.
pub open spec fn selection(devices: Seq<Option<UsbId>>) -> Result<int, OpenError> {
    let found = candidates(devices);
    if found.len() == 0 {
        Err(OpenError::NoDevice)
    } else if found.len() == 1 {
        Ok(found.choose())
    } else {
        Err(OpenError::MultipleDevices)
    }
}

/// The text that reports an acquisition failure. For
/// [`OpenError::Enumerate`] and [`OpenError::Open`] it is the part that
/// precedes the USB stack's own account of the failure.
pub open spec fn diagnostic_text(e: OpenError) -> Seq<char> {
    match e {
        OpenError::Enumerate => "ERROR: get devices"@,
        OpenError::NoDevice => "ERROR: no USB device found"@,
        OpenError::MultipleDevices => "ERROR: multiple matching USB devices found"@,
        OpenError::Open => "ERROR: open device"@,
    }
}

impl UsbId {
    /// Whether these are the identifiers of the display.
    pub fn is_display(&self) -> (b: bool)
        ensures
            b == is_display(Some(*self)),
    {
        self.vendor_id == VENDOR_ID && self.product_id == PRODUCT_ID
    }
}

impl OpenError {
    /// The status with which a process exits after this failure. Every
    /// failure to acquire the display is fatal, and all share one status.
    pub fn exit_status(&self) -> (status: i32)
        ensures
            status == EXIT_STATUS,
            status == 2,
    {
        EXIT_STATUS
    }

    /// The line that reports this failure on standard error.
    pub fn diagnostic(&self) -> (text: &'static str)
        ensures
            text@ == diagnostic_text(*self),
    {
        match self {
            OpenError::Enumerate => "ERROR: get devices",
            OpenError::NoDevice => "ERROR: no USB device found",
            OpenError::MultipleDevices => "ERROR: multiple matching USB devices found",
            OpenError::Open => "ERROR: open device",
        }
    }
}

/// The candidate set is finite: it holds positions of `devices` only.
pub proof fn candidates_are_positions(devices: Seq<Option<UsbId>>)
    ensures
        candidates(devices).finite(),
        candidates(devices).len() <= devices.len(),
        forall|i: int| candidates(devices).contains(i) <==> is_candidate(devices, i),
{
    let all = set_int_range(0, devices.len() as int);
    lemma_int_range(0, devices.len() as int);
    lemma_len_subset(candidates(devices), all);
}

/// Where no entry is a display, selection fails for want of a device.
pub proof fn selection_without_display(devices: Seq<Option<UsbId>>)
    requires
        forall|j: int| !is_candidate(devices, j),
    ensures
        selection(devices) == Err::<int, OpenError>(OpenError::NoDevice),
{
    assert(candidates(devices) =~= Set::empty());
}

/// Where position `i` holds a display and no other position does, selection
/// yields `i`.
pub proof fn selection_of_sole_display(devices: Seq<Option<UsbId>>, i: int)
    requires
        is_candidate(devices, i),
        forall|j: int| is_candidate(devices, j) ==> j == i,
    ensures
        selection(devices) == Ok::<int, OpenError>(i),
{
    let found = candidates(devices);
    assert(found =~= set![i]);
    assert(found.len() == 1);
    assert(found.contains(found.choose()));
}

/// Where two different positions hold a display, selection fails as
/// ambiguous, whatever else is connected.
pub proof fn selection_of_several_displays(devices: Seq<Option<UsbId>>, i: int, j: int)
    requires
        is_candidate(devices, i),
        is_candidate(devices, j),
        i != j,
    ensures
        selection(devices) == Err::<int, OpenError>(OpenError::MultipleDevices),
{
    let found = candidates(devices);
    candidates_are_positions(devices);
    assert(found.contains(i));
    assert(found.remove(i).contains(j));
    assert(found.remove(i).len() >= 1) by {
        assert(found.remove(i).remove(j).len() >= 0);
    }
}

/// What each outcome of selection says of the entries: success names the
/// only display; the two failures that selection can report mean no display
/// and at least two; the failures of the USB stack are never its outcome.
pub proof fn selection_outcome(devices: Seq<Option<UsbId>>)
    ensures
        match selection(devices) {
            Ok(i) => is_candidate(devices, i) && forall|j: int|
                is_candidate(devices, j) ==> j == i,
            Err(OpenError::NoDevice) => forall|j: int| !is_candidate(devices, j),
            Err(OpenError::MultipleDevices) => exists|i: int, j: int|
                is_candidate(devices, i) && is_candidate(devices, j) && i != j,
            Err(_) => false,
        },
{
    let found = candidates(devices);
    candidates_are_positions(devices);
    if found.len() == 0 {
        found.lemma_len0_is_empty();
        assert forall|j: int| !is_candidate(devices, j) by {
            assert(!found.contains(j));
        }
    } else if found.len() == 1 {
        Set::lemma_is_singleton(found);
        let i = found.choose();
        assert(found.contains(i));
        assert forall|j: int| is_candidate(devices, j) implies j == i by {
            assert(found.contains(j));
        }
    } else {
        let i = found.choose();
        assert(found.contains(i));
        let rest = found.remove(i);
        assert(rest.len() >= 1);
        let j = rest.choose();
        assert(rest.contains(j));
        assert(is_candidate(devices, i) && is_candidate(devices, j) && i != j);
    }
}

/// The position to which position `i` moves when an entry is put in at
/// position `k`.
pub open spec fn shifted(i: int, k: int) -> int {
    if i < k {
        i
    } else {
        i + 1
    }
}

/// A device whose descriptor cannot be read takes no part in selection:
/// putting such an entry anywhere into the enumeration leaves the outcome as
/// it was, but for the position of a selected display that comes after it.
pub proof fn unreadable_device_is_ignored(devices: Seq<Option<UsbId>>, k: int)
    requires
        0 <= k <= devices.len(),
    ensures
        !candidates(devices.insert(k, None)).contains(k),
        candidates(devices.insert(k, None)).len() == candidates(devices).len(),
        selection(devices.insert(k, None)) == match selection(devices) {
            Ok(i) => Ok::<int, OpenError>(shifted(i, k)),
            Err(e) => Err::<int, OpenError>(e),
        },
{
    let with = devices.insert(k, None);
    assert forall|i: int| is_candidate(devices, i) <==> is_candidate(with, shifted(i, k)) by {
        if 0 <= i < devices.len() {
            assert(with[shifted(i, k)] == devices[i]);
        }
    }
    assert forall|j: int| is_candidate(with, j) implies j != k && is_candidate(
        devices,
        if j < k {
            j
        } else {
            j - 1
        },
    ) by {
        let i = if j < k {
            j
        } else {
            j - 1
        };
        if j != k {
            assert(shifted(i, k) == j);
        }
    }
    candidates_are_positions(devices);
    candidates_are_positions(with);
    let shift = |i: int| shifted(i, k);
    assert(candidates(devices).map(shift) =~= candidates(with)) by {
        assert forall|j: int| candidates(with).contains(j) implies candidates(devices).map(
            shift,
        ).contains(j) by {
            let i = if j < k {
                j
            } else {
                j - 1
            };
            assert(candidates(devices).contains(i) && shift(i) == j);
        }
    }
    assert(injective_on(shift, candidates(devices)));
    lemma_map_size(candidates(devices), candidates(with), shift);
    selection_outcome(devices);
    match selection(devices) {
        Ok(i) => {
            assert forall|j: int| is_candidate(with, j) implies j == shifted(i, k) by {
                let back = if j < k {
                    j
                } else {
                    j - 1
                };
                assert(is_candidate(devices, back));
            }
            selection_of_sole_display(with, shifted(i, k));
        },
        Err(e) => {},
    }
}

} // verus!
