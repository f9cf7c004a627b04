//! Device selection: which HID devices belong to the keyboard's vendor, and
//! which single candidate is in programming mode and safe to flash.  The
//! enumeration itself is the caller's job; this module only decides.

use vstd::prelude::*;

verus! {

/// What the caller's HID enumeration reports of one device.
#[derive(Debug, Copy, Clone, PartialEq, Eq, Structural)]
pub struct DeviceCandidate {
    pub vendor_id: u16,
    pub product_id: u16,
    pub interface_number: i32,
}

/// The keyboard vendor's identifier.
pub open spec fn vendor_id_value() -> u16 {
    0x04d9
}

/// A candidate made by the keyboard's vendor.
pub open spec fn is_vendor_match(d: DeviceCandidate) -> bool {
    d.vendor_id == vendor_id_value()
}

/// A candidate that is in programming mode and may be flashed: the C15
/// variant on interface 1, or the C18 variant on any interface.
pub open spec fn is_flashable(d: DeviceCandidate) -> bool {
    is_vendor_match(d) && ((d.product_id == 0x8008 && d.interface_number == 1) || d.product_id
        == 0x8009)
}

/// How many of the listed candidates the vendor check accepts.
pub open spec fn vendor_match_count(s: Seq<DeviceCandidate>) -> int
    decreases s.len(),
{
    if s.len() == 0 {
        0
    } else {
        vendor_match_count(s.drop_last()) + if is_vendor_match(s.last()) {
            1int
        } else {
            0int
        }
    }
}

/// How many of the listed candidates are flashable.
pub open spec fn flashable_count(s: Seq<DeviceCandidate>) -> int
    decreases s.len(),
{
    if s.len() == 0 {
        0
    } else {
        flashable_count(s.drop_last()) + if is_flashable(s.last()) {
            1int
        } else {
            0int
        }
    }
}

/// The result of looking through one enumeration of HID devices.
#[derive(Debug, Copy, Clone)]
pub struct ScanOutcome {
    pub vendor_matches: usize,
    pub flashable_count: usize,
    pub flashable_index: Option<usize>,
}

pub fn candidate_is_vendor_match(d: &DeviceCandidate) -> (r: bool)
    ensures
        r == is_vendor_match(*d),
{
    d.vendor_id == 0x04d9
}

pub fn candidate_is_flashable(d: &DeviceCandidate) -> (r: bool)
    ensures
        r == is_flashable(*d),
{
    d.vendor_id == 0x04d9 && ((d.product_id == 0x8008 && d.interface_number == 1) || d.product_id
        == 0x8009)
}

/// Looks through one enumeration of HID devices and reports how many belong
/// to the vendor, how many are flashable, and the first flashable one.
pub fn scan_candidates(devices: &Vec<DeviceCandidate>) -> (r: ScanOutcome)
    ensures
        r.vendor_matches == vendor_match_count(devices@),
        r.flashable_count == flashable_count(devices@),
        r.flashable_index matches Some(i) ==> i < devices@.len() && is_flashable(devices@[i as int])
            && (forall|j: int| 0 <= j < i ==> !is_flashable(devices@[j])),
        r.flashable_index is None ==> forall|j: int|
            0 <= j < devices@.len() ==> !is_flashable(devices@[j]),
        (r.flashable_index is None <==> r.flashable_count == 0),
{
    let mut vendor_matches: usize = 0;
    let mut flash_count: usize = 0;
    let mut first: Option<usize> = None;
    let mut i: usize = 0;
    while i < devices.len()
        invariant
            i <= devices@.len(),
            vendor_matches == vendor_match_count(devices@.take(i as int)),
            flash_count == flashable_count(devices@.take(i as int)),
            vendor_matches <= i,
            flash_count <= i,
            first matches Some(x) ==> x < i && is_flashable(devices@[x as int]) && (forall|j: int|
                0 <= j < x ==> !is_flashable(devices@[j])),
            first is None ==> forall|j: int| 0 <= j < i ==> !is_flashable(devices@[j]),
            (first is None <==> flash_count == 0),
        decreases devices@.len() - i,
    {
        proof {
            assert(devices@.take(i + 1).drop_last() =~= devices@.take(i as int));
            assert(devices@.take(i + 1).last() == devices@[i as int]);
        }
        let d = devices[i];
        if candidate_is_vendor_match(&d) {
            vendor_matches = vendor_matches + 1;
        }
        if candidate_is_flashable(&d) {
            flash_count = flash_count + 1;
            if first.is_none() {
                first = Some(i);
            }
        }
        i = i + 1;
    }
    proof {
        assert(devices@.take(devices@.len() as int) =~= devices@);
    }
    ScanOutcome { vendor_matches, flashable_count: flash_count, flashable_index: first }
}

} // verus!
