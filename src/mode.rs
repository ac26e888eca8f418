use vstd::prelude::*;

verus! {

/// Vendor identifier that every matching device carries.
pub const APPLE_VENDOR_ID: u16 = 0x05ac;

/// The boot stage that a device runs, as told by its USB product identifier.
#[allow(non_camel_case_types, clippy::upper_case_acronyms)]
#[derive(Debug, Clone, Copy, PartialEq, Eq, Structural)]
pub enum Mode {
    DFU,
    WTF,
    DISK,
    /// Second-stage bootloader. No product identifier is known for it, so
    /// the lookup table never yields it.
    UBOOT,
    Unknown(u16),
}

/// The boot stage for a product identifier, by the fixed lookup table.
pub open spec fn mode_of(product_id: u16) -> Mode {
    if product_id == 0x1234 {
        Mode::DFU
    } else if product_id == 0x1249 || product_id == 0x124A {
        Mode::WTF
    } else if product_id == 0x1267 {
        Mode::DISK
    } else {
        Mode::Unknown(product_id)
    }
}

impl From<u16> for Mode {
    fn from(value: u16) -> (r: Mode)
        ensures
            r == mode_of(value),
    {
        match value {
            0x1234 => Mode::DFU,
            0x1249 => Mode::WTF,
            0x124A => Mode::WTF,
            0x1267 => Mode::DISK,
            _ => Mode::Unknown(value),
        }
    }
}

impl vstd::std_specs::convert::FromSpecImpl<u16> for Mode {
    open spec fn obeys_from_spec() -> bool {
        true
    }

    open spec fn from_spec(v: u16) -> Mode {
        mode_of(v)
    }
}

/// Whether a device with these identifiers is a candidate: it carries the
/// vendor identifier and, when a boot stage is asked for, runs that stage.
pub open spec fn device_matches(vendor_id: u16, product_id: u16, wanted: Option<Mode>) -> bool {
    vendor_id == APPLE_VENDOR_ID && match wanted {
        Some(m) => mode_of(product_id) == m,
        None => true,
    }
}

/// Decides whether a device is a candidate for a session (see `device_matches`).
pub fn is_wanted_device(vendor_id: u16, product_id: u16, wanted: Option<Mode>) -> (r: bool)
    ensures
        r == device_matches(vendor_id, product_id, wanted),
{
    if vendor_id != APPLE_VENDOR_ID {
        return false;
    }
    match wanted {
        Some(m) => Mode::from(product_id) == m,
        None => true,
    }
}

/// Picks the first candidate among the identifiers `(vendor, product)` of the
/// attached devices, in the order given; `None` when no device matches.
pub fn find_device(ids: &Vec<(u16, u16)>, wanted: Option<Mode>) -> (r: Option<usize>)
    ensures
        match r {
            Some(i) => i < ids@.len() && device_matches(ids@[i as int].0, ids@[i as int].1, wanted)
                && forall|j: int| 0 <= j < i ==> !device_matches(ids@[j].0, ids@[j].1, wanted),
            None => forall|j: int|
                0 <= j < ids@.len() ==> !device_matches(ids@[j].0, ids@[j].1, wanted),
        },
{
    let mut i: usize = 0;
    while i < ids.len()
        invariant
            i <= ids@.len(),
            forall|j: int| 0 <= j < i ==> !device_matches(ids@[j].0, ids@[j].1, wanted),
        decreases ids@.len() - i,
    {
        let (vendor_id, product_id) = ids[i];
        if is_wanted_device(vendor_id, product_id, wanted) {
            return Some(i);
        }
        i = i + 1;
    }
    None
}

} // verus!
