//! Conversion of physical lengths into the printer's position units.
use vstd::prelude::*;

verus! {

/// Micrometres in a tenth of a millimetre, the metric position unit.
pub const UM_PER_METRIC_UNIT: u64 = 100;

/// Micrometres in a hundredth of an inch, the imperial position unit.
pub const UM_PER_IMPERIAL_UNIT: u64 = 254;

/// `width_um` micrometres in position units, rounded to the nearest unit
/// (halves up): tenths of a millimetre when `metric`, else hundredths of an
/// inch.
pub open spec fn device_units(width_um: nat, metric: bool) -> nat {
    let unit: nat = if metric {
        UM_PER_METRIC_UNIT as nat
    } else {
        UM_PER_IMPERIAL_UNIT as nat
    };
    (width_um + unit / 2) / unit
}

/// Converts a width of `width_um` micrometres into position units; a result
/// beyond the range of `u16` is `u16::MAX`.
pub fn measure(width_um: u32, metric: bool) -> (r: u16)
    ensures
        device_units(width_um as nat, metric) <= u16::MAX ==> r == device_units(
            width_um as nat,
            metric,
        ),
        device_units(width_um as nat, metric) > u16::MAX ==> r == u16::MAX,
{
    let unit: u64 = if metric {
        UM_PER_METRIC_UNIT
    } else {
        UM_PER_IMPERIAL_UNIT
    };
    let units: u64 = (width_um as u64 + unit / 2) / unit;
    if units > u16::MAX as u64 {
        u16::MAX
    } else {
        units as u16
    }
}

} // verus!
