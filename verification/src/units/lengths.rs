//! Units of length under their singular names, relative to the metre.

use crate::binary64::{Binary64, HUNDREDTH, ONE, THOUSAND};
use crate::units::{Unit, UnitType, UnitTypeView, UnitView};
use vstd::prelude::*;
use vstd::string::*;

verus! {

/// The table of lengths: centimetre, metre and kilometre.
pub open spec fn table() -> UnitTypeView {
    UnitTypeView {
        name: "Lengths"@,
        units: seq![
            UnitView { name: "Centimetre"@, abbreviation: "cm"@, factor: Binary64 { bits: HUNDREDTH } },
            UnitView { name: "Metre"@, abbreviation: "m"@, factor: Binary64 { bits: ONE } },
            UnitView { name: "Kilometre"@, abbreviation: "km"@, factor: Binary64 { bits: THOUSAND } },
        ],
    }
}

/// The table of lengths is well formed.
pub proof fn table_wf()
    ensures
        table().wf(),
{
    reveal_strlit("cm");
    reveal_strlit("m");
    reveal_strlit("km");
    assert("cm"@[0] == 'c' && "km"@[0] == 'k');
}

/// Builds the unit type of lengths.
pub fn init() -> (unit_type: UnitType)
    ensures
        unit_type@ == table(),
        unit_type@.wf(),
{
    let mut units: Vec<Unit> = Vec::new();
    units.push(Unit {
        name: String::from_str("Centimetre"),
        abbreviation: String::from_str("cm"),
        factor: Binary64 { bits: HUNDREDTH },
    });
    units.push(Unit {
        name: String::from_str("Metre"),
        abbreviation: String::from_str("m"),
        factor: Binary64 { bits: ONE },
    });
    units.push(Unit {
        name: String::from_str("Kilometre"),
        abbreviation: String::from_str("km"),
        factor: Binary64 { bits: THOUSAND },
    });
    let unit_type = UnitType { name: String::from_str("Lengths"), units };
    proof {
        assert(unit_type@.units =~= table().units);
        table_wf();
    }
    unit_type
}

} // verus!
