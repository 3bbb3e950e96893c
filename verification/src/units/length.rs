//! Units of length, relative to the metre.

use crate::binary64::{Binary64, HUNDREDTH, ONE, THOUSAND};
use crate::units::{Unit, UnitType, UnitTypeView, UnitView};
use vstd::prelude::*;
use vstd::string::*;

verus! {

/// The table of lengths: centimetres, metres and kilometres.
pub open spec fn table() -> UnitTypeView {
    UnitTypeView {
        name: "Length"@,
        units: seq![
            UnitView { name: "Centimetres"@, abbreviation: "cm"@, factor: Binary64 { bits: HUNDREDTH } },
            UnitView { name: "Metres"@, abbreviation: "m"@, factor: Binary64 { bits: ONE } },
            UnitView { name: "Kilometres"@, abbreviation: "km"@, factor: Binary64 { bits: THOUSAND } },
        ],
    }
}

/// The table of lengths is well formed.
pub proof fn table_wf()
    ensures
        table().wf(),
{
    reveal_strlit("cm");
    reveal_strlit("m");
    reveal_strlit("km");
    assert("cm"@[0] == 'c' && "km"@[0] == 'k');
}

/// Builds the unit type of lengths.
pub fn init() -> (unit_type: UnitType)
    ensures
        unit_type@ == table(),
        unit_type@.wf(),
{
    let mut units: Vec<Unit> = Vec::new();
    units.push(Unit {
        name: String::from_str("Centimetres"),
        abbreviation: String::from_str("cm"),
        factor: Binary64 { bits: HUNDREDTH },
    });
    units.push(Unit {
        name: String::from_str("Metres"),
        abbreviation: String::from_str("m"),
        factor: Binary64 { bits: ONE },
    });
    units.push(Unit {
        name: String::from_str("Kilometres"),
        abbreviation: String::from_str("km"),
        factor: Binary64 { bits: THOUSAND },
    });
    let unit_type = UnitType { name: String::from_str("Length"), units };
    proof {
        assert(unit_type@.units =~= table().units);
        table_wf();
    }
    unit_type
}

} // verus!
