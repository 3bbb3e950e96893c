//! Units of mass, relative to the kilogram.

use crate::binary64::{Binary64, ONE, THOUSANDTH};
use crate::units::{Unit, UnitType, UnitTypeView, UnitView};
use vstd::prelude::*;
use vstd::string::*;

verus! {

/// The table of masses: grams and kilograms.
pub open spec fn table() -> UnitTypeView {
    UnitTypeView {
        name: "Mass"@,
        units: seq![
            UnitView { name: "Grams"@, abbreviation: "g"@, factor: Binary64 { bits: THOUSANDTH } },
            UnitView { name: "Kilograms"@, abbreviation: "kg"@, factor: Binary64 { bits: ONE } },
        ],
    }
}

/// The table of masses is well formed.
pub proof fn table_wf()
    ensures
        table().wf(),
{
    reveal_strlit("g");
    reveal_strlit("kg");
    assert("g"@.len() == 1 && "kg"@.len() == 2);
}

/// Builds the unit type of masses.
pub fn init() -> (unit_type: UnitType)
    ensures
        unit_type@ == table(),
        unit_type@.wf(),
{
    let mut units: Vec<Unit> = Vec::new();
    units.push(Unit {
        name: String::from_str("Grams"),
        abbreviation: String::from_str("g"),
        factor: Binary64 { bits: THOUSANDTH },
    });
    units.push(Unit {
        name: String::from_str("Kilograms"),
        abbreviation: String::from_str("kg"),
        factor: Binary64 { bits: ONE },
    });
    let unit_type = UnitType { name: String::from_str("Mass"), units };
    proof {
        assert(unit_type@.units =~= table().units);
        table_wf();
    }
    unit_type
}

} // verus!
