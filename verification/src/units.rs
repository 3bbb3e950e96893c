//! The unit registry: unit types, their units, and the lookups over them.

use crate::binary64::Binary64;
use vstd::prelude::*;
use vstd::string::*;

pub mod length;
pub mod lengths;
pub mod mass;

verus! {

/// One unit of measure.
pub struct Unit {
    pub name: String,
    pub abbreviation: String,
    /// How many base units of its type one of this unit is.
    pub factor: Binary64,
}

/// A kind of quantity and the units it is measured in, in display order.
pub struct UnitType {
    pub name: String,
    pub units: Vec<Unit>,
}

/// What a [`Unit`] holds, as mathematical values.
pub struct UnitView {
    pub name: Seq<char>,
    pub abbreviation: Seq<char>,
    pub factor: Binary64,
}

/// What a [`UnitType`] holds, as mathematical values.
pub struct UnitTypeView {
    pub name: Seq<char>,
    pub units: Seq<UnitView>,
}

impl View for Unit {
    type V = UnitView;

    open spec fn view(&self) -> UnitView {
        UnitView { name: self.name@, abbreviation: self.abbreviation@, factor: self.factor }
    }
}

impl View for UnitType {
    type V = UnitTypeView;

    open spec fn view(&self) -> UnitTypeView {
        UnitTypeView { name: self.name@, units: self.units@.map_values(|u: Unit| u@) }
    }
}

/// The view of a whole registry.
pub open spec fn registry_view(unit_types: Seq<UnitType>) -> Seq<UnitTypeView> {
    unit_types.map_values(|t: UnitType| t@)
}

impl UnitView {
    /// The factor is greater than zero.
    pub open spec fn wf(self) -> bool {
        self.factor.is_positive()
    }

    /// The text a selector shows for the unit: the name, then the
    /// abbreviation in round brackets.
    pub open spec fn title(self) -> Seq<char> {
        self.name + seq![' ', '('] + self.abbreviation + seq![')']
    }
}

impl UnitTypeView {
    /// No other unit before position `i` has the abbreviation of unit `i`.
    pub open spec fn abbreviation_fresh_at(self, i: int) -> bool {
        forall|j: int| 0 <= j < i ==> (#[trigger] self.units[j]).abbreviation != self.units[i].abbreviation
    }

    /// There is at least one unit, every factor is greater than zero, and
    /// no two units share an abbreviation.
    pub open spec fn wf(self) -> bool {
        &&& self.units.len() > 0
        &&& forall|i: int| 0 <= i < self.units.len() ==> (#[trigger] self.units[i]).wf()
        &&& forall|i: int| 0 <= i < self.units.len() ==> #[trigger] self.abbreviation_fresh_at(i)
    }

    /// The position of the first unit with the given abbreviation.
    pub open spec fn position_of(self, abbreviation: Seq<char>) -> Option<int> {
        first_unit(self.units, abbreviation, 0)
    }
}

/// The position of the first unit at or after `from` with the given abbreviation.
pub open spec fn first_unit(units: Seq<UnitView>, abbreviation: Seq<char>, from: int) -> Option<int>
    decreases units.len() - from,
{
    if from < 0 || from >= units.len() {
        None
    } else if units[from].abbreviation == abbreviation {
        Some(from)
    } else {
        first_unit(units, abbreviation, from + 1)
    }
}

/// The first unit type at or after `from` that has a unit with the given
/// abbreviation, with the position of the first such unit in it.
pub open spec fn first_match(registry: Seq<UnitTypeView>, abbreviation: Seq<char>, from: int) -> Option<(int, int)>
    decreases registry.len() - from,
{
    if from < 0 || from >= registry.len() {
        None
    } else {
        match registry[from].position_of(abbreviation) {
            Some(u) => Some((from, u)),
            None => first_match(registry, abbreviation, from + 1),
        }
    }
}

/// Where the abbreviation is first found in the registry: unit types in
/// order, and within each its units in order.
pub open spec fn lookup(registry: Seq<UnitTypeView>, abbreviation: Seq<char>) -> Option<(int, int)> {
    first_match(registry, abbreviation, 0)
}

/// The registry has a unit type, and every unit type is well formed.
pub open spec fn registry_wf(registry: Seq<UnitTypeView>) -> bool {
    &&& registry.len() > 0
    &&& forall|t: int| 0 <= t < registry.len() ==> (#[trigger] registry[t]).wf()
}

/// What [`first_unit`] finds is at or after `from`, has the abbreviation,
/// and nothing between `from` and it has; and it finds nothing only when no
/// unit from `from` on has the abbreviation.
pub proof fn first_unit_is_first(units: Seq<UnitView>, abbreviation: Seq<char>, from: int)
    requires
        0 <= from,
    ensures
        match first_unit(units, abbreviation, from) {
            Some(u) => {
                &&& from <= u < units.len()
                &&& units[u].abbreviation == abbreviation
                &&& forall|j: int| from <= j < u ==> (#[trigger] units[j]).abbreviation != abbreviation
            },
            None => forall|j: int| from <= j < units.len() ==> (#[trigger] units[j]).abbreviation != abbreviation,
        },
    decreases units.len() - from,
{
    if from < units.len() && units[from].abbreviation != abbreviation {
        first_unit_is_first(units, abbreviation, from + 1);
    }
}

/// What [`first_match`] finds is the first unit type at or after `from`
/// that holds the abbreviation, and the first unit in it that has it.
pub proof fn first_match_is_first(registry: Seq<UnitTypeView>, abbreviation: Seq<char>, from: int)
    requires
        0 <= from,
    ensures
        match first_match(registry, abbreviation, from) {
            Some((t, u)) => {
                &&& from <= t < registry.len()
                &&& registry[t].position_of(abbreviation) == Some(u)
                &&& forall|k: int| from <= k < t ==> (#[trigger] registry[k]).position_of(abbreviation) is None
            },
            None => forall|k: int| from <= k < registry.len() ==> (#[trigger] registry[k]).position_of(abbreviation) is None,
        },
    decreases registry.len() - from,
{
    if from < registry.len() && registry[from].position_of(abbreviation) is None {
        first_match_is_first(registry, abbreviation, from + 1);
    }
}

/// What [`lookup`] finds is in the registry and has the abbreviation; no
/// unit type before it has a unit with the abbreviation, and no unit before
/// it in its own type has it. It finds nothing only when no unit of the
/// registry has the abbreviation.
pub proof fn lookup_is_first(registry: Seq<UnitTypeView>, abbreviation: Seq<char>)
    ensures
        match lookup(registry, abbreviation) {
            Some((t, u)) => {
                &&& 0 <= t < registry.len()
                &&& 0 <= u < registry[t].units.len()
                &&& registry[t].units[u].abbreviation == abbreviation
                &&& forall|j: int| 0 <= j < u ==> (#[trigger] registry[t].units[j]).abbreviation != abbreviation
                &&& forall|k: int, j: int|
                    0 <= k < t && 0 <= j < registry[k].units.len() ==> (#[trigger] registry[k].units[j]).abbreviation
                        != abbreviation
            },
            None => forall|k: int, j: int|
                0 <= k < registry.len() && 0 <= j < registry[k].units.len() ==> (#[trigger] registry[k].units[j]).abbreviation
                    != abbreviation,
        },
{
    first_match_is_first(registry, abbreviation, 0);
    match lookup(registry, abbreviation) {
        Some((t, u)) => {
            first_unit_is_first(registry[t].units, abbreviation, 0);
            assert forall|k: int, j: int| 0 <= k < t && 0 <= j < registry[k].units.len() implies (#[trigger] registry[k].units[j]).abbreviation
                != abbreviation by {
                first_unit_is_first(registry[k].units, abbreviation, 0);
            }
        },
        None => {
            assert forall|k: int, j: int|
                0 <= k < registry.len() && 0 <= j < registry[k].units.len() implies (#[trigger] registry[k].units[j]).abbreviation
                != abbreviation by {
                first_unit_is_first(registry[k].units, abbreviation, 0);
            }
        },
    }
}

impl Unit {
    /// The text a selector shows for this unit, such as `Metres (m)`.
    pub fn get_title(&self) -> (title: String)
        ensures
            title@ == self@.title(),
    {
        proof {
            reveal_strlit(" (");
            reveal_strlit(")");
        }
        let mut title = self.name.clone();
        title.append(" (");
        title.append(self.abbreviation.as_str());
        title.append(")");
        title
    }
}

impl UnitType {
    /// The position of the first unit with the given abbreviation.
    pub fn find_unit(&self, abbreviation: &String) -> (found: Option<usize>)
        ensures
            found.is_some() == self@.position_of(abbreviation@).is_some(),
            found matches Some(u) ==> self@.position_of(abbreviation@) == Some(u as int),
    {
        let mut i: usize = 0;
        while i < self.units.len()
            invariant
                i <= self.units.len(),
                self@.units.len() == self.units.len(),
                self@.position_of(abbreviation@) == first_unit(self@.units, abbreviation@, i as int),
            decreases self.units.len() - i,
        {
            if self.units[i].abbreviation == *abbreviation {
                return Some(i);
            }
            i = i + 1;
        }
        None
    }

    /// Whether the unit type is well formed: it has a unit, every factor is
    /// greater than zero, and no abbreviation occurs twice.
    pub fn is_valid(&self) -> (valid: bool)
        ensures
            valid == self@.wf(),
    {
        if self.units.len() == 0 {
            return false;
        }
        let mut i: usize = 0;
        while i < self.units.len()
            invariant
                i <= self.units.len(),
                self@.units.len() == self.units.len(),
                forall|k: int| 0 <= k < i ==> (#[trigger] self@.units[k]).wf(),
                forall|k: int| 0 <= k < i ==> #[trigger] self@.abbreviation_fresh_at(k),
            decreases self.units.len() - i,
        {
            assert(self@.units[i as int] == self.units[i as int]@);
            if !self.units[i].factor.positive() {
                return false;
            }
            let mut j: usize = 0;
            while j < i
                invariant
                    j <= i < self.units.len(),
                    self@.units.len() == self.units.len(),
                    forall|k: int| 0 <= k < j ==> (#[trigger] self@.units[k]).abbreviation != self@.units[i as int].abbreviation,
                decreases i - j,
            {
                assert(self@.units[j as int] == self.units[j as int]@);
                if self.units[j].abbreviation == self.units[i].abbreviation {
                    assert(!self@.abbreviation_fresh_at(i as int));
                    return false;
                }
                j = j + 1;
            }
            i = i + 1;
        }
        true
    }

    /// The titles of the units, in order, for a selector to show.
    pub fn list_units(&self) -> (titles: Vec<String>)
        ensures
            titles@.len() == self@.units.len(),
            forall|i: int| 0 <= i < titles@.len() ==> (#[trigger] titles@[i])@ == self@.units[i].title(),
    {
        let mut titles: Vec<String> = Vec::new();
        let mut i: usize = 0;
        while i < self.units.len()
            invariant
                i <= self.units.len(),
                self@.units.len() == self.units.len(),
                titles@.len() == i,
                forall|k: int| 0 <= k < i ==> (#[trigger] titles@[k])@ == self@.units[k].title(),
            decreases self.units.len() - i,
        {
            titles.push(self.units[i].get_title());
            i = i + 1;
        }
        titles
    }
}

/// The names of the unit types, in order, for a selector to show.
pub fn list_unit_types(unit_types: &Vec<UnitType>) -> (names: Vec<String>)
    ensures
        names@.len() == unit_types@.len(),
        forall|i: int| 0 <= i < names@.len() ==> (#[trigger] names@[i])@ == unit_types@[i].name@,
{
    let mut names: Vec<String> = Vec::new();
    let mut i: usize = 0;
    while i < unit_types.len()
        invariant
            i <= unit_types.len(),
            names@.len() == i,
            forall|k: int| 0 <= k < i ==> (#[trigger] names@[k])@ == unit_types@[k].name@,
        decreases unit_types.len() - i,
    {
        names.push(unit_types[i].name.clone());
        i = i + 1;
    }
    names
}

/// Finds the unit with the given abbreviation: the index of the first unit
/// type that has one, and the index of the first such unit in it. `None`
/// when no unit of the registry has the abbreviation.
pub fn find_unit_type_and_unit_by_abbreviation(unit_types: &Vec<UnitType>, abbreviation: &str) -> (found: Option<(usize, usize)>)
    ensures
        found.is_some() == lookup(registry_view(unit_types@), abbreviation@).is_some(),
        found matches Some((t, u)) ==> lookup(registry_view(unit_types@), abbreviation@) == Some((t as int, u as int)),
{
    let wanted = String::from_str(abbreviation);
    let mut t: usize = 0;
    while t < unit_types.len()
        invariant
            t <= unit_types.len(),
            wanted@ == abbreviation@,
            lookup(registry_view(unit_types@), abbreviation@) == first_match(registry_view(unit_types@), abbreviation@, t as int),
        decreases unit_types.len() - t,
    {
        match unit_types[t].find_unit(&wanted) {
            Some(u) => {
                return Some((t, u));
            },
            None => {},
        }
        t = t + 1;
    }
    None
}

/// Whether the registry is well formed: it has a unit type, and every unit
/// type is well formed.
pub fn is_valid_registry(unit_types: &Vec<UnitType>) -> (valid: bool)
    ensures
        valid == registry_wf(registry_view(unit_types@)),
{
    if unit_types.len() == 0 {
        return false;
    }
    let mut t: usize = 0;
    while t < unit_types.len()
        invariant
            t <= unit_types.len(),
            forall|k: int| 0 <= k < t ==> (#[trigger] registry_view(unit_types@)[k]).wf(),
        decreases unit_types.len() - t,
    {
        assert(registry_view(unit_types@)[t as int] == unit_types[t as int]@);
        if !unit_types[t].is_valid() {
            return false;
        }
        t = t + 1;
    }
    true
}

} // verus!
