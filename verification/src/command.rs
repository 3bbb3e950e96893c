//! The free-text conversion command, such as `15cm to m`: its grammar, and
//! how a match is resolved against the unit registry.

use crate::units::{find_unit_type_and_unit_by_abbreviation, lookup, lookup_is_first, registry_view, UnitType, UnitTypeView};
use vstd::prelude::*;
use vstd::string::*;

verus! {

/// The grammar of a command, as a regular expression: a run of digits, a
/// word that abbreviates the unit to convert from, `to` or `in`, and a word
/// that abbreviates the unit to convert to. White space may surround the
/// command and separate the number from its unit.
pub const COMMAND_PATTERN: &'static str = r"^\s*(\d+)\s*(\w+)\s+(to|in)\s+(\w+)\s*$";

/// The capture group that holds the number.
pub const NUMBER_GROUP: usize = 1;

/// The capture group that holds the abbreviation of the unit to convert from.
pub const FROM_GROUP: usize = 2;

/// The capture group that holds the abbreviation of the unit to convert to.
pub const TO_GROUP: usize = 4;

/// The capture groups of the leftmost match of the regular expression
/// `pattern` in `text`, as the `regex` crate finds them: `None` when the
/// pattern is not a regular expression the crate accepts or when nothing in
/// `text` matches; else one entry for each group of the pattern, the whole
/// match first, each the matched text or `None` for a group that took no
/// part in the match.
pub uninterp spec fn regex_captures(pattern: Seq<char>, text: Seq<char>) -> Option<Seq<Option<Seq<char>>>>;

/// Compiles `pattern` with `regex::Regex::new` and searches `text` with
/// `Regex::captures`. The contract names the outcome and claims nothing
/// more of it than that it depends on the two texts alone.
#[verifier::external_body]
fn captures(pattern: &str, text: &str) -> (groups: Option<Vec<Option<String>>>)
    ensures
        groups.deep_view() == regex_captures(pattern@, text@),
{
    match regex::Regex::new(pattern) {
        Ok(re) => re.captures(text).map(|found| found.iter().map(|group| group.map(|m| m.as_str().to_string())).collect()),
        Err(_) => None,
    }
}

/// A command that names two units of one unit type.
#[derive(Debug, PartialEq, Eq)]
pub struct Command {
    /// The command as it was typed.
    pub text: String,
    /// The digits of the number to convert.
    pub number: String,
    /// The index of the unit type of both units.
    pub unit_type: usize,
    /// The index of the unit to convert from, within its unit type.
    pub from_unit: usize,
    /// The index of the unit to convert to, within its unit type.
    pub to_unit: usize,
}

/// What a [`Command`] holds, as mathematical values.
pub struct CommandView {
    pub text: Seq<char>,
    pub number: Seq<char>,
    pub unit_type: int,
    pub from_unit: int,
    pub to_unit: int,
}

impl View for Command {
    type V = CommandView;

    open spec fn view(&self) -> CommandView {
        CommandView {
            text: self.text@,
            number: self.number@,
            unit_type: self.unit_type as int,
            from_unit: self.from_unit as int,
            to_unit: self.to_unit as int,
        }
    }
}

impl CommandView {
    /// The command names a unit type of the registry and two of its units.
    pub open spec fn fits(self, registry: Seq<UnitTypeView>) -> bool {
        &&& 0 <= self.unit_type < registry.len()
        &&& 0 <= self.from_unit < registry[self.unit_type].units.len()
        &&& 0 <= self.to_unit < registry[self.unit_type].units.len()
    }
}

/// The text of capture group `index`, if the match has that group and the
/// group took part in it.
pub open spec fn group(groups: Seq<Option<Seq<char>>>, index: int) -> Option<Seq<char>> {
    if 0 <= index < groups.len() {
        groups[index]
    } else {
        None
    }
}

/// The command that a match of the grammar stands for. There is one when
/// the text matched, the number and both abbreviations were captured, both
/// abbreviations are found in the registry, and they are found in the same
/// unit type; it then holds the number as captured and where the two units
/// were found.
pub open spec fn resolve(registry: Seq<UnitTypeView>, text: Seq<char>, captured: Option<Seq<Option<Seq<char>>>>) -> Option<CommandView> {
    match captured {
        None => None,
        Some(groups) => match (group(groups, NUMBER_GROUP as int), group(groups, FROM_GROUP as int), group(groups, TO_GROUP as int)) {
            (Some(number), Some(from), Some(to)) => match (lookup(registry, from), lookup(registry, to)) {
                (Some((from_type, from_unit)), Some((to_type, to_unit))) => if from_type == to_type {
                    Some(CommandView { text, number, unit_type: from_type, from_unit, to_unit })
                } else {
                    None
                },
                _ => None,
            },
            _ => None,
        },
    }
}

/// The command that `text` gives against the registry: [`resolve`] applied
/// to what the grammar captures in `text`.
pub open spec fn parse(registry: Seq<UnitTypeView>, text: Seq<char>) -> Option<CommandView> {
    resolve(registry, text, regex_captures(COMMAND_PATTERN@, text))
}

/// Resolves what the grammar captured in `text` against the registry.
pub fn resolve_command(unit_types: &Vec<UnitType>, text: &str, captured: &Option<Vec<Option<String>>>) -> (command: Option<Command>)
    ensures
        command.is_some() == resolve(registry_view(unit_types@), text@, captured.deep_view()).is_some(),
        command matches Some(c) ==> resolve(registry_view(unit_types@), text@, captured.deep_view()) == Some(c@),
        command matches Some(c) ==> c@.fits(registry_view(unit_types@)),
{
    proof {
        resolved_command_fits(registry_view(unit_types@), text@, captured.deep_view());
    }
    let groups = match captured {
        Some(groups) => groups,
        None => {
            return None;
        },
    };
    if groups.len() <= TO_GROUP {
        return None;
    }
    match (&groups[NUMBER_GROUP], &groups[FROM_GROUP], &groups[TO_GROUP]) {
        (Some(number), Some(from), Some(to)) => {
            let from_found = find_unit_type_and_unit_by_abbreviation(unit_types, from.as_str());
            let to_found = find_unit_type_and_unit_by_abbreviation(unit_types, to.as_str());
            match (from_found, to_found) {
                (Some((from_type, from_unit)), Some((to_type, to_unit))) => {
                    if from_type == to_type {
                        Some(Command {
                            text: String::from_str(text),
                            number: number.clone(),
                            unit_type: from_type,
                            from_unit,
                            to_unit,
                        })
                    } else {
                        None
                    }
                },
                _ => None,
            }
        },
        _ => None,
    }
}

/// Reads a command: matches `text` against the grammar and resolves the
/// match against the registry. `None` when the text is no command, when an
/// abbreviation is unknown, or when the two units are of different types.
pub fn parse_command(unit_types: &Vec<UnitType>, text: &str) -> (command: Option<Command>)
    ensures
        command.is_some() == parse(registry_view(unit_types@), text@).is_some(),
        command matches Some(c) ==> parse(registry_view(unit_types@), text@) == Some(c@),
        command matches Some(c) ==> c@.fits(registry_view(unit_types@)),
{
    let captured = captures(COMMAND_PATTERN, text);
    resolve_command(unit_types, text, &captured)
}

/// A command that resolves names a unit type of the registry and two of
/// its units.
pub proof fn resolved_command_fits(registry: Seq<UnitTypeView>, text: Seq<char>, captured: Option<Seq<Option<Seq<char>>>>)
    ensures
        resolve(registry, text, captured) matches Some(c) ==> c.fits(registry),
{
    if let Some(c) = resolve(registry, text, captured) {
        let groups = captured->0;
        lookup_is_first(registry, group(groups, FROM_GROUP as int)->0);
        lookup_is_first(registry, group(groups, TO_GROUP as int)->0);
    }
}

} // verus!
