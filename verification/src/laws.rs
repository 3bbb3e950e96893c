//! What holds of the reducer in every state.

use crate::binary64::Binary64;
use crate::command::{group, resolve, CommandView, FROM_GROUP, NUMBER_GROUP, TO_GROUP};
use crate::converter::{placeholder, text_after, EventView, Field, InstructionView, NumericField, RequestView, Shown, StateView, StepView};
use crate::units::{lookup, lookup_is_first, UnitTypeView};
use vstd::prelude::*;

verus! {

/// Whatever the event, the registry stays as it is, and a well-formed state
/// that can take the event stays well formed.
pub proof fn update_keeps_the_registry_and_the_invariant(s: StateView, event: EventView, shown: Shown)
    requires
        s.wf(),
        s.accepts(event),
    ensures
        s.update(event, shown).0.registry == s.registry,
        s.update(event, shown).0.wf(),
{
}

/// Selecting what is selected already, in any of the three selectors,
/// leaves the state as it is and gives no instruction and no request.
pub proof fn selecting_the_active_entry_does_nothing(s: StateView, shown_to: NumericField)
    ensures
        s.unit_type_changed(s.unit_type_index, shown_to) == (s, StepView::idle()),
        s.from_unit_changed(s.from_unit_index, shown_to) == (s, StepView::idle()),
        s.to_unit_changed(s.to_unit_index, shown_to) == (s, StepView::idle()),
        StepView::idle().instructions.len() == 0,
        StepView::idle().request is None,
{
}

/// An event that comes a second time does nothing the second time: a
/// selection that was just made, and an edit that gave the value that is
/// stored now. Two edits are left out, which are new every time: one that
/// empties the field, and one that gives a NaN.
pub proof fn repeated_event_does_nothing(s: StateView, index: int, edited: NumericField, first: NumericField, second: NumericField)
    requires
        edited != NumericField::Empty,
        edited matches NumericField::Valid(value) ==> !value.is_nan(),
    ensures
        ({
            let next = s.unit_type_changed(index, first).0;
            next.unit_type_changed(index, second) == (next, StepView::idle())
        }),
        ({
            let next = s.from_unit_changed(index, first).0;
            next.from_unit_changed(index, second) == (next, StepView::idle())
        }),
        ({
            let next = s.to_unit_changed(index, first).0;
            next.to_unit_changed(index, second) == (next, StepView::idle())
        }),
        ({
            let next = s.from_value_changed(edited, first).0;
            next.from_value_changed(edited, second) == (next, StepView::idle())
        }),
        ({
            let next = s.to_value_changed(edited, first).0;
            next.to_value_changed(edited, second) == (next, StepView::idle())
        }),
{
}

/// A converted text is written exactly when it reads unlike what its field
/// shows; where it is written, the field shows it afterwards, and where it
/// is not, the field is left as it was.
pub proof fn converted_text_is_written_only_where_it_reads_unlike(
    s: StateView,
    target: Field,
    text: Seq<char>,
    parsed: Option<Binary64>,
    shown: NumericField,
    before: Seq<char>,
)
    ensures
        ({
            let step = s.converted(target, text, parsed, shown);
            if NumericField::reading(text, parsed).same_number(shown) {
                step.instructions.len() == 0 && step.text_after(target, before) == before
            } else {
                step.instructions.len() == 1 && step.text_after(target, before) == text
            }
        }),
{
}

/// A change of the unit type selects the first unit on both sides. With an
/// empty "from" value nothing is left to ask of the shell, and the "to"
/// field ends up empty whatever it showed before.
pub proof fn unit_type_change_resets_units(
    s: StateView,
    index: int,
    to_text: Seq<char>,
    to_parsed: Option<Binary64>,
)
    requires
        s.wf(),
        0 <= index < s.registry.len(),
        index != s.unit_type_index,
    ensures
        ({
            let (next, step) = s.unit_type_changed(index, NumericField::reading(to_text, to_parsed));
            &&& next.wf()
            &&& next.unit_type_index == index
            &&& next.from_unit_index == 0
            &&& next.to_unit_index == 0
            &&& step.instructions.contains(InstructionView::SelectFromUnit(0))
            &&& step.instructions.contains(InstructionView::SelectToUnit(0))
            &&& s.from_value is Empty ==> step.request is None && step.text_after(Field::To, to_text) == Seq::<char>::empty()
        }),
{
    let shown = NumericField::reading(to_text, to_parsed);
    let (next, step) = s.unit_type_changed(index, shown);
    let selectors = seq![InstructionView::SelectFromUnit(0), InstructionView::SelectToUnit(0)];
    assert(step.instructions[0] == InstructionView::SelectFromUnit(0));
    assert(step.instructions[1] == InstructionView::SelectToUnit(0));
    if s.from_value is Empty {
        cleared_field_ends_empty(selectors, next.derive(Field::To, shown), to_text, to_parsed);
    }
}

/// Emptying the "from" field stores an empty value, asks nothing of the
/// shell, and leaves the "to" field empty whatever it showed before.
pub proof fn emptied_from_field_clears_to_field(
    s: StateView,
    parsed: Option<Binary64>,
    to_text: Seq<char>,
    to_parsed: Option<Binary64>,
)
    ensures
        ({
            let edited = NumericField::reading(Seq::<char>::empty(), parsed);
            let (next, step) = s.from_value_changed(edited, NumericField::reading(to_text, to_parsed));
            &&& next.from_value is Empty
            &&& step.request is None
            &&& step.text_after(Field::To, to_text) == Seq::<char>::empty()
        }),
{
    let shown = NumericField::reading(to_text, to_parsed);
    let edited = NumericField::reading(Seq::<char>::empty(), parsed);
    let step = s.from_value_changed(edited, shown).1;
    cleared_field_ends_empty(Seq::<InstructionView>::empty(), step, to_text, to_parsed);
}

/// A "from" text that is not empty and is no number is stored as such, and
/// asks nothing of the shell. The "to" field then shows the placeholder,
/// with two exceptions in which it is left as it is: the stored value was
/// no number already, or the "to" field itself shows text that is no
/// number.
pub proof fn unreadable_from_text_shows_placeholder(
    s: StateView,
    text: Seq<char>,
    to_text: Seq<char>,
    to_parsed: Option<Binary64>,
)
    requires
        text.len() > 0,
    ensures
        ({
            let shown = NumericField::reading(to_text, to_parsed);
            let (next, step) = s.from_value_changed(NumericField::reading(text, None), shown);
            &&& next.from_value is Invalid
            &&& step.request is None
            &&& if s.from_value is Invalid || shown is Invalid {
                step.instructions.len() == 0
            } else {
                step.text_after(Field::To, to_text) == placeholder()
            }
        }),
{
}

/// An edit of one number field never writes that field: events on the
/// selectors and on the "from" field write at most the "to" field, and an
/// edit of the "to" field writes at most the "from" field.
pub proof fn one_direction_per_event(
    s: StateView,
    index: int,
    edited: NumericField,
    shown: NumericField,
    before: Seq<char>,
)
    ensures
        s.unit_type_changed(index, shown).1.text_after(Field::From, before) == before,
        s.from_unit_changed(index, shown).1.text_after(Field::From, before) == before,
        s.to_unit_changed(index, shown).1.text_after(Field::From, before) == before,
        s.from_value_changed(edited, shown).1.text_after(Field::From, before) == before,
        s.to_value_changed(edited, shown).1.text_after(Field::To, before) == before,
{
    let next = StateView { unit_type_index: index, from_unit_index: 0, to_unit_index: 0, ..s };
    let selectors = seq![InstructionView::SelectFromUnit(0), InstructionView::SelectToUnit(0)];
    derived_step_writes_only_its_target(next, Field::To, shown, selectors, before);
    derived_step_writes_only_its_target(StateView { from_unit_index: index, ..s }, Field::To, shown, seq![], before);
    derived_step_writes_only_its_target(StateView { to_unit_index: index, ..s }, Field::To, shown, seq![], before);
    derived_step_writes_only_its_target(StateView { from_value: edited, ..s }, Field::To, shown, seq![], before);
    derived_step_writes_only_its_target(StateView { to_value: edited, ..s }, Field::From, shown, seq![], before);
    reveal_with_fuel(text_after, 3);
}

/// A match of the command grammar is passed over exactly when the number or
/// an abbreviation was not captured, an abbreviation is not in the
/// registry, or the two units are found in different unit types. A command
/// that is accepted names units of the registry with the abbreviations as
/// captured.
pub proof fn command_is_accepted_within_one_unit_type(
    registry: Seq<UnitTypeView>,
    text: Seq<char>,
    groups: Seq<Option<Seq<char>>>,
)
    ensures
        match resolve(registry, text, Some(groups)) {
            Some(command) => {
                &&& command.fits(registry)
                &&& command.text == text
                &&& group(groups, NUMBER_GROUP as int) == Some(command.number)
                &&& group(groups, FROM_GROUP as int) == Some(registry[command.unit_type].units[command.from_unit].abbreviation)
                &&& group(groups, TO_GROUP as int) == Some(registry[command.unit_type].units[command.to_unit].abbreviation)
            },
            None => {
                ||| group(groups, NUMBER_GROUP as int) is None
                ||| group(groups, FROM_GROUP as int) is None
                ||| group(groups, TO_GROUP as int) is None
                ||| lookup(registry, group(groups, FROM_GROUP as int)->0) is None
                ||| lookup(registry, group(groups, TO_GROUP as int)->0) is None
                ||| ({
                    &&& lookup(registry, group(groups, FROM_GROUP as int)->0) matches Some(from)
                    &&& lookup(registry, group(groups, TO_GROUP as int)->0) matches Some(to)
                    &&& from.0 != to.0
                })
            },
        },
        resolve(registry, text, None) is None,
{
    if resolve(registry, text, Some(groups)) is Some {
        lookup_is_first(registry, group(groups, FROM_GROUP as int)->0);
        lookup_is_first(registry, group(groups, TO_GROUP as int)->0);
    }
}

/// An accepted command takes effect at once: the unit type, both units, the
/// "from" value and the command text are those of the command, the state
/// stays well formed, and the three selectors are told what to show.
pub proof fn accepted_command_sets_the_state_at_once(
    s: StateView,
    command: CommandView,
    parsed: Option<Binary64>,
    shown_to: NumericField,
)
    requires
        s.wf(),
        command.fits(s.registry),
    ensures
        ({
            let (next, step) = s.number_read(command, parsed, shown_to);
            &&& next.wf()
            &&& next.registry == s.registry
            &&& next.unit_type_index == command.unit_type
            &&& next.from_unit_index == command.from_unit
            &&& next.to_unit_index == command.to_unit
            &&& next.from_value == NumericField::reading(command.number, parsed)
            &&& next.to_value == s.to_value
            &&& next.command_text == command.text
            &&& step.instructions.len() >= 3
            &&& step.instructions[0] == InstructionView::SelectUnitType(command.unit_type)
            &&& step.instructions[1] == InstructionView::SelectFromUnit(command.from_unit)
            &&& step.instructions[2] == InstructionView::SelectToUnit(command.to_unit)
            &&& (parsed matches Some(value) ==> command.number.len() > 0 ==> step.request == Some(
                RequestView::Convert(next.conversion(Field::To, value)),
            ))
        }),
{
}

/// A step that derives `target` from an empty source leaves `target` empty,
/// whatever other instructions come first.
proof fn cleared_field_ends_empty(first: Seq<InstructionView>, derived: StepView, text: Seq<char>, parsed: Option<Binary64>)
    requires
        derived.request is None,
        derived.instructions =~= if NumericField::Empty.same_number(NumericField::reading(text, parsed)) {
            Seq::<InstructionView>::empty()
        } else {
            seq![InstructionView::SetToText(Seq::<char>::empty())]
        },
        forall|i: int| 0 <= i < first.len() ==> !(#[trigger] first[i] is SetToText),
    ensures
        derived.after(first).text_after(Field::To, text) == Seq::<char>::empty(),
{
    if NumericField::Empty.same_number(NumericField::reading(text, parsed)) {
        untouched_field_keeps_its_text(first, Field::To, text);
    }
}

/// Instructions that do not write `field` leave its text as it was.
proof fn untouched_field_keeps_its_text(instructions: Seq<InstructionView>, field: Field, before: Seq<char>)
    requires
        forall|i: int|
            0 <= i < instructions.len() ==> match (#[trigger] instructions[i], field) {
                (InstructionView::SetFromText(_), Field::From) => false,
                (InstructionView::SetToText(_), Field::To) => false,
                _ => true,
            },
    ensures
        text_after(instructions, field, before) == before,
    decreases instructions.len(),
{
    if instructions.len() > 0 {
        untouched_field_keeps_its_text(instructions.drop_last(), field, before);
    }
}

/// Deriving `target` writes no field but `target`.
proof fn derived_step_writes_only_its_target(
    s: StateView,
    target: Field,
    shown: NumericField,
    first: Seq<InstructionView>,
    before: Seq<char>,
)
    requires
        forall|i: int| 0 <= i < first.len() ==> !(#[trigger] first[i] is SetFromText) && !(first[i] is SetToText),
    ensures
        s.derive(target, shown).after(first).text_after(
            match target {
                Field::To => Field::From,
                Field::From => Field::To,
            },
            before,
        ) == before,
{
    let other = match target {
        Field::To => Field::From,
        Field::From => Field::To,
    };
    let all = s.derive(target, shown).after(first).instructions;
    assert forall|i: int| 0 <= i < all.len() implies match (#[trigger] all[i], other) {
        (InstructionView::SetFromText(_), Field::From) => false,
        (InstructionView::SetToText(_), Field::To) => false,
        _ => true,
    } by {}
    untouched_field_keeps_its_text(all, other, before);
}

} // verus!
