//! The conversion session: its state, and the reducer that answers each
//! input event with the instructions that bring the display back in line.
//!
//! The reducer never computes with numbers itself. When it needs a number
//! read from text, a value converted or a number written out, it returns a
//! [`Request`]; the shell does that work and hands the answer to the
//! matching method ([`ConversionState::number_read`],
//! [`ConversionState::converted`], [`ConversionState::formatted`]), which
//! returns the next [`Step`].

use crate::binary64::Binary64;
use crate::command::{parse, parse_command, Command, CommandView};
use crate::units::{registry_view, registry_wf, Unit, UnitType, UnitTypeView, UnitView};
use vstd::prelude::*;
use vstd::string::*;

verus! {

/// One of the two linked number fields.
#[derive(Clone, Copy, Debug, PartialEq, Eq, Structural)]
pub enum Field {
    From,
    To,
}

/// What a number field holds, read as a number.
#[derive(Clone, Copy, Debug, PartialEq, Eq, Structural)]
pub enum NumericField {
    /// The field is empty.
    Empty,
    /// The field holds text that is no number.
    Invalid,
    /// The field holds this number.
    Valid(Binary64),
}

impl NumericField {
    /// What a field with the given text holds, where `parsed` is the number
    /// that the text was read as, if it could be read as one. An empty text
    /// is an empty field, whatever `parsed` says.
    pub open spec fn reading(text: Seq<char>, parsed: Option<Binary64>) -> NumericField {
        if text.len() == 0 {
            NumericField::Empty
        } else {
            match parsed {
                Some(value) => NumericField::Valid(value),
                None => NumericField::Invalid,
            }
        }
    }

    /// The two fields read alike: both are empty, both hold text that is no
    /// number, or both hold numbers that are equal. A field that holds a
    /// NaN reads unlike every field, itself included.
    pub open spec fn same_number(self, other: NumericField) -> bool {
        match (self, other) {
            (NumericField::Empty, NumericField::Empty) => true,
            (NumericField::Invalid, NumericField::Invalid) => true,
            (NumericField::Valid(a), NumericField::Valid(b)) => a.equals(b),
            _ => false,
        }
    }

    /// The stored value already is what a newly edited field reads as. An
    /// edit that empties the field never counts as already stored.
    pub open spec fn holds(self, edited: NumericField) -> bool {
        edited != NumericField::Empty && self.same_number(edited)
    }

    /// Classifies the text of a field, given the number it was read as.
    pub fn read(text: &str, parsed: Option<Binary64>) -> (field: NumericField)
        ensures
            field == NumericField::reading(text@, parsed),
    {
        if text.is_empty() {
            NumericField::Empty
        } else {
            match parsed {
                Some(value) => NumericField::Valid(value),
                None => NumericField::Invalid,
            }
        }
    }

    /// Whether the two fields read alike.
    pub fn is_same_number(&self, other: &NumericField) -> (same: bool)
        ensures
            same == self.same_number(*other),
    {
        match (self, other) {
            (NumericField::Empty, NumericField::Empty) => true,
            (NumericField::Invalid, NumericField::Invalid) => true,
            (NumericField::Valid(a), NumericField::Valid(b)) => a.same(b),
            _ => false,
        }
    }
}

/// A conversion for the shell to carry out: `value * from_factor /
/// to_factor`, written with ten fractional digits and brought to canonical
/// form, to be shown in the `target` field.
#[derive(Clone, Copy, Debug, PartialEq, Eq, Structural)]
pub struct Conversion {
    pub target: Field,
    pub value: Binary64,
    pub from_factor: Binary64,
    pub to_factor: Binary64,
}

/// A change for the shell to make to the display.
#[derive(Debug, PartialEq, Eq)]
pub enum Instruction {
    /// Show the list of unit types with this one selected.
    SelectUnitType(usize),
    /// Show the units of the current unit type in the "from" selector, with
    /// this one selected.
    SelectFromUnit(usize),
    /// Show the units of the current unit type in the "to" selector, with
    /// this one selected.
    SelectToUnit(usize),
    /// Put this text in the "from" field.
    SetFromText(String),
    /// Put this text in the "to" field.
    SetToText(String),
    /// Put this text in the command line.
    SetCommandText(String),
}

/// What an [`Instruction`] holds, as mathematical values.
pub enum InstructionView {
    SelectUnitType(int),
    SelectFromUnit(int),
    SelectToUnit(int),
    SetFromText(Seq<char>),
    SetToText(Seq<char>),
    SetCommandText(Seq<char>),
}

impl View for Instruction {
    type V = InstructionView;

    open spec fn view(&self) -> InstructionView {
        match self {
            Instruction::SelectUnitType(index) => InstructionView::SelectUnitType(*index as int),
            Instruction::SelectFromUnit(index) => InstructionView::SelectFromUnit(*index as int),
            Instruction::SelectToUnit(index) => InstructionView::SelectToUnit(*index as int),
            Instruction::SetFromText(text) => InstructionView::SetFromText(text@),
            Instruction::SetToText(text) => InstructionView::SetToText(text@),
            Instruction::SetCommandText(text) => InstructionView::SetCommandText(text@),
        }
    }
}

/// Work that the reducer needs from the shell before it can go on.
#[derive(Debug, PartialEq, Eq)]
pub enum Request {
    /// Read the number of this command as a number, and answer with
    /// [`ConversionState::number_read`].
    ReadNumber(Command),
    /// Carry out this conversion, and answer with
    /// [`ConversionState::converted`].
    Convert(Conversion),
    /// Write this number in its shortest form, and answer with
    /// [`ConversionState::formatted`].
    Format(Binary64),
}

/// What a [`Request`] holds, as mathematical values.
pub enum RequestView {
    ReadNumber(CommandView),
    Convert(Conversion),
    Format(Binary64),
}

impl View for Request {
    type V = RequestView;

    open spec fn view(&self) -> RequestView {
        match self {
            Request::ReadNumber(command) => RequestView::ReadNumber(command@),
            Request::Convert(conversion) => RequestView::Convert(*conversion),
            Request::Format(value) => RequestView::Format(*value),
        }
    }
}

/// The reducer's answer to an event: what to change on the display now,
/// and what it needs to know before it can say more.
#[derive(Debug, PartialEq, Eq)]
pub struct Step {
    pub instructions: Vec<Instruction>,
    pub request: Option<Request>,
}

/// What a [`Step`] holds, as mathematical values.
pub struct StepView {
    pub instructions: Seq<InstructionView>,
    pub request: Option<RequestView>,
}

/// The views of a list of instructions.
pub open spec fn instruction_views(instructions: Seq<Instruction>) -> Seq<InstructionView> {
    instructions.map_values(|i: Instruction| i@)
}

impl View for Step {
    type V = StepView;

    open spec fn view(&self) -> StepView {
        StepView {
            instructions: instruction_views(self.instructions@),
            request: match self.request {
                Some(request) => Some(request@),
                None => None,
            },
        }
    }
}

/// What the two number fields show when an event arrives, read as numbers.
#[derive(Clone, Copy, Debug, PartialEq, Eq, Structural)]
pub struct Shown {
    pub from: NumericField,
    pub to: NumericField,
}

/// What the reducer is told: an input of the user, or the shell's answer to
/// a [`Request`]. Where a text comes with an `Option<Binary64>`, that is the
/// number the text reads as, if it reads as one.
#[derive(Debug, PartialEq, Eq)]
pub enum Event {
    /// This unit type was selected.
    UnitTypeChanged(usize),
    /// This unit was selected on the "from" side.
    FromUnitChanged(usize),
    /// This unit was selected on the "to" side.
    ToUnitChanged(usize),
    /// The "from" field now holds this text.
    FromTextChanged(String, Option<Binary64>),
    /// The "to" field now holds this text.
    ToTextChanged(String, Option<Binary64>),
    /// The command line now holds this text.
    CommandChanged(String),
    /// The answer to [`Request::ReadNumber`] for this command.
    NumberRead(Command, Option<Binary64>),
    /// The answer to [`Request::Convert`] for this field: the canonical
    /// text of the converted value.
    Converted(Field, String, Option<Binary64>),
    /// The answer to [`Request::Format`]: the number in its shortest form.
    Formatted(String),
}

/// What an [`Event`] holds, as mathematical values.
pub enum EventView {
    UnitTypeChanged(int),
    FromUnitChanged(int),
    ToUnitChanged(int),
    FromTextChanged(Seq<char>, Option<Binary64>),
    ToTextChanged(Seq<char>, Option<Binary64>),
    CommandChanged(Seq<char>),
    NumberRead(CommandView, Option<Binary64>),
    Converted(Field, Seq<char>, Option<Binary64>),
    Formatted(Seq<char>),
}

impl View for Event {
    type V = EventView;

    open spec fn view(&self) -> EventView {
        match self {
            Event::UnitTypeChanged(index) => EventView::UnitTypeChanged(*index as int),
            Event::FromUnitChanged(index) => EventView::FromUnitChanged(*index as int),
            Event::ToUnitChanged(index) => EventView::ToUnitChanged(*index as int),
            Event::FromTextChanged(text, parsed) => EventView::FromTextChanged(text@, *parsed),
            Event::ToTextChanged(text, parsed) => EventView::ToTextChanged(text@, *parsed),
            Event::CommandChanged(text) => EventView::CommandChanged(text@),
            Event::NumberRead(command, parsed) => EventView::NumberRead(command@, *parsed),
            Event::Converted(target, text, parsed) => EventView::Converted(*target, text@, *parsed),
            Event::Formatted(number) => EventView::Formatted(number@),
        }
    }
}

impl StepView {
    /// The step that changes nothing and asks for nothing.
    pub open spec fn idle() -> StepView {
        StepView { instructions: seq![], request: None }
    }

    /// This step, with `first` to be carried out before its own instructions.
    pub open spec fn after(self, first: Seq<InstructionView>) -> StepView {
        StepView { instructions: first + self.instructions, request: self.request }
    }

    /// The text that `field` shows once the instructions of this step are
    /// carried out, if it showed `before`.
    pub open spec fn text_after(self, field: Field, before: Seq<char>) -> Seq<char> {
        text_after(self.instructions, field, before)
    }
}

/// The text that `field` shows once the instructions are carried out in
/// order, if it showed `before`.
pub open spec fn text_after(instructions: Seq<InstructionView>, field: Field, before: Seq<char>) -> Seq<char>
    decreases instructions.len(),
{
    if instructions.len() == 0 {
        before
    } else {
        match (instructions.last(), field) {
            (InstructionView::SetFromText(text), Field::From) => text,
            (InstructionView::SetToText(text), Field::To) => text,
            _ => text_after(instructions.drop_last(), field, before),
        }
    }
}

/// The instruction that puts `text` in `field`.
pub open spec fn set_text(field: Field, text: Seq<char>) -> InstructionView {
    match field {
        Field::From => InstructionView::SetFromText(text),
        Field::To => InstructionView::SetToText(text),
    }
}

/// The text shown for a value that is no number.
pub open spec fn placeholder() -> Seq<char> {
    seq!['-']
}

/// The command that says "convert `number` of `from` into `to`".
pub open spec fn command_line(number: Seq<char>, from: Seq<char>, to: Seq<char>) -> Seq<char> {
    number + from + seq![' ', 'i', 'n', ' '] + to
}

/// The state of a session, as mathematical values.
pub struct StateView {
    pub registry: Seq<UnitTypeView>,
    pub unit_type_index: int,
    pub from_unit_index: int,
    pub to_unit_index: int,
    pub from_value: NumericField,
    pub to_value: NumericField,
    pub command_text: Seq<char>,
}

impl StateView {
    /// The state a session starts in: the first unit type, its first unit
    /// on both sides, no values, no command.
    pub open spec fn initial(registry: Seq<UnitTypeView>) -> StateView {
        StateView {
            registry,
            unit_type_index: 0,
            from_unit_index: 0,
            to_unit_index: 0,
            from_value: NumericField::Empty,
            to_value: NumericField::Empty,
            command_text: seq![],
        }
    }

    /// The registry is well formed, and the three indices select a unit
    /// type of it and two units of that type.
    pub open spec fn wf(self) -> bool {
        &&& registry_wf(self.registry)
        &&& 0 <= self.unit_type_index < self.registry.len()
        &&& 0 <= self.from_unit_index < self.units().len()
        &&& 0 <= self.to_unit_index < self.units().len()
    }

    /// The units of the selected unit type.
    pub open spec fn units(self) -> Seq<UnitView> {
        self.registry[self.unit_type_index].units
    }

    /// The unit selected on the "from" side.
    pub open spec fn from_unit(self) -> UnitView {
        self.units()[self.from_unit_index]
    }

    /// The unit selected on the "to" side.
    pub open spec fn to_unit(self) -> UnitView {
        self.units()[self.to_unit_index]
    }

    /// The value that the text of `target` is derived from: the value of
    /// the other field.
    pub open spec fn source(self, target: Field) -> NumericField {
        match target {
            Field::To => self.from_value,
            Field::From => self.to_value,
        }
    }

    /// The conversion of `value` that gives the text of `target`: from the
    /// unit of the other side into the unit of the target's side.
    pub open spec fn conversion(self, target: Field, value: Binary64) -> Conversion {
        match target {
            Field::To => Conversion { target, value, from_factor: self.from_unit().factor, to_factor: self.to_unit().factor },
            Field::From => Conversion { target, value, from_factor: self.to_unit().factor, to_factor: self.from_unit().factor },
        }
    }

    /// The step that shows the derived `text` in `target`. `derived` is what
    /// the text reads as and `shown` what the field shows now: the field is
    /// written only if the two read unlike. After that the command line is
    /// due, if there is a "from" number to put in it.
    pub open spec fn settle(self, target: Field, text: Seq<char>, derived: NumericField, shown: NumericField) -> StepView {
        StepView {
            instructions: if derived.same_number(shown) {
                seq![]
            } else {
                seq![set_text(target, text)]
            },
            request: match self.from_value {
                NumericField::Valid(value) => Some(RequestView::Format(value)),
                _ => None,
            },
        }
    }

    /// The step that brings `target` in line with the other field: an empty
    /// text for an empty source, the placeholder for a source that is no
    /// number, and a request to convert for a source that is one.
    pub open spec fn derive(self, target: Field, shown: NumericField) -> StepView {
        match self.source(target) {
            NumericField::Empty => self.settle(target, seq![], NumericField::Empty, shown),
            NumericField::Invalid => self.settle(target, placeholder(), NumericField::Invalid, shown),
            NumericField::Valid(value) => StepView { instructions: seq![], request: Some(RequestView::Convert(self.conversion(target, value))) },
        }
    }

    /// Another unit type was selected. Selecting the current one changes
    /// nothing. Else both sides go to the first unit of the new type, and
    /// the "to" field is derived anew.
    pub open spec fn unit_type_changed(self, index: int, shown_to: NumericField) -> (StateView, StepView) {
        if index == self.unit_type_index {
            (self, StepView::idle())
        } else {
            let next = StateView { unit_type_index: index, from_unit_index: 0, to_unit_index: 0, ..self };
            (next, next.derive(Field::To, shown_to).after(seq![InstructionView::SelectFromUnit(0), InstructionView::SelectToUnit(0)]))
        }
    }

    /// Another "from" unit was selected. Selecting the current one changes
    /// nothing. Else the "to" field is derived anew.
    pub open spec fn from_unit_changed(self, index: int, shown_to: NumericField) -> (StateView, StepView) {
        if index == self.from_unit_index {
            (self, StepView::idle())
        } else {
            let next = StateView { from_unit_index: index, ..self };
            (next, next.derive(Field::To, shown_to))
        }
    }

    /// Another "to" unit was selected. Selecting the current one changes
    /// nothing. Else the "to" field is derived anew.
    pub open spec fn to_unit_changed(self, index: int, shown_to: NumericField) -> (StateView, StepView) {
        if index == self.to_unit_index {
            (self, StepView::idle())
        } else {
            let next = StateView { to_unit_index: index, ..self };
            (next, next.derive(Field::To, shown_to))
        }
    }

    /// The "from" field was edited and now reads as `edited`. An edit that
    /// leaves the stored value as it is changes nothing. Else the value is
    /// stored and the "to" field is derived anew.
    pub open spec fn from_value_changed(self, edited: NumericField, shown_to: NumericField) -> (StateView, StepView) {
        if self.from_value.holds(edited) {
            (self, StepView::idle())
        } else {
            let next = StateView { from_value: edited, ..self };
            (next, next.derive(Field::To, shown_to))
        }
    }

    /// The "to" field was edited and now reads as `edited`. An edit that
    /// leaves the stored value as it is changes nothing. Else the value is
    /// stored and the "from" field is derived anew.
    pub open spec fn to_value_changed(self, edited: NumericField, shown_from: NumericField) -> (StateView, StepView) {
        if self.to_value.holds(edited) {
            (self, StepView::idle())
        } else {
            let next = StateView { to_value: edited, ..self };
            (next, next.derive(Field::From, shown_from))
        }
    }

    /// The command line was edited. A text that gives no command is passed
    /// over; for one that does, the number is still to be read.
    pub open spec fn command_changed(self, command: Option<CommandView>) -> StepView {
        match command {
            None => StepView::idle(),
            Some(command) => StepView { instructions: seq![], request: Some(RequestView::ReadNumber(command)) },
        }
    }

    /// The number of an accepted command was read. The unit type, both
    /// units, the "from" value and the command text are set at once; the
    /// three selectors are shown anew, the "from" field gets the number as
    /// typed unless it already held that value, and the "to" field is
    /// derived anew.
    pub open spec fn number_read(self, command: CommandView, parsed: Option<Binary64>, shown_to: NumericField) -> (StateView, StepView) {
        let edited = NumericField::reading(command.number, parsed);
        let next = StateView {
            unit_type_index: command.unit_type,
            from_unit_index: command.from_unit,
            to_unit_index: command.to_unit,
            from_value: edited,
            command_text: command.text,
            ..self
        };
        let selectors = seq![
            InstructionView::SelectUnitType(command.unit_type),
            InstructionView::SelectFromUnit(command.from_unit),
            InstructionView::SelectToUnit(command.to_unit),
        ];
        let number = if self.from_value.holds(edited) {
            seq![]
        } else {
            seq![InstructionView::SetFromText(command.number)]
        };
        (next, next.derive(Field::To, shown_to).after(selectors + number))
    }

    /// A conversion was carried out and gave `text`, which reads as
    /// `parsed`.
    pub open spec fn converted(self, target: Field, text: Seq<char>, parsed: Option<Binary64>, shown: NumericField) -> StepView {
        self.settle(target, text, NumericField::reading(text, parsed), shown)
    }

    /// The command that the state stands for, given the "from" number
    /// written out as `number`.
    pub open spec fn command_for(self, number: Seq<char>) -> Seq<char> {
        command_line(number, self.from_unit().abbreviation, self.to_unit().abbreviation)
    }

    /// The "from" number was written out as `number`. The command line gets
    /// the command that the state stands for, unless it holds it already.
    pub open spec fn formatted(self, number: Seq<char>) -> StepView {
        StepView {
            instructions: if self.command_for(number) == self.command_text {
                seq![]
            } else {
                seq![InstructionView::SetCommandText(self.command_for(number))]
            },
            request: None,
        }
    }
}

impl StateView {
    /// The event is one that the state can take: an index that comes with
    /// it selects something that is there.
    pub open spec fn accepts(self, event: EventView) -> bool {
        match event {
            EventView::UnitTypeChanged(index) => 0 <= index < self.registry.len(),
            EventView::FromUnitChanged(index) => 0 <= index < self.units().len(),
            EventView::ToUnitChanged(index) => 0 <= index < self.units().len(),
            EventView::NumberRead(command, _) => command.fits(self.registry),
            _ => true,
        }
    }

    /// The reducer: the state after the event, and the step that answers it.
    pub open spec fn update(self, event: EventView, shown: Shown) -> (StateView, StepView) {
        match event {
            EventView::UnitTypeChanged(index) => self.unit_type_changed(index, shown.to),
            EventView::FromUnitChanged(index) => self.from_unit_changed(index, shown.to),
            EventView::ToUnitChanged(index) => self.to_unit_changed(index, shown.to),
            EventView::FromTextChanged(text, parsed) => self.from_value_changed(NumericField::reading(text, parsed), shown.to),
            EventView::ToTextChanged(text, parsed) => self.to_value_changed(NumericField::reading(text, parsed), shown.from),
            EventView::CommandChanged(text) => (self, self.command_changed(parse(self.registry, text))),
            EventView::NumberRead(command, parsed) => self.number_read(command, parsed, shown.to),
            EventView::Converted(target, text, parsed) => (
                self,
                self.converted(
                    target,
                    text,
                    parsed,
                    match target {
                        Field::From => shown.from,
                        Field::To => shown.to,
                    },
                ),
            ),
            EventView::Formatted(number) => (self, self.formatted(number)),
        }
    }
}

impl Step {
    /// The step that changes nothing and asks for nothing.
    pub fn idle() -> (step: Step)
        ensures
            step@ == StepView::idle(),
    {
        let step = Step { instructions: Vec::new(), request: None };
        assert(step@.instructions =~= StepView::idle().instructions);
        step
    }
}

/// The state of a conversion session: the registry, what is selected, what
/// the two number fields were last read as, and the last accepted command.
pub struct ConversionState {
    unit_types: Vec<UnitType>,
    unit_type_index: usize,
    from_unit_index: usize,
    to_unit_index: usize,
    from_value: NumericField,
    to_value: NumericField,
    command_text: String,
}

impl View for ConversionState {
    type V = StateView;

    closed spec fn view(&self) -> StateView {
        StateView {
            registry: registry_view(self.unit_types@),
            unit_type_index: self.unit_type_index as int,
            from_unit_index: self.from_unit_index as int,
            to_unit_index: self.to_unit_index as int,
            from_value: self.from_value,
            to_value: self.to_value,
            command_text: self.command_text@,
        }
    }
}

/// Starts a session on the given registry.
pub fn new_session(unit_types: Vec<UnitType>) -> (state: ConversionState)
    requires
        registry_wf(registry_view(unit_types@)),
    ensures
        state@ == StateView::initial(registry_view(unit_types@)),
        state@.wf(),
{
    ConversionState {
        unit_types,
        unit_type_index: 0,
        from_unit_index: 0,
        to_unit_index: 0,
        from_value: NumericField::Empty,
        to_value: NumericField::Empty,
        command_text: String::new(),
    }
}

impl ConversionState {
    #[verifier::type_invariant]
    spec fn well_formed(&self) -> bool {
        self@.wf()
    }

    /// The registry of the session.
    pub fn unit_types(&self) -> (unit_types: &Vec<UnitType>)
        ensures
            registry_view(unit_types@) == self@.registry,
            self@.wf(),
    {
        proof {
            use_type_invariant(self);
        }
        &self.unit_types
    }

    /// The index of the selected unit type.
    pub fn unit_type_index(&self) -> (index: usize)
        ensures
            index == self@.unit_type_index,
    {
        self.unit_type_index
    }

    /// The index of the unit selected on the "from" side.
    pub fn from_unit_index(&self) -> (index: usize)
        ensures
            index == self@.from_unit_index,
    {
        self.from_unit_index
    }

    /// The index of the unit selected on the "to" side.
    pub fn to_unit_index(&self) -> (index: usize)
        ensures
            index == self@.to_unit_index,
    {
        self.to_unit_index
    }

    /// What the "from" field was last read as.
    pub fn from_value(&self) -> (value: NumericField)
        ensures
            value == self@.from_value,
    {
        self.from_value
    }

    /// What the "to" field was last read as.
    pub fn to_value(&self) -> (value: NumericField)
        ensures
            value == self@.to_value,
    {
        self.to_value
    }

    /// The text of the last accepted command.
    pub fn command_text(&self) -> (text: &String)
        ensures
            text@ == self@.command_text,
    {
        &self.command_text
    }

    fn unit_at(&self, index: usize) -> (unit: &Unit)
        requires
            self@.wf(),
            index < self@.units().len(),
        ensures
            unit@ == self@.units()[index as int],
    {
        &self.unit_types[self.unit_type_index].units[index]
    }

    fn settle(&self, target: Field, text: &str, derived: NumericField, shown: NumericField, instructions: Vec<Instruction>) -> (step: Step)
        ensures
            step@ == self@.settle(target, text@, derived, shown).after(instruction_views(instructions@)),
    {
        let mut instructions = instructions;
        let ghost first = instruction_views(instructions@);
        if !derived.is_same_number(&shown) {
            let instruction = match target {
                Field::From => Instruction::SetFromText(String::from_str(text)),
                Field::To => Instruction::SetToText(String::from_str(text)),
            };
            instructions.push(instruction);
            assert(instruction_views(instructions@) =~= first + seq![set_text(target, text@)]);
        }
        let request = match self.from_value {
            NumericField::Valid(value) => Some(Request::Format(value)),
            _ => None,
        };
        Step { instructions, request }
    }

    fn derive(&self, target: Field, shown: NumericField, instructions: Vec<Instruction>) -> (step: Step)
        requires
            self@.wf(),
        ensures
            step@ == self@.derive(target, shown).after(instruction_views(instructions@)),
    {
        let source = match target {
            Field::To => self.from_value,
            Field::From => self.to_value,
        };
        match source {
            NumericField::Empty => {
                proof {
                    reveal_strlit("");
                }
                assert(""@ =~= Seq::<char>::empty());
                self.settle(target, "", NumericField::Empty, shown, instructions)
            },
            NumericField::Invalid => {
                proof {
                    reveal_strlit("-");
                }
                assert("-"@ =~= placeholder());
                self.settle(target, "-", NumericField::Invalid, shown, instructions)
            },
            NumericField::Valid(value) => {
                let from_factor = self.unit_at(self.from_unit_index).factor;
                let to_factor = self.unit_at(self.to_unit_index).factor;
                let conversion = match target {
                    Field::To => Conversion { target, value, from_factor, to_factor },
                    Field::From => Conversion { target, value, from_factor: to_factor, to_factor: from_factor },
                };
                Step { instructions, request: Some(Request::Convert(conversion)) }
            },
        }
    }

    /// Another unit type was selected in its selector.
    pub fn unit_type_changed(&mut self, index: usize, shown_to: NumericField) -> (step: Step)
        requires
            index < old(self)@.registry.len(),
        ensures
            (final(self)@, step@) == old(self)@.unit_type_changed(index as int, shown_to),
            final(self)@.wf(),
    {
        proof {
            use_type_invariant(&*self);
        }
        if index == self.unit_type_index {
            return Step::idle();
        }
        self.from_unit_index = 0;
        self.to_unit_index = 0;
        self.unit_type_index = index;
        let mut instructions: Vec<Instruction> = Vec::new();
        instructions.push(Instruction::SelectFromUnit(0));
        instructions.push(Instruction::SelectToUnit(0));
        assert(instruction_views(instructions@) =~= seq![InstructionView::SelectFromUnit(0), InstructionView::SelectToUnit(0)]);
        self.derive(Field::To, shown_to, instructions)
    }

    /// Another unit was selected in the "from" selector.
    pub fn from_unit_changed(&mut self, index: usize, shown_to: NumericField) -> (step: Step)
        requires
            index < old(self)@.units().len(),
        ensures
            (final(self)@, step@) == old(self)@.from_unit_changed(index as int, shown_to),
            final(self)@.wf(),
    {
        proof {
            use_type_invariant(&*self);
        }
        if index == self.from_unit_index {
            return Step::idle();
        }
        self.from_unit_index = index;
        let step = self.derive(Field::To, shown_to, Vec::new());
        step
    }

    /// Another unit was selected in the "to" selector.
    pub fn to_unit_changed(&mut self, index: usize, shown_to: NumericField) -> (step: Step)
        requires
            index < old(self)@.units().len(),
        ensures
            (final(self)@, step@) == old(self)@.to_unit_changed(index as int, shown_to),
            final(self)@.wf(),
    {
        proof {
            use_type_invariant(&*self);
        }
        if index == self.to_unit_index {
            return Step::idle();
        }
        self.to_unit_index = index;
        let step = self.derive(Field::To, shown_to, Vec::new());
        step
    }

    /// The text of the "from" field was edited. `parsed` is the number that
    /// `text` reads as, if it reads as one; `shown_to` is what the "to"
    /// field shows.
    pub fn from_text_changed(&mut self, text: &str, parsed: Option<Binary64>, shown_to: NumericField) -> (step: Step)
        ensures
            (final(self)@, step@) == old(self)@.from_value_changed(NumericField::reading(text@, parsed), shown_to),
            final(self)@.wf(),
    {
        proof {
            use_type_invariant(&*self);
        }
        let edited = NumericField::read(text, parsed);
        if !text.is_empty() && self.from_value.is_same_number(&edited) {
            return Step::idle();
        }
        self.from_value = edited;
        let step = self.derive(Field::To, shown_to, Vec::new());
        step
    }

    /// The text of the "to" field was edited. `parsed` is the number that
    /// `text` reads as, if it reads as one; `shown_from` is what the "from"
    /// field shows.
    pub fn to_text_changed(&mut self, text: &str, parsed: Option<Binary64>, shown_from: NumericField) -> (step: Step)
        ensures
            (final(self)@, step@) == old(self)@.to_value_changed(NumericField::reading(text@, parsed), shown_from),
            final(self)@.wf(),
    {
        proof {
            use_type_invariant(&*self);
        }
        let edited = NumericField::read(text, parsed);
        if !text.is_empty() && self.to_value.is_same_number(&edited) {
            return Step::idle();
        }
        self.to_value = edited;
        let step = self.derive(Field::From, shown_from, Vec::new());
        step
    }

    /// The text of the command line was edited. The state stays as it is:
    /// a text that gives no command against the registry is passed over,
    /// and for one that does the step asks for its number to be read.
    pub fn command_changed(&self, text: &str) -> (step: Step)
        ensures
            step@ == self@.command_changed(parse(self@.registry, text@)),
            step@.request matches Some(RequestView::ReadNumber(command)) ==> command.fits(self@.registry),
    {
        match parse_command(&self.unit_types, text) {
            None => Step::idle(),
            Some(command) => {
                let step = Step { instructions: Vec::new(), request: Some(Request::ReadNumber(command)) };
                assert(step@.instructions =~= Seq::<InstructionView>::empty());
                step
            },
        }
    }

    /// The answer to [`Request::ReadNumber`]: `parsed` is the number that
    /// the number of `command` reads as, if it reads as one; `shown_to` is
    /// what the "to" field shows.
    pub fn number_read(&mut self, command: &Command, parsed: Option<Binary64>, shown_to: NumericField) -> (step: Step)
        requires
            command@.fits(old(self)@.registry),
        ensures
            (final(self)@, step@) == old(self)@.number_read(command@, parsed, shown_to),
            final(self)@.wf(),
    {
        proof {
            use_type_invariant(&*self);
        }
        let edited = NumericField::read(command.number.as_str(), parsed);
        let mut instructions: Vec<Instruction> = Vec::new();
        instructions.push(Instruction::SelectUnitType(command.unit_type));
        instructions.push(Instruction::SelectFromUnit(command.from_unit));
        instructions.push(Instruction::SelectToUnit(command.to_unit));
        let ghost selectors = seq![
            InstructionView::SelectUnitType(command@.unit_type),
            InstructionView::SelectFromUnit(command@.from_unit),
            InstructionView::SelectToUnit(command@.to_unit),
        ];
        if command.number.as_str().is_empty() || !self.from_value.is_same_number(&edited) {
            instructions.push(Instruction::SetFromText(command.number.clone()));
            assert(instruction_views(instructions@) =~= selectors + seq![InstructionView::SetFromText(command@.number)]);
        } else {
            assert(instruction_views(instructions@) =~= selectors + Seq::<InstructionView>::empty());
        }
        self.from_unit_index = 0;
        self.to_unit_index = 0;
        self.unit_type_index = command.unit_type;
        self.from_unit_index = command.from_unit;
        self.to_unit_index = command.to_unit;
        self.from_value = edited;
        self.command_text = command.text.clone();
        self.derive(Field::To, shown_to, instructions)
    }

    /// The answer to [`Request::Convert`]: `text` is the canonical text of
    /// the converted value, `parsed` the number that `text` reads as, if it
    /// reads as one, and `shown` what the `target` field shows.
    pub fn converted(&self, target: Field, text: &str, parsed: Option<Binary64>, shown: NumericField) -> (step: Step)
        ensures
            step@ == self@.converted(target, text@, parsed, shown),
    {
        let derived = NumericField::read(text, parsed);
        let step = self.settle(target, text, derived, shown, Vec::new());
        step
    }

    /// The answer to [`Request::Format`]: `number` is the "from" number
    /// written in its shortest form.
    pub fn formatted(&self, number: &str) -> (step: Step)
        ensures
            step@ == self@.formatted(number@),
    {
        proof {
            use_type_invariant(self);
            reveal_strlit(" in ");
        }
        let mut command = String::from_str(number);
        command.append(self.unit_at(self.from_unit_index).abbreviation.as_str());
        command.append(" in ");
        command.append(self.unit_at(self.to_unit_index).abbreviation.as_str());
        assert(command@ =~= self@.command_for(number@));
        let mut instructions: Vec<Instruction> = Vec::new();
        if command != self.command_text {
            instructions.push(Instruction::SetCommandText(command));
            assert(instruction_views(instructions@) =~= seq![InstructionView::SetCommandText(self@.command_for(number@))]);
        } else {
            assert(instruction_views(instructions@) =~= Seq::<InstructionView>::empty());
        }
        Step { instructions, request: None }
    }

    /// Whether the state can take the event: whether the index that comes
    /// with it selects something that is there.
    pub fn accepts(&self, event: &Event) -> (accepted: bool)
        ensures
            accepted == self@.accepts(event@),
    {
        proof {
            use_type_invariant(self);
        }
        match event {
            Event::UnitTypeChanged(index) => *index < self.unit_types.len(),
            Event::FromUnitChanged(index) => *index < self.unit_types[self.unit_type_index].units.len(),
            Event::ToUnitChanged(index) => *index < self.unit_types[self.unit_type_index].units.len(),
            Event::NumberRead(command, _) => {
                if command.unit_type < self.unit_types.len() {
                    let units = &self.unit_types[command.unit_type].units;
                    command.from_unit < units.len() && command.to_unit < units.len()
                } else {
                    false
                }
            },
            _ => true,
        }
    }

    /// The reducer: takes the event, changes the state, and says what the
    /// shell is to do. `shown` is what the two number fields show as the
    /// event arrives.
    pub fn update(&mut self, event: &Event, shown: Shown) -> (step: Step)
        requires
            old(self)@.accepts(event@),
        ensures
            (final(self)@, step@) == old(self)@.update(event@, shown),
            final(self)@.wf(),
    {
        proof {
            use_type_invariant(&*self);
        }
        match event {
            Event::UnitTypeChanged(index) => self.unit_type_changed(*index, shown.to),
            Event::FromUnitChanged(index) => self.from_unit_changed(*index, shown.to),
            Event::ToUnitChanged(index) => self.to_unit_changed(*index, shown.to),
            Event::FromTextChanged(text, parsed) => self.from_text_changed(text.as_str(), *parsed, shown.to),
            Event::ToTextChanged(text, parsed) => self.to_text_changed(text.as_str(), *parsed, shown.from),
            Event::CommandChanged(text) => self.command_changed(text.as_str()),
            Event::NumberRead(command, parsed) => self.number_read(command, *parsed, shown.to),
            Event::Converted(target, text, parsed) => {
                let shown_target = match target {
                    Field::From => shown.from,
                    Field::To => shown.to,
                };
                self.converted(*target, text.as_str(), *parsed, shown_target)
            },
            Event::Formatted(number) => self.formatted(number.as_str()),
        }
    }
}

} // verus!
