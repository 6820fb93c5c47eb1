//! Descriptors: the record of a binding that the host reads.
//!
//! The record of a binding is the record of its payload. Nothing in it says
//! which variant of [`Binding`] it came from; the host tells the kinds apart
//! by the fields that the payload itself lists.

use crate::arguments::{ArgumentView, Value, ValueView};
use crate::binding::{Binding, BindingView};
use crate::direction::Direction;
use crate::text::{camel_case, same_text, to_camel_case};
use vstd::prelude::*;

verus! {

/// One field of a descriptor.
#[derive(Clone, Debug)]
pub struct Field {
    pub key: String,
    pub value: Value,
}

/// What a [`Field`] stands for.
pub struct FieldView {
    pub key: Seq<char>,
    pub value: ValueView,
}

impl View for Field {
    type V = FieldView;

    open spec fn view(&self) -> FieldView {
        FieldView { key: self.key@, value: self.value@ }
    }
}

impl DeepView for Field {
    type V = FieldView;

    open spec fn deep_view(&self) -> FieldView {
        self@
    }
}

/// The field that hands an argument through: the key in camel case, the
/// value as it is.
pub open spec fn field_of(argument: ArgumentView) -> FieldView {
    FieldView { key: camel_case(argument.key), value: argument.value }
}

/// The fields that every payload lists first: the declared name, the tag of
/// the kind, and the direction as one of `in`, `inout` and `out`.
pub open spec fn leading_fields(binding: BindingView) -> Seq<FieldView> {
    seq![
        FieldView { key: "name"@, value: ValueView::Text(binding.name) },
        FieldView { key: "type"@, value: ValueView::Text(binding.kind.tag()) },
        FieldView { key: "direction"@, value: ValueView::Text(binding.direction.token_text()) },
    ]
}

/// The descriptor of a binding: the leading fields, then one field for each
/// argument of the payload, in order.
pub open spec fn described(binding: BindingView) -> Seq<FieldView> {
    leading_fields(binding) + binding.arguments.map_values(|a: ArgumentView| field_of(a))
}

/// The position of the first field of `record` keyed `key`, or the length
/// of `record` if there is none.
pub open spec fn field_position(record: Seq<FieldView>, key: Seq<char>) -> int
    decreases record.len(),
{
    if record.len() == 0 || record[0].key == key {
        0
    } else {
        1 + field_position(record.drop_first(), key)
    }
}

/// The text of the first field of `record` keyed `key`, if there is such a
/// field and it holds text.
pub open spec fn text_at(record: Seq<FieldView>, key: Seq<char>) -> Option<Seq<char>> {
    let at = field_position(record, key);
    if at < record.len() && record[at].value is Text {
        Some(record[at].value->Text_0)
    } else {
        None
    }
}

/// The name that a descriptor gives.
pub open spec fn name_in(record: Seq<FieldView>) -> Option<Seq<char>> {
    text_at(record, "name"@)
}

/// The direction that a descriptor gives.
pub open spec fn direction_in(record: Seq<FieldView>) -> Option<Direction> {
    match text_at(record, "direction"@) {
        Some(text) => Direction::parse_token(text),
        None => None,
    }
}

/// `field_position` is a position of `record` or its length, no field
/// before it is keyed `key`, and the one at it is.
pub proof fn field_position_is_first(record: Seq<FieldView>, key: Seq<char>)
    ensures
        0 <= field_position(record, key) <= record.len(),
        forall|i: int| 0 <= i < field_position(record, key) ==> record[i].key != key,
        field_position(record, key) < record.len() ==> record[field_position(record, key)].key
            == key,
    decreases record.len(),
{
    if record.len() == 0 || record[0].key == key {
    } else {
        let rest = record.drop_first();
        field_position_is_first(rest, key);
        assert forall|i: int| 0 <= i < field_position(record, key) implies record[i].key
            != key by {
            if i > 0 {
                assert(record[i] == rest[i - 1]);
            }
        }
    }
}

/// A descriptor holds the payload's own fields and no other: three leading
/// fields keyed `name`, `type` and `direction`, then one field per argument
/// under the argument's key in camel case. No field names the variant.
pub proof fn descriptor_lists_payload_fields_only(binding: BindingView)
    ensures
        described(binding).len() == 3 + binding.arguments.len(),
        described(binding)[0].key == "name"@,
        described(binding)[1].key == "type"@,
        described(binding)[2].key == "direction"@,
        forall|i: int|
            0 <= i < binding.arguments.len() ==> #[trigger] described(binding)[3 + i] == field_of(
                binding.arguments[i],
            ),
{
}

/// Reading a binding's descriptor gives back its name and its direction.
pub proof fn descriptor_keeps_name_and_direction(binding: BindingView)
    ensures
        name_in(described(binding)) == Some(binding.name),
        direction_in(described(binding)) == Some(binding.direction),
{
    let record = described(binding);
    reveal_strlit("name");
    reveal_strlit("type");
    reveal_strlit("direction");
    assert("name"@.len() == 4 && "type"@.len() == 4 && "direction"@.len() == 9);
    assert("name"@[0] == 'n' && "type"@[0] == 't');
    field_position_is_first(record, "name"@);
    field_position_is_first(record, "direction"@);
    assert(record[0].key == "name"@);
    assert(record[1].key == "type"@);
    assert(record[2].key == "direction"@);
    assert(field_position(record, "name"@) == 0);
    assert(field_position(record, "direction"@) == 2);
    Direction::token_round_trip(binding.direction);
}

impl Binding {
    /// The record that the host reads for this binding, absent for
    /// `Context`, which is bound to nothing and has no record.
    pub fn descriptor(&self) -> (record: Option<Vec<Field>>)
        ensures
            match record {
                Some(fields) => self@ matches Some(binding) && fields.deep_view() == described(
                    binding,
                ),
                None => *self == Binding::Context,
            },
    {
        if self.is_context() {
            return None;
        }
        let (kind, name, direction, arguments) = self.parts();
        let ghost binding = self@->0;
        let mut fields: Vec<Field> = Vec::new();
        fields.push(text_field("name", name));
        fields.push(text_field("type", kind.binding_type()));
        fields.push(text_field("direction", direction.token()));
        assert(fields.deep_view() =~= leading_fields(binding));
        let mut at: usize = 0;
        while at < arguments.len()
            invariant
                at <= arguments.len(),
                arguments.deep_view() == binding.arguments,
                fields.deep_view() == leading_fields(binding) + binding.arguments.take(
                    at as int,
                ).map_values(|a: ArgumentView| field_of(a)),
            decreases arguments.len() - at,
        {
            let argument = &arguments[at];
            let field = Field {
                key: to_camel_case(argument.key.as_str()),
                value: argument.value.duplicate(),
            };
            assert(field@ == field_of(binding.arguments[at as int]));
            let ghost listed = fields.deep_view();
            let ghost handed = binding.arguments.take(at as int);
            fields.push(field);
            at += 1;
            proof {
                let now = binding.arguments.take(at as int);
                assert(fields.deep_view() =~= listed.push(field@));
                assert(now =~= handed.push(binding.arguments[at - 1]));
                assert(now.map_values(|a: ArgumentView| field_of(a)) =~= handed.map_values(
                    |a: ArgumentView| field_of(a),
                ).push(field@));
            }
        }
        assert(binding.arguments.take(at as int) == binding.arguments);
        Some(fields)
    }
}

/// A field that holds text.
pub fn text_field(key: &str, text: &str) -> (field: Field)
    ensures
        field@ == (FieldView { key: key@, value: ValueView::Text(text@) }),
{
    Field { key: key.to_owned(), value: Value::Text(text.to_owned()) }
}

/// Finds the text of the first field keyed `key`.
pub fn field_text<'a>(record: &'a Vec<Field>, key: &str) -> (text: Option<&'a str>)
    ensures
        match text {
            Some(found) => text_at(record.deep_view(), key@) == Some(found@),
            None => text_at(record.deep_view(), key@) is None,
        },
{
    let mut at: usize = 0;
    while at < record.len() && !same_text(record[at].key.as_str(), key)
        invariant
            at <= record.len(),
            forall|i: int| 0 <= i < at ==> record.deep_view()[i].key != key@,
        decreases record.len() - at,
    {
        at += 1;
    }
    proof {
        field_position_is_first(record.deep_view(), key@);
        if at < record.len() {
            assert(record.deep_view()[at as int].key == key@);
        }
        assert(field_position(record.deep_view(), key@) == at);
    }
    if at == record.len() {
        return None;
    }
    assert(record.deep_view()[at as int] == record[at as int]@);
    match &record[at].value {
        Value::Text(text) => Some(text.as_str()),
        _ => None,
    }
}

/// Reads the declared name out of a descriptor.
pub fn described_name<'a>(record: &'a Vec<Field>) -> (name: Option<&'a str>)
    ensures
        match name {
            Some(found) => name_in(record.deep_view()) == Some(found@),
            None => name_in(record.deep_view()) is None,
        },
{
    field_text(record, "name")
}

/// Reads the direction out of a descriptor.
pub fn described_direction(record: &Vec<Field>) -> (direction: Option<Direction>)
    ensures
        direction == direction_in(record.deep_view()),
{
    match field_text(record, "direction") {
        Some(text) => Direction::from_token(text),
        None => None,
    }
}

} // verus!
