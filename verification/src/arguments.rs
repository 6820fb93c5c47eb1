//! Attribute arguments: the raw `key = value` pairs written on a parameter.

use vstd::prelude::*;

verus! {

/// The value of an attribute argument or of a descriptor field.
#[derive(Clone, Debug)]
pub enum Value {
    Text(String),
    Flag(bool),
    Number(u64),
}

/// What a [`Value`] stands for.
pub enum ValueView {
    Text(Seq<char>),
    Flag(bool),
    Number(u64),
}

impl View for Value {
    type V = ValueView;

    open spec fn view(&self) -> ValueView {
        match self {
            Value::Text(text) => ValueView::Text(text@),
            Value::Flag(flag) => ValueView::Flag(*flag),
            Value::Number(number) => ValueView::Number(*number),
        }
    }
}

impl DeepView for Value {
    type V = ValueView;

    open spec fn deep_view(&self) -> ValueView {
        self@
    }
}

impl Value {
    /// A second value that stands for the same thing.
    pub fn duplicate(&self) -> (copy: Value)
        ensures
            copy@ == self@,
    {
        match self {
            Value::Text(text) => Value::Text(text.clone()),
            Value::Flag(flag) => Value::Flag(*flag),
            Value::Number(number) => Value::Number(*number),
        }
    }
}

/// One attribute argument, as written: nothing in it has been validated.
#[derive(Clone, Debug)]
pub struct Argument {
    pub key: String,
    pub value: Value,
}

/// What an [`Argument`] stands for.
pub struct ArgumentView {
    pub key: Seq<char>,
    pub value: ValueView,
}

impl View for Argument {
    type V = ArgumentView;

    open spec fn view(&self) -> ArgumentView {
        ArgumentView { key: self.key@, value: self.value@ }
    }
}

impl DeepView for Argument {
    type V = ArgumentView;

    open spec fn deep_view(&self) -> ArgumentView {
        self@
    }
}

impl Argument {
    /// An argument `key = "text"`.
    pub fn text(key: &str, text: &str) -> (argument: Argument)
        ensures
            argument@ == (ArgumentView { key: key@, value: ValueView::Text(text@) }),
    {
        Argument { key: key.to_owned(), value: Value::Text(text.to_owned()) }
    }

    /// An argument `key = true` or `key = false`.
    pub fn flag(key: &str, flag: bool) -> (argument: Argument)
        ensures
            argument@ == (ArgumentView { key: key@, value: ValueView::Flag(flag) }),
    {
        Argument { key: key.to_owned(), value: Value::Flag(flag) }
    }

    /// An argument `key = number`.
    pub fn number(key: &str, number: u64) -> (argument: Argument)
        ensures
            argument@ == (ArgumentView { key: key@, value: ValueView::Number(number) }),
    {
        Argument { key: key.to_owned(), value: Value::Number(number) }
    }
}

/// Why a list of arguments declares no parameter name.
#[derive(Clone, Copy, Debug, PartialEq, Eq, Structural)]
pub enum NameFault {
    /// No argument is keyed `name`.
    Missing,
    /// The first argument keyed `name` holds no text.
    NotText,
    /// The first argument keyed `name` holds the empty text.
    Empty,
}

/// The position of the first argument keyed `name`, or the number of
/// arguments if there is none.
pub open spec fn name_position(arguments: Seq<ArgumentView>) -> int
    decreases arguments.len(),
{
    if arguments.len() == 0 || arguments[0].key == "name"@ {
        0
    } else {
        1 + name_position(arguments.drop_first())
    }
}

/// The parameter name that `arguments` declare: the text of the first
/// argument keyed `name`, which must not be empty.
pub open spec fn declared_name(arguments: Seq<ArgumentView>) -> Result<Seq<char>, NameFault> {
    let at = name_position(arguments);
    if at >= arguments.len() {
        Err(NameFault::Missing)
    } else {
        match arguments[at].value {
            ValueView::Text(text) => if text.len() == 0 {
                Err(NameFault::Empty)
            } else {
                Ok(text)
            },
            _ => Err(NameFault::NotText),
        }
    }
}

/// What is left of `arguments` once the argument that declares the name is
/// taken out; the others keep their order.
pub open spec fn remaining_arguments(arguments: Seq<ArgumentView>) -> Seq<ArgumentView> {
    let at = name_position(arguments);
    if at >= arguments.len() {
        arguments
    } else {
        arguments.remove(at)
    }
}

/// `name_position` is a position of `arguments` or its length, no argument
/// before it is keyed `name`, and the one at it is.
pub proof fn name_position_is_first(arguments: Seq<ArgumentView>)
    ensures
        0 <= name_position(arguments) <= arguments.len(),
        forall|i: int| 0 <= i < name_position(arguments) ==> arguments[i].key != "name"@,
        name_position(arguments) < arguments.len() ==> arguments[name_position(
            arguments,
        )].key == "name"@,
    decreases arguments.len(),
{
    if arguments.len() == 0 || arguments[0].key == "name"@ {
    } else {
        let rest = arguments.drop_first();
        name_position_is_first(rest);
        assert forall|i: int| 0 <= i < name_position(arguments) implies arguments[i].key
            != "name"@ by {
            if i > 0 {
                assert(arguments[i] == rest[i - 1]);
            }
        }
    }
}

/// Splits `arguments` into the declared parameter name and the arguments
/// that remain, or says why no name is declared.
pub fn take_name(arguments: Vec<Argument>) -> (taken: Result<(String, Vec<Argument>), NameFault>)
    ensures
        match taken {
            Ok((name, rest)) => {
                &&& declared_name(arguments.deep_view()) == Ok::<Seq<char>, NameFault>(name@)
                &&& rest.deep_view() == remaining_arguments(arguments.deep_view())
            },
            Err(fault) => declared_name(arguments.deep_view()) == Err::<Seq<char>, NameFault>(
                fault,
            ),
        },
{
    let ghost all = arguments.deep_view();
    let mut arguments = arguments;
    let mut at: usize = 0;
    while at < arguments.len() && !same_key(&arguments[at], "name")
        invariant
            at <= arguments.len(),
            arguments.deep_view() == all,
            forall|i: int| 0 <= i < at ==> all[i].key != "name"@,
        decreases arguments.len() - at,
    {
        at += 1;
    }
    proof {
        name_position_is_first(all);
        if at < all.len() {
            assert(all[at as int].key == "name"@);
        }
        assert(name_position(all) == at);
    }
    if at == arguments.len() {
        return Err(NameFault::Missing);
    }
    let found = arguments.remove(at);
    assert(found@ == all[at as int]);
    assert(arguments.deep_view() =~= all.remove(at as int));
    match found.value {
        Value::Text(text) => {
            if text.as_str().is_empty() {
                Err(NameFault::Empty)
            } else {
                Ok((text, arguments))
            }
        },
        _ => Err(NameFault::NotText),
    }
}

/// Whether `argument` is keyed `key`.
pub fn same_key(argument: &Argument, key: &str) -> (same: bool)
    ensures
        same == (argument@.key == key@),
{
    crate::text::same_text(argument.key.as_str(), key)
}

} // verus!
