//! Source synthesis: the tokens that rebuild a binding in generated code.
//!
//! The fragment is an expression of the form
//! `::azure_functions::codegen::bindings::Binding::Blob(..)`, whose argument
//! is a struct expression for the payload with every field written out.

use crate::arguments::{Argument, ArgumentView, Value, ValueView};
use crate::binding::{Binding, BindingView, Kind};
use crate::direction::Direction;
use crate::tokens::{
    empty_stream, is_word, lexemes, push_group, push_number, push_punct, push_text, push_word,
    Delimiter, Lexeme, Spacing,
};
use proc_macro2::TokenStream;
use vstd::prelude::*;

verus! {

/// `::word`
pub open spec fn segment(word: Seq<char>) -> Seq<Lexeme> {
    seq![Lexeme::Joint(':'), Lexeme::Alone(':'), Lexeme::Word(word)]
}

/// `::azure_functions::codegen::bindings`, the module under which generated
/// code finds the types of this crate.
pub open spec fn bindings_path() -> Seq<Lexeme> {
    segment("azure_functions"@) + segment("codegen"@) + segment("bindings"@)
}

/// `word:`
pub open spec fn label(word: Seq<char>) -> Seq<Lexeme> {
    seq![Lexeme::Word(word), Lexeme::Alone(':')]
}

/// `inner` enclosed in the given delimiters.
pub open spec fn enclosed(delimiter: Delimiter, inner: Seq<Lexeme>) -> Seq<Lexeme> {
    seq![Lexeme::Open(delimiter)] + inner.push(Lexeme::Close(delimiter))
}

/// `::std::string::String::from("text")`
pub open spec fn string_expr(text: Seq<char>) -> Seq<Lexeme> {
    segment("std"@) + segment("string"@) + segment("String"@) + segment("from"@) + enclosed(
        Delimiter::Parenthesis,
        seq![Lexeme::Text(text)],
    )
}

/// The path of the direction's variant.
pub open spec fn direction_expr(direction: Direction) -> Seq<Lexeme> {
    bindings_path() + segment("Direction"@) + segment(direction.variant_text())
}

/// What stands between the parentheses of a value's variant.
pub open spec fn value_inner(value: ValueView) -> Seq<Lexeme> {
    match value {
        ValueView::Text(text) => string_expr(text),
        ValueView::Flag(flag) => seq![Lexeme::Word(if flag { "true"@ } else { "false"@ })],
        ValueView::Number(number) => seq![Lexeme::Number(number)],
    }
}

/// The name of a value's variant.
pub open spec fn value_variant(value: ValueView) -> Seq<char> {
    match value {
        ValueView::Text(_) => "Text"@,
        ValueView::Flag(_) => "Flag"@,
        ValueView::Number(_) => "Number"@,
    }
}

/// The value's variant applied to what it holds.
pub open spec fn value_expr(value: ValueView) -> Seq<Lexeme> {
    bindings_path() + segment("Value"@) + segment(value_variant(value)) + enclosed(
        Delimiter::Parenthesis,
        value_inner(value),
    )
}

/// The struct expression of an argument, with both fields.
pub open spec fn argument_expr(argument: ArgumentView) -> Seq<Lexeme> {
    bindings_path() + segment("Argument"@) + enclosed(
        Delimiter::Brace,
        label("key"@) + string_expr(argument.key) + seq![Lexeme::Alone(',')] + label("value"@)
            + value_expr(argument.value) + seq![Lexeme::Alone(',')],
    )
}

/// The arguments' expressions in order, a comma after each.
pub open spec fn argument_list(arguments: Seq<ArgumentView>) -> Seq<Lexeme>
    decreases arguments.len(),
{
    if arguments.len() == 0 {
        Seq::empty()
    } else {
        argument_list(arguments.drop_last()) + argument_expr(arguments.last()) + seq![
            Lexeme::Alone(','),
        ]
    }
}

/// `::std::vec![..]` around the arguments' expressions.
pub open spec fn arguments_expr(arguments: Seq<ArgumentView>) -> Seq<Lexeme> {
    segment("std"@) + segment("vec"@) + seq![Lexeme::Alone('!')] + enclosed(
        Delimiter::Bracket,
        argument_list(arguments),
    )
}

/// The fields of a payload: the name, the direction where the kind holds
/// one, and the arguments.
pub open spec fn payload_fields(binding: BindingView) -> Seq<Lexeme> {
    label("name"@) + string_expr(binding.name) + seq![Lexeme::Alone(',')] + (if binding.kind.directional() {
        label("direction"@) + direction_expr(binding.direction) + seq![Lexeme::Alone(',')]
    } else {
        Seq::empty()
    }) + label("arguments"@) + arguments_expr(binding.arguments) + seq![Lexeme::Alone(',')]
}

/// The struct expression of a payload.
pub open spec fn payload_expr(binding: BindingView) -> Seq<Lexeme> {
    bindings_path() + segment(binding.kind.spelling()) + enclosed(
        Delimiter::Brace,
        payload_fields(binding),
    )
}

/// The fragment that rebuilds a binding: the path of its variant, applied
/// to the struct expression of its payload.
pub open spec fn fragment(binding: BindingView) -> Seq<Lexeme> {
    bindings_path() + segment("Binding"@) + segment(binding.kind.spelling()) + enclosed(
        Delimiter::Parenthesis,
        payload_expr(binding),
    )
}

/// Kind, name and direction of a binding.
pub struct Rebuilt {
    pub kind: Kind,
    pub name: Seq<char>,
    pub direction: Direction,
}

/// The kind whose variant is spelled `word`.
pub open spec fn kind_spelled(word: Seq<char>) -> Option<Kind> {
    if word == "HttpTrigger"@ {
        Some(Kind::HttpTrigger)
    } else if word == "Http"@ {
        Some(Kind::Http)
    } else if word == "TimerTrigger"@ {
        Some(Kind::TimerTrigger)
    } else if word == "QueueTrigger"@ {
        Some(Kind::QueueTrigger)
    } else if word == "Queue"@ {
        Some(Kind::Queue)
    } else if word == "BlobTrigger"@ {
        Some(Kind::BlobTrigger)
    } else if word == "Blob"@ {
        Some(Kind::Blob)
    } else if word == "Table"@ {
        Some(Kind::Table)
    } else if word == "EventGridTrigger"@ {
        Some(Kind::EventGridTrigger)
    } else if word == "EventHubTrigger"@ {
        Some(Kind::EventHubTrigger)
    } else if word == "EventHub"@ {
        Some(Kind::EventHub)
    } else {
        None
    }
}

/// The direction whose variant is spelled `word`.
pub open spec fn direction_spelled(word: Seq<char>) -> Option<Direction> {
    if word == "In"@ {
        Some(Direction::In)
    } else if word == "InOut"@ {
        Some(Direction::InOut)
    } else if word == "Out"@ {
        Some(Direction::Out)
    } else {
        None
    }
}

/// The word at position `at` of `tokens`, if there is one.
pub open spec fn word_at(tokens: Seq<Lexeme>, at: int) -> Option<Seq<char>> {
    if 0 <= at < tokens.len() && tokens[at] is Word {
        Some(tokens[at]->Word_0)
    } else {
        None
    }
}

/// The string that the literal at position `at` of `tokens` denotes, if
/// there is one.
pub open spec fn text_literal_at(tokens: Seq<Lexeme>, at: int) -> Option<Seq<char>> {
    if 0 <= at < tokens.len() && tokens[at] is Text {
        Some(tokens[at]->Text_0)
    } else {
        None
    }
}

/// What evaluating tokens that are laid out as a fragment gives.
///
/// The kind is the one that the variant names: the last word of the path
/// that opens the fragment. The name is the string that the payload's first
/// field is given. The direction is the one that the payload's second field
/// names where the kind is directional, and the kind's own elsewhere.
pub open spec fn rebuilt(tokens: Seq<Lexeme>) -> Option<Rebuilt> {
    match (word_at(tokens, 14), text_literal_at(tokens, 44)) {
        (Some(variant), Some(name)) => match kind_spelled(variant) {
            Some(kind) => if kind.directional() {
                match word_at(tokens, 63) {
                    Some(word) => match direction_spelled(word) {
                        Some(direction) => Some(Rebuilt { kind, name, direction }),
                        None => None,
                    },
                    None => None,
                }
            } else {
                Some(Rebuilt { kind, name, direction: kind.initial_direction() })
            },
            None => None,
        },
        _ => None,
    }
}

/// Every kind is found again from its spelling, and every direction from
/// the name of its variant.
pub proof fn spellings_differ(kind: Kind, direction: Direction)
    ensures
        kind_spelled(kind.spelling()) == Some(kind),
        direction_spelled(direction.variant_text()) == Some(direction),
{
    reveal_strlit("HttpTrigger");
    reveal_strlit("Http");
    reveal_strlit("TimerTrigger");
    reveal_strlit("QueueTrigger");
    reveal_strlit("Queue");
    reveal_strlit("BlobTrigger");
    reveal_strlit("Blob");
    reveal_strlit("Table");
    reveal_strlit("EventGridTrigger");
    reveal_strlit("EventHubTrigger");
    reveal_strlit("EventHub");
    reveal_strlit("In");
    reveal_strlit("InOut");
    reveal_strlit("Out");
    assert("HttpTrigger"@.len() == 11 && "HttpTrigger"@[0] == 'H');
    assert("Http"@.len() == 4 && "Http"@[0] == 'H');
    assert("TimerTrigger"@.len() == 12 && "TimerTrigger"@[0] == 'T');
    assert("QueueTrigger"@.len() == 12 && "QueueTrigger"@[0] == 'Q');
    assert("Queue"@.len() == 5 && "Queue"@[0] == 'Q');
    assert("BlobTrigger"@.len() == 11 && "BlobTrigger"@[0] == 'B');
    assert("Blob"@.len() == 4 && "Blob"@[0] == 'B');
    assert("Table"@.len() == 5 && "Table"@[0] == 'T');
    assert("EventGridTrigger"@.len() == 16);
    assert("EventHubTrigger"@.len() == 15);
    assert("EventHub"@.len() == 8);
    assert("In"@.len() == 2 && "InOut"@.len() == 5 && "Out"@.len() == 3);
}

/// Evaluating the fragment of a binding gives a binding of the same kind,
/// with the same name and the same direction.
pub proof fn fragment_rebuilds_binding(binding: Binding)
    requires
        !(binding is Context),
    ensures
        rebuilt(fragment(binding@->0)) == Some(
            Rebuilt {
                kind: binding@->0.kind,
                name: binding@->0.name,
                direction: binding@->0.direction,
            },
        ),
{
    let view = binding@->0;
    let tokens = fragment(view);
    spellings_differ(view.kind, view.direction);
    let head = bindings_path() + segment("Binding"@) + segment(view.kind.spelling());
    assert(head.len() == 15);
    assert(head[14] == Lexeme::Word(view.kind.spelling()));
    let payload = payload_expr(view);
    let opened = bindings_path() + segment(view.kind.spelling());
    assert(opened.len() == 12);
    let fields = payload_fields(view);
    let named = label("name"@) + string_expr(view.name) + seq![Lexeme::Alone(',')];
    assert(string_expr(view.name).len() == 15);
    assert(string_expr(view.name)[13] == Lexeme::Text(view.name));
    assert(named.len() == 18);
    assert(named[15] == Lexeme::Text(view.name));
    assert(fields.len() >= 18);
    assert(fields[15] == named[15]);
    assert(payload.len() >= 31);
    assert(payload[28] == fields[15]);
    assert(tokens.len() >= 47);
    assert(tokens[14] == head[14]);
    assert(tokens[44] == payload[28]);
    if view.kind.directional() {
        let directed = label("direction"@) + direction_expr(view.direction) + seq![
            Lexeme::Alone(','),
        ];
        assert(direction_expr(view.direction).len() == 15);
        assert(direction_expr(view.direction)[14] == Lexeme::Word(view.direction.variant_text()));
        assert(directed.len() == 18);
        assert(directed[16] == Lexeme::Word(view.direction.variant_text()));
        assert(fields.len() >= 36);
        assert(fields[34] == directed[16]);
        assert(payload.len() >= 49);
        assert(payload[47] == fields[34]);
        assert(tokens.len() >= 66);
        assert(tokens[63] == payload[47]);
    }
}

/// The spelling of every kind is a word.
pub proof fn kind_spelling_is_word(kind: Kind)
    ensures
        is_word(kind.spelling()),
{
    reveal_strlit("HttpTrigger");
    reveal_strlit("Http");
    reveal_strlit("TimerTrigger");
    reveal_strlit("QueueTrigger");
    reveal_strlit("Queue");
    reveal_strlit("BlobTrigger");
    reveal_strlit("Blob");
    reveal_strlit("Table");
    reveal_strlit("EventGridTrigger");
    reveal_strlit("EventHubTrigger");
    reveal_strlit("EventHub");
}

fn push_segment(tokens: &mut TokenStream, word: &str)
    requires
        is_word(word@),
    ensures
        lexemes(*final(tokens)) == lexemes(*old(tokens)) + segment(word@),
{
    push_punct(tokens, ':', Spacing::Joint);
    push_punct(tokens, ':', Spacing::Alone);
    push_word(tokens, word);
    assert(lexemes(*tokens) =~= lexemes(*old(tokens)) + segment(word@));
}

fn push_bindings_path(tokens: &mut TokenStream)
    ensures
        lexemes(*final(tokens)) == lexemes(*old(tokens)) + bindings_path(),
{
    proof {
        reveal_strlit("azure_functions");
        reveal_strlit("codegen");
        reveal_strlit("bindings");
    }
    push_segment(tokens, "azure_functions");
    push_segment(tokens, "codegen");
    push_segment(tokens, "bindings");
    assert(lexemes(*tokens) =~= lexemes(*old(tokens)) + bindings_path());
}

fn push_label(tokens: &mut TokenStream, word: &str)
    requires
        is_word(word@),
    ensures
        lexemes(*final(tokens)) == lexemes(*old(tokens)) + label(word@),
{
    push_word(tokens, word);
    push_punct(tokens, ':', Spacing::Alone);
    assert(lexemes(*tokens) =~= lexemes(*old(tokens)) + label(word@));
}

fn push_comma(tokens: &mut TokenStream)
    ensures
        lexemes(*final(tokens)) == lexemes(*old(tokens)) + seq![Lexeme::Alone(',')],
{
    push_punct(tokens, ',', Spacing::Alone);
    assert(lexemes(*tokens) =~= lexemes(*old(tokens)) + seq![Lexeme::Alone(',')]);
}

fn push_enclosed(tokens: &mut TokenStream, delimiter: Delimiter, inner: TokenStream)
    ensures
        lexemes(*final(tokens)) == lexemes(*old(tokens)) + enclosed(delimiter, lexemes(inner)),
{
    push_group(tokens, delimiter, inner);
    assert(lexemes(*tokens) =~= lexemes(*old(tokens)) + enclosed(delimiter, lexemes(inner)));
}

fn push_string_expr(tokens: &mut TokenStream, text: &str)
    ensures
        lexemes(*final(tokens)) == lexemes(*old(tokens)) + string_expr(text@),
{
    proof {
        reveal_strlit("std");
        reveal_strlit("string");
        reveal_strlit("String");
        reveal_strlit("from");
    }
    push_segment(tokens, "std");
    push_segment(tokens, "string");
    push_segment(tokens, "String");
    push_segment(tokens, "from");
    let mut inner = empty_stream();
    push_text(&mut inner, text);
    assert(lexemes(inner) =~= seq![Lexeme::Text(text@)]);
    push_enclosed(tokens, Delimiter::Parenthesis, inner);
    assert(lexemes(*tokens) =~= lexemes(*old(tokens)) + string_expr(text@));
}

fn push_direction_expr(tokens: &mut TokenStream, direction: Direction)
    ensures
        lexemes(*final(tokens)) == lexemes(*old(tokens)) + direction_expr(direction),
{
    proof {
        reveal_strlit("Direction");
        reveal_strlit("In");
        reveal_strlit("InOut");
        reveal_strlit("Out");
    }
    push_bindings_path(tokens);
    push_segment(tokens, "Direction");
    let variant = match direction {
        Direction::In => "In",
        Direction::InOut => "InOut",
        Direction::Out => "Out",
    };
    push_segment(tokens, variant);
    assert(lexemes(*tokens) =~= lexemes(*old(tokens)) + direction_expr(direction));
}

fn push_value_expr(tokens: &mut TokenStream, value: &Value)
    ensures
        lexemes(*final(tokens)) == lexemes(*old(tokens)) + value_expr(value@),
{
    proof {
        reveal_strlit("Value");
        reveal_strlit("Text");
        reveal_strlit("Flag");
        reveal_strlit("Number");
        reveal_strlit("true");
        reveal_strlit("false");
    }
    push_bindings_path(tokens);
    push_segment(tokens, "Value");
    let mut inner = empty_stream();
    match value {
        Value::Text(text) => {
            push_segment(tokens, "Text");
            push_string_expr(&mut inner, text.as_str());
        },
        Value::Flag(flag) => {
            push_segment(tokens, "Flag");
            push_word(&mut inner, if *flag { "true" } else { "false" });
        },
        Value::Number(number) => {
            push_segment(tokens, "Number");
            push_number(&mut inner, *number);
        },
    }
    assert(lexemes(inner) =~= value_inner(value@));
    push_enclosed(tokens, Delimiter::Parenthesis, inner);
    assert(lexemes(*tokens) =~= lexemes(*old(tokens)) + value_expr(value@));
}

fn push_argument_expr(tokens: &mut TokenStream, argument: &Argument)
    ensures
        lexemes(*final(tokens)) == lexemes(*old(tokens)) + argument_expr(argument@),
{
    proof {
        reveal_strlit("Argument");
        reveal_strlit("key");
        reveal_strlit("value");
    }
    push_bindings_path(tokens);
    push_segment(tokens, "Argument");
    let mut inner = empty_stream();
    push_label(&mut inner, "key");
    push_string_expr(&mut inner, argument.key.as_str());
    push_comma(&mut inner);
    push_label(&mut inner, "value");
    push_value_expr(&mut inner, &argument.value);
    push_comma(&mut inner);
    assert(lexemes(inner) =~= label("key"@) + string_expr(argument@.key) + seq![Lexeme::Alone(',')]
        + label("value"@) + value_expr(argument@.value) + seq![Lexeme::Alone(',')]);
    push_enclosed(tokens, Delimiter::Brace, inner);
    assert(lexemes(*tokens) =~= lexemes(*old(tokens)) + argument_expr(argument@));
}

fn push_arguments_expr(tokens: &mut TokenStream, arguments: &Vec<Argument>)
    ensures
        lexemes(*final(tokens)) == lexemes(*old(tokens)) + arguments_expr(arguments.deep_view()),
{
    proof {
        reveal_strlit("std");
        reveal_strlit("vec");
    }
    push_segment(tokens, "std");
    push_segment(tokens, "vec");
    push_punct(tokens, '!', Spacing::Alone);
    let mut inner = empty_stream();
    let ghost all = arguments.deep_view();
    let mut at: usize = 0;
    while at < arguments.len()
        invariant
            at <= arguments.len(),
            all == arguments.deep_view(),
            lexemes(inner) == argument_list(all.take(at as int)),
        decreases arguments.len() - at,
    {
        let ghost done = lexemes(inner);
        push_argument_expr(&mut inner, &arguments[at]);
        push_comma(&mut inner);
        at += 1;
        proof {
            let now = all.take(at as int);
            assert(now.drop_last() == all.take(at - 1));
            assert(now.last() == arguments[at - 1]@);
        }
    }
    assert(all.take(at as int) == all);
    push_enclosed(tokens, Delimiter::Bracket, inner);
    assert(lexemes(*tokens) =~= lexemes(*old(tokens)) + arguments_expr(all));
}

/// Why a binding has no fragment.
#[derive(Clone, Copy, Debug, PartialEq, Eq, Structural)]
pub enum SynthesisError {
    /// The binding is `Context`.
    ContextBinding,
}

impl SynthesisError {
    /// What the error says.
    pub fn message(&self) -> (text: &'static str)
        ensures
            text@ == "context bindings cannot be tokenized"@,
    {
        "context bindings cannot be tokenized"
    }
}

impl Binding {
    /// What synthesis comes to for this binding: its fragment, or a refusal
    /// if it is `Context`. It is a function of the binding alone.
    pub open spec fn synthesized(self) -> Result<Seq<Lexeme>, SynthesisError> {
        match self@ {
            Some(view) => Ok(fragment(view)),
            None => Err(SynthesisError::ContextBinding),
        }
    }

    /// Synthesis refuses `Context`, and nothing but `Context`. The refusal
    /// rests on the binding alone: what the stream holds and what was
    /// synthesized before have no part in it.
    pub proof fn synthesis_refuses_context_alone(self)
        ensures
            self == Binding::Context ==> self.synthesized() == Err::<
                Seq<Lexeme>,
                SynthesisError,
            >(SynthesisError::ContextBinding),
            self != Binding::Context ==> self.synthesized() == Ok::<Seq<Lexeme>, SynthesisError>(
                fragment(self@->0),
            ),
    {
    }

    /// Appends to `tokens` the fragment that rebuilds this binding, unless
    /// it is `Context`: that is refused, every time, and `tokens` are left
    /// as they were.
    pub fn try_to_tokens(&self, tokens: &mut TokenStream) -> (done: Result<(), SynthesisError>)
        ensures
            done is Err <==> *self == Binding::Context,
            match self.synthesized() {
                Ok(written) => done is Ok && lexemes(*final(tokens)) == lexemes(*old(tokens))
                    + written,
                Err(refusal) => done == Err::<(), SynthesisError>(refusal) && *final(tokens)
                    == *old(tokens),
            },
    {
        if self.is_context() {
            Err(SynthesisError::ContextBinding)
        } else {
            self.to_tokens(tokens);
            Ok(())
        }
    }

    /// Appends to `tokens` the fragment that rebuilds this binding.
    ///
    /// `Context` is bound to nothing and is never written into generated
    /// code: it has no fragment.
    pub fn to_tokens(&self, tokens: &mut TokenStream)
        requires
            !(self is Context),
        ensures
            lexemes(*final(tokens)) == lexemes(*old(tokens)) + fragment(self@->0),
    {
        let (kind, name, direction, arguments) = self.parts();
        let ghost binding = self@->0;
        proof {
            kind_spelling_is_word(kind);
            reveal_strlit("Binding");
            reveal_strlit("name");
            reveal_strlit("direction");
            reveal_strlit("arguments");
        }
        let mut fields = empty_stream();
        push_label(&mut fields, "name");
        push_string_expr(&mut fields, name);
        push_comma(&mut fields);
        if kind.is_directional() {
            push_label(&mut fields, "direction");
            push_direction_expr(&mut fields, direction);
            push_comma(&mut fields);
        }
        push_label(&mut fields, "arguments");
        push_arguments_expr(&mut fields, arguments);
        push_comma(&mut fields);
        assert(lexemes(fields) =~= payload_fields(binding));

        let mut payload = empty_stream();
        push_bindings_path(&mut payload);
        push_segment(&mut payload, kind.variant_name());
        push_enclosed(&mut payload, Delimiter::Brace, fields);
        assert(lexemes(payload) =~= payload_expr(binding));

        push_bindings_path(tokens);
        push_segment(tokens, "Binding");
        push_segment(tokens, kind.variant_name());
        push_enclosed(tokens, Delimiter::Parenthesis, payload);
        assert(lexemes(*tokens) =~= lexemes(*old(tokens)) + fragment(binding));
    }
}

} // verus!
