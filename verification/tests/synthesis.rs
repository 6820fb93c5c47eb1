use azure_functions_shared::arguments::Argument;
use azure_functions_shared::binding::{Binding, Kind};
use azure_functions_shared::direction::Direction;
use azure_functions_shared::resolution::{Registries, Usage};
use azure_functions_shared::synthesis::SynthesisError;
use proc_macro2::{Span, TokenStream, TokenTree};
use std::str::FromStr;

fn tokens_of(binding: &Binding) -> TokenStream {
    let mut tokens = TokenStream::new();
    binding.to_tokens(&mut tokens);
    tokens
}

fn lexed(source: &str) -> String {
    TokenStream::from_str(source).unwrap().to_string()
}

fn string_expr(text: &str) -> String {
    format!(":: std :: string :: String :: from ({:?})", text)
}

fn expected(variant: &str, name: &str, direction: Option<&str>, arguments: &str) -> String {
    let direction = match direction {
        Some(direction) => format!(
            "direction : :: azure_functions :: codegen :: bindings :: Direction :: {} ,",
            direction
        ),
        None => String::new(),
    };
    format!(
        ":: azure_functions :: codegen :: bindings :: Binding :: {v} (\
         :: azure_functions :: codegen :: bindings :: {v} {{ \
         name : {n} , {d} arguments : :: std :: vec ! [{a}] , }})",
        v = variant,
        n = string_expr(name),
        d = direction,
        a = arguments,
    )
}

#[test]
fn fragment_of_a_response() {
    let binding = Kind::Http.bind("res".to_string(), Vec::new());
    let tokens = tokens_of(&binding);
    assert_eq!(tokens.to_string(), lexed(&expected("Http", "res", None, "")));
    assert_eq!(
        tokens.to_string(),
        lexed(
            "::azure_functions::codegen::bindings::Binding::Http(\
             ::azure_functions::codegen::bindings::Http { \
             name: ::std::string::String::from(\"res\"), arguments: ::std::vec![], })"
        )
    );
}

#[test]
fn fragment_of_each_kind_names_its_variant() {
    let kinds = [
        (Kind::HttpTrigger, "HttpTrigger", None),
        (Kind::Http, "Http", None),
        (Kind::TimerTrigger, "TimerTrigger", None),
        (Kind::QueueTrigger, "QueueTrigger", None),
        (Kind::Queue, "Queue", None),
        (Kind::BlobTrigger, "BlobTrigger", Some("In")),
        (Kind::Blob, "Blob", Some("In")),
        (Kind::Table, "Table", Some("In")),
        (Kind::EventGridTrigger, "EventGridTrigger", None),
        (Kind::EventHubTrigger, "EventHubTrigger", None),
        (Kind::EventHub, "EventHub", None),
    ];
    for (kind, variant, direction) in kinds {
        let binding = kind.bind("param".to_string(), Vec::new());
        assert_eq!(
            tokens_of(&binding).to_string(),
            lexed(&expected(variant, "param", direction, "")),
            "{:?}",
            kind
        );
    }
}

#[test]
fn fragment_writes_the_stamped_direction() {
    for (direction, variant) in
        [(Direction::In, "In"), (Direction::InOut, "InOut"), (Direction::Out, "Out")]
    {
        let binding = Kind::Blob.bind("b".to_string(), Vec::new()).with_direction(direction);
        assert_eq!(
            tokens_of(&binding).to_string(),
            lexed(&expected("Blob", "b", Some(variant), ""))
        );
    }
}

#[test]
fn fragment_writes_every_argument() {
    let binding = Registries::standard()
        .resolve(
            Usage::Input,
            "Table",
            vec![
                Argument::text("name", "rows"),
                Argument::text("table_name", "t1"),
                Argument::number("take", 10),
                Argument::flag("strict", true),
                Argument::flag("lazy", false),
            ],
            Span::call_site(),
        )
        .unwrap();
    let path = ":: azure_functions :: codegen :: bindings ::";
    let arguments = format!(
        "{p} Argument {{ key : {k1} , value : {p} Value :: Text ({v1}) , }} , \
         {p} Argument {{ key : {k2} , value : {p} Value :: Number (10u64) , }} , \
         {p} Argument {{ key : {k3} , value : {p} Value :: Flag (true) , }} , \
         {p} Argument {{ key : {k4} , value : {p} Value :: Flag (false) , }} ,",
        p = path,
        k1 = string_expr("table_name"),
        v1 = string_expr("t1"),
        k2 = string_expr("take"),
        k3 = string_expr("strict"),
        k4 = string_expr("lazy"),
    );
    assert_eq!(
        tokens_of(&binding).to_string(),
        lexed(&expected("Table", "rows", Some("In"), &arguments))
    );
}

#[test]
fn fragment_is_an_expression() {
    let binding = Registries::standard()
        .resolve(
            Usage::InputOutput,
            "Blob",
            vec![Argument::text("name", "blob"), Argument::text("path", "in/{name}")],
            Span::call_site(),
        )
        .unwrap();
    let expression: syn::Expr = syn::parse2(tokens_of(&binding)).unwrap();
    match expression {
        syn::Expr::Call(call) => {
            assert_eq!(call.args.len(), 1);
            assert!(matches!(call.args[0], syn::Expr::Struct(_)));
        }
        _ => panic!("the fragment is no call of a variant"),
    }
}

#[test]
fn fragment_is_appended_to_what_the_stream_holds() {
    let binding = Kind::Queue.bind("q".to_string(), Vec::new());
    let mut tokens = TokenStream::from_str("let binding =").unwrap();
    binding.to_tokens(&mut tokens);
    let source = format!("let binding = {}", expected("Queue", "q", None, ""));
    assert_eq!(tokens.to_string(), lexed(&source));
    binding.to_tokens(&mut tokens);
    let twice = format!("{} {}", source, expected("Queue", "q", None, ""));
    assert_eq!(tokens.to_string(), lexed(&twice));
}

#[test]
fn fragment_keeps_the_name_whatever_it_holds() {
    for name in ["req", "with \"quotes\"", "back\\slash", "tab\there", "ünïcode", "{}"] {
        let binding = Kind::HttpTrigger.bind(name.to_string(), Vec::new());
        let tokens = tokens_of(&binding);
        let expression: syn::Expr = syn::parse2(tokens).unwrap();
        let payload = match expression {
            syn::Expr::Call(call) => call.args[0].clone(),
            _ => panic!("no call"),
        };
        let field = match payload {
            syn::Expr::Struct(expression) => expression.fields[0].expr.clone(),
            _ => panic!("no struct"),
        };
        let written = match field {
            syn::Expr::Call(call) => match &call.args[0] {
                syn::Expr::Lit(literal) => match &literal.lit {
                    syn::Lit::Str(text) => text.value(),
                    _ => panic!("no string"),
                },
                _ => panic!("no literal"),
            },
            _ => panic!("no call"),
        };
        assert_eq!(written, name);
    }
}

#[test]
fn fragment_names_kind_name_and_direction_at_fixed_places() {
    let binding = Registries::standard()
        .resolve(
            Usage::Output,
            "Blob",
            vec![Argument::text("name", "out"), Argument::text("path", "x")],
            Span::call_site(),
        )
        .unwrap();
    let top: Vec<TokenTree> = tokens_of(&binding).into_iter().collect();
    assert_eq!(top.len(), 16);
    assert_eq!(top[14].to_string(), "Blob");
    let payload: Vec<TokenTree> = match &top[15] {
        TokenTree::Group(group) => group.stream().into_iter().collect(),
        _ => panic!("no group"),
    };
    assert_eq!(payload.len(), 13);
    assert_eq!(payload[11].to_string(), "Blob");
    let fields: Vec<TokenTree> = match &payload[12] {
        TokenTree::Group(group) => group.stream().into_iter().collect(),
        _ => panic!("no group"),
    };
    assert_eq!(fields[0].to_string(), "name");
    match &fields[14] {
        TokenTree::Group(group) => assert_eq!(group.stream().to_string(), "\"out\""),
        _ => panic!("no group"),
    }
    assert_eq!(fields[16].to_string(), "direction");
    assert_eq!(fields[32].to_string(), "Out");
}

#[test]
fn context_is_refused_every_time() {
    let mut tokens = TokenStream::from_str("a b").unwrap();
    for _ in 0..3 {
        assert_eq!(
            Binding::Context.try_to_tokens(&mut tokens),
            Err(SynthesisError::ContextBinding)
        );
        assert_eq!(tokens.to_string(), "a b");
    }
}

#[test]
fn refusal_says_why() {
    assert_eq!(SynthesisError::ContextBinding.message(), "context bindings cannot be tokenized");
}

#[test]
fn try_to_tokens_writes_what_to_tokens_writes() {
    let binding = Kind::EventHub.bind("hub".to_string(), vec![Argument::text("connection", "c")]);
    let mut tokens = TokenStream::new();
    assert_eq!(binding.try_to_tokens(&mut tokens), Ok(()));
    assert!(!tokens.is_empty());
    assert_eq!(tokens.to_string(), tokens_of(&binding).to_string());
}
