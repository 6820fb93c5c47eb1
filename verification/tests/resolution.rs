use azure_functions_shared::arguments::{take_name, Argument, NameFault, Value};
use azure_functions_shared::binding::{Binding, Kind};
use azure_functions_shared::direction::Direction;
use azure_functions_shared::registry::Registry;
use azure_functions_shared::resolution::{
    apply_stamp, create, Fault, Registries, ResolutionError, Usage,
};
use proc_macro2::Span;

fn named(name: &str) -> Vec<Argument> {
    vec![Argument::text("name", name)]
}

fn resolve(usage: Usage, role: &str, name: &str) -> Result<Binding, ResolutionError> {
    Registries::standard().resolve(usage, role, named(name), Span::call_site())
}

#[test]
fn new_registry_knows_nothing() {
    let registry = Registry::new();
    assert_eq!(registry.get("Blob"), None);
    assert!(!registry.contains_key("Blob"));
    assert!(!registry.contains_key(""));
}

#[test]
fn registry_insert_then_get() {
    let mut registry = Registry::new();
    assert_eq!(registry.insert("Blob", Kind::Blob), None);
    assert_eq!(registry.insert("Table", Kind::Table), None);
    assert_eq!(registry.get("Blob"), Some(Kind::Blob));
    assert_eq!(registry.get("Table"), Some(Kind::Table));
    assert_eq!(registry.get("blob"), None);
    assert_eq!(registry.get("Blo"), None);
    assert!(registry.contains_key("Table"));
}

#[test]
fn registry_insert_replaces_and_returns_the_old_kind() {
    let mut registry = Registry::new();
    registry.insert("Blob", Kind::Blob);
    registry.insert("Table", Kind::Table);
    assert_eq!(registry.insert("Blob", Kind::BlobTrigger), Some(Kind::Blob));
    assert_eq!(registry.get("Blob"), Some(Kind::BlobTrigger));
    assert_eq!(registry.get("Table"), Some(Kind::Table));
    assert_eq!(registry.insert("Blob", Kind::Queue), Some(Kind::BlobTrigger));
    assert_eq!(registry.get("Blob"), Some(Kind::Queue));
}

#[test]
fn registry_takes_new_roles_without_touching_old_ones() {
    let mut registry = Registry::triggers();
    assert_eq!(registry.insert("ServiceBusMessage", Kind::QueueTrigger), None);
    assert_eq!(registry.get("ServiceBusMessage"), Some(Kind::QueueTrigger));
    assert_eq!(registry.get("HttpRequest"), Some(Kind::HttpTrigger));
    assert_eq!(registry.get("EventHubTrigger"), Some(Kind::EventHubTrigger));
}

#[test]
fn trigger_registry_contents() {
    let registry = Registry::triggers();
    assert_eq!(registry.get("HttpRequest"), Some(Kind::HttpTrigger));
    assert_eq!(registry.get("TimerInfo"), Some(Kind::TimerTrigger));
    assert_eq!(registry.get("QueueTrigger"), Some(Kind::QueueTrigger));
    assert_eq!(registry.get("BlobTrigger"), Some(Kind::BlobTrigger));
    assert_eq!(registry.get("EventGridEvent"), Some(Kind::EventGridTrigger));
    assert_eq!(registry.get("EventHubTrigger"), Some(Kind::EventHubTrigger));
    for other in ["Blob", "Table", "HttpResponse", "QueueMessage", "EventHubMessage", ""] {
        assert_eq!(registry.get(other), None, "{}", other);
    }
}

#[test]
fn input_registry_contents() {
    let registry = Registry::input_bindings();
    assert_eq!(registry.get("Blob"), Some(Kind::Blob));
    assert_eq!(registry.get("Table"), Some(Kind::Table));
    for other in ["BlobTrigger", "HttpRequest", "HttpResponse", "QueueMessage"] {
        assert_eq!(registry.get(other), None, "{}", other);
    }
}

#[test]
fn input_output_registry_contents() {
    let registry = Registry::input_output_bindings();
    assert_eq!(registry.get("BlobTrigger"), Some(Kind::BlobTrigger));
    assert_eq!(registry.get("Blob"), Some(Kind::Blob));
    for other in ["Table", "HttpRequest", "HttpResponse", "QueueMessage"] {
        assert_eq!(registry.get(other), None, "{}", other);
    }
}

#[test]
fn output_registry_contents() {
    let registry = Registry::output_bindings();
    assert_eq!(registry.get("HttpResponse"), Some(Kind::Http));
    assert_eq!(registry.get("QueueMessage"), Some(Kind::Queue));
    assert_eq!(registry.get("Blob"), Some(Kind::Blob));
    assert_eq!(registry.get("Table"), Some(Kind::Table));
    assert_eq!(registry.get("EventHubMessage"), Some(Kind::EventHub));
    for other in ["BlobTrigger", "HttpRequest", "TimerInfo"] {
        assert_eq!(registry.get(other), None, "{}", other);
    }
}

#[test]
fn unknown_trigger_role_is_a_hard_failure() {
    let span = Span::call_site();
    let error = Registries::standard()
        .resolve(Usage::Trigger, "Frobnicate", named("x"), span)
        .unwrap_err();
    assert_eq!(error.fault, Fault::UnsupportedRole);
    assert_eq!(error.role, "Frobnicate");
    assert_eq!(format!("{:?}", error.span), format!("{:?}", span));
}

#[test]
fn unknown_role_fails_under_every_usage() {
    for usage in [Usage::Trigger, Usage::Input, Usage::InputOutput, Usage::Output] {
        let error = resolve(usage, "Frobnicate", "x").unwrap_err();
        assert_eq!(error.fault, Fault::UnsupportedRole);
        assert_eq!(error.role, "Frobnicate");
    }
}

#[test]
fn blob_resolves_differently_under_each_usage() {
    let error = resolve(Usage::Trigger, "Blob", "b").unwrap_err();
    assert_eq!(error.fault, Fault::UnsupportedRole);

    let input = resolve(Usage::Input, "Blob", "b").unwrap();
    assert_eq!(input.kind(), Some(Kind::Blob));
    assert_eq!(input.direction(), Some(Direction::In));

    let shared = resolve(Usage::InputOutput, "Blob", "b").unwrap();
    assert_eq!(shared.kind(), Some(Kind::Blob));
    assert_eq!(shared.direction(), Some(Direction::InOut));

    let output = resolve(Usage::Output, "Blob", "b").unwrap();
    assert_eq!(output.kind(), Some(Kind::Blob));
    assert_eq!(output.direction(), Some(Direction::Out));
}

#[test]
fn blob_as_input_through_the_input_output_registry_keeps_in() {
    let registries = Registries {
        triggers: Registry::triggers(),
        inputs: Registry::new(),
        input_outputs: Registry::input_output_bindings(),
        outputs: Registry::new(),
    };
    let input = registries.resolve(Usage::Input, "Blob", named("b"), Span::call_site()).unwrap();
    assert_eq!(input.kind(), Some(Kind::Blob));
    assert_eq!(input.direction(), Some(Direction::In));
    let output = registries.resolve(Usage::Output, "Blob", named("b"), Span::call_site()).unwrap();
    assert_eq!(output.direction(), Some(Direction::Out));
}

#[test]
fn input_output_roles_take_each_direction() {
    for role in ["BlobTrigger", "Blob"] {
        let input = resolve(Usage::Input, role, "p").unwrap();
        assert_eq!(input.direction(), Some(Direction::In), "{}", role);
        let output = resolve(Usage::Output, role, "p").unwrap();
        assert_eq!(output.direction(), Some(Direction::Out), "{}", role);
        let shared = resolve(Usage::InputOutput, role, "p").unwrap();
        assert_eq!(shared.direction(), Some(Direction::InOut), "{}", role);
    }
}

#[test]
fn blob_trigger_falls_back_to_the_input_output_registry() {
    let input = resolve(Usage::Input, "BlobTrigger", "p").unwrap();
    assert_eq!(input.kind(), Some(Kind::BlobTrigger));
    let output = resolve(Usage::Output, "BlobTrigger", "p").unwrap();
    assert_eq!(output.kind(), Some(Kind::BlobTrigger));
    let trigger = resolve(Usage::Trigger, "BlobTrigger", "p").unwrap();
    assert_eq!(trigger.kind(), Some(Kind::BlobTrigger));
    assert_eq!(trigger.direction(), Some(Direction::In));
}

#[test]
fn roles_of_one_registry_resolve_with_tag_and_name() {
    let cases = [
        (Usage::Trigger, "HttpRequest", Kind::HttpTrigger, "httpTrigger"),
        (Usage::Trigger, "TimerInfo", Kind::TimerTrigger, "timerTrigger"),
        (Usage::Trigger, "QueueTrigger", Kind::QueueTrigger, "queueTrigger"),
        (Usage::Trigger, "EventGridEvent", Kind::EventGridTrigger, "eventGridTrigger"),
        (Usage::Trigger, "EventHubTrigger", Kind::EventHubTrigger, "eventHubTrigger"),
        (Usage::Output, "HttpResponse", Kind::Http, "httpTrigger"),
        (Usage::Output, "QueueMessage", Kind::Queue, "queueTrigger"),
        (Usage::Output, "EventHubMessage", Kind::EventHub, "eventHubTrigger"),
    ];
    for (usage, role, kind, tag) in cases {
        let binding = resolve(usage, role, "param").unwrap();
        assert_eq!(binding.kind(), Some(kind), "{}", role);
        assert_eq!(binding.binding_type(), Some(tag), "{}", role);
        assert_eq!(binding.name(), Some("param"), "{}", role);
    }
}

#[test]
fn stamp_leaves_response_and_message_kinds_at_out() {
    for role in ["HttpResponse", "QueueMessage", "EventHubMessage"] {
        let binding = resolve(Usage::Output, role, "p").unwrap();
        assert_eq!(binding.direction(), Some(Direction::Out), "{}", role);
    }
}

#[test]
fn table_is_an_input_or_an_output_but_not_both() {
    assert_eq!(resolve(Usage::Input, "Table", "t").unwrap().direction(), Some(Direction::In));
    assert_eq!(resolve(Usage::Output, "Table", "t").unwrap().direction(), Some(Direction::Out));
    assert_eq!(
        resolve(Usage::InputOutput, "Table", "t").unwrap_err().fault,
        Fault::UnsupportedRole
    );
}

#[test]
fn triggers_are_not_inputs_or_outputs() {
    for usage in [Usage::Input, Usage::InputOutput, Usage::Output] {
        let error = resolve(usage, "HttpRequest", "req").unwrap_err();
        assert_eq!(error.fault, Fault::UnsupportedRole);
    }
}

#[test]
fn select_follows_the_order_of_the_registries() {
    let mut registries = Registries::standard();
    registries.inputs.insert("Blob", Kind::Table);
    assert_eq!(registries.select(Usage::Input, "Blob"), Some(Kind::Table));
    assert_eq!(registries.select(Usage::InputOutput, "Blob"), Some(Kind::Blob));
    assert_eq!(registries.select(Usage::Output, "Blob"), Some(Kind::Blob));
    assert_eq!(registries.select(Usage::Trigger, "Blob"), None);
    assert_eq!(registries.select(Usage::Input, "BlobTrigger"), Some(Kind::BlobTrigger));
}

#[test]
fn usage_stamps() {
    assert_eq!(Usage::Trigger.direction_stamp(), None);
    assert_eq!(Usage::Input.direction_stamp(), None);
    assert_eq!(Usage::InputOutput.direction_stamp(), Some(Direction::InOut));
    assert_eq!(Usage::Output.direction_stamp(), Some(Direction::Out));
}

#[test]
fn apply_stamp_without_a_stamp_changes_nothing() {
    let binding = Kind::Blob.bind("b".to_string(), Vec::new()).with_direction(Direction::InOut);
    let same = apply_stamp(binding, None);
    assert_eq!(same.direction(), Some(Direction::InOut));
    let stamped = apply_stamp(same, Some(Direction::Out));
    assert_eq!(stamped.direction(), Some(Direction::Out));
}

#[test]
fn missing_name_is_malformed() {
    let arguments = vec![Argument::text("path", "a/b")];
    let error = Registries::standard()
        .resolve(Usage::Input, "Blob", arguments, Span::call_site())
        .unwrap_err();
    assert_eq!(error.fault, Fault::MalformedArguments(NameFault::Missing));
    assert_eq!(error.role, "Blob");
    assert_eq!(create(Kind::Blob, Vec::new()).unwrap_err(), NameFault::Missing);
}

#[test]
fn name_that_is_no_text_is_malformed() {
    let arguments = vec![Argument::flag("name", true), Argument::text("name", "late")];
    let error = Registries::standard()
        .resolve(Usage::Input, "Blob", arguments, Span::call_site())
        .unwrap_err();
    assert_eq!(error.fault, Fault::MalformedArguments(NameFault::NotText));
    assert_eq!(
        create(Kind::Blob, vec![Argument::number("name", 3)]).unwrap_err(),
        NameFault::NotText
    );
}

#[test]
fn empty_name_is_malformed() {
    let error = resolve(Usage::Trigger, "HttpRequest", "").unwrap_err();
    assert_eq!(error.fault, Fault::MalformedArguments(NameFault::Empty));
}

#[test]
fn unsupported_role_is_reported_before_malformed_arguments() {
    let error = Registries::standard()
        .resolve(Usage::Trigger, "Frobnicate", Vec::new(), Span::call_site())
        .unwrap_err();
    assert_eq!(error.fault, Fault::UnsupportedRole);
}

#[test]
fn take_name_takes_the_first_name_and_keeps_the_rest_in_order() {
    let arguments = vec![
        Argument::text("auth_level", "anonymous"),
        Argument::text("name", "req"),
        Argument::text("methods", "get|post"),
        Argument::text("name", "second"),
    ];
    let (name, rest) = take_name(arguments).unwrap();
    assert_eq!(name, "req");
    let keys: Vec<&str> = rest.iter().map(|a| a.key.as_str()).collect();
    assert_eq!(keys, vec!["auth_level", "methods", "name"]);
    assert!(matches!(&rest[2].value, Value::Text(text) if text == "second"));
}

#[test]
fn created_binding_hands_the_other_arguments_through() {
    let arguments = vec![
        Argument::text("name", "req"),
        Argument::text("auth_level", "anonymous"),
    ];
    let binding = create(Kind::HttpTrigger, arguments).unwrap();
    assert_eq!(binding.name(), Some("req"));
    assert_eq!(binding.direction(), Some(Direction::In));
    let rest = binding.arguments().unwrap();
    assert_eq!(rest.len(), 1);
    assert_eq!(rest[0].key, "auth_level");
    assert!(matches!(&rest[0].value, Value::Text(text) if text == "anonymous"));
}

#[test]
fn resolved_name_is_never_empty() {
    for (usage, role) in [
        (Usage::Trigger, "TimerInfo"),
        (Usage::Input, "Table"),
        (Usage::InputOutput, "Blob"),
        (Usage::Output, "QueueMessage"),
    ] {
        let binding = resolve(usage, role, "n").unwrap();
        assert!(!binding.name().unwrap().is_empty());
    }
}

#[test]
fn entries_list_every_role_once() {
    let mut listed: Vec<(String, Kind)> = Registry::output_bindings().entries();
    listed.sort_by(|a, b| a.0.cmp(&b.0));
    assert_eq!(
        listed,
        vec![
            ("Blob".to_string(), Kind::Blob),
            ("EventHubMessage".to_string(), Kind::EventHub),
            ("HttpResponse".to_string(), Kind::Http),
            ("QueueMessage".to_string(), Kind::Queue),
            ("Table".to_string(), Kind::Table),
        ]
    );
    assert!(Registry::new().entries().is_empty());
}

#[test]
fn entries_show_a_replaced_kind_once() {
    let mut registry = Registry::input_bindings();
    registry.insert("Blob", Kind::BlobTrigger);
    registry.insert("Queue", Kind::Queue);
    let mut listed = registry.entries();
    listed.sort_by(|a, b| a.0.cmp(&b.0));
    assert_eq!(
        listed,
        vec![
            ("Blob".to_string(), Kind::BlobTrigger),
            ("Queue".to_string(), Kind::Queue),
            ("Table".to_string(), Kind::Table),
        ]
    );
}
