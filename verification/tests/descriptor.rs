use azure_functions_shared::arguments::{Argument, Value};
use azure_functions_shared::binding::{Binding, Kind};
use azure_functions_shared::descriptor::{
    described_direction, described_name, field_text, text_field, Field,
};
use azure_functions_shared::direction::Direction;
use azure_functions_shared::resolution::{Registries, Usage};
use azure_functions_shared::text::{same_text, to_camel_case, to_lower, to_upper};
use proc_macro2::Span;

fn shown(fields: &[Field]) -> Vec<(String, String)> {
    fields
        .iter()
        .map(|field| {
            let value = match &field.value {
                Value::Text(text) => format!("{:?}", text),
                Value::Flag(flag) => format!("{}", flag),
                Value::Number(number) => format!("{}", number),
            };
            (field.key.clone(), value)
        })
        .collect()
}

fn pair(key: &str, value: &str) -> (String, String) {
    (key.to_string(), value.to_string())
}

fn json_of(fields: &[Field]) -> serde_json::Value {
    let mut map = serde_json::Map::new();
    for field in fields {
        let value = match &field.value {
            Value::Text(text) => serde_json::Value::from(text.as_str()),
            Value::Flag(flag) => serde_json::Value::from(*flag),
            Value::Number(number) => serde_json::Value::from(*number),
        };
        map.insert(field.key.clone(), value);
    }
    serde_json::Value::Object(map)
}

#[test]
fn camel_case_of_field_names() {
    assert_eq!(to_camel_case("auth_level"), "authLevel");
    assert_eq!(to_camel_case("web_hook_type"), "webHookType");
    assert_eq!(to_camel_case("name"), "name");
    assert_eq!(to_camel_case("run_on_startup"), "runOnStartup");
    assert_eq!(to_camel_case("event_hub_name"), "eventHubName");
}

#[test]
fn camel_case_edge_cases() {
    assert_eq!(to_camel_case(""), "");
    assert_eq!(to_camel_case("_"), "");
    assert_eq!(to_camel_case("___"), "");
    assert_eq!(to_camel_case("_x"), "x");
    assert_eq!(to_camel_case("x_"), "x");
    assert_eq!(to_camel_case("a__b"), "aB");
    assert_eq!(to_camel_case("Already"), "already");
    assert_eq!(to_camel_case("ABC"), "aBC");
    assert_eq!(to_camel_case("camelCase"), "camelCase");
    assert_eq!(to_camel_case("a_1_b"), "a1B");
    assert_eq!(to_camel_case("é_é"), "éé");
}

#[test]
fn upper_and_lower_touch_ascii_letters_only() {
    assert_eq!(to_upper('a'), 'A');
    assert_eq!(to_upper('z'), 'Z');
    assert_eq!(to_upper('A'), 'A');
    assert_eq!(to_upper('_'), '_');
    assert_eq!(to_upper('`'), '`');
    assert_eq!(to_upper('{'), '{');
    assert_eq!(to_upper('ß'), 'ß');
    assert_eq!(to_lower('A'), 'a');
    assert_eq!(to_lower('Z'), 'z');
    assert_eq!(to_lower('a'), 'a');
    assert_eq!(to_lower('@'), '@');
    assert_eq!(to_lower('['), '[');
    assert_eq!(to_lower('É'), 'É');
}

#[test]
fn same_text_compares_characters() {
    assert!(same_text("", ""));
    assert!(same_text("name", "name"));
    assert!(!same_text("name", "Name"));
    assert!(!same_text("name", "names"));
}

#[test]
fn context_has_no_descriptor() {
    assert!(Binding::Context.descriptor().is_none());
}

#[test]
fn descriptor_lists_name_type_direction_then_the_arguments() {
    let arguments = vec![
        Argument::text("name", "req"),
        Argument::text("auth_level", "anonymous"),
        Argument::text("methods", "get|post"),
        Argument::flag("is_admin", false),
        Argument::number("max_size", 1024),
    ];
    let binding = Registries::standard()
        .resolve(Usage::Trigger, "HttpRequest", arguments, Span::call_site())
        .unwrap();
    let record = binding.descriptor().unwrap();
    assert_eq!(
        shown(&record),
        vec![
            pair("name", "\"req\""),
            pair("type", "\"httpTrigger\""),
            pair("direction", "\"in\""),
            pair("authLevel", "\"anonymous\""),
            pair("methods", "\"get|post\""),
            pair("isAdmin", "false"),
            pair("maxSize", "1024"),
        ]
    );
}

#[test]
fn descriptor_of_each_kind_has_three_leading_fields() {
    let kinds = [
        Kind::HttpTrigger,
        Kind::Http,
        Kind::TimerTrigger,
        Kind::QueueTrigger,
        Kind::Queue,
        Kind::BlobTrigger,
        Kind::Blob,
        Kind::Table,
        Kind::EventGridTrigger,
        Kind::EventHubTrigger,
        Kind::EventHub,
    ];
    for kind in kinds {
        let binding = kind.bind("p".to_string(), Vec::new());
        let record = binding.descriptor().unwrap();
        let keys: Vec<&str> = record.iter().map(|f| f.key.as_str()).collect();
        assert_eq!(keys, vec!["name", "type", "direction"], "{:?}", kind);
        assert_eq!(field_text(&record, "type"), Some(kind.binding_type()));
        assert_eq!(field_text(&record, "direction"), Some(kind.default_direction().token()));
    }
}

#[test]
fn descriptor_names_no_variant() {
    let binding = Registries::standard()
        .resolve(
            Usage::Output,
            "Blob",
            vec![Argument::text("name", "out"), Argument::text("path", "c/{id}")],
            Span::call_site(),
        )
        .unwrap();
    let record = binding.descriptor().unwrap();
    let json = json_of(&record);
    let object = json.as_object().unwrap();
    let mut keys: Vec<&str> = object.keys().map(|k| k.as_str()).collect();
    keys.sort();
    assert_eq!(keys, vec!["direction", "name", "path", "type"]);
    assert_eq!(
        serde_json::to_string(&json).unwrap(),
        "{\"direction\":\"out\",\"name\":\"out\",\"path\":\"c/{id}\",\"type\":\"blobTrigger\"}"
    );
}

#[test]
fn descriptor_gives_back_name_and_direction() {
    for (usage, role, direction) in [
        (Usage::Trigger, "BlobTrigger", Direction::In),
        (Usage::Input, "Blob", Direction::In),
        (Usage::InputOutput, "Blob", Direction::InOut),
        (Usage::Output, "Table", Direction::Out),
        (Usage::Output, "HttpResponse", Direction::Out),
    ] {
        let binding = Registries::standard()
            .resolve(
                usage,
                role,
                vec![Argument::text("connection", "c"), Argument::text("name", "param")],
                Span::call_site(),
            )
            .unwrap();
        let record = binding.descriptor().unwrap();
        assert_eq!(described_name(&record), binding.name());
        assert_eq!(described_name(&record), Some("param"));
        assert_eq!(described_direction(&record), binding.direction());
        assert_eq!(described_direction(&record), Some(direction));
    }
}

#[test]
fn first_field_of_a_key_counts() {
    let binding = Kind::Queue.bind(
        "q".to_string(),
        vec![Argument::text("name", "other"), Argument::text("direction", "in")],
    );
    let record = binding.descriptor().unwrap();
    assert_eq!(record.len(), 5);
    assert_eq!(described_name(&record), Some("q"));
    assert_eq!(described_direction(&record), Some(Direction::Out));
}

#[test]
fn field_text_of_records_written_by_hand() {
    let record = vec![
        Field { key: "take".to_string(), value: Value::Number(3) },
        text_field("direction", "sideways"),
        text_field("take", "late"),
    ];
    assert_eq!(field_text(&record, "take"), None);
    assert_eq!(field_text(&record, "direction"), Some("sideways"));
    assert_eq!(field_text(&record, "name"), None);
    assert_eq!(described_name(&record), None);
    assert_eq!(described_direction(&record), None);
    assert_eq!(described_direction(&Vec::new()), None);
}

#[test]
fn descriptors_of_a_pair_differ_in_direction_not_in_type() {
    let trigger = Kind::QueueTrigger.bind("q".to_string(), Vec::new()).descriptor().unwrap();
    let message = Kind::Queue.bind("q".to_string(), Vec::new()).descriptor().unwrap();
    assert_eq!(field_text(&trigger, "type"), Some("queueTrigger"));
    assert_eq!(field_text(&message, "type"), Some("queueTrigger"));
    assert_eq!(described_direction(&trigger), Some(Direction::In));
    assert_eq!(described_direction(&message), Some(Direction::Out));
}
