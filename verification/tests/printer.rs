use mail_filters::configuration::{
    Account, Action, Condition, Configuration, Contains, Field, MessageFilter, MoveTo,
};
use mail_filters::printer::{evolution, print_config, thunderbird, Error, PrintFormat};

fn config(evolution_id: Option<&str>, thunderbird_id: Option<&str>) -> Configuration {
    Configuration {
        accounts: vec![Account {
            evolution_id: evolution_id.map(|s| s.to_owned()),
            thunderbird_id: thunderbird_id.map(|s| s.to_owned()),
            message_filters: vec![MessageFilter {
                title: "Amazon".to_owned(),
                conditions: vec![Condition::Contains(Contains {
                    field: Field::From,
                    values: vec!["@amazon.".to_owned()],
                })],
                actions: vec![Action::MoveTo(MoveTo { folder: "amzn".to_owned() })],
            }],
        }],
    }
}

#[test]
fn each_format_gives_the_document_of_its_renderer() {
    assert_eq!(
        print_config(config(Some("e"), Some("t")), PrintFormat::Evolution).unwrap(),
        evolution::print_config(config(Some("e"), Some("t"))).unwrap()
    );
    assert_eq!(
        print_config(config(Some("e"), Some("t")), PrintFormat::Thunderbird).unwrap(),
        thunderbird::print_config(config(Some("e"), Some("t"))).unwrap()
    );
}

#[test]
fn flat_record_document_of_one_filter() {
    assert_eq!(
        print_config(config(None, Some("thunderbird")), PrintFormat::Thunderbird).unwrap(),
        vec![
            "version=\"9\"",
            "logging=\"no\"",
            "name=\"Amazon\"",
            "enabled=\"yes\"",
            "type=\"17\"",
            "action=\"Move to folder\"",
            "actionValue=\"imap://thunderbird/amzn\"",
            "condition=\"AND (from,contains,@amazon.)\"",
        ]
        .join("\n")
    );
}

#[test]
fn missing_identifier_names_the_target() {
    assert_eq!(
        print_config(config(None, Some("t")), PrintFormat::Evolution),
        Err(Error::MissingIdentifier { target: PrintFormat::Evolution })
    );
    assert_eq!(
        print_config(config(Some("e"), None), PrintFormat::Thunderbird),
        Err(Error::MissingIdentifier { target: PrintFormat::Thunderbird })
    );
}

#[test]
fn the_other_identifier_is_not_needed() {
    assert!(print_config(config(Some("e"), None), PrintFormat::Evolution).is_ok());
    assert!(print_config(config(None, Some("t")), PrintFormat::Thunderbird).is_ok());
}

#[test]
fn the_other_identifier_does_not_change_the_document() {
    assert_eq!(
        print_config(config(Some("e"), None), PrintFormat::Evolution),
        print_config(config(Some("e"), Some("other")), PrintFormat::Evolution)
    );
    assert_eq!(
        print_config(config(None, Some("t")), PrintFormat::Thunderbird),
        print_config(config(Some("other"), Some("t")), PrintFormat::Thunderbird)
    );
}

#[test]
fn missing_identifier_in_words() {
    assert_eq!(
        Error::MissingIdentifier { target: PrintFormat::Evolution }.to_string(),
        "evolution_id is missing"
    );
    assert_eq!(
        Error::MissingIdentifier { target: PrintFormat::Thunderbird }.to_string(),
        "thunderbird_id is missing"
    );
}

#[test]
fn rendering_twice_gives_the_same_result() {
    for format in [PrintFormat::Evolution, PrintFormat::Thunderbird] {
        assert_eq!(
            print_config(config(Some("e"), Some("t")), format),
            print_config(config(Some("e"), Some("t")), format)
        );
        assert_eq!(print_config(config(None, None), format), print_config(config(None, None), format));
    }
}
