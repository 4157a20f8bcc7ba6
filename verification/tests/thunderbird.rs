use mail_filters::configuration::{
    Account, Action, Condition, Configuration, Contains, EndsWith, Field, MessageFilter, MoveTo,
};
use mail_filters::dat::DatDocument;
use mail_filters::printer::thunderbird::{
    append_filter, format_condition, format_field, format_folder, print_config, Error,
};

fn ends_with(values: &[&str]) -> Condition {
    Condition::EndsWith(EndsWith {
        field: Field::From,
        values: values.iter().map(|v| v.to_string()).collect(),
    })
}

fn contains(values: &[&str]) -> Condition {
    Condition::Contains(Contains {
        field: Field::From,
        values: values.iter().map(|v| v.to_string()).collect(),
    })
}

fn move_to(folder: &str) -> Action {
    Action::MoveTo(MoveTo { folder: folder.to_owned() })
}

fn account(id: Option<&str>, message_filters: Vec<MessageFilter>) -> Account {
    Account {
        evolution_id: None,
        thunderbird_id: id.map(|s| s.to_owned()),
        message_filters,
    }
}

#[test]
fn test_format_one_condition() {
    assert_eq!(
        format_condition(&[Condition::EndsWith(EndsWith {
            field: Field::From,
            values: vec!["@example.com".to_owned()]
        })]),
        "AND (from,ends with,@example.com)"
    );
}

#[test]
fn test_format_multiple_conditions() {
    assert_eq!(
        format_condition(&[Condition::EndsWith(EndsWith {
            field: Field::From,
            values: vec!["@example.com".to_owned(), "@test.com".to_owned()]
        })]),
        "OR (from,ends with,@example.com) OR (from,ends with,@test.com)"
    );
}

#[test]
fn thunderbird_test_print_config() {
    let config = Configuration {
        accounts: vec![Account {
            evolution_id: Some("evolution".to_owned()),
            thunderbird_id: Some("thunderbird".to_owned()),
            message_filters: vec![
                MessageFilter {
                    title: "DigitalOcean".to_owned(),
                    conditions: vec![Condition::EndsWith(EndsWith {
                        field: Field::From,
                        values: vec!["@digitalocean.com".to_owned()],
                    })],
                    actions: vec![Action::MoveTo(MoveTo {
                        folder: "do".to_owned(),
                    })],
                },
                MessageFilter {
                    title: "Amazon".to_owned(),
                    conditions: vec![Condition::Contains(Contains {
                        field: Field::From,
                        values: vec!["@amazon.".to_owned()],
                    })],
                    actions: vec![Action::MoveTo(MoveTo {
                        folder: "amzn".to_owned(),
                    })],
                },
            ],
        }],
    };

    assert_eq!(
        print_config(config).unwrap(),
        vec![
            "version=\"9\"",
            "logging=\"no\"",
            "name=\"DigitalOcean\"",
            "enabled=\"yes\"",
            "type=\"17\"",
            "action=\"Move to folder\"",
            "actionValue=\"imap://thunderbird/do\"",
            "condition=\"AND (from,ends with,@digitalocean.com)\"",
            "name=\"Amazon\"",
            "enabled=\"yes\"",
            "type=\"17\"",
            "action=\"Move to folder\"",
            "actionValue=\"imap://thunderbird/amzn\"",
            "condition=\"AND (from,contains,@amazon.)\""
        ]
        .join("\n")
    );
}

#[test]
fn contains_with_one_value_is_an_and_clause() {
    assert_eq!(format_condition(&[contains(&["@amazon."])]), "AND (from,contains,@amazon.)");
}

#[test]
fn contains_with_three_values_is_three_or_terms() {
    assert_eq!(
        format_condition(&[contains(&["a", "b", "c"])]),
        "OR (from,contains,a) OR (from,contains,b) OR (from,contains,c)"
    );
}

#[test]
fn clauses_of_several_conditions_are_joined_by_a_space() {
    assert_eq!(
        format_condition(&[ends_with(&["@x.org"]), contains(&["p", "q"])]),
        "AND (from,ends with,@x.org) OR (from,contains,p) OR (from,contains,q)"
    );
}

#[test]
fn no_conditions_give_an_empty_condition() {
    assert_eq!(format_condition(&[]), "");
}

#[test]
fn a_condition_without_values_gives_an_empty_clause() {
    assert_eq!(format_condition(&[ends_with(&[])]), "");
    assert_eq!(
        format_condition(&[ends_with(&[]), contains(&["a"])]),
        " AND (from,contains,a)"
    );
}

#[test]
fn thunderbird_field_and_folder() {
    assert_eq!(format_field(&Field::From), "from");
    assert_eq!(format_folder("imap", "thunderbird", "amzn"), "imap://thunderbird/amzn");
    assert_eq!(format_folder("mailbox", "a", "b/c"), "mailbox://a/b/c");
}

#[test]
fn append_filter_appends_six_lines() {
    let mut doc = DatDocument { lines: Vec::new() };
    append_filter(&mut doc, "Amazon", "imap://thunderbird/amzn", &[contains(&["@amazon."])]);
    assert_eq!(
        doc.lines,
        vec![
            "name=\"Amazon\"".to_owned(),
            "enabled=\"yes\"".to_owned(),
            "type=\"17\"".to_owned(),
            "action=\"Move to folder\"".to_owned(),
            "actionValue=\"imap://thunderbird/amzn\"".to_owned(),
            "condition=\"AND (from,contains,@amazon.)\"".to_owned(),
        ]
    );
}

#[test]
fn thunderbird_missing_identifier_is_an_error() {
    let config = Configuration {
        accounts: vec![Account {
            evolution_id: Some("evolution".to_owned()),
            thunderbird_id: None,
            message_filters: vec![MessageFilter {
                title: "Amazon".to_owned(),
                conditions: vec![contains(&["@amazon."])],
                actions: vec![move_to("amzn")],
            }],
        }],
    };
    assert_eq!(print_config(config), Err(Error::MissingThunderbirdId));
}

#[test]
fn thunderbird_missing_identifier_without_filters_is_an_error() {
    let config = Configuration { accounts: vec![account(None, Vec::new())] };
    assert_eq!(print_config(config), Err(Error::MissingThunderbirdId));
}

#[test]
fn thunderbird_missing_identifier_after_a_good_account_gives_no_document() {
    let filter = MessageFilter {
        title: "A".to_owned(),
        conditions: vec![contains(&["a"])],
        actions: vec![move_to("a")],
    };
    let config = Configuration {
        accounts: vec![account(Some("first"), vec![filter]), account(None, Vec::new())],
    };
    assert_eq!(print_config(config), Err(Error::MissingThunderbirdId));
}

#[test]
fn thunderbird_error_in_words() {
    assert_eq!(Error::MissingThunderbirdId.to_string(), "thunderbird_id is missing");
}

#[test]
fn thunderbird_no_accounts_give_the_preamble() {
    let config = Configuration { accounts: Vec::new() };
    assert_eq!(print_config(config).unwrap(), "version=\"9\"\nlogging=\"no\"");
}

#[test]
fn thunderbird_filter_without_actions_gives_no_record() {
    let config = Configuration {
        accounts: vec![account(
            Some("tb"),
            vec![MessageFilter {
                title: "Idle".to_owned(),
                conditions: vec![contains(&["a"])],
                actions: Vec::new(),
            }],
        )],
    };
    assert_eq!(print_config(config).unwrap(), "version=\"9\"\nlogging=\"no\"");
}

#[test]
fn thunderbird_filter_without_conditions_gives_an_empty_condition() {
    let config = Configuration {
        accounts: vec![account(
            Some("tb"),
            vec![MessageFilter {
                title: "All".to_owned(),
                conditions: Vec::new(),
                actions: vec![move_to("all")],
            }],
        )],
    };
    assert_eq!(
        print_config(config).unwrap(),
        vec![
            "version=\"9\"",
            "logging=\"no\"",
            "name=\"All\"",
            "enabled=\"yes\"",
            "type=\"17\"",
            "action=\"Move to folder\"",
            "actionValue=\"imap://tb/all\"",
            "condition=\"\"",
        ]
        .join("\n")
    );
}

#[test]
fn thunderbird_one_record_for_each_action_in_model_order() {
    let config = Configuration {
        accounts: vec![
            account(
                Some("one"),
                vec![MessageFilter {
                    title: "F".to_owned(),
                    conditions: vec![ends_with(&["@a", "@b"])],
                    actions: vec![move_to("x"), move_to("y")],
                }],
            ),
            account(
                Some("two"),
                vec![MessageFilter {
                    title: "G".to_owned(),
                    conditions: vec![contains(&["c"])],
                    actions: vec![move_to("z")],
                }],
            ),
        ],
    };
    assert_eq!(
        print_config(config).unwrap(),
        vec![
            "version=\"9\"",
            "logging=\"no\"",
            "name=\"F\"",
            "enabled=\"yes\"",
            "type=\"17\"",
            "action=\"Move to folder\"",
            "actionValue=\"imap://one/x\"",
            "condition=\"OR (from,ends with,@a) OR (from,ends with,@b)\"",
            "name=\"F\"",
            "enabled=\"yes\"",
            "type=\"17\"",
            "action=\"Move to folder\"",
            "actionValue=\"imap://one/y\"",
            "condition=\"OR (from,ends with,@a) OR (from,ends with,@b)\"",
            "name=\"G\"",
            "enabled=\"yes\"",
            "type=\"17\"",
            "action=\"Move to folder\"",
            "actionValue=\"imap://two/z\"",
            "condition=\"AND (from,contains,c)\"",
        ]
        .join("\n")
    );
}

#[test]
fn thunderbird_rendering_twice_gives_the_same_text() {
    let make = || Configuration {
        accounts: vec![account(
            Some("tb"),
            vec![MessageFilter {
                title: "T".to_owned(),
                conditions: vec![contains(&["a", "b"]), ends_with(&["c"])],
                actions: vec![move_to("m"), move_to("n")],
            }],
        )],
    };
    assert_eq!(print_config(make()), print_config(make()));
}
