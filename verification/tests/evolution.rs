use mail_filters::configuration::{
    Account, Action, Condition, Configuration, Contains, EndsWith, Field, MessageFilter, MoveTo,
};
use mail_filters::printer::evolution::{format_field, format_folder, print_config, Error};
use mail_filters::printer::thunderbird;

fn filter(title: &str, conditions: Vec<Condition>, folders: &[&str]) -> MessageFilter {
    MessageFilter {
        title: title.to_owned(),
        conditions,
        actions: folders
            .iter()
            .map(|f| Action::MoveTo(MoveTo { folder: f.to_string() }))
            .collect(),
    }
}

fn ends_with(values: &[&str]) -> Condition {
    Condition::EndsWith(EndsWith {
        field: Field::From,
        values: values.iter().map(|v| v.to_string()).collect(),
    })
}

fn contains(values: &[&str]) -> Condition {
    Condition::Contains(Contains {
        field: Field::From,
        values: values.iter().map(|v| v.to_string()).collect(),
    })
}

fn count(text: &str, pattern: &str) -> usize {
    text.matches(pattern).count()
}

#[test]
fn evolution_test_print_config() {
    let config = Configuration {
        accounts: vec![Account {
            evolution_id: Some("evolution".to_owned()),
            thunderbird_id: Some("thunderbird".to_owned()),
            message_filters: vec![
                MessageFilter {
                    title: "DigitalOcean".to_owned(),
                    conditions: vec![Condition::EndsWith(EndsWith {
                        field: Field::From,
                        values: vec!["@digitalocean.com".to_owned()],
                    })],
                    actions: vec![Action::MoveTo(MoveTo {
                        folder: "do".to_owned(),
                    })],
                },
                MessageFilter {
                    title: "Amazon".to_owned(),
                    conditions: vec![Condition::Contains(Contains {
                        field: Field::From,
                        values: vec!["@amazon.".to_owned()],
                    })],
                    actions: vec![Action::MoveTo(MoveTo {
                        folder: "amzn".to_owned(),
                    })],
                },
            ],
        }],
    };

    assert_eq!(
        print_config(config).unwrap(),
        vec![
            "<?xml version=\"1.0\"?>",
            "<filteroptions>",
            "<ruleset>",
            "<rule enabled=\"true\" grouping=\"any\" source=\"incoming\">",
            "<title>DigitalOcean</title>",
            "<partset>",
            "<part name=\"sender\">",
            "<value name=\"sender-type\" type=\"option\" value=\"ends with\"></value>",
            "<value name=\"sender\" type=\"string\" allow-empty=\"false\">",
            "<string>@digitalocean.com</string>",
            "</value>",
            "</part>",
            "</partset>",
            "<actionset>",
            "<part name=\"move-to-folder\">",
            "<value name=\"folder\" type=\"folder\">",
            "<folder uri=\"folder://evolution/do\">",
            "</folder>",
            "</value>",
            "</part>",
            "</actionset>",
            "</rule>",
            "<rule enabled=\"true\" grouping=\"any\" source=\"incoming\">",
            "<title>Amazon</title>",
            "<partset>",
            "<part name=\"sender\">",
            "<value name=\"sender-type\" type=\"option\" value=\"contains\"></value>",
            "<value name=\"sender\" type=\"string\" allow-empty=\"false\">",
            "<string>@amazon.</string>",
            "</value>",
            "</part>",
            "</partset>",
            "<actionset>",
            "<part name=\"move-to-folder\">",
            "<value name=\"folder\" type=\"folder\">",
            "<folder uri=\"folder://evolution/amzn\">",
            "</folder>",
            "</value>",
            "</part>",
            "</actionset>",
            "</rule>",
            "</ruleset>",
            "</filteroptions>"
        ]
        .join("")
    );
}

#[test]
fn evolution_field_and_folder() {
    assert_eq!(format_field(&Field::From), "sender");
    assert_eq!(format_folder("evolution", "do"), "folder://evolution/do");
    assert_eq!(format_folder("", ""), "folder:///");
}

#[test]
fn evolution_missing_identifier_is_an_error() {
    let config = Configuration {
        accounts: vec![Account {
            evolution_id: None,
            thunderbird_id: Some("thunderbird".to_owned()),
            message_filters: vec![filter("A", vec![contains(&["a"])], &["a"])],
        }],
    };
    assert_eq!(print_config(config), Err(Error::MissingEvolutionId));
}

#[test]
fn evolution_missing_identifier_after_a_good_account_gives_no_document() {
    let config = Configuration {
        accounts: vec![
            Account {
                evolution_id: Some("e".to_owned()),
                thunderbird_id: None,
                message_filters: vec![filter("A", vec![contains(&["a"])], &["a"])],
            },
            Account { evolution_id: None, thunderbird_id: None, message_filters: Vec::new() },
        ],
    };
    assert_eq!(print_config(config), Err(Error::MissingEvolutionId));
}

#[test]
fn evolution_error_in_words() {
    assert_eq!(Error::MissingEvolutionId.to_string(), "evolution_id is missing");
}

#[test]
fn the_two_identifiers_are_checked_independently() {
    let make = || Configuration {
        accounts: vec![Account {
            evolution_id: Some("evolution".to_owned()),
            thunderbird_id: None,
            message_filters: vec![filter("A", vec![ends_with(&["@a"])], &["a"])],
        }],
    };
    assert_eq!(
        thunderbird::print_config(make()),
        Err(thunderbird::Error::MissingThunderbirdId)
    );
    assert!(print_config(make()).is_ok());
}

#[test]
fn evolution_no_accounts_give_an_empty_root() {
    let config = Configuration { accounts: Vec::new() };
    assert_eq!(
        print_config(config).unwrap(),
        "<?xml version=\"1.0\"?><filteroptions></filteroptions>"
    );
}

#[test]
fn evolution_account_without_filters_gives_an_empty_rule_set() {
    let config = Configuration {
        accounts: vec![Account {
            evolution_id: Some("e".to_owned()),
            thunderbird_id: None,
            message_filters: Vec::new(),
        }],
    };
    assert_eq!(
        print_config(config).unwrap(),
        "<?xml version=\"1.0\"?><filteroptions><ruleset></ruleset></filteroptions>"
    );
}

#[test]
fn evolution_filter_without_conditions_or_actions_gives_empty_sets() {
    let config = Configuration {
        accounts: vec![Account {
            evolution_id: Some("e".to_owned()),
            thunderbird_id: None,
            message_filters: vec![filter("Empty", Vec::new(), &[])],
        }],
    };
    assert_eq!(
        print_config(config).unwrap(),
        vec![
            "<?xml version=\"1.0\"?>",
            "<filteroptions>",
            "<ruleset>",
            "<rule enabled=\"true\" grouping=\"any\" source=\"incoming\">",
            "<title>Empty</title>",
            "<partset></partset>",
            "<actionset></actionset>",
            "</rule>",
            "</ruleset>",
            "</filteroptions>",
        ]
        .join("")
    );
}

#[test]
fn evolution_one_part_for_each_value_and_each_action() {
    let config = Configuration {
        accounts: vec![Account {
            evolution_id: Some("e".to_owned()),
            thunderbird_id: None,
            message_filters: vec![filter(
                "Many",
                vec![ends_with(&["@a", "@b", "@c"]), contains(&["d"])],
                &["x", "y"],
            )],
        }],
    };
    let text = print_config(config).unwrap();
    assert_eq!(count(&text, "<part name=\"sender\">"), 4);
    assert_eq!(count(&text, "value=\"ends with\""), 3);
    assert_eq!(count(&text, "value=\"contains\""), 1);
    assert_eq!(count(&text, "<part name=\"move-to-folder\">"), 2);
    assert_eq!(count(&text, "\n"), 0);
}

#[test]
fn evolution_output_follows_model_order() {
    let config = Configuration {
        accounts: vec![
            Account {
                evolution_id: Some("one".to_owned()),
                thunderbird_id: None,
                message_filters: vec![
                    filter("F1", vec![ends_with(&["v1", "v2"]), contains(&["v3"])], &["a1", "a2"]),
                    filter("F2", vec![contains(&["v4"])], &["a3"]),
                ],
            },
            Account {
                evolution_id: Some("two".to_owned()),
                thunderbird_id: None,
                message_filters: vec![filter("F3", vec![contains(&["v5"])], &["a4"])],
            },
        ],
    };
    let text = print_config(config).unwrap();
    let marks = [
        "<title>F1</title>",
        "<string>v1</string>",
        "<string>v2</string>",
        "<string>v3</string>",
        "folder://one/a1",
        "folder://one/a2",
        "<title>F2</title>",
        "<string>v4</string>",
        "folder://one/a3",
        "</ruleset><ruleset>",
        "<title>F3</title>",
        "<string>v5</string>",
        "folder://two/a4",
    ];
    let mut from: usize = 0;
    for mark in marks {
        let at = text[from..].find(mark);
        assert!(at.is_some());
        from += at.unwrap() + mark.len();
    }
}

#[test]
fn evolution_rendering_twice_gives_the_same_text() {
    let make = || Configuration {
        accounts: vec![Account {
            evolution_id: Some("e".to_owned()),
            thunderbird_id: None,
            message_filters: vec![filter("T", vec![contains(&["a", "b"])], &["m"])],
        }],
    };
    assert_eq!(print_config(make()), print_config(make()));
}
