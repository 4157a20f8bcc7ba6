//! The renderer for the client with the nested markup format: one rule set
//! for each account, one rule for each filter, one part for each value of
//! each condition and one for each action.

use vstd::prelude::*;
use vstd::string::StringExecFns;
use crate::configuration::{
    AccountView, Action, ActionView, Condition, ConditionKind, ConditionView, Configuration,
    ConfigurationView, Field, MessageFilter, MessageFilterView, filter_views,
};
use crate::printer::result_view;
use crate::xml::{
    XmlDocument, XmlElement, XmlElementBuilder, XmlTextElementBuilder, attr, leaf_text, node_text,
    prolog,
};

pub mod laws;

verus! {

/// Why a configuration cannot be rendered for this client.
#[derive(Debug, Clone, Copy, PartialEq, Eq)]
pub enum Error {
    /// An account has no `evolution_id`.
    MissingEvolutionId,
}

impl Error {
    /// The error in words.
    pub fn to_string(&self) -> (text: String)
        ensures
            text@ == "evolution_id is missing"@,
    {
        match self {
            Error::MissingEvolutionId => String::from_str("evolution_id is missing"),
        }
    }
}

/// The name of `field` in this client.
pub open spec fn field_text(field: Field) -> Seq<char> {
    match field {
        Field::From => "sender"@,
    }
}

/// The name of a kind of condition in this client.
pub open spec fn kind_text(kind: ConditionKind) -> Seq<char> {
    match kind {
        ConditionKind::Contains => "contains"@,
        ConditionKind::EndsWith => "ends with"@,
    }
}

/// The address of a folder of an account.
pub open spec fn folder_text(account: Seq<char>, folder: Seq<char>) -> Seq<char> {
    "folder://"@ + account + "/"@ + folder
}

/// The part that tests `field` against one value: the kind of the test,
/// then the value as text.
pub open spec fn value_part(field: Seq<char>, kind: Seq<char>, value: Seq<char>) -> Seq<char> {
    node_text(
        "part"@,
        seq![attr("name"@, field)],
        seq![
            node_text(
                "value"@,
                seq![attr("name"@, field + "-type"@), attr("type"@, "option"@), attr("value"@, kind)],
                Seq::empty(),
            ),
            node_text(
                "value"@,
                seq![attr("name"@, field), attr("type"@, "string"@), attr("allow-empty"@, "false"@)],
                seq![leaf_text("string"@, Seq::empty(), value)],
            ),
        ],
    )
}

/// The parts of one condition: one for each of its values, in order.
pub open spec fn condition_parts(condition: ConditionView) -> Seq<Seq<char>> {
    condition.values.map_values(
        |value: Seq<char>|
            value_part(field_text(condition.field), kind_text(condition.kind), value),
    )
}

/// The parts of `conditions`, in order: siblings, not grouped by condition.
pub open spec fn conditions_parts(conditions: Seq<ConditionView>) -> Seq<Seq<char>>
    decreases conditions.len(),
{
    if conditions.len() == 0 {
        Seq::empty()
    } else {
        conditions_parts(conditions.drop_last()) + condition_parts(conditions.last())
    }
}

/// The part of one action, in the account `id`.
pub open spec fn action_part(id: Seq<char>, action: ActionView) -> Seq<char> {
    match action {
        ActionView::MoveTo { folder } => node_text(
            "part"@,
            seq![attr("name"@, "move-to-folder"@)],
            seq![
                node_text(
                    "value"@,
                    seq![attr("name"@, "folder"@), attr("type"@, "folder"@)],
                    seq![
                        node_text(
                            "folder"@,
                            seq![attr("uri"@, folder_text(id, folder))],
                            Seq::empty(),
                        ),
                    ],
                ),
            ],
        ),
    }
}

/// The parts of `actions`: one for each, in order.
pub open spec fn action_parts(id: Seq<char>, actions: Seq<ActionView>) -> Seq<Seq<char>> {
    actions.map_values(|action: ActionView| action_part(id, action))
}

/// The rule of one filter, in the account `id`: its title, the parts of
/// its conditions, the parts of its actions.
pub open spec fn rule_text(id: Seq<char>, filter: MessageFilterView) -> Seq<char> {
    node_text(
        "rule"@,
        seq![
            attr("enabled"@, "true"@),
            attr("grouping"@, "any"@),
            attr("source"@, "incoming"@),
        ],
        seq![
            leaf_text("title"@, Seq::empty(), filter.title),
            node_text("partset"@, Seq::empty(), conditions_parts(filter.conditions)),
            node_text("actionset"@, Seq::empty(), action_parts(id, filter.actions)),
        ],
    )
}

/// The rules of `filters`: one for each, in order.
pub open spec fn rules(id: Seq<char>, filters: Seq<MessageFilterView>) -> Seq<Seq<char>> {
    filters.map_values(|filter: MessageFilterView| rule_text(id, filter))
}

/// The rule set of an account that has its identifier.
pub open spec fn rule_set_text(account: AccountView) -> Seq<char>
    recommends
        account.evolution_id is Some,
{
    node_text("ruleset"@, Seq::empty(), rules(account.evolution_id->0, account.message_filters))
}

/// The rule sets of `accounts`: one for each, in order.
pub open spec fn rule_sets(accounts: Seq<AccountView>) -> Seq<Seq<char>> {
    accounts.map_values(|account: AccountView| rule_set_text(account))
}

/// Every account has the identifier that this client needs.
pub open spec fn renderable(config: ConfigurationView) -> bool {
    forall|i: int|
        0 <= i < config.accounts.len() ==> (#[trigger] config.accounts[i]).evolution_id is Some
}

/// The document of `config`: the prolog, then one element that holds the
/// rule sets.
pub open spec fn document_text(config: ConfigurationView) -> Seq<char> {
    prolog() + node_text("filteroptions"@, Seq::empty(), rule_sets(config.accounts))
}

/// What rendering `config` gives: the document where every account has its
/// identifier, the error otherwise.
pub open spec fn rendered(config: ConfigurationView) -> Result<Seq<char>, Error> {
    if renderable(config) {
        Ok(document_text(config))
    } else {
        Err(Error::MissingEvolutionId)
    }
}

/// Renders `config` as a nested markup document. Fails, with no document,
/// if and only if an account has no `evolution_id`.
pub fn print_config(config: Configuration) -> (result: Result<String, Error>)
    ensures
        result_view(result) == rendered(config@),
{
    let mut document = XmlDocument::new();
    let mut filter_options = XmlElementBuilder::new("filteroptions");
    let mut i: usize = 0;
    while i < config.accounts.len()
        invariant
            i <= config.accounts.len(),
            forall|k: int| 0 <= k < i ==> (#[trigger] config@.accounts[k]).evolution_id is Some,
            filter_options.tag_text() == "filteroptions"@,
            filter_options.attr_list() == Seq::<(Seq<char>, Seq<char>)>::empty(),
            filter_options.child_list() == rule_sets(config@.accounts.take(i as int)),
        decreases config.accounts.len() - i,
    {
        let account = &config.accounts[i];
        assert(config@.accounts[i as int] == account@);
        match &account.evolution_id {
            None => {
                return Err(Error::MissingEvolutionId);
            },
            Some(evolution_id) => {
                let rule_set = render_rule_set(evolution_id.as_str(), &account.message_filters);
                filter_options.append_child(rule_set);
            },
        }
        i += 1;
    }
    proof {
        assert(config@.accounts.take(i as int) =~= config@.accounts);
    }
    document.append_element(filter_options.build());
    Ok(document.to_string())
}

/// The rule set of the account `id` with the filters `filters`.
fn render_rule_set(id: &str, filters: &Vec<MessageFilter>) -> (element: XmlElement)
    ensures
        element@ == node_text("ruleset"@, Seq::empty(), rules(id@, filter_views(filters@))),
{
    let ghost views = filter_views(filters@);
    let mut rule_set = XmlElementBuilder::new("ruleset");
    let mut i: usize = 0;
    while i < filters.len()
        invariant
            i <= filters.len(),
            views == filter_views(filters@),
            rule_set.tag_text() == "ruleset"@,
            rule_set.attr_list() == Seq::<(Seq<char>, Seq<char>)>::empty(),
            rule_set.child_list() == rules(id@, views.take(i as int)),
        decreases filters.len() - i,
    {
        let rule = render_rule(id, &filters[i]);
        rule_set.append_child(rule);
        i += 1;
    }
    proof {
        assert(views.take(i as int) =~= views);
    }
    rule_set.build()
}

/// The rule of `filter` in the account `id`.
fn render_rule(id: &str, filter: &MessageFilter) -> (element: XmlElement)
    ensures
        element@ == rule_text(id@, filter@),
{
    let mut rule = XmlElementBuilder::new("rule");
    rule.append_attr("enabled", "true").append_attr("grouping", "any").append_attr(
        "source",
        "incoming",
    );

    let mut title = XmlTextElementBuilder::new("title");
    title.append_text(filter.title.as_str());
    let title_element = title.build();
    rule.append_child(title_element);

    let mut part_set = XmlElementBuilder::new("partset");
    let mut i: usize = 0;
    while i < filter.conditions.len()
        invariant
            i <= filter.conditions.len(),
            part_set.tag_text() == "partset"@,
            part_set.attr_list() == Seq::<(Seq<char>, Seq<char>)>::empty(),
            part_set.child_list() == conditions_parts(filter@.conditions.take(i as int)),
        decreases filter.conditions.len() - i,
    {
        append_condition_parts(&mut part_set, &filter.conditions[i]);
        proof {
            let after = filter@.conditions.take(i + 1);
            assert(after.drop_last() =~= filter@.conditions.take(i as int));
        }
        i += 1;
    }
    proof {
        assert(filter@.conditions.take(i as int) =~= filter@.conditions);
    }
    let part_set_element = part_set.build();
    rule.append_child(part_set_element);

    let mut action_set = XmlElementBuilder::new("actionset");
    let mut j: usize = 0;
    while j < filter.actions.len()
        invariant
            j <= filter.actions.len(),
            action_set.tag_text() == "actionset"@,
            action_set.attr_list() == Seq::<(Seq<char>, Seq<char>)>::empty(),
            action_set.child_list() == action_parts(id@, filter@.actions.take(j as int)),
        decreases filter.actions.len() - j,
    {
        let part = render_action_part(id, &filter.actions[j]);
        action_set.append_child(part);
        j += 1;
    }
    proof {
        assert(filter@.actions.take(j as int) =~= filter@.actions);
    }
    let action_set_element = action_set.build();
    rule.append_child(action_set_element);
    proof {
        assert(rule.attr_list() =~= seq![
            attr("enabled"@, "true"@),
            attr("grouping"@, "any"@),
            attr("source"@, "incoming"@),
        ]);
        assert(rule.child_list() =~= seq![title_element@, part_set_element@, action_set_element@]);
    }
    rule.build()
}

/// Appends the parts of one condition: one for each of its values.
fn append_condition_parts(part_set: &mut XmlElementBuilder, condition: &Condition)
    ensures
        final(part_set).tag_text() == old(part_set).tag_text(),
        final(part_set).attr_list() == old(part_set).attr_list(),
        final(part_set).child_list() == old(part_set).child_list() + condition_parts(condition@),
{
    let (kind, field, values) = match condition {
        Condition::Contains(contains) => ("contains", &contains.field, &contains.values),
        Condition::EndsWith(ends_with) => ("ends with", &ends_with.field, &ends_with.values),
    };
    let ghost all = condition_parts(condition@);
    let field = format_field(field);
    let mut i: usize = 0;
    while i < values.len()
        invariant
            i <= values.len(),
            all.len() == values.len(),
            forall|k: int|
                0 <= k < values.len() ==> #[trigger] all[k] == value_part(
                    field@,
                    kind@,
                    values@[k]@,
                ),
            part_set.tag_text() == old(part_set).tag_text(),
            part_set.attr_list() == old(part_set).attr_list(),
            part_set.child_list() == old(part_set).child_list() + all.take(i as int),
        decreases values.len() - i,
    {
        let part = render_value_part(field.as_str(), kind, values[i].as_str());
        part_set.append_child(part);
        i += 1;
    }
}

/// The part that tests `field` against `value` in the way `kind`.
fn render_value_part(field: &str, kind: &str, value: &str) -> (element: XmlElement)
    ensures
        element@ == value_part(field@, kind@, value@),
{
    let mut xml_part = XmlElementBuilder::new("part");
    xml_part.append_attr("name", field);

    let mut kind_key = String::from_str(field);
    kind_key.append("-type");
    let mut kind_value = XmlElementBuilder::new("value");
    kind_value.append_attr("name", kind_key.as_str()).append_attr("type", "option").append_attr(
        "value",
        kind,
    );
    let kind_element = kind_value.build();
    xml_part.append_child(kind_element);

    let mut string = XmlTextElementBuilder::new("string");
    string.append_text(value);
    let string_element = string.build();
    let mut text_value = XmlElementBuilder::new("value");
    text_value.append_attr("name", field).append_attr("type", "string").append_attr(
        "allow-empty",
        "false",
    );
    text_value.append_child(string_element);
    let text_element = text_value.build();
    xml_part.append_child(text_element);

    proof {
        assert(kind_value.attr_list() =~= seq![
            attr("name"@, field@ + "-type"@),
            attr("type"@, "option"@),
            attr("value"@, kind@),
        ]);
        assert(text_value.attr_list() =~= seq![
            attr("name"@, field@),
            attr("type"@, "string"@),
            attr("allow-empty"@, "false"@),
        ]);
        assert(xml_part.child_list() =~= seq![kind_element@, text_element@]);
    }
    xml_part.build()
}

/// The part of `action` in the account `id`.
fn render_action_part(id: &str, action: &Action) -> (element: XmlElement)
    ensures
        element@ == action_part(id@, action@),
{
    match action {
        Action::MoveTo(move_to) => {
            let uri = format_folder(id, move_to.folder.as_str());
            let mut folder = XmlElementBuilder::new("folder");
            folder.append_attr("uri", uri.as_str());
            let folder_element = folder.build();

            let mut value = XmlElementBuilder::new("value");
            value.append_attr("name", "folder").append_attr("type", "folder");
            value.append_child(folder_element);
            let value_element = value.build();

            let mut part = XmlElementBuilder::new("part");
            part.append_attr("name", "move-to-folder");
            part.append_child(value_element);

            proof {
                assert(value.attr_list() =~= seq![attr("name"@, "folder"@), attr("type"@, "folder"@)]);
            }
            part.build()
        },
    }
}

/// The name of `field` in this client.
pub fn format_field(field: &Field) -> (text: String)
    ensures
        text@ == field_text(*field),
{
    match field {
        Field::From => String::from_str("sender"),
    }
}

/// The address of the folder `folder` of the account `account`.
pub fn format_folder(account: &str, folder: &str) -> (text: String)
    ensures
        text@ == folder_text(account@, folder@),
{
    let mut text = String::from_str("folder://");
    text.append(account);
    text.append("/");
    text.append(folder);
    text
}

} // verus!
