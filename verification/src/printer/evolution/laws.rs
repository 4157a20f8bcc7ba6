//! What holds of every document in the nested markup format: the fixed
//! text of each element, the order and the number of the parts, and when
//! rendering fails.

use vstd::prelude::*;
use crate::configuration::{
    AccountView, ActionView, ConditionView, Configuration, ConfigurationView, MessageFilterView,
};
use crate::printer::result_view;
use crate::printer::evolution::{
    Error, action_part, action_parts, condition_parts, conditions_parts, document_text,
    field_text, folder_text, kind_text, renderable, rendered, rule_sets,
    rule_set_text, rule_text, rules, value_part,
};
use crate::text::{concat, join, lemma_concat_append};
use crate::xml::{attr, attrs_text, children_text, element_text, leaf_text, node_text};

verus! {

/// The number of values that `conditions` hold, all together.
pub open spec fn value_count(conditions: Seq<ConditionView>) -> nat
    decreases conditions.len(),
{
    if conditions.len() == 0 {
        0
    } else {
        value_count(conditions.drop_last()) + conditions.last().values.len()
    }
}

/// Rendering is a function of the configuration: two renderings of
/// configurations with the same view give the same text, or the same error.
pub proof fn lemma_rendering_is_deterministic(
    first: Configuration,
    second: Configuration,
    first_result: Result<String, Error>,
    second_result: Result<String, Error>,
)
    requires
        first@ == second@,
        result_view(first_result) == rendered(first@),
        result_view(second_result) == rendered(second@),
    ensures
        result_view(first_result) == result_view(second_result),
{
}

/// An account without its identifier makes the rendering fail, whatever
/// its filters and whatever the other accounts hold.
pub proof fn lemma_missing_identifier_fails(config: ConfigurationView, i: int)
    requires
        0 <= i < config.accounts.len(),
        config.accounts[i].evolution_id is None,
    ensures
        rendered(config) == Err::<Seq<char>, Error>(Error::MissingEvolutionId),
{
}

/// Where every account has its identifier the rendering succeeds, also
/// where filters have no conditions or no actions.
pub proof fn lemma_identifiers_suffice(config: ConfigurationView)
    requires
        renderable(config),
    ensures
        rendered(config) == Ok::<Seq<char>, Error>(document_text(config)),
{
}

/// Two configurations have the same accounts as far as this client reads
/// them: the same identifiers for it and the same filters.
pub open spec fn same_for_this_client(first: ConfigurationView, second: ConfigurationView) -> bool {
    &&& first.accounts.len() == second.accounts.len()
    &&& forall|i: int|
        0 <= i < first.accounts.len() ==> {
            &&& (#[trigger] first.accounts[i]).evolution_id == second.accounts[i].evolution_id
            &&& first.accounts[i].message_filters == second.accounts[i].message_filters
        }
}

/// The identifiers for the other client are not read: configurations that
/// differ in them alone give the same text, or the same error.
pub proof fn lemma_other_identifier_is_not_read(first: ConfigurationView, second: ConfigurationView)
    requires
        same_for_this_client(first, second),
    ensures
        rendered(first) == rendered(second),
{
    assert(renderable(first) == renderable(second)) by {
        if renderable(first) {
            assert forall|i: int| 0 <= i < second.accounts.len() implies (
            #[trigger] second.accounts[i]).evolution_id is Some by {
                assert(first.accounts[i].evolution_id is Some);
            }
        }
        if renderable(second) {
            assert forall|i: int| 0 <= i < first.accounts.len() implies (
            #[trigger] first.accounts[i]).evolution_id is Some by {
                assert(second.accounts[i].evolution_id is Some);
            }
        }
    }
    assert forall|i: int| 0 <= i < first.accounts.len() implies rule_sets(first.accounts)[i]
        == rule_sets(second.accounts)[i] by {
        assert(first.accounts[i].evolution_id == second.accounts[i].evolution_id);
    }
    assert(rule_sets(first.accounts) =~= rule_sets(second.accounts));
}

/// A condition gives exactly one part for each of its values, in the order
/// of the values.
pub proof fn lemma_one_part_for_each_value(condition: ConditionView)
    ensures
        condition_parts(condition).len() == condition.values.len(),
        forall|i: int|
            0 <= i < condition.values.len() ==> #[trigger] condition_parts(condition)[i]
                == value_part(
                field_text(condition.field),
                kind_text(condition.kind),
                condition.values[i],
            ),
{
}

/// The part set of a filter holds as many parts as its conditions hold
/// values.
pub proof fn lemma_part_count(conditions: Seq<ConditionView>)
    ensures
        conditions_parts(conditions).len() == value_count(conditions),
    decreases conditions.len(),
{
    if conditions.len() > 0 {
        lemma_part_count(conditions.drop_last());
    }
}

/// A filter gives exactly one part for each of its actions, in the order
/// of the actions.
pub proof fn lemma_one_part_for_each_action(id: Seq<char>, actions: Seq<ActionView>)
    ensures
        action_parts(id, actions).len() == actions.len(),
        forall|i: int|
            0 <= i < actions.len() ==> #[trigger] action_parts(id, actions)[i] == action_part(
                id,
                actions[i],
            ),
{
}

/// The parts of conditions stand in the order of the conditions.
pub proof fn lemma_conditions_in_order(first: Seq<ConditionView>, second: Seq<ConditionView>)
    ensures
        conditions_parts(first + second) == conditions_parts(first) + conditions_parts(second),
        children_text(conditions_parts(first + second)) == children_text(conditions_parts(first))
            + children_text(conditions_parts(second)),
    decreases second.len(),
{
    if second.len() == 0 {
        assert(first + second =~= first);
        assert(conditions_parts(first) + conditions_parts(second) =~= conditions_parts(first));
    } else {
        lemma_conditions_in_order(first, second.drop_last());
        assert((first + second).drop_last() =~= first + second.drop_last());
        assert(conditions_parts(first + second) =~= conditions_parts(first) + conditions_parts(
            second,
        ));
    }
    lemma_concat_append(conditions_parts(first), conditions_parts(second));
}

/// The parts of actions stand in the order of the actions.
pub proof fn lemma_actions_in_order(id: Seq<char>, first: Seq<ActionView>, second: Seq<ActionView>)
    ensures
        action_parts(id, first + second) == action_parts(id, first) + action_parts(id, second),
        children_text(action_parts(id, first + second)) == children_text(action_parts(id, first))
            + children_text(action_parts(id, second)),
{
    assert(action_parts(id, first + second) =~= action_parts(id, first) + action_parts(id, second));
    lemma_concat_append(action_parts(id, first), action_parts(id, second));
}

/// The rules of an account stand in the order of its filters.
pub proof fn lemma_filters_in_order(
    id: Seq<char>,
    first: Seq<MessageFilterView>,
    second: Seq<MessageFilterView>,
)
    ensures
        rules(id, first + second) == rules(id, first) + rules(id, second),
        children_text(rules(id, first + second)) == children_text(rules(id, first))
            + children_text(rules(id, second)),
{
    assert(rules(id, first + second) =~= rules(id, first) + rules(id, second));
    lemma_concat_append(rules(id, first), rules(id, second));
}

/// The rule sets of a document stand in the order of the accounts.
pub proof fn lemma_accounts_in_order(first: Seq<AccountView>, second: Seq<AccountView>)
    ensures
        rule_sets(first + second) == rule_sets(first) + rule_sets(second),
        children_text(rule_sets(first + second)) == children_text(rule_sets(first))
            + children_text(rule_sets(second)),
{
    assert(rule_sets(first + second) =~= rule_sets(first) + rule_sets(second));
    lemma_concat_append(rule_sets(first), rule_sets(second));
}

/// Without conditions the part set of a rule is empty, and without actions
/// its action set is: an opening and a closing tag with nothing between.
pub proof fn lemma_empty_collections(id: Seq<char>, filter: MessageFilterView)
    ensures
        filter.conditions.len() == 0 ==> node_text(
            "partset"@,
            Seq::empty(),
            conditions_parts(filter.conditions),
        ) == "<partset></partset>"@,
        filter.actions.len() == 0 ==> node_text(
            "actionset"@,
            Seq::empty(),
            action_parts(id, filter.actions),
        ) == "<actionset></actionset>"@,
{
    reveal_strlit("<");
    reveal_strlit(">");
    reveal_strlit("</");
    reveal_strlit(" ");
    reveal_strlit("partset");
    reveal_strlit("actionset");
    reveal_strlit("<partset></partset>");
    reveal_strlit("<actionset></actionset>");
    let none = Seq::<(Seq<char>, Seq<char>)>::empty();
    assert(attrs_text(none) =~= Seq::<char>::empty());
    if filter.conditions.len() == 0 {
        assert(children_text(conditions_parts(filter.conditions)) =~= Seq::<char>::empty());
        assert(node_text("partset"@, none, conditions_parts(filter.conditions))
            =~= "<partset></partset>"@);
    }
    if filter.actions.len() == 0 {
        assert(action_parts(id, filter.actions) =~= Seq::<Seq<char>>::empty());
        assert(children_text(action_parts(id, filter.actions)) =~= Seq::<char>::empty());
        assert(node_text("actionset"@, none, action_parts(id, filter.actions))
            =~= "<actionset></actionset>"@);
    }
}

/// An element without attributes is its tag in angle brackets, the
/// content, and the closing tag.
proof fn lemma_plain_element(tag: Seq<char>, content: Seq<char>)
    ensures
        element_text(tag, attrs_text(Seq::empty()), content) == "<"@ + tag + ">"@ + content + "</"@
            + tag + ">"@,
{
    assert(attrs_text(Seq::empty()) =~= Seq::<char>::empty());
}

/// The element that records the kind of a test, written out.
proof fn lemma_kind_value_shape(field: Seq<char>, kind: Seq<char>)
    ensures
        node_text(
            "value"@,
            seq![attr("name"@, field + "-type"@), attr("type"@, "option"@), attr("value"@, kind)],
            Seq::empty(),
        ) == "<value name=\""@ + field + "-type\" type=\"option\" value=\""@ + kind
            + "\"></value>"@,
{
    reveal_with_fuel(join, 4);
    reveal_strlit("<");
    reveal_strlit(">");
    reveal_strlit("</");
    reveal_strlit(" ");
    reveal_strlit("=");
    reveal_strlit("\"");
    reveal_strlit("value");
    reveal_strlit("name");
    reveal_strlit("type");
    reveal_strlit("option");
    reveal_strlit("-type");
    reveal_strlit("name=\"");
    reveal_strlit("<value name=\"");
    reveal_strlit("-type\" type=\"option\" value=\"");
    reveal_strlit("\"></value>");
    let attrs = attrs_text(
        seq![attr("name"@, field + "-type"@), attr("type"@, "option"@), attr("value"@, kind)],
    );
    assert(attrs =~= "name=\""@ + field + "-type\" type=\"option\" value=\""@ + kind + "\""@);
    assert(children_text(Seq::empty()) =~= Seq::<char>::empty());
    assert(element_text("value"@, attrs, Seq::empty()) =~= "<value name=\""@ + field
        + "-type\" type=\"option\" value=\""@ + kind + "\"></value>"@);
}

/// The element that holds the value of a test, written out.
proof fn lemma_text_value_shape(field: Seq<char>, inner: Seq<char>)
    ensures
        node_text(
            "value"@,
            seq![attr("name"@, field), attr("type"@, "string"@), attr("allow-empty"@, "false"@)],
            seq![inner],
        ) == "<value name=\""@ + field + "\" type=\"string\" allow-empty=\"false\">"@ + inner
            + "</value>"@,
{
    reveal_with_fuel(join, 4);
    reveal_with_fuel(concat, 2);
    reveal_strlit("<");
    reveal_strlit(">");
    reveal_strlit("</");
    reveal_strlit(" ");
    reveal_strlit("=");
    reveal_strlit("\"");
    reveal_strlit("value");
    reveal_strlit("name");
    reveal_strlit("type");
    reveal_strlit("string");
    reveal_strlit("allow-empty");
    reveal_strlit("false");
    reveal_strlit("name=\"");
    reveal_strlit("\" type=\"string\" allow-empty=\"false\"");
    reveal_strlit("<value name=\"");
    reveal_strlit("\" type=\"string\" allow-empty=\"false\">");
    reveal_strlit("</value>");
    let attrs = attrs_text(
        seq![attr("name"@, field), attr("type"@, "string"@), attr("allow-empty"@, "false"@)],
    );
    assert(attrs =~= "name=\""@ + field + "\" type=\"string\" allow-empty=\"false\""@);
    assert(children_text(seq![inner]) =~= inner);
    assert(element_text("value"@, attrs, inner) =~= "<value name=\""@ + field
        + "\" type=\"string\" allow-empty=\"false\">"@ + inner + "</value>"@);
}

/// The element that holds a value as text, written out.
proof fn lemma_string_shape(value: Seq<char>)
    ensures
        leaf_text("string"@, Seq::empty(), value) == "<string>"@ + value + "</string>"@,
{
    lemma_plain_element("string"@, value);
    reveal_strlit("<");
    reveal_strlit(">");
    reveal_strlit("</");
    reveal_strlit("string");
    reveal_strlit("<string>");
    reveal_strlit("</string>");
    assert("<"@ + "string"@ + ">"@ + value + "</"@ + "string"@ + ">"@ =~= "<string>"@ + value
        + "</string>"@);
}

/// A part with its name, written out.
proof fn lemma_part_shape(name: Seq<char>, children: Seq<Seq<char>>)
    ensures
        node_text("part"@, seq![attr("name"@, name)], children) == "<part name=\""@ + name + "\">"@
            + children_text(children) + "</part>"@,
{
    reveal_strlit("<");
    reveal_strlit(">");
    reveal_strlit("</");
    reveal_strlit(" ");
    reveal_strlit("=");
    reveal_strlit("\"");
    reveal_strlit("part");
    reveal_strlit("name");
    reveal_strlit("<part name=\"");
    reveal_strlit("\">");
    reveal_strlit("</part>");
    let attrs = attrs_text(seq![attr("name"@, name)]);
    assert(attrs =~= "name"@ + "="@ + "\""@ + name + "\""@);
    let inner = children_text(children);
    assert(element_text("part"@, attrs, inner) =~= "<part name=\""@ + name + "\">"@ + inner
        + "</part>"@);
}

/// The element that names the folder of an action, written out.
proof fn lemma_folder_shape(uri: Seq<char>)
    ensures
        node_text("folder"@, seq![attr("uri"@, uri)], Seq::empty()) == "<folder uri=\""@ + uri
            + "\"></folder>"@,
{
    reveal_strlit("<");
    reveal_strlit(">");
    reveal_strlit("</");
    reveal_strlit(" ");
    reveal_strlit("=");
    reveal_strlit("\"");
    reveal_strlit("folder");
    reveal_strlit("uri");
    reveal_strlit("<folder uri=\"");
    reveal_strlit("\"></folder>");
    let attrs = attrs_text(seq![attr("uri"@, uri)]);
    assert(attrs =~= "uri"@ + "="@ + "\""@ + uri + "\""@);
    assert(children_text(Seq::empty()) =~= Seq::<char>::empty());
    assert(element_text("folder"@, attrs, Seq::empty()) =~= "<folder uri=\""@ + uri
        + "\"></folder>"@);
}

/// The element that holds the folder of an action, written out.
proof fn lemma_folder_value_shape(inner: Seq<char>)
    ensures
        node_text(
            "value"@,
            seq![attr("name"@, "folder"@), attr("type"@, "folder"@)],
            seq![inner],
        ) == "<value name=\"folder\" type=\"folder\">"@ + inner + "</value>"@,
{
    reveal_with_fuel(join, 3);
    reveal_with_fuel(concat, 2);
    reveal_strlit("<");
    reveal_strlit(">");
    reveal_strlit("</");
    reveal_strlit(" ");
    reveal_strlit("=");
    reveal_strlit("\"");
    reveal_strlit("value");
    reveal_strlit("name");
    reveal_strlit("type");
    reveal_strlit("folder");
    reveal_strlit("name=\"folder\" type=\"folder\"");
    reveal_strlit("<value name=\"folder\" type=\"folder\">");
    reveal_strlit("</value>");
    let attrs = attrs_text(seq![attr("name"@, "folder"@), attr("type"@, "folder"@)]);
    assert(attrs =~= "name=\"folder\" type=\"folder\""@);
    assert(children_text(seq![inner]) =~= inner);
    assert(element_text("value"@, attrs, inner) =~= "<value name=\"folder\" type=\"folder\">"@
        + inner + "</value>"@);
}

/// The opening tag of a rule, written out.
proof fn lemma_rule_element_shape(children: Seq<Seq<char>>)
    ensures
        node_text(
            "rule"@,
            seq![
                attr("enabled"@, "true"@),
                attr("grouping"@, "any"@),
                attr("source"@, "incoming"@),
            ],
            children,
        ) == "<rule enabled=\"true\" grouping=\"any\" source=\"incoming\">"@ + children_text(
            children,
        ) + "</rule>"@,
{
    reveal_with_fuel(join, 4);
    reveal_strlit("<");
    reveal_strlit(">");
    reveal_strlit("</");
    reveal_strlit(" ");
    reveal_strlit("=");
    reveal_strlit("\"");
    reveal_strlit("rule");
    reveal_strlit("enabled");
    reveal_strlit("true");
    reveal_strlit("grouping");
    reveal_strlit("any");
    reveal_strlit("source");
    reveal_strlit("incoming");
    reveal_strlit("enabled=\"true\" grouping=\"any\" source=\"incoming\"");
    reveal_strlit("<rule enabled=\"true\" grouping=\"any\" source=\"incoming\">");
    reveal_strlit("</rule>");
    let attrs = attrs_text(
        seq![attr("enabled"@, "true"@), attr("grouping"@, "any"@), attr("source"@, "incoming"@)],
    );
    assert(attrs =~= "enabled=\"true\" grouping=\"any\" source=\"incoming\""@);
    let inner = children_text(children);
    assert(element_text("rule"@, attrs, inner)
        =~= "<rule enabled=\"true\" grouping=\"any\" source=\"incoming\">"@ + inner + "</rule>"@);
}

/// The part of one value, written out: everything but the field, the kind
/// and the value is fixed text.
pub proof fn lemma_value_part_shape(field: Seq<char>, kind: Seq<char>, value: Seq<char>)
    ensures
        value_part(field, kind, value) == "<part name=\""@ + field + "\">"@ + ("<value name=\""@
            + field + "-type\" type=\"option\" value=\""@ + kind + "\"></value>"@) + (
        "<value name=\""@ + field + "\" type=\"string\" allow-empty=\"false\">"@ + ("<string>"@
            + value + "</string>"@) + "</value>"@) + "</part>"@,
{
    reveal_with_fuel(concat, 3);
    let kind_element = node_text(
        "value"@,
        seq![attr("name"@, field + "-type"@), attr("type"@, "option"@), attr("value"@, kind)],
        Seq::empty(),
    );
    let string_element = leaf_text("string"@, Seq::empty(), value);
    let text_element = node_text(
        "value"@,
        seq![attr("name"@, field), attr("type"@, "string"@), attr("allow-empty"@, "false"@)],
        seq![string_element],
    );
    lemma_kind_value_shape(field, kind);
    lemma_string_shape(value);
    lemma_text_value_shape(field, string_element);
    lemma_part_shape(field, seq![kind_element, text_element]);
    assert(children_text(seq![kind_element, text_element]) =~= kind_element + text_element);
    assert("<part name=\""@ + field + "\">"@ + (kind_element + text_element) + "</part>"@
        =~= "<part name=\""@ + field + "\">"@ + kind_element + text_element + "</part>"@);
}

/// The part of an action that moves to `folder`, written out: everything
/// but the account and the folder is fixed text.
pub proof fn lemma_action_part_shape(id: Seq<char>, folder: Seq<char>)
    ensures
        action_part(id, ActionView::MoveTo { folder }) == "<part name=\"move-to-folder\">"@ + (
        "<value name=\"folder\" type=\"folder\">"@ + ("<folder uri=\""@ + ("folder://"@ + id + "/"@
            + folder) + "\"></folder>"@) + "</value>"@) + "</part>"@,
{
    reveal_with_fuel(concat, 2);
    let folder_element = node_text(
        "folder"@,
        seq![attr("uri"@, folder_text(id, folder))],
        Seq::empty(),
    );
    let value_element = node_text(
        "value"@,
        seq![attr("name"@, "folder"@), attr("type"@, "folder"@)],
        seq![folder_element],
    );
    lemma_folder_shape(folder_text(id, folder));
    lemma_folder_value_shape(folder_element);
    lemma_part_shape("move-to-folder"@, seq![value_element]);
    assert(children_text(seq![value_element]) =~= value_element);
    assert("<part name=\""@ + "move-to-folder"@ + "\">"@ =~= "<part name=\"move-to-folder\">"@) by {
        reveal_strlit("<part name=\"");
        reveal_strlit("move-to-folder");
        reveal_strlit("\">");
        reveal_strlit("<part name=\"move-to-folder\">");
    }
}

/// The title of a rule, written out.
proof fn lemma_title_shape(title: Seq<char>)
    ensures
        leaf_text("title"@, Seq::empty(), title) == "<title>"@ + title + "</title>"@,
{
    lemma_plain_element("title"@, title);
    reveal_strlit("<");
    reveal_strlit(">");
    reveal_strlit("</");
    reveal_strlit("title");
    reveal_strlit("<title>");
    reveal_strlit("</title>");
    assert("<"@ + "title"@ + ">"@ + title + "</"@ + "title"@ + ">"@ =~= "<title>"@ + title
        + "</title>"@);
}

/// The part set of a rule, written out.
proof fn lemma_part_set_shape(parts: Seq<Seq<char>>)
    ensures
        node_text("partset"@, Seq::empty(), parts) == "<partset>"@ + concat(parts) + "</partset>"@,
{
    let inner = concat(parts);
    lemma_plain_element("partset"@, inner);
    reveal_strlit("<");
    reveal_strlit(">");
    reveal_strlit("</");
    reveal_strlit("partset");
    reveal_strlit("<partset>");
    reveal_strlit("</partset>");
    assert("<"@ + "partset"@ + ">"@ + inner + "</"@ + "partset"@ + ">"@ =~= "<partset>"@ + inner
        + "</partset>"@);
}

/// The action set of a rule, written out.
proof fn lemma_action_set_shape(parts: Seq<Seq<char>>)
    ensures
        node_text("actionset"@, Seq::empty(), parts) == "<actionset>"@ + concat(parts)
            + "</actionset>"@,
{
    let inner = concat(parts);
    lemma_plain_element("actionset"@, inner);
    reveal_strlit("<");
    reveal_strlit(">");
    reveal_strlit("</");
    reveal_strlit("actionset");
    reveal_strlit("<actionset>");
    reveal_strlit("</actionset>");
    assert("<"@ + "actionset"@ + ">"@ + inner + "</"@ + "actionset"@ + ">"@ =~= "<actionset>"@
        + inner + "</actionset>"@);
}

/// Three children as text.
proof fn lemma_three_children(first: Seq<char>, second: Seq<char>, third: Seq<char>)
    ensures
        children_text(seq![first, second, third]) == first + second + third,
{
    reveal_with_fuel(concat, 4);
    assert(children_text(seq![first, second, third]) =~= first + second + third);
}

/// The rule of a filter, written out: the title, the parts of the
/// conditions and the parts of the actions between fixed text.
pub proof fn lemma_rule_shape(id: Seq<char>, filter: MessageFilterView)
    ensures
        rule_text(id, filter) == "<rule enabled=\"true\" grouping=\"any\" source=\"incoming\">"@ + (
        "<title>"@ + filter.title + "</title>"@) + ("<partset>"@ + concat(
            conditions_parts(filter.conditions),
        ) + "</partset>"@) + ("<actionset>"@ + concat(action_parts(id, filter.actions))
            + "</actionset>"@) + "</rule>"@,
{
    let title = leaf_text("title"@, Seq::empty(), filter.title);
    let part_set = node_text("partset"@, Seq::empty(), conditions_parts(filter.conditions));
    let action_set = node_text("actionset"@, Seq::empty(), action_parts(id, filter.actions));
    let open = "<rule enabled=\"true\" grouping=\"any\" source=\"incoming\">"@;
    lemma_rule_element_shape(seq![title, part_set, action_set]);
    lemma_three_children(title, part_set, action_set);
    lemma_title_shape(filter.title);
    lemma_part_set_shape(conditions_parts(filter.conditions));
    lemma_action_set_shape(action_parts(id, filter.actions));
    assert(open + (title + part_set + action_set) + "</rule>"@ =~= open + title + part_set
        + action_set + "</rule>"@);
}

/// The rule set of an account, written out: its rules between fixed text.
pub proof fn lemma_rule_set_shape(account: AccountView)
    requires
        account.evolution_id is Some,
    ensures
        rule_set_text(account) == "<ruleset>"@ + concat(
            rules(account.evolution_id->0, account.message_filters),
        ) + "</ruleset>"@,
{
    let inner = concat(rules(account.evolution_id->0, account.message_filters));
    lemma_plain_element("ruleset"@, inner);
    reveal_strlit("<");
    reveal_strlit(">");
    reveal_strlit("</");
    reveal_strlit("ruleset");
    reveal_strlit("<ruleset>");
    reveal_strlit("</ruleset>");
    assert("<"@ + "ruleset"@ + ">"@ + inner + "</"@ + "ruleset"@ + ">"@ =~= "<ruleset>"@ + inner
        + "</ruleset>"@);
}

/// The document, written out: the prolog, then the rule sets of the
/// accounts between fixed text, with no whitespace anywhere.
pub proof fn lemma_document_shape(config: ConfigurationView)
    ensures
        document_text(config) == "<?xml version=\"1.0\"?>"@ + ("<filteroptions>"@ + concat(
            rule_sets(config.accounts),
        ) + "</filteroptions>"@),
{
    let inner = concat(rule_sets(config.accounts));
    lemma_plain_element("filteroptions"@, inner);
    reveal_strlit("<");
    reveal_strlit(">");
    reveal_strlit("</");
    reveal_strlit("filteroptions");
    reveal_strlit("<filteroptions>");
    reveal_strlit("</filteroptions>");
    assert("<"@ + "filteroptions"@ + ">"@ + inner + "</"@ + "filteroptions"@ + ">"@
        =~= "<filteroptions>"@ + inner + "</filteroptions>"@);
}

} // verus!
