//! What holds of every document in the flat record format: the fixed text
//! of each line, how the values of a condition are joined, the order and
//! the number of the records, and when rendering fails.

use vstd::prelude::*;
use crate::configuration::{
    AccountView, ActionView, ConditionView, Configuration, ConfigurationView, MessageFilterView,
};
use crate::dat::{line_text, preamble};
use crate::printer::result_view;
use crate::printer::thunderbird::{
    Error, accounts_lines, action_lines, actions_lines, clause_text, clauses, condition_text,
    document_lines, document_text, field_text, filter_lines, filters_lines, kind_text, prefix_text,
    record_lines, renderable, rendered, term_text, terms,
};
use crate::text::{decimal_text, join, lemma_join_append};

verus! {

/// Rendering is a function of the configuration: two renderings of
/// configurations with the same view give the same text, or the same error.
pub proof fn lemma_rendering_is_deterministic(
    first: Configuration,
    second: Configuration,
    first_result: Result<String, Error>,
    second_result: Result<String, Error>,
)
    requires
        first@ == second@,
        result_view(first_result) == rendered(first@),
        result_view(second_result) == rendered(second@),
    ensures
        result_view(first_result) == result_view(second_result),
{
}

/// An account without its identifier makes the rendering fail, whatever
/// its filters and whatever the other accounts hold.
pub proof fn lemma_missing_identifier_fails(config: ConfigurationView, i: int)
    requires
        0 <= i < config.accounts.len(),
        config.accounts[i].thunderbird_id is None,
    ensures
        rendered(config) == Err::<Seq<char>, Error>(Error::MissingThunderbirdId),
{
}

/// Where every account has its identifier the rendering succeeds, also
/// where filters have no conditions or no actions.
pub proof fn lemma_identifiers_suffice(config: ConfigurationView)
    requires
        renderable(config),
    ensures
        rendered(config) == Ok::<Seq<char>, Error>(document_text(config)),
{
}

/// Two lists of accounts are the same as far as this client reads them:
/// the same identifiers for it and the same filters.
pub open spec fn same_for_this_client(first: Seq<AccountView>, second: Seq<AccountView>) -> bool {
    &&& first.len() == second.len()
    &&& forall|i: int|
        0 <= i < first.len() ==> {
            &&& (#[trigger] first[i]).thunderbird_id == second[i].thunderbird_id
            &&& first[i].message_filters == second[i].message_filters
        }
}

/// Accounts that differ in the identifiers for the other client alone give
/// the same records.
proof fn lemma_same_records(first: Seq<AccountView>, second: Seq<AccountView>)
    requires
        same_for_this_client(first, second),
    ensures
        accounts_lines(first) == accounts_lines(second),
    decreases first.len(),
{
    if first.len() > 0 {
        let last = first.len() - 1;
        assert(first[last].thunderbird_id == second[last].thunderbird_id);
        assert forall|i: int| 0 <= i < first.drop_last().len() implies {
            &&& (#[trigger] first.drop_last()[i]).thunderbird_id
                == second.drop_last()[i].thunderbird_id
            &&& first.drop_last()[i].message_filters == second.drop_last()[i].message_filters
        } by {
            assert(first[i].thunderbird_id == second[i].thunderbird_id);
        }
        lemma_same_records(first.drop_last(), second.drop_last());
    }
}

/// The identifiers for the other client are not read: configurations that
/// differ in them alone give the same text, or the same error.
pub proof fn lemma_other_identifier_is_not_read(first: ConfigurationView, second: ConfigurationView)
    requires
        same_for_this_client(first.accounts, second.accounts),
    ensures
        rendered(first) == rendered(second),
{
    assert(renderable(first) == renderable(second)) by {
        if renderable(first) {
            assert forall|i: int| 0 <= i < second.accounts.len() implies (
            #[trigger] second.accounts[i]).thunderbird_id is Some by {
                assert(first.accounts[i].thunderbird_id is Some);
            }
        }
        if renderable(second) {
            assert forall|i: int| 0 <= i < first.accounts.len() implies (
            #[trigger] first.accounts[i]).thunderbird_id is Some by {
                assert(second.accounts[i].thunderbird_id is Some);
            }
        }
    }
    lemma_same_records(first.accounts, second.accounts);
}

/// A condition with exactly one value gives one term with the prefix
/// `AND`, and that term is the whole clause.
pub proof fn lemma_single_value_clause(condition: ConditionView)
    requires
        condition.values.len() == 1,
    ensures
        clause_text(condition) == term_text(
            "AND"@,
            field_text(condition.field),
            kind_text(condition.kind),
            condition.values[0],
        ),
{
}

/// A condition with more than one value gives one term for each value, in
/// the order of the values, each with the prefix `OR` and the field and
/// kind of the condition; the clause is these terms with one space between
/// each two.
pub proof fn lemma_multi_value_clause(condition: ConditionView)
    requires
        condition.values.len() > 1,
    ensures
        terms(condition).len() == condition.values.len(),
        forall|i: int|
            0 <= i < condition.values.len() ==> #[trigger] terms(condition)[i] == term_text(
                "OR"@,
                field_text(condition.field),
                kind_text(condition.kind),
                condition.values[i],
            ),
        clause_text(condition) == join(terms(condition), " "@),
        clause_text(condition) == join(terms(condition).drop_last(), " "@) + " "@
            + terms(condition).last(),
{
}

/// The terms of a condition stand in the order of its values: the term at
/// each place is the term of the value at that place.
pub proof fn lemma_values_in_order(condition: ConditionView, i: int)
    requires
        0 <= i < condition.values.len(),
    ensures
        terms(condition).len() == condition.values.len(),
        terms(condition)[i] == term_text(
            prefix_text(condition.values.len()),
            field_text(condition.field),
            kind_text(condition.kind),
            condition.values[i],
        ),
{
}

/// The clauses of conditions stand in the order of the conditions.
pub proof fn lemma_conditions_in_order(first: Seq<ConditionView>, second: Seq<ConditionView>)
    ensures
        clauses(first + second) == clauses(first) + clauses(second),
        first.len() > 0 && second.len() > 0 ==> condition_text(first + second) == condition_text(
            first,
        ) + " "@ + condition_text(second),
{
    assert(clauses(first + second) =~= clauses(first) + clauses(second));
    if first.len() > 0 && second.len() > 0 {
        lemma_join_append(clauses(first), clauses(second), " "@);
    }
}

/// The records of a filter stand in the order of its actions.
pub proof fn lemma_actions_in_order(
    id: Seq<char>,
    filter: MessageFilterView,
    first: Seq<ActionView>,
    second: Seq<ActionView>,
)
    ensures
        actions_lines(id, filter, first + second) == actions_lines(id, filter, first)
            + actions_lines(id, filter, second),
    decreases second.len(),
{
    if second.len() == 0 {
        assert(first + second =~= first);
        assert(actions_lines(id, filter, first) + actions_lines(id, filter, second)
            =~= actions_lines(id, filter, first));
    } else {
        lemma_actions_in_order(id, filter, first, second.drop_last());
        assert((first + second).drop_last() =~= first + second.drop_last());
        assert(actions_lines(id, filter, first + second) =~= actions_lines(id, filter, first)
            + actions_lines(id, filter, second));
    }
}

/// The records of an account stand in the order of its filters.
pub proof fn lemma_filters_in_order(
    id: Seq<char>,
    first: Seq<MessageFilterView>,
    second: Seq<MessageFilterView>,
)
    ensures
        filters_lines(id, first + second) == filters_lines(id, first) + filters_lines(id, second),
    decreases second.len(),
{
    if second.len() == 0 {
        assert(first + second =~= first);
        assert(filters_lines(id, first) + filters_lines(id, second) =~= filters_lines(id, first));
    } else {
        lemma_filters_in_order(id, first, second.drop_last());
        assert((first + second).drop_last() =~= first + second.drop_last());
        assert(filters_lines(id, first + second) =~= filters_lines(id, first) + filters_lines(
            id,
            second,
        ));
    }
}

/// The records of a document stand in the order of the accounts, behind
/// the preamble.
pub proof fn lemma_accounts_in_order(first: Seq<AccountView>, second: Seq<AccountView>)
    ensures
        accounts_lines(first + second) == accounts_lines(first) + accounts_lines(second),
        document_lines(ConfigurationView { accounts: first + second }) == preamble(9, false)
            + accounts_lines(first) + accounts_lines(second),
    decreases second.len(),
{
    if second.len() == 0 {
        assert(first + second =~= first);
        assert(accounts_lines(first) + accounts_lines(second) =~= accounts_lines(first));
    } else {
        lemma_accounts_in_order(first, second.drop_last());
        assert((first + second).drop_last() =~= first + second.drop_last());
        assert(accounts_lines(first + second) =~= accounts_lines(first) + accounts_lines(second));
    }
    assert(document_lines(ConfigurationView { accounts: first + second }) =~= preamble(9, false)
        + accounts_lines(first) + accounts_lines(second));
}

/// A filter gives six lines for each of its actions.
pub proof fn lemma_six_lines_for_each_action(
    id: Seq<char>,
    filter: MessageFilterView,
    actions: Seq<ActionView>,
)
    ensures
        actions_lines(id, filter, actions).len() == 6 * actions.len(),
    decreases actions.len(),
{
    if actions.len() > 0 {
        lemma_six_lines_for_each_action(id, filter, actions.drop_last());
    }
}

/// The number of actions that `filters` hold, all together.
pub open spec fn action_count(filters: Seq<MessageFilterView>) -> nat
    decreases filters.len(),
{
    if filters.len() == 0 {
        0
    } else {
        action_count(filters.drop_last()) + filters.last().actions.len()
    }
}

/// The number of records that `accounts` give: one for each action of
/// each filter.
pub open spec fn record_count(accounts: Seq<AccountView>) -> nat
    decreases accounts.len(),
{
    if accounts.len() == 0 {
        0
    } else {
        record_count(accounts.drop_last()) + action_count(accounts.last().message_filters)
    }
}

/// The filters of an account give six lines for each of their actions.
proof fn lemma_filters_line_count(id: Seq<char>, filters: Seq<MessageFilterView>)
    ensures
        filters_lines(id, filters).len() == 6 * action_count(filters),
    decreases filters.len(),
{
    if filters.len() > 0 {
        lemma_filters_line_count(id, filters.drop_last());
        lemma_six_lines_for_each_action(id, filters.last(), filters.last().actions);
    }
}

/// The accounts give six lines for each of their records.
proof fn lemma_accounts_line_count(accounts: Seq<AccountView>)
    ensures
        accounts_lines(accounts).len() == 6 * record_count(accounts),
    decreases accounts.len(),
{
    if accounts.len() > 0 {
        lemma_accounts_line_count(accounts.drop_last());
        lemma_filters_line_count(
            accounts.last().thunderbird_id->0,
            accounts.last().message_filters,
        );
    }
}

/// A document holds the two lines of the preamble and six lines for each
/// action of each filter.
pub proof fn lemma_line_count(config: ConfigurationView)
    ensures
        document_lines(config).len() == 2 + 6 * record_count(config.accounts),
{
    lemma_accounts_line_count(config.accounts);
}

/// Without conditions the condition of a record is empty; without actions
/// a filter gives no record.
pub proof fn lemma_empty_collections(id: Seq<char>, filter: MessageFilterView)
    ensures
        filter.conditions.len() == 0 ==> condition_text(filter.conditions) == Seq::<char>::empty(),
        filter.actions.len() == 0 ==> filter_lines(id, filter) == Seq::<Seq<char>>::empty(),
{
}

/// A line, written out: the key, an equals sign, the value between double
/// quotes.
pub proof fn lemma_line_shape(name: Seq<char>, value: Seq<char>)
    ensures
        line_text(name, value) == name + "=\""@ + value + "\""@,
{
    reveal_strlit("=");
    reveal_strlit("\"");
    reveal_strlit("=\"");
    assert(name + "="@ + ("\""@ + value + "\""@) =~= name + "=\""@ + value + "\""@);
}

/// A line with a fixed key, written out.
proof fn lemma_keyed_line(name: Seq<char>, value: Seq<char>, start: Seq<char>)
    requires
        start == name + "=\""@,
    ensures
        line_text(name, value) == start + value + "\""@,
{
    lemma_line_shape(name, value);
}

/// The preamble of every document of this client, written out.
pub proof fn lemma_preamble_shape()
    ensures
        preamble(9, false) == seq!["version=\"9\""@, "logging=\"no\""@],
{
    reveal_strlit("=");
    reveal_strlit("\"");
    reveal_strlit("9");
    reveal_strlit("no");
    reveal_strlit("version");
    reveal_strlit("logging");
    reveal_strlit("version=\"9\"");
    reveal_strlit("logging=\"no\"");
    assert(decimal_text(9) == "9"@);
    assert(line_text("version"@, "9"@) =~= "version=\"9\""@);
    assert(line_text("logging"@, "no"@) =~= "logging=\"no\""@);
}

/// The six lines of a record, written out: everything but the name, the
/// folder's address and the condition is fixed text.
pub proof fn lemma_record_shape(
    name: Seq<char>,
    move_to: Seq<char>,
    conditions: Seq<ConditionView>,
)
    ensures
        record_lines(name, move_to, conditions) == seq![
            "name=\""@ + name + "\""@,
            "enabled=\"yes\""@,
            "type=\"17\""@,
            "action=\"Move to folder\""@,
            "actionValue=\""@ + move_to + "\""@,
            "condition=\""@ + condition_text(conditions) + "\""@,
        ],
{
    assert(line_text("name"@, name) == "name=\""@ + name + "\""@) by {
        reveal_strlit("name");
        reveal_strlit("=\"");
        reveal_strlit("name=\"");
        assert("name=\""@ =~= "name"@ + "=\""@);
        lemma_keyed_line("name"@, name, "name=\""@);
    }
    assert(line_text("enabled"@, "yes"@) == "enabled=\"yes\""@) by {
        reveal_strlit("enabled");
        reveal_strlit("yes");
        reveal_strlit("=\"");
        reveal_strlit("\"");
        reveal_strlit("enabled=\"yes\"");
        lemma_line_shape("enabled"@, "yes"@);
        assert("enabled"@ + "=\""@ + "yes"@ + "\""@ =~= "enabled=\"yes\""@);
    }
    assert(line_text("type"@, "17"@) == "type=\"17\""@) by {
        reveal_strlit("type");
        reveal_strlit("17");
        reveal_strlit("=\"");
        reveal_strlit("\"");
        reveal_strlit("type=\"17\"");
        lemma_line_shape("type"@, "17"@);
        assert("type"@ + "=\""@ + "17"@ + "\""@ =~= "type=\"17\""@);
    }
    assert(line_text("action"@, "Move to folder"@) == "action=\"Move to folder\""@) by {
        reveal_strlit("action");
        reveal_strlit("Move to folder");
        reveal_strlit("=\"");
        reveal_strlit("\"");
        reveal_strlit("action=\"Move to folder\"");
        lemma_line_shape("action"@, "Move to folder"@);
        assert("action"@ + "=\""@ + "Move to folder"@ + "\""@ =~= "action=\"Move to folder\""@);
    }
    assert(line_text("actionValue"@, move_to) == "actionValue=\""@ + move_to + "\""@) by {
        reveal_strlit("actionValue");
        reveal_strlit("=\"");
        reveal_strlit("actionValue=\"");
        assert("actionValue=\""@ =~= "actionValue"@ + "=\""@);
        lemma_keyed_line("actionValue"@, move_to, "actionValue=\""@);
    }
    assert(line_text("condition"@, condition_text(conditions)) == "condition=\""@ + condition_text(
        conditions,
    ) + "\""@) by {
        reveal_strlit("condition");
        reveal_strlit("=\"");
        reveal_strlit("condition=\"");
        assert("condition=\""@ =~= "condition"@ + "=\""@);
        lemma_keyed_line("condition"@, condition_text(conditions), "condition=\""@);
    }
}

/// The record of an action that moves to `folder`: its folder's address
/// is `imap://`, the account, a slash and the folder.
pub proof fn lemma_action_record_shape(id: Seq<char>, filter: MessageFilterView, folder: Seq<char>)
    ensures
        action_lines(id, filter, ActionView::MoveTo { folder }) == record_lines(
            filter.title,
            "imap://"@ + id + "/"@ + folder,
            filter.conditions,
        ),
{
    reveal_strlit("imap");
    reveal_strlit("://");
    reveal_strlit("imap://");
    assert("imap"@ + "://"@ =~= "imap://"@);
}

} // verus!
