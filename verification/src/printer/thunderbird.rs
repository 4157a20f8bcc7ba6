//! The renderer for the client with the flat record format: one record of
//! six lines for each action of each filter, after the preamble.

use vstd::prelude::*;
use vstd::string::StringExecFns;
use crate::configuration::{
    AccountView, Action, ActionView, Condition, ConditionKind, ConditionView, Configuration,
    ConfigurationView, Field, MessageFilter, MessageFilterView, condition_views, filter_views,
};
use crate::dat::{DatDocument, line_text, preamble};
use crate::printer::result_view;
use crate::text::{join, join_strings, lemma_texts_push, texts};

pub mod laws;

verus! {

/// Why a configuration cannot be rendered for this client.
#[derive(Debug, Clone, Copy, PartialEq, Eq)]
pub enum Error {
    /// An account has no `thunderbird_id`.
    MissingThunderbirdId,
}

impl Error {
    /// The error in words.
    pub fn to_string(&self) -> (text: String)
        ensures
            text@ == "thunderbird_id is missing"@,
    {
        match self {
            Error::MissingThunderbirdId => String::from_str("thunderbird_id is missing"),
        }
    }
}

/// The name of `field` in this client.
pub open spec fn field_text(field: Field) -> Seq<char> {
    match field {
        Field::From => "from"@,
    }
}

/// The name of a kind of condition in this client.
pub open spec fn kind_text(kind: ConditionKind) -> Seq<char> {
    match kind {
        ConditionKind::Contains => "contains"@,
        ConditionKind::EndsWith => "ends with"@,
    }
}

/// The address of a folder of an account.
pub open spec fn folder_text(
    scheme: Seq<char>,
    account: Seq<char>,
    folder: Seq<char>,
) -> Seq<char> {
    scheme + "://"@ + account + "/"@ + folder
}

/// The word before each term of a condition with `count` values: `AND`
/// where there is exactly one value, `OR` otherwise.
pub open spec fn prefix_text(count: nat) -> Seq<char> {
    if count == 1 {
        "AND"@
    } else {
        "OR"@
    }
}

/// One term: the prefix, then field, kind and value in brackets.
pub open spec fn term_text(
    prefix: Seq<char>,
    field: Seq<char>,
    kind: Seq<char>,
    value: Seq<char>,
) -> Seq<char> {
    prefix + " ("@ + field + ","@ + kind + ","@ + value + ")"@
}

/// The terms of a condition: one for each value, in order, all with the
/// same prefix, field and kind.
pub open spec fn terms(condition: ConditionView) -> Seq<Seq<char>> {
    condition.values.map_values(
        |value: Seq<char>|
            term_text(
                prefix_text(condition.values.len()),
                field_text(condition.field),
                kind_text(condition.kind),
                value,
            ),
    )
}

/// The clause of a condition: its terms with one space between each two.
pub open spec fn clause_text(condition: ConditionView) -> Seq<char> {
    join(terms(condition), " "@)
}

/// The clauses of `conditions`, in order.
pub open spec fn clauses(conditions: Seq<ConditionView>) -> Seq<Seq<char>> {
    conditions.map_values(|condition: ConditionView| clause_text(condition))
}

/// The condition of a record: the clauses with one space between each two.
pub open spec fn condition_text(conditions: Seq<ConditionView>) -> Seq<char> {
    join(clauses(conditions), " "@)
}

/// The six lines of one record.
pub open spec fn record_lines(
    name: Seq<char>,
    move_to: Seq<char>,
    conditions: Seq<ConditionView>,
) -> Seq<Seq<char>> {
    seq![
        line_text("name"@, name),
        line_text("enabled"@, "yes"@),
        line_text("type"@, "17"@),
        line_text("action"@, "Move to folder"@),
        line_text("actionValue"@, move_to),
        line_text("condition"@, condition_text(conditions)),
    ]
}

/// The record of one action of `filter`, in the account `id`.
pub open spec fn action_lines(
    id: Seq<char>,
    filter: MessageFilterView,
    action: ActionView,
) -> Seq<Seq<char>> {
    match action {
        ActionView::MoveTo { folder } => record_lines(
            filter.title,
            folder_text("imap"@, id, folder),
            filter.conditions,
        ),
    }
}

/// The records of `actions`, taken as actions of `filter`, in order.
pub open spec fn actions_lines(
    id: Seq<char>,
    filter: MessageFilterView,
    actions: Seq<ActionView>,
) -> Seq<Seq<char>>
    decreases actions.len(),
{
    if actions.len() == 0 {
        Seq::empty()
    } else {
        actions_lines(id, filter, actions.drop_last()) + action_lines(id, filter, actions.last())
    }
}

/// The records of `filter`: one for each of its actions, in order.
pub open spec fn filter_lines(id: Seq<char>, filter: MessageFilterView) -> Seq<Seq<char>> {
    actions_lines(id, filter, filter.actions)
}

/// The records of `filters`, in order.
pub open spec fn filters_lines(id: Seq<char>, filters: Seq<MessageFilterView>) -> Seq<Seq<char>>
    decreases filters.len(),
{
    if filters.len() == 0 {
        Seq::empty()
    } else {
        filters_lines(id, filters.drop_last()) + filter_lines(id, filters.last())
    }
}

/// The records of an account that has its identifier.
pub open spec fn account_lines(account: AccountView) -> Seq<Seq<char>>
    recommends
        account.thunderbird_id is Some,
{
    filters_lines(account.thunderbird_id->0, account.message_filters)
}

/// The records of `accounts`, in order.
pub open spec fn accounts_lines(accounts: Seq<AccountView>) -> Seq<Seq<char>>
    decreases accounts.len(),
{
    if accounts.len() == 0 {
        Seq::empty()
    } else {
        accounts_lines(accounts.drop_last()) + account_lines(accounts.last())
    }
}

/// Every account has the identifier that this client needs.
pub open spec fn renderable(config: ConfigurationView) -> bool {
    forall|i: int|
        0 <= i < config.accounts.len() ==> (#[trigger] config.accounts[i]).thunderbird_id is Some
}

/// The lines of the document of `config`: the preamble, then the records.
pub open spec fn document_lines(config: ConfigurationView) -> Seq<Seq<char>> {
    preamble(9, false) + accounts_lines(config.accounts)
}

/// The document of `config`: its lines with a newline between each two.
pub open spec fn document_text(config: ConfigurationView) -> Seq<char> {
    join(document_lines(config), "\n"@)
}

/// What rendering `config` gives: the document where every account has its
/// identifier, the error otherwise.
pub open spec fn rendered(config: ConfigurationView) -> Result<Seq<char>, Error> {
    if renderable(config) {
        Ok(document_text(config))
    } else {
        Err(Error::MissingThunderbirdId)
    }
}

/// Renders `config` as a flat record document. Fails, with no document, if
/// and only if an account has no `thunderbird_id`.
pub fn print_config(config: Configuration) -> (result: Result<String, Error>)
    ensures
        result_view(result) == rendered(config@),
{
    let mut document = DatDocument::new(9, false);
    let mut i: usize = 0;
    while i < config.accounts.len()
        invariant
            i <= config.accounts.len(),
            forall|k: int| 0 <= k < i ==> (#[trigger] config@.accounts[k]).thunderbird_id is Some,
            document@ == preamble(9, false) + accounts_lines(config@.accounts.take(i as int)),
        decreases config.accounts.len() - i,
    {
        let account = &config.accounts[i];
        assert(config@.accounts[i as int] == account@);
        match &account.thunderbird_id {
            None => {
                return Err(Error::MissingThunderbirdId);
            },
            Some(thunderbird_id) => {
                append_account(&mut document, thunderbird_id.as_str(), &account.message_filters);
            },
        }
        proof {
            let after = config@.accounts.take(i + 1);
            assert(after.drop_last() =~= config@.accounts.take(i as int));
        }
        i += 1;
    }
    proof {
        assert(config@.accounts.take(i as int) =~= config@.accounts);
    }
    Ok(document.to_string())
}

/// Appends the records of the filters of one account.
fn append_account(doc: &mut DatDocument, id: &str, filters: &Vec<MessageFilter>)
    ensures
        final(doc)@ == old(doc)@ + filters_lines(id@, filter_views(filters@)),
{
    let ghost views = filter_views(filters@);
    let mut i: usize = 0;
    while i < filters.len()
        invariant
            i <= filters.len(),
            views == filter_views(filters@),
            doc@ == old(doc)@ + filters_lines(id@, views.take(i as int)),
        decreases filters.len() - i,
    {
        let filter = &filters[i];
        append_filters_of(doc, id, filter);
        proof {
            let after = views.take(i + 1);
            assert(after.drop_last() =~= views.take(i as int));
        }
        i += 1;
    }
    proof {
        assert(views.take(i as int) =~= views);
    }
}

/// Appends the records of one filter: one for each of its actions.
fn append_filters_of(doc: &mut DatDocument, id: &str, filter: &MessageFilter)
    ensures
        final(doc)@ == old(doc)@ + filter_lines(id@, filter@),
{
    let mut i: usize = 0;
    while i < filter.actions.len()
        invariant
            i <= filter.actions.len(),
            doc@ == old(doc)@ + actions_lines(id@, filter@, filter@.actions.take(i as int)),
        decreases filter.actions.len() - i,
    {
        match &filter.actions[i] {
            Action::MoveTo(move_to) => {
                let move_to = format_folder("imap", id, move_to.folder.as_str());
                append_filter(
                    doc,
                    filter.title.as_str(),
                    move_to.as_str(),
                    filter.conditions.as_slice(),
                );
            },
        }
        proof {
            let after = filter@.actions.take(i + 1);
            assert(after.drop_last() =~= filter@.actions.take(i as int));
        }
        i += 1;
    }
    proof {
        assert(filter@.actions.take(i as int) =~= filter@.actions);
    }
}

/// Appends one record: the six lines of a filter that moves to `move_to`.
pub fn append_filter(doc: &mut DatDocument, name: &str, move_to: &str, conditions: &[Condition])
    ensures
        final(doc)@ == old(doc)@ + record_lines(name@, move_to@, condition_views(conditions@)),
{
    doc.append("name", name);
    doc.append("enabled", "yes");
    doc.append("type", "17");
    doc.append("action", "Move to folder");
    doc.append("actionValue", move_to);
    let condition = format_condition(conditions);
    doc.append("condition", condition.as_str());
}

/// The condition of a record: for each condition its clause, with one
/// space between each two.
pub fn format_condition(conditions: &[Condition]) -> (text: String)
    ensures
        text@ == condition_text(condition_views(conditions@)),
{
    let ghost all = clauses(condition_views(conditions@));
    let mut inner: Vec<String> = Vec::new();
    let mut i: usize = 0;
    while i < conditions.len()
        invariant
            i <= conditions.len(),
            all == clauses(condition_views(conditions@)),
            texts(inner@) == all.take(i as int),
        decreases conditions.len() - i,
    {
        let ghost before = inner@;
        let clause = format_clause(&conditions[i]);
        inner.push(clause);
        proof {
            lemma_texts_push(before, clause);
        }
        i += 1;
    }
    proof {
        assert(all.take(i as int) =~= all);
    }
    join_strings(&inner, " ")
}

/// The clause of one condition: a term for each value, with one space
/// between each two.
fn format_clause(condition: &Condition) -> (text: String)
    ensures
        text@ == clause_text(condition@),
{
    let (kind, field, values) = match condition {
        Condition::Contains(cond) => ("contains", &cond.field, &cond.values),
        Condition::EndsWith(cond) => ("ends with", &cond.field, &cond.values),
    };
    let ghost all = terms(condition@);
    let prefix: &'static str = if values.len() == 1 {
        "AND"
    } else {
        "OR"
    };
    let field = format_field(field);
    let mut made: Vec<String> = Vec::new();
    let mut i: usize = 0;
    while i < values.len()
        invariant
            i <= values.len(),
            all.len() == values.len(),
            forall|k: int|
                0 <= k < values.len() ==> #[trigger] all[k] == term_text(
                    prefix@,
                    field@,
                    kind@,
                    values@[k]@,
                ),
            texts(made@) == all.take(i as int),
        decreases values.len() - i,
    {
        let ghost before = made@;
        let mut term = String::from_str(prefix);
        term.append(" (");
        term.append(field.as_str());
        term.append(",");
        term.append(kind);
        term.append(",");
        term.append(values[i].as_str());
        term.append(")");
        made.push(term);
        proof {
            lemma_texts_push(before, term);
        }
        i += 1;
    }
    proof {
        assert(all.take(i as int) =~= all);
    }
    join_strings(&made, " ")
}

/// The address of the folder `folder` of the account `account`.
pub fn format_folder(scheme: &str, account: &str, folder: &str) -> (text: String)
    ensures
        text@ == folder_text(scheme@, account@, folder@),
{
    let mut text = String::from_str(scheme);
    text.append("://");
    text.append(account);
    text.append("/");
    text.append(folder);
    text
}

/// The name of `field` in this client.
pub fn format_field(field: &Field) -> (text: String)
    ensures
        text@ == field_text(*field),
{
    match field {
        Field::From => String::from_str("from"),
    }
}

} // verus!
