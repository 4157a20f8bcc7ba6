//! The rule model: accounts, each with its filters, each filter with the
//! conditions that select a message and the actions applied to it.
//!
//! The model is plain data. Every type has a view that holds texts as
//! sequences of characters and lists as sequences, in the order of the model.

use vstd::prelude::*;
use crate::text::texts;

verus! {

/// The accounts, in the order in which they are rendered.
#[derive(Debug)]
pub struct Configuration {
    pub accounts: Vec<Account>,
}

/// One mail account: its identifier in each client, and its filters.
#[derive(Debug)]
pub struct Account {
    /// The identifier in the client with the nested markup format.
    pub evolution_id: Option<String>,
    /// The identifier in the client with the flat record format.
    pub thunderbird_id: Option<String>,
    pub message_filters: Vec<MessageFilter>,
}

/// One filter: a title, conditions and actions.
#[derive(Debug)]
pub struct MessageFilter {
    pub title: String,
    pub conditions: Vec<Condition>,
    pub actions: Vec<Action>,
}

/// A test on one field of a message against a list of values.
#[derive(Debug)]
pub enum Condition {
    Contains(Contains),
    EndsWith(EndsWith),
}

/// The field ends with one of the values.
#[derive(Debug)]
pub struct EndsWith {
    pub field: Field,
    pub values: Vec<String>,
}

/// The field contains one of the values.
#[derive(Debug)]
pub struct Contains {
    pub field: Field,
    pub values: Vec<String>,
}

/// The fields of a message that a condition can test.
#[derive(Debug, Clone, Copy, PartialEq, Eq)]
pub enum Field {
    From,
}

/// What is done with a message that a filter selects.
#[derive(Debug)]
pub enum Action {
    MoveTo(MoveTo),
}

/// The message is moved to a folder, given by its name.
#[derive(Debug)]
pub struct MoveTo {
    pub folder: String,
}

/// The two kinds of condition.
pub enum ConditionKind {
    Contains,
    EndsWith,
}

/// The view of a condition.
pub struct ConditionView {
    pub kind: ConditionKind,
    pub field: Field,
    pub values: Seq<Seq<char>>,
}

/// The view of an action.
pub enum ActionView {
    MoveTo { folder: Seq<char> },
}

/// The view of a filter.
pub struct MessageFilterView {
    pub title: Seq<char>,
    pub conditions: Seq<ConditionView>,
    pub actions: Seq<ActionView>,
}

/// The view of an account.
pub struct AccountView {
    pub evolution_id: Option<Seq<char>>,
    pub thunderbird_id: Option<Seq<char>>,
    pub message_filters: Seq<MessageFilterView>,
}

/// The view of a configuration.
pub struct ConfigurationView {
    pub accounts: Seq<AccountView>,
}

/// The view of an identifier that may be absent.
pub open spec fn id_view(id: Option<String>) -> Option<Seq<char>> {
    match id {
        Some(text) => Some(text@),
        None => None,
    }
}

/// The views of `conditions`, in order.
pub open spec fn condition_views(conditions: Seq<Condition>) -> Seq<ConditionView> {
    conditions.map_values(|condition: Condition| condition@)
}

/// The views of `actions`, in order.
pub open spec fn action_views(actions: Seq<Action>) -> Seq<ActionView> {
    actions.map_values(|action: Action| action@)
}

/// The views of `filters`, in order.
pub open spec fn filter_views(filters: Seq<MessageFilter>) -> Seq<MessageFilterView> {
    filters.map_values(|filter: MessageFilter| filter@)
}

/// The views of `accounts`, in order.
pub open spec fn account_views(accounts: Seq<Account>) -> Seq<AccountView> {
    accounts.map_values(|account: Account| account@)
}

impl View for Contains {
    type V = ConditionView;

    open spec fn view(&self) -> ConditionView {
        ConditionView {
            kind: ConditionKind::Contains,
            field: self.field,
            values: texts(self.values@),
        }
    }
}

impl View for EndsWith {
    type V = ConditionView;

    open spec fn view(&self) -> ConditionView {
        ConditionView {
            kind: ConditionKind::EndsWith,
            field: self.field,
            values: texts(self.values@),
        }
    }
}

impl View for Condition {
    type V = ConditionView;

    open spec fn view(&self) -> ConditionView {
        match self {
            Condition::Contains(contains) => contains@,
            Condition::EndsWith(ends_with) => ends_with@,
        }
    }
}

impl View for MoveTo {
    type V = ActionView;

    open spec fn view(&self) -> ActionView {
        ActionView::MoveTo { folder: self.folder@ }
    }
}

impl View for Action {
    type V = ActionView;

    open spec fn view(&self) -> ActionView {
        match self {
            Action::MoveTo(move_to) => move_to@,
        }
    }
}

impl View for MessageFilter {
    type V = MessageFilterView;

    open spec fn view(&self) -> MessageFilterView {
        MessageFilterView {
            title: self.title@,
            conditions: condition_views(self.conditions@),
            actions: action_views(self.actions@),
        }
    }
}

impl View for Account {
    type V = AccountView;

    open spec fn view(&self) -> AccountView {
        AccountView {
            evolution_id: id_view(self.evolution_id),
            thunderbird_id: id_view(self.thunderbird_id),
            message_filters: filter_views(self.message_filters@),
        }
    }
}

impl View for Configuration {
    type V = ConfigurationView;

    open spec fn view(&self) -> ConfigurationView {
        ConfigurationView { accounts: account_views(self.accounts@) }
    }
}

} // verus!
