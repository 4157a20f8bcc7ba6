//! Renders one client-agnostic set of mail filters in the native filter
//! formats of two mail clients: a nested markup document for the one, a
//! flat list of `key="value"` lines for the other.
//!
//! - [`configuration`] is the rule model: accounts, filters, conditions
//!   and actions, each with a view over sequences.
//! - [`xml`] and [`dat`] build the two kinds of document.
//! - [`printer`] holds the two renderers and the choice between them. What
//!   each renderer returns is given by a specification function of the
//!   configuration's view; the `laws` module of each renderer states what
//!   follows for every configuration.
//! - [`text`] and [`util`] hold the operations on texts that the builders
//!   share.
//!
//! Rendering reads the configuration once, in the order of the model, and
//! returns the whole document or an error, never a part of a document.

pub mod configuration;
pub mod dat;
pub mod printer;
pub mod text;
pub mod util;
pub mod xml;
