//! The two renderers, one for each client, and the choice between them.

use vstd::prelude::*;
use crate::configuration::{Configuration, ConfigurationView};

pub mod evolution;
pub mod thunderbird;

verus! {

/// The client for which a configuration is rendered.
#[derive(Debug, Clone, Copy, PartialEq, Eq)]
pub enum PrintFormat {
    /// The client with the nested markup format.
    Evolution,
    /// The client with the flat record format.
    Thunderbird,
}

/// Why a configuration cannot be rendered.
#[derive(Debug, Clone, Copy, PartialEq, Eq)]
pub enum Error {
    /// An account has no identifier for the client `target`.
    MissingIdentifier { target: PrintFormat },
}

/// An error in words.
pub open spec fn error_text(error: Error) -> Seq<char> {
    match error {
        Error::MissingIdentifier { target: PrintFormat::Evolution } => "evolution_id is missing"@,
        Error::MissingIdentifier { target: PrintFormat::Thunderbird } => "thunderbird_id is missing"@,
    }
}

impl Error {
    /// The error in words: those of the renderer that gave it.
    pub fn to_string(&self) -> (text: String)
        ensures
            text@ == error_text(*self),
    {
        match self {
            Error::MissingIdentifier { target: PrintFormat::Evolution } => {
                evolution::Error::MissingEvolutionId.to_string()
            },
            Error::MissingIdentifier { target: PrintFormat::Thunderbird } => {
                thunderbird::Error::MissingThunderbirdId.to_string()
            },
        }
    }
}

/// What rendering `config` for the client `format` gives: the document of
/// that client's renderer, or the error that names the client.
pub open spec fn rendered(config: ConfigurationView, format: PrintFormat) -> Result<
    Seq<char>,
    Error,
> {
    match format {
        PrintFormat::Evolution => match evolution::rendered(config) {
            Ok(text) => Ok(text),
            Err(_) => Err(Error::MissingIdentifier { target: PrintFormat::Evolution }),
        },
        PrintFormat::Thunderbird => match thunderbird::rendered(config) {
            Ok(text) => Ok(text),
            Err(_) => Err(Error::MissingIdentifier { target: PrintFormat::Thunderbird }),
        },
    }
}

/// The view of a result of rendering: the text of the document, or the
/// error as it is.
pub open spec fn result_view<E>(result: Result<String, E>) -> Result<Seq<char>, E> {
    match result {
        Ok(text) => Ok(text@),
        Err(error) => Err(error),
    }
}

/// Renders `config` for the client `format`. Fails, with no document, if
/// and only if an account has no identifier for that client; the
/// identifiers for the other client are not looked at.
pub fn print_config(config: Configuration, format: PrintFormat) -> (result: Result<String, Error>)
    ensures
        result_view(result) == rendered(config@, format),
{
    match format {
        PrintFormat::Evolution => match evolution::print_config(config) {
            Ok(text) => Ok(text),
            Err(_) => Err(Error::MissingIdentifier { target: PrintFormat::Evolution }),
        },
        PrintFormat::Thunderbird => match thunderbird::print_config(config) {
            Ok(text) => Ok(text),
            Err(_) => Err(Error::MissingIdentifier { target: PrintFormat::Thunderbird }),
        },
    }
}

/// Rendering succeeds for a client if and only if every account has the
/// identifier for that client, whatever it has for the other.
pub proof fn lemma_targets_are_independent(config: ConfigurationView)
    ensures
        rendered(config, PrintFormat::Evolution) is Ok <==> evolution::renderable(config),
        rendered(config, PrintFormat::Thunderbird) is Ok <==> thunderbird::renderable(config),
        rendered(config, PrintFormat::Evolution) is Err ==> rendered(config, PrintFormat::Evolution)
            == Err::<Seq<char>, Error>(Error::MissingIdentifier { target: PrintFormat::Evolution }),
        rendered(config, PrintFormat::Thunderbird) is Err ==> rendered(
            config,
            PrintFormat::Thunderbird,
        ) == Err::<Seq<char>, Error>(Error::MissingIdentifier { target: PrintFormat::Thunderbird }),
{
}

/// Rendering is a function of the configuration and the client: two
/// renderings of configurations with the same view for the same client
/// give the same text, or the same error.
pub proof fn lemma_rendering_is_deterministic(
    first: Configuration,
    second: Configuration,
    format: PrintFormat,
    first_result: Result<String, Error>,
    second_result: Result<String, Error>,
)
    requires
        first@ == second@,
        result_view(first_result) == rendered(first@, format),
        result_view(second_result) == rendered(second@, format),
    ensures
        result_view(first_result) == result_view(second_result),
{
}

} // verus!
