//! Resolution of a secret from the caller's credentials or the environment.

use vstd::prelude::*;

verus! {

/// Where a secret was found. The credentials take precedence over the
/// environment; the environment is only consulted when they lack the key.
#[derive(Clone, Debug)]
pub enum SecretSource {
    InCredentials(String),
    InEnvironment(String),
    NotFound,
}

pub ghost enum SecretSourceView {
    InCredentials(Seq<char>),
    InEnvironment(Seq<char>),
    NotFound,
}

impl View for SecretSource {
    type V = SecretSourceView;

    open spec fn view(&self) -> SecretSourceView {
        match self {
            SecretSource::InCredentials(s) => SecretSourceView::InCredentials(s@),
            SecretSource::InEnvironment(s) => SecretSourceView::InEnvironment(s@),
            SecretSource::NotFound => SecretSourceView::NotFound,
        }
    }
}

/// The secret that a source holds, if any.
pub open spec fn secret_of(s: SecretSourceView) -> Option<Seq<char>> {
    match s {
        SecretSourceView::InCredentials(k) => Some(k),
        SecretSourceView::InEnvironment(k) => Some(k),
        SecretSourceView::NotFound => None,
    }
}

pub open spec fn resolve_spec(
    from_credentials: Option<Seq<char>>,
    from_environment: Option<Seq<char>>,
) -> SecretSourceView {
    match from_credentials {
        Some(k) => SecretSourceView::InCredentials(k),
        None => match from_environment {
            Some(k) => SecretSourceView::InEnvironment(k),
            None => SecretSourceView::NotFound,
        },
    }
}

pub open spec fn opt_string_view(o: Option<String>) -> Option<Seq<char>> {
    match o {
        Some(s) => Some(s@),
        None => None,
    }
}

/// Combines the entry of the credentials and the value of the environment
/// variable (each `None` when absent) into a tagged result. A caller only
/// needs to read the environment when the credentials lack the entry.
pub fn resolve_secret(from_credentials: Option<String>, from_environment: Option<String>) -> (r:
    SecretSource)
    ensures
        r@ == resolve_spec(opt_string_view(from_credentials), opt_string_view(from_environment)),
{
    match from_credentials {
        Some(k) => SecretSource::InCredentials(k),
        None => match from_environment {
            Some(k) => SecretSource::InEnvironment(k),
            None => SecretSource::NotFound,
        },
    }
}

} // verus!
