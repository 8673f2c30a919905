//! Search scopes and the tokens that name them.

use vstd::prelude::*;
use vstd::string::*;
use crate::error::{ClientError, ErrorKind};
use crate::text::same_text;

verus! {

/// How far below the base entry a search reaches.
#[derive(Clone, Copy, Debug, PartialEq, Eq, Structural)]
pub enum Scope {
    /// The base entry alone.
    Base,
    /// The entries directly below the base entry.
    OneLevel,
    /// The base entry and everything below it.
    Subtree,
}

/// The scope that a token names, if it names one. Tokens are case-sensitive.
pub open spec fn scope_of_token(token: Seq<char>) -> Option<Scope> {
    if token == "base"@ {
        Some(Scope::Base)
    } else if token == "one"@ {
        Some(Scope::OneLevel)
    } else if token == "sub"@ {
        Some(Scope::Subtree)
    } else {
        None
    }
}

/// The context line of the error for an unknown scope token.
pub open spec fn invalid_scope_text(token: Seq<char>) -> Seq<char> {
    "Invalid scope: "@ + token
}

/// Resolves a scope token: `base`, `one` and `sub` name the three scopes, and
/// every other token is rejected with `InvalidScope`, the token quoted in the
/// error's context.
pub fn resolve_scope(token: &str) -> (r: Result<Scope, ClientError>)
    ensures
        match r {
            Ok(scope) => scope_of_token(token@) == Some(scope),
            Err(e) => {
                &&& scope_of_token(token@) is None
                &&& e.kind == ErrorKind::InvalidScope
                &&& e.context@ == invalid_scope_text(token@)
                &&& e.cause is None
            },
        },
{
    if same_text(token, "base") {
        Ok(Scope::Base)
    } else if same_text(token, "one") {
        Ok(Scope::OneLevel)
    } else if same_text(token, "sub") {
        Ok(Scope::Subtree)
    } else {
        let mut context = String::from_str("Invalid scope: ");
        context.append(token);
        Err(ClientError::plain(ErrorKind::InvalidScope, context))
    }
}

} // verus!
