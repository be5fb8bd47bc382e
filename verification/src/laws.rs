//! The laws the port contracts give the service, stated over the same
//! mathematical state the contracts use: the credential set and the session
//! map.

use vstd::prelude::*;

use crate::ports::CredentialsView;
use crate::ports::token_lookup;

verus! {

/// Registration establishes existence. For a credential record a store does
/// not hold, any existence answer honouring the credential-store contract is
/// false before a successful save of that record and true after it.
pub proof fn lemma_register_establishes_existence(
    s: Set<CredentialsView>,
    c: CredentialsView,
    before: bool,
    after: bool,
)
    requires
        !s.contains(c),
        before == s.contains(c),
        after == s.insert(c).contains(c),
    ensures
        !before,
        after,
{
}

/// A token issued by a successful login resolves to the username the
/// submitted credentials carried: looking the token up in the session map
/// that the login committed yields exactly that username.
pub proof fn lemma_issued_token_resolves(
    sessions: Map<Seq<char>, Seq<char>>,
    token: Seq<char>,
    username: Seq<char>,
)
    ensures
        token_lookup(sessions.insert(token, username), token) == Some(username),
{
}

/// A token never passed to a successful save is outside the session map, and
/// resolving it yields absence.
pub proof fn lemma_unsaved_token_is_absent(sessions: Map<Seq<char>, Seq<char>>, token: Seq<char>)
    requires
        !sessions.dom().contains(token),
    ensures
        token_lookup(sessions, token) is None,
{
}

/// An issued token keeps resolving to its username until the token store
/// overwrites that very token: committing a mapping for a different token
/// leaves the first token's resolution unchanged.
pub proof fn lemma_unrelated_save_preserves_resolution(
    sessions: Map<Seq<char>, Seq<char>>,
    token: Seq<char>,
    other_token: Seq<char>,
    other_username: Seq<char>,
)
    requires
        token != other_token,
    ensures
        token_lookup(sessions.insert(other_token, other_username), token) == token_lookup(
            sessions,
            token,
        ),
{
}

/// Token resolution is idempotent: any two answers that satisfy the lookup
/// contract against the same session map and the same token are equal, so
/// repeated authentication with no intervening store mutation always returns
/// the same result.
pub proof fn lemma_authenticate_idempotent(
    sessions: Map<Seq<char>, Seq<char>>,
    token: Seq<char>,
    r1: Option<Seq<char>>,
    r2: Option<Seq<char>>,
)
    requires
        r1 == token_lookup(sessions, token),
        r2 == token_lookup(sessions, token),
    ensures
        r1 == r2,
{
}

} // verus!
