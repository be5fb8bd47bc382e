//! The port contracts: the credential store and the token store as abstract
//! capabilities, and the authentication capability built on top of them.
//!
//! Each port is a trait whose spec functions give the store's mathematical
//! state and whose method contracts say how each operation reads or changes
//! that state. Any backend that satisfies the contracts can stand behind the
//! policy.

use vstd::prelude::*;

verus! {

/// A username/password pair submitted for registration or login.
/// Compared for equality by value; the core performs no normalization.
#[derive(Debug)]
pub struct Credentials {
    pub username: String,
    pub password: String,
}

/// The mathematical value of a `Credentials`: both fields as character
/// sequences.
pub ghost struct CredentialsView {
    pub username: Seq<char>,
    pub password: Seq<char>,
}

impl View for Credentials {
    type V = CredentialsView;

    open spec fn view(&self) -> CredentialsView {
        CredentialsView { username: self.username@, password: self.password@ }
    }
}

impl Clone for Credentials {
    fn clone(&self) -> (r: Self)
        ensures
            r@ == self@,
    {
        Credentials { username: self.username.clone(), password: self.password.clone() }
    }
}

impl PartialEq for Credentials {
    fn eq(&self, other: &Self) -> (r: bool) {
        self.username == other.username && self.password == other.password
    }
}

impl vstd::std_specs::cmp::PartialEqSpecImpl for Credentials {
    open spec fn obeys_eq_spec() -> bool {
        true
    }

    open spec fn eq_spec(&self, other: &Self) -> bool {
        self@ == other@
    }
}

/// An opaque session token. The core assumes no internal structure;
/// generation and format are the token store's responsibility.
pub type Token = String;

/// What a lookup answer means mathematically: the association the map holds
/// for the token, absence where the map holds none.
pub open spec fn token_lookup(m: Map<Seq<char>, Seq<char>>, token: Seq<char>) -> Option<Seq<char>> {
    if m.dom().contains(token) {
        Some(m[token])
    } else {
        None
    }
}

/// The mathematical value of an optional username.
pub open spec fn opt_username_view(r: Option<String>) -> Option<Seq<char>> {
    match r {
        Some(u) => Some(u@),
        None => None,
    }
}

/// The credential store port: persists credential records and answers
/// exact-match existence queries over them.
pub trait CredentialsRepo: Sized {
    /// The set of credential records the store currently holds.
    spec fn creds(&self) -> Set<CredentialsView>;

    /// The states in which a save succeeds. A backend standing in for an
    /// unreliable store declares here when it refuses.
    spec fn saves_succeed(&self) -> bool;

    /// Persist a new credential record; the boolean reports success.
    /// A successful save adds exactly the submitted record; a failed save
    /// leaves the store unchanged.
    fn save_credentials(&mut self, credentials: &Credentials) -> (r: bool)
        ensures
            r == old(self).saves_succeed(),
            r ==> final(self).creds() == old(self).creds().insert(credentials@),
            !r ==> final(self).creds() == old(self).creds(),
            final(self).saves_succeed() == old(self).saves_succeed(),
    ;

    /// True iff a record matches both username and password exactly as
    /// submitted.
    fn credentials_exist(&self, credentials: &Credentials) -> (r: bool)
        ensures
            r == self.creds().contains(credentials@),
    ;
}

/// The token store port: generates opaque tokens, persists token-to-username
/// mappings, and resolves tokens back to usernames.
pub trait TokenRepo: Sized {
    /// The token-to-username mapping the store currently holds.
    spec fn tokens(&self) -> Map<Seq<char>, Seq<char>>;

    /// The states in which a save succeeds. A backend standing in for an
    /// unreliable store declares here when it refuses.
    spec fn saves_succeed(&self) -> bool;

    /// Produce a fresh token value. Generation commits no mapping: the
    /// store's state is read-only here.
    fn generate_token(&self) -> (t: Token);

    /// Persist the token-to-username mapping; the boolean reports success.
    /// A successful save commits exactly the submitted mapping (overwriting
    /// any previous mapping for the token); a failed save leaves the store
    /// unchanged.
    fn save_token(&mut self, token: &Token, username: &String) -> (r: bool)
        ensures
            r == old(self).saves_succeed(),
            r ==> final(self).tokens() == old(self).tokens().insert(token@, username@),
            !r ==> final(self).tokens() == old(self).tokens(),
            final(self).saves_succeed() == old(self).saves_succeed(),
    ;

    /// Return the username associated with the token, absence otherwise.
    fn get_username_by_token(&self, token: &Token) -> (r: Option<String>)
        ensures
            opt_username_view(r) == token_lookup(self.tokens(), token@),
    ;
}

/// The authentication capability: register credentials, exchange them for a
/// session token, and resolve a token back to a username.
pub trait AuthService: Sized {
    /// The credential records known to the service's credential store.
    spec fn known_creds(&self) -> Set<CredentialsView>;

    /// The token-to-username mappings committed to the service's token store.
    spec fn sessions(&self) -> Map<Seq<char>, Seq<char>>;

    /// Whether the service's credential store currently guarantees its saves.
    spec fn cred_saves_succeed(&self) -> bool;

    /// Whether the service's token store currently guarantees its saves.
    spec fn token_saves_succeed(&self) -> bool;

    /// Register a new user: delegate to the credential store's save and
    /// report whatever success or failure the store reports.
    fn register(&mut self, credentials: &Credentials) -> (r: bool)
        ensures
            r == old(self).cred_saves_succeed(),
            r ==> final(self).known_creds() == old(self).known_creds().insert(credentials@),
            !r ==> final(self).known_creds() == old(self).known_creds(),
            final(self).cred_saves_succeed() == old(self).cred_saves_succeed(),
            final(self).sessions() == old(self).sessions(),
            final(self).token_saves_succeed() == old(self).token_saves_succeed(),
    ;

    /// Exchange credentials for a token. A token comes back exactly when the
    /// credential store holds the submitted credentials and the token store
    /// committed the generated token's mapping; any failed step yields
    /// absence and commits nothing.
    fn login(&mut self, credentials: &Credentials) -> (t: Option<Token>)
        ensures
            final(self).known_creds() == old(self).known_creds(),
            final(self).cred_saves_succeed() == old(self).cred_saves_succeed(),
            final(self).token_saves_succeed() == old(self).token_saves_succeed(),
            t is Some <==> old(self).known_creds().contains(credentials@) && old(
                self,
            ).token_saves_succeed(),
            t matches Some(tok) ==> final(self).sessions() == old(self).sessions().insert(
                tok@,
                credentials@.username,
            ),
            t is None ==> final(self).sessions() == old(self).sessions(),
    ;

    /// Resolve a token: delegate to the token store's lookup and return its
    /// answer verbatim.
    fn authenticate(&self, token: &Token) -> (r: Option<String>)
        ensures
            opt_username_view(r) == token_lookup(self.sessions(), token@),
    ;
}

} // verus!
