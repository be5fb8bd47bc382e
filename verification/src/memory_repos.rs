//! In-memory backends for the two storage ports: a credential store over a
//! vector of records and a token store over a vector of token/username pairs.
//!
//! Both satisfy the port contracts of `ports` and double as configurable test
//! backends: the token store can hand out a fixed token instead of a random
//! one, and can be made to refuse saves, to exercise the login pipeline's
//! short-circuit behaviour.

use vstd::prelude::*;

use crate::ports::Credentials;
use crate::ports::CredentialsRepo;
use crate::ports::CredentialsView;
use crate::ports::Token;
use crate::ports::TokenRepo;

verus! {

/// The set of credential records a sequence of stored values denotes.
pub open spec fn credentials_set(s: Seq<Credentials>) -> Set<CredentialsView>
    decreases s.len(),
{
    if s.len() == 0 {
        Set::empty()
    } else {
        credentials_set(s.drop_last()).insert(s.last()@)
    }
}

/// Membership in the denoted set is exactly having a matching record at some
/// index of the stored sequence.
pub proof fn lemma_credentials_set_contains(s: Seq<Credentials>, v: CredentialsView)
    ensures
        credentials_set(s).contains(v) <==> exists|i: int| 0 <= i < s.len() && s[i]@ == v,
    decreases s.len(),
{
    if s.len() > 0 {
        let prefix = s.drop_last();
        lemma_credentials_set_contains(prefix, v);
        if credentials_set(s).contains(v) {
            if v == s.last()@ {
                assert(s[s.len() - 1]@ == v);
            } else {
                let i = choose|i: int| 0 <= i < prefix.len() && prefix[i]@ == v;
                assert(s[i]@ == v);
            }
        }
        if exists|i: int| 0 <= i < s.len() && s[i]@ == v {
            let i = choose|i: int| 0 <= i < s.len() && s[i]@ == v;
            if i < s.len() - 1 {
                assert(prefix[i]@ == v);
            }
        }
    }
}

/// A credential store backed by a growable vector of records. Saves always
/// succeed; duplicate registrations simply add another matching record, which
/// leaves the denoted set unchanged beyond the submitted value.
pub struct InMemoryCredentialsRepo {
    records: Vec<Credentials>,
}

impl InMemoryCredentialsRepo {
    /// An empty store: no credentials exist in it, and every save succeeds.
    pub fn new() -> (r: Self)
        ensures
            r.creds() == Set::<CredentialsView>::empty(),
            r.saves_succeed(),
    {
        InMemoryCredentialsRepo { records: Vec::new() }
    }
}

impl CredentialsRepo for InMemoryCredentialsRepo {
    closed spec fn creds(&self) -> Set<CredentialsView> {
        credentials_set(self.records@)
    }

    closed spec fn saves_succeed(&self) -> bool {
        true
    }

    fn save_credentials(&mut self, credentials: &Credentials) -> (r: bool) {
        self.records.push(credentials.clone());
        proof {
            assert(self.records@.drop_last() =~= old(self).records@);
            assert(credentials_set(self.records@) =~= credentials_set(old(self).records@).insert(
                credentials@,
            ));
        }
        true
    }

    fn credentials_exist(&self, credentials: &Credentials) -> (r: bool) {
        let n = self.records.len();
        let mut i: usize = 0;
        while i < n
            invariant
                n == self.records@.len(),
                0 <= i <= n,
                forall|j: int| 0 <= j < i ==> self.records@[j]@ != credentials@,
            decreases n - i,
        {
            if self.records[i] == *credentials {
                proof {
                    lemma_credentials_set_contains(self.records@, credentials@);
                }
                return true;
            }
            i += 1;
        }
        proof {
            lemma_credentials_set_contains(self.records@, credentials@);
        }
        false
    }
}

/// The token-to-username map a sequence of saved pairs denotes. A later save
/// wins: the pair nearest the end of the sequence gives a token's mapping.
pub open spec fn entries_map(s: Seq<(String, String)>) -> Map<Seq<char>, Seq<char>>
    decreases s.len(),
{
    if s.len() == 0 {
        Map::empty()
    } else {
        entries_map(s.drop_last()).insert(s.last().0@, s.last().1@)
    }
}

/// A pair with no matching key after it gives the denoted map's value for
/// that key.
pub proof fn lemma_entries_map_last_match(s: Seq<(String, String)>, i: int)
    requires
        0 <= i < s.len(),
        forall|j: int| i < j < s.len() ==> s[j].0@ != s[i].0@,
    ensures
        entries_map(s).dom().contains(s[i].0@),
        entries_map(s)[s[i].0@] == s[i].1@,
    decreases s.len(),
{
    if i < s.len() - 1 {
        let prefix = s.drop_last();
        assert(prefix[i] == s[i]);
        lemma_entries_map_last_match(prefix, i);
    }
}

/// A key that no saved pair carries is outside the denoted map.
pub proof fn lemma_entries_map_no_match(s: Seq<(String, String)>, t: Seq<char>)
    requires
        forall|j: int| 0 <= j < s.len() ==> s[j].0@ != t,
    ensures
        !entries_map(s).dom().contains(t),
    decreases s.len(),
{
    if s.len() > 0 {
        let prefix = s.drop_last();
        assert(forall|j: int| 0 <= j < prefix.len() ==> prefix[j] == s[j]);
        lemma_entries_map_no_match(prefix, t);
    }
}

/// Relies on uuid::Uuid::new_v4 and its Display form: a fresh random
/// version-4 identifier rendered as 36 characters of hyphenated lowercase
/// hexadecimal text.
#[verifier::external_body]
fn random_token_text() -> (t: String)
    ensures
        t@.len() == 36,
{
    uuid::Uuid::new_v4().to_string()
}

/// A token store backed by a growable vector of token/username pairs, with a
/// later save overriding an earlier one for the same token.
///
/// By default it generates random tokens and accepts every save. For
/// exercising callers it can instead hand out one fixed token, and it can be
/// made to refuse saves, standing in for a store behind a failing connection.
pub struct InMemoryTokenRepo {
    entries: Vec<(String, String)>,
    fixed_token: Option<String>,
    accept_saves: bool,
}

impl InMemoryTokenRepo {
    /// An empty store that generates random tokens and accepts saves.
    pub fn new() -> (r: Self)
        ensures
            r.tokens() == Map::<Seq<char>, Seq<char>>::empty(),
            r.saves_succeed(),
    {
        InMemoryTokenRepo { entries: Vec::new(), fixed_token: None, accept_saves: true }
    }

    /// An empty store whose generator hands out the given token each time,
    /// in place of a random one.
    pub fn with_fixed_token(token: String) -> (r: Self)
        ensures
            r.tokens() == Map::<Seq<char>, Seq<char>>::empty(),
            r.saves_succeed(),
            r.fixed() == Some(token@),
    {
        InMemoryTokenRepo { entries: Vec::new(), fixed_token: Some(token), accept_saves: true }
    }

    /// An empty store like `with_fixed_token`, except that every save is
    /// refused: generation succeeds, persistence fails.
    pub fn with_failing_saves(token: String) -> (r: Self)
        ensures
            r.tokens() == Map::<Seq<char>, Seq<char>>::empty(),
            !r.saves_succeed(),
            r.fixed() == Some(token@),
    {
        InMemoryTokenRepo { entries: Vec::new(), fixed_token: Some(token), accept_saves: false }
    }

    /// The token the generator is pinned to, if any.
    pub closed spec fn fixed(&self) -> Option<Seq<char>> {
        match self.fixed_token {
            Some(t) => Some(t@),
            None => None,
        }
    }
}

impl TokenRepo for InMemoryTokenRepo {
    closed spec fn tokens(&self) -> Map<Seq<char>, Seq<char>> {
        entries_map(self.entries@)
    }

    closed spec fn saves_succeed(&self) -> bool {
        self.accept_saves
    }

    fn generate_token(&self) -> (t: Token)
        ensures
            self.fixed() matches Some(f) ==> t@ == f,
            self.fixed() is None ==> t@.len() == 36,
    {
        match &self.fixed_token {
            Some(t) => t.clone(),
            None => random_token_text(),
        }
    }

    fn save_token(&mut self, token: &Token, username: &String) -> (r: bool) {
        if !self.accept_saves {
            return false;
        }
        self.entries.push((token.clone(), username.clone()));
        proof {
            assert(self.entries@.drop_last() =~= old(self).entries@);
            assert(entries_map(self.entries@) =~= entries_map(old(self).entries@).insert(
                token@,
                username@,
            ));
        }
        true
    }

    fn get_username_by_token(&self, token: &Token) -> (r: Option<String>) {
        let mut i: usize = self.entries.len();
        while i > 0
            invariant
                0 <= i <= self.entries@.len(),
                forall|j: int| i <= j < self.entries@.len() ==> self.entries@[j].0@ != token@,
            decreases i,
        {
            i -= 1;
            if self.entries[i].0 == *token {
                proof {
                    lemma_entries_map_last_match(self.entries@, i as int);
                }
                return Some(self.entries[i].1.clone());
            }
        }
        proof {
            lemma_entries_map_no_match(self.entries@, token@);
        }
        None
    }
}

} // verus!
