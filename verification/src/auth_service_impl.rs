//! The authentication policy: a stateless orchestrator over an injected
//! credential store and token store.
//!
//! `login` is a strict sequential pipeline — existence check, then token
//! generation, then persistence — that short-circuits to absence on any
//! failed step and commits nothing until the final persist succeeds.

use vstd::prelude::*;

use crate::ports::AuthService;
use crate::ports::Credentials;
use crate::ports::CredentialsRepo;
use crate::ports::CredentialsView;
use crate::ports::Token;
use crate::ports::TokenRepo;
use crate::ports::opt_username_view;
use crate::ports::token_lookup;

verus! {

/// The authentication policy over two injected store capabilities. It holds
/// no state of its own beyond the two stores.
pub struct AuthServiceImpl<C: CredentialsRepo, T: TokenRepo> {
    pub credential_repo: C,
    pub token_repo: T,
}

impl<C: CredentialsRepo, T: TokenRepo> AuthService for AuthServiceImpl<C, T> {
    open spec fn known_creds(&self) -> Set<CredentialsView> {
        self.credential_repo.creds()
    }

    open spec fn sessions(&self) -> Map<Seq<char>, Seq<char>> {
        self.token_repo.tokens()
    }

    open spec fn cred_saves_succeed(&self) -> bool {
        self.credential_repo.saves_succeed()
    }

    open spec fn token_saves_succeed(&self) -> bool {
        self.token_repo.saves_succeed()
    }

    fn register(&mut self, credentials: &Credentials) -> (r: bool) {
        self.credential_repo.save_credentials(credentials)
    }

    fn login(&mut self, credentials: &Credentials) -> (t: Option<Token>) {
        if !self.credential_repo.credentials_exist(credentials) {
            return None;
        }

        let token = self.token_repo.generate_token();

        if !self.token_repo.save_token(&token, &credentials.username) {
            return None;
        }

        Some(token)
    }

    fn authenticate(&self, token: &Token) -> (r: Option<String>) {
        self.token_repo.get_username_by_token(token)
    }
}

} // verus!
