use auth_service::auth_service_impl::AuthServiceImpl;
use auth_service::memory_repos::InMemoryCredentialsRepo;
use auth_service::memory_repos::InMemoryTokenRepo;
use auth_service::ports::AuthService;
use auth_service::ports::Credentials;
use auth_service::ports::CredentialsRepo;
use auth_service::ports::TokenRepo;

#[test]
fn test_login_success() {
    let credentials = Credentials {
        username: String::from("username"),
        password: String::from("password"),
    };

    let token = String::from("token");

    let mut credential_repo = InMemoryCredentialsRepo::new();
    assert!(credential_repo.save_credentials(&credentials));

    let token_repo = InMemoryTokenRepo::with_fixed_token(token.clone());

    let mut sut = AuthServiceImpl {
        credential_repo,
        token_repo,
    };

    let actual = sut.login(&credentials);

    assert_eq!(Some(token.clone()), actual);
}

#[test]
fn register_login_authenticate_round_trip() {
    let alice = Credentials {
        username: String::from("alice"),
        password: String::from("p1"),
    };

    let mut sut = AuthServiceImpl {
        credential_repo: InMemoryCredentialsRepo::new(),
        token_repo: InMemoryTokenRepo::new(),
    };

    assert_eq!(true, sut.register(&alice));

    let token = sut.login(&alice).expect("login with registered credentials must issue a token");
    assert_eq!(Some(String::from("alice")), sut.authenticate(&token));

    let wrong = Credentials {
        username: String::from("alice"),
        password: String::from("wrong"),
    };
    assert_eq!(None, sut.login(&wrong));

    assert_eq!(None, sut.authenticate(&String::from("nonexistent-token")));
}

#[test]
fn exists_false_before_register_true_after() {
    let carol = Credentials {
        username: String::from("carol"),
        password: String::from("secret"),
    };

    let mut repo = InMemoryCredentialsRepo::new();
    assert_eq!(false, repo.credentials_exist(&carol));
    assert_eq!(true, repo.save_credentials(&carol));
    assert_eq!(true, repo.credentials_exist(&carol));

    let other_password = Credentials {
        username: String::from("carol"),
        password: String::from("other"),
    };
    assert_eq!(false, repo.credentials_exist(&other_password));
}

#[test]
fn login_fails_when_token_save_fails() {
    let alice = Credentials {
        username: String::from("alice"),
        password: String::from("p1"),
    };

    let mut sut = AuthServiceImpl {
        credential_repo: InMemoryCredentialsRepo::new(),
        token_repo: InMemoryTokenRepo::with_failing_saves(String::from("token")),
    };

    assert_eq!(true, sut.register(&alice));
    assert_eq!(None, sut.login(&alice));
    assert_eq!(None, sut.authenticate(&String::from("token")));
}

#[test]
fn authenticate_is_idempotent_without_mutation() {
    let bob = Credentials {
        username: String::from("bob"),
        password: String::from("pw"),
    };

    let mut sut = AuthServiceImpl {
        credential_repo: InMemoryCredentialsRepo::new(),
        token_repo: InMemoryTokenRepo::new(),
    };

    assert_eq!(true, sut.register(&bob));
    let token = sut.login(&bob).expect("login with registered credentials must issue a token");

    let first = sut.authenticate(&token);
    let second = sut.authenticate(&token);
    let third = sut.authenticate(&token);
    assert_eq!(Some(String::from("bob")), first);
    assert_eq!(first, second);
    assert_eq!(second, third);

    let absent = String::from("never-issued");
    assert_eq!(sut.authenticate(&absent), sut.authenticate(&absent));
}

#[test]
fn issued_token_survives_unrelated_logins() {
    let alice = Credentials {
        username: String::from("alice"),
        password: String::from("p1"),
    };
    let bob = Credentials {
        username: String::from("bob"),
        password: String::from("p2"),
    };

    let mut sut = AuthServiceImpl {
        credential_repo: InMemoryCredentialsRepo::new(),
        token_repo: InMemoryTokenRepo::new(),
    };

    assert_eq!(true, sut.register(&alice));
    assert_eq!(true, sut.register(&bob));

    let alice_token = sut.login(&alice).expect("login must issue a token");
    let bob_token = sut.login(&bob).expect("login must issue a token");
    assert_ne!(alice_token, bob_token);

    assert_eq!(Some(String::from("alice")), sut.authenticate(&alice_token));
    assert_eq!(Some(String::from("bob")), sut.authenticate(&bob_token));
}

#[test]
fn later_save_overrides_earlier_mapping() {
    let mut repo = InMemoryTokenRepo::new();
    let token = String::from("shared-token");
    assert_eq!(true, repo.save_token(&token, &String::from("first")));
    assert_eq!(true, repo.save_token(&token, &String::from("second")));
    assert_eq!(Some(String::from("second")), repo.get_username_by_token(&token));
}

#[test]
fn generated_tokens_are_fresh_text() {
    let repo = InMemoryTokenRepo::new();
    let a = repo.generate_token();
    let b = repo.generate_token();
    assert_eq!(36, a.len());
    assert_eq!(36, b.len());
    assert_ne!(a, b);
}

#[test]
fn token_repo_save_and_lookup() {
    let mut repo = InMemoryTokenRepo::new();
    let token = repo.generate_token();
    let username = String::from("username");

    assert_eq!(None, repo.get_username_by_token(&token));
    assert_eq!(true, repo.save_token(&token, &username));
    assert_eq!(Some(username), repo.get_username_by_token(&token));
}
