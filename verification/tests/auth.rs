use spotuify::auth::{
    authorization_code, build_authorization_url, challenge_of_digest, exchange_form, find_code, generate_code_challenge,
    generate_code_verifier, refresh_form, AuthError, AuthEvent, AuthStep, SpotifyToken,
    CALLBACK_ADDRESS, REDIRECT_URI,
};

fn pair(name: &str, value: &str) -> (String, String) {
    (name.to_string(), value.to_string())
}

fn token(refresh_token: Option<&str>) -> SpotifyToken {
    SpotifyToken {
        access_token: "access".to_string(),
        scope: "scope".to_string(),
        expires_in: 3600,
        refresh_token: refresh_token.map(|t| t.to_string()),
    }
}

#[test]
fn verifiers_are_64_letters_and_digits() {
    let first = generate_code_verifier();
    let second = generate_code_verifier();
    for verifier in [&first, &second] {
        assert_eq!(verifier.len(), 64);
        assert!(verifier.chars().all(|c| c.is_ascii_alphanumeric()));
    }
    assert_ne!(first, second);
}

#[test]
fn the_challenge_of_rfc_7636() {
    assert_eq!(
        generate_code_challenge("dBjftJeZ4CVP-mB92K27uhbUJU1p1r_wW1gFWFOEjXk"),
        "E9Melhoa2OwvFrEMTJguCHaoeK1t8URWbuGJSstw-cM"
    );
}

#[test]
fn digests_are_written_without_padding() {
    assert_eq!(challenge_of_digest(&Vec::new()), "");
    assert_eq!(challenge_of_digest(&vec![0xfb]), "-w");
    assert_eq!(challenge_of_digest(&vec![0xff, 0xef]), "_-8");
    assert_eq!(challenge_of_digest(&vec![b'M', b'a', b'n']), "TWFu");
    assert_eq!(challenge_of_digest(&vec![b'M', b'a', b'n', 0]), "TWFuAA");
}

#[test]
fn an_exchange_needs_a_code() {
    let step = AuthStep::exchange("id", Ok("c".to_string()), "secret");
    assert!(matches!(step, AuthStep::Exchange { form } if form == exchange_form("id", "c", "secret")));
    let step = AuthStep::exchange("id", Err(AuthError::NoCode), "secret");
    assert!(matches!(step, AuthStep::Fail { error: AuthError::NoCode }));
}

#[test]
fn the_challenge_of_nothing() {
    assert_eq!(generate_code_challenge(""), "47DEQpj8HBSa-_TImW-5JCeuQeRkm5NMpJWZG3hSuFU");
}

#[test]
fn the_authorization_address() {
    assert_eq!(
        build_authorization_url("my id", "abc-_"),
        "https://accounts.spotify.com/authorize?response_type=code&client_id=my+id\
         &scope=user-read-playback-state+user-modify-playback-state+user-read-recently-played\
         &code_challenge_method=S256&code_challenge=abc-_\
         &redirect_uri=http%3A%2F%2F127.0.0.1%3A8888%2Fcallback"
    );
    assert!(build_authorization_url("ä&=~*", "c").contains("client_id=%C3%A4%26%3D%7E*&"));
}

#[test]
fn the_code_is_read_from_the_callback() {
    assert_eq!(authorization_code("/callback?code=abc").ok().unwrap(), "abc");
    assert_eq!(authorization_code("/callback?state=1&code=a%20b+c").ok().unwrap(), "a b c");
    assert_eq!(authorization_code("/callback?code=1&code=2").ok().unwrap(), "1");
    assert_eq!(authorization_code("/?code=%C3%A4").ok().unwrap(), "ä");
    assert_eq!(authorization_code("/callback?code").ok().unwrap(), "");
}

#[test]
fn a_callback_without_a_code() {
    for target in ["/callback", "/callback?", "/callback?error=access_denied", "/favicon.ico"] {
        let error = authorization_code(target).err().unwrap();
        assert!(matches!(error, AuthError::NoCode));
        assert!(error.answers_browser());
        assert_eq!(error.message(), Some("Spotify did not return an authorization code"));
    }
}

#[test]
fn a_callback_to_no_address() {
    let error = authorization_code(":x/callback?code=1").err().unwrap();
    assert!(matches!(error, AuthError::InvalidUrl { error: url::ParseError::InvalidPort }));
    assert!(!error.answers_browser());
    assert_eq!(error.message(), None);
}

#[test]
fn the_first_code_is_found() {
    assert_eq!(find_code(&Vec::new()), None);
    assert_eq!(find_code(&vec![pair("Code", "1"), pair("codes", "2")]), None);
    assert_eq!(
        find_code(&vec![pair("a", "1"), pair("code", "2"), pair("code", "3")]),
        Some("2".to_string())
    );
}

#[test]
fn the_forms() {
    assert_eq!(
        exchange_form("id", "code", "secret"),
        vec![
            pair("grant_type", "authorization_code"),
            pair("code", "code"),
            pair("redirect_uri", "http://127.0.0.1:8888/callback"),
            pair("client_id", "id"),
            pair("code_verifier", "secret"),
        ]
    );
    assert_eq!(
        refresh_form("id", "old"),
        vec![
            pair("grant_type", "refresh_token"),
            pair("refresh_token", "old"),
            pair("client_id", "id"),
        ]
    );
}

#[test]
fn a_stored_token_is_refreshed() {
    let step = AuthStep::begin("id", Some(" \n old\u{a0}token\t\u{3000}\r\n".to_string()));
    match &step {
        AuthStep::Refresh { form } => assert_eq!(form[1], pair("refresh_token", "old\u{a0}token")),
        other => panic!("{other:?}"),
    }
    let done = step.next("id", AuthEvent::Token { token: token(Some("new")) });
    assert!(matches!(
        done,
        AuthStep::Finish { save: Some(save), access_token } if save == "new"
            && access_token == "access"
    ));
    let done = AuthStep::begin("id", Some("old".to_string()))
        .next("id", AuthEvent::Token { token: token(None) });
    assert!(matches!(done, AuthStep::Finish { save: None, .. }));
}

#[test]
fn a_first_authorization() {
    let step = AuthStep::begin("id", None);
    assert!(matches!(step, AuthStep::Listen { .. }));
    let step = step.next("id", AuthEvent::Listening);
    let verifier = match &step {
        AuthStep::Authorize { url, verifier } => {
            assert_eq!(
                *url,
                build_authorization_url("id", &generate_code_challenge(verifier))
            );
            verifier.clone()
        }
        other => panic!("{other:?}"),
    };
    let step = step.next("id", AuthEvent::Callback { target: "/callback?code=xyz".to_string() });
    match &step {
        AuthStep::Exchange { form } => {
            assert_eq!(*form, exchange_form("id", "xyz", &verifier));
        }
        other => panic!("{other:?}"),
    }
    let done = step.next("id", AuthEvent::Token { token: token(Some("keep")) });
    assert!(matches!(done, AuthStep::Finish { save: Some(save), .. } if save == "keep"));
}

#[test]
fn a_first_authorization_fails() {
    let step = AuthStep::authorize("id", "secret".to_string()).next("id", AuthEvent::Listening);
    let failed = step.next("id", AuthEvent::Callback { target: "/callback".to_string() });
    assert!(matches!(failed, AuthStep::Fail { error: AuthError::NoCode }));
    let step = AuthStep::authorize("id", "secret".to_string())
        .next("id", AuthEvent::Listening)
        .next("id", AuthEvent::Callback { target: "/callback?code=1".to_string() });
    let failed = step.next("id", AuthEvent::Token { token: token(None) });
    match failed {
        AuthStep::Fail { error } => {
            assert_eq!(error.message(), Some("Spotify did not return a refresh token"));
        }
        other => panic!("{other:?}"),
    }
}

#[test]
fn events_that_do_not_belong_to_a_step_change_nothing() {
    let step = AuthStep::authorize("id", "secret".to_string());
    let step = step.next("id", AuthEvent::Token { token: token(Some("x")) });
    assert!(matches!(step, AuthStep::Listen { .. }));
    let step = step.next("id", AuthEvent::Listening).next("id", AuthEvent::Listening);
    assert!(matches!(step, AuthStep::Authorize { verifier, .. } if verifier == "secret"));
    let step = AuthStep::begin("id", Some("old".to_string()));
    let step = step.next("id", AuthEvent::Callback { target: "/callback?code=1".to_string() });
    assert!(matches!(step, AuthStep::Refresh { .. }));
}

#[test]
fn the_browser_waits_until_it_is_listened_for() {
    let step = AuthStep::authorize("id", "secret".to_string());
    let step = step.next("id", AuthEvent::Callback { target: "/callback?code=1".to_string() });
    match step {
        AuthStep::Listen { url, verifier } => {
            assert_eq!(verifier, "secret");
            assert_eq!(url, build_authorization_url("id", &generate_code_challenge("secret")));
        }
        other => panic!("{other:?}"),
    }
    assert!(REDIRECT_URI.contains(CALLBACK_ADDRESS));
}
