use chat::auth::{
    discovery_address, extract_domain_name, guest_credentials, homeserver_from_well_known, registration_auth,
    server_from_homeserver, use_auth, well_known_url, AuthError, CacheLogin, LoggedIn,
    LoginInfoBuilder, RegistrationAuth,
};
use chat::boundary::{parse_url, ServerUrl};

fn server(url: &str) -> ServerUrl {
    parse_url(url).unwrap()
}

#[test]
fn domain_name_is_the_last_two_labels() {
    assert_eq!(extract_domain_name("matrix.example.org"), "example.org");
    assert_eq!(extract_domain_name("example.org"), "example.org");
    assert_eq!(extract_domain_name("a.b.c.d."), "c.d");
}

#[test]
fn domain_name_of_a_domain_name_is_itself() {
    let once = extract_domain_name("chat.matrix.example.org");
    assert_eq!(extract_domain_name(&once), once);
}

#[test]
fn builder_needs_every_field() {
    let mut b = LoginInfoBuilder::new();
    assert!(matches!(b.clone().build(), Err(AuthError::BuildError)));
    b.server(server("https://matrix.org"));
    b.username("@alice:matrix.org");
    assert!(matches!(b.clone().build(), Err(AuthError::BuildError)));
    b.password("secret");
    let info = b.build().unwrap();
    assert_eq!(info.server.url, "https://matrix.org/");
    assert_eq!(info.username, "@alice:matrix.org");
    assert_eq!(info.password, "secret");
}

#[test]
fn homeserver_gets_https_when_no_scheme_is_given() {
    assert_eq!(server_from_homeserver("matrix.org").unwrap().url, "https://matrix.org/");
    assert_eq!(server_from_homeserver("http://localhost:8008").unwrap().url, "http://localhost:8008/");
    assert!(matches!(server_from_homeserver("https://"), Err(AuthError::InvalidHomeserver)));
}

#[test]
fn discovery_address_and_document() {
    let s = server("https://matrix.org");
    assert_eq!(well_known_url(&s), "https://matrix.org/.well-known/matrix/client");
    let body = r#"{"m.homeserver":{"base_url":"https://matrix-client.matrix.org"}}"#;
    let found = homeserver_from_well_known(body).unwrap();
    assert_eq!(found.url, "https://matrix-client.matrix.org/");
    assert_eq!(found.domain, Some(String::from("matrix-client.matrix.org")));
    assert!(matches!(homeserver_from_well_known("not json"), Err(AuthError::InvalidHomeserver)));
    let bad_base = r#"{"m.homeserver":{"base_url":"not a url"}}"#;
    assert!(matches!(homeserver_from_well_known(bad_base), Err(AuthError::InvalidHomeserver)));
}

#[test]
fn json_errors_become_invalid_homeserver() {
    let e = serde_json::from_str::<u8>("x").unwrap_err();
    assert!(matches!(AuthError::from(e), AuthError::InvalidHomeserver));
}

#[test]
fn user_names_get_the_homeserver_domain() {
    let mut auth = use_auth(LoggedIn(false), None);
    auth.set_server(server("https://chat.matrix.org"), true);
    auth.set_username("  alice ", true);
    assert_eq!(auth.get().data.username, Some(String::from("@alice:matrix.org")));
    auth.set_username("@bob:other.org", true);
    assert_eq!(auth.get().data.username, Some(String::from("@bob:other.org")));
    auth.set_username("carolmatrix.org", true);
    assert_eq!(auth.get().data.username, Some(String::from("@carolmatrix.org")));
    auth.set_username("  dave ", false);
    assert_eq!(auth.get().data.username, Some(String::from("dave")));
}

#[test]
fn setting_a_stored_user_name_again_keeps_it() {
    let mut auth = use_auth(LoggedIn(false), None);
    auth.set_server(server("https://matrix.org"), true);
    auth.set_username("alice", true);
    let stored = auth.get().data.username.unwrap();
    auth.set_username(&stored, true);
    assert_eq!(auth.get().data.username, Some(stored));
}

#[test]
fn user_name_without_known_domain_is_not_stored() {
    let mut auth = use_auth(LoggedIn(false), None);
    auth.set_username("alice", true);
    assert_eq!(auth.get().data.username, None);
    auth.set_server(server("http://127.0.0.1:8008"), true);
    auth.set_username("alice", true);
    assert_eq!(auth.get().data.username, None);
}

#[test]
fn failed_client_keeps_server_and_records_error() {
    let mut auth = use_auth(LoggedIn(false), None);
    auth.set_server(server("https://matrix.org"), false);
    assert!(auth.get().data.server.is_none());
    assert!(matches!(auth.get().error, Some(AuthError::ServerNotFound)));
    auth.set_server(server("https://matrix.org"), true);
    assert!(auth.get().data.server.is_some());
    assert!(auth.get().error.is_none());
}

#[test]
fn password_is_trimmed_and_reset_forgets_everything() {
    let mut auth = use_auth(LoggedIn(false), None);
    auth.set_server(server("https://matrix.org"), true);
    auth.set_username("alice", true);
    auth.set_password("  pw  ");
    let info = auth.build().unwrap();
    assert_eq!(info.password, "pw");
    auth.reset();
    assert!(matches!(auth.build(), Err(AuthError::BuildError)));
    assert!(auth.get().data.server.is_none());
}

#[test]
fn login_cache_and_status_read_back() {
    let mut auth = use_auth(LoggedIn(false), None);
    assert!(auth.get_login_cache().is_none());
    auth.set_login_cache(CacheLogin {
        server: String::from("https://matrix.org"),
        username: String::from("@alice:matrix.org"),
        display_name: None,
    });
    let c = auth.get_login_cache().unwrap();
    assert_eq!(c.username, "@alice:matrix.org");
    assert_eq!(auth.is_logged_in(), LoggedIn(false));
    auth.set_logged_in(true);
    assert_eq!(auth.is_logged_in(), LoggedIn(true));
    assert_eq!(auth.get().logged_in, LoggedIn(true));
}

#[test]
fn registration_sends_recaptcha_when_solved() {
    assert!(matches!(registration_auth(None, None), RegistrationAuth::Nothing));
    match registration_auth(Some(String::from("tok")), Some(String::from("s1"))) {
        RegistrationAuth::ReCaptcha { token, session } => {
            assert_eq!(token, "tok");
            assert_eq!(session, Some(String::from("s1")));
        }
        _ => panic!("expected a reCAPTCHA step"),
    }
}

#[test]
fn guest_needs_token_and_device() {
    assert_eq!(
        guest_credentials(Some(String::from("t")), Some(String::from("d"))),
        Ok((String::from("t"), String::from("d")))
    );
    assert_eq!(
        guest_credentials(None, Some(String::from("d"))),
        Err(String::from("Access token or device_id not found"))
    );
    assert_eq!(
        guest_credentials(Some(String::from("t")), None),
        Err(String::from("Access token or device_id not found"))
    );
}

#[test]
fn discovery_address_for_typed_homeservers() {
    assert_eq!(discovery_address("matrix.org"), Ok(String::from("https://matrix.org/.well-known/matrix/client")));
    assert_eq!(discovery_address("http://h.org"), Ok(String::from("http://h.org/.well-known/matrix/client")));
    assert!(matches!(discovery_address("https://"), Err(AuthError::InvalidHomeserver)));
}

#[test]
fn server_choice_from_discovery() {
    let body = Some(String::from(r#"{"m.homeserver":{"base_url":"https://matrix-client.matrix.org"}}"#));
    let mut auth = use_auth(LoggedIn(false), None);
    assert!(matches!(auth.set_server_from("https://", body.clone(), true), Err(AuthError::InvalidHomeserver)));
    assert!(matches!(auth.set_server_from("matrix.org", None, true), Err(AuthError::InvalidHomeserver)));
    assert!(matches!(auth.set_server_from("matrix.org", Some(String::from("{}")), true), Err(AuthError::InvalidHomeserver)));
    assert!(auth.get().data.server.is_none() && auth.get().error.is_none());
    assert!(auth.set_server_from("matrix.org", body.clone(), false).is_ok());
    assert!(matches!(auth.get().error, Some(AuthError::ServerNotFound)));
    assert!(auth.get().data.server.is_none());
    assert!(auth.set_server_from("matrix.org", body, true).is_ok());
    assert_eq!(auth.get().data.server.unwrap().url, "https://matrix-client.matrix.org/");
    assert!(auth.get().error.is_none());
}

#[test]
fn user_names_are_settable_unless_the_domain_lacks_labels() {
    let mut auth = use_auth(LoggedIn(false), None);
    assert!(auth.can_set_username("alice", true));
    auth.set_server(server("http://localhost:8008"), true);
    assert!(!auth.can_set_username("alice", true));
    assert!(auth.can_set_username("@alice:localhost", true));
    assert!(auth.can_set_username("alice", false));
    auth.set_server(server("https://matrix.org"), true);
    assert!(auth.can_set_username("alice", true));
}
