use webadmin::login::{
    authenticated, expired, has_remote, login_form, remembers, submit, AuthToken, OAuthGrant,
    Remember, SavedSession,
};
use webadmin::schema::Schemas;

fn schemas() -> Schemas {
    Schemas::builder().build_login().build()
}

fn saved() -> SavedSession {
    SavedSession { login: "jane".to_string(), base_url: "https://mail.example.org".to_string() }
}

#[test]
fn the_form_opens_with_what_is_remembered() {
    let form = login_form(&schemas(), Some(saved()));
    assert_eq!(form.value("login"), Some("jane".to_string()));
    assert_eq!(form.value("base-url"), Some("https://mail.example.org".to_string()));
    assert_eq!(form.value("password"), Some(String::new()));
    assert!(remembers(&Some(saved())));
    let form = login_form(&schemas(), None);
    assert_eq!(form.value("login"), Some(String::new()));
    assert_eq!(form.value("base-url"), Some(String::new()));
    assert!(!remembers(&None));
}

#[test]
fn the_host_is_asked_for_when_remote_or_known() {
    let empty = login_form(&schemas(), None);
    assert!(!has_remote(false, &empty));
    assert!(has_remote(true, &empty));
    let known = login_form(&schemas(), Some(saved()));
    assert!(has_remote(false, &known));
    assert!(has_remote(true, &known));
}

#[test]
fn a_form_that_fails_is_not_submitted() {
    let mut form = login_form(&schemas(), None);
    assert_eq!(submit(&mut form, true), None);
    assert!(form.error("login").is_some());
    assert!(form.error("password").is_some());
}

#[test]
fn a_form_that_passes_becomes_a_request() {
    let mut form = login_form(&schemas(), Some(saved()));
    form.update("login", " Jane@Example.ORG ".to_string());
    form.update("password", " pass word ".to_string());
    let request = submit(&mut form, true).unwrap();
    assert_eq!(request.username, "jane@example.org");
    assert_eq!(request.password, " pass word ");
    assert_eq!(request.base_url, "https://mail.example.org");
    assert_eq!(
        request.remember,
        Remember::Save(SavedSession {
            login: "jane@example.org".to_string(),
            base_url: "https://mail.example.org".to_string(),
        })
    );
    let mut form = login_form(&schemas(), None);
    form.update("login", "jane".to_string());
    form.update("password", "secret".to_string());
    let request = submit(&mut form, false).unwrap();
    assert_eq!(request.remember, Remember::Forget);
    assert_eq!(request.base_url, "");
}

fn grant(refresh: Option<&str>, expires_in: u64) -> OAuthGrant {
    OAuthGrant {
        access_token: "access".to_string(),
        refresh_token: refresh.map(|s| s.to_string()),
        expires_in,
    }
}

#[test]
fn an_administrator_goes_to_the_accounts() {
    let r = authenticated("root".to_string(), "https://h".to_string(), grant(Some("refresh"), 3600), true);
    assert_eq!(
        r.token,
        AuthToken {
            access_token: "access".to_string(),
            refresh_token: "refresh".to_string(),
            base_url: "https://h".to_string(),
            username: "root".to_string(),
            is_valid: true,
            is_admin: true,
        }
    );
    assert_eq!(r.refresh_after, Some(3600));
    assert_eq!(r.redirect, "/manage/directory/accounts");
}

#[test]
fn anybody_else_goes_to_the_own_account() {
    let r = authenticated("jane".to_string(), String::new(), grant(None, 3600), false);
    assert_eq!(r.token.refresh_token, "");
    assert!(r.token.is_valid);
    assert!(!r.token.is_admin);
    assert_eq!(r.refresh_after, None);
    assert_eq!(r.redirect, "/account/crypto");
}

#[test]
fn a_session_is_refreshed_only_with_a_time_and_a_token() {
    let at = |refresh: Option<&str>, expires_in: u64| {
        authenticated("u".to_string(), "b".to_string(), grant(refresh, expires_in), false).refresh_after
    };
    assert_eq!(at(Some("r"), 1), Some(1));
    assert_eq!(at(Some("r"), 0), None);
    assert_eq!(at(Some(""), 60), None);
    assert_eq!(at(None, 60), None);
}

#[test]
fn an_expired_session_is_the_same_but_invalid() {
    let token = authenticated("jane".to_string(), "b".to_string(), grant(Some("r"), 60), true).token;
    let after = expired(token.clone());
    assert!(!after.is_valid);
    assert_eq!(AuthToken { is_valid: true, ..after }, token);
}
