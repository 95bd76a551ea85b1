use portal_core::auth::{
    debug_log_username, trust_header_malformed, AuthConfig, AuthMode, AuthToken, HasRoles, User,
};
use portal_core::headers::{HeaderEntry, Headers};
use portal_core::session::SessionStore;

fn cfg(mode: AuthMode) -> AuthConfig {
    AuthConfig {
        mode,
        username_header: "x-portal-username".to_string(),
        display_name_header: "x-portal-user-display-name".to_string(),
        roles_header: "x-portal-user-roles".to_string(),
        session_cookie: "session".to_string(),
        moderator_role: "ROLE_MODERATOR".to_string(),
        upload_role: "ROLE_UPLOAD".to_string(),
        studio_role: "ROLE_STUDIO".to_string(),
        editor_role: "ROLE_EDITOR".to_string(),
        session_duration_secs: 3600,
    }
}

fn enc(value: &[u8]) -> Vec<u8> {
    base64::encode_config(value, base64::URL_SAFE).into_bytes()
}

fn headers(entries: Vec<(&str, Vec<u8>)>) -> Headers {
    Headers {
        entries: entries
            .into_iter()
            .map(|(name, value)| HeaderEntry { name: name.to_string(), value })
            .collect(),
    }
}

fn user(roles: Vec<&str>) -> User {
    User {
        username: "alice".to_string(),
        display_name: "Alice A.".to_string(),
        roles: roles.into_iter().map(|r| r.to_string()).collect(),
    }
}

#[test]
fn header_trust_resolves_full_identity() {
    let c = cfg(AuthMode::HeaderTrust);
    let h = headers(vec![
        ("x-portal-username", enc(b"alice")),
        ("x-portal-user-display-name", enc(b"Alice A.")),
        ("x-portal-user-roles", enc(b" ROLE_USER ,ROLE_STAFF")),
    ]);
    let store = SessionStore::new();
    let u = User::new(&h, &c, &store, 0).expect("identity expected");
    assert_eq!(u.username, "alice");
    assert_eq!(u.display_name, "Alice A.");
    assert_eq!(u.roles, vec!["ROLE_ANONYMOUS", "ROLE_USER", "ROLE_STAFF"]);
}

#[test]
fn missing_username_header_is_anonymous() {
    let c = cfg(AuthMode::HeaderTrust);
    let h = headers(vec![("x-portal-user-display-name", enc(b"Alice A."))]);
    assert!(User::from_auth_headers(&h, &c).is_none());
}

#[test]
fn missing_display_name_header_is_anonymous() {
    let c = cfg(AuthMode::HeaderTrust);
    let h = headers(vec![("x-portal-username", enc(b"alice"))]);
    assert!(User::from_auth_headers(&h, &c).is_none());
}

#[test]
fn no_headers_at_all_is_anonymous_in_every_mode() {
    let h = headers(vec![]);
    let store = SessionStore::new();
    for mode in [AuthMode::Disabled, AuthMode::HeaderTrust, AuthMode::StatefulSession] {
        assert!(User::new(&h, &cfg(mode), &store, 0).is_none());
    }
}

#[test]
fn disabled_mode_ignores_valid_credentials() {
    let c = cfg(AuthMode::Disabled);
    let h = headers(vec![
        ("x-portal-username", enc(b"alice")),
        ("x-portal-user-display-name", enc(b"Alice A.")),
        ("cookie", b"session=abc".to_vec()),
    ]);
    let store = SessionStore::new();
    assert!(User::new(&h, &c, &store, 0).is_none());
}

#[test]
fn malformed_base64_username_is_anonymous_with_warning() {
    let c = cfg(AuthMode::HeaderTrust);
    let h = headers(vec![
        ("x-portal-username", b"!!!not base64!!!".to_vec()),
        ("x-portal-user-display-name", enc(b"Alice A.")),
    ]);
    assert!(User::from_auth_headers(&h, &c).is_none());
    assert!(trust_header_malformed(&h, &c.username_header));
    assert!(!trust_header_malformed(&h, &c.display_name_header));
}

#[test]
fn non_utf8_username_is_anonymous_with_warning() {
    let c = cfg(AuthMode::HeaderTrust);
    let h = headers(vec![
        ("x-portal-username", enc(&[0xff, 0xfe, 0x41])),
        ("x-portal-user-display-name", enc(b"Alice A.")),
    ]);
    assert!(User::from_auth_headers(&h, &c).is_none());
    assert!(trust_header_malformed(&h, &c.username_header));
}

#[test]
fn missing_roles_header_leaves_anonymous_role_only() {
    let c = cfg(AuthMode::HeaderTrust);
    let h = headers(vec![
        ("x-portal-username", enc(b"alice")),
        ("x-portal-user-display-name", enc(b"Alice A.")),
    ]);
    let u = User::from_auth_headers(&h, &c).expect("identity expected");
    assert_eq!(u.roles, vec!["ROLE_ANONYMOUS"]);
}

#[test]
fn malformed_roles_header_leaves_anonymous_role_only() {
    let c = cfg(AuthMode::HeaderTrust);
    let h = headers(vec![
        ("x-portal-username", enc(b"alice")),
        ("x-portal-user-display-name", enc(b"Alice A.")),
        ("x-portal-user-roles", b"%%%".to_vec()),
    ]);
    let u = User::from_auth_headers(&h, &c).expect("identity expected");
    assert_eq!(u.roles, vec!["ROLE_ANONYMOUS"]);
    assert!(trust_header_malformed(&h, &c.roles_header));
}

#[test]
fn first_header_of_a_name_wins() {
    let c = cfg(AuthMode::HeaderTrust);
    let h = headers(vec![
        ("x-portal-username", enc(b"alice")),
        ("x-portal-username", enc(b"mallory")),
        ("x-portal-user-display-name", enc(b"Alice A.")),
    ]);
    let u = User::from_auth_headers(&h, &c).expect("identity expected");
    assert_eq!(u.username, "alice");
}

#[test]
fn admin_has_every_capability() {
    let c = cfg(AuthMode::HeaderTrust);
    let u = user(vec!["ROLE_ANONYMOUS", "ROLE_ADMIN"]);
    assert!(u.is_admin());
    assert!(u.is_moderator(&c));
    assert!(u.can_upload(&c));
    assert!(u.can_use_studio(&c));
    assert!(u.can_use_editor(&c));
}

#[test]
fn moderator_role_grants_moderator_and_derived_capabilities() {
    let c = cfg(AuthMode::HeaderTrust);
    let u = user(vec!["ROLE_ANONYMOUS", "ROLE_MODERATOR"]);
    assert!(!u.is_admin());
    assert!(u.is_moderator(&c));
    assert!(u.can_upload(&c));
    assert!(u.can_use_studio(&c));
    assert!(u.can_use_editor(&c));
}

#[test]
fn upload_role_grants_upload_only() {
    let c = cfg(AuthMode::HeaderTrust);
    let u = user(vec!["ROLE_ANONYMOUS", "ROLE_UPLOAD"]);
    assert!(!u.is_moderator(&c));
    assert!(u.can_upload(&c));
    assert!(!u.can_use_studio(&c));
    assert!(!u.can_use_editor(&c));
}

#[test]
fn require_moderator_agrees_with_is_moderator() {
    let c = cfg(AuthMode::HeaderTrust);
    let cases = [
        user(vec!["ROLE_ANONYMOUS"]),
        user(vec!["ROLE_ANONYMOUS", "ROLE_MODERATOR"]),
        user(vec!["ROLE_ANONYMOUS", "ROLE_ADMIN"]),
        user(vec!["ROLE_ANONYMOUS", "ROLE_UPLOAD"]),
    ];
    for u in cases {
        assert_eq!(u.require_moderator(&c).is_some(), u.is_moderator(&c));
    }
}

#[test]
fn required_permissions_agree_with_checks() {
    let c = cfg(AuthMode::HeaderTrust);
    let u = user(vec!["ROLE_ANONYMOUS", "ROLE_STUDIO"]);
    assert_eq!(u.required_upload_permission(&c).is_some(), u.can_upload(&c));
    assert_eq!(u.required_studio_permission(&c).is_some(), u.can_use_studio(&c));
    assert_eq!(u.required_editor_permission(&c).is_some(), u.can_use_editor(&c));
    assert!(u.required_studio_permission(&c).is_some());
    assert!(u.required_editor_permission(&c).is_none());
}

#[test]
fn anonymous_principal_has_no_capabilities() {
    let c = cfg(AuthMode::HeaderTrust);
    let anon: Option<User> = None;
    assert_eq!(anon.roles(), vec!["ROLE_ANONYMOUS"]);
    assert!(!anon.is_admin());
    assert!(!anon.is_moderator(&c));
    assert!(anon.require_moderator(&c).is_none());
    assert!(anon.required_upload_permission(&c).is_none());
}

#[test]
fn logged_in_principal_uses_its_own_roles() {
    let c = cfg(AuthMode::HeaderTrust);
    let some_user: Option<User> = Some(user(vec!["ROLE_ANONYMOUS", "ROLE_MODERATOR"]));
    assert!(some_user.is_moderator(&c));
    assert!(some_user.require_moderator(&c).is_some());
    assert_eq!(some_user.roles(), vec!["ROLE_ANONYMOUS", "ROLE_MODERATOR"]);
}

#[test]
fn some_if_issues_token_exactly_on_success() {
    assert!(AuthToken::some_if(true).is_some());
    assert!(AuthToken::some_if(false).is_none());
}

#[test]
fn debug_log_username_formats_both_cases() {
    let none: Option<User> = None;
    assert_eq!(debug_log_username(&none), "none");
    let some = Some(user(vec!["ROLE_ANONYMOUS"]));
    assert_eq!(debug_log_username(&some), "'alice'");
}
