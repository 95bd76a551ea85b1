//! Identity resolution and the capability gate: who a request acts as,
//! which roles that principal carries, and the unforgeable proof tokens
//! privileged operations demand as evidence that a check was made.

use vstd::prelude::*;
use vstd::utf8::{decode_utf8, encode_utf8, valid_utf8};
use crate::bytesutil::{split_bytes, split_on, trim_bytes, trimmed};
use crate::codec::{b64url_decode, b64url_decode_of, utf8_to_string};
use crate::headers::{cookie_value, header_lookup, HeaderEntry, Headers};
use crate::session::{lookup_spec, SessionRecord, SessionStore};
use crate::strutil::clone_string_vec;

verus! {

/// How identities are resolved.
pub enum AuthMode {
    /// Auth headers are never read; nobody can log in.
    Disabled,
    /// An auth proxy in front of every route passes user info via trust
    /// headers; no session handling here.
    HeaderTrust,
    /// Sessions are handled here; the auth system creates them and the
    /// session cookie names them.
    StatefulSession,
}

/// Authentication and authorization configuration, as far as identity
/// resolution and the capability gate consume it.
pub struct AuthConfig {
    pub mode: AuthMode,
    /// Header holding the unique and stable username of the current user.
    pub username_header: String,
    /// Header holding the human-readable name of the current user.
    pub display_name_header: String,
    /// Header holding a comma-separated list of the current user's roles.
    pub roles_header: String,
    /// Name of the session-identifier cookie.
    pub session_cookie: String,
    /// Users with this role are treated as moderators.
    pub moderator_role: String,
    /// Users with this role may use the uploader.
    pub upload_role: String,
    /// Users with this role may use the studio recorder.
    pub studio_role: String,
    /// Users with this role may use the external editor.
    pub editor_role: String,
    /// Duration of a managed login session, in seconds.
    pub session_duration_secs: u64,
}

/// Data about a user. Absence (`Option::<User>::None`) means the request
/// is anonymous.
pub struct User {
    pub username: String,
    pub display_name: String,
    pub roles: Vec<String>,
}

/// The mathematical shadow of a resolved identity.
pub struct SpecIdentity {
    pub username: Seq<char>,
    pub display_name: Seq<char>,
    pub roles: Seq<Seq<char>>,
}

impl View for User {
    type V = SpecIdentity;

    open spec fn view(&self) -> SpecIdentity {
        SpecIdentity {
            username: self.username@,
            display_name: self.display_name@,
            roles: self.roles.deep_view(),
        }
    }
}

/// Users with this role are global administrators and may do anything.
pub open spec fn admin_role() -> Seq<char> {
    "ROLE_ADMIN"@
}

/// The role every request carries, logged in or not.
pub open spec fn anonymous_role() -> Seq<char> {
    "ROLE_ANONYMOUS"@
}

pub open spec fn has_role(roles: Seq<Seq<char>>, role: Seq<char>) -> bool {
    roles.contains(role)
}

pub open spec fn spec_is_admin(roles: Seq<Seq<char>>) -> bool {
    has_role(roles, admin_role())
}

pub open spec fn spec_is_moderator(roles: Seq<Seq<char>>, c: AuthConfig) -> bool {
    spec_is_admin(roles) || has_role(roles, c.moderator_role@)
}

pub open spec fn spec_can_upload(roles: Seq<Seq<char>>, c: AuthConfig) -> bool {
    spec_is_moderator(roles, c) || has_role(roles, c.upload_role@)
}

pub open spec fn spec_can_use_studio(roles: Seq<Seq<char>>, c: AuthConfig) -> bool {
    spec_is_moderator(roles, c) || has_role(roles, c.studio_role@)
}

pub open spec fn spec_can_use_editor(roles: Seq<Seq<char>>, c: AuthConfig) -> bool {
    spec_is_moderator(roles, c) || has_role(roles, c.editor_role@)
}

/// A marker type that serves to prove *some* authorization check has been
/// done. It carries no information about which check passed: it only
/// makes it structurally hard to write a privileged code path that forgot
/// to ask. The field is private, so outside this module the only sources
/// are `some_if` and the `require_*` checks.
pub struct AuthToken {
    granted: (),
}

impl AuthToken {
    /// Issues a token exactly when the given check succeeded.
    pub fn some_if(v: bool) -> (r: Option<AuthToken>)
        ensures
            r is Some <==> v,
    {
        if v {
            Some(AuthToken { granted: () })
        } else {
            None
        }
    }
}

/// Returns a representation of the optional username useful for logging.
pub fn debug_log_username(session: &Option<User>) -> (r: String)
    ensures
        session is None ==> r@ == "none"@,
        session matches Some(user) ==> r@ == "'"@ + user.username@ + "'"@,
{
    match session {
        None => String::from_str("none"),
        Some(user) => {
            let mut out = String::from_str("'");
            out.append(user.username.as_str());
            out.append("'");
            out
        },
    }
}

/// Whether `role` occurs in `roles`.
pub fn contains_role(roles: &Vec<String>, role: &String) -> (r: bool)
    ensures
        r == has_role(roles.deep_view(), role@),
{
    let mut i: usize = 0;
    while i < roles.len()
        invariant
            i <= roles@.len(),
            forall|k: int| 0 <= k < i ==> roles@[k]@ != role@,
        decreases roles@.len() - i,
    {
        if roles[i] == *role {
            assert(roles.deep_view()[i as int] == role@);
            return true;
        }
        i += 1;
    }
    proof {
        assert forall|k: int| 0 <= k < roles.deep_view().len() implies roles.deep_view()[k]
            != role@ by {
            assert(roles.deep_view()[k] == roles@[k]@);
        }
    }
    false
}

/// The role list of an anonymous request.
pub fn anonymous_roles() -> (r: Vec<String>)
    ensures
        r.deep_view() == seq![anonymous_role()],
{
    let mut r: Vec<String> = Vec::new();
    r.push(String::from_str("ROLE_ANONYMOUS"));
    proof {
        assert(r.deep_view() =~= seq![anonymous_role()]);
    }
    r
}

fn roles_vec_is_admin(roles: &Vec<String>) -> (r: bool)
    ensures
        r == spec_is_admin(roles.deep_view()),
{
    let admin = String::from_str("ROLE_ADMIN");
    contains_role(roles, &admin)
}

fn roles_vec_is_moderator(roles: &Vec<String>, c: &AuthConfig) -> (r: bool)
    ensures
        r == spec_is_moderator(roles.deep_view(), *c),
{
    roles_vec_is_admin(roles) || contains_role(roles, &c.moderator_role)
}

fn roles_vec_can_upload(roles: &Vec<String>, c: &AuthConfig) -> (r: bool)
    ensures
        r == spec_can_upload(roles.deep_view(), *c),
{
    roles_vec_is_moderator(roles, c) || contains_role(roles, &c.upload_role)
}

fn roles_vec_can_use_studio(roles: &Vec<String>, c: &AuthConfig) -> (r: bool)
    ensures
        r == spec_can_use_studio(roles.deep_view(), *c),
{
    roles_vec_is_moderator(roles, c) || contains_role(roles, &c.studio_role)
}

fn roles_vec_can_use_editor(roles: &Vec<String>, c: &AuthConfig) -> (r: bool)
    ensures
        r == spec_can_use_editor(roles.deep_view(), *c),
{
    roles_vec_is_moderator(roles, c) || contains_role(roles, &c.editor_role)
}

/// Role-based capability checks over a principal: a logged-in `User` or
/// an `Option<User>` whose `None` acts with the anonymous role alone.
/// Each `require_*` check hands out an `AuthToken` exactly when the
/// corresponding predicate holds, and only through such a check can a
/// privileged code path come by one.
pub trait HasRoles {
    /// The roles this principal acts with.
    spec fn spec_roles(&self) -> Seq<Seq<char>>;

    /// The roles this principal acts with, as owned strings.
    fn roles(&self) -> (r: Vec<String>)
        ensures
            r.deep_view() == self.spec_roles(),
    ;

    /// Whether this principal is a global administrator.
    fn is_admin(&self) -> (r: bool)
        ensures
            r == spec_is_admin(self.spec_roles()),
    ;

    /// Whether this principal is a moderator: an administrator, or a
    /// carrier of the configured moderator role.
    fn is_moderator(&self, auth_config: &AuthConfig) -> (r: bool)
        ensures
            r == spec_is_moderator(self.spec_roles(), *auth_config),
    ;

    fn can_upload(&self, auth_config: &AuthConfig) -> (r: bool)
        ensures
            r == spec_can_upload(self.spec_roles(), *auth_config),
    ;

    fn can_use_studio(&self, auth_config: &AuthConfig) -> (r: bool)
        ensures
            r == spec_can_use_studio(self.spec_roles(), *auth_config),
    ;

    fn can_use_editor(&self, auth_config: &AuthConfig) -> (r: bool)
        ensures
            r == spec_can_use_editor(self.spec_roles(), *auth_config),
    ;

    /// A proof token if and only if this principal is a moderator.
    fn require_moderator(&self, auth_config: &AuthConfig) -> (r: Option<AuthToken>)
        ensures
            r is Some <==> spec_is_moderator(self.spec_roles(), *auth_config),
    ;

    /// A proof token if and only if this principal may upload.
    fn required_upload_permission(&self, auth_config: &AuthConfig) -> (r: Option<AuthToken>)
        ensures
            r is Some <==> spec_can_upload(self.spec_roles(), *auth_config),
    ;

    /// A proof token if and only if this principal may use the studio.
    fn required_studio_permission(&self, auth_config: &AuthConfig) -> (r: Option<AuthToken>)
        ensures
            r is Some <==> spec_can_use_studio(self.spec_roles(), *auth_config),
    ;

    /// A proof token if and only if this principal may use the editor.
    fn required_editor_permission(&self, auth_config: &AuthConfig) -> (r: Option<AuthToken>)
        ensures
            r is Some <==> spec_can_use_editor(self.spec_roles(), *auth_config),
    ;
}

impl HasRoles for User {
    open spec fn spec_roles(&self) -> Seq<Seq<char>> {
        self.roles.deep_view()
    }

    fn roles(&self) -> (r: Vec<String>) {
        clone_string_vec(&self.roles)
    }

    fn is_admin(&self) -> (r: bool) {
        roles_vec_is_admin(&self.roles)
    }

    fn is_moderator(&self, auth_config: &AuthConfig) -> (r: bool) {
        roles_vec_is_moderator(&self.roles, auth_config)
    }

    fn can_upload(&self, auth_config: &AuthConfig) -> (r: bool) {
        roles_vec_can_upload(&self.roles, auth_config)
    }

    fn can_use_studio(&self, auth_config: &AuthConfig) -> (r: bool) {
        roles_vec_can_use_studio(&self.roles, auth_config)
    }

    fn can_use_editor(&self, auth_config: &AuthConfig) -> (r: bool) {
        roles_vec_can_use_editor(&self.roles, auth_config)
    }

    fn require_moderator(&self, auth_config: &AuthConfig) -> (r: Option<AuthToken>) {
        AuthToken::some_if(self.is_moderator(auth_config))
    }

    fn required_upload_permission(&self, auth_config: &AuthConfig) -> (r: Option<AuthToken>) {
        AuthToken::some_if(self.can_upload(auth_config))
    }

    fn required_studio_permission(&self, auth_config: &AuthConfig) -> (r: Option<AuthToken>) {
        AuthToken::some_if(self.can_use_studio(auth_config))
    }

    fn required_editor_permission(&self, auth_config: &AuthConfig) -> (r: Option<AuthToken>) {
        AuthToken::some_if(self.can_use_editor(auth_config))
    }
}

impl HasRoles for Option<User> {
    /// The roles of the user if logged in, the anonymous role otherwise.
    open spec fn spec_roles(&self) -> Seq<Seq<char>> {
        match self {
            Option::None => seq![anonymous_role()],
            Option::Some(user) => user.roles.deep_view(),
        }
    }

    fn roles(&self) -> (r: Vec<String>) {
        match self {
            None => anonymous_roles(),
            Some(user) => clone_string_vec(&user.roles),
        }
    }

    fn is_admin(&self) -> (r: bool) {
        match self {
            None => {
                let v = anonymous_roles();
                roles_vec_is_admin(&v)
            },
            Some(user) => roles_vec_is_admin(&user.roles),
        }
    }

    fn is_moderator(&self, auth_config: &AuthConfig) -> (r: bool) {
        match self {
            None => {
                let v = anonymous_roles();
                roles_vec_is_moderator(&v, auth_config)
            },
            Some(user) => roles_vec_is_moderator(&user.roles, auth_config),
        }
    }

    fn can_upload(&self, auth_config: &AuthConfig) -> (r: bool) {
        match self {
            None => {
                let v = anonymous_roles();
                roles_vec_can_upload(&v, auth_config)
            },
            Some(user) => roles_vec_can_upload(&user.roles, auth_config),
        }
    }

    fn can_use_studio(&self, auth_config: &AuthConfig) -> (r: bool) {
        match self {
            None => {
                let v = anonymous_roles();
                roles_vec_can_use_studio(&v, auth_config)
            },
            Some(user) => roles_vec_can_use_studio(&user.roles, auth_config),
        }
    }

    fn can_use_editor(&self, auth_config: &AuthConfig) -> (r: bool) {
        match self {
            None => {
                let v = anonymous_roles();
                roles_vec_can_use_editor(&v, auth_config)
            },
            Some(user) => roles_vec_can_use_editor(&user.roles, auth_config),
        }
    }

    fn require_moderator(&self, auth_config: &AuthConfig) -> (r: Option<AuthToken>) {
        AuthToken::some_if(self.is_moderator(auth_config))
    }

    fn required_upload_permission(&self, auth_config: &AuthConfig) -> (r: Option<AuthToken>) {
        AuthToken::some_if(self.can_upload(auth_config))
    }

    fn required_studio_permission(&self, auth_config: &AuthConfig) -> (r: Option<AuthToken>) {
        AuthToken::some_if(self.can_use_studio(auth_config))
    }

    fn required_editor_permission(&self, auth_config: &AuthConfig) -> (r: Option<AuthToken>) {
        AuthToken::some_if(self.can_use_editor(auth_config))
    }
}

/// The raw bytes a named trust header decodes to, if the header is
/// present and well-formed base64url.
pub open spec fn decoded_header_bytes(entries: Seq<HeaderEntry>, name: Seq<char>) -> Option<
    Seq<u8>,
> {
    match header_lookup(entries, name) {
        Option::None => Option::None,
        Option::Some(raw) => b64url_decode_of(raw),
    }
}

/// The characters a named trust header carries: present, well-formed
/// base64url, and valid UTF-8 once decoded.
pub open spec fn decoded_header(entries: Seq<HeaderEntry>, name: Seq<char>) -> Option<Seq<char>> {
    match decoded_header_bytes(entries, name) {
        Option::None => Option::None,
        Option::Some(b) => if valid_utf8(b) {
            Option::Some(decode_utf8(b))
        } else {
            Option::None
        },
    }
}

/// A header that is present but fails base64url decoding or UTF-8
/// validation. The resolver treats it exactly like an absent one; the
/// caller is expected to log a warning when this holds.
pub open spec fn header_malformed(entries: Seq<HeaderEntry>, name: Seq<char>) -> bool {
    header_lookup(entries, name) is Some && decoded_header(entries, name) is None
}

/// The roles named by a comma-separated list: each segment trimmed of
/// ASCII whitespace, kept when it is valid UTF-8.
pub open spec fn role_list(segs: Seq<Seq<u8>>) -> Seq<Seq<char>>
    decreases segs.len(),
{
    if segs.len() == 0 {
        Seq::empty()
    } else {
        let t = trimmed(segs[0]);
        let rest = role_list(segs.drop_first());
        if valid_utf8(t) {
            seq![decode_utf8(t)] + rest
        } else {
            rest
        }
    }
}

/// The extra roles the roles header grants. A missing or malformed
/// header grants none: such a user simply has no roles beyond the
/// anonymous one.
pub open spec fn extra_roles(entries: Seq<HeaderEntry>, name: Seq<char>) -> Seq<Seq<char>> {
    match decoded_header(entries, name) {
        Option::None => Seq::empty(),
        Option::Some(chars) => role_list(split_on(encode_utf8(chars), 0x2c)),
    }
}

/// All roles of a header-trust request: the anonymous role, then whatever
/// the roles header grants.
pub open spec fn roles_of_headers(entries: Seq<HeaderEntry>, c: AuthConfig) -> Seq<Seq<char>> {
    seq![anonymous_role()] + extra_roles(entries, c.roles_header@)
}

/// The identity a header-trust request resolves to: `None` unless both
/// the username and the display-name headers are present and well-formed.
pub open spec fn identity_from_headers(entries: Seq<HeaderEntry>, c: AuthConfig) -> Option<
    SpecIdentity,
> {
    match decoded_header(entries, c.username_header@) {
        Option::None => Option::None,
        Option::Some(un) => match decoded_header(entries, c.display_name_header@) {
            Option::None => Option::None,
            Option::Some(dn) => Option::Some(
                SpecIdentity { username: un, display_name: dn, roles: roles_of_headers(entries, c) },
            ),
        },
    }
}

/// The identity a stateful-session request resolves to: the stored
/// identity of the live session its cookie names, if any.
pub open spec fn identity_from_session(
    entries: Seq<HeaderEntry>,
    c: AuthConfig,
    ss: Seq<SessionRecord>,
    now: u64,
) -> Option<SpecIdentity> {
    match cookie_value(entries, c.session_cookie@) {
        Option::None => Option::None,
        Option::Some(id) => match lookup_spec(ss, id, now, c.session_duration_secs) {
            Option::None => Option::None,
            Option::Some(rec) => Option::Some(
                SpecIdentity {
                    username: rec.username@,
                    display_name: rec.display_name@,
                    roles: rec.roles.deep_view(),
                },
            ),
        },
    }
}

/// What one request resolves to, per the configured mode.
pub open spec fn resolved_identity(
    entries: Seq<HeaderEntry>,
    c: AuthConfig,
    ss: Seq<SessionRecord>,
    now: u64,
) -> Option<SpecIdentity> {
    match c.mode {
        AuthMode::Disabled => Option::None,
        AuthMode::HeaderTrust => identity_from_headers(entries, c),
        AuthMode::StatefulSession => identity_from_session(entries, c, ss, now),
    }
}

/// Reads one trust header and base64url-decodes and UTF-8-validates its
/// value. A missing header and a malformed one both yield `None`.
pub fn read_trust_header(headers: &Headers, name: &String) -> (r: Option<String>)
    ensures
        match decoded_header(headers.entries@, name@) {
            Option::None => r is None,
            Option::Some(chars) => r matches Some(s) && s@ == chars,
        },
{
    let raw = match headers.get(name) {
        None => {
            return None;
        },
        Some(v) => v,
    };
    let decoded = match b64url_decode(raw.as_slice()) {
        None => {
            return None;
        },
        Some(b) => b,
    };
    utf8_to_string(decoded)
}

/// Whether a named trust header is present but malformed; the caller
/// logs a warning exactly then.
pub fn trust_header_malformed(headers: &Headers, name: &String) -> (r: bool)
    ensures
        r == header_malformed(headers.entries@, name@),
{
    match headers.get(name) {
        None => false,
        Some(raw) => match b64url_decode(raw.as_slice()) {
            None => true,
            Some(decoded) => utf8_to_string(decoded).is_none(),
        },
    }
}

impl User {
    /// Obtains the current user from the given request headers: not at
    /// all in `Disabled` mode, from trust headers in `HeaderTrust` mode,
    /// from the session store in `StatefulSession` mode.
    pub fn new(
        headers: &Headers,
        auth_config: &AuthConfig,
        store: &SessionStore,
        now: u64,
    ) -> (r: Option<User>)
        ensures
            match resolved_identity(headers.entries@, *auth_config, store.sessions@, now) {
                Option::None => r is None,
                Option::Some(si) => r matches Some(u) && u@ == si,
            },
    {
        match auth_config.mode {
            AuthMode::Disabled => None,
            AuthMode::HeaderTrust => Self::from_auth_headers(headers, auth_config),
            AuthMode::StatefulSession => Self::from_session(headers, store, auth_config, now),
        }
    }

    /// Tries to read user data from trust headers. If the username or
    /// display name is missing or malformed, there is no user session:
    /// `None`, never an error.
    pub fn from_auth_headers(headers: &Headers, auth_config: &AuthConfig) -> (r: Option<User>)
        ensures
            match identity_from_headers(headers.entries@, *auth_config) {
                Option::None => r is None,
                Option::Some(si) => r matches Some(u) && u@ == si,
            },
    {
        let username = match read_trust_header(headers, &auth_config.username_header) {
            None => {
                return None;
            },
            Some(s) => s,
        };
        let display_name = match read_trust_header(headers, &auth_config.display_name_header) {
            None => {
                return None;
            },
            Some(s) => s,
        };

        // Roles from the roles header; absent or malformed, the user
        // simply has no roles beyond the anonymous one.
        let mut roles: Vec<String> = Vec::new();
        roles.push(String::from_str("ROLE_ANONYMOUS"));
        proof {
            assert(roles.deep_view() =~= seq![anonymous_role()]);
        }
        match read_trust_header(headers, &auth_config.roles_header) {
            None => {
                proof {
                    assert(roles.deep_view() =~= roles_of_headers(headers.entries@, *auth_config));
                }
            },
            Some(roles_raw) => {
                let seg_bytes = roles_raw.as_bytes_vec();
                let segs = split_bytes(seg_bytes.as_slice(), 0x2c);
                let ghost all = segs.deep_view();
                proof {
                    assert(all.skip(0) =~= all);
                }
                let mut k: usize = 0;
                while k < segs.len()
                    invariant
                        k <= segs@.len(),
                        all == segs.deep_view(),
                        roles.deep_view() + role_list(all.skip(k as int)) =~= seq![
                            anonymous_role(),
                        ] + role_list(all),
                    decreases segs@.len() - k,
                {
                    proof {
                        assert(all.skip(k as int)[0] == all[k as int]);
                        assert(all.skip(k as int).drop_first() =~= all.skip(k as int + 1));
                        assert(segs@[k as int].deep_view() =~= segs@[k as int]@);
                    }
                    let t = trim_bytes(segs[k].as_slice());
                    let ghost old_roles = roles.deep_view();
                    match utf8_to_string(t) {
                        Some(role) => {
                            roles.push(role);
                            proof {
                                assert(roles.deep_view() =~= old_roles + seq![
                                    decode_utf8(trimmed(all[k as int])),
                                ]);
                            }
                        },
                        None => {},
                    }
                    k += 1;
                }
                proof {
                    assert(all.skip(k as int) =~= Seq::<Seq<u8>>::empty());
                    assert(roles.deep_view() =~= seq![anonymous_role()] + role_list(all));
                    assert(roles.deep_view() =~= roles_of_headers(headers.entries@, *auth_config));
                }
            },
        }
        Some(User { username, display_name, roles })
    }

    /// Tries to load user data from the persisted session the request's
    /// session cookie names. No cookie, an unknown id and an expired
    /// session all mean "no user": `None`.
    pub fn from_session(
        headers: &Headers,
        store: &SessionStore,
        auth_config: &AuthConfig,
        now: u64,
    ) -> (r: Option<User>)
        ensures
            match identity_from_session(headers.entries@, *auth_config, store.sessions@, now) {
                Option::None => r is None,
                Option::Some(si) => r matches Some(u) && u@ == si,
            },
    {
        let id = match crate::headers::session_cookie_value(headers, &auth_config.session_cookie) {
            None => {
                return None;
            },
            Some(v) => v,
        };
        store.lookup(&id, now, auth_config.session_duration_secs)
    }
}

/// A request with no session cookie and no username trust header resolves
/// to the anonymous identity in every mode.
pub proof fn lemma_no_credentials_resolve_anonymous(
    entries: Seq<HeaderEntry>,
    c: AuthConfig,
    ss: Seq<SessionRecord>,
    now: u64,
)
    requires
        header_lookup(entries, c.username_header@) is None,
        cookie_value(entries, c.session_cookie@) is None,
    ensures
        resolved_identity(entries, c, ss, now) is None,
{
}

/// `Disabled` mode resolves every request to anonymous whatever the
/// headers and whatever the store holds: no identity lookup occurs.
pub proof fn lemma_disabled_mode_is_anonymous(
    entries: Seq<HeaderEntry>,
    c: AuthConfig,
    ss: Seq<SessionRecord>,
    now: u64,
)
    requires
        c.mode is Disabled,
    ensures
        resolved_identity(entries, c, ss, now) is None,
{
}

/// A username or display-name trust header that is present but malformed
/// (bad base64url, or bytes that are not UTF-8) makes a header-trust
/// request anonymous: `None`, never an error. `trust_header_malformed`
/// reports the condition so the caller can warn.
pub proof fn lemma_malformed_header_resolves_anonymous(entries: Seq<HeaderEntry>, c: AuthConfig)
    requires
        header_malformed(entries, c.username_header@) || header_malformed(
            entries,
            c.display_name_header@,
        ),
    ensures
        identity_from_headers(entries, c) is None,
{
}

} // verus!
