//! Preparing Cursor's local account state for a TAB mode: which account
//! values to inject, when a stored account is the legacy synthetic one that
//! direct mode removes, and where Cursor keeps its state database.
//!
//! The database work itself belongs to the caller; these functions decide
//! each step from what the previous step found.

use vstd::prelude::*;
use vstd::string::StringExecFns;
use crate::bindings::{
    base64_url_decode, base64_url_decoded, base64_url_encode, base64_url_text,
    distinct_keys, json_member_text, json_members_text, json_object_bytes, json_object_to_vec,
    json_string_member, JsonScalar, JsonScalarText,
};
use crate::catalog::opt_text;
use crate::text::{
    is_blank, is_blank_text, is_white_space, lemma_split_nonempty, owned, split, split_text,
    str_eq, texts, trim_end_text, trim_start_text,
};
use crate::variants::pairs_text;

verus! {

/// The e-mail address of the synthetic local account.
pub open spec fn email_text() -> Seq<char> {
    "cursor@ai.com"@
}

/// The subject of the synthetic local account.
pub open spec fn subject_text() -> Seq<char> {
    "cursor-local-user"@
}

/// The keys under which Cursor keeps its signed-in account.
pub open spec fn auth_keys_text() -> Seq<Seq<char>> {
    seq![
        "cursorAuth/accessToken"@,
        "cursorAuth/refreshToken"@,
        "cursorAuth/cachedEmail"@,
        "cursorAuth/cachedSignUpType"@,
        "cursorAuth/stripeMembershipType"@,
        "cursorAuth/stripeSubscriptionStatus"@,
    ]
}

/// The JSON header of the synthetic session token.
pub open spec fn token_header_text() -> Seq<char> {
    "{\"alg\":\"HS256\",\"typ\":\"JWT\"}"@
}

/// The claims of the synthetic session token.
pub open spec fn session_claims_text() -> Seq<(Seq<char>, JsonScalarText)> {
    seq![
        ("sub"@, JsonScalarText::Text(subject_text())),
        ("email"@, JsonScalarText::Text(email_text())),
        ("type"@, JsonScalarText::Text("session"@)),
        ("iss"@, JsonScalarText::Text("cursor-client"@)),
        ("scope"@, JsonScalarText::Text("openid profile email"@)),
        ("exp"@, JsonScalarText::Unsigned(4070908800u64)),
    ]
}

/// The synthetic session token: base64 header, base64 claims and the
/// subject, joined by dots.
pub open spec fn local_token_text() -> Seq<char> {
    base64_url_text(vstd::utf8::encode_utf8(token_header_text())) + "."@ + base64_url_text(
        json_object_bytes(session_claims_text()),
    ) + "."@ + subject_text()
}

/// Whether `token` is a session token of the legacy synthetic account: three
/// dot-separated parts whose middle part is base64 of a JSON object with the
/// synthetic e-mail, issuer `cursor-client` and type `session`.
pub open spec fn is_known_synthetic_text(token: Seq<char>) -> bool {
    let parts = split_text(token, '.');
    parts.len() == 3 && match base64_url_decoded(parts[1]) {
        None => false,
        Some(payload) => {
            &&& json_member_text(payload, "email"@) == Some(Some(email_text()))
            &&& json_member_text(payload, "iss"@) == Some(Some("cursor-client"@))
            &&& json_member_text(payload, "type"@) == Some(Some("session"@))
        },
    }
}

fn member_is(payload: &[u8], key: &str, expected: &str) -> (r: bool)
    ensures
        r == (json_member_text(payload@, key@) == Some(Some(expected@))),
{
    match json_string_member(payload, key) {
        Some(Some(value)) => str_eq(value.as_str(), expected),
        _ => false,
    }
}

/// Whether `token` is a session token of the legacy synthetic account.
pub fn is_known_synthetic_token(token: &str) -> (r: bool)
    ensures
        r == is_known_synthetic_text(token@),
{
    let parts = split(token, '.');
    if parts.len() != 3 {
        return false;
    }
    assert(parts@[1]@ == split_text(token@, '.')[1]);
    let payload = match base64_url_decode(parts[1].as_str()) {
        Some(p) => p,
        None => return false,
    };
    member_is(payload.as_slice(), "email", "cursor@ai.com") && member_is(
        payload.as_slice(),
        "iss",
        "cursor-client",
    ) && member_is(payload.as_slice(), "type", "session")
}

proof fn lemma_base64_has_no_dot(b: Seq<u8>)
    ensures
        forall|j: int| 0 <= j < base64_url_text(b).len() ==> #[trigger] base64_url_text(b)[j] != '.',
    decreases b.len(),
{
    if b.len() >= 3 {
        lemma_base64_has_no_dot(b.skip(3));
    }
    let t = base64_url_text(b);
    assert forall|j: int| 0 <= j < t.len() implies #[trigger] t[j] != '.' by {
        if b.len() >= 3 && j >= 4 {
            assert(t[j] == base64_url_text(b.skip(3))[j - 4]);
        }
    }
}

proof fn lemma_split_without_sep(s: Seq<char>, sep: char)
    requires
        forall|j: int| 0 <= j < s.len() ==> #[trigger] s[j] != sep,
    ensures
        split_text(s, sep) == seq![s],
    decreases s.len(),
{
    if s.len() > 0 {
        lemma_split_without_sep(s.drop_last(), sep);
        assert(s[s.len() - 1] != sep);
        assert(s.drop_last().push(s.last()) =~= s);
        assert(seq![s.drop_last()].update(0, s.drop_last().push(s.last())) =~= seq![s]);
    } else {
        assert(s =~= Seq::<char>::empty());
    }
}

proof fn lemma_split_concat(a: Seq<char>, b: Seq<char>, sep: char)
    ensures
        split_text(a + seq![sep] + b, sep) == split_text(a, sep) + split_text(b, sep),
    decreases b.len(),
{
    let whole = a + seq![sep] + b;
    if b.len() == 0 {
        assert(whole.drop_last() =~= a);
    } else {
        lemma_split_concat(a, b.drop_last(), sep);
        lemma_split_nonempty(b.drop_last(), sep);
        assert(whole.drop_last() =~= a + seq![sep] + b.drop_last());
        let pa = split_text(a, sep);
        let pb = split_text(b.drop_last(), sep);
        if b.last() == sep {
            assert((pa + pb).push(Seq::<char>::empty()) =~= pa + pb.push(Seq::<char>::empty()));
        } else {
            let p = pa + pb;
            assert(p.update(p.len() - 1, p.last().push(b.last())) =~= pa + pb.update(
                pb.len() - 1,
                pb.last().push(b.last()),
            ));
        }
    }
}

fn text_member(key: &str, value: &str) -> (r: (String, JsonScalar))
    ensures
        r.0@ == key@,
        r.1 matches JsonScalar::Text(s) && s@ == value@,
{
    (owned(key), JsonScalar::Text(owned(value)))
}

/// The session token of the synthetic local account, which
/// `is_known_synthetic_token` recognises as the legacy synthetic account's.
pub fn local_token() -> (r: String)
    ensures
        r@ == local_token_text(),
        is_known_synthetic_text(r@),
{
    let header_json = "{\"alg\":\"HS256\",\"typ\":\"JWT\"}";
    proof {
        reveal_strlit("{\"alg\":\"HS256\",\"typ\":\"JWT\"}");
        vstd::utf8::is_ascii_chars_encode_utf8(token_header_text());
    }
    let header = base64_url_encode(header_json.as_bytes());
    let mut claims: Vec<(String, JsonScalar)> = Vec::new();
    claims.push(text_member("sub", "cursor-local-user"));
    claims.push(text_member("email", "cursor@ai.com"));
    claims.push(text_member("type", "session"));
    claims.push(text_member("iss", "cursor-client"));
    claims.push(text_member("scope", "openid profile email"));
    claims.push((owned("exp"), JsonScalar::Unsigned(4070908800u64)));
    assert(json_members_text(claims@) =~= session_claims_text());
    let json = match json_object_to_vec(&claims) {
        Ok(b) => b,
        Err(_) => {
            assert(false);
            Vec::new()
        },
    };
    let payload = base64_url_encode(json.as_slice());
    let mut token = header;
    token.append(".");
    token.append(payload.as_str());
    token.append(".");
    token.append("cursor-local-user");
    proof {
        let h = header@;
        let p = payload@;
        let sub = subject_text();
        reveal_strlit(".");
        reveal_strlit("cursor-local-user");
        reveal_strlit("sub");
        reveal_strlit("email");
        reveal_strlit("type");
        reveal_strlit("iss");
        reveal_strlit("scope");
        reveal_strlit("exp");
        assert(token@ =~= h + seq!['.'] + p + seq!['.'] + sub);
        lemma_base64_has_no_dot(vstd::utf8::encode_utf8(token_header_text()));
        lemma_base64_has_no_dot(json@);
        lemma_split_without_sep(h, '.');
        lemma_split_without_sep(p, '.');
        lemma_split_without_sep(sub, '.');
        lemma_split_concat(h, p + seq!['.'] + sub, '.');
        lemma_split_concat(p, sub, '.');
        assert(h + seq!['.'] + (p + seq!['.'] + sub) =~= token@);
        let parts = split_text(token@, '.');
        assert(parts =~= seq![h, p, sub]);
        let members = session_claims_text();
        assert(distinct_keys(members)) by {
            assert forall|i: int, j: int|
                0 <= i < members.len() && 0 <= j < members.len() && i != j implies #[trigger] members[i].0
                != #[trigger] members[j].0 by {
                assert(members[i].0.len() != members[j].0.len() || members[i].0[0] != members[j].0[0]
                    || members[i].0[1] != members[j].0[1]);
            }
        }
        assert(members[1].0 == "email"@);
        assert(members[2].0 == "type"@);
        assert(members[3].0 == "iss"@);
    }
    token
}


proof fn lemma_base64_first_char(b: Seq<u8>)
    requires
        b.len() > 0,
    ensures
        base64_url_text(b).len() > 0,
        !is_white_space(base64_url_text(b)[0]),
{
}

proof fn lemma_local_token_not_blank()
    ensures
        !is_blank_text(local_token_text()),
{
    let t = local_token_text();
    reveal_strlit("{\"alg\":\"HS256\",\"typ\":\"JWT\"}");
    reveal_strlit("cursor-local-user");
    vstd::utf8::is_ascii_chars_encode_utf8(token_header_text());
    let hb = vstd::utf8::encode_utf8(token_header_text());
    lemma_base64_first_char(hb);
    let h = base64_url_text(hb);
    assert(t[0] == h[0]);
    assert(!is_white_space(t[0]));
    assert(trim_start_text(t) == t);
    assert(t.last() == 'r');
    assert(trim_end_text(t) == t);
}

/// Injection happens once: the access token that injection writes is not
/// blank, so reading it back finds a signed-in account and a second
/// injection writes nothing.
pub proof fn law_injection_happens_once()
    ensures
        !is_blank_text(injected_values_text(local_token_text())[0].1),
{
    lemma_local_token_not_blank();
}

/// How Cursor's TAB completions are served.
#[derive(Clone, Copy, Debug, PartialEq, Eq)]
pub enum TabMode {
    Direct,
    Public,
    Custom,
}

/// What preparing Cursor's account state means for a TAB mode.
#[derive(Clone, Copy, Debug, PartialEq, Eq)]
pub enum AccountTask {
    /// Remove the legacy synthetic account if it is the one stored.
    RemoveLegacySyntheticAccount,
    /// Store the synthetic local account unless an account is stored.
    InjectIfMissing,
}

/// The account task of a TAB mode: direct mode needs Cursor's own account,
/// the other modes need some account to be signed in.
pub fn account_task(mode: TabMode) -> (r: AccountTask)
    ensures
        r == (match mode {
            TabMode::Direct => AccountTask::RemoveLegacySyntheticAccount,
            TabMode::Public | TabMode::Custom => AccountTask::InjectIfMissing,
        }),
{
    match mode {
        TabMode::Direct => AccountTask::RemoveLegacySyntheticAccount,
        TabMode::Public | TabMode::Custom => AccountTask::InjectIfMissing,
    }
}

/// The values that injecting the synthetic account writes, key by key.
pub open spec fn injected_values_text(token: Seq<char>) -> Seq<(Seq<char>, Seq<char>)> {
    seq![
        ("cursorAuth/accessToken"@, token),
        ("cursorAuth/refreshToken"@, token),
        ("cursorAuth/cachedEmail"@, email_text()),
        ("cursorAuth/cachedSignUpType"@, "Google"@),
        ("cursorAuth/stripeMembershipType"@, "ultra"@),
        ("cursorAuth/stripeSubscriptionStatus"@, "active"@),
    ]
}

/// What the injection found in the state database.
#[derive(Clone, Debug)]
pub enum InjectionEvent {
    /// The stored access token, where one is stored as text.
    AccessTokenRead(Option<String>),
    /// The values were written and committed.
    ValuesWritten,
}

/// What the injection does next.
#[derive(Clone, Debug)]
pub enum InjectionAction {
    /// Write these (key, value) pairs in one transaction.
    WriteValues(Vec<(String, String)>),
    /// Stop; `injected` tells whether the synthetic account was written.
    Finish { injected: bool },
}

/// Whether a stored access token counts as a signed-in account.
pub open spec fn has_account_text(access_token: Option<String>) -> bool {
    access_token matches Some(t) && !is_blank_text(t@)
}

fn push_item(v: &mut Vec<(String, String)>, key: &str, value: &str)
    ensures
        pairs_text(final(v)@) == pairs_text(old(v)@).push((key@, value@)),
{
    let ghost before = v@;
    v.push((owned(key), owned(value)));
    assert(pairs_text(v@) =~= pairs_text(before).push((key@, value@)));
}

/// The next step of injecting the synthetic account: nothing to do where an
/// account is stored; otherwise write the synthetic account's values.
pub fn injection_step(event: InjectionEvent) -> (r: InjectionAction)
    ensures
        match event {
            InjectionEvent::AccessTokenRead(token) => if has_account_text(token) {
                r matches InjectionAction::Finish { injected } && !injected
            } else {
                r matches InjectionAction::WriteValues(values) && pairs_text(values@)
                    == injected_values_text(local_token_text()) && is_legacy_account(
                    Some(pairs_text(values@)[0].1),
                    Some(pairs_text(values@)[2].1),
                )
            },
            InjectionEvent::ValuesWritten => r matches InjectionAction::Finish { injected } && injected,
        },
{
    match event {
        InjectionEvent::AccessTokenRead(token) => {
            let present = match &token {
                Some(t) => !is_blank(t.as_str()),
                None => false,
            };
            if present {
                return InjectionAction::Finish { injected: false };
            }
            let t = local_token();
            let mut values: Vec<(String, String)> = Vec::new();
            push_item(&mut values, "cursorAuth/accessToken", t.as_str());
            push_item(&mut values, "cursorAuth/refreshToken", t.as_str());
            push_item(&mut values, "cursorAuth/cachedEmail", "cursor@ai.com");
            push_item(&mut values, "cursorAuth/cachedSignUpType", "Google");
            push_item(&mut values, "cursorAuth/stripeMembershipType", "ultra");
            push_item(&mut values, "cursorAuth/stripeSubscriptionStatus", "active");
            assert(pairs_text(values@) =~= injected_values_text(local_token_text()));
            proof {
                lemma_local_token_not_blank();
            }
            InjectionAction::WriteValues(values)
        },
        InjectionEvent::ValuesWritten => InjectionAction::Finish { injected: true },
    }
}

/// Whether the stored account is the legacy synthetic one: a non-blank
/// access token that is a known synthetic token, cached under the synthetic
/// e-mail address.
pub open spec fn is_legacy_account(access_token: Option<Seq<char>>, cached_email: Option<Seq<char>>) -> bool {
    &&& access_token matches Some(t) && !is_blank_text(t)
    &&& cached_email == Some(email_text())
    &&& is_known_synthetic_text(access_token->0)
}

/// What the removal found in the state database.
#[derive(Clone, Debug)]
pub enum RemovalEvent {
    /// Whether the state database exists.
    DatabaseChecked { exists: bool },
    /// How many tables named `ItemTable` the database has.
    ItemTableCounted { count: i64 },
    /// The stored access token and cached e-mail, where stored as text.
    AccountRead { access_token: Option<String>, cached_email: Option<String> },
    /// The keys were deleted and the deletion committed.
    KeysDeleted,
}

/// What the removal does next.
#[derive(Clone, Debug)]
pub enum RemovalAction {
    /// Open the existing database and count its `ItemTable` tables.
    CountItemTable,
    /// Read the stored access token and cached e-mail.
    ReadAccount,
    /// Delete these keys in one transaction.
    DeleteKeys(Vec<String>),
    /// Stop; `removed` tells whether the legacy account was deleted.
    Finish { removed: bool },
}

fn push_key(v: &mut Vec<String>, key: &str)
    ensures
        texts(final(v)@) == texts(old(v)@).push(key@),
{
    let ghost before = v@;
    v.push(owned(key));
    assert(texts(v@) =~= texts(before).push(key@));
}

/// The keys of Cursor's signed-in account.
pub fn auth_keys() -> (r: Vec<String>)
    ensures
        texts(r@) == auth_keys_text(),
{
    let mut r: Vec<String> = Vec::new();
    push_key(&mut r, "cursorAuth/accessToken");
    push_key(&mut r, "cursorAuth/refreshToken");
    push_key(&mut r, "cursorAuth/cachedEmail");
    push_key(&mut r, "cursorAuth/cachedSignUpType");
    push_key(&mut r, "cursorAuth/stripeMembershipType");
    push_key(&mut r, "cursorAuth/stripeSubscriptionStatus");
    assert(texts(r@) =~= auth_keys_text());
    r
}

/// The next step of removing the legacy synthetic account.  A missing
/// database is never created, a database without `ItemTable` is left alone,
/// and only the legacy synthetic account is deleted: every other account,
/// real or unreadable, stays.
pub fn removal_step(event: RemovalEvent) -> (r: RemovalAction)
    ensures
        match event {
            RemovalEvent::DatabaseChecked { exists } => if exists {
                r matches RemovalAction::CountItemTable
            } else {
                r matches RemovalAction::Finish { removed } && !removed
            },
            RemovalEvent::ItemTableCounted { count } => if count != 0 {
                r matches RemovalAction::ReadAccount
            } else {
                r matches RemovalAction::Finish { removed } && !removed
            },
            RemovalEvent::AccountRead { access_token, cached_email } => if is_legacy_account(
                opt_text(access_token),
                opt_text(cached_email),
            ) {
                r matches RemovalAction::DeleteKeys(keys) && texts(keys@) == auth_keys_text()
            } else {
                r matches RemovalAction::Finish { removed } && !removed
            },
            RemovalEvent::KeysDeleted => r matches RemovalAction::Finish { removed } && removed,
        },
{
    match event {
        RemovalEvent::DatabaseChecked { exists } => if exists {
            RemovalAction::CountItemTable
        } else {
            RemovalAction::Finish { removed: false }
        },
        RemovalEvent::ItemTableCounted { count } => if count != 0 {
            RemovalAction::ReadAccount
        } else {
            RemovalAction::Finish { removed: false }
        },
        RemovalEvent::AccountRead { access_token, cached_email } => {
            let token = match &access_token {
                Some(t) => {
                    if is_blank(t.as_str()) {
                        return RemovalAction::Finish { removed: false };
                    }
                    t
                },
                None => return RemovalAction::Finish { removed: false },
            };
            let email_matches = match &cached_email {
                Some(e) => str_eq(e.as_str(), "cursor@ai.com"),
                None => false,
            };
            if !email_matches || !is_known_synthetic_token(token.as_str()) {
                return RemovalAction::Finish { removed: false };
            }
            RemovalAction::DeleteKeys(auth_keys())
        },
        RemovalEvent::KeysDeleted => RemovalAction::Finish { removed: true },
    }
}


/// Why the state database cannot be located.
#[derive(Clone, Debug, PartialEq, Eq)]
pub enum AccountError {
    /// The user's home directory is unknown.
    NoHomeDirectory,
    /// Cursor keeps no state database that this crate knows of on the named
    /// platform.
    UnsupportedPlatform(String),
}

impl AccountError {
    /// The error message.
    pub fn message(&self) -> (r: String)
        ensures
            r@ == match *self {
                AccountError::NoHomeDirectory => "cannot resolve user home directory"@,
                AccountError::UnsupportedPlatform(p) => "Cursor account injection is unsupported on "@
                    + p@,
            },
    {
        match self {
            AccountError::NoHomeDirectory => owned("cannot resolve user home directory"),
            AccountError::UnsupportedPlatform(p) => {
                let mut m = owned("Cursor account injection is unsupported on ");
                m.append(p.as_str());
                m
            },
        }
    }
}

/// The directory that the state database's path starts from.
#[derive(Clone, Copy, Debug, PartialEq, Eq)]
pub enum BaseDirectory {
    /// The user's home directory.
    Home,
    /// The directory that `APPDATA` names.
    AppData,
    /// The directory that `XDG_CONFIG_HOME` names.
    XdgConfigHome,
}

/// Where Cursor's state database is: a base directory and the relative
/// paths to join onto it, in order.
#[derive(Clone, Debug)]
pub struct StateDbLocation {
    pub base: BaseDirectory,
    pub relative: Vec<String>,
}

/// The location of Cursor's state database on a platform, given which of
/// the home directory, `APPDATA` and `XDG_CONFIG_HOME` are known:
/// `Err(NoHomeDirectory)` without a home directory, then macOS, Windows and
/// Linux each have their place and other platforms are unsupported.
pub open spec fn state_db_location_text(
    os: Seq<char>,
    has_home: bool,
    has_appdata: bool,
    has_xdg_config_home: bool,
) -> Result<(BaseDirectory, Seq<Seq<char>>), AccountError> {
    if !has_home {
        Err(AccountError::NoHomeDirectory)
    } else if os == "macos"@ {
        Ok((BaseDirectory::Home, seq!["Library/Application Support/Cursor/User/globalStorage/state.vscdb"@]))
    } else if os == "windows"@ {
        if has_appdata {
            Ok((BaseDirectory::AppData, seq!["Cursor/User/globalStorage/state.vscdb"@]))
        } else {
            Ok((BaseDirectory::Home, seq!["AppData/Roaming"@, "Cursor/User/globalStorage/state.vscdb"@]))
        }
    } else if os == "linux"@ {
        if has_xdg_config_home {
            Ok((BaseDirectory::XdgConfigHome, seq!["Cursor/User/globalStorage/state.vscdb"@]))
        } else {
            Ok((BaseDirectory::Home, seq![".config"@, "Cursor/User/globalStorage/state.vscdb"@]))
        }
    } else {
        Err(AccountError::UnsupportedPlatform(arbitrary()))
    }
}

fn location(base: BaseDirectory, first: &str, second: Option<&str>) -> (r: StateDbLocation)
    ensures
        r.base == base,
        texts(r.relative@) == match second {
            Some(s) => seq![first@, s@],
            None => seq![first@],
        },
{
    let mut relative: Vec<String> = Vec::new();
    push_key(&mut relative, first);
    if let Some(s) = second {
        push_key(&mut relative, s);
    }
    proof {
        match second {
            Some(s) => assert(texts(relative@) =~= seq![first@, s@]),
            None => assert(texts(relative@) =~= seq![first@]),
        }
    }
    StateDbLocation { base, relative }
}

/// Where Cursor keeps its state database on the platform `os`.
pub fn state_db_location(os: &str, has_home: bool, has_appdata: bool, has_xdg_config_home: bool) -> (r: Result<StateDbLocation, AccountError>)
    ensures
        match state_db_location_text(os@, has_home, has_appdata, has_xdg_config_home) {
            Ok((base, relative)) => r matches Ok(l) && l.base == base && texts(l.relative@) == relative,
            Err(AccountError::NoHomeDirectory) => r matches Err(AccountError::NoHomeDirectory),
            Err(AccountError::UnsupportedPlatform(_)) => r matches Err(AccountError::UnsupportedPlatform(p)) && p@ == os@,
        },
{
    if !has_home {
        return Err(AccountError::NoHomeDirectory);
    }
    if str_eq(os, "macos") {
        Ok(location(BaseDirectory::Home, "Library/Application Support/Cursor/User/globalStorage/state.vscdb", None))
    } else if str_eq(os, "windows") {
        if has_appdata {
            Ok(location(BaseDirectory::AppData, "Cursor/User/globalStorage/state.vscdb", None))
        } else {
            Ok(location(BaseDirectory::Home, "AppData/Roaming", Some("Cursor/User/globalStorage/state.vscdb")))
        }
    } else if str_eq(os, "linux") {
        if has_xdg_config_home {
            Ok(location(BaseDirectory::XdgConfigHome, "Cursor/User/globalStorage/state.vscdb", None))
        } else {
            Ok(location(BaseDirectory::Home, ".config", Some("Cursor/User/globalStorage/state.vscdb")))
        }
    } else {
        Err(AccountError::UnsupportedPlatform(owned(os)))
    }
}


/// A directory taken from the environment (`APPDATA` on Windows,
/// `XDG_CONFIG_HOME` on Linux) is Cursor's configuration root itself: the
/// database lies directly under it at `Cursor/User/globalStorage/state.vscdb`.
/// Without it, Windows and Linux fall back to the home directory's
/// `AppData/Roaming` and `.config` before that same path; the environment
/// directory is used exactly when its platform is the one asked for and it
/// is known.
pub proof fn law_environment_directories_hold_cursor_directly(
    os: Seq<char>,
    has_home: bool,
    has_appdata: bool,
    has_xdg_config_home: bool,
)
    ensures
        state_db_location_text(os, has_home, has_appdata, has_xdg_config_home) matches Ok((base, relative))
            ==> {
            &&& (base == BaseDirectory::AppData || base == BaseDirectory::XdgConfigHome) ==> relative
                == seq!["Cursor/User/globalStorage/state.vscdb"@]
            &&& (base == BaseDirectory::XdgConfigHome <==> (os == "linux"@ && has_xdg_config_home))
            &&& (base == BaseDirectory::AppData <==> (os == "windows"@ && has_appdata))
            &&& (base == BaseDirectory::Home && os == "linux"@) ==> relative == seq![
                ".config"@,
                "Cursor/User/globalStorage/state.vscdb"@,
            ]
            &&& (base == BaseDirectory::Home && os == "windows"@) ==> relative == seq![
                "AppData/Roaming"@,
                "Cursor/User/globalStorage/state.vscdb"@,
            ]
        },
        has_home && os == "linux"@ && has_xdg_config_home ==> (state_db_location_text(
            os,
            has_home,
            has_appdata,
            has_xdg_config_home,
        ) matches Ok((base, relative)) && base == BaseDirectory::XdgConfigHome && relative.len() == 1),
{
    reveal_strlit("linux");
    reveal_strlit("windows");
    reveal_strlit("macos");
    assert("macos"@ != "linux"@) by {
        assert("macos"@[0] != "linux"@[0]);
    }
    assert("macos"@ != "windows"@) by {
        assert("macos"@[0] != "windows"@[0]);
    }
    assert("windows"@ != "linux"@) by {
        assert("windows"@[0] != "linux"@[0]);
    }
}

} // verus!
