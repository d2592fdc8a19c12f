//! Local client settings: where the daemon listens, the credential to
//! send, and the reachability-test target.
//!
//! The settings file lives outside the library; its text reaches the
//! library as a value tree, or as nothing when the file is missing or
//! unreadable. Loading never fails: anything malformed falls back to
//! the built-in defaults. The daemon has no say over these values, so
//! they are the one kind of state the client may mutate optimistically.

use vstd::prelude::*;

use crate::json::JsonValue;
use crate::json::obj_get;
use crate::json::spec_get;

verus! {

/// The default reachability-test timeout, in milliseconds.
pub const DEFAULT_TEST_TIMEOUT: u64 = 3000;

/// Local client settings.
#[derive(Clone, Debug, PartialEq)]
pub struct AppSettings {
    /// Base URL of the daemon's control API.
    pub base_url: String,
    /// Credential sent as a bearer header; empty sends none.
    pub api_secret: String,
    /// Target of the app-wide reachability test.
    pub test_url: String,
    /// Hard timeout for the reachability test, in milliseconds.
    pub test_timeout: u64,
}

/// The default control-API address.
pub open spec fn spec_default_base_url() -> Seq<char> {
    "http://127.0.0.1:9090"@
}

/// The default reachability-test target.
pub open spec fn spec_default_test_url() -> Seq<char> {
    "https://www.google.com"@
}

/// The default credential: the environment's, or a fixed fallback.
pub open spec fn spec_default_secret(env_secret: Option<String>) -> Seq<char> {
    match env_secret {
        Some(s) => s@,
        None => "mihomo"@,
    }
}

/// The default control-API address.
pub fn default_base_url() -> (r: String)
    ensures
        r@ == spec_default_base_url(),
{
    String::from_str("http://127.0.0.1:9090")
}

/// The default credential. The environment is consulted outside the
/// library; its value, if any, arrives here.
pub fn default_api_secret(env_secret: Option<String>) -> (r: String)
    ensures
        r@ == spec_default_secret(env_secret),
{
    match env_secret {
        Some(s) => s,
        None => String::from_str("mihomo"),
    }
}

/// The default reachability-test target.
pub fn default_test_url() -> (r: String)
    ensures
        r@ == spec_default_test_url(),
{
    String::from_str("https://www.google.com")
}

/// The default reachability-test timeout.
pub fn default_test_timeout() -> (r: u64)
    ensures
        r == DEFAULT_TEST_TIMEOUT,
{
    DEFAULT_TEST_TIMEOUT
}

impl Default for AppSettings {
    /// The built-in defaults, with the fixed fallback credential.
    fn default() -> (r: AppSettings)
        ensures
            r.base_url@ == spec_default_base_url(),
            r.api_secret@ == spec_default_secret(None),
            r.test_url@ == spec_default_test_url(),
            r.test_timeout == DEFAULT_TEST_TIMEOUT,
    {
        AppSettings {
            base_url: default_base_url(),
            api_secret: default_api_secret(None),
            test_url: default_test_url(),
            test_timeout: DEFAULT_TEST_TIMEOUT,
        }
    }
}

/// A settings field that may be absent: missing is absent, a string is
/// a value, anything else (null included) is a type error (the outer
/// `None`), which rejects the whole file.
pub open spec fn spec_field_str(fields: Seq<(String, JsonValue)>, key: Seq<char>) -> Option<
    Option<String>,
> {
    match spec_get(fields, key) {
        None => Some(None),
        Some(JsonValue::Str(s)) => Some(Some(s)),
        Some(_) => None,
    }
}

/// As `spec_field_str`, for an unsigned number.
pub open spec fn spec_field_num(fields: Seq<(String, JsonValue)>, key: Seq<char>) -> Option<
    Option<u64>,
> {
    match spec_get(fields, key) {
        None => Some(None),
        Some(JsonValue::Num(n)) => Some(Some(n)),
        Some(_) => None,
    }
}

fn field_str(fields: &Vec<(String, JsonValue)>, key: &str) -> (r: Option<Option<String>>)
    ensures
        r == spec_field_str(fields@, key@),
{
    match obj_get(fields, key) {
        None => Some(None),
        Some(JsonValue::Str(s)) => Some(Some(s.clone())),
        Some(_) => None,
    }
}

fn field_num(fields: &Vec<(String, JsonValue)>, key: &str) -> (r: Option<Option<u64>>)
    ensures
        r == spec_field_num(fields@, key@),
{
    match obj_get(fields, key) {
        None => Some(None),
        Some(JsonValue::Num(n)) => Some(Some(*n)),
        Some(_) => None,
    }
}

/// The fields of a settings tree, when it is an object.
pub open spec fn spec_settings_fields(v: Option<JsonValue>) -> Seq<(String, JsonValue)> {
    match v {
        Some(JsonValue::Obj(f)) => f@,
        _ => Seq::empty(),
    }
}

/// Whether a settings tree is usable: an object whose four fields are
/// each absent or of the right type. Anything else falls back wholesale.
pub open spec fn spec_settings_usable(v: Option<JsonValue>) -> bool {
    match v {
        Some(JsonValue::Obj(f)) => {
            &&& spec_field_str(f@, "base_url"@) is Some
            &&& spec_field_str(f@, "api_secret"@) is Some
            &&& spec_field_str(f@, "test_url"@) is Some
            &&& spec_field_num(f@, "test_timeout"@) is Some
        },
        _ => false,
    }
}

/// The base URL a settings tree yields.
pub open spec fn spec_settings_base_url(v: Option<JsonValue>) -> Seq<char> {
    if spec_settings_usable(v) {
        match spec_field_str(spec_settings_fields(v), "base_url"@) {
            Some(Some(s)) => s@,
            _ => spec_default_base_url(),
        }
    } else {
        spec_default_base_url()
    }
}

/// The credential a settings tree yields.
pub open spec fn spec_settings_secret(v: Option<JsonValue>, env_secret: Option<String>) -> Seq<
    char,
> {
    if spec_settings_usable(v) {
        match spec_field_str(spec_settings_fields(v), "api_secret"@) {
            Some(Some(s)) => s@,
            _ => spec_default_secret(env_secret),
        }
    } else {
        spec_default_secret(env_secret)
    }
}

/// The test URL a settings tree yields.
pub open spec fn spec_settings_test_url(v: Option<JsonValue>) -> Seq<char> {
    if spec_settings_usable(v) {
        match spec_field_str(spec_settings_fields(v), "test_url"@) {
            Some(Some(s)) => s@,
            _ => spec_default_test_url(),
        }
    } else {
        spec_default_test_url()
    }
}

/// The test timeout a settings tree yields.
pub open spec fn spec_settings_test_timeout(v: Option<JsonValue>) -> u64 {
    if spec_settings_usable(v) {
        match spec_field_num(spec_settings_fields(v), "test_timeout"@) {
            Some(Some(n)) => n,
            _ => DEFAULT_TEST_TIMEOUT,
        }
    } else {
        DEFAULT_TEST_TIMEOUT
    }
}

/// Load settings from an already-read settings tree, or from nothing.
///
/// A missing or unparsable file arrives as `None` and yields the
/// defaults; a present field of the wrong type rejects the whole file
/// the same way. No error is ever raised to the caller.
pub fn settings_from_json(v: Option<&JsonValue>, env_secret: Option<String>) -> (r: AppSettings)
    ensures
        r.base_url@ == spec_settings_base_url(match v {
            Some(t) => Some(*t),
            None => None,
        }),
        r.api_secret@ == spec_settings_secret(
            match v {
                Some(t) => Some(*t),
                None => None,
            },
            env_secret,
        ),
        r.test_url@ == spec_settings_test_url(match v {
            Some(t) => Some(*t),
            None => None,
        }),
        r.test_timeout == spec_settings_test_timeout(match v {
            Some(t) => Some(*t),
            None => None,
        }),
{
    match v {
        Some(JsonValue::Obj(f)) => {
            let base_url = field_str(f, "base_url");
            let api_secret = field_str(f, "api_secret");
            let test_url = field_str(f, "test_url");
            let test_timeout = field_num(f, "test_timeout");
            match (base_url, api_secret, test_url, test_timeout) {
                (Some(base_url), Some(api_secret), Some(test_url), Some(test_timeout)) => {
                    AppSettings {
                        base_url: match base_url {
                            Some(s) => s,
                            None => default_base_url(),
                        },
                        api_secret: match api_secret {
                            Some(s) => s,
                            None => default_api_secret(env_secret),
                        },
                        test_url: match test_url {
                            Some(s) => s,
                            None => default_test_url(),
                        },
                        test_timeout: match test_timeout {
                            Some(n) => n,
                            None => DEFAULT_TEST_TIMEOUT,
                        },
                    }
                },
                _ => {
                    let mut d = AppSettings::default();
                    d.api_secret = default_api_secret(env_secret);
                    d
                },
            }
        },
        _ => {
            let mut d = AppSettings::default();
            d.api_secret = default_api_secret(env_secret);
            d
        },
    }
}

/// Whether `body` is the settings tree that saving `s` writes: the four
/// fields in order, under their file names.
pub open spec fn spec_settings_body(s: AppSettings, body: JsonValue) -> bool {
    match body {
        JsonValue::Obj(f) => {
            let fs = f@;
            &&& fs.len() == 4
            &&& fs[0].0@ == "base_url"@ && fs[0].1 == JsonValue::Str(s.base_url)
            &&& fs[1].0@ == "api_secret"@ && fs[1].1 == JsonValue::Str(s.api_secret)
            &&& fs[2].0@ == "test_url"@ && fs[2].1 == JsonValue::Str(s.test_url)
            &&& fs[3].0@ == "test_timeout"@ && fs[3].1 == JsonValue::Num(s.test_timeout)
        },
        _ => false,
    }
}

/// Saving and reloading settings round-trips: a tree written for `s`
/// is usable, and loading it yields every field of `s` back, whatever
/// the environment holds.
pub proof fn lemma_settings_round_trip(s: AppSettings, body: JsonValue, env_secret: Option<String>)
    requires
        spec_settings_body(s, body),
    ensures
        spec_settings_usable(Some(body)),
        spec_settings_base_url(Some(body)) == s.base_url@,
        spec_settings_secret(Some(body), env_secret) == s.api_secret@,
        spec_settings_test_url(Some(body)) == s.test_url@,
        spec_settings_test_timeout(Some(body)) == s.test_timeout,
{
    broadcast use vstd::string::group_string_axioms;

    reveal_strlit("base_url");
    reveal_strlit("api_secret");
    reveal_strlit("test_url");
    reveal_strlit("test_timeout");
    assert("base_url"@.len() == 8 && "api_secret"@.len() == 10 && "test_url"@.len() == 8
        && "test_timeout"@.len() == 12);
    assert("base_url"@[0] == 'b' && "test_url"@[0] == 't');
    assert("base_url"@ != "api_secret"@ && "base_url"@ != "test_url"@ && "base_url"@
        != "test_timeout"@);
    assert("api_secret"@ != "test_url"@ && "api_secret"@ != "test_timeout"@);
    assert("test_url"@ != "test_timeout"@);
    let fs = spec_settings_fields(Some(body));
    let d1 = fs.drop_first();
    let d2 = d1.drop_first();
    let d3 = d2.drop_first();
    assert(d1[0] == fs[1] && d1[1] == fs[2] && d1[2] == fs[3] && d1.len() == 3);
    assert(d2[0] == fs[2] && d2[1] == fs[3] && d2.len() == 2);
    assert(d3[0] == fs[3] && d3.len() == 1);
    assert(spec_get(fs, "base_url"@) == Some(fs[0].1));
    assert(spec_get(d1, "api_secret"@) == Some(d1[0].1));
    assert(spec_get(fs, "api_secret"@) == spec_get(d1, "api_secret"@));
    assert(spec_get(d2, "test_url"@) == Some(d2[0].1));
    assert(spec_get(d1, "test_url"@) == spec_get(d2, "test_url"@));
    assert(spec_get(fs, "test_url"@) == spec_get(d1, "test_url"@));
    assert(spec_get(d3, "test_timeout"@) == Some(d3[0].1));
    assert(spec_get(d2, "test_timeout"@) == spec_get(d3, "test_timeout"@));
    assert(spec_get(d1, "test_timeout"@) == spec_get(d2, "test_timeout"@));
    assert(spec_get(fs, "test_timeout"@) == spec_get(d1, "test_timeout"@));
}

/// Build the settings tree that the persistence layer writes out.
pub fn settings_to_json(s: &AppSettings) -> (body: JsonValue)
    ensures
        spec_settings_body(*s, body),
{
    let mut fields: Vec<(String, JsonValue)> = Vec::new();
    fields.push((String::from_str("base_url"), JsonValue::Str(s.base_url.clone())));
    fields.push((String::from_str("api_secret"), JsonValue::Str(s.api_secret.clone())));
    fields.push((String::from_str("test_url"), JsonValue::Str(s.test_url.clone())));
    fields.push((String::from_str("test_timeout"), JsonValue::Num(s.test_timeout)));
    JsonValue::Obj(fields)
}

} // verus!
