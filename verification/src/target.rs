//! Connection target: either a raw connection string or structured
//! endpoint parameters, validated before any dial.
//!
//! Exactly one target form is required; SQL authentication needs
//! both a user and a password; integrated platform authentication is
//! not offered; and the application-intent text admits only the
//! read-only and read-write spellings, whitespace-trimmed and
//! case-insensitive.

use vstd::prelude::*;
use vstd::string::StringSliceAdditionalSpecFns;
use crate::bytes_util::{is_sp, lo, byte_is_space, lower_byte};
use crate::errors::Error;

verus! {

/// Index of the first non-whitespace byte, or the length when all
/// bytes are whitespace.
pub open spec fn first_ns(s: Seq<u8>) -> int
    decreases s.len(),
{
    if s.len() == 0 {
        0
    } else if !is_sp(s[0]) {
        0
    } else {
        1 + first_ns(s.skip(1))
    }
}

/// Index of the last non-whitespace byte, or `-1` when all bytes are
/// whitespace.
pub open spec fn last_ns(s: Seq<u8>) -> int
    decreases s.len(),
{
    if s.len() == 0 {
        -1
    } else if !is_sp(s[s.len() - 1]) {
        s.len() - 1
    } else {
        last_ns(s.take(s.len() - 1))
    }
}

/// The whitespace-trimmed text.
pub open spec fn trimmed(s: Seq<u8>) -> Seq<u8> {
    if first_ns(s) <= last_ns(s) {
        s.subrange(first_ns(s), last_ns(s) + 1)
    } else {
        Seq::empty()
    }
}

/// The texts are equal once `t` is lower-cased.
pub open spec fn lower_eq(t: Seq<u8>, kw: Seq<u8>) -> bool {
    t.len() == kw.len() && (forall|j: int| 0 <= j < kw.len() ==> lo(t[j]) == kw[j])
}

/// The byte text `readonly`.
pub open spec fn kw_readonly() -> Seq<u8> {
    seq![114u8, 101u8, 97u8, 100u8, 111u8, 110u8, 108u8, 121u8]
}

/// The byte text `read_only`.
pub open spec fn kw_read_only() -> Seq<u8> {
    seq![114u8, 101u8, 97u8, 100u8, 95u8, 111u8, 110u8, 108u8, 121u8]
}

/// The byte text `readwrite`.
pub open spec fn kw_readwrite() -> Seq<u8> {
    seq![114u8, 101u8, 97u8, 100u8, 119u8, 114u8, 105u8, 116u8, 101u8]
}

/// The byte text `read_write`.
pub open spec fn kw_read_write() -> Seq<u8> {
    seq![114u8, 101u8, 97u8, 100u8, 95u8, 119u8, 114u8, 105u8, 116u8, 101u8]
}

/// What an application-intent text means: the read-only spellings,
/// the read-write spellings, the empty text (read-write), or nothing.
pub open spec fn spec_intent(s: Seq<u8>) -> Option<bool> {
    let t = trimmed(s);
    if lower_eq(t, kw_readonly()) || lower_eq(t, kw_read_only()) {
        Some(true)
    } else if lower_eq(t, kw_readwrite()) || lower_eq(t, kw_read_write()) || t.len() == 0 {
        Some(false)
    } else {
        None
    }
}

proof fn lemma_first_ns_unique(s: Seq<u8>, k: int)
    requires
        0 <= k <= s.len(),
        forall|j: int| 0 <= j < k ==> is_sp(#[trigger] s[j]),
        k < s.len() ==> !is_sp(s[k]),
    ensures
        first_ns(s) == k,
    decreases s.len(),
{
    if s.len() == 0 {
    } else if !is_sp(s[0]) {
        assert(k == 0);
    } else {
        assert(k >= 1);
        assert forall|j: int| 0 <= j < k - 1 implies is_sp(#[trigger] s.skip(1)[j]) by {
            assert(s.skip(1)[j] == s[j + 1]);
        }
        if k - 1 < s.skip(1).len() {
            assert(s.skip(1)[k - 1] == s[k]);
        }
        lemma_first_ns_unique(s.skip(1), k - 1);
    }
}

proof fn lemma_last_ns_unique(s: Seq<u8>, k: int)
    requires
        -1 <= k < s.len(),
        k >= 0 ==> !is_sp(s[k]),
        forall|j: int| k < j < s.len() ==> is_sp(#[trigger] s[j]),
    ensures
        last_ns(s) == k,
    decreases s.len(),
{
    if s.len() == 0 {
    } else if !is_sp(s[s.len() - 1]) {
        assert(k == s.len() - 1);
    } else {
        let q = s.take(s.len() - 1);
        assert(k < s.len() - 1);
        if k >= 0 {
            assert(q[k] == s[k]);
        }
        assert forall|j: int| k < j < q.len() implies is_sp(#[trigger] q[j]) by {
            assert(q[j] == s[j]);
        }
        lemma_last_ns_unique(q, k);
    }
}

/// Decides what an application-intent text means, by
/// [`spec_intent`].
pub fn parse_intent(intent: &str) -> (r: Option<bool>)
    ensures
        r == spec_intent(intent.spec_bytes()),
{
    let p = intent.as_bytes();
    let n = p.len();
    // trim the front
    let mut a: usize = 0;
    while a < n && byte_is_space(*vstd::slice::slice_index_get(p, a))
        invariant
            n == p@.len(),
            a <= n,
            forall|k: int| 0 <= k < a ==> is_sp(#[trigger] p@[k]),
        decreases n - a,
    {
        a = a + 1;
    }
    proof {
        lemma_first_ns_unique(p@, a as int);
    }
    // trim the back
    let mut b: usize = n;
    while b > a && byte_is_space(*vstd::slice::slice_index_get(p, b - 1))
        invariant
            n == p@.len(),
            a <= b <= n,
            forall|k: int| b <= k < n ==> is_sp(#[trigger] p@[k]),
            forall|k: int| 0 <= k < a ==> is_sp(#[trigger] p@[k]),
        decreases b,
    {
        b = b - 1;
    }
    proof {
        if b == a {
            assert(a == n) by {
                if a < n {
                    assert(!is_sp(p@[a as int]));
                    assert(is_sp(p@[a as int]));
                }
            }
            lemma_last_ns_unique(p@, -1);
            assert(trimmed(p@) =~= Seq::<u8>::empty());
        } else {
            assert(!is_sp(p@[b - 1]));
            lemma_last_ns_unique(p@, b as int - 1);
            assert(trimmed(p@) =~= p@.subrange(a as int, b as int));
        }
    }
    let t = vstd::slice::slice_subrange(p, a, b);
    proof {
        assert(t@ =~= trimmed(p@));
    }
    if lower_matches(t, 0) || lower_matches(t, 1) {
        Some(true)
    } else if lower_matches(t, 2) || lower_matches(t, 3) || t.len() == 0 {
        Some(false)
    } else {
        None
    }
}

fn intent_kw(which: u8) -> (r: Vec<u8>)
    requires
        which < 4,
    ensures
        which == 0 ==> r@ == kw_readonly(),
        which == 1 ==> r@ == kw_read_only(),
        which == 2 ==> r@ == kw_readwrite(),
        which == 3 ==> r@ == kw_read_write(),
{
    let mut v: Vec<u8> = Vec::new();
    v.push(114);
    v.push(101);
    v.push(97);
    v.push(100);
    if which == 0 {
        v.push(111);
        v.push(110);
        v.push(108);
        v.push(121);
        proof {
            assert(v@ =~= kw_readonly());
        }
    } else if which == 1 {
        v.push(95);
        v.push(111);
        v.push(110);
        v.push(108);
        v.push(121);
        proof {
            assert(v@ =~= kw_read_only());
        }
    } else if which == 2 {
        v.push(119);
        v.push(114);
        v.push(105);
        v.push(116);
        v.push(101);
        proof {
            assert(v@ =~= kw_readwrite());
        }
    } else {
        v.push(95);
        v.push(119);
        v.push(114);
        v.push(105);
        v.push(116);
        v.push(101);
        proof {
            assert(v@ =~= kw_read_write());
        }
    }
    v
}

fn lower_matches(t: &[u8], which: u8) -> (r: bool)
    requires
        which < 4,
    ensures
        which == 0 ==> r == lower_eq(t@, kw_readonly()),
        which == 1 ==> r == lower_eq(t@, kw_read_only()),
        which == 2 ==> r == lower_eq(t@, kw_readwrite()),
        which == 3 ==> r == lower_eq(t@, kw_read_write()),
{
    let kw = intent_kw(which);
    let m = kw.len();
    if t.len() != m {
        return false;
    }
    let mut j: usize = 0;
    while j < m
        invariant
            which < 4,
            t@.len() == m,
            m == kw@.len(),
            which == 0 ==> kw@ == kw_readonly(),
            which == 1 ==> kw@ == kw_read_only(),
            which == 2 ==> kw@ == kw_readwrite(),
            which == 3 ==> kw@ == kw_read_write(),
            j <= m,
            forall|q: int| 0 <= q < j ==> lo(t@[q]) == kw@[q],
        decreases m - j,
    {
        if lower_byte(*vstd::slice::slice_index_get(t, j)) != kw[j] {
            return false;
        }
        j = j + 1;
    }
    true
}

/// SQL authentication: a user name with its password.
pub struct SqlAuth {
    /// The user name.
    pub username: String,
    /// The password.
    pub password: String,
}

/// Structured endpoint parameters.
pub struct EndpointParams {
    /// The server host.
    pub server: String,
    /// The database to open, if named.
    pub database: Option<String>,
    /// SQL credentials, or none for an unauthenticated dial.
    pub auth: Option<SqlAuth>,
    /// The TCP port, if overridden.
    pub port: Option<u16>,
    /// The instance name, if named.
    pub instance_name: Option<String>,
    /// The application name to report, if named.
    pub application_name: Option<String>,
    /// Whether the connection declares read-only intent.
    pub readonly: Option<bool>,
}

/// A validated connection target: one of the two accepted forms.
pub enum ConnectionTarget {
    /// A raw connection string, parsed later by the protocol client.
    AdoString(String),
    /// Structured endpoint parameters.
    Params(EndpointParams),
}

/// Whether the construction inputs are accepted: one target form
/// present; a user only together with a password; no integrated
/// platform authentication; a recognizable intent text.
pub open spec fn spec_target_accepts(
    connection_string: Option<Seq<char>>,
    server: Option<Seq<char>>,
    username: Option<Seq<char>>,
    password: Option<Seq<char>>,
    trusted_connection: Option<bool>,
    intent: Option<Seq<u8>>,
) -> bool {
    if connection_string is Some {
        true
    } else if server is Some {
        &&& (username is Some ==> password is Some)
        &&& (username is None ==> trusted_connection == Some(false))
        &&& (intent matches Some(t) ==> spec_intent(t) is Some)
    } else {
        false
    }
}

/// Validates and assembles a connection target from the construction
/// surface. A raw connection string wins over structured parameters;
/// its syntax belongs to the protocol client and is checked at dial
/// time.
pub fn build_target(
    connection_string: Option<String>,
    server: Option<String>,
    database: Option<String>,
    username: Option<String>,
    password: Option<String>,
    trusted_connection: Option<bool>,
    port: Option<u16>,
    instance_name: Option<String>,
    application_name: Option<String>,
    application_intent: Option<String>,
) -> (r: Result<ConnectionTarget, Error>)
    ensures
        r is Ok <==> spec_target_accepts(
            match connection_string {
                Some(c) => Some(c@),
                None => None,
            },
            match server {
                Some(c) => Some(c@),
                None => None,
            },
            match username {
                Some(c) => Some(c@),
                None => None,
            },
            match password {
                Some(c) => Some(c@),
                None => None,
            },
            trusted_connection,
            match application_intent {
                Some(c) => Some(vstd::utf8::encode_utf8(c@)),
                None => None,
            },
        ),
        r matches Ok(t) ==> match t {
            ConnectionTarget::AdoString(c) => connection_string matches Some(cs) && c@ == cs@,
            ConnectionTarget::Params(p) => {
                &&& connection_string is None
                &&& (server matches Some(sv) && p.server@ == sv@)
                &&& (match (&p.database, &database) {
                    (Some(a), Some(b)) => a@ == b@,
                    (None, None) => true,
                    _ => false,
                })
                &&& (match (&p.auth, &username) {
                    (Some(a), Some(u)) => a.username@ == u@ && (password matches Some(w)
                        && a.password@ == w@),
                    (None, None) => true,
                    _ => false,
                })
                &&& p.port == port
                &&& (match (&p.instance_name, &instance_name) {
                    (Some(a), Some(b)) => a@ == b@,
                    (None, None) => true,
                    _ => false,
                })
                &&& (match (&p.application_name, &application_name) {
                    (Some(a), Some(b)) => a@ == b@,
                    (None, None) => true,
                    _ => false,
                })
                &&& (match &application_intent {
                    Some(t) => p.readonly == spec_intent(vstd::utf8::encode_utf8(t@)),
                    None => p.readonly is None,
                })
            },
        },
        r matches Err(e) ==> e is Configuration,
{
    if let Some(cs) = connection_string {
        return Ok(ConnectionTarget::AdoString(cs));
    }
    let srv = match server {
        Some(s) => s,
        None => {
            return Err(Error::Configuration(String::from_str(
                "either connection_string or server must be provided",
            )));
        },
    };
    let auth = match username {
        Some(user) => match password {
            Some(pw) => Some(SqlAuth { username: user, password: pw }),
            None => {
                return Err(Error::Configuration(String::from_str(
                    "password is required when username is provided",
                )));
            },
        },
        None => {
            let trusted = match trusted_connection {
                Some(t) => t,
                None => true,
            };
            if trusted {
                return Err(Error::Configuration(String::from_str(
                    "integrated platform authentication is not supported; provide username and password for SQL authentication",
                )));
            }
            None
        },
    };
    let readonly = match &application_intent {
        Some(text) => match parse_intent(text.as_str()) {
            Some(ro) => Some(ro),
            None => {
                let mut msg = String::from_str("invalid application_intent '");
                msg.append(text.as_str());
                msg.append(
                    "'; valid values: 'readonly', 'read_only', 'readwrite', 'read_write', or an empty string",
                );
                return Err(Error::Configuration(msg));
            },
        },
        None => None,
    };
    Ok(ConnectionTarget::Params(EndpointParams {
        server: srv,
        database,
        auth,
        port,
        instance_name,
        application_name,
        readonly,
    }))
}

} // verus!
