//! Transport-security configuration: encryption level, certificate
//! trust, and the validation that rejects contradictory options.
//!
//! The filesystem's answers about a custom CA file (does it exist,
//! is it readable) come in as plain values from the runtime; the
//! extension rule and the mutual exclusion between trusting every
//! certificate and pinning a CA file are decided and proved here.

use vstd::prelude::*;
use vstd::string::StringSliceAdditionalSpecFns;
use vstd::utf8::encode_utf8;
use crate::bytes_util::lo;
use crate::errors::Error;

verus! {

/// How much of the connection is encrypted.
#[derive(Clone, Copy, Debug, PartialEq, Eq, Structural)]
pub enum EncryptionLevel {
    /// All traffic is encrypted (recommended).
    Required,
    /// Only the login procedure is encrypted.
    LoginOnly,
    /// No encryption (not recommended).
    Off,
}

impl EncryptionLevel {
    /// The level's name.
    pub fn text(&self) -> (r: String)
        ensures
            *self is Required ==> r@ == "Required"@,
            *self is LoginOnly ==> r@ == "LoginOnly"@,
            *self is Off ==> r@ == "Off"@,
    {
        match self {
            EncryptionLevel::Required => String::from_str("Required"),
            EncryptionLevel::LoginOnly => String::from_str("LoginOnly"),
            EncryptionLevel::Off => String::from_str("Off"),
        }
    }
}

/// What the runtime reported about the custom CA file, when one was
/// named: the filesystem is read outside the library and its answers
/// come in as plain values.
#[derive(Clone, Copy, Debug, PartialEq, Eq, Structural)]
pub struct CaFileReport {
    /// The file exists.
    pub exists: bool,
    /// The file could be opened for reading.
    pub readable: bool,
}

/// The index of the last occurrence of `b`, or `-1` when `b` does
/// not occur.
pub open spec fn last_pos(p: Seq<u8>, b: u8) -> int
    decreases p.len(),
{
    if p.len() == 0 {
        -1
    } else if p[p.len() - 1] == b {
        p.len() - 1
    } else {
        last_pos(p.take(p.len() - 1), b)
    }
}

/// The bytes from `i` to the end spell `kw` in lower case.
pub open spec fn tail_is(p: Seq<u8>, i: int, kw: Seq<u8>) -> bool {
    0 <= i && i + kw.len() == p.len() && (forall|j: int| 0 <= j < kw.len() ==> lo(p[i + j]) == kw[j])
}

/// The byte text `pem`.
pub open spec fn ext_pem() -> Seq<u8> {
    seq![112u8, 101u8, 109u8]
}

/// The byte text `crt`.
pub open spec fn ext_crt() -> Seq<u8> {
    seq![99u8, 114u8, 116u8]
}

/// The byte text `der`.
pub open spec fn ext_der() -> Seq<u8> {
    seq![100u8, 101u8, 114u8]
}

/// The path names a file whose extension, in any letter case, is
/// `pem`, `crt` or `der`: a final dot-separated suffix that is not
/// the whole file name.
pub open spec fn spec_valid_cert_ext(p: Seq<u8>) -> bool {
    let ls = last_pos(p, 47);
    let ld = last_pos(p, 46);
    &&& ld > ls + 1
    &&& (tail_is(p, ld + 1, ext_pem()) || tail_is(p, ld + 1, ext_crt()) || tail_is(
        p,
        ld + 1,
        ext_der(),
    ))
}

proof fn lemma_last_pos(p: Seq<u8>, b: u8)
    ensures
        -1 <= last_pos(p, b) < p.len(),
        last_pos(p, b) >= 0 ==> p[last_pos(p, b)] == b,
        forall|k: int| last_pos(p, b) < k < p.len() ==> p[k] != b,
    decreases p.len(),
{
    if p.len() == 0 {
    } else if p[p.len() - 1] == b {
    } else {
        lemma_last_pos(p.take(p.len() - 1), b);
        let q = p.take(p.len() - 1);
        if last_pos(p, b) >= 0 {
            assert(q[last_pos(q, b)] == p[last_pos(p, b)]);
        }
        assert forall|k: int| last_pos(p, b) < k < p.len() implies p[k] != b by {
            if k < p.len() - 1 {
                assert(q[k] == p[k]);
            }
        }
    }
}

proof fn lemma_last_pos_unique(p: Seq<u8>, b: u8, k: int)
    requires
        0 <= k < p.len(),
        p[k] == b,
        forall|j: int| k < j < p.len() ==> p[j] != b,
    ensures
        last_pos(p, b) == k,
    decreases p.len(),
{
    if p[p.len() - 1] == b {
        assert(k == p.len() - 1);
    } else {
        let q = p.take(p.len() - 1);
        assert(k < p.len() - 1);
        assert(q[k] == p[k]);
        assert forall|j: int| k < j < q.len() implies q[j] != b by {
            assert(q[j] == p[j]);
        }
        lemma_last_pos_unique(q, b, k);
    }
}

proof fn lemma_last_pos_none(p: Seq<u8>, b: u8)
    requires
        forall|j: int| 0 <= j < p.len() ==> p[j] != b,
    ensures
        last_pos(p, b) == -1,
    decreases p.len(),
{
    if p.len() > 0 {
        let q = p.take(p.len() - 1);
        assert forall|j: int| 0 <= j < q.len() implies q[j] != b by {
            assert(q[j] == p[j]);
        }
        lemma_last_pos_none(q, b);
    }
}

/// Finds the last occurrence of `b` in `p`, as an offset shifted by
/// one so that zero means "not present".
fn rscan(p: &[u8], b: u8) -> (r: usize)
    ensures
        r as int - 1 == last_pos(p@, b),
{
    let n = p.len();
    let mut i: usize = n;
    while i > 0
        invariant
            n == p@.len(),
            i <= n,
            forall|k: int| i <= k < n ==> p@[k] != b,
        decreases i,
    {
        i = i - 1;
        if *vstd::slice::slice_index_get(p, i) == b {
            proof {
                lemma_last_pos_unique(p@, b, i as int);
            }
            return i + 1;
        }
    }
    proof {
        lemma_last_pos_none(p@, b);
    }
    0
}

fn ext_vec(which: u8) -> (r: Vec<u8>)
    requires
        which < 3,
    ensures
        which == 0 ==> r@ == ext_pem(),
        which == 1 ==> r@ == ext_crt(),
        which == 2 ==> r@ == ext_der(),
{
    let mut v: Vec<u8> = Vec::new();
    if which == 0 {
        v.push(112);
        v.push(101);
        v.push(109);
        proof {
            assert(v@ =~= ext_pem());
        }
    } else if which == 1 {
        v.push(99);
        v.push(114);
        v.push(116);
        proof {
            assert(v@ =~= ext_crt());
        }
    } else {
        v.push(100);
        v.push(101);
        v.push(114);
        proof {
            assert(v@ =~= ext_der());
        }
    }
    v
}

fn tail_matches(p: &[u8], i: usize, kw: &Vec<u8>) -> (r: bool)
    requires
        i <= p@.len(),
    ensures
        r == tail_is(p@, i as int, kw@),
{
    let n = p.len();
    let m = kw.len();
    if n - i != m {
        return false;
    }
    let mut j: usize = 0;
    while j < m
        invariant
            n == p@.len(),
            i + m == n,
            m == kw@.len(),
            j <= m,
            forall|q: int| 0 <= q < j ==> lo(p@[i + q]) == kw@[q],
        decreases m - j,
    {
        let pb = crate::bytes_util::lower_byte(*vstd::slice::slice_index_get(p, i + j));
        if pb != kw[j] {
            return false;
        }
        j = j + 1;
    }
    true
}

/// Decides the certificate-extension rule on a path's text.
pub fn has_valid_cert_ext(path: &str) -> (r: bool)
    ensures
        r == spec_valid_cert_ext(path.spec_bytes()),
{
    let p = path.as_bytes();
    let ls = rscan(p, 47);
    let ld = rscan(p, 46);
    if !(ld > ls && ld - ls >= 2) {
        proof {
            assert(!(last_pos(p@, 46) > last_pos(p@, 47) + 1));
        }
        return false;
    }
    proof {
        lemma_last_pos(p@, 46);
        assert(ld <= p@.len());
    }
    let pem = ext_vec(0);
    let crt = ext_vec(1);
    let der = ext_vec(2);
    tail_matches(p, ld, &pem) || tail_matches(p, ld, &crt) || tail_matches(p, ld, &der)
}

/// Transport-security options of one connection handle.
pub struct SslConfig {
    /// How much of the connection is encrypted.
    pub encryption_level: EncryptionLevel,
    /// Trust any server certificate without validation (development
    /// only); mutually exclusive with a custom CA file.
    pub trust_server_certificate: bool,
    /// Path of a custom CA certificate file.
    pub ca_certificate_path: Option<String>,
    /// Offer the server name during the handshake.
    pub enable_sni: bool,
    /// Override of the server name used for certificate validation.
    pub server_name: Option<String>,
}

/// Whether the inputs of [`SslConfig::new`] are accepted: a named CA
/// file must exist, be readable and carry a recognized extension,
/// and cannot be combined with trusting every certificate.
pub open spec fn spec_ssl_accepts(
    trust_server_certificate: bool,
    ca_certificate_path: Option<Seq<char>>,
    ca_bytes: Seq<u8>,
    ca_report: CaFileReport,
) -> bool {
    match ca_certificate_path {
        None => true,
        Some(_) => ca_report.exists && ca_report.readable && spec_valid_cert_ext(ca_bytes)
            && !trust_server_certificate,
    }
}

impl SslConfig {
    /// Builds a transport-security configuration. When a CA file is
    /// named, `ca_report` carries the filesystem's answers about it,
    /// read by the runtime; construction fails exactly when the CA
    /// file is missing, unreadable or oddly named, or combined with
    /// trusting every certificate.
    pub fn new(
        encryption_level: Option<EncryptionLevel>,
        trust_server_certificate: bool,
        ca_certificate_path: Option<String>,
        enable_sni: bool,
        server_name: Option<String>,
        ca_report: CaFileReport,
    ) -> (r: Result<SslConfig, Error>)
        ensures
            r is Ok <==> spec_ssl_accepts(
                trust_server_certificate,
                match ca_certificate_path {
                    Some(p) => Some(p@),
                    None => None,
                },
                match ca_certificate_path {
                    Some(p) => encode_utf8(p@),
                    None => Seq::empty(),
                },
                ca_report,
            ),
            r matches Ok(c) ==> {
                &&& c.encryption_level == (match encryption_level {
                    Some(l) => l,
                    None => EncryptionLevel::Required,
                })
                &&& c.trust_server_certificate == trust_server_certificate
                &&& (match (&c.ca_certificate_path, &ca_certificate_path) {
                    (Some(a), Some(b)) => a@ == b@,
                    (None, None) => true,
                    _ => false,
                })
                &&& c.enable_sni == enable_sni
                &&& (match (&c.server_name, &server_name) {
                    (Some(a), Some(b)) => a@ == b@,
                    (None, None) => true,
                    _ => false,
                })
            },
            r matches Err(e) ==> e is Configuration,
    {
        if let Some(path) = &ca_certificate_path {
            if !ca_report.exists {
                let mut msg = String::from_str("CA certificate file does not exist: ");
                msg.append(path.as_str());
                return Err(Error::Configuration(msg));
            }
            if !ca_report.readable {
                let mut msg = String::from_str("CA certificate file is not readable: ");
                msg.append(path.as_str());
                return Err(Error::Configuration(msg));
            }
            if !has_valid_cert_ext(path.as_str()) {
                return Err(Error::Configuration(String::from_str(
                    "CA certificate must be a .pem, .crt, or .der file",
                )));
            }
            if trust_server_certificate {
                return Err(Error::Configuration(String::from_str(
                    "trust_server_certificate and ca_certificate_path are mutually exclusive",
                )));
            }
        }
        Ok(SslConfig {
            encryption_level: match encryption_level {
                Some(l) => l,
                None => EncryptionLevel::Required,
            },
            trust_server_certificate,
            ca_certificate_path,
            enable_sni,
            server_name,
        })
    }

    /// The development preset: full encryption, but any certificate
    /// is trusted and no server name is offered.
    pub fn development() -> (r: SslConfig)
        ensures
            r.encryption_level is Required,
            r.trust_server_certificate,
            r.ca_certificate_path is None,
            !r.enable_sni,
            r.server_name is None,
    {
        SslConfig {
            encryption_level: EncryptionLevel::Required,
            trust_server_certificate: true,
            ca_certificate_path: None,
            enable_sni: false,
            server_name: None,
        }
    }

    /// The production preset over a custom CA file; validated as in
    /// [`SslConfig::new`].
    pub fn with_ca_certificate(ca_cert_path: String, ca_report: CaFileReport) -> (r: Result<
        SslConfig,
        Error,
    >)
        ensures
            r is Ok <==> ca_report.exists && ca_report.readable && spec_valid_cert_ext(
                encode_utf8(ca_cert_path@),
            ),
            r matches Ok(c) ==> {
                &&& c.encryption_level is Required
                &&& !c.trust_server_certificate
                &&& (c.ca_certificate_path matches Some(p) && p@ == ca_cert_path@)
                &&& c.enable_sni
                &&& c.server_name is None
            },
            r matches Err(e) ==> e is Configuration,
    {
        SslConfig::new(
            Some(EncryptionLevel::Required),
            false,
            Some(ca_cert_path),
            true,
            None,
            ca_report,
        )
    }

    /// The legacy preset: only the login is encrypted.
    pub fn login_only() -> (r: SslConfig)
        ensures
            r.encryption_level is LoginOnly,
            !r.trust_server_certificate,
            r.ca_certificate_path is None,
            r.enable_sni,
            r.server_name is None,
    {
        SslConfig {
            encryption_level: EncryptionLevel::LoginOnly,
            trust_server_certificate: false,
            ca_certificate_path: None,
            enable_sni: true,
            server_name: None,
        }
    }

    /// The unencrypted preset (not recommended).
    pub fn disabled() -> (r: SslConfig)
        ensures
            r.encryption_level is Off,
            !r.trust_server_certificate,
            r.ca_certificate_path is None,
            r.enable_sni,
            r.server_name is None,
    {
        SslConfig {
            encryption_level: EncryptionLevel::Off,
            trust_server_certificate: false,
            ca_certificate_path: None,
            enable_sni: true,
            server_name: None,
        }
    }

    /// How the transport should be configured for this handle: which
    /// encryption level, and which of the mutually exclusive trust
    /// modes.
    pub fn tls_plan(&self) -> (r: TlsPlan)
        ensures
            r.encryption == self.encryption_level,
            self.trust_server_certificate ==> r.trust is TrustAll,
            !self.trust_server_certificate ==> match (&self.ca_certificate_path, &r.trust) {
                (Some(p), TrustMode::CaFile(q)) => p@ == q@,
                (None, TrustMode::Default) => true,
                _ => false,
            },
    {
        let trust = if self.trust_server_certificate {
            TrustMode::TrustAll
        } else {
            match &self.ca_certificate_path {
                Some(p) => TrustMode::CaFile(p.clone()),
                None => TrustMode::Default,
            }
        };
        TlsPlan { encryption: self.encryption_level, trust }
    }
}

/// Which certificates the transport should trust.
pub enum TrustMode {
    /// Platform validation, no overrides.
    Default,
    /// Trust any certificate (development only).
    TrustAll,
    /// Validate against one CA certificate file.
    CaFile(String),
}

/// The transport-security decisions the runtime applies to the
/// protocol client's configuration.
pub struct TlsPlan {
    /// The encryption level to request.
    pub encryption: EncryptionLevel,
    /// The certificate trust mode.
    pub trust: TrustMode,
}

} // verus!
