use vstd::prelude::*;
use vstd::string::StringExecFns;
use vstd::utf8::is_ascii_chars;

use crate::error::BareunError;
use crate::text::{copy_str, has_prefix, trim_end_of, trim_of, trim_start_of, trimmed};

verus! {

/// The service's public host, the one reached over TLS.
pub const CANONICAL_HOST: &'static str = "api.bareun.ai";

/// The port used over TLS when none is given.
pub const TLS_PORT: u16 = 443;

/// The port used without TLS when none is given.
pub const PLAIN_PORT: u16 = 5656;

/// The header that carries the API key on every call.
pub const API_KEY_HEADER: &'static str = "api-key";

/// What `str::to_lowercase` makes of a string.
pub uninterp spec fn lower_of(s: Seq<char>) -> Seq<char>;

/// Whether `r` is `s` with each ASCII capital letter made small, the way
/// Unicode lowercases ASCII text.
pub open spec fn is_ascii_lower_of(r: Seq<char>, s: Seq<char>) -> bool {
    &&& r.len() == s.len()
    &&& forall|i: int|
        0 <= i < s.len() ==> if 'A' <= #[trigger] s[i] && s[i] <= 'Z' {
            r[i] as u32 == s[i] as u32 + 32
        } else {
            r[i] == s[i]
        }
}

/// Relies on str::to_lowercase: the lowercase form of every character,
/// which on ASCII text only turns `A`..`Z` into `a`..`z`.
#[verifier::external_body]
fn lowercase(s: &str) -> (r: String)
    ensures
        r@ == lower_of(s@),
        is_ascii_chars(s@) ==> is_ascii_lower_of(r@, s@),
{
    s.to_lowercase()
}

/// Whether a host, already in lowercase, names the public service.
pub open spec fn is_canonical(lowered: Seq<char>) -> bool {
    CANONICAL_HOST@.is_prefix_of(lowered)
}

/// Whether a host is reached over TLS: its lowercase form begins with the
/// public host.
pub open spec fn uses_tls(host: Seq<char>) -> bool {
    is_canonical(lower_of(host))
}

/// The host a connection goes to: the given one trimmed, or the public
/// host when nothing is left.
pub open spec fn effective_host(host: Seq<char>) -> Seq<char> {
    if trim_of(host).len() == 0 {
        CANONICAL_HOST@
    } else {
        trim_of(host)
    }
}

/// The port a connection goes to: the given one, else the default of its
/// transport.
pub open spec fn port_for(tls: bool, port: Option<u16>) -> u16 {
    match port {
        Some(p) => p,
        None => if tls {
            TLS_PORT
        } else {
            PLAIN_PORT
        },
    }
}

/// Whether `lowered`, a host in lowercase, names the public service.
pub fn is_canonical_host(lowered: &str) -> (r: bool)
    ensures
        r == is_canonical(lowered@),
{
    has_prefix(lowered, CANONICAL_HOST)
}

/// The port for a connection with or without TLS.
pub fn select_port(tls: bool, port: Option<u16>) -> (r: u16)
    ensures
        r == port_for(tls, port),
{
    match port {
        Some(p) => p,
        None => if tls {
            TLS_PORT
        } else {
            PLAIN_PORT
        },
    }
}

/// The port for a connection to `host`.
pub fn resolve_port(host: &str, port: Option<u16>) -> (r: u16)
    ensures
        r == port_for(uses_tls(host@), port),
{
    let lowered = lowercase(host);
    select_port(is_canonical_host(lowered.as_str()), port)
}

/// Where and how to reach the service, and the key to show it.
#[derive(Debug)]
pub struct ConnectionDescriptor {
    pub apikey: String,
    pub host: String,
    pub port: u16,
    pub tls: bool,
}

impl ConnectionDescriptor {
    /// Whether `self` is what `resolve` gives for a non-empty `apikey`,
    /// `host` and `port`.
    pub open spec fn resolved_from(
        self,
        apikey: Seq<char>,
        host: Seq<char>,
        port: Option<u16>,
    ) -> bool {
        &&& self.wf()
        &&& self.apikey@ == apikey
        &&& self.host@ == effective_host(host)
        &&& self.tls == uses_tls(effective_host(host))
        &&& self.port == port_for(self.tls, port)
        &&& is_ascii_chars(self.host@) ==> is_ascii_lower_of(lower_of(self.host@), self.host@)
    }

    /// The key is present, and the transport and port follow from the host.
    pub open spec fn wf(self) -> bool {
        &&& self.apikey@.len() > 0
        &&& self.tls == uses_tls(self.host@)
    }

    /// Settles where a connection goes. Fails with `MissingApiKey` exactly
    /// when the key is empty.
    pub fn resolve(apikey: &str, host: &str, port: Option<u16>) -> (r: Result<
        ConnectionDescriptor,
        BareunError,
    >)
        ensures
            apikey@.len() == 0 <==> r matches Err(BareunError::MissingApiKey),
            apikey@.len() > 0 ==> (r matches Ok(d) && d.resolved_from(apikey@, host@, port)),
    {
        if apikey.is_empty() {
            return Err(BareunError::MissingApiKey);
        }
        let t = trimmed(host);
        let h = if t.is_empty() {
            copy_str(CANONICAL_HOST)
        } else {
            copy_str(t)
        };
        let lowered = lowercase(h.as_str());
        let tls = is_canonical_host(lowered.as_str());
        let port = select_port(tls, port);
        Ok(ConnectionDescriptor { apikey: copy_str(apikey), host: h, port, tls })
    }

    /// The address to connect to: `https://host:port` over TLS, else
    /// `http://host:port`.
    pub fn uri(&self) -> (r: String)
        ensures
            r@ == (if self.tls {
                "https://"@
            } else {
                "http://"@
            }) + self.host@ + ":"@ + decimal(self.port as nat),
    {
        let mut r = if self.tls {
            copy_str("https://")
        } else {
            copy_str("http://")
        };
        r.append(self.host.as_str());
        r.append(":");
        let digits = decimal_string(self.port);
        r.append(digits.as_str());
        r
    }
}

/// Resolving the public host with no port gives TLS on port 443, and
/// resolving `127.0.0.1` with no port gives no TLS and port 5656.
pub proof fn lemma_default_transport_of_hosts(
    public: ConnectionDescriptor,
    local: ConnectionDescriptor,
    apikey: Seq<char>,
)
    requires
        public.resolved_from(apikey, "api.bareun.ai"@, None),
        local.resolved_from(apikey, "127.0.0.1"@, None),
    ensures
        public.host@ == "api.bareun.ai"@,
        public.tls,
        public.port == 443,
        local.host@ == "127.0.0.1"@,
        !local.tls,
        local.port == 5656,
{
    reveal_strlit("api.bareun.ai");
    reveal_strlit("127.0.0.1");
    let p = "api.bareun.ai"@;
    let l = "127.0.0.1"@;
    assert(trim_start_of(p) == p);
    assert(trim_end_of(p) == p);
    assert(trim_start_of(l) == l);
    assert(trim_end_of(l) == l);
    assert(is_ascii_chars(p));
    assert(is_ascii_chars(l));
    assert(lower_of(p) =~= p);
    assert(lower_of(l) =~= l);
    assert(CANONICAL_HOST@ =~= p.subrange(0, p.len() as int));
    assert(l[0] != CANONICAL_HOST@[0]);
}

/// The decimal digits of `n`, without leading zeros.
pub open spec fn decimal(n: nat) -> Seq<char>
    decreases n,
{
    if n < 10 {
        seq![digit(n)]
    } else {
        decimal(n / 10).push(digit(n % 10))
    }
}

pub open spec fn digit(d: nat) -> char {
    if d == 0 {
        '0'
    } else if d == 1 {
        '1'
    } else if d == 2 {
        '2'
    } else if d == 3 {
        '3'
    } else if d == 4 {
        '4'
    } else if d == 5 {
        '5'
    } else if d == 6 {
        '6'
    } else if d == 7 {
        '7'
    } else if d == 8 {
        '8'
    } else {
        '9'
    }
}

fn digit_str(d: u16) -> (r: &'static str)
    requires
        d < 10,
    ensures
        r@ == seq![digit(d as nat)],
{
    let r = if d == 0 {
        "0"
    } else if d == 1 {
        "1"
    } else if d == 2 {
        "2"
    } else if d == 3 {
        "3"
    } else if d == 4 {
        "4"
    } else if d == 5 {
        "5"
    } else if d == 6 {
        "6"
    } else if d == 7 {
        "7"
    } else if d == 8 {
        "8"
    } else {
        "9"
    };
    proof {
        reveal_strlit("0");
        reveal_strlit("1");
        reveal_strlit("2");
        reveal_strlit("3");
        reveal_strlit("4");
        reveal_strlit("5");
        reveal_strlit("6");
        reveal_strlit("7");
        reveal_strlit("8");
        reveal_strlit("9");
    }
    r
}

fn decimal_string(n: u16) -> (r: String)
    ensures
        r@ == decimal(n as nat),
    decreases n,
{
    if n < 10 {
        copy_str(digit_str(n))
    } else {
        let mut r = decimal_string(n / 10);
        r.append(digit_str(n % 10));
        r
    }
}

} // verus!
