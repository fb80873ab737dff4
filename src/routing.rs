//! The redirect listener's rule: every plaintext request is sent, permanently,
//! to the same host and path on the secure port.
use vstd::prelude::*;

use crate::text::{decimal, decimal_bytes, lemma_decimal_digits, push_all};

verus! {

/// The two listening ports: plaintext and secure.
#[derive(Clone, Copy)]
pub struct Ports {
    pub http: u16,
    pub https: u16,
}

/// What the redirect listener answers to one request.
pub enum RedirectOutcome {
    /// A permanent redirect to the given location.
    Permanent(Vec<u8>),
    /// The request's host could not be made into a secure URI.
    BadRequest,
}

/// Whether the `http` crate accepts `b` as the authority component of a URI.
pub uninterp spec fn valid_authority(b: Seq<u8>) -> bool;

/// Relies on `http::uri::Authority::try_from(&[u8])`: it succeeds exactly on the
/// byte strings it accepts as an authority, and fails on the empty string.
#[verifier::external_body]
fn authority_accepts(b: &[u8]) -> (r: bool)
    ensures
        r == valid_authority(b@),
        b@.len() == 0 ==> !r,
{
    <axum::http::uri::Authority as std::convert::TryFrom<&[u8]>>::try_from(b).is_ok()
}

/// The bytes `https://`.
pub open spec fn https_scheme_prefix() -> Seq<u8> {
    seq![104u8, 116u8, 116u8, 112u8, 115u8, 58u8, 47u8, 47u8]
}

/// The position of the colon that starts the port of an authority: the last
/// `:` after which no `]` follows (so a colon inside a bracketed IPv6 address
/// is none); `None` where the authority has no port.
pub open spec fn port_colon(a: Seq<u8>) -> Option<int>
    decreases a.len(),
{
    if a.len() == 0 {
        None
    } else if a.last() == 58u8 {
        Some(a.len() - 1)
    } else if a.last() == 93u8 {
        None
    } else {
        port_colon(a.drop_last())
    }
}

/// The authority without its port.
pub open spec fn host_part(a: Seq<u8>) -> Seq<u8> {
    match port_colon(a) {
        Some(i) => a.take(i),
        None => a,
    }
}

/// The port written in an authority, if it has one.
pub open spec fn port_of(a: Seq<u8>) -> Option<Seq<u8>> {
    match port_colon(a) {
        Some(i) => Some(a.skip(i + 1)),
        None => None,
    }
}

/// The request's host with its port, present or not, set to the secure port.
pub open spec fn secure_host(host: Seq<u8>, ports: Ports) -> Seq<u8> {
    host_part(host) + seq![58u8] + decimal(ports.https as nat)
}

/// The path and query as they are written in the redirect: `/` when absent, and a
/// leading `/` before a bare query.
pub open spec fn written_path(pq: Option<Seq<u8>>) -> Seq<u8> {
    match pq {
        None => seq![47u8],
        Some(p) => if p.len() == 0 || p[0] == 63u8 {
            seq![47u8] + p
        } else {
            p
        },
    }
}

/// Whether a request's host can be redirected: it parses as an authority, it
/// names a host, and the authority rewritten for the secure port parses too.
pub open spec fn host_accepted(host: Seq<u8>, ports: Ports) -> bool {
    host_part(host).len() > 0 && valid_authority(host) && valid_authority(secure_host(host, ports))
}

/// The redirect location for a request, when its host can be redirected.
pub open spec fn redirect_of(host: Seq<u8>, pq: Option<Seq<u8>>, ports: Ports) -> Option<Seq<u8>> {
    if host_accepted(host, ports) {
        Some(https_scheme_prefix() + secure_host(host, ports) + written_path(pq))
    } else {
        None
    }
}

impl RedirectOutcome {
    /// The location of a redirect; `None` for a bad request.
    pub open spec fn location(&self) -> Option<Seq<u8>> {
        match self {
            RedirectOutcome::Permanent(l) => Some(l@),
            RedirectOutcome::BadRequest => None,
        }
    }

    /// The HTTP status of the answer: 308 (permanent redirect) or 400.
    pub fn status(&self) -> (r: u16)
        ensures
            self is Permanent ==> r == 308,
            self is BadRequest ==> r == 400,
    {
        match self {
            RedirectOutcome::Permanent(_) => 308,
            RedirectOutcome::BadRequest => 400,
        }
    }
}

/// Finds the colon that starts the port of `a`, scanning from the end.
fn find_port_colon(a: &[u8]) -> (r: Option<usize>)
    ensures
        match r {
            Some(i) => i < a@.len() && port_colon(a@) == Some(i as int),
            None => port_colon(a@) is None,
        },
{
    let mut i: usize = a.len();
    proof {
        assert(a@.take(i as int) =~= a@);
    }
    while i > 0
        invariant
            i <= a@.len(),
            port_colon(a@) == port_colon(a@.take(i as int)),
        decreases i,
    {
        let ghost pre = a@.take(i as int);
        assert(pre.last() == a@[i - 1]);
        if a[i - 1] == 58u8 {
            return Some(i - 1);
        }
        if a[i - 1] == 93u8 {
            return None;
        }
        assert(pre.drop_last() =~= a@.take(i - 1));
        i = i - 1;
    }
    None
}

/// The host of a plaintext request with its port, present or not, set to the
/// secure port: the host part, `:`, and the secure port in decimal.
pub fn secure_authority(host: &[u8], ports: Ports) -> (r: Vec<u8>)
    ensures
        r@ == secure_host(host@, ports),
{
    let end: usize = match find_port_colon(host) {
        Some(i) => i,
        None => host.len(),
    };
    let mut out: Vec<u8> = Vec::new();
    let mut i: usize = 0;
    while i < end
        invariant
            end <= host@.len(),
            i <= end,
            out@ == host@.take(i as int),
        decreases end - i,
    {
        out.push(host[i]);
        proof {
            assert(host@.take(i + 1) =~= host@.take(i as int).push(host@[i as int]));
        }
        i = i + 1;
    }
    proof {
        assert(host@.take(end as int) =~= host_part(host@));
    }
    out.push(58u8);
    let port = decimal_bytes(ports.https as u64);
    push_all(&mut out, port.as_slice());
    out
}

/// The answer for a rewritten host, given whether the host can be redirected: a
/// permanent redirect to `https://`, the host and the path, or a bad request.
pub fn redirect_for(authority: &[u8], accepted: bool, path_and_query: Option<&[u8]>) -> (r:
    RedirectOutcome)
    ensures
        r.location() == if accepted {
            Some(
                https_scheme_prefix() + authority@ + written_path(
                    match path_and_query {
                        Some(p) => Some(p@),
                        None => None,
                    },
                ),
            )
        } else {
            None
        },
{
    if !accepted {
        return RedirectOutcome::BadRequest;
    }
    let mut location: Vec<u8> = vec![104u8, 116u8, 116u8, 112u8, 115u8, 58u8, 47u8, 47u8];
    push_all(&mut location, authority);
    match path_and_query {
        None => {
            location.push(47u8);
        },
        Some(p) => {
            if p.len() == 0 || p[0] == 63u8 {
                location.push(47u8);
            }
            push_all(&mut location, p);
        },
    }
    proof {
        let pre = https_scheme_prefix() + authority@;
        match path_and_query {
            None => {
                assert(location@ =~= pre + seq![47u8]);
            },
            Some(p) => {
                if p@.len() == 0 || p@[0] == 63u8 {
                    assert(location@ =~= pre + (seq![47u8] + p@));
                } else {
                    assert(location@ =~= pre + p@);
                }
            },
        }
    }
    RedirectOutcome::Permanent(location)
}

/// Computes the secure location for a plaintext request with the given `Host`
/// value and path-and-query, or a bad request where the host is no valid
/// authority, names no host, or cannot be rewritten into a valid authority.
pub fn make_https(host: &[u8], path_and_query: Option<&[u8]>, ports: Ports) -> (r: RedirectOutcome)
    ensures
        r.location() == redirect_of(
            host@,
            match path_and_query {
                Some(p) => Some(p@),
                None => None,
            },
            ports,
        ),
{
    let authority = secure_authority(host, ports);
    let named = match find_port_colon(host) {
        Some(i) => i > 0,
        None => host.len() > 0,
    };
    let valid = named && authority_accepts(host) && authority_accepts(authority.as_slice());
    redirect_for(authority.as_slice(), valid, path_and_query)
}

/// An authority ending in `:` and a run of digits has those digits as its port.
pub proof fn lemma_port_after_host(name: Seq<u8>, digits: Seq<u8>)
    requires
        forall|i: int| 0 <= i < digits.len() ==> 48 <= #[trigger] digits[i] <= 57,
    ensures
        port_colon(name + seq![58u8] + digits) == Some(name.len() as int),
        host_part(name + seq![58u8] + digits) == name,
        port_of(name + seq![58u8] + digits) == Some(digits),
    decreases digits.len(),
{
    let a = name + seq![58u8] + digits;
    if digits.len() == 0 {
        assert(a.last() == 58u8);
    } else {
        let d1 = digits.drop_last();
        lemma_port_after_host(name, d1);
        assert(a.last() == digits.last());
        assert(a.drop_last() =~= name + seq![58u8] + d1);
    }
    assert(a.take(name.len() as int) =~= name);
    assert(a.skip(name.len() as int + 1) =~= digits);
}

/// Every redirect goes to the request's own host, with the port set to the
/// secure port whether or not the request's host named a port, and whatever
/// port it named: the location is `https://`, an authority whose host part is
/// the request's and whose port is the secure port, and the path.
pub proof fn lemma_redirect_uses_secure_port(host: Seq<u8>, pq: Option<Seq<u8>>, ports: Ports)
    requires
        redirect_of(host, pq, ports) is Some,
    ensures
        redirect_of(host, pq, ports) == Some(
            https_scheme_prefix() + secure_host(host, ports) + written_path(pq),
        ),
        host_part(secure_host(host, ports)) == host_part(host),
        port_of(secure_host(host, ports)) == Some(decimal(ports.https as nat)),
{
    lemma_decimal_digits(ports.https as nat);
    lemma_port_after_host(host_part(host), decimal(ports.https as nat));
}

/// Computing a redirect is a pure function of the host, the path and the ports:
/// two answers to the same request are the same, whatever happened between them.
pub proof fn lemma_redirect_is_pure(
    a: RedirectOutcome,
    b: RedirectOutcome,
    host: Seq<u8>,
    pq: Option<Seq<u8>>,
    ports: Ports,
)
    requires
        a.location() == redirect_of(host, pq, ports),
        b.location() == redirect_of(host, pq, ports),
    ensures
        a.location() == b.location(),
        a is Permanent <==> b is Permanent,
{
}

} // verus!
