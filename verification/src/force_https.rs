//! Host rewriting for the HTTPS-enforcement redirect.
//!
//! When a request arrives over plain HTTP, the middleware redirects to
//! the same authority over HTTPS. The only computation in that step is
//! rewriting the `Host` header value: an explicit port override replaces
//! whatever port the host carried (or is appended when it carried none),
//! and without an override the host is left untouched.
use vstd::prelude::*;

verus! {

/// The host without its port: everything before the first `:` byte.
pub open spec fn host_part(host: Seq<u8>) -> Seq<u8>
    decreases host.len(),
{
    if host.len() == 0 {
        Seq::empty()
    } else if host[0] == 58 {
        Seq::empty()
    } else {
        seq![host[0]] + host_part(host.drop_first())
    }
}

/// The decimal digits of a non-negative number, as ASCII bytes.
pub open spec fn decimal_digits(n: int) -> Seq<u8>
    decreases n,
{
    if n < 10 {
        seq![(48 + if n >= 0 { n % 10 } else { 0 }) as u8]
    } else {
        decimal_digits(n / 10).push((48 + n % 10) as u8)
    }
}

/// The rewritten host: with a port override, the host part followed by
/// `:` and the override in decimal; without one, the host unchanged.
pub open spec fn spec_redirect_host(host: Seq<u8>, https_port: Option<u16>) -> Seq<u8> {
    match https_port {
        None => host,
        Some(p) => host_part(host) + seq![58u8] + decimal_digits(p as int),
    }
}

/// If the first `i` bytes hold no `:` and position `i` is the end or a
/// `:`, the host part is exactly those first `i` bytes.
proof fn lemma_host_part_prefix(host: Seq<u8>, i: int)
    requires
        0 <= i <= host.len(),
        forall|j: int| 0 <= j < i ==> host[j] != 58,
        i == host.len() || host[i] == 58,
    ensures
        host_part(host) == host.take(i),
    decreases i,
{
    if i == 0 {
        assert(host.take(0) =~= Seq::<u8>::empty());
    } else {
        lemma_host_part_prefix(host.drop_first(), i - 1);
        assert(host.drop_first().take(i - 1) =~= host.take(i).drop_first());
        assert(host_part(host) == seq![host[0]] + host.take(i).drop_first());
        assert(seq![host[0]] + host.take(i).drop_first() =~= host.take(i));
    }
}

/// Append the decimal digits of a port to a byte vector.
fn push_decimal(n: u16, out: &mut Vec<u8>)
    ensures
        final(out)@ == old(out)@ + decimal_digits(n as int),
    decreases n,
{
    if n < 10 {
        out.push(48 + n as u8);
        proof {
            assert(final(out)@ =~= old(out)@ + decimal_digits(n as int));
        }
    } else {
        push_decimal(n / 10, out);
        out.push(48 + (n % 10) as u8);
        proof {
            assert(final(out)@ =~= old(out)@ + decimal_digits(n as int));
        }
    }
}

/// Rewrite a `Host` header value for the redirect target. With no port
/// override the host comes back unmodified, byte for byte.
pub fn redirect_host(host: &[u8], https_port: Option<u16>) -> (r: Vec<u8>)
    ensures
        r@ == spec_redirect_host(host@, https_port),
        https_port is None ==> r@ == host@,
{
    let port = match https_port {
        None => {
            return vstd::slice::slice_to_vec(host);
        },
        Some(p) => p,
    };
    let mut i: usize = 0;
    while i < host.len() && host[i] != 58
        invariant
            0 <= i <= host@.len(),
            forall|j: int| 0 <= j < i ==> host@[j] != 58,
        decreases host@.len() - i,
    {
        i = i + 1;
    }
    proof {
        lemma_host_part_prefix(host@, i as int);
    }
    let mut out: Vec<u8> = Vec::new();
    let mut j: usize = 0;
    while j < i
        invariant
            0 <= j <= i <= host@.len(),
            out@ =~= host@.take(j as int),
        decreases i - j,
    {
        out.push(host[j]);
        proof {
            assert(out@ =~= host@.take(j as int + 1));
        }
        j = j + 1;
    }
    out.push(58);
    let ghost with_colon = out@;
    push_decimal(port, &mut out);
    proof {
        assert(with_colon =~= host_part(host@) + seq![58u8]);
        assert(out@ =~= spec_redirect_host(host@, https_port));
    }
    out
}

/// Middleware configuration for the HTTPS-enforcement redirect: the
/// optional port the redirect target uses. The request filter and the
/// redirect itself belong to the transport layer around the library.
pub struct ForceHttps {
    https_port: Option<u16>,
}

impl ForceHttps {
    pub closed spec fn spec_https_port(&self) -> Option<u16> {
        self.https_port
    }

    /// Create new `ForceHttps` middleware configuration.
    pub fn new() -> (r: ForceHttps)
        ensures
            r.spec_https_port() is None,
    {
        ForceHttps { https_port: None }
    }

    /// Specify https port.
    pub fn https_port(self, port: u16) -> (r: ForceHttps)
        ensures
            r.spec_https_port() == Some(port),
    {
        ForceHttps { https_port: Some(port) }
    }

    /// The configured port override.
    pub fn port(&self) -> (r: Option<u16>)
        ensures
            r == self.spec_https_port(),
    {
        self.https_port
    }

    /// The redirect authority for a request's host.
    pub fn redirect_authority(&self, host: &[u8]) -> (r: Vec<u8>)
        ensures
            r@ == spec_redirect_host(host@, self.spec_https_port()),
    {
        redirect_host(host, self.https_port)
    }
}

} // verus!
