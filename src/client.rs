use vstd::prelude::*;
use crate::material::{TrustMaterial, enabled_roots, get_roots};

verus! {

#[verifier::external_type_specification]
#[verifier::external_body]
pub struct ExClientBuilder(reqwest::ClientBuilder);

#[verifier::external_type_specification]
#[verifier::external_body]
pub struct ExClient(reqwest::Client);

#[verifier::external_type_specification]
#[verifier::external_body]
pub struct ExCertificate(reqwest::Certificate);

#[verifier::external_type_specification]
#[verifier::external_body]
pub struct ExIdentity(reqwest::Identity);

#[verifier::external_type_specification]
#[verifier::external_body]
pub struct ExHttpError(reqwest::Error);

/// The DER bytes of the root certificates that a builder trusts beyond the
/// built-in ones, in the order they were added.
pub uninterp spec fn builder_roots(b: reqwest::ClientBuilder) -> Seq<Seq<u8>>;

/// The request timeout of a builder, in seconds, if one was set.
pub uninterp spec fn builder_timeout_secs(b: reqwest::ClientBuilder) -> Option<u64>;

/// Whether a builder is set to use the rustls backend (else native TLS).
pub uninterp spec fn builder_uses_rustls(b: reqwest::ClientBuilder) -> bool;

/// Whether a builder's connections log verbosely.
pub uninterp spec fn builder_verbose(b: reqwest::ClientBuilder) -> bool;

/// The client identity a builder carries for mutual TLS, if any.
pub uninterp spec fn builder_identity(b: reqwest::ClientBuilder) -> Option<reqwest::Identity>;

/// The DER bytes a certificate was made from.
pub uninterp spec fn cert_der(c: reqwest::Certificate) -> Seq<u8>;

/// The request timeout of a client, in seconds, if it has one.
pub uninterp spec fn client_timeout_secs(c: reqwest::Client) -> Option<u64>;

/// Whether a client's connector uses the rustls backend (else native TLS).
pub uninterp spec fn client_uses_rustls(c: reqwest::Client) -> bool;

/// The client identity that a client's connector presents for mutual TLS, if any.
pub uninterp spec fn client_identity(c: reqwest::Client) -> Option<reqwest::Identity>;

/// The DER bytes of the root certificates that a client's connector trusts
/// beyond the built-in ones, in order.
pub uninterp spec fn client_roots(c: reqwest::Client) -> Seq<Seq<u8>>;

/// Relies on reqwest::Client::builder: a fresh builder has no timeout, no
/// identity, no added roots, and quiet connections.
#[verifier::external_body]
fn new_builder() -> (r: reqwest::ClientBuilder)
    ensures
        builder_roots(r) == Seq::<Seq<u8>>::empty(),
        builder_timeout_secs(r) == None::<u64>,
        !builder_verbose(r),
        builder_identity(r) == None::<reqwest::Identity>,
{
    reqwest::Client::builder()
}

/// Relies on reqwest::ClientBuilder::timeout, which sets the request timeout
/// and nothing else.
#[verifier::external_body]
fn with_timeout(b: reqwest::ClientBuilder, secs: u64) -> (r: reqwest::ClientBuilder)
    ensures
        builder_timeout_secs(r) == Some(secs),
        builder_roots(r) == builder_roots(b),
        builder_uses_rustls(r) == builder_uses_rustls(b),
        builder_verbose(r) == builder_verbose(b),
        builder_identity(r) == builder_identity(b),
{
    b.timeout(std::time::Duration::from_secs(secs))
}

/// Relies on reqwest::ClientBuilder::use_rustls_tls, which selects the rustls
/// backend and nothing else.
#[verifier::external_body]
fn with_rustls(b: reqwest::ClientBuilder) -> (r: reqwest::ClientBuilder)
    ensures
        builder_uses_rustls(r),
        builder_roots(r) == builder_roots(b),
        builder_timeout_secs(r) == builder_timeout_secs(b),
        builder_verbose(r) == builder_verbose(b),
        builder_identity(r) == builder_identity(b),
{
    b.use_rustls_tls()
}

/// Relies on reqwest::ClientBuilder::use_native_tls, which selects the native
/// TLS backend and nothing else.
#[verifier::external_body]
fn with_native_tls(b: reqwest::ClientBuilder) -> (r: reqwest::ClientBuilder)
    ensures
        !builder_uses_rustls(r),
        builder_roots(r) == builder_roots(b),
        builder_timeout_secs(r) == builder_timeout_secs(b),
        builder_verbose(r) == builder_verbose(b),
        builder_identity(r) == builder_identity(b),
{
    b.use_native_tls()
}

/// Relies on reqwest::ClientBuilder::connection_verbose, which sets verbose
/// connection logging and nothing else.
#[verifier::external_body]
fn with_verbose(b: reqwest::ClientBuilder, verbose: bool) -> (r: reqwest::ClientBuilder)
    ensures
        builder_verbose(r) == verbose,
        builder_roots(r) == builder_roots(b),
        builder_timeout_secs(r) == builder_timeout_secs(b),
        builder_uses_rustls(r) == builder_uses_rustls(b),
        builder_identity(r) == builder_identity(b),
{
    b.connection_verbose(verbose)
}

/// Relies on reqwest::ClientBuilder::identity, which sets the client identity
/// and nothing else.
#[verifier::external_body]
fn with_identity(b: reqwest::ClientBuilder, identity: reqwest::Identity) -> (r: reqwest::ClientBuilder)
    ensures
        builder_identity(r) == Some(identity),
        builder_roots(r) == builder_roots(b),
        builder_timeout_secs(r) == builder_timeout_secs(b),
        builder_uses_rustls(r) == builder_uses_rustls(b),
        builder_verbose(r) == builder_verbose(b),
{
    b.identity(identity)
}

/// Relies on reqwest::ClientBuilder::add_root_certificate, which appends the
/// certificate to the builder's roots and changes nothing else.
#[verifier::external_body]
fn with_root(b: reqwest::ClientBuilder, cert: reqwest::Certificate) -> (r: reqwest::ClientBuilder)
    ensures
        builder_roots(r) == builder_roots(b).push(cert_der(cert)),
        builder_timeout_secs(r) == builder_timeout_secs(b),
        builder_uses_rustls(r) == builder_uses_rustls(b),
        builder_verbose(r) == builder_verbose(b),
        builder_identity(r) == builder_identity(b),
{
    b.add_root_certificate(cert)
}

/// Relies on reqwest::Certificate::from_der: an accepted certificate keeps
/// the bytes it was made from. Which bytes are accepted is up to the
/// platform's TLS library.
#[verifier::external_body]
fn parse_der(der: &[u8]) -> (r: Result<reqwest::Certificate, reqwest::Error>)
    ensures
        r is Ok ==> cert_der(r->Ok_0) == der@,
{
    reqwest::Certificate::from_der(der)
}

/// Relies on reqwest::ClientBuilder::build: whether it succeeds depends on the
/// system as well as on the builder, and a client it builds has the builder's
/// request timeout, TLS backend, identity and added roots.
#[verifier::external_body]
fn build_client(b: reqwest::ClientBuilder) -> (r: Result<reqwest::Client, reqwest::Error>)
    ensures
        r is Ok ==> client_timeout_secs(r->Ok_0) == builder_timeout_secs(b),
        r is Ok ==> client_uses_rustls(r->Ok_0) == builder_uses_rustls(b),
        r is Ok ==> client_roots(r->Ok_0) == builder_roots(b),
        r is Ok ==> client_identity(r->Ok_0) == builder_identity(b),
{
    b.build()
}

/// `a` has the timeout, backend, logging and identity of `b`.
pub open spec fn same_settings(a: reqwest::ClientBuilder, b: reqwest::ClientBuilder) -> bool {
    &&& builder_timeout_secs(a) == builder_timeout_secs(b)
    &&& builder_uses_rustls(a) == builder_uses_rustls(b)
    &&& builder_verbose(a) == builder_verbose(b)
    &&& builder_identity(a) == builder_identity(b)
}

/// Adds to `builder` the certificate that parsing a root produced; where
/// parsing failed, its error is returned.
pub fn trust_parsed_root(
    builder: reqwest::ClientBuilder,
    parsed: Result<reqwest::Certificate, reqwest::Error>,
) -> (r: Result<reqwest::ClientBuilder, reqwest::Error>)
    ensures
        match parsed {
            Ok(c) => r is Ok && builder_roots(r->Ok_0) == builder_roots(builder).push(cert_der(c))
                && same_settings(r->Ok_0, builder),
            Err(e) => r == Err::<reqwest::ClientBuilder, reqwest::Error>(e),
        },
{
    match parsed {
        Ok(cert) => Ok(with_root(builder, cert)),
        Err(e) => Err(e),
    }
}

/// Adds each of `roots` to `builder`, in order, as a DER certificate. Stops
/// with the parse error at the first root that does not parse.
pub fn trust_roots(builder: reqwest::ClientBuilder, roots: &Vec<Vec<u8>>) -> (r: Result<
    reqwest::ClientBuilder,
    reqwest::Error,
>)
    ensures
        r is Ok ==> builder_roots(r->Ok_0) == builder_roots(builder) + roots.deep_view(),
        r is Ok ==> same_settings(r->Ok_0, builder),
        roots@.len() == 0 ==> r is Ok,
{
    let mut b = builder;
    let mut i: usize = 0;
    assert(builder_roots(b) =~= builder_roots(builder) + roots.deep_view().take(0));
    while i < roots.len()
        invariant
            i <= roots@.len(),
            builder_roots(b) == builder_roots(builder) + roots.deep_view().take(i as int),
            same_settings(b, builder),
        decreases roots@.len() - i,
    {
        let parsed = parse_der(roots[i].as_slice());
        b = match trust_parsed_root(b, parsed) {
            Ok(next) => next,
            Err(e) => return Err(e),
        };
        assert(roots.deep_view()[i as int] =~= roots@[i as int]@);
        assert(roots.deep_view().take(i + 1) =~= roots.deep_view().take(i as int).push(
            roots.deep_view()[i as int],
        ));
        assert(builder_roots(b) =~= builder_roots(builder) + roots.deep_view().take(i + 1));
        i = i + 1;
    }
    assert(roots.deep_view().take(i as int) =~= roots.deep_view());
    Ok(b)
}

/// A client builder with the given request timeout, TLS backend and optional
/// identity, verbose connection logging, and, beyond the built-in roots, every
/// root of the enabled environments. Fails with the parse error of the first
/// such root that is not a certificate the TLS library accepts.
pub fn configured_builder(
    timeout_secs: u64,
    identity: Option<reqwest::Identity>,
    use_rustls: bool,
    material: &TrustMaterial,
) -> (r: Result<reqwest::ClientBuilder, reqwest::Error>)
    ensures
        r is Ok ==> builder_roots(r->Ok_0) == enabled_roots(*material),
        r is Ok ==> builder_timeout_secs(r->Ok_0) == Some(timeout_secs),
        r is Ok ==> builder_uses_rustls(r->Ok_0) == use_rustls,
        r is Ok ==> builder_verbose(r->Ok_0),
        r is Ok ==> builder_identity(r->Ok_0) == identity,
        enabled_roots(*material).len() == 0 ==> r is Ok,
{
    let builder = with_timeout(new_builder(), timeout_secs);
    let builder = if use_rustls {
        with_rustls(builder)
    } else {
        with_native_tls(builder)
    };
    let builder = with_verbose(builder, true);
    let builder = match identity {
        Some(id) => with_identity(builder, id),
        None => builder,
    };
    let roots = get_roots(material);
    let r = trust_roots(builder, &roots);
    assert(r is Ok ==> builder_roots(r->Ok_0) =~= enabled_roots(*material));
    r
}

/// Builds a client that trusts the roots of the enabled environments, with
/// the given request timeout and, for mutual TLS, the given identity. The
/// rustls backend is used where `use_rustls` holds, native TLS otherwise.
/// A root that does not parse, or a failed build, gives the error.
fn get_reqwest_client(
    timeout_secs: u64,
    identity: Option<reqwest::Identity>,
    use_rustls: bool,
    material: &TrustMaterial,
) -> (r: Result<reqwest::Client, reqwest::Error>)
    ensures
        r is Ok ==> client_timeout_secs(r->Ok_0) == Some(timeout_secs),
        r is Ok ==> client_uses_rustls(r->Ok_0) == use_rustls,
        r is Ok ==> client_roots(r->Ok_0) == enabled_roots(*material),
        r is Ok ==> client_identity(r->Ok_0) == identity,
{
    let builder = configured_builder(timeout_secs, identity, use_rustls, material)?;
    build_client(builder)
}

/// Builds a client on the rustls backend that trusts the roots of the enabled
/// environments; the identity, if any, must suit rustls.
pub fn get_reqwest_client_rustls(
    timeout_secs: u64,
    identity: Option<reqwest::Identity>,
    material: &TrustMaterial,
) -> (r: Result<reqwest::Client, reqwest::Error>)
    ensures
        r is Ok ==> client_timeout_secs(r->Ok_0) == Some(timeout_secs),
        r is Ok ==> client_uses_rustls(r->Ok_0),
        r is Ok ==> client_roots(r->Ok_0) == enabled_roots(*material),
        r is Ok ==> client_identity(r->Ok_0) == identity,
{
    get_reqwest_client(timeout_secs, identity, true, material)
}

/// Builds a client on the native TLS backend that trusts the roots of the
/// enabled environments; the identity, if any, must suit native TLS.
pub fn get_reqwest_client_native(
    timeout_secs: u64,
    identity: Option<reqwest::Identity>,
    material: &TrustMaterial,
) -> (r: Result<reqwest::Client, reqwest::Error>)
    ensures
        r is Ok ==> client_timeout_secs(r->Ok_0) == Some(timeout_secs),
        r is Ok ==> !client_uses_rustls(r->Ok_0),
        r is Ok ==> client_roots(r->Ok_0) == enabled_roots(*material),
        r is Ok ==> client_identity(r->Ok_0) == identity,
{
    get_reqwest_client(timeout_secs, identity, false, material)
}

} // verus!
