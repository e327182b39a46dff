//! The parts of `reqwest` and `anyhow` that the library relies on, with the
//! contracts that their sources show.
use vstd::prelude::*;

use crate::opt_view;

verus! {

/// A failure reported by the HTTP client.
#[verifier::external_type_specification]
#[verifier::external_body]
pub struct ExReqwestError(reqwest::Error);

/// An asynchronous HTTP client, ready to issue requests.
#[verifier::external_type_specification]
#[verifier::external_body]
pub struct ExReqwestClient(reqwest::Client);

/// The configuration of an HTTP client before it is built.
#[verifier::external_type_specification]
#[verifier::external_body]
pub struct ExReqwestClientBuilder(reqwest::ClientBuilder);

/// A parsed root certificate.
#[verifier::external_type_specification]
#[verifier::external_body]
pub struct ExReqwestCertificate(reqwest::Certificate);

/// The destination of `Debug` output.
#[verifier::external_type_specification]
#[verifier::external_body]
pub struct ExFormatter<'a>(core::fmt::Formatter<'a>);

/// The failure of a formatting destination.
#[verifier::external_type_specification]
#[verifier::external_body]
pub struct ExFmtError(core::fmt::Error);

/// Relies on core::fmt::Formatter::write_str: writes `data` to the
/// destination.
pub assume_specification<'a>[ core::fmt::Formatter::<'a>::write_str ](
    f: &mut core::fmt::Formatter<'a>,
    data: &str,
) -> core::fmt::Result;

/// A failure with a chain of causes, for diagnostics.
#[verifier::external_type_specification]
#[verifier::external_body]
pub struct ExAnyhowError(anyhow::Error);

/// Whether a failure happened while connecting: a function of the failure
/// alone (its chain of sources).
pub uninterp spec fn connect_flag(e: reqwest::Error) -> bool;

/// Whether a failure is of the builder kind: a function of the failure alone.
pub uninterp spec fn builder_flag(e: reqwest::Error) -> bool;

/// The URL that a failure carries, if any, written out as text.
pub uninterp spec fn url_text(e: reqwest::Error) -> Option<Seq<char>>;

/// The description of a failure that its `Display` writes.
pub uninterp spec fn reason_text(e: reqwest::Error) -> Seq<char>;

/// Whether the bytes hold a PEM certificate that the TLS backend parses.
pub uninterp spec fn pem_parses(pem: Seq<u8>) -> bool;

/// The PEM bytes that a certificate was parsed from.
pub uninterp spec fn cert_source(c: reqwest::Certificate) -> Seq<u8>;

/// The PEM sources of the additional roots that a builder holds, in the
/// order they were added.
pub uninterp spec fn builder_roots(b: reqwest::ClientBuilder) -> Seq<Seq<u8>>;

/// The PEM sources of the additional roots that a client trusts.
pub uninterp spec fn client_roots(c: reqwest::Client) -> Seq<Seq<u8>>;

/// The text that a failure shows through its `Display`.
pub uninterp spec fn shown_text(e: anyhow::Error) -> Seq<char>;

/// The HTTP client's failure that a failure wraps, if any: what
/// `downcast_ref::<reqwest::Error>` finds.
pub uninterp spec fn wrapped_error(e: anyhow::Error) -> Option<reqwest::Error>;

/// The longest input that OpenSSL's memory reader takes: `c_int::MAX`.
pub const MAX_PEM_LEN: usize = 0x7fff_ffff;

/// Relies on reqwest::Error::is_connect: whether the failure happened while
/// connecting, read from the failure's own chain of sources.
pub assume_specification[ reqwest::Error::is_connect ](e: &reqwest::Error) -> (r: bool)
    ensures
        r == connect_flag(*e),
;

/// Relies on reqwest::Error::is_builder: whether the failure came from
/// building a client or a request (a malformed URL, a bad certificate).
pub assume_specification[ reqwest::Error::is_builder ](e: &reqwest::Error) -> (r: bool)
    ensures
        r == builder_flag(*e),
;

/// Relies on reqwest::Client::builder: a builder with the default
/// configuration, which trusts no additional root certificate.
pub assume_specification[ reqwest::Client::builder ]() -> (r: reqwest::ClientBuilder)
    ensures
        builder_roots(r) == Seq::<Seq<u8>>::empty(),
;

/// Relies on reqwest::Certificate::from_pem: parses one PEM encoded
/// certificate, and fails exactly when the bytes do not hold one. OpenSSL's
/// memory reader, which it goes through, panics on input longer than
/// `c_int::MAX` bytes.
pub assume_specification[ reqwest::Certificate::from_pem ](pem: &[u8]) -> (r: Result<
    reqwest::Certificate,
    reqwest::Error,
>)
    requires
        pem@.len() <= MAX_PEM_LEN,
    ensures
        r is Ok == pem_parses(pem@),
        r is Ok ==> cert_source(r->Ok_0) == pem@,
;

/// Relies on reqwest::ClientBuilder::add_root_certificate: appends `cert`
/// to the additional roots that the built client trusts.
pub assume_specification[ reqwest::ClientBuilder::add_root_certificate ](
    b: reqwest::ClientBuilder,
    cert: reqwest::Certificate,
) -> (r: reqwest::ClientBuilder)
    ensures
        builder_roots(r) == builder_roots(b).push(cert_source(cert)),
;

/// Relies on reqwest::ClientBuilder::build: the client trusts the builder's
/// additional roots; building fails when the TLS backend refuses the
/// configuration.
pub assume_specification[ reqwest::ClientBuilder::build ](b: reqwest::ClientBuilder) -> (r: Result<
    reqwest::Client,
    reqwest::Error,
>)
    ensures
        r is Ok ==> client_roots(r->Ok_0) == builder_roots(b),
;

/// Relies on reqwest::Error::url: the URL of the failed request, when one
/// could be parsed, written out as text.
#[verifier::external_body]
pub(crate) fn error_url(e: &reqwest::Error) -> (r: Option<String>)
    ensures
        opt_view(r) == url_text(*e),
{
    e.url().map(|u| u.to_string())
}

/// Relies on reqwest::Error's `Display`: a description of the failure that
/// always starts with the name of its kind, so it is never empty.
#[verifier::external_body]
pub(crate) fn error_reason(e: &reqwest::Error) -> (r: String)
    ensures
        r@ == reason_text(*e),
        r@.len() > 0,
{
    e.to_string()
}

/// Relies on anyhow::Error::msg: a cause that names the failed request and
/// carries the client's own description of the failure.
#[verifier::external_body]
pub(crate) fn failure_cause(e: reqwest::Error) -> anyhow::Error {
    anyhow::Error::msg(format!("Failed to get images from {:?}. {:?}", e.url(), e))
}

/// Relies on anyhow::Error::msg: a failure that shows `message` and wraps no
/// other failure.
#[verifier::external_body]
pub(crate) fn message_cause(message: &str) -> (r: anyhow::Error)
    ensures
        shown_text(r) == message@,
        wrapped_error(r) is None,
{
    anyhow::Error::msg(message.to_string())
}

/// Relies on anyhow::Error::new and anyhow::Error::context: `e` wrapped
/// under the message `context`, which is what the result shows; a downcast
/// to `reqwest::Error` finds `e`.
#[verifier::external_body]
pub(crate) fn cause_with_context(e: reqwest::Error, context: &str) -> (r: anyhow::Error)
    ensures
        shown_text(r) == context@,
        wrapped_error(r) == Some(e),
{
    anyhow::Error::new(e).context(context.to_string())
}

} // verus!
