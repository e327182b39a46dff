//! Read-only client for the Docker Registry HTTP API v2.
//!
//! An [`AduanaInspector`] names a registry and an optional trusted root
//! certificate. It builds the request addresses for the catalog and for each
//! repository's tag list, and turns the registry's answers into
//! [`AduanaImage`] handles. An image handle resolves the details of one tag
//! in two steps: the manifest gives the digest of the configuration blob,
//! and the blob gives the runtime configuration.
use std::collections::HashMap;

use vstd::prelude::*;
use vstd::string::*;

mod error;
pub mod laws;
mod registry;
mod remote;

pub use error::{opt_view, reported_url, AduanaError};
pub use remote::{
    builder_flag, cert_source, client_roots, connect_flag, pem_parses, reason_text, shown_text,
    url_text, wrapped_error, MAX_PEM_LEN,
};
pub use registry::{
    map_or_empty, opt_map_view, opt_vec_view, seq_or_empty, ConfigDetails, ResponseCatalog,
    ResponseConfig, ResponseConfigBlob, ResponseImage, ResponseManifest,
};

verus! {

/// A configured connection to one registry: its base URL and an optional
/// PEM certificate trusted as an additional root.
#[derive(Clone)]
pub struct AduanaInspector {
    url: String,
    cert: Option<Vec<u8>>,
}

impl AduanaInspector {
    /// The configured base URL, as characters.
    pub closed spec fn url_view(&self) -> Seq<char> {
        self.url@
    }

    /// The configured certificate bytes, if any.
    pub closed spec fn cert_view(&self) -> Option<Seq<u8>> {
        match self.cert {
            Some(v) => Some(v@),
            None => None,
        }
    }

    /// An inspector for the registry at `url`, with no certificate. The URL
    /// is not checked here: a malformed one is found when a request is made.
    pub fn new(url: &str) -> (r: Self)
        ensures
            r.url_view() == url@,
            r.cert_view() is None,
    {
        AduanaInspector { url: String::from_str(url), cert: None }
    }

    /// The same inspector, with `pem` trusted as an additional root certificate.
    pub fn with_cert(self, pem: Vec<u8>) -> (r: Self)
        ensures
            r.url_view() == self.url_view(),
            r.cert_view() == Some(pem@),
    {
        let mut this = self;
        this.cert = Some(pem);
        this
    }

    /// The configured base URL.
    pub fn url(&self) -> (r: &str)
        ensures
            r@ == self.url_view(),
    {
        self.url.as_str()
    }
}

impl core::fmt::Debug for AduanaInspector {
    /// Writes the URL and whether a certificate is set, leaving the
    /// certificate itself out.
    fn fmt(&self, f: &mut core::fmt::Formatter<'_>) -> core::fmt::Result {
        let text = self.summary();
        f.write_str(text.as_str())
    }
}

/// The media type of the manifest format that the library resolves.
pub const MANIFEST_V2: &'static str = "application/vnd.docker.distribution.manifest.v2+json";

/// `{base}/v2/_catalog`
pub open spec fn catalog_url_spec(base: Seq<char>) -> Seq<char> {
    base + "/v2/_catalog"@
}

/// `{base}/v2/{name}/tags/list`
pub open spec fn tags_url_spec(base: Seq<char>, name: Seq<char>) -> Seq<char> {
    base + "/v2/"@ + name + "/tags/list"@
}

/// `{base}/v2/{name}/manifests/{tag}`
pub open spec fn manifest_url_spec(base: Seq<char>, name: Seq<char>, tag: Seq<char>) -> Seq<char> {
    base + "/v2/"@ + name + "/manifests/"@ + tag
}

/// `{base}/v2/{name}/blobs/{digest}`
pub open spec fn blob_url_spec(base: Seq<char>, name: Seq<char>, digest: Seq<char>) -> Seq<char> {
    base + "/v2/"@ + name + "/blobs/"@ + digest
}

/// The description of an inspector for `url`, with or without a certificate.
pub open spec fn summary_spec(url: Seq<char>, has_cert: bool) -> Seq<char> {
    "AduanaInspector { url: "@ + url + ", cert: "@ + (if has_cert {
        "true"@
    } else {
        "false"@
    }) + " }"@
}

/// The PEM sources of the additional roots that a client built for `pem`
/// trusts: the certificate, when one is given.
pub open spec fn roots_for(pem: Option<Seq<u8>>) -> Seq<Seq<u8>> {
    match pem {
        Some(p) => seq![p],
        None => Seq::empty(),
    }
}

/// Builds an HTTP client that trusts `pem`, when given, as an additional
/// root certificate. A certificate that is too long or cannot be parsed, or
/// a client that cannot be built, is a runtime failure: no request has been
/// attempted.
pub fn client(pem: &Option<Vec<u8>>) -> (r: Result<reqwest::Client, AduanaError>)
    ensures
        r is Err ==> r->Err_0 is Runtime,
        (pem is Some && (pem->Some_0@.len() > MAX_PEM_LEN || !pem_parses(pem->Some_0@))) ==> r is Err,
        r is Ok ==> client_roots(r->Ok_0) == roots_for(match pem {
            Some(p) => Some(p@),
            None => None,
        }),
{
    let mut builder = reqwest::Client::builder();
    if let Some(bytes) = pem {
        if bytes.len() > MAX_PEM_LEN {
            return Err(AduanaError::runtime("PEM certificate is too long"));
        }
        match reqwest::Certificate::from_pem(bytes.as_slice()) {
            Ok(cert) => {
                builder = builder.add_root_certificate(cert);
            },
            Err(e) => {
                return Err(AduanaError::with_context(e, "Failed to parse PEM certificate"));
            },
        }
    }
    match builder.build() {
        Ok(c) => Ok(c),
        Err(e) => Err(AduanaError::with_context(e, "Failed to build client!")),
    }
}

impl AduanaInspector {
    /// A second inspector with the same configuration.
    fn copied(&self) -> (r: Self)
        ensures
            r.url_view() == self.url_view(),
            r.cert_view() == self.cert_view(),
    {
        let cert = match &self.cert {
            Some(v) => {
                let c = v.clone();
                assert(c@ =~= v@);
                Some(c)
            },
            None => None,
        };
        AduanaInspector { url: self.url.clone(), cert }
    }

    /// An HTTP client configured with this inspector's certificate.
    pub fn http_client(&self) -> (r: Result<reqwest::Client, AduanaError>)
        ensures
            r is Err ==> r->Err_0 is Runtime,
            (self.cert_view() is Some && (self.cert_view()->Some_0.len() > MAX_PEM_LEN
                || !pem_parses(self.cert_view()->Some_0))) ==> r is Err,
            r is Ok ==> client_roots(r->Ok_0) == roots_for(self.cert_view()),
    {
        client(&self.cert)
    }

    /// A one-line description: the URL, and whether a certificate is set
    /// (the certificate itself is left out).
    pub fn summary(&self) -> (r: String)
        ensures
            r@ == summary_spec(self.url_view(), self.cert_view() is Some),
    {
        let mut s = String::from_str("AduanaInspector { url: ");
        s.append(self.url.as_str());
        s.append(", cert: ");
        if self.cert.is_some() {
            s.append("true");
        } else {
            s.append("false");
        }
        s.append(" }");
        s
    }

    /// The address of the registry's repository catalog.
    pub fn catalog_url(&self) -> (r: String)
        ensures
            r@ == catalog_url_spec(self.url_view()),
    {
        let mut s = String::from_str(self.url.as_str());
        s.append("/v2/_catalog");
        s
    }

    /// The address of the tag list of repository `name`.
    pub fn tags_url(&self, name: &str) -> (r: String)
        ensures
            r@ == tags_url_spec(self.url_view(), name@),
    {
        let mut s = String::from_str(self.url.as_str());
        s.append("/v2/");
        s.append(name);
        s.append("/tags/list");
        s
    }
}

/// One repository of a registry: its name and the tags that the registry
/// reported, bound to the configuration of the inspector that listed it.
#[derive(Clone, Debug)]
pub struct AduanaImage {
    inspector: AduanaInspector,
    name: String,
    tags: Vec<String>,
}

/// The resolved metadata of one tag of one repository.
#[derive(Clone, Debug)]
pub struct ImageDetails {
    pub name: String,
    pub tag: String,
    pub user: Option<String>,
    pub env: Vec<String>,
    pub cmd: Vec<String>,
    pub working_dir: Option<String>,
    pub labels: HashMap<String, String>,
    pub arch: String,
    pub created: String,
}

impl AduanaInspector {
    /// The addresses of the tag lists of the catalog's repositories, in the
    /// catalog's order.
    pub fn tag_list_urls(&self, catalog: &ResponseCatalog) -> (r: Vec<String>)
        ensures
            r@.len() == catalog.repositories@.len(),
            forall|i: int|
                0 <= i < r@.len() ==> #[trigger] r@[i]@ == tags_url_spec(
                    self.url_view(),
                    catalog.repositories@[i]@,
                ),
    {
        let mut urls: Vec<String> = Vec::new();
        let n = catalog.repositories.len();
        let mut i: usize = 0;
        while i < n
            invariant
                n == catalog.repositories@.len(),
                i <= n,
                urls@.len() == i,
                forall|j: int|
                    0 <= j < i ==> #[trigger] urls@[j]@ == tags_url_spec(
                        self.url_view(),
                        catalog.repositories@[j]@,
                    ),
            decreases n - i,
        {
            let url = self.tags_url(catalog.repositories[i].as_str());
            urls.push(url);
            i = i + 1;
        }
        urls
    }

    /// The image handles for the registry's tag-list answers, one per answer
    /// and in the same order, each bound to this inspector's configuration.
    pub fn images_from(&self, listings: Vec<ResponseImage>) -> (r: Vec<AduanaImage>)
        ensures
            images_built(*self, listings@, r@),
    {
        let ghost all = listings@;
        let mut rest = listings;
        let mut images: Vec<AduanaImage> = Vec::new();
        while rest.len() > 0
            invariant
                images@.len() + rest@.len() == all.len(),
                rest@ == all.subrange(images@.len() as int, all.len() as int),
                images_built(*self, all.subrange(0, images@.len() as int), images@),
            decreases rest@.len(),
        {
            let ghost k = images@.len() as int;
            let listing = rest.remove(0);
            let image = AduanaImage {
                inspector: self.copied(),
                name: listing.name,
                tags: listing.tags,
            };
            images.push(image);
            assert(all.subrange(0, k + 1)[k] == all[k]);
            assert forall|j: int| 0 <= j < k + 1 implies image_built(
                *self,
                all.subrange(0, k + 1)[j],
                #[trigger] images@[j],
            ) by {
                if j < k {
                    assert(all.subrange(0, k + 1)[j] == all.subrange(0, k)[j]);
                }
            }
        }
        assert(all.subrange(0, all.len() as int) =~= all);
        images
    }
}

/// Whether `image` is the handle for the tag-list answer `listing` of the
/// registry that `inspector` names.
pub open spec fn image_built(
    inspector: AduanaInspector,
    listing: ResponseImage,
    image: AduanaImage,
) -> bool {
    &&& image.name_view() == listing.name@
    &&& image.tags_view() == listing.tags@
    &&& image.inspector_url() == inspector.url_view()
    &&& image.inspector_cert() == inspector.cert_view()
}

/// Whether `images` holds one handle per answer of `listings`, in order.
pub open spec fn images_built(
    inspector: AduanaInspector,
    listings: Seq<ResponseImage>,
    images: Seq<AduanaImage>,
) -> bool {
    &&& images.len() == listings.len()
    &&& forall|i: int|
        0 <= i < images.len() ==> image_built(inspector, listings[i], #[trigger] images[i])
}

impl AduanaImage {
    /// The repository's name.
    pub closed spec fn name_view(&self) -> Seq<char> {
        self.name@
    }

    /// The repository's tags, in the order the registry reported them.
    pub closed spec fn tags_view(&self) -> Seq<String> {
        self.tags@
    }

    /// The base URL of the registry this image belongs to.
    pub closed spec fn inspector_url(&self) -> Seq<char> {
        self.inspector.url_view()
    }

    /// The certificate trusted for the registry this image belongs to.
    pub closed spec fn inspector_cert(&self) -> Option<Seq<u8>> {
        self.inspector.cert_view()
    }

    /// The name of an image
    pub fn name(&self) -> (r: &str)
        ensures
            r@ == self.name_view(),
    {
        self.name.as_str()
    }

    /// The tags of this image
    pub fn tags(&self) -> (r: &[String])
        ensures
            r@ == self.tags_view(),
    {
        self.tags.as_slice()
    }

    /// An HTTP client configured for this image's registry.
    pub fn http_client(&self) -> (r: Result<reqwest::Client, AduanaError>)
        ensures
            r is Err ==> r->Err_0 is Runtime,
            (self.inspector_cert() is Some && (self.inspector_cert()->Some_0.len() > MAX_PEM_LEN
                || !pem_parses(self.inspector_cert()->Some_0))) ==> r is Err,
            r is Ok ==> client_roots(r->Ok_0) == roots_for(self.inspector_cert()),
    {
        self.inspector.http_client()
    }

    /// The address of the manifest of `tag`, to be requested with the
    /// `Accept` header set to [`MANIFEST_V2`].
    pub fn manifest_url(&self, tag: &str) -> (r: String)
        ensures
            r@ == manifest_url_spec(self.inspector_url(), self.name_view(), tag@),
    {
        let mut s = String::from_str(self.inspector.url.as_str());
        s.append("/v2/");
        s.append(self.name.as_str());
        s.append("/manifests/");
        s.append(tag);
        s
    }

    /// The address of the blob with the given digest.
    pub fn blob_url(&self, digest: &str) -> (r: String)
        ensures
            r@ == blob_url_spec(self.inspector_url(), self.name_view(), digest@),
    {
        let mut s = String::from_str(self.inspector.url.as_str());
        s.append("/v2/");
        s.append(self.name.as_str());
        s.append("/blobs/");
        s.append(digest);
        s
    }

    /// The address of the configuration blob that `manifest` refers to.
    pub fn config_blob_url(&self, manifest: &ResponseManifest) -> (r: String)
        ensures
            r@ == blob_url_spec(self.inspector_url(), self.name_view(), manifest.config.digest@),
    {
        self.blob_url(manifest.config.digest.as_str())
    }

    /// The details of `tag`, merged from its configuration blob.
    pub fn details_from(&self, tag: &str, blob: ResponseConfigBlob) -> (r: ImageDetails)
        ensures
            details_resolved(r, self.name_view(), tag@, blob),
    {
        ImageDetails {
            name: self.name.clone(),
            tag: String::from_str(tag),
            user: blob.config.user,
            env: blob.config.env,
            cmd: blob.config.cmd,
            working_dir: blob.config.working_dir,
            labels: blob.config.labels,
            arch: blob.architecture,
            created: blob.created,
        }
    }
}

/// Whether `d` holds the details of `tag` of repository `name`, as given by
/// the configuration blob `blob`.
pub open spec fn details_resolved(
    d: ImageDetails,
    name: Seq<char>,
    tag: Seq<char>,
    blob: ResponseConfigBlob,
) -> bool {
    &&& d.name@ == name
    &&& d.tag@ == tag
    &&& opt_view(d.user) == opt_view(blob.config.user)
    &&& d.env@ == blob.config.env@
    &&& d.cmd@ == blob.config.cmd@
    &&& opt_view(d.working_dir) == opt_view(blob.config.working_dir)
    &&& d.labels@ == blob.config.labels@
    &&& d.arch@ == blob.architecture@
    &&& d.created@ == blob.created@
}

} // verus!
