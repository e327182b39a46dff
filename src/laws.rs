//! Properties that hold across the library's functions.
use vstd::prelude::*;

use crate::{
    blob_url_spec, details_resolved, images_built, opt_view, AduanaImage, AduanaInspector,
    ImageDetails, ResponseCatalog, ResponseConfigBlob, ResponseImage,
};

verus! {

/// Whether `listings` answers the catalog: one tag list per repository, in
/// the catalog's order, each naming the repository it was asked for.
pub open spec fn answers_catalog(catalog: ResponseCatalog, listings: Seq<ResponseImage>) -> bool {
    &&& listings.len() == catalog.repositories@.len()
    &&& forall|i: int|
        0 <= i < listings.len() ==> (#[trigger] listings[i]).name@
            == catalog.repositories@[i]@
}

/// Whether every repository name in the catalog is non-empty, as a
/// registry's naming rules demand.
pub open spec fn catalog_names_valid(catalog: ResponseCatalog) -> bool {
    forall|i: int|
        0 <= i < catalog.repositories@.len() ==> (#[trigger] catalog.repositories@[i])@.len() > 0
}

/// Enumerating a registry with N repositories yields exactly N image
/// handles, each with a non-empty name, in the order of the catalog.
pub proof fn lemma_images_follow_catalog(
    inspector: AduanaInspector,
    catalog: ResponseCatalog,
    listings: Seq<ResponseImage>,
    images: Seq<AduanaImage>,
)
    requires
        catalog_names_valid(catalog),
        answers_catalog(catalog, listings),
        images_built(inspector, listings, images),
    ensures
        images.len() == catalog.repositories@.len(),
        forall|i: int|
            0 <= i < images.len() ==> (#[trigger] images[i]).name_view()
                == catalog.repositories@[i]@ && images[i].name_view().len() > 0,
{
    assert forall|i: int| 0 <= i < images.len() implies (#[trigger] images[i]).name_view()
        == catalog.repositories@[i]@ && images[i].name_view().len() > 0 by {
        assert(listings[i].name@ == catalog.repositories@[i]@);
        assert(catalog.repositories@[i]@.len() > 0);
    }
}

/// The blob that a tag resolves to is addressed by the digest that its
/// manifest names: within one repository, two digests lead to the same
/// blob address exactly when they are equal.
pub proof fn lemma_blob_follows_digest(
    base: Seq<char>,
    name: Seq<char>,
    d1: Seq<char>,
    d2: Seq<char>,
)
    ensures
        (blob_url_spec(base, name, d1) == blob_url_spec(base, name, d2)) == (d1 == d2),
{
    let prefix = base + "/v2/"@ + name + "/blobs/"@;
    assert(blob_url_spec(base, name, d1) == prefix + d1);
    assert(blob_url_spec(base, name, d2) == prefix + d2);
    if prefix + d1 == prefix + d2 {
        assert((prefix + d1).subrange(prefix.len() as int, (prefix + d1).len() as int) =~= d1);
        assert((prefix + d2).subrange(prefix.len() as int, (prefix + d2).len() as int) =~= d2);
    }
}

/// Whether two details hold the same values, field for field.
pub open spec fn same_details(a: ImageDetails, b: ImageDetails) -> bool {
    &&& a.name@ == b.name@
    &&& a.tag@ == b.tag@
    &&& opt_view(a.user) == opt_view(b.user)
    &&& a.env@ == b.env@
    &&& a.cmd@ == b.cmd@
    &&& opt_view(a.working_dir) == opt_view(b.working_dir)
    &&& a.labels@ == b.labels@
    &&& a.arch@ == b.arch@
    &&& a.created@ == b.created@
}

/// Whether two configuration blobs hold the same values.
pub open spec fn same_blob(a: ResponseConfigBlob, b: ResponseConfigBlob) -> bool {
    &&& a.architecture@ == b.architecture@
    &&& a.created@ == b.created@
    &&& opt_view(a.config.user) == opt_view(b.config.user)
    &&& a.config.env@ == b.config.env@
    &&& a.config.cmd@ == b.config.cmd@
    &&& opt_view(a.config.working_dir) == opt_view(b.config.working_dir)
    &&& a.config.labels@ == b.config.labels@
}

/// Resolving the same tag of the same repository twice, against a registry
/// that answers the same blob both times, gives details that are equal field
/// for field: nothing is kept from one resolution to the next.
pub proof fn lemma_details_repeatable(
    name: Seq<char>,
    tag: Seq<char>,
    blob1: ResponseConfigBlob,
    blob2: ResponseConfigBlob,
    d1: ImageDetails,
    d2: ImageDetails,
)
    requires
        same_blob(blob1, blob2),
        details_resolved(d1, name, tag, blob1),
        details_resolved(d2, name, tag, blob2),
    ensures
        same_details(d1, d2),
{
}

/// A configuration blob whose configuration fields were all missing still
/// resolves, to details whose configuration fields are all empty.
pub proof fn lemma_missing_config_is_empty(
    name: Seq<char>,
    tag: Seq<char>,
    blob: ResponseConfigBlob,
    d: ImageDetails,
)
    requires
        blob.config.is_empty_config(),
        details_resolved(d, name, tag, blob),
    ensures
        d.user is None,
        d.env@.len() == 0,
        d.cmd@.len() == 0,
        d.working_dir is None,
        d.labels@ == Map::<String, String>::empty(),
{
}

} // verus!
