use vstd::prelude::*;
use crate::error::BundleErrorView;
use crate::manifest::{
    decode_tokens, scan_tokens, validate, ManifestView, ScanStop, XmlTokenView,
};

verus! {

/// Fields without an `id` make no manifest, whatever else they hold: the
/// missing `id` is what is reported.
pub proof fn lemma_missing_id_is_reported_first(fields: ManifestView)
    requires
        fields.id.len() == 0,
    ensures
        validate(fields) == Err::<ManifestView, BundleErrorView>(BundleErrorView::MissingId),
{
}

/// Fields with an `id` and with an `os` other than `win` make no manifest:
/// the `os` is reported as unsupported.
pub proof fn lemma_foreign_os_is_refused(fields: ManifestView)
    requires
        fields.id.len() > 0,
        fields.os.len() > 0,
        fields.os != "win"@,
    ensures
        validate(fields) == Err::<ManifestView, BundleErrorView>(
            BundleErrorView::UnsupportedOs(fields.os),
        ),
{
}

/// Where fields without a title make a manifest, its title is its `id`, and
/// nothing else differs from the fields.
pub proof fn lemma_title_defaults_to_id(fields: ManifestView)
    requires
        fields.title.len() == 0,
        validate(fields) is Ok,
    ensures
        validate(fields) == Ok::<ManifestView, BundleErrorView>(
            ManifestView { title: fields.id, ..fields },
        ),
        validate(fields)->Ok_0.title == validate(fields)->Ok_0.id,
{
}

/// While no element named `id` has opened, no `id` has been read.
proof fn lemma_scan_without_id(tokens: Seq<XmlTokenView>, n: nat)
    requires
        n <= tokens.len(),
        forall|i: int| 0 <= i < tokens.len() ==> tokens[i] != XmlTokenView::StartElement("id"@),
    ensures
        scan_tokens(tokens, n).fields.id.len() == 0,
        forall|k: int|
            0 <= k < scan_tokens(tokens, n).open.len() ==> scan_tokens(tokens, n).open[k] != "id"@,
    decreases n,
{
    if n > 0 {
        lemma_scan_without_id(tokens, (n - 1) as nat);
        let before = scan_tokens(tokens, (n - 1) as nat);
        assert(tokens[n - 1] != XmlTokenView::StartElement("id"@));
        if before.open.len() > 0 {
            assert(before.open.last() == before.open[before.open.len() - 1]);
        }
    }
}

/// A document in which no element is named `id` holds no manifest, however
/// many other fields it fills: reading it fails for the missing `id`. Only a
/// `version` element whose text is no semantic version is reported before that.
pub proof fn lemma_document_without_id(tokens: Seq<XmlTokenView>)
    requires
        forall|i: int| 0 <= i < tokens.len() ==> tokens[i] != XmlTokenView::StartElement("id"@),
    ensures
        decode_tokens(tokens) == if scan_tokens(tokens, tokens.len()).stopped == Some(
            ScanStop::BadVersion,
        ) {
            Err::<ManifestView, BundleErrorView>(BundleErrorView::InvalidVersion)
        } else {
            Err::<ManifestView, BundleErrorView>(BundleErrorView::MissingId)
        },
{
    lemma_scan_without_id(tokens, tokens.len());
}

/// A malformed document holds no manifest: unless a `version` element with
/// a text that is no semantic version came before the fault, reading it fails
/// for the missing `id`.
pub proof fn lemma_malformed_document(tokens: Seq<XmlTokenView>)
    requires
        scan_tokens(tokens, tokens.len()).stopped == Some(ScanStop::Malformed),
    ensures
        decode_tokens(tokens) == Err::<ManifestView, BundleErrorView>(BundleErrorView::MissingId),
{
    lemma_malformed_scan_is_blank(tokens, tokens.len());
}

/// A scan that a malformed document stopped holds nothing.
proof fn lemma_malformed_scan_is_blank(tokens: Seq<XmlTokenView>, n: nat)
    requires
        scan_tokens(tokens, n).stopped == Some(ScanStop::Malformed),
    ensures
        scan_tokens(tokens, n).fields == ManifestView::blank(),
    decreases n,
{
    if n > 0 {
        let before = scan_tokens(tokens, (n - 1) as nat);
        if before.stopped is Some {
            lemma_malformed_scan_is_blank(tokens, (n - 1) as nat);
        }
    }
}

} // verus!
