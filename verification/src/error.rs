use vstd::prelude::*;
use crate::text::push_text;

verus! {

/// Why an operation on a bundle, a manifest or a version failed.
#[derive(Debug, Clone, PartialEq, Eq)]
pub enum BundleError {
    /// The bytes do not hold an archive.
    InvalidArchive,
    /// The byte source could not be read.
    UnreadableSource,
    /// The entry at this index cannot be opened, or its data cannot be read.
    UnreadableEntry(usize),
    /// The data of the entry at this index is not UTF-8 text.
    InvalidText(usize),
    /// No readable entry has a name that the search accepts.
    EntryNotFound,
    /// The bundle holds no readable `.nuspec` entry.
    MissingManifest,
    /// A text that should be a semantic version is none.
    InvalidVersion,
    /// The manifest has no `id`.
    MissingId,
    /// The manifest names an `os` other than `win`.
    UnsupportedOs(String),
    /// The manifest has no `version`, or version 0.0.0.
    MissingVersion,
    /// The manifest has no `mainExe`.
    MissingMainExe,
    /// The size of the install directory, in KiB, does not fit in 32 bits.
    SizeOutOfRange,
}

/// A `BundleError` with its text as a sequence of characters.
pub enum BundleErrorView {
    InvalidArchive,
    UnreadableSource,
    UnreadableEntry(usize),
    InvalidText(usize),
    EntryNotFound,
    MissingManifest,
    InvalidVersion,
    MissingId,
    UnsupportedOs(Seq<char>),
    MissingVersion,
    MissingMainExe,
    SizeOutOfRange,
}

impl View for BundleError {
    type V = BundleErrorView;

    open spec fn view(&self) -> BundleErrorView {
        match self {
            BundleError::InvalidArchive => BundleErrorView::InvalidArchive,
            BundleError::UnreadableSource => BundleErrorView::UnreadableSource,
            BundleError::UnreadableEntry(i) => BundleErrorView::UnreadableEntry(*i),
            BundleError::InvalidText(i) => BundleErrorView::InvalidText(*i),
            BundleError::EntryNotFound => BundleErrorView::EntryNotFound,
            BundleError::MissingManifest => BundleErrorView::MissingManifest,
            BundleError::InvalidVersion => BundleErrorView::InvalidVersion,
            BundleError::MissingId => BundleErrorView::MissingId,
            BundleError::UnsupportedOs(os) => BundleErrorView::UnsupportedOs(os@),
            BundleError::MissingVersion => BundleErrorView::MissingVersion,
            BundleError::MissingMainExe => BundleErrorView::MissingMainExe,
            BundleError::SizeOutOfRange => BundleErrorView::SizeOutOfRange,
        }
    }
}

impl BundleErrorView {
    /// The sentence shown to a user for this error.
    pub open spec fn message(self) -> Seq<char> {
        match self {
            BundleErrorView::InvalidArchive => "The bundle is not a valid archive."@,
            BundleErrorView::UnreadableSource => "The bundle could not be read."@,
            BundleErrorView::UnreadableEntry(_) => "An entry of the bundle could not be read."@,
            BundleErrorView::InvalidText(_) => "An entry of the bundle is not valid UTF-8 text."@,
            BundleErrorView::EntryNotFound => "Could not find file in bundle."@,
            BundleErrorView::MissingManifest =>
                "This installer is missing a package manifest (.nuspec). Please contact the application author."@,
            BundleErrorView::InvalidVersion => "The package version is not a valid semantic version."@,
            BundleErrorView::MissingId =>
                "Missing 'id' in package manifest. Please contact the application author."@,
            BundleErrorView::UnsupportedOs(os) => "Unsupported 'os' in package manifest ("@ + os
                + "). Please contact the application author."@,
            BundleErrorView::MissingVersion =>
                "Missing 'version' in package manifest. Please contact the application author."@,
            BundleErrorView::MissingMainExe =>
                "Missing 'mainExe' in package manifest. Please contact the application author."@,
            BundleErrorView::SizeOutOfRange => "The install directory is too large to register."@,
        }
    }
}

impl BundleError {
    /// The sentence shown to a user for this error.
    pub fn message(&self) -> (text: String)
        ensures
            text@ == self@.message(),
    {
        let mut out = String::new();
        match self {
            BundleError::InvalidArchive => push_text(&mut out, "The bundle is not a valid archive."),
            BundleError::UnreadableSource => push_text(&mut out, "The bundle could not be read."),
            BundleError::UnreadableEntry(_) => push_text(
                &mut out,
                "An entry of the bundle could not be read.",
            ),
            BundleError::InvalidText(_) => push_text(
                &mut out,
                "An entry of the bundle is not valid UTF-8 text.",
            ),
            BundleError::EntryNotFound => push_text(&mut out, "Could not find file in bundle."),
            BundleError::MissingManifest => push_text(
                &mut out,
                "This installer is missing a package manifest (.nuspec). Please contact the application author.",
            ),
            BundleError::InvalidVersion => push_text(
                &mut out,
                "The package version is not a valid semantic version.",
            ),
            BundleError::MissingId => push_text(
                &mut out,
                "Missing 'id' in package manifest. Please contact the application author.",
            ),
            BundleError::UnsupportedOs(os) => {
                push_text(&mut out, "Unsupported 'os' in package manifest (");
                push_text(&mut out, os.as_str());
                push_text(&mut out, "). Please contact the application author.");
            },
            BundleError::MissingVersion => push_text(
                &mut out,
                "Missing 'version' in package manifest. Please contact the application author.",
            ),
            BundleError::MissingMainExe => push_text(
                &mut out,
                "Missing 'mainExe' in package manifest. Please contact the application author.",
            ),
            BundleError::SizeOutOfRange => push_text(
                &mut out,
                "The install directory is too large to register.",
            ),
        }
        assert(Seq::<char>::empty() + self@.message() =~= self@.message());
        out
    }
}

} // verus!
