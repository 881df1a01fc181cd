use vstd::prelude::*;
use crate::error::BundleError;
use crate::text::{decimal, push_decimal, push_text};

verus! {

/// A semantic version: three numbers, a pre-release tag and build metadata,
/// the last two empty when absent.
#[derive(Debug, Clone, PartialEq, Eq)]
pub struct Version {
    pub major: u64,
    pub minor: u64,
    pub patch: u64,
    pub pre: String,
    pub build: String,
}

/// A `Version` with its texts as sequences of characters.
pub struct VersionView {
    pub major: u64,
    pub minor: u64,
    pub patch: u64,
    pub pre: Seq<char>,
    pub build: Seq<char>,
}

impl View for Version {
    type V = VersionView;

    open spec fn view(&self) -> VersionView {
        VersionView {
            major: self.major,
            minor: self.minor,
            patch: self.patch,
            pre: self.pre@,
            build: self.build@,
        }
    }
}

impl VersionView {
    /// The version `major.minor.patch`, with no pre-release tag and no build metadata.
    pub open spec fn plain(major: u64, minor: u64, patch: u64) -> VersionView {
        VersionView { major, minor, patch, pre: Seq::empty(), build: Seq::empty() }
    }

    /// This is version 0.0.0, which stands for "no version".
    pub open spec fn is_zero(self) -> bool {
        self == VersionView::plain(0, 0, 0)
    }

    /// `major.minor.patch`, followed by `-pre` and `+build` where those are not empty.
    pub open spec fn text(self) -> Seq<char> {
        decimal(self.major as nat) + seq!['.'] + decimal(self.minor as nat) + seq!['.'] + decimal(
            self.patch as nat,
        ) + (if self.pre.len() > 0 {
            seq!['-'] + self.pre
        } else {
            Seq::empty()
        }) + (if self.build.len() > 0 {
            seq!['+'] + self.build
        } else {
            Seq::empty()
        })
    }
}

#[verifier::external_type_specification]
#[verifier::external_body]
pub struct ExSemverError(semver::Error);

/// What `semver::Version::parse` makes of `text`: the version it reads, or
/// `None` where it reports an error.
pub uninterp spec fn semver_parse(text: Seq<char>) -> Option<VersionView>;

/// Calls `semver::Version::parse`. The contract claims that the outcome is a
/// function of the text alone, and names it `semver_parse`; the pre-release tag
/// and the build metadata are copied out as the strings that `as_str` gives.
#[verifier::external_body]
fn semver_parse_text(text: &str) -> (r: Result<Version, semver::Error>)
    ensures
        match r {
            Ok(v) => semver_parse(text@) == Some(v@),
            Err(_) => semver_parse(text@) is None,
        },
{
    semver::Version::parse(text).map(
        |v|
            Version {
                major: v.major,
                minor: v.minor,
                patch: v.patch,
                pre: v.pre.as_str().to_string(),
                build: v.build.as_str().to_string(),
            },
    )
}

impl Version {
    /// The version `major.minor.patch`.
    pub fn new(major: u64, minor: u64, patch: u64) -> (v: Version)
        ensures
            v@ == VersionView::plain(major, minor, patch),
    {
        Version { major, minor, patch, pre: String::new(), build: String::new() }
    }

    /// Reads a semantic version. Fails with `InvalidVersion` exactly on the
    /// texts that the semver grammar refuses.
    pub fn parse(text: &str) -> (r: Result<Version, BundleError>)
        ensures
            match r {
                Ok(v) => semver_parse(text@) == Some(v@),
                Err(e) => semver_parse(text@) is None && e == BundleError::InvalidVersion,
            },
    {
        match semver_parse_text(text) {
            Ok(v) => Ok(v),
            Err(_) => Err(BundleError::InvalidVersion),
        }
    }

    /// Whether this is version 0.0.0.
    pub fn is_zero(&self) -> (b: bool)
        ensures
            b == self@.is_zero(),
    {
        let b = self.major == 0 && self.minor == 0 && self.patch == 0 && self.pre.as_str().is_empty()
            && self.build.as_str().is_empty();
        proof {
            if b {
                assert(self@.pre =~= Seq::<char>::empty());
                assert(self@.build =~= Seq::<char>::empty());
            }
        }
        b
    }

    /// Appends the text of this version to `out`.
    pub fn push_to(&self, out: &mut String)
        ensures
            final(out)@ == old(out)@ + self@.text(),
    {
        push_decimal(out, self.major);
        out.push('.');
        push_decimal(out, self.minor);
        out.push('.');
        push_decimal(out, self.patch);
        if !self.pre.as_str().is_empty() {
            out.push('-');
            push_text(out, self.pre.as_str());
        }
        if !self.build.as_str().is_empty() {
            out.push('+');
            push_text(out, self.build.as_str());
        }
        assert(out@ =~= old(out)@ + self@.text());
    }

    /// The text of this version.
    pub fn to_text(&self) -> (text: String)
        ensures
            text@ == self@.text(),
    {
        let mut out = String::new();
        self.push_to(&mut out);
        assert(Seq::<char>::empty() + self@.text() =~= self@.text());
        out
    }
}

} // verus!
