use vstd::prelude::*;
use crate::filename::{
    digits_end, has_package_suffix, is_arch_tail, is_first_version_start, is_os_version_char,
    is_platform_tag_start, lemma_first_version_start, lemma_platform_tag_start,
    number_end, os_name_len, os_version_end, package_kind, package_suffix, parse_file_name,
    platform_tag_at, version_starts_at, EntryNameView, PlatformTagView,
};
use crate::text::{
    decimal, ends_with_ignore_case, is_digit, lemma_decimal_digits, matches_at_ignore_case,
    same_letter,
};
use crate::version::{semver_parse, VersionView};

verus! {

/// `t` is `token`, letter case aside.
pub open spec fn is_token(t: Seq<char>, token: Seq<char>) -> bool {
    t.len() == token.len() && matches_at_ignore_case(t, 0, token)
}

/// `t` names an operating system that a platform tag may hold.
pub open spec fn is_os_name(t: Seq<char>) -> bool {
    is_token(t, "osx"@) || is_token(t, "win"@)
}

/// `t` names an architecture that a platform tag may hold.
pub open spec fn is_arch_name(t: Seq<char>) -> bool {
    is_token(t, "x64"@) || is_token(t, "x86"@) || is_token(t, "arm64"@)
}

impl PlatformTagView {
    /// The tag as it is written in a file name.
    pub open spec fn text(self) -> Seq<char> {
        (match self.os {
            Some(os) => seq!['-'] + os + (match self.os_min_ver {
                Some(v) => v,
                None => Seq::empty(),
            }),
            None => Seq::empty(),
        }) + (match self.os_arch {
            Some(arch) => seq!['-'] + arch,
            None => Seq::empty(),
        })
    }

    /// The tag can be written and read back: its names are known ones, and
    /// the system's version, present only beside a system, is a run of digits
    /// and dots that starts with a digit.
    pub open spec fn is_valid(self) -> bool {
        &&& self.os matches Some(os) ==> is_os_name(os)
        &&& self.os_min_ver matches Some(v) ==> {
            &&& self.os is Some
            &&& v.len() > 0
            &&& is_digit(v[0])
            &&& forall|k: int| 0 <= k < v.len() ==> is_os_version_char(#[trigger] v[k])
        }
        &&& self.os_arch matches Some(arch) ==> is_arch_name(arch)
    }
}

/// The file name of a package: its name, a hyphen, its version, its platform
/// tag and the suffix of its kind.
pub open spec fn file_name_text(
    name: Seq<char>,
    version: Seq<char>,
    tag: Seq<char>,
    is_delta: bool,
) -> Seq<char> {
    name + seq!['-'] + version + tag + package_suffix(is_delta)
}

/// A name that ends with neither package suffix, letter case aside, is no
/// package's name.
pub proof fn lemma_unsuffixed_name_is_refused(name: Seq<char>)
    requires
        !ends_with_ignore_case(name, "-full.nupkg"@),
        !ends_with_ignore_case(name, "-delta.nupkg"@),
    ensures
        parse_file_name(name) is None,
{
}

/// A run of digits that ends at `end` is the longest from each of its places.
pub proof fn lemma_digits_end(s: Seq<char>, from: int, end: int)
    requires
        0 <= from <= end <= s.len(),
        forall|k: int| from <= k < end ==> is_digit(#[trigger] s[k]),
        end == s.len() || !is_digit(s[end]),
    ensures
        digits_end(s, from) == end,
    decreases end - from,
{
    if from < end {
        lemma_digits_end(s, from + 1, end);
    }
}

/// A run of digits and dots that ends at `end` is the longest from each of
/// its places.
pub proof fn lemma_os_version_end(s: Seq<char>, from: int, end: int)
    requires
        0 <= from <= end <= s.len(),
        forall|k: int| from <= k < end ==> is_os_version_char(#[trigger] s[k]),
        end == s.len() || !is_os_version_char(s[end]),
    ensures
        os_version_end(s, from) == end,
    decreases end - from,
{
    if from < end {
        lemma_os_version_end(s, from + 1, end);
    }
}

/// The longest run of digits from `from` ends within the text, at a place
/// that holds no digit, and holds digits only.
pub proof fn lemma_digits_end_is_run(s: Seq<char>, from: int)
    requires
        0 <= from <= s.len(),
    ensures
        from <= digits_end(s, from) <= s.len(),
        forall|k: int| from <= k < digits_end(s, from) ==> is_digit(#[trigger] s[k]),
        digits_end(s, from) == s.len() || !is_digit(s[digits_end(s, from)]),
    decreases s.len() - from,
{
    if from < s.len() && is_digit(s[from]) {
        lemma_digits_end_is_run(s, from + 1);
    }
}

/// A number that is written at `at`, with no digit behind it, is read there.
proof fn lemma_number_at(s: Seq<char>, at: int, n: nat)
    requires
        0 <= at,
        at + decimal(n).len() <= s.len(),
        s.subrange(at, at + decimal(n).len()) == decimal(n),
        at + decimal(n).len() == s.len() || !is_digit(s[at + decimal(n).len()]),
    ensures
        number_end(s, at) == Some(at + decimal(n).len()),
{
    lemma_decimal_digits(n);
    let d = decimal(n);
    assert forall|k: int| at <= k < at + d.len() implies is_digit(#[trigger] s[k]) by {
        assert(s[k] == s.subrange(at, at + d.len())[k - at]);
    }
    lemma_digits_end(s, at, at + d.len());
    assert(s[at] == s.subrange(at, at + d.len())[0]);
}

/// What stands before a hyphen holds the same version starts with the hyphen
/// and anything behind it as without.
proof fn lemma_version_start_before_hyphen(name: Seq<char>, tail: Seq<char>, at: int)
    requires
        0 <= at < name.len(),
    ensures
        version_starts_at(name + seq!['-'] + tail, at) == version_starts_at(name, at),
{
    let s = name + seq!['-'] + tail;
    assert(s[name.len() as int] == '-');
    assert(forall|k: int| 0 <= k < name.len() ==> #[trigger] s[k] == name[k]);
    lemma_digits_end_is_run(name, at + 1);
    let dot = digits_end(name, at + 1);
    assert(digits_end(s, at + 1) == dot) by {
        lemma_digits_end(s, at + 1, dot);
    }
    if dot < name.len() {
        lemma_digits_end_is_run(name, dot + 1);
        let end = digits_end(name, dot + 1);
        assert(digits_end(s, dot + 1) == end) by {
            lemma_digits_end(s, dot + 1, end);
        }
    }
}

/// The text of a version starts as the grammar asks: behind the hyphen stand
/// a number, a dot, a number, and no digit.
proof fn lemma_version_text_starts(name: Seq<char>, version: VersionView, tail: Seq<char>)
    ensures
        version_starts_at(name + seq!['-'] + version.text() + tail, name.len() as int),
{
    let s = name + seq!['-'] + version.text() + tail;
    let major = decimal(version.major as nat);
    let minor = decimal(version.minor as nat);
    let patch = decimal(version.patch as nat);
    lemma_decimal_digits(version.major as nat);
    lemma_decimal_digits(version.minor as nat);
    lemma_decimal_digits(version.patch as nat);
    let at = name.len() as int;
    let dot = at + 1 + major.len();
    let end = dot + 1 + minor.len();
    let text = version.text();
    assert(text.len() >= major.len() + 1 + minor.len() + 1 + patch.len());
    assert(s[at] == '-');
    assert(s.subrange(at + 1, at + 1 + major.len()) =~= major);
    assert(s[dot] == '.');
    assert(s.subrange(dot + 1, dot + 1 + minor.len()) =~= minor);
    assert(s[end] == '.');
    lemma_number_at(s, at + 1, version.major as nat);
    lemma_number_at(s, dot + 1, version.minor as nat);
}

/// A valid platform tag, written behind any text, is read back from where it
/// was written.
proof fn lemma_tag_text_is_read(head: Seq<char>, tag: PlatformTagView)
    requires
        tag.is_valid(),
    ensures
        platform_tag_at(head + tag.text(), head.len() as int) == Some(tag),
{
    reveal_strlit("osx");
    reveal_strlit("win");
    reveal_strlit("x64");
    reveal_strlit("x86");
    reveal_strlit("arm64");
    let s = head + tag.text();
    let at = head.len() as int;
    match tag.os {
        None => {
            match tag.os_arch {
                None => {
                    assert(tag.text() =~= Seq::<char>::empty());
                    assert(s =~= head);
                    assert(platform_tag_at(s, at) =~= Some(tag));
                },
                Some(arch) => {
                    assert(tag.text() =~= seq!['-'] + arch);
                    assert(s[at] == '-');
                    assert(forall|k: int| 0 <= k < arch.len() ==> #[trigger] s[at + 1 + k] == arch[0 + k]);
                    assert(s.subrange(at + 1, s.len() as int) =~= arch);
                    assert(os_name_len(s, at + 1) is None) by {
                        assert(s[at + 1 + 0] == arch[0int + 0]);
                    }
                    assert(is_arch_tail(s, at));
                    assert(platform_tag_at(s, at) =~= Some(tag));
                },
            }
        },
        Some(os) => {
            let ver = match tag.os_min_ver {
                Some(v) => v,
                None => Seq::empty(),
            };
            let arch_text = match tag.os_arch {
                Some(arch) => seq!['-'] + arch,
                None => Seq::empty(),
            };
            assert(tag.text() =~= seq!['-'] + os + ver + arch_text);
            assert(os.len() == 3);
            assert(s[at] == '-');
            assert(forall|k: int| 0 <= k < 3 ==> #[trigger] s[at + 1 + k] == os[0 + k]);
            assert(os_name_len(s, at + 1) == Some(3int));
            let os_end = at + 4;
            assert(s.subrange(at + 1, os_end) =~= os);
            let ver_end = os_end + ver.len();
            assert(forall|k: int| 0 <= k < ver.len() ==> #[trigger] s[os_end + k] == ver[k]);
            assert(ver_end == s.len() || s[ver_end] == '-');
            assert(os_end == s.len() || s[os_end] != '.');
            assert forall|k: int| os_end <= k < ver_end implies is_os_version_char(
                #[trigger] s[k],
            ) by {
                assert(s[k] == ver[k - os_end]);
            }
            lemma_os_version_end(s, os_end, ver_end);
            assert(s.subrange(os_end, ver_end) =~= ver);
            match tag.os_arch {
                None => {
                    assert(ver_end == s.len());
                    assert(platform_tag_at(s, at) =~= Some(tag));
                },
                Some(arch) => {
                    assert(forall|k: int|
                        0 <= k < arch.len() ==> #[trigger] s[ver_end + 1 + k] == arch[0 + k]);
                    assert(s.subrange(ver_end + 1, s.len() as int) =~= arch);
                    assert(is_arch_tail(s, ver_end));
                    assert(platform_tag_at(s, at) =~= Some(tag));
                },
            }
        },
    }
}

/// A text with a package suffix behind it is a package's name of that kind.
proof fn lemma_suffixed_kind(stem: Seq<char>, is_delta: bool)
    ensures
        package_kind(stem + package_suffix(is_delta)) == Some(is_delta),
{
    reveal_strlit("-full.nupkg");
    reveal_strlit("-delta.nupkg");
    let full = stem + package_suffix(is_delta);
    let suffix = package_suffix(is_delta);
    assert forall|k: int| 0 <= k < suffix.len() implies same_letter(
        #[trigger] full[full.len() - suffix.len() + k],
        suffix[k],
    ) by {
        assert(full[stem.len() + k] == suffix[k]);
    }
    assert(has_package_suffix(full, is_delta));
    if is_delta {
        let other = package_suffix(false);
        assert(full[full.len() - other.len() + 0] == 'd');
        assert(!same_letter(full[full.len() - other.len() + 0], other[0]));
        assert(!has_package_suffix(full, false));
    }
}

/// How a file name is read, given where its version and its platform tag
/// start: the name is what stands before the version's start, the tag is the
/// one found, and the version is what the semver grammar makes of the text
/// between them.
pub proof fn lemma_parse_parts(
    name: Seq<char>,
    version: Seq<char>,
    tag: PlatformTagView,
    tag_text: Seq<char>,
    is_delta: bool,
)
    requires
        is_first_version_start(name + seq!['-'] + version + tag_text, name.len() as int),
        is_platform_tag_start(version + tag_text, version.len() as int),
        platform_tag_at(version + tag_text, version.len() as int) == Some(tag),
    ensures
        parse_file_name(file_name_text(name, version, tag_text, is_delta)) == match semver_parse(
            version,
        ) {
            None => None,
            Some(v) => Some(
                EntryNameView {
                    name,
                    version: v,
                    is_delta,
                    file_path: Seq::empty(),
                    os: tag.os,
                    os_min_ver: tag.os_min_ver,
                    os_arch: tag.os_arch,
                },
            ),
        },
{
    let rest = version + tag_text;
    let stem = name + seq!['-'] + version + tag_text;
    let full = file_name_text(name, version, tag_text, is_delta);
    lemma_suffixed_kind(stem, is_delta);
    assert(full.take(full.len() - package_suffix(is_delta).len()) =~= stem);
    lemma_first_version_start(stem, name.len() as int);
    assert(stem.skip(name.len() as int + 1) =~= rest);
    lemma_platform_tag_start(rest, version.len() as int);
    assert(rest.take(version.len() as int) =~= version);
    assert(stem.take(name.len() as int) =~= name);
}

/// Writing a package's name, version, platform tag and kind as a file name
/// and reading the file name gives them back, where
/// - no place in the name is one behind which a version may start,
/// - the tag is valid,
/// - the semver grammar reads the version's text as that version, and
/// - the version's text, with the tag behind it, holds no platform tag that
///   starts before the one written (as `1.2.3-win` would with an empty tag).
pub proof fn lemma_written_name_is_read_back(
    name: Seq<char>,
    version: VersionView,
    tag: PlatformTagView,
    is_delta: bool,
)
    requires
        forall|i: int| 0 <= i < name.len() ==> !version_starts_at(name, i),
        tag.is_valid(),
        semver_parse(version.text()) == Some(version),
        forall|i: int|
            0 <= i < version.text().len() ==> platform_tag_at(version.text() + tag.text(), i)
                is None,
    ensures
        parse_file_name(file_name_text(name, version.text(), tag.text(), is_delta)) == Some(
            EntryNameView {
                name,
                version,
                is_delta,
                file_path: Seq::empty(),
                os: tag.os,
                os_min_ver: tag.os_min_ver,
                os_arch: tag.os_arch,
            },
        ),
{
    let text = version.text();
    let stem = name + seq!['-'] + text + tag.text();
    lemma_version_text_starts(name, version, tag.text());
    assert forall|j: int| 0 <= j < name.len() implies !version_starts_at(stem, j) by {
        lemma_version_start_before_hyphen(name, text + tag.text(), j);
        assert(name + seq!['-'] + (text + tag.text()) =~= stem);
    }
    lemma_tag_text_is_read(text, tag);
    lemma_parse_parts(name, text, tag, tag.text(), is_delta);
}

/// The text of a version without pre-release tag and build metadata holds
/// digits and dots only, so none of its endings reads as a platform tag,
/// whatever tag stands behind it.
pub proof fn lemma_plain_version_holds_no_tag(version: VersionView, tail: Seq<char>)
    requires
        version.pre.len() == 0,
        version.build.len() == 0,
    ensures
        forall|i: int|
            0 <= i < version.text().len() ==> platform_tag_at(version.text() + tail, i) is None,
{
    let text = version.text();
    let major = decimal(version.major as nat);
    let minor = decimal(version.minor as nat);
    let patch = decimal(version.patch as nat);
    lemma_decimal_digits(version.major as nat);
    lemma_decimal_digits(version.minor as nat);
    lemma_decimal_digits(version.patch as nat);
    assert(text =~= major + seq!['.'] + minor + seq!['.'] + patch);
    assert forall|i: int| 0 <= i < text.len() implies platform_tag_at(text + tail, i) is None by {
        let s = text + tail;
        assert(s[i] == text[i]);
        if i < major.len() {
            assert(text[i] == major[i]);
        } else if i == major.len() {
        } else if i < major.len() + 1 + minor.len() {
            assert(text[i] == minor[i - major.len() - 1]);
        } else if i == major.len() + 1 + minor.len() {
        } else {
            assert(text[i] == patch[i - major.len() - minor.len() - 2]);
        }
        assert(s[i] != '-');
    }
}

/// Writing a package with a version `major.minor.patch` as a file name and
/// reading the file name gives the package back, where no place in the name
/// is one behind which a version may start, the tag is valid, and the semver
/// grammar reads the version's text as that version.
pub proof fn lemma_written_plain_name_is_read_back(
    name: Seq<char>,
    major: u64,
    minor: u64,
    patch: u64,
    tag: PlatformTagView,
    is_delta: bool,
)
    requires
        forall|i: int| 0 <= i < name.len() ==> !version_starts_at(name, i),
        tag.is_valid(),
        semver_parse(VersionView::plain(major, minor, patch).text()) == Some(
            VersionView::plain(major, minor, patch),
        ),
    ensures
        parse_file_name(
            file_name_text(
                name,
                VersionView::plain(major, minor, patch).text(),
                tag.text(),
                is_delta,
            ),
        ) == Some(
            EntryNameView {
                name,
                version: VersionView::plain(major, minor, patch),
                is_delta,
                file_path: Seq::empty(),
                os: tag.os,
                os_min_ver: tag.os_min_ver,
                os_arch: tag.os_arch,
            },
        ),
{
    let version = VersionView::plain(major, minor, patch);
    lemma_plain_version_holds_no_tag(version, tag.text());
    lemma_written_name_is_read_back(name, version, tag, is_delta);
}

} // verus!
