use vstd::prelude::*;
use crate::text::{
    chars_of, is_digit, is_digit_char, matches_at_ignore_case, matches_at_ignore_case_chars,
    push_text, string_of,
};
use crate::version::{semver_parse, Version, VersionView};

verus! {

/// What the name of a release artifact says of the package in it.
#[derive(Debug, Clone, PartialEq, Eq)]
pub struct EntryNameInfo {
    pub name: String,
    pub version: Version,
    pub is_delta: bool,
    pub file_path: String,
    pub os: Option<String>,
    pub os_min_ver: Option<String>,
    pub os_arch: Option<String>,
}

/// An `EntryNameInfo` with its texts as sequences of characters.
pub struct EntryNameView {
    pub name: Seq<char>,
    pub version: VersionView,
    pub is_delta: bool,
    pub file_path: Seq<char>,
    pub os: Option<Seq<char>>,
    pub os_min_ver: Option<Seq<char>>,
    pub os_arch: Option<Seq<char>>,
}

/// The view of an optional string.
pub open spec fn text_view(s: Option<String>) -> Option<Seq<char>> {
    match s {
        Some(t) => Some(t@),
        None => None,
    }
}

impl View for EntryNameInfo {
    type V = EntryNameView;

    open spec fn view(&self) -> EntryNameView {
        EntryNameView {
            name: self.name@,
            version: self.version@,
            is_delta: self.is_delta,
            file_path: self.file_path@,
            os: text_view(self.os),
            os_min_ver: text_view(self.os_min_ver),
            os_arch: text_view(self.os_arch),
        }
    }
}

impl Default for EntryNameInfo {
    fn default() -> (info: EntryNameInfo)
        ensures
            info@ == (EntryNameView {
                name: Seq::empty(),
                version: VersionView::plain(0, 0, 0),
                is_delta: false,
                file_path: Seq::empty(),
                os: None,
                os_min_ver: None,
                os_arch: None,
            }),
    {
        EntryNameInfo {
            name: String::new(),
            version: Version::new(0, 0, 0),
            is_delta: false,
            file_path: String::new(),
            os: None,
            os_min_ver: None,
            os_arch: None,
        }
    }
}

/// The platform tag at the end of an artifact's name: operating system, its
/// least version, processor architecture; each may be absent.
pub struct PlatformTag {
    pub os: Option<String>,
    pub os_min_ver: Option<String>,
    pub os_arch: Option<String>,
}

/// A `PlatformTag` with its texts as sequences of characters.
pub struct PlatformTagView {
    pub os: Option<Seq<char>>,
    pub os_min_ver: Option<Seq<char>>,
    pub os_arch: Option<Seq<char>>,
}

impl View for PlatformTag {
    type V = PlatformTagView;

    open spec fn view(&self) -> PlatformTagView {
        PlatformTagView {
            os: text_view(self.os),
            os_min_ver: text_view(self.os_min_ver),
            os_arch: text_view(self.os_arch),
        }
    }
}

// ---------------------------------------------------------------------------
// The package suffix
// ---------------------------------------------------------------------------

/// The ending of a delta package's name, or of a full package's.
pub open spec fn package_suffix(is_delta: bool) -> Seq<char> {
    if is_delta {
        "-delta.nupkg"@
    } else {
        "-full.nupkg"@
    }
}

/// `name` ends with the package suffix of that kind, letter case aside.
pub open spec fn has_package_suffix(name: Seq<char>, is_delta: bool) -> bool {
    matches_at_ignore_case(
        name,
        name.len() - package_suffix(is_delta).len(),
        package_suffix(is_delta),
    )
}

/// Whether `name` is a full package's (`Some(false)`), a delta package's
/// (`Some(true)`), or no package's name at all.
pub open spec fn package_kind(name: Seq<char>) -> Option<bool> {
    if has_package_suffix(name, false) {
        Some(false)
    } else if has_package_suffix(name, true) {
        Some(true)
    } else {
        None
    }
}

// ---------------------------------------------------------------------------
// Where the version starts
// ---------------------------------------------------------------------------

/// The end of the longest run of digits that starts at `from`.
pub open spec fn digits_end(s: Seq<char>, from: int) -> int
    decreases s.len() - from,
{
    if 0 <= from < s.len() && is_digit(s[from]) {
        digits_end(s, from + 1)
    } else {
        from
    }
}

/// Where the number that starts at `from` ends: the digits that follow `from`,
/// all of them, at least one, and more than one only if the first is not `0`.
pub open spec fn number_end(s: Seq<char>, from: int) -> Option<int> {
    let end = digits_end(s, from);
    if 0 <= from < end && (s[from] == '0' ==> end == from + 1) {
        Some(end)
    } else {
        None
    }
}

/// A version may start behind index `at`: `s[at]` is `.` or `-`, and what
/// follows is a number, a dot and a number.
pub open spec fn version_starts_at(s: Seq<char>, at: int) -> bool {
    &&& 0 <= at < s.len()
    &&& (s[at] == '.' || s[at] == '-')
    &&& number_end(s, at + 1) matches Some(dot)
    &&& dot < s.len()
    &&& s[dot] == '.'
    &&& number_end(s, dot + 1) is Some
}

/// `at` is the first index behind which a version may start.
pub open spec fn is_first_version_start(s: Seq<char>, at: int) -> bool {
    &&& version_starts_at(s, at)
    &&& forall|j: int| 0 <= j < at ==> !version_starts_at(s, j)
}

/// The first index behind which a version may start, if there is any.
pub open spec fn first_version_start(s: Seq<char>) -> Option<int> {
    if exists|at: int| version_starts_at(s, at) {
        Some(choose|at: int| is_first_version_start(s, at))
    } else {
        None
    }
}

// ---------------------------------------------------------------------------
// The platform tag
// ---------------------------------------------------------------------------

/// A character of an operating system's version: a digit or a dot.
pub open spec fn is_os_version_char(c: char) -> bool {
    is_digit(c) || c == '.'
}

/// The end of the longest run of digits and dots that starts at `from`.
pub open spec fn os_version_end(s: Seq<char>, from: int) -> int
    decreases s.len() - from,
{
    if 0 <= from < s.len() && is_os_version_char(s[from]) {
        os_version_end(s, from + 1)
    } else {
        from
    }
}

/// What is left of `s` from `at` on is a hyphen and `token`, letter case aside.
pub open spec fn is_tail_token(s: Seq<char>, at: int, token: Seq<char>) -> bool {
    &&& 0 <= at < s.len()
    &&& s[at] == '-'
    &&& at + 1 + token.len() == s.len()
    &&& matches_at_ignore_case(s, at + 1, token)
}

/// What is left of `s` from `at` on is a hyphen and an architecture.
pub open spec fn is_arch_tail(s: Seq<char>, at: int) -> bool {
    is_tail_token(s, at, "x64"@) || is_tail_token(s, at, "x86"@) || is_tail_token(s, at, "arm64"@)
}

/// The length of the operating system's name at `at`, if one stands there.
pub open spec fn os_name_len(s: Seq<char>, at: int) -> Option<int> {
    if matches_at_ignore_case(s, at, "osx"@) {
        Some("osx"@.len() as int)
    } else if matches_at_ignore_case(s, at, "win"@) {
        Some("win"@.len() as int)
    } else {
        None
    }
}

/// The platform tag that `s` holds from `at` to its end, if what stands there
/// is one: nothing at all; or a hyphen and an architecture; or a hyphen, an
/// operating system, at most one dot, digits and dots (the system's least
/// version, absent when empty), and after these nothing or a hyphen and an
/// architecture.
pub open spec fn platform_tag_at(s: Seq<char>, at: int) -> Option<PlatformTagView> {
    if at == s.len() {
        Some(PlatformTagView { os: None, os_min_ver: None, os_arch: None })
    } else if 0 <= at < s.len() && s[at] == '-' && os_name_len(s, at + 1) is Some {
        let os_end = at + 1 + os_name_len(s, at + 1)->0;
        let ver_start = if os_end < s.len() && s[os_end] == '.' {
            os_end + 1
        } else {
            os_end
        };
        let ver_end = os_version_end(s, ver_start);
        let os = Some(s.subrange(at + 1, os_end));
        let os_min_ver = if ver_start < ver_end {
            Some(s.subrange(ver_start, ver_end))
        } else {
            None
        };
        if ver_end == s.len() {
            Some(PlatformTagView { os, os_min_ver, os_arch: None })
        } else if is_arch_tail(s, ver_end) {
            Some(
                PlatformTagView {
                    os,
                    os_min_ver,
                    os_arch: Some(s.subrange(ver_end + 1, s.len() as int)),
                },
            )
        } else {
            None
        }
    } else if is_arch_tail(s, at) {
        Some(
            PlatformTagView {
                os: None,
                os_min_ver: None,
                os_arch: Some(s.subrange(at + 1, s.len() as int)),
            },
        )
    } else {
        None
    }
}

/// `at` is the first index from which `s` holds a platform tag to its end.
pub open spec fn is_platform_tag_start(s: Seq<char>, at: int) -> bool {
    &&& 0 <= at <= s.len()
    &&& platform_tag_at(s, at) is Some
    &&& forall|j: int| 0 <= j < at ==> platform_tag_at(s, j) is None
}

/// The first index from which `s` holds a platform tag to its end. There is
/// always one, for the empty tag stands at the end of every text.
pub open spec fn platform_tag_start(s: Seq<char>) -> int {
    choose|at: int| is_platform_tag_start(s, at)
}

// ---------------------------------------------------------------------------
// The whole name
// ---------------------------------------------------------------------------

/// What the name of an artifact says, or `None` where it is no package's name:
/// the package suffix is taken off; the package's name is what stands before
/// the first place where a version may start; behind it, the platform tag is
/// the longest one that the text ends with, and what stands before the tag
/// must be a semantic version.
pub open spec fn parse_file_name(name: Seq<char>) -> Option<EntryNameView> {
    match package_kind(name) {
        None => None,
        Some(is_delta) => {
            let stem = name.take(name.len() - package_suffix(is_delta).len());
            match first_version_start(stem) {
                None => None,
                Some(at) => {
                    let rest = stem.skip(at + 1);
                    let cut = platform_tag_start(rest);
                    let tag = platform_tag_at(rest, cut)->0;
                    match semver_parse(rest.take(cut)) {
                        None => None,
                        Some(version) => Some(
                            EntryNameView {
                                name: stem.take(at),
                                version,
                                is_delta,
                                file_path: Seq::empty(),
                                os: tag.os,
                                os_min_ver: tag.os_min_ver,
                                os_arch: tag.os_arch,
                            },
                        ),
                    }
                },
            }
        },
    }
}

// ---------------------------------------------------------------------------
// Lemmas
// ---------------------------------------------------------------------------

/// The first place where a version may start is the only one that is first.
pub proof fn lemma_first_version_start(s: Seq<char>, at: int)
    requires
        is_first_version_start(s, at),
    ensures
        first_version_start(s) == Some(at),
{
    let found = choose|i: int| is_first_version_start(s, i);
    assert(is_first_version_start(s, found));
    assert(version_starts_at(s, at));
    if found < at {
        assert(!version_starts_at(s, found));
    }
    if at < found {
        assert(!version_starts_at(s, at));
    }
}

/// Where no index is a version's start, there is no first one.
pub proof fn lemma_no_version_start(s: Seq<char>)
    requires
        forall|j: int| 0 <= j < s.len() ==> !version_starts_at(s, j),
    ensures
        first_version_start(s) is None,
{
}

/// The start of the platform tag is the only index that is the first.
pub proof fn lemma_platform_tag_start(s: Seq<char>, at: int)
    requires
        is_platform_tag_start(s, at),
    ensures
        platform_tag_start(s) == at,
{
    let found = choose|i: int| is_platform_tag_start(s, i);
    assert(is_platform_tag_start(s, found));
    if found < at {
        assert(platform_tag_at(s, found) is None);
    }
    if at < found {
        assert(platform_tag_at(s, at) is None);
    }
}

// ---------------------------------------------------------------------------
// Executable code
// ---------------------------------------------------------------------------

fn digits_end_chars(s: &Vec<char>, from: usize) -> (end: usize)
    requires
        from <= s.len(),
    ensures
        end == digits_end(s@, from as int),
        from <= end <= s.len(),
{
    let mut i: usize = from;
    while i < s.len() && is_digit_char(s[i])
        invariant
            from <= i <= s.len(),
            digits_end(s@, from as int) == digits_end(s@, i as int),
        decreases s.len() - i,
    {
        i += 1;
    }
    i
}

fn number_end_chars(s: &Vec<char>, from: usize) -> (r: Option<usize>)
    requires
        from <= s.len(),
    ensures
        match r {
            Some(end) => number_end(s@, from as int) == Some(end as int) && from < end <= s.len(),
            None => number_end(s@, from as int) is None,
        },
{
    let end = digits_end_chars(s, from);
    if end > from && (s[from] != '0' || end == from + 1) {
        Some(end)
    } else {
        None
    }
}

fn version_starts_at_chars(s: &Vec<char>, at: usize) -> (r: bool)
    requires
        at < s.len(),
    ensures
        r == version_starts_at(s@, at as int),
{
    if s[at] != '.' && s[at] != '-' {
        return false;
    }
    match number_end_chars(s, at + 1) {
        None => false,
        Some(dot) => {
            if dot < s.len() && s[dot] == '.' {
                number_end_chars(s, dot + 1).is_some()
            } else {
                false
            }
        },
    }
}

/// The first index of `s` behind which a version may start.
pub fn find_version_start(s: &Vec<char>) -> (r: Option<usize>)
    ensures
        match r {
            Some(at) => first_version_start(s@) == Some(at as int) && at < s.len(),
            None => first_version_start(s@) is None,
        },
{
    let mut i: usize = 0;
    while i < s.len()
        invariant
            i <= s.len(),
            forall|j: int| 0 <= j < i ==> !version_starts_at(s@, j),
        decreases s.len() - i,
    {
        if version_starts_at_chars(s, i) {
            proof {
                lemma_first_version_start(s@, i as int);
            }
            return Some(i);
        }
        i += 1;
    }
    proof {
        lemma_no_version_start(s@);
    }
    None
}

fn os_version_end_chars(s: &Vec<char>, from: usize) -> (end: usize)
    requires
        from <= s.len(),
    ensures
        end == os_version_end(s@, from as int),
        from <= end <= s.len(),
{
    let mut i: usize = from;
    while i < s.len() && (is_digit_char(s[i]) || s[i] == '.')
        invariant
            from <= i <= s.len(),
            os_version_end(s@, from as int) == os_version_end(s@, i as int),
        decreases s.len() - i,
    {
        i += 1;
    }
    i
}

fn is_tail_token_chars(s: &Vec<char>, at: usize, token: &Vec<char>) -> (r: bool)
    ensures
        r == is_tail_token(s@, at as int, token@),
{
    if at >= s.len() || s[at] != '-' {
        return false;
    }
    if s.len() - at - 1 != token.len() {
        return false;
    }
    matches_at_ignore_case_chars(s, at + 1, token)
}

fn is_arch_tail_chars(s: &Vec<char>, at: usize) -> (r: bool)
    ensures
        r == is_arch_tail(s@, at as int),
{
    let x64 = chars_of("x64");
    let x86 = chars_of("x86");
    let arm64 = chars_of("arm64");
    is_tail_token_chars(s, at, &x64) || is_tail_token_chars(s, at, &x86) || is_tail_token_chars(
        s,
        at,
        &arm64,
    )
}

fn os_name_len_chars(s: &Vec<char>, at: usize) -> (r: Option<usize>)
    ensures
        match r {
            Some(n) => os_name_len(s@, at as int) == Some(n as int) && at + n <= s.len(),
            None => os_name_len(s@, at as int) is None,
        },
{
    let osx = chars_of("osx");
    let win = chars_of("win");
    if matches_at_ignore_case_chars(s, at, &osx) {
        Some(osx.len())
    } else if matches_at_ignore_case_chars(s, at, &win) {
        Some(win.len())
    } else {
        None
    }
}

/// The platform tag that `s` holds from `at` to its end, if there is one.
pub fn platform_tag_at_chars(s: &Vec<char>, at: usize) -> (r: Option<PlatformTag>)
    requires
        at <= s.len(),
    ensures
        match r {
            Some(tag) => platform_tag_at(s@, at as int) == Some(tag@),
            None => platform_tag_at(s@, at as int) is None,
        },
{
    if at == s.len() {
        return Some(PlatformTag { os: None, os_min_ver: None, os_arch: None });
    }
    if s[at] == '-' {
        if let Some(n) = os_name_len_chars(s, at + 1) {
            let os_end: usize = at + 1 + n;
            let ver_start: usize = if os_end < s.len() && s[os_end] == '.' {
                os_end + 1
            } else {
                os_end
            };
            let ver_end = os_version_end_chars(s, ver_start);
            if ver_end != s.len() && !is_arch_tail_chars(s, ver_end) {
                return None;
            }
            let os = Some(string_of(s, at + 1, os_end));
            let os_min_ver = if ver_start < ver_end {
                Some(string_of(s, ver_start, ver_end))
            } else {
                None
            };
            let os_arch = if ver_end == s.len() {
                None
            } else {
                Some(string_of(s, ver_end + 1, s.len()))
            };
            return Some(PlatformTag { os, os_min_ver, os_arch });
        }
    }
    if is_arch_tail_chars(s, at) {
        Some(PlatformTag { os: None, os_min_ver: None, os_arch: Some(string_of(s, at + 1, s.len())) })
    } else {
        None
    }
}

/// Where the platform tag of `s` starts, and the tag.
pub fn find_platform_tag(s: &Vec<char>) -> (r: (usize, PlatformTag))
    ensures
        r.0 == platform_tag_start(s@),
        r.0 <= s.len(),
        platform_tag_at(s@, r.0 as int) == Some(r.1@),
{
    let mut i: usize = 0;
    loop
        invariant
            i <= s.len(),
            forall|j: int| 0 <= j < i ==> platform_tag_at(s@, j) is None,
        decreases s.len() - i,
    {
        if let Some(tag) = platform_tag_at_chars(s, i) {
            proof {
                lemma_platform_tag_start(s@, i as int);
            }
            return (i, tag);
        }
        i += 1;
    }
}

/// Whether `name` is a delta package's, a full package's, or neither, and
/// the length of `name` without the suffix.
fn split_suffix(name: &Vec<char>) -> (r: Option<(bool, usize)>)
    ensures
        match r {
            Some((is_delta, stem_len)) => package_kind(name@) == Some(is_delta) && stem_len
                == name.len() - package_suffix(is_delta).len(),
            None => package_kind(name@) is None,
        },
{
    let full = chars_of("-full.nupkg");
    let delta = chars_of("-delta.nupkg");
    if full.len() <= name.len() && matches_at_ignore_case_chars(
        name,
        name.len() - full.len(),
        &full,
    ) {
        Some((false, name.len() - full.len()))
    } else if delta.len() <= name.len() && matches_at_ignore_case_chars(
        name,
        name.len() - delta.len(),
        &delta,
    ) {
        Some((true, name.len() - delta.len()))
    } else {
        None
    }
}

/// Reads the name of a release artifact. The result is `None` unless the name
/// ends with the suffix of a full or a delta package and holds a semantic
/// version behind the package's name.
pub fn parse_package_file_name(name: &str) -> (r: Option<EntryNameInfo>)
    ensures
        match r {
            Some(info) => parse_file_name(name@) == Some(info@),
            None => parse_file_name(name@) is None,
        },
{
    let mut stem = chars_of(name);
    let (is_delta, stem_len) = match split_suffix(&stem) {
        Some(found) => found,
        None => {
            return None;
        },
    };
    stem.truncate(stem_len);
    assert(stem@ == name@.take(stem_len as int));
    let at = match find_version_start(&stem) {
        Some(at) => at,
        None => {
            return None;
        },
    };
    let rest = stem.split_off(at + 1);
    assert(rest@ == name@.take(stem_len as int).skip(at + 1));
    assert(stem@ =~= name@.take(stem_len as int).take(at as int + 1));
    let (cut, tag) = find_platform_tag(&rest);
    let version_text = string_of(&rest, 0, cut);
    assert(version_text@ == rest@.take(cut as int));
    let version = match Version::parse(version_text.as_str()) {
        Ok(version) => version,
        Err(_) => {
            return None;
        },
    };
    let package = string_of(&stem, 0, at);
    assert(package@ =~= name@.take(stem_len as int).take(at as int));
    Some(
        EntryNameInfo {
            name: package,
            version,
            is_delta,
            file_path: String::new(),
            os: tag.os,
            os_min_ver: tag.os_min_ver,
            os_arch: tag.os_arch,
        },
    )
}


/// What `parse_file_name` makes of `name`, with `path` noted as the place
/// the file was found at.
pub open spec fn parse_file_at(name: Seq<char>, path: Seq<char>) -> Option<EntryNameView> {
    match parse_file_name(name) {
        Some(info) => Some(EntryNameView { file_path: path, ..info }),
        None => None,
    }
}

/// Calls `std::path::Path::file_name` on `path` and copies the name out as
/// text (`to_string_lossy`). What counts as the last component of a path
/// differs between platforms, so the contract promises nothing of the result.
#[verifier::external_body]
fn path_file_name(path: &str) -> (r: Option<String>) {
    std::path::Path::new(path).file_name().map(|name| name.to_string_lossy().to_string())
}

/// Reads the name `file_name` of the release artifact found at `path`.
pub fn parse_package_file_at(file_name: &str, path: &str) -> (r: Option<EntryNameInfo>)
    ensures
        match r {
            Some(info) => parse_file_at(file_name@, path@) == Some(info@),
            None => parse_file_at(file_name@, path@) is None,
        },
{
    match parse_package_file_name(file_name) {
        Some(info) => {
            let mut info = info;
            let mut file_path = String::new();
            push_text(&mut file_path, path);
            assert(file_path@ =~= path@);
            info.file_path = file_path;
            Some(info)
        },
        None => None,
    }
}

/// What is read of the artifact at `path`, given what was found to be the
/// file's name in `path`: nothing where no name was found, else what
/// `parse_file_at` makes of the name.
pub open spec fn parse_file_found(found: Option<Seq<char>>, path: Seq<char>) -> Option<
    EntryNameView,
> {
    match found {
        Some(name) => parse_file_at(name, path),
        None => None,
    }
}

/// Reads the release artifact found at `path`, given the file's name in
/// `path`, or `None` where `path` holds no file name.
pub fn parse_package_file_found(found: Option<String>, path: &str) -> (r: Option<EntryNameInfo>)
    ensures
        match r {
            Some(info) => parse_file_found(text_view(found), path@) == Some(info@),
            None => parse_file_found(text_view(found), path@) is None,
        },
{
    match found {
        Some(name) => parse_package_file_at(name.as_str(), path),
        None => None,
    }
}

/// Reads the name of the release artifact at `path`. Whatever the platform
/// takes for the file's name in `path`, the result is what
/// `parse_package_file_found` makes of it; a path without a file name gives
/// `None`.
pub fn parse_package_file_path(path: &str) -> (r: Option<EntryNameInfo>)
    ensures
        r matches Some(info) ==> info.file_path@ == path@ && exists|name: Seq<char>|
            parse_file_at(name, path@) == Some(info@),
{
    let found = path_file_name(path);
    let ghost name = text_view(found);
    let r = parse_package_file_found(found, path);
    proof {
        if r is Some {
            assert(parse_file_at(name->0, path@) == Some(r->0@));
        }
    }
    r
}

} // verus!
