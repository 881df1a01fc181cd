use vstd::prelude::*;
use crate::archive::{
    first_of_kind, has_kind, is_first_unreadable, lemma_first_of_kind_is_first, names_of,
    BundleInfo, EntryKind, EntryView,
};
use crate::error::BundleError;
use crate::layout::{join, join_path, native_path, to_native, Platform};
use crate::manifest::text_views;
use crate::text::{chars_of, ends_with, ends_with_chars, matches_at, matches_at_chars, string_of};

verus! {

/// A character that parts two parts of an entry's name.
pub open spec fn is_name_separator(c: char) -> bool {
    c == '/' || c == '\\'
}

/// The index of the first separator of `name` at or behind `from`, or the
/// length of `name` where there is none.
pub open spec fn segment_end(name: Seq<char>, from: int) -> int
    decreases name.len() - from,
{
    if 0 <= from < name.len() && !is_name_separator(name[from]) {
        segment_end(name, from + 1)
    } else {
        from
    }
}

/// The length of what a content entry's name starts with: `lib`, a
/// separator, one directory's name, a separator. `None` where the name does
/// not start so.
pub open spec fn content_root_len(name: Seq<char>) -> Option<int> {
    let lib = "lib"@.len() as int;
    if matches_at(name, 0, "lib"@) && lib < name.len() && is_name_separator(name[lib])
        && segment_end(name, lib + 1) < name.len() {
        Some(segment_end(name, lib + 1) + 1)
    } else {
        None
    }
}

/// The name is a directory's: it ends with a separator.
pub open spec fn is_directory_name(name: Seq<char>) -> bool {
    name.len() > 0 && is_name_separator(name.last())
}

/// The path is that of an execution stub, which is never installed.
pub open spec fn is_stub_path(path: Seq<char>) -> bool {
    ends_with(path, "_ExecutionStub.exe"@)
}

/// Where below the install root the entry named `name` goes: what follows
/// the content root in its name. `None` for an entry that is not installed:
/// one outside the content root, a directory, an execution stub.
pub open spec fn install_relative_path(name: Seq<char>) -> Option<Seq<char>> {
    match content_root_len(name) {
        None => None,
        Some(root_len) => if is_directory_name(name) || is_stub_path(name.skip(root_len)) {
            None
        } else {
            Some(name.skip(root_len))
        },
    }
}

/// The share of the work that is done when entry `index` of `total` has been
/// dealt with, in percent, rounded down.
pub open spec fn percent_done(index: int, total: int) -> int {
    index * 100 / total
}

/// What to do with one entry.
#[derive(Debug, Clone, PartialEq, Eq)]
pub enum ExtractAction {
    /// Leave it.
    Skip,
    /// Write its data to this path.
    Extract(String),
}

/// An `ExtractAction` with its path as a sequence of characters.
pub enum ExtractActionView {
    Skip,
    Extract(Seq<char>),
}

impl View for ExtractAction {
    type V = ExtractActionView;

    open spec fn view(&self) -> ExtractActionView {
        match self {
            ExtractAction::Skip => ExtractActionView::Skip,
            ExtractAction::Extract(path) => ExtractActionView::Extract(path@),
        }
    }
}

/// One step of an extraction: what to do with an entry, and the progress to
/// report when it is done.
#[derive(Debug, Clone, PartialEq, Eq)]
pub struct ExtractStep {
    pub action: ExtractAction,
    pub percent: i16,
}

/// How the content of a bundle is installed below a directory: first the
/// manifest entry is written to `manifest_path`, then each step is taken,
/// the step at index `i` for the entry at index `i`.
#[derive(Debug, Clone, PartialEq, Eq)]
pub struct ExtractionPlan {
    pub manifest_index: usize,
    pub manifest_path: String,
    pub steps: Vec<ExtractStep>,
}

/// What is done with the entry named `name`: it is skipped where it is the
/// self-updater or is not installed; else its data goes to its place below
/// `root`, written with the platform's separators.
pub open spec fn action_for(
    name: Seq<char>,
    is_updater: bool,
    root: Seq<char>,
    platform: Platform,
) -> ExtractActionView {
    match install_relative_path(name) {
        Some(relative) if !is_updater => ExtractActionView::Extract(
            native_path(platform, join_path(platform, root, relative)),
        ),
        _ => ExtractActionView::Skip,
    }
}

/// The step at `index` is the one for the entry at `index`.
pub open spec fn is_step_for(
    step: ExtractStep,
    entries: Seq<Option<EntryView>>,
    root: Seq<char>,
    platform: Platform,
    index: int,
) -> bool {
    &&& step.action@ == action_for(
        entries[index]->0.name,
        first_of_kind(entries, EntryKind::Updater) == Some(index),
        root,
        platform,
    )
    &&& step.percent == percent_done(index, entries.len() as int)
}

/// Progress never goes back, starts at nothing and stays below a hundred
/// percent.
pub proof fn lemma_progress_is_monotone(i: int, j: int, total: int)
    requires
        0 <= i <= j < total,
    ensures
        0 <= percent_done(i, total) <= percent_done(j, total) < 100,
        percent_done(0, total) == 0,
{
    assert(0 <= (i * 100) / total <= (j * 100) / total && (j * 100) / total < 100 && 0int * 100
        / total == 0) by (nonlinear_arith)
        requires
            0 <= i <= j < total,
    ;
}

/// What is extracted lies below the content root, is no directory and no
/// execution stub, and is not the self-updater.
pub proof fn lemma_extracted_is_content(
    name: Seq<char>,
    is_updater: bool,
    root: Seq<char>,
    platform: Platform,
)
    requires
        action_for(name, is_updater, root, platform) is Extract,
    ensures
        !is_updater,
        content_root_len(name) is Some,
        !is_directory_name(name),
        !is_stub_path(name.skip(content_root_len(name)->0)),
{
}

/// An entry that is installed and is not named as the self-updater is
/// extracted, to its place below the root.
pub proof fn lemma_content_is_extracted(
    step: ExtractStep,
    entries: Seq<Option<EntryView>>,
    root: Seq<char>,
    platform: Platform,
    index: int,
)
    requires
        0 <= index < entries.len(),
        entries[index] matches Some(entry) && install_relative_path(entry.name) is Some
            && !has_kind(entry.name, EntryKind::Updater),
        is_step_for(step, entries, root, platform, index),
    ensures
        step.action@ == ExtractActionView::Extract(
            native_path(
                platform,
                join_path(platform, root, install_relative_path(entries[index]->0.name)->0),
            ),
        ),
{
    lemma_first_of_kind_is_first(entries, EntryKind::Updater);
}

fn is_name_separator_char(c: char) -> (r: bool)
    ensures
        r == is_name_separator(c),
{
    c == '/' || c == '\\'
}

fn segment_end_chars(name: &Vec<char>, from: usize) -> (end: usize)
    requires
        from <= name.len(),
    ensures
        end == segment_end(name@, from as int),
        from <= end <= name.len(),
{
    let mut i: usize = from;
    while i < name.len() && !is_name_separator_char(name[i])
        invariant
            from <= i <= name.len(),
            segment_end(name@, from as int) == segment_end(name@, i as int),
        decreases name.len() - i,
    {
        i += 1;
    }
    i
}

/// Where below the install root the entry named `name` goes, if it is
/// installed at all.
pub fn install_relative(name: &str) -> (r: Option<String>)
    ensures
        match r {
            Some(path) => install_relative_path(name@) == Some(path@),
            None => install_relative_path(name@) is None,
        },
{
    let chars = chars_of(name);
    let lib = chars_of("lib");
    if !matches_at_chars(&chars, 0, &lib) {
        return None;
    }
    let at: usize = lib.len();
    if at >= chars.len() || !is_name_separator_char(chars[at]) {
        return None;
    }
    let end = segment_end_chars(&chars, at + 1);
    if end >= chars.len() {
        return None;
    }
    if is_name_separator_char(chars[chars.len() - 1]) {
        return None;
    }
    let relative = string_of(&chars, end + 1, chars.len());
    assert(relative@ =~= name@.skip(end + 1));
    let stub = chars_of("_ExecutionStub.exe");
    if ends_with_chars(&chars_of(relative.as_str()), &stub) {
        return None;
    }
    Some(relative)
}

/// The progress to report when entry `index` of `total` has been dealt with.
pub fn progress_percent(index: usize, total: usize) -> (p: i16)
    requires
        index < total,
    ensures
        p == percent_done(index as int, total as int),
        0 <= p < 100,
{
    proof {
        lemma_progress_is_monotone(index as int, index as int, total as int);
    }
    let scaled: u128 = (index as u128) * 100;
    (scaled / (total as u128)) as i16
}

impl BundleInfo {
    /// Plans the installation of the bundle's content below `current_path`.
    /// The plan fails where an entry cannot be opened, and where the bundle
    /// has no manifest: nothing is to be written in either case. Else it
    /// names the manifest entry, which goes to `sq.version` below
    /// `current_path`, and holds one step for each entry, in the order of
    /// the archive.
    pub fn plan_lib_extraction(&mut self, current_path: &str, platform: Platform) -> (r: Result<
        ExtractionPlan,
        BundleError,
    >)
        ensures
            final(self).entries() == old(self).entries(),
            final(self).origin() == old(self).origin(),
            match r {
                Ok(plan) => {
                    &&& forall|j: int|
                        0 <= j < old(self).entries().len() ==> #[trigger] old(self).entries()[j]
                            is Some
                    &&& first_of_kind(old(self).entries(), EntryKind::Manifest) == Some(
                        plan.manifest_index as int,
                    )
                    &&& plan.manifest_path@ == join_path(platform, current_path@, "sq.version"@)
                    &&& plan.steps.len() == old(self).entries().len()
                    &&& forall|i: int|
                        0 <= i < plan.steps.len() ==> is_step_for(
                            #[trigger] plan.steps[i],
                            old(self).entries(),
                            current_path@,
                            platform,
                            i,
                        )
                },
                Err(e) => {
                    ||| exists|at: int|
                        is_first_unreadable(old(self).entries(), at) && e
                            == BundleError::UnreadableEntry(at as usize)
                    ||| {
                        &&& forall|j: int|
                            0 <= j < old(self).entries().len() ==> #[trigger] old(
                                self,
                            ).entries()[j] is Some
                        &&& first_of_kind(old(self).entries(), EntryKind::Manifest) is None
                        &&& e == BundleError::MissingManifest
                    }
                },
            },
    {
        let names = match self.get_file_names() {
            Ok(names) => names,
            Err(e) => {
                return Err(e);
            },
        };
        let updater = self.find_entry(EntryKind::Updater);
        let manifest_index = match self.find_entry(EntryKind::Manifest) {
            Some(at) => at,
            None => {
                return Err(BundleError::MissingManifest);
            },
        };
        let manifest_path = join(platform, current_path, "sq.version");
        let total = names.len();
        assert(text_views(names@).len() == names@.len());
        assert(names_of(self.entries()).len() == self.entries().len());
        let mut steps: Vec<ExtractStep> = Vec::new();
        let mut i: usize = 0;
        while i < total
            invariant
                i <= total,
                total == names.len(),
                total == self.entries().len(),
                self.entries() == old(self).entries(),
                text_views(names@) == names_of(self.entries()),
                match updater {
                    Some(at) => first_of_kind(self.entries(), EntryKind::Updater) == Some(
                        at as int,
                    ),
                    None => first_of_kind(self.entries(), EntryKind::Updater) is None,
                },
                steps.len() == i,
                forall|k: int|
                    0 <= k < i ==> is_step_for(
                        #[trigger] steps[k],
                        self.entries(),
                        current_path@,
                        platform,
                        k,
                    ),
            decreases total - i,
        {
            let is_updater = match updater {
                Some(at) => at == i,
                None => false,
            };
            assert(names@[i as int]@ == text_views(names@)[i as int]);
            assert(names@[i as int]@ == self.entries()[i as int]->0.name);
            let action = match install_relative(names[i].as_str()) {
                Some(relative) => {
                    if is_updater {
                        ExtractAction::Skip
                    } else {
                        let joined = join(platform, current_path, relative.as_str());
                        ExtractAction::Extract(to_native(platform, joined.as_str()))
                    }
                },
                None => ExtractAction::Skip,
            };
            steps.push(ExtractStep { action, percent: progress_percent(i, total) });
            i += 1;
        }
        Ok(ExtractionPlan { manifest_index, manifest_path, steps })
    }
}

} // verus!
