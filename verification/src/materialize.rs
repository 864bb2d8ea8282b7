//! The bundle-tree plan: for every staged library that no exclusion pattern
//! suppresses, the copy that reproduces the library's absolute path below
//! the bundle root.
//!
//! `/usr/lib/libfoo.so.1` is copied to `<root>/usr/lib/libfoo.so.1`, after
//! `<root>/usr/lib` has been created. The copies are of the libraries
//! themselves, never of the links that stage them.

use vstd::prelude::*;
use crate::exclude::{excluded, lemma_exclusion_ignores_order, ExclusionSet};
use crate::path::{
    final_component, is_absolute, is_absolute_path, join, lemma_name_start,
    lemma_parent_and_name, lemma_rebase_absolute, parent, parent_of, rebase, rebase_under,
};

verus! {

/// What reading the target of a staged entry gave.
#[derive(Debug, Clone, PartialEq, Eq)]
pub enum LinkTarget {
    /// The entry could not be read as a symbolic link.
    Unreadable,
    /// The entry is a link, but its target is not valid text.
    NotText,
    /// The target of the link.
    Text(String),
}

/// An entry of the staging directory.
#[derive(Debug, Clone, PartialEq, Eq)]
pub struct StagedEntry {
    /// The entry's file name, or `None` if it is not valid text. Exclusion
    /// patterns are tested against it, so an entry without one is never
    /// excluded.
    pub name: Option<String>,
    /// The entry's link target.
    pub target: LinkTarget,
}

/// One library to place in the bundle.
#[derive(Debug, Clone, PartialEq, Eq)]
pub struct CopyStep {
    /// The library on the host: the target of the staged link.
    pub source: String,
    /// The directory to create first, with all its ancestors.
    pub directory: String,
    /// Where the bytes of the library are copied to.
    pub destination: String,
}

/// Why the target of a staged entry cannot be placed in the bundle.
#[derive(Debug, Clone, Copy, PartialEq, Eq, Structural)]
pub enum TargetFault {
    /// The link target could not be read.
    Unreadable,
    /// The link target is not valid text.
    NotText,
    /// The link target is not an absolute path.
    NotAbsolute,
}

/// A staged entry that is not excluded and whose target cannot be placed.
#[derive(Debug, Clone, Copy, PartialEq, Eq)]
pub struct BadTarget {
    /// Position of the first such entry in the list.
    pub index: usize,
    /// What is wrong with its target.
    pub fault: TargetFault,
}

/// What a `LinkTarget` stands for.
pub enum Target {
    Unreadable,
    NotText,
    Text(Seq<char>),
}

/// What a `StagedEntry` stands for.
pub struct Entry {
    pub name: Option<Seq<char>>,
    pub target: Target,
}

/// What a `CopyStep` stands for.
pub struct Placement {
    pub source: Seq<char>,
    pub directory: Seq<char>,
    pub destination: Seq<char>,
}

impl View for LinkTarget {
    type V = Target;

    open spec fn view(&self) -> Target {
        match self {
            LinkTarget::Unreadable => Target::Unreadable,
            LinkTarget::NotText => Target::NotText,
            LinkTarget::Text(text) => Target::Text(text@),
        }
    }
}

impl View for StagedEntry {
    type V = Entry;

    open spec fn view(&self) -> Entry {
        Entry { name: self.name.deep_view(), target: self.target@ }
    }
}

impl DeepView for StagedEntry {
    type V = Entry;

    open spec fn deep_view(&self) -> Entry {
        self@
    }
}

impl View for CopyStep {
    type V = Placement;

    open spec fn view(&self) -> Placement {
        Placement { source: self.source@, directory: self.directory@, destination: self.destination@ }
    }
}

impl DeepView for CopyStep {
    type V = Placement;

    open spec fn deep_view(&self) -> Placement {
        self@
    }
}

/// The copy that places the library at the absolute path `target` below
/// `root`.
pub open spec fn copy_for(root: Seq<char>, target: Seq<char>) -> Placement {
    Placement { source: target, directory: root + parent(target), destination: rebase(root, target) }
}

/// An entry is skipped when it has a name that the patterns exclude.
pub open spec fn is_skipped(patterns: Seq<Seq<char>>, entry: Entry) -> bool {
    entry.name matches Some(name) && excluded(patterns, name)
}

/// What is wrong with an entry, if anything: nothing if it is skipped,
/// else whatever keeps its target from being placed.
pub open spec fn entry_fault(patterns: Seq<Seq<char>>, entry: Entry) -> Option<TargetFault> {
    if is_skipped(patterns, entry) {
        None
    } else {
        match entry.target {
            Target::Unreadable => Some(TargetFault::Unreadable),
            Target::NotText => Some(TargetFault::NotText),
            Target::Text(target) => if is_absolute(target) {
                None
            } else {
                Some(TargetFault::NotAbsolute)
            },
        }
    }
}

/// The library that an entry contributes to the bundle, if any: the target
/// of an entry that is not skipped, where that is an absolute path.
pub open spec fn placed_library(patterns: Seq<Seq<char>>, entry: Entry) -> Option<Seq<char>> {
    if is_skipped(patterns, entry) {
        None
    } else {
        match entry.target {
            Target::Text(target) => if is_absolute(target) {
                Some(target)
            } else {
                None
            },
            _ => None,
        }
    }
}

/// Every entry is either skipped or has a target that can be placed.
pub open spec fn all_placeable(patterns: Seq<Seq<char>>, entries: Seq<Entry>) -> bool {
    forall|i: int| 0 <= i < entries.len() ==> entry_fault(patterns, #[trigger] entries[i]) is None
}

/// The copies that materialize `entries` below `root`: one for each entry
/// that contributes a library, in the order of the entries.
pub open spec fn copies(root: Seq<char>, patterns: Seq<Seq<char>>, entries: Seq<Entry>) -> Seq<Placement>
    decreases entries.len(),
{
    if entries.len() == 0 {
        Seq::empty()
    } else {
        let earlier = copies(root, patterns, entries.drop_last());
        match placed_library(patterns, entries.last()) {
            Some(target) => earlier.push(copy_for(root, target)),
            None => earlier,
        }
    }
}

/// The copy of a library goes to the library's own absolute path, read below
/// the bundle root, and the directory made for it is the one that holds that
/// place.
pub proof fn lemma_copy_mirrors_path(root: Seq<char>, target: Seq<char>)
    requires
        is_absolute(target),
    ensures
        copy_for(root, target).source == target,
        copy_for(root, target).destination == root + target,
        copy_for(root, target).destination == copy_for(root, target).directory + seq!['/']
            + final_component(target),
{
    lemma_rebase_absolute(root, target);
    lemma_name_start(target);
    lemma_parent_and_name(target);
    assert(root + join(parent(target), final_component(target)) =~= root + parent(target)
        + seq!['/'] + final_component(target));
}

/// Every library that an entry contributes is copied: the plan holds the
/// copy that places it at its own path below the root.
pub proof fn lemma_kept_library_is_copied(
    root: Seq<char>,
    patterns: Seq<Seq<char>>,
    entries: Seq<Entry>,
    index: int,
)
    requires
        0 <= index < entries.len(),
        placed_library(patterns, entries[index]) is Some,
    ensures
        copies(root, patterns, entries).contains(
            copy_for(root, placed_library(patterns, entries[index])->0),
        ),
    decreases entries.len(),
{
    let init = entries.drop_last();
    let earlier = copies(root, patterns, init);
    let all = copies(root, patterns, entries);
    if index == entries.len() - 1 {
        assert(all[earlier.len() as int] == copy_for(
            root,
            placed_library(patterns, entries[index])->0,
        ));
    } else {
        assert(init[index] == entries[index]);
        lemma_kept_library_is_copied(root, patterns, init, index);
        let wanted = copy_for(root, placed_library(patterns, entries[index])->0);
        let k = choose|k: int| 0 <= k < earlier.len() && earlier[k] == wanted;
        assert(all[k] == wanted);
    }
}

/// Every copy of the plan stems from an entry that is not skipped: it places
/// the library that this entry contributes.
pub proof fn lemma_copy_has_kept_entry(
    root: Seq<char>,
    patterns: Seq<Seq<char>>,
    entries: Seq<Entry>,
    step: int,
) -> (index: int)
    requires
        0 <= step < copies(root, patterns, entries).len(),
    ensures
        0 <= index < entries.len(),
        placed_library(patterns, entries[index]) is Some,
        copies(root, patterns, entries)[step] == copy_for(
            root,
            placed_library(patterns, entries[index])->0,
        ),
    decreases entries.len(),
{
    let init = entries.drop_last();
    let earlier = copies(root, patterns, init);
    if step < earlier.len() {
        let index = lemma_copy_has_kept_entry(root, patterns, init, step);
        assert(init[index] == entries[index]);
        index
    } else {
        entries.len() - 1
    }
}

/// An excluded library is absent from the bundle: where every entry is named
/// after its target, as staging names it, no copy of the plan goes to the
/// place of a library whose file name the patterns exclude.
pub proof fn lemma_excluded_library_is_not_copied(
    root: Seq<char>,
    patterns: Seq<Seq<char>>,
    entries: Seq<Entry>,
    library: Seq<char>,
)
    requires
        forall|i: int|
            0 <= i < entries.len() ==> ((#[trigger] entries[i]).target matches Target::Text(target)
                ==> entries[i].name == Some(final_component(target))),
        excluded(patterns, final_component(library)),
    ensures
        forall|k: int|
            0 <= k < copies(root, patterns, entries).len() ==> (#[trigger] copies(
                root,
                patterns,
                entries,
            )[k]).destination != root + library,
{
    let all = copies(root, patterns, entries);
    assert forall|k: int| 0 <= k < all.len() implies (#[trigger] all[k]).destination != root
        + library by {
        let i = lemma_copy_has_kept_entry(root, patterns, entries, k);
        let target = placed_library(patterns, entries[i])->0;
        lemma_rebase_absolute(root, target);
        if root + target == root + library {
            assert((root + target).skip(root.len() as int) =~= target);
            assert((root + library).skip(root.len() as int) =~= library);
            assert(is_skipped(patterns, entries[i]));
        }
    }
}

/// The plan does not depend on the order of the patterns: two lists that
/// hold the same patterns the same number of times give the same copies.
pub proof fn lemma_copies_ignore_pattern_order(
    root: Seq<char>,
    first: Seq<Seq<char>>,
    second: Seq<Seq<char>>,
    entries: Seq<Entry>,
)
    requires
        first.to_multiset() == second.to_multiset(),
    ensures
        copies(root, first, entries) == copies(root, second, entries),
        all_placeable(first, entries) == all_placeable(second, entries),
    decreases entries.len(),
{
    assert forall|i: int| 0 <= i < entries.len() implies entry_fault(first, #[trigger] entries[i])
        == entry_fault(second, entries[i]) by {
        if let Some(name) = entries[i].name {
            lemma_exclusion_ignores_order(first, second, name);
        }
    }
    if entries.len() > 0 {
        lemma_copies_ignore_pattern_order(root, first, second, entries.drop_last());
        if let Some(name) = entries.last().name {
            lemma_exclusion_ignores_order(first, second, name);
        }
    }
}

/// The copy that places the library at the absolute path `target` below
/// `root`.
pub fn copy_step(root: &str, target: &str) -> (step: CopyStep)
    requires
        is_absolute(target@),
    ensures
        step@ == copy_for(root@, target@),
{
    let mut directory = root.to_owned();
    directory.append(parent_of(target).as_str());
    CopyStep {
        source: target.to_owned(),
        directory,
        destination: rebase_under(root, target),
    }
}

/// Plans the copies that materialize `entries` below `root`.
///
/// Entries whose name a pattern of `exclusions` matches are skipped, whatever
/// their target. Every other entry must have a readable, textual, absolute
/// target and gets the copy that mirrors it; the first one that has none is
/// reported instead, and no plan is made.
pub fn plan_copies(root: &str, entries: &Vec<StagedEntry>, exclusions: &ExclusionSet) -> (plan:
    Result<Vec<CopyStep>, BadTarget>)
    ensures
        plan is Ok <==> all_placeable(exclusions@, entries.deep_view()),
        plan matches Ok(steps) ==> steps.deep_view() == copies(
            root@,
            exclusions@,
            entries.deep_view(),
        ),
        plan matches Err(bad) ==> {
            &&& bad.index < entries.len()
            &&& entry_fault(exclusions@, entries[bad.index as int]@) == Some(bad.fault)
            &&& all_placeable(exclusions@, entries.deep_view().take(bad.index as int))
        },
{
    let ghost all = entries.deep_view();
    let mut steps: Vec<CopyStep> = Vec::new();
    let mut index: usize = 0;
    assert(steps.deep_view() == copies(root@, exclusions@, all.take(0)));
    while index < entries.len()
        invariant
            index <= entries.len(),
            all == entries.deep_view(),
            all_placeable(exclusions@, all.take(index as int)),
            steps.deep_view() == copies(root@, exclusions@, all.take(index as int)),
        decreases entries.len() - index,
    {
        let entry = &entries[index];
        let ghost seen = all.take(index as int);
        let ghost next = all.take(index + 1);
        let ghost before = steps.deep_view();
        proof {
            assert(all[index as int] == entry@);
            assert(next.drop_last() == seen);
            assert(next.last() == entry@);
        }
        let skipped = match &entry.name {
            Some(name) => exclusions.excludes(name.as_str()),
            None => false,
        };
        assert(skipped == is_skipped(exclusions@, entry@));
        if !skipped {
            match &entry.target {
                LinkTarget::Unreadable => {
                    return Err(BadTarget { index, fault: TargetFault::Unreadable });
                },
                LinkTarget::NotText => {
                    return Err(BadTarget { index, fault: TargetFault::NotText });
                },
                LinkTarget::Text(target) => {
                    if !is_absolute_path(target.as_str()) {
                        return Err(BadTarget { index, fault: TargetFault::NotAbsolute });
                    }
                    let step = copy_step(root, target.as_str());
                    steps.push(step);
                    assert(steps.deep_view() == before.push(copy_for(root@, target@)));
                },
            }
        }
        assert forall|i: int| 0 <= i < next.len() implies entry_fault(
            exclusions@,
            #[trigger] next[i],
        ) is None by {
            if i < index {
                assert(seen[i] == next[i]);
            }
        }
        index += 1;
    }
    assert(all.take(index as int) == all);
    Ok(steps)
}

} // verus!
