//! The staging plan: which symbolic links to create in the staging directory
//! of one binary, so that every library it depends on is represented there
//! once, under its file name.
//!
//! A dependency is staged unless a link of its file name is already present
//! or an earlier dependency of the same list has that file name: the first
//! one wins and later ones are passed over. Entries that are not absolute
//! paths name nothing that could be linked and are passed over as well.

use vstd::prelude::*;
use crate::path::{
    file_name, file_name_of, final_component, is_absolute, is_absolute_path, join, join_paths,
};
use crate::text::contains_text;

verus! {

/// A symbolic link to create in the staging directory.
#[derive(Debug, Clone, PartialEq, Eq)]
pub struct StagedLink {
    /// Name of the link inside the staging directory: the file name of the
    /// library.
    pub name: String,
    /// Where the link is created: the staging directory joined with `name`.
    pub path: String,
    /// What the link points at: the library, by its absolute path.
    pub target: String,
}

/// What a `StagedLink` stands for.
pub struct Link {
    pub name: Seq<char>,
    pub path: Seq<char>,
    pub target: Seq<char>,
}

impl View for StagedLink {
    type V = Link;

    open spec fn view(&self) -> Link {
        Link { name: self.name@, path: self.path@, target: self.target@ }
    }
}

impl DeepView for StagedLink {
    type V = Link;

    open spec fn deep_view(&self) -> Link {
        self@
    }
}

/// A dependency from which no file name can be derived.
#[derive(Debug, Clone, Copy, PartialEq, Eq)]
pub struct NoFileName {
    /// Position of the first such dependency in the list.
    pub index: usize,
}

/// The link that stages `dependency` in `staging_dir`.
pub open spec fn link_for(staging_dir: Seq<char>, dependency: Seq<char>) -> Link {
    Link {
        name: final_component(dependency),
        path: join(staging_dir, final_component(dependency)),
        target: dependency,
    }
}

/// The links that stage `dependencies`, one for each and in their order.
pub open spec fn links_for(staging_dir: Seq<char>, dependencies: Seq<Seq<char>>) -> Seq<Link> {
    Seq::new(dependencies.len(), |i: int| link_for(staging_dir, dependencies[i]))
}

/// Every absolute path of the list has a file name.
pub open spec fn all_named(dependencies: Seq<Seq<char>>) -> bool {
    forall|i: int|
        0 <= i < dependencies.len() && is_absolute(#[trigger] dependencies[i]) ==> file_name(
            dependencies[i],
        ) is Some
}

/// Whether the dependency at `index` gets a link: it is an absolute path, no
/// link of its file name is present, and no absolute path before it in the
/// list has the same file name.
pub open spec fn is_new(dependencies: Seq<Seq<char>>, present: Set<Seq<char>>, index: int) -> bool {
    &&& is_absolute(dependencies[index])
    &&& !present.contains(final_component(dependencies[index]))
    &&& forall|j: int|
        0 <= j < index && is_absolute(#[trigger] dependencies[j]) ==> final_component(
            dependencies[j],
        ) != final_component(dependencies[index])
}

/// The dependencies that get a link, in the order of the list.
pub open spec fn newly_staged(dependencies: Seq<Seq<char>>, present: Set<Seq<char>>) -> Seq<
    Seq<char>,
>
    decreases dependencies.len(),
{
    if dependencies.len() == 0 {
        Seq::empty()
    } else {
        let earlier = newly_staged(dependencies.drop_last(), present);
        if is_new(dependencies, present, dependencies.len() - 1) {
            earlier.push(dependencies.last())
        } else {
            earlier
        }
    }
}

/// The file names under which `staged` is linked.
pub open spec fn staged_names(staged: Seq<Seq<char>>) -> Set<Seq<char>> {
    Set::new(|name: Seq<char>| exists|k: int| 0 <= k < staged.len() && final_component(#[trigger] staged[k]) == name)
}

/// After a list is staged, a name is represented in the staging directory
/// exactly if it was present before or is the file name of an absolute path
/// of the list.
pub proof fn lemma_staged_names(dependencies: Seq<Seq<char>>, present: Set<Seq<char>>)
    ensures
        forall|name: Seq<char>|
            #![trigger present.contains(name)]
            #![trigger staged_names(newly_staged(dependencies, present)).contains(name)]
            (present.contains(name) || staged_names(newly_staged(dependencies, present)).contains(
                name,
            )) <==> (present.contains(name) || exists|j: int|
                0 <= j < dependencies.len() && is_absolute(#[trigger] dependencies[j])
                    && final_component(dependencies[j]) == name),
        newly_staged(dependencies, present).len() <= dependencies.len(),
        forall|k: int|
            0 <= k < newly_staged(dependencies, present).len() ==> is_absolute(
                #[trigger] newly_staged(dependencies, present)[k],
            ),
    decreases dependencies.len(),
{
    let staged = newly_staged(dependencies, present);
    if dependencies.len() > 0 {
        let init = dependencies.drop_last();
        let earlier = newly_staged(init, present);
        let last = dependencies.len() - 1;
        lemma_staged_names(init, present);
        assert forall|name: Seq<char>|
            (present.contains(name) || staged_names(staged).contains(name)) <==> (present.contains(
                name,
            ) || exists|j: int|
                0 <= j < dependencies.len() && is_absolute(#[trigger] dependencies[j])
                    && final_component(dependencies[j]) == name) by {
            let left = present.contains(name) || staged_names(staged).contains(name);
            let right = present.contains(name) || exists|j: int|
                0 <= j < dependencies.len() && is_absolute(#[trigger] dependencies[j])
                    && final_component(dependencies[j]) == name;
            if left && !present.contains(name) {
                let k = choose|k: int|
                    0 <= k < staged.len() && final_component(#[trigger] staged[k]) == name;
                if k < earlier.len() {
                    assert(earlier[k] == staged[k]);
                    assert(staged_names(earlier).contains(name));
                    let j = choose|j: int|
                        0 <= j < init.len() && is_absolute(#[trigger] init[j]) && final_component(
                            init[j],
                        ) == name;
                    assert(dependencies[j] == init[j]);
                } else {
                    assert(staged[k] == dependencies[last]);
                }
                assert(right);
            }
            if right && !present.contains(name) {
                let j = choose|j: int|
                    0 <= j < dependencies.len() && is_absolute(#[trigger] dependencies[j])
                        && final_component(dependencies[j]) == name;
                if j < last {
                    assert(init[j] == dependencies[j]);
                    assert(staged_names(earlier).contains(name));
                    let k = choose|k: int|
                        0 <= k < earlier.len() && final_component(#[trigger] earlier[k]) == name;
                    assert(staged[k] == earlier[k]);
                } else if is_new(dependencies, present, last) {
                    assert(staged[earlier.len() as int] == dependencies[last]);
                } else {
                    let i = choose|i: int|
                        0 <= i < last && is_absolute(#[trigger] dependencies[i]) && final_component(
                            dependencies[i],
                        ) == name;
                    assert(init[i] == dependencies[i]);
                    assert(staged_names(earlier).contains(name));
                    let k = choose|k: int|
                        0 <= k < earlier.len() && final_component(#[trigger] earlier[k]) == name;
                    assert(staged[k] == earlier[k]);
                }
                assert(left);
            }
        }
        assert forall|k: int| 0 <= k < staged.len() implies is_absolute(#[trigger] staged[k]) by {
            if k < earlier.len() {
                assert(staged[k] == earlier[k]);
            }
        }
    }
}

/// Staging a list of absolute paths with pairwise distinct file names, none
/// of which is present yet, links every one of them: one link per path, in
/// the order of the list.
pub proof fn lemma_distinct_names_all_staged(dependencies: Seq<Seq<char>>, present: Set<Seq<char>>)
    requires
        forall|i: int| 0 <= i < dependencies.len() ==> is_absolute(#[trigger] dependencies[i]),
        forall|i: int, j: int|
            0 <= i < j < dependencies.len() ==> final_component(#[trigger] dependencies[i])
                != final_component(#[trigger] dependencies[j]),
        forall|i: int|
            0 <= i < dependencies.len() ==> !present.contains(
                final_component(#[trigger] dependencies[i]),
            ),
    ensures
        newly_staged(dependencies, present) == dependencies,
    decreases dependencies.len(),
{
    if dependencies.len() > 0 {
        let init = dependencies.drop_last();
        lemma_distinct_names_all_staged(init, present);
        assert(is_new(dependencies, present, dependencies.len() - 1));
        assert(init.push(dependencies.last()) == dependencies);
    }
}

/// Nothing is staged from a list whose absolute paths all have their file
/// name present already.
pub proof fn lemma_present_names_not_staged(dependencies: Seq<Seq<char>>, present: Set<Seq<char>>)
    requires
        forall|i: int|
            0 <= i < dependencies.len() && is_absolute(#[trigger] dependencies[i])
                ==> present.contains(final_component(dependencies[i])),
    ensures
        newly_staged(dependencies, present) == Seq::<Seq<char>>::empty(),
    decreases dependencies.len(),
{
    if dependencies.len() > 0 {
        let init = dependencies.drop_last();
        assert forall|i: int| 0 <= i < init.len() && is_absolute(#[trigger] init[i]) implies present.contains(
            final_component(init[i]),
        ) by {
            assert(init[i] == dependencies[i]);
        }
        lemma_present_names_not_staged(init, present);
    }
}

/// Staging is idempotent: once the links of a run exist, a second run over
/// the same list creates none.
pub proof fn lemma_second_run_stages_nothing(dependencies: Seq<Seq<char>>, present: Set<Seq<char>>)
    ensures
        newly_staged(
            dependencies,
            present.union(staged_names(newly_staged(dependencies, present))),
        ) == Seq::<Seq<char>>::empty(),
{
    let first = newly_staged(dependencies, present);
    let after = present.union(staged_names(first));
    lemma_staged_names(dependencies, present);
    assert forall|i: int|
        0 <= i < dependencies.len() && is_absolute(#[trigger] dependencies[i]) implies after.contains(
        final_component(dependencies[i]),
    ) by {
        let name = final_component(dependencies[i]);
        assert(present.contains(name) || staged_names(first).contains(name));
    }
    lemma_present_names_not_staged(dependencies, after);
}

/// Whether one of `links` has the name `name`.
fn link_named(links: &Vec<StagedLink>, name: &String) -> (found: bool)
    ensures
        found == exists|k: int| 0 <= k < links.len() && (#[trigger] links[k]).name@ == name@,
{
    let mut index: usize = 0;
    while index < links.len()
        invariant
            index <= links.len(),
            forall|k: int| 0 <= k < index ==> (#[trigger] links[k]).name@ != name@,
        decreases links.len() - index,
    {
        if links[index].name == *name {
            return true;
        }
        index += 1;
    }
    false
}

/// Plans the links that stage `dependencies` in `staging_dir`, where links
/// of the names in `present` exist already.
///
/// The plan holds one link for each dependency that `newly_staged` selects,
/// in the order of the list. No plan is made if an absolute path of the list
/// has no file name: the first such path is reported instead.
pub fn plan_staging(staging_dir: &str, dependencies: &Vec<String>, present: &Vec<String>) -> (plan:
    Result<Vec<StagedLink>, NoFileName>)
    ensures
        plan is Ok <==> all_named(dependencies.deep_view()),
        plan matches Ok(links) ==> links.deep_view() == links_for(
            staging_dir@,
            newly_staged(dependencies.deep_view(), present.deep_view().to_set()),
        ),
        plan matches Err(fault) ==> {
            &&& fault.index < dependencies.len()
            &&& is_absolute(dependencies[fault.index as int]@)
            &&& file_name(dependencies[fault.index as int]@) is None
            &&& all_named(dependencies.deep_view().take(fault.index as int))
        },
{
    let ghost all = dependencies.deep_view();
    let ghost known = present.deep_view().to_set();
    let mut links: Vec<StagedLink> = Vec::new();
    let mut index: usize = 0;
    assert(links.deep_view() == links_for(staging_dir@, newly_staged(all.take(0), known)));
    while index < dependencies.len()
        invariant
            index <= dependencies.len(),
            all == dependencies.deep_view(),
            known == present.deep_view().to_set(),
            all_named(all.take(index as int)),
            links.deep_view() == links_for(
                staging_dir@,
                newly_staged(all.take(index as int), known),
            ),
        decreases dependencies.len() - index,
    {
        let dependency = &dependencies[index];
        let ghost seen = all.take(index as int);
        let ghost next = all.take(index + 1);
        let ghost staged = newly_staged(seen, known);
        let ghost before = links.deep_view();
        proof {
            assert(all[index as int] == dependency@);
            assert(next.drop_last() == seen);
            assert(next.last() == dependency@);
            lemma_staged_names(seen, known);
        }
        if is_absolute_path(dependency.as_str()) {
            match file_name_of(dependency.as_str()) {
                None => {
                    assert(!all_named(all));
                    return Err(NoFileName { index });
                },
                Some(name) => {
                    let is_present = contains_text(present, &name);
                    let is_planned = link_named(&links, &name);
                    proof {
                        assert(name@ == final_component(dependency@));
                        assert(is_present == known.contains(name@));
                        assert(before.len() == links.len() && before.len() == staged.len());
                        if is_planned {
                            let k = choose|k: int|
                                0 <= k < links.len() && (#[trigger] links[k]).name@ == name@;
                            assert(before[k] == links[k]@);
                            assert(before[k] == link_for(staging_dir@, staged[k]));
                            assert(final_component(staged[k]) == name@);
                        }
                        if staged_names(staged).contains(name@) {
                            let k = choose|k: int|
                                0 <= k < staged.len() && final_component(#[trigger] staged[k])
                                    == name@;
                            assert(before[k] == links[k]@);
                            assert(before[k] == link_for(staging_dir@, staged[k]));
                        }
                        assert(is_planned == staged_names(staged).contains(name@));
                        if is_present || is_planned {
                            if !is_present {
                                let j = choose|j: int|
                                    0 <= j < seen.len() && is_absolute(#[trigger] seen[j])
                                        && final_component(seen[j]) == name@;
                                assert(next[j] == seen[j]);
                            }
                            assert(!is_new(next, known, index as int));
                        } else {
                            assert forall|j: int|
                                0 <= j < index && is_absolute(
                                    #[trigger] next[j],
                                ) implies final_component(next[j]) != name@ by {
                                assert(seen[j] == next[j]);
                            }
                            assert(is_new(next, known, index as int));
                        }
                    }
                    if !is_present && !is_planned {
                        let path = join_paths(staging_dir, name.as_str());
                        let link = StagedLink { name, path, target: dependency.clone() };
                        links.push(link);
                        assert(links.deep_view() == before.push(
                            link_for(staging_dir@, dependency@),
                        ));
                        assert(links.deep_view() == links_for(
                            staging_dir@,
                            staged.push(dependency@),
                        ));
                    }
                },
            }
        } else {
            assert(!is_new(next, known, index as int));
        }
        assert forall|i: int| 0 <= i < next.len() && is_absolute(#[trigger] next[i]) implies file_name(
            next[i],
        ) is Some by {
            if i < index {
                assert(seen[i] == next[i]);
            }
        }
        index += 1;
    }
    assert(all.take(index as int) == all);
    Ok(links)
}

} // verus!
