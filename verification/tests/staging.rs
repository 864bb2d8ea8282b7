use cargo_appimage::staging::{plan_staging, NoFileName, StagedLink};

fn strings(items: &[&str]) -> Vec<String> {
    items.iter().map(|s| s.to_string()).collect()
}

fn link(name: &str, path: &str, target: &str) -> StagedLink {
    StagedLink { name: name.to_string(), path: path.to_string(), target: target.to_string() }
}

fn names(links: &[StagedLink]) -> Vec<String> {
    links.iter().map(|l| l.name.clone()).collect()
}

#[test]
fn distinct_names_get_one_link_each() {
    let deps = strings(&["/usr/lib/libfoo.so.1", "/usr/lib/libbar.so.2", "/lib64/ld-linux-x86-64.so.2"]);
    let plan = plan_staging("/out/app.AppDir/libs", &deps, &Vec::new()).unwrap();
    assert_eq!(
        plan,
        vec![
            link("libfoo.so.1", "/out/app.AppDir/libs/libfoo.so.1", "/usr/lib/libfoo.so.1"),
            link("libbar.so.2", "/out/app.AppDir/libs/libbar.so.2", "/usr/lib/libbar.so.2"),
            link(
                "ld-linux-x86-64.so.2",
                "/out/app.AppDir/libs/ld-linux-x86-64.so.2",
                "/lib64/ld-linux-x86-64.so.2"
            ),
        ]
    );
}

#[test]
fn second_run_creates_no_links() {
    let deps = strings(&["/usr/lib/libfoo.so.1", "/usr/lib/libbar.so.2", "/opt/x/libfoo.so.1"]);
    let first = plan_staging("libs", &deps, &Vec::new()).unwrap();
    assert_eq!(first.len(), 2);
    let second = plan_staging("libs", &deps, &names(&first)).unwrap();
    assert_eq!(second, Vec::<StagedLink>::new());
}

#[test]
fn second_run_after_partial_staging_adds_the_rest() {
    let deps = strings(&["/usr/lib/libfoo.so.1", "/usr/lib/libbar.so.2"]);
    let present = strings(&["libfoo.so.1", "unrelated"]);
    let plan = plan_staging("libs", &deps, &present).unwrap();
    assert_eq!(plan, vec![link("libbar.so.2", "libs/libbar.so.2", "/usr/lib/libbar.so.2")]);
    let mut after = present.clone();
    after.extend(names(&plan));
    assert_eq!(plan_staging("libs", &deps, &after).unwrap(), Vec::<StagedLink>::new());
}

#[test]
fn first_of_two_libraries_with_one_name_wins() {
    let deps = strings(&["/usr/lib/libssl.so", "/opt/ssl/libssl.so", "/usr/lib/libz.so"]);
    let plan = plan_staging("libs", &deps, &Vec::new()).unwrap();
    assert_eq!(
        plan,
        vec![
            link("libssl.so", "libs/libssl.so", "/usr/lib/libssl.so"),
            link("libz.so", "libs/libz.so", "/usr/lib/libz.so"),
        ]
    );
}

#[test]
fn repeated_dependency_is_linked_once() {
    let deps = strings(&["/usr/lib/libfoo.so.1", "/usr/lib/libfoo.so.1"]);
    let plan = plan_staging("libs", &deps, &Vec::new()).unwrap();
    assert_eq!(plan, vec![link("libfoo.so.1", "libs/libfoo.so.1", "/usr/lib/libfoo.so.1")]);
}

#[test]
fn relative_entries_are_passed_over() {
    let deps = strings(&["linux-vdso.so.1", "not", "", "lib/", "/usr/lib/libfoo.so.1"]);
    let plan = plan_staging("libs", &deps, &Vec::new()).unwrap();
    assert_eq!(plan, vec![link("libfoo.so.1", "libs/libfoo.so.1", "/usr/lib/libfoo.so.1")]);
}

#[test]
fn relative_entry_does_not_shadow_a_later_library() {
    let deps = strings(&["libfoo.so.1", "/usr/lib/libfoo.so.1"]);
    let plan = plan_staging("libs", &deps, &Vec::new()).unwrap();
    assert_eq!(plan, vec![link("libfoo.so.1", "libs/libfoo.so.1", "/usr/lib/libfoo.so.1")]);
}

#[test]
fn path_without_file_name_is_fatal() {
    let deps = strings(&["/usr/lib/libfoo.so.1", "/usr/lib/", "/", "/usr/lib/libbar.so.2"]);
    assert_eq!(plan_staging("libs", &deps, &Vec::new()), Err(NoFileName { index: 1 }));
    assert_eq!(plan_staging("libs", &strings(&["/"]), &Vec::new()), Err(NoFileName { index: 0 }));
    assert_eq!(plan_staging("libs", &strings(&["/a/.."]), &Vec::new()), Err(NoFileName { index: 0 }));
}

#[test]
fn path_without_file_name_is_fatal_even_if_everything_is_present() {
    let deps = strings(&["/usr/lib/libfoo.so.1", "/usr/lib/"]);
    let present = strings(&["libfoo.so.1", "lib", ""]);
    assert_eq!(plan_staging("libs", &deps, &present), Err(NoFileName { index: 1 }));
}

#[test]
fn no_dependencies_no_links() {
    assert_eq!(plan_staging("libs", &Vec::new(), &strings(&["a"])).unwrap(), Vec::<StagedLink>::new());
}

#[test]
fn binaries_stage_independently() {
    // Two binaries, each with its own staging directory, each depending on
    // a different library of the same name.
    let first = plan_staging("/out/one.AppDir/libs", &strings(&["/usr/lib/libssl.so"]), &Vec::new()).unwrap();
    let second = plan_staging("/out/two.AppDir/libs", &strings(&["/opt/ssl/libssl.so"]), &Vec::new()).unwrap();
    assert_eq!(first, vec![link("libssl.so", "/out/one.AppDir/libs/libssl.so", "/usr/lib/libssl.so")]);
    assert_eq!(second, vec![link("libssl.so", "/out/two.AppDir/libs/libssl.so", "/opt/ssl/libssl.so")]);
}
