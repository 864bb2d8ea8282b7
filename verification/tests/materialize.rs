use cargo_appimage::exclude::ExclusionSet;
use cargo_appimage::materialize::{
    copy_step, plan_copies, BadTarget, CopyStep, LinkTarget, StagedEntry, TargetFault,
};

fn patterns(items: &[&str]) -> ExclusionSet {
    ExclusionSet::new(items.iter().map(|s| s.to_string()).collect()).unwrap()
}

fn entry(name: &str, target: &str) -> StagedEntry {
    StagedEntry { name: Some(name.to_string()), target: LinkTarget::Text(target.to_string()) }
}

fn step(source: &str, directory: &str, destination: &str) -> CopyStep {
    CopyStep {
        source: source.to_string(),
        directory: directory.to_string(),
        destination: destination.to_string(),
    }
}

#[test]
fn library_is_copied_to_its_own_path_below_the_root() {
    assert_eq!(
        copy_step("/out/app.AppDir", "/usr/lib/libfoo.so.1"),
        step("/usr/lib/libfoo.so.1", "/out/app.AppDir/usr/lib", "/out/app.AppDir/usr/lib/libfoo.so.1")
    );
}

#[test]
fn library_in_the_root_directory_goes_to_the_bundle_root() {
    assert_eq!(copy_step("/out/app.AppDir", "/libx.so"), step("/libx.so", "/out/app.AppDir", "/out/app.AppDir/libx.so"));
}

#[test]
fn every_entry_is_copied_without_exclusions() {
    let entries = vec![
        entry("libfoo.so.1", "/usr/lib/libfoo.so.1"),
        entry("libbar.so.2", "/usr/lib/x86_64-linux-gnu/libbar.so.2"),
    ];
    let plan = plan_copies("/b", &entries, &ExclusionSet::empty()).unwrap();
    assert_eq!(
        plan,
        vec![
            step("/usr/lib/libfoo.so.1", "/b/usr/lib", "/b/usr/lib/libfoo.so.1"),
            step(
                "/usr/lib/x86_64-linux-gnu/libbar.so.2",
                "/b/usr/lib/x86_64-linux-gnu",
                "/b/usr/lib/x86_64-linux-gnu/libbar.so.2"
            ),
        ]
    );
}

#[test]
fn excluded_entry_is_not_copied() {
    let entries = vec![
        entry("libfoo.so.1", "/usr/lib/libfoo.so.1"),
        entry("libbar.so.2", "/usr/lib/libbar.so.2"),
    ];
    let plan = plan_copies("/b", &entries, &patterns(&["libbar.*"])).unwrap();
    assert_eq!(plan, vec![step("/usr/lib/libfoo.so.1", "/b/usr/lib", "/b/usr/lib/libfoo.so.1")]);
    assert!(plan.iter().all(|s| !s.destination.contains("libbar")));
}

#[test]
fn exclusion_goes_by_the_entry_name_not_the_target() {
    let entries = vec![entry("alias.so", "/usr/lib/libbar.so.2"), entry("libbar.so.2", "/usr/lib/other.so")];
    let plan = plan_copies("/b", &entries, &patterns(&["libbar.*"])).unwrap();
    assert_eq!(plan, vec![step("/usr/lib/libbar.so.2", "/b/usr/lib", "/b/usr/lib/libbar.so.2")]);
}

#[test]
fn pattern_order_does_not_change_the_plan() {
    let entries = vec![
        entry("libfoo.so.1", "/usr/lib/libfoo.so.1"),
        entry("libc.so.6", "/lib/libc.so.6"),
        entry("libbar.so.2", "/usr/lib/libbar.so.2"),
    ];
    let one = plan_copies("/b", &entries, &patterns(&["libbar.*", "libc.*"])).unwrap();
    let two = plan_copies("/b", &entries, &patterns(&["libc.*", "libbar.*"])).unwrap();
    assert_eq!(one, two);
    assert_eq!(one, vec![step("/usr/lib/libfoo.so.1", "/b/usr/lib", "/b/usr/lib/libfoo.so.1")]);
}

#[test]
fn unreadable_target_is_fatal() {
    let entries = vec![
        entry("libfoo.so.1", "/usr/lib/libfoo.so.1"),
        StagedEntry { name: Some("plain-file".to_string()), target: LinkTarget::Unreadable },
    ];
    assert_eq!(
        plan_copies("/b", &entries, &ExclusionSet::empty()),
        Err(BadTarget { index: 1, fault: TargetFault::Unreadable })
    );
}

#[test]
fn target_that_is_not_text_is_fatal() {
    let entries = vec![StagedEntry { name: Some("odd".to_string()), target: LinkTarget::NotText }];
    assert_eq!(
        plan_copies("/b", &entries, &ExclusionSet::empty()),
        Err(BadTarget { index: 0, fault: TargetFault::NotText })
    );
}

#[test]
fn relative_target_is_fatal() {
    let entries = vec![entry("a", "/x/a"), entry("b", "../b"), entry("c", "")];
    assert_eq!(
        plan_copies("/b", &entries, &ExclusionSet::empty()),
        Err(BadTarget { index: 1, fault: TargetFault::NotAbsolute })
    );
}

#[test]
fn excluded_entry_may_have_any_target() {
    let entries = vec![
        StagedEntry { name: Some("skip-1".to_string()), target: LinkTarget::Unreadable },
        StagedEntry { name: Some("skip-2".to_string()), target: LinkTarget::NotText },
        entry("skip-3", "relative"),
        entry("keep", "/x/keep"),
    ];
    let plan = plan_copies("/b", &entries, &patterns(&["skip-?"])).unwrap();
    assert_eq!(plan, vec![step("/x/keep", "/b/x", "/b/x/keep")]);
}

#[test]
fn entry_without_textual_name_is_never_excluded() {
    let entries = vec![StagedEntry { name: None, target: LinkTarget::Text("/x/odd".to_string()) }];
    let plan = plan_copies("/b", &entries, &patterns(&["*"])).unwrap();
    assert_eq!(plan, vec![step("/x/odd", "/b/x", "/b/x/odd")]);
}

#[test]
fn empty_staging_directory_gives_empty_plan() {
    assert_eq!(plan_copies("/b", &Vec::new(), &patterns(&["*"])).unwrap(), Vec::<CopyStep>::new());
}
