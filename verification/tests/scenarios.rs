//! Whole bundles, from the loader's report to the list of files that end up
//! in the bundle directory.

use cargo_appimage::bundle::{Action, Assembly, BundleError, Outcome, Progress};
use cargo_appimage::lister::dependencies_of_run;
use cargo_appimage::config::{Item, RawSettings, Setting};
use cargo_appimage::layout::BinaryTarget;
use cargo_appimage::lister::list_dependencies;
use cargo_appimage::materialize::{plan_copies, LinkTarget, StagedEntry};
use cargo_appimage::staging::plan_staging;

const REPORT: &str = "\tlinux-vdso.so.1 (0x00007ffd5a5f2000)\n\
                      \tlibfoo.so.1 => /usr/lib/libfoo.so.1 (0x00007f1c2a000000)\n\
                      \tlibbar.so.2 => /usr/lib/libbar.so.2 (0x00007f1c29c00000)\n";

fn binary(name: &str) -> BinaryTarget {
    BinaryTarget { name: name.to_string(), output_dir: "/out".to_string(), subdir: "release".to_string() }
}

fn raw(auto_link: bool, exclude: &[&str]) -> RawSettings {
    RawSettings {
        assets: Setting::Absent,
        auto_link: Setting::Flag(auto_link),
        args: Setting::Absent,
        auto_link_exclude_list: Setting::List(exclude.iter().map(|p| Item::Text(p.to_string())).collect()),
    }
}

/// Drives an assembly over a file system that holds the binary and whatever
/// the loader's report names, and returns the files written into the bundle.
fn bundled_files(name: &str, report: &str, auto_link: bool, exclude: &[&str]) -> Vec<String> {
    let settings = raw(auto_link, exclude).resolve().unwrap();
    let mut assembly = Assembly::new(binary(name), &settings, Some("/launcher".to_string()));
    let mut staged: Vec<StagedEntry> = Vec::new();
    let mut files: Vec<String> = Vec::new();
    while let Progress::Next(_) = assembly.progress {
        match assembly.next_action().unwrap() {
            Action::StageLibraries { binary: _, staging_dir } => {
                let links = plan_staging(&staging_dir, &list_dependencies(report), &Vec::new()).unwrap();
                for link in links {
                    staged.push(StagedEntry { name: Some(link.name), target: LinkTarget::Text(link.target) });
                }
            }
            Action::PlaceLibraries { staging_dir: _, root } => {
                for step in plan_copies(&root, &staged, &settings.exclusions).unwrap() {
                    files.push(step.destination);
                }
            }
            Action::CopyFile { from: _, to } => files.push(to),
            Action::WriteFile { path, contents: _ } => files.push(path),
            Action::ResetDir { .. } | Action::FindFile { .. } | Action::CopyInto { .. } => {}
        }
        assembly.report(Outcome::Succeeded);
    }
    assert_eq!(assembly.result(), Some(Ok(())));
    files
}

#[test]
fn bundle_holds_both_libraries_and_the_binary() {
    let files = bundled_files("app", REPORT, true, &[]);
    assert!(files.contains(&"/out/app.AppDir/usr/lib/libfoo.so.1".to_string()));
    assert!(files.contains(&"/out/app.AppDir/usr/lib/libbar.so.2".to_string()));
    assert!(files.contains(&"/out/app.AppDir/usr/bin/app".to_string()));
    assert_eq!(
        files,
        vec![
            "/out/app.AppDir/usr/lib/libfoo.so.1".to_string(),
            "/out/app.AppDir/usr/lib/libbar.so.2".to_string(),
            "/out/app.AppDir/usr/bin/app".to_string(),
            "/out/app.AppDir/icon.png".to_string(),
            "/out/app.AppDir/cargo-appimage.desktop".to_string(),
            "/out/app.AppDir/AppRun".to_string(),
        ]
    );
}

#[test]
fn excluded_library_is_absent_from_the_bundle() {
    let files = bundled_files("app", REPORT, true, &["libbar.*"]);
    assert!(files.contains(&"/out/app.AppDir/usr/lib/libfoo.so.1".to_string()));
    assert!(files.contains(&"/out/app.AppDir/usr/bin/app".to_string()));
    assert!(files.iter().all(|f| !f.contains("libbar")));
    assert_eq!(files.iter().filter(|f| f.starts_with("/out/app.AppDir/usr/lib")).count(), 1);
}

#[test]
fn no_library_tree_without_auto_link() {
    let files = bundled_files("app", REPORT, false, &[]);
    assert!(files.iter().all(|f| !f.starts_with("/out/app.AppDir/usr/lib")));
    assert!(files.contains(&"/out/app.AppDir/usr/bin/app".to_string()));
}

#[test]
fn two_binaries_bundle_their_own_library_of_the_same_name() {
    let one = bundled_files("one", "\tlibssl.so => /usr/lib/libssl.so (0x1)\n", true, &[]);
    let two = bundled_files("two", "\tlibssl.so => /opt/ssl/libssl.so (0x1)\n", true, &[]);
    assert!(one.contains(&"/out/one.AppDir/usr/lib/libssl.so".to_string()));
    assert!(!one.iter().any(|f| f.contains("/opt/ssl")));
    assert!(two.contains(&"/out/two.AppDir/opt/ssl/libssl.so".to_string()));
    assert!(!two.iter().any(|f| f.contains("/usr/lib")));
    assert!(one.iter().all(|f| f.starts_with("/out/one.AppDir/")));
    assert!(two.iter().all(|f| f.starts_with("/out/two.AppDir/")));
}

#[test]
fn missing_binary_leaves_the_bundle_empty_with_auto_link_on() {
    // Nothing exists on this file system: the build left no binary, so the
    // loader tool would fail on it as well.
    let settings = raw(true, &[]).resolve().unwrap();
    let mut assembly = Assembly::new(binary("app"), &settings, Some("/launcher".to_string()));
    let mut files: Vec<String> = Vec::new();
    while let Progress::Next(_) = assembly.progress {
        let outcome = match assembly.next_action().unwrap() {
            Action::ResetDir { .. } => Outcome::Succeeded,
            Action::FindFile { .. } => Outcome::Failed,
            Action::StageLibraries { .. } => match dependencies_of_run(false, Some("")) {
                Ok(_) => Outcome::Succeeded,
                Err(_) => Outcome::Failed,
            },
            Action::PlaceLibraries { .. } | Action::CopyInto { .. } => Outcome::Succeeded,
            Action::CopyFile { from: _, to } => {
                files.push(to);
                Outcome::Succeeded
            }
            Action::WriteFile { path, contents: _ } => {
                files.push(path);
                Outcome::Succeeded
            }
        };
        assembly.report(outcome);
    }
    assert_eq!(
        assembly.result(),
        Some(Err(BundleError::BinaryNotFound { path: "/out/release/app".to_string() }))
    );
    assert_eq!(files, Vec::<String>::new());
}
