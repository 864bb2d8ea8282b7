use cargo_appimage::layout::BinaryTarget;

fn app() -> BinaryTarget {
    BinaryTarget {
        name: "app".to_string(),
        output_dir: "/proj/target".to_string(),
        subdir: "release".to_string(),
    }
}

#[test]
fn built_binary_is_in_the_profile_directory() {
    assert_eq!(app().built_path(), "/proj/target/release/app");
    let cross = BinaryTarget { subdir: "x86_64-unknown-linux-musl/dist".to_string(), ..app() };
    assert_eq!(cross.built_path(), "/proj/target/x86_64-unknown-linux-musl/dist/app");
}

#[test]
fn bundle_is_laid_out_below_its_root() {
    let b = app();
    assert_eq!(b.bundle_root(), "/proj/target/app.AppDir");
    assert_eq!(b.usr_dir(), "/proj/target/app.AppDir/usr");
    assert_eq!(b.bin_dir(), "/proj/target/app.AppDir/usr/bin");
    assert_eq!(b.installed_path(), "/proj/target/app.AppDir/usr/bin/app");
    assert_eq!(b.staging_dir(), "/proj/target/app.AppDir/libs");
    assert_eq!(b.icon_path(), "/proj/target/app.AppDir/icon.png");
    assert_eq!(b.desktop_entry_path(), "/proj/target/app.AppDir/cargo-appimage.desktop");
    assert_eq!(b.entry_point_path(), "/proj/target/app.AppDir/AppRun");
}

#[test]
fn final_artifact_is_named_after_the_binary() {
    assert_eq!(app().artifact_dir(), "/proj/target/appimage");
    assert_eq!(app().artifact_path(), "/proj/target/appimage/app.AppImage");
}

#[test]
fn desktop_entry_names_the_binary_twice() {
    assert_eq!(
        app().desktop_entry(),
        "[Desktop Entry]\nName=app\nExec=app\nIcon=icon\nType=Application\nCategories=Utility;"
    );
}

#[test]
fn bundler_gets_extra_arguments_then_bundle_then_artifact() {
    let extra = vec!["-u".to_string(), "info".to_string()];
    assert_eq!(
        app().bundler_arguments(&extra),
        vec![
            "-u".to_string(),
            "info".to_string(),
            "/proj/target/app.AppDir".to_string(),
            "/proj/target/appimage/app.AppImage".to_string(),
        ]
    );
    assert_eq!(
        app().bundler_arguments(&Vec::new()),
        vec!["/proj/target/app.AppDir".to_string(), "/proj/target/appimage/app.AppImage".to_string()]
    );
}

#[test]
fn bundles_of_two_binaries_are_disjoint() {
    let one = app();
    let two = BinaryTarget { name: "tool".to_string(), ..app() };
    assert_eq!(two.bundle_root(), "/proj/target/tool.AppDir");
    assert_ne!(one.bundle_root(), two.bundle_root());
    assert_ne!(one.staging_dir(), two.staging_dir());
    assert_ne!(one.artifact_path(), two.artifact_path());
}
