use cargo_appimage::locate::{launcher_location_of, manifest_location_of, package_location_of};

#[test]
fn explicit_package_location_is_taken_as_given() {
    assert_eq!(package_location_of(Some("/work/pkg"), "/cwd", Some("other")), "/work/pkg");
    assert_eq!(package_location_of(Some("rel/Cargo.toml"), "/cwd", None), "rel/Cargo.toml");
}

#[test]
fn named_package_is_read_from_the_current_directory() {
    assert_eq!(package_location_of(None, "/cwd", Some("member")), "/cwd/member");
    assert_eq!(package_location_of(None, "/cwd", Some("/abs/member")), "/abs/member");
    assert_eq!(package_location_of(None, "/cwd", None), "/cwd/");
}

#[test]
fn manifest_lies_in_a_package_directory() {
    assert_eq!(manifest_location_of("/work/pkg", true), "/work/pkg/Cargo.toml");
    assert_eq!(manifest_location_of("/work/pkg/Other.toml", false), "/work/pkg/Other.toml");
}

#[test]
fn launcher_is_in_the_bin_directory_of_the_tool_home() {
    assert_eq!(launcher_location_of("/home/u", None), "/home/u/.cargo/bin/cargo-appimage-runner");
    assert_eq!(launcher_location_of("/home/u", Some("/opt/cargo")), "/opt/cargo/bin/cargo-appimage-runner");
    assert_eq!(launcher_location_of("/home/u", Some("tools")), "/home/u/tools/bin/cargo-appimage-runner");
}

#[test]
fn manifest_location_adds_no_second_separator() {
    assert_eq!(manifest_location_of("/cwd/", true), "/cwd/Cargo.toml");
    assert_eq!(manifest_location_of(&package_location_of(None, "/cwd", None), true), "/cwd/Cargo.toml");
}

#[test]
fn launcher_below_an_empty_home_is_a_relative_path() {
    assert_eq!(launcher_location_of("", None), ".cargo/bin/cargo-appimage-runner");
    assert_eq!(launcher_location_of("", Some("tools/")), "tools/bin/cargo-appimage-runner");
    assert_eq!(launcher_location_of("/", None), "/.cargo/bin/cargo-appimage-runner");
}
