use cargo_appimage::build_args::{artifact_subdir_of, build_request_of, option_value_of, profile_of};

fn strings(items: &[&str]) -> Vec<String> {
    items.iter().map(|s| s.to_string()).collect()
}

#[test]
fn release_is_the_default_profile() {
    assert_eq!(profile_of(&Vec::new()), "release");
    assert_eq!(artifact_subdir_of(&Vec::new()), "release");
    assert_eq!(build_request_of(&Vec::new()), strings(&["build", "--release"]));
}

#[test]
fn named_profile_replaces_release() {
    let args = strings(&["--features", "gui", "--profile=dist"]);
    assert_eq!(profile_of(&args), "dist");
    assert_eq!(artifact_subdir_of(&args), "dist");
    assert_eq!(build_request_of(&args), strings(&["build", "--features", "gui", "--profile=dist"]));
}

#[test]
fn target_triple_comes_before_the_profile() {
    let args = strings(&["--target=x86_64-unknown-linux-musl"]);
    assert_eq!(artifact_subdir_of(&args), "x86_64-unknown-linux-musl/release");
    assert_eq!(build_request_of(&args), strings(&["build", "--release", "--target=x86_64-unknown-linux-musl"]));
    let args = strings(&["--profile=dist", "--target=aarch64-unknown-linux-gnu"]);
    assert_eq!(artifact_subdir_of(&args), "aarch64-unknown-linux-gnu/dist");
}

#[test]
fn first_of_repeated_options_counts() {
    let args = strings(&["--profile=one", "--profile=two", "--target=a", "--target=b"]);
    assert_eq!(profile_of(&args), "one");
    assert_eq!(artifact_subdir_of(&args), "a/one");
}

#[test]
fn option_must_begin_the_argument() {
    let args = strings(&["x--profile=dist", "--profile", "--profil=dist", "-profile=dist"]);
    assert_eq!(option_value_of(&args, "--profile="), None);
    assert_eq!(profile_of(&args), "release");
}

#[test]
fn option_value_may_be_empty() {
    let args = strings(&["--profile="]);
    assert_eq!(option_value_of(&args, "--profile="), Some(String::new()));
    assert_eq!(profile_of(&args), "");
    assert_eq!(build_request_of(&args), strings(&["build", "--profile="]));
}
