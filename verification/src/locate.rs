//! Where the files that surround a build are found: the manifest of the
//! package and the launcher that becomes the entry point of every bundle.

use vstd::prelude::*;
use crate::path::{resolve, resolve_from};

verus! {

/// File name of a package manifest.
pub open spec fn manifest_name() -> Seq<char> {
    "Cargo.toml"@
}

/// File name of the installed launcher.
pub open spec fn launcher_name() -> Seq<char> {
    "cargo-appimage-runner"@
}

/// The home of the build tool where the environment names none, relative to
/// the user's home directory.
pub open spec fn default_tool_home() -> Seq<char> {
    ".cargo"@
}

/// What a borrowed optional string stands for.
pub open spec fn text_of(text: Option<&str>) -> Option<Seq<char>> {
    match text {
        Some(text) => Some(text@),
        None => None,
    }
}

/// Where the package is: at `explicit` if that is given, else at `package`
/// read from the current directory, which is the current directory itself
/// where no package is named.
pub open spec fn package_location(
    explicit: Option<Seq<char>>,
    current_dir: Seq<char>,
    package: Option<Seq<char>>,
) -> Seq<char> {
    match explicit {
        Some(location) => location,
        None => resolve(
            current_dir,
            match package {
                Some(name) => name,
                None => Seq::empty(),
            },
        ),
    }
}

/// Where the manifest of the package at `location` is: in it, if it is a
/// directory, else `location` is the manifest.
pub open spec fn manifest_location(location: Seq<char>, is_directory: bool) -> Seq<char> {
    if is_directory {
        resolve(location, manifest_name())
    } else {
        location
    }
}

/// Where the build tool installs the launcher: in `bin` below its home,
/// which is `tool_home` read from the user's home directory.
pub open spec fn launcher_location(home: Seq<char>, tool_home: Option<Seq<char>>) -> Seq<char> {
    resolve(
        resolve(
            resolve(
                home,
                match tool_home {
                    Some(dir) => dir,
                    None => default_tool_home(),
                },
            ),
            "bin"@,
        ),
        launcher_name(),
    )
}

/// Where the package is, given the location and the package name that the
/// environment holds, if any.
pub fn package_location_of(explicit: Option<&str>, current_dir: &str, package: Option<&str>) -> (location:
    String)
    ensures
        location@ == package_location(text_of(explicit), current_dir@, text_of(package)),
{
    match explicit {
        Some(location) => location.to_owned(),
        None => match package {
            Some(name) => resolve_from(current_dir, name),
            None => {
                let empty = String::new();
                resolve_from(current_dir, empty.as_str())
            },
        },
    }
}

/// Where the manifest of the package at `location` is.
pub fn manifest_location_of(location: &str, is_directory: bool) -> (manifest: String)
    ensures
        manifest@ == manifest_location(location@, is_directory),
{
    if is_directory {
        resolve_from(location, "Cargo.toml")
    } else {
        location.to_owned()
    }
}

/// Where the launcher is installed, given the user's home directory and the
/// home of the build tool that the environment names, if any.
pub fn launcher_location_of(home: &str, tool_home: Option<&str>) -> (launcher: String)
    ensures
        launcher@ == launcher_location(home@, text_of(tool_home)),
{
    let tool_dir = match tool_home {
        Some(dir) => resolve_from(home, dir),
        None => resolve_from(home, ".cargo"),
    };
    let bin_dir = resolve_from(tool_dir.as_str(), "bin");
    resolve_from(bin_dir.as_str(), "cargo-appimage-runner")
}

} // verus!
