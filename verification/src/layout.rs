//! Where things are for one binary: the built artifact, the bundle directory
//! that is assembled for it, the places inside that directory, and the final
//! artifact that the bundling tool writes.
//!
//! For a binary `app` and a build output directory `<out>`, the bundle is
//! `<out>/app.AppDir` and holds `usr/bin/app`, the staging directory `libs`,
//! `icon.png`, `cargo-appimage.desktop` and `AppRun`. The final artifact is
//! `<out>/appimage/app.AppImage`.

use vstd::prelude::*;
use crate::path::{join, join_paths};

verus! {

/// A binary that the build step produces.
#[derive(Debug, Clone, PartialEq, Eq)]
pub struct BinaryTarget {
    /// Name of the executable.
    pub name: String,
    /// The build output directory.
    pub output_dir: String,
    /// The directory below `output_dir` that the build puts the binary in:
    /// the profile, after the target triple where one is given.
    pub subdir: String,
}

/// What a `BinaryTarget` stands for.
pub struct Binary {
    pub name: Seq<char>,
    pub output_dir: Seq<char>,
    pub subdir: Seq<char>,
}

impl View for BinaryTarget {
    type V = Binary;

    open spec fn view(&self) -> Binary {
        Binary { name: self.name@, output_dir: self.output_dir@, subdir: self.subdir@ }
    }
}

impl Binary {
    /// Where the build step puts the binary.
    pub open spec fn built_path(self) -> Seq<char> {
        join(join(self.output_dir, self.subdir), self.name)
    }

    /// The bundle directory of the binary.
    pub open spec fn bundle_root(self) -> Seq<char> {
        join(self.output_dir, self.name + ".AppDir"@)
    }

    /// The directory `usr` of the bundle.
    pub open spec fn usr_dir(self) -> Seq<char> {
        join(self.bundle_root(), "usr"@)
    }

    /// The directory `usr/bin` of the bundle.
    pub open spec fn bin_dir(self) -> Seq<char> {
        join(self.bundle_root(), "usr/bin"@)
    }

    /// Where the bundle holds the binary.
    pub open spec fn installed_path(self) -> Seq<char> {
        join(self.bin_dir(), self.name)
    }

    /// The staging directory of the binary.
    pub open spec fn staging_dir(self) -> Seq<char> {
        join(self.bundle_root(), "libs"@)
    }

    /// Where the bundle holds its icon.
    pub open spec fn icon_path(self) -> Seq<char> {
        join(self.bundle_root(), "icon.png"@)
    }

    /// Where the bundle holds its desktop entry.
    pub open spec fn desktop_entry_path(self) -> Seq<char> {
        join(self.bundle_root(), "cargo-appimage.desktop"@)
    }

    /// Where the bundle holds its entry point.
    pub open spec fn entry_point_path(self) -> Seq<char> {
        join(self.bundle_root(), "AppRun"@)
    }

    /// The directory that receives the final artifacts.
    pub open spec fn artifact_dir(self) -> Seq<char> {
        join(self.output_dir, "appimage"@)
    }

    /// The final artifact of the binary.
    pub open spec fn artifact_path(self) -> Seq<char> {
        join(self.artifact_dir(), self.name + ".AppImage"@)
    }

    /// The desktop entry of the bundle: the binary's name is both the name
    /// shown and the command run.
    pub open spec fn desktop_entry(self) -> Seq<char> {
        "[Desktop Entry]\nName="@ + self.name + "\nExec="@ + self.name
            + "\nIcon=icon\nType=Application\nCategories=Utility;"@
    }

    /// What the bundling tool is run with: the extra arguments, the bundle
    /// directory, and the final artifact.
    pub open spec fn bundler_arguments(self, extra: Seq<Seq<char>>) -> Seq<Seq<char>> {
        extra + seq![self.bundle_root(), self.artifact_path()]
    }
}

/// Where the icon of a package is looked for, from the package root.
pub open spec fn icon_source() -> Seq<char> {
    "./icon.png"@
}

impl BinaryTarget {
    /// Where the build step puts the binary.
    pub fn built_path(&self) -> (path: String)
        ensures
            path@ == self@.built_path(),
    {
        let dir = join_paths(self.output_dir.as_str(), self.subdir.as_str());
        join_paths(dir.as_str(), self.name.as_str())
    }

    /// The bundle directory of the binary.
    pub fn bundle_root(&self) -> (path: String)
        ensures
            path@ == self@.bundle_root(),
    {
        let mut dir = self.name.clone();
        dir.append(".AppDir");
        join_paths(self.output_dir.as_str(), dir.as_str())
    }

    /// The directory `usr` of the bundle.
    pub fn usr_dir(&self) -> (path: String)
        ensures
            path@ == self@.usr_dir(),
    {
        join_paths(self.bundle_root().as_str(), "usr")
    }

    /// The directory `usr/bin` of the bundle.
    pub fn bin_dir(&self) -> (path: String)
        ensures
            path@ == self@.bin_dir(),
    {
        join_paths(self.bundle_root().as_str(), "usr/bin")
    }

    /// Where the bundle holds the binary.
    pub fn installed_path(&self) -> (path: String)
        ensures
            path@ == self@.installed_path(),
    {
        join_paths(self.bin_dir().as_str(), self.name.as_str())
    }

    /// The staging directory of the binary.
    pub fn staging_dir(&self) -> (path: String)
        ensures
            path@ == self@.staging_dir(),
    {
        join_paths(self.bundle_root().as_str(), "libs")
    }

    /// Where the bundle holds its icon.
    pub fn icon_path(&self) -> (path: String)
        ensures
            path@ == self@.icon_path(),
    {
        join_paths(self.bundle_root().as_str(), "icon.png")
    }

    /// Where the bundle holds its desktop entry.
    pub fn desktop_entry_path(&self) -> (path: String)
        ensures
            path@ == self@.desktop_entry_path(),
    {
        join_paths(self.bundle_root().as_str(), "cargo-appimage.desktop")
    }

    /// Where the bundle holds its entry point.
    pub fn entry_point_path(&self) -> (path: String)
        ensures
            path@ == self@.entry_point_path(),
    {
        join_paths(self.bundle_root().as_str(), "AppRun")
    }

    /// The directory that receives the final artifacts.
    pub fn artifact_dir(&self) -> (path: String)
        ensures
            path@ == self@.artifact_dir(),
    {
        join_paths(self.output_dir.as_str(), "appimage")
    }

    /// The final artifact of the binary.
    pub fn artifact_path(&self) -> (path: String)
        ensures
            path@ == self@.artifact_path(),
    {
        let mut file = self.name.clone();
        file.append(".AppImage");
        join_paths(self.artifact_dir().as_str(), file.as_str())
    }

    /// The text of the bundle's desktop entry.
    pub fn desktop_entry(&self) -> (entry: String)
        ensures
            entry@ == self@.desktop_entry(),
    {
        let mut entry = "[Desktop Entry]\nName=".to_owned();
        entry.append(self.name.as_str());
        entry.append("\nExec=");
        entry.append(self.name.as_str());
        entry.append("\nIcon=icon\nType=Application\nCategories=Utility;");
        entry
    }

    /// The arguments to run the bundling tool with, after the `extra` ones
    /// that the package configures.
    pub fn bundler_arguments(&self, extra: &Vec<String>) -> (arguments: Vec<String>)
        ensures
            arguments.deep_view() == self@.bundler_arguments(extra.deep_view()),
    {
        let mut arguments: Vec<String> = Vec::new();
        let mut index: usize = 0;
        while index < extra.len()
            invariant
                index <= extra.len(),
                arguments.deep_view() == extra.deep_view().take(index as int),
            decreases extra.len() - index,
        {
            let ghost before = arguments.deep_view();
            arguments.push(extra[index].clone());
            assert(arguments.deep_view() == before.push(extra[index as int]@));
            index += 1;
        }
        assert(extra.deep_view().take(index as int) == extra.deep_view());
        let ghost copied = arguments.deep_view();
        let root = self.bundle_root();
        let artifact = self.artifact_path();
        arguments.push(root);
        arguments.push(artifact);
        assert(arguments.deep_view() == copied + seq![self@.bundle_root(), self@.artifact_path()]);
        arguments
    }
}

} // verus!
