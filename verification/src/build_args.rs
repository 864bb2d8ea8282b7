//! The arguments of the build step, and where they make it put the binary.
//!
//! The build is asked for the `release` profile unless an argument of the
//! form `--profile=<name>` asks for another. A binary built for the host
//! lands in a directory named after the profile; with `--target=<triple>` it
//! lands in `<triple>/<profile>`. Where an option is given more than once,
//! the first one counts.

use vstd::prelude::*;
use crate::path::{join, join_paths};
use crate::text::chars_of;

verus! {

/// The option that names the build profile.
pub open spec fn profile_key() -> Seq<char> {
    "--profile="@
}

/// The option that names the target triple.
pub open spec fn target_key() -> Seq<char> {
    "--target="@
}

/// The profile that is built when no argument names one.
pub open spec fn default_profile() -> Seq<char> {
    "release"@
}

/// The value of the first argument that begins with `key`: all that follows
/// the key in it.
pub open spec fn option_value(args: Seq<Seq<char>>, key: Seq<char>) -> Option<Seq<char>>
    decreases args.len(),
{
    if args.len() == 0 {
        None
    } else if key.is_prefix_of(args[0]) {
        Some(args[0].skip(key.len() as int))
    } else {
        option_value(args.skip(1), key)
    }
}

/// The profile that the arguments ask for.
pub open spec fn profile(args: Seq<Seq<char>>) -> Seq<char> {
    match option_value(args, profile_key()) {
        Some(name) => name,
        None => default_profile(),
    }
}

/// The directory below the build output directory that receives the binary.
pub open spec fn artifact_subdir(args: Seq<Seq<char>>) -> Seq<char> {
    match option_value(args, target_key()) {
        Some(triple) => join(triple, profile(args)),
        None => profile(args),
    }
}

/// The arguments handed to the build tool: `build`, then `--release` unless
/// the arguments name a profile, then the arguments themselves.
pub open spec fn build_request(args: Seq<Seq<char>>) -> Seq<Seq<char>> {
    if option_value(args, profile_key()) is None {
        seq!["build"@, "--release"@] + args
    } else {
        seq!["build"@] + args
    }
}

/// What follows `key` in `arg`, if `arg` begins with `key`.
fn value_after(arg: &str, key: &str) -> (value: Option<String>)
    ensures
        value is Some <==> key@.is_prefix_of(arg@),
        value matches Some(rest) ==> rest@ == arg@.skip(key@.len() as int),
{
    let text = chars_of(arg);
    let wanted = chars_of(key);
    if wanted.len() > text.len() {
        return None;
    }
    let mut index: usize = 0;
    while index < wanted.len()
        invariant
            index <= wanted.len() <= text.len(),
            text@ == arg@,
            wanted@ == key@,
            forall|i: int| 0 <= i < index ==> text@[i] == wanted@[i],
        decreases wanted.len() - index,
    {
        if text[index] != wanted[index] {
            assert(arg@.subrange(0, key@.len() as int)[index as int] != key@[index as int]);
            return None;
        }
        index += 1;
    }
    assert(key@ =~= arg@.subrange(0, key@.len() as int));
    Some(arg.substring_char(wanted.len(), text.len()).to_owned())
}

/// The value of the first of `args` that begins with `key`.
pub fn option_value_of(args: &Vec<String>, key: &str) -> (value: Option<String>)
    ensures
        value.deep_view() == option_value(args.deep_view(), key@),
{
    let ghost all = args.deep_view();
    let mut index: usize = 0;
    assert(all.skip(0) == all);
    while index < args.len()
        invariant
            index <= args.len(),
            all == args.deep_view(),
            option_value(all, key@) == option_value(all.skip(index as int), key@),
        decreases args.len() - index,
    {
        assert(all.skip(index as int)[0] == args[index as int]@);
        assert(all.skip(index as int).skip(1) == all.skip(index + 1));
        match value_after(args[index].as_str(), key) {
            Some(value) => {
                return Some(value);
            },
            None => {},
        }
        index += 1;
    }
    None
}

/// The profile that `args` ask for.
pub fn profile_of(args: &Vec<String>) -> (name: String)
    ensures
        name@ == profile(args.deep_view()),
{
    match option_value_of(args, "--profile=") {
        Some(name) => name,
        None => "release".to_owned(),
    }
}

/// The directory below the build output directory that receives the binary
/// when the build is run with `args`.
pub fn artifact_subdir_of(args: &Vec<String>) -> (subdir: String)
    ensures
        subdir@ == artifact_subdir(args.deep_view()),
{
    let name = profile_of(args);
    match option_value_of(args, "--target=") {
        Some(triple) => join_paths(triple.as_str(), name.as_str()),
        None => name,
    }
}

/// The arguments to hand to the build tool for the user's `args`.
pub fn build_request_of(args: &Vec<String>) -> (request: Vec<String>)
    ensures
        request.deep_view() == build_request(args.deep_view()),
{
    let mut request: Vec<String> = Vec::new();
    request.push("build".to_owned());
    if option_value_of(args, "--profile=").is_none() {
        request.push("--release".to_owned());
    }
    let ghost head = request.deep_view();
    assert(head == if option_value(args.deep_view(), profile_key()) is None {
        seq!["build"@, "--release"@]
    } else {
        seq!["build"@]
    });
    let mut index: usize = 0;
    while index < args.len()
        invariant
            index <= args.len(),
            request.deep_view() == head + args.deep_view().take(index as int),
        decreases args.len() - index,
    {
        let ghost before = request.deep_view();
        request.push(args[index].clone());
        assert(request.deep_view() == before.push(args[index as int]@));
        assert(args.deep_view().take(index + 1) == args.deep_view().take(index as int).push(
            args[index as int]@,
        ));
        index += 1;
    }
    assert(args.deep_view().take(index as int) == args.deep_view());
    request
}

} // verus!
