use vstd::prelude::*;

use crate::package::{flag_text, PackageType};

verus! {

/// What one run of the package manager left behind: whether it exited with
/// success, and its standard output and standard error as text.
pub struct ToolOutput {
    pub success: bool,
    pub stdout: String,
    pub stderr: String,
}

/// The characters of each string of a list.
pub open spec fn texts(v: Seq<String>) -> Seq<Seq<char>> {
    v.map_values(|s: String| s@)
}

/// The arguments of the info command: `info [flag] --json=v2 name`, with the
/// kind's flag only where a kind is given.
pub open spec fn info_args_spec(name: Seq<char>, hint: Option<PackageType>) -> Seq<Seq<char>> {
    match hint {
        None => seq!["info"@, "--json=v2"@, name],
        Some(kind) => seq!["info"@, flag_text(kind), "--json=v2"@, name],
    }
}

fn push_text(v: &mut Vec<String>, s: &str)
    ensures
        texts(final(v)@) == texts(old(v)@).push(s@),
{
    v.push(s.to_owned());
    assert(texts(final(v)@) =~= texts(old(v)@).push(s@));
}

/// The arguments of the info command that looks `name` up, in JSON form.
pub fn info_args(name: &str, package_type: Option<PackageType>) -> (r: Vec<String>)
    ensures
        texts(r@) == info_args_spec(name@, package_type),
{
    let mut r: Vec<String> = Vec::new();
    push_text(&mut r, "info");
    match package_type {
        Some(kind) => push_text(&mut r, kind.flag()),
        None => {},
    }
    push_text(&mut r, "--json=v2");
    push_text(&mut r, name);
    assert(texts(r@) =~= info_args_spec(name@, package_type));
    r
}

/// The arguments of a command on one package: `action flag name`.
pub fn action_args(action: &str, package_type: PackageType, name: &str) -> (r: Vec<String>)
    ensures
        texts(r@) == seq![action@, flag_text(package_type), name@],
{
    let mut r: Vec<String> = Vec::new();
    push_text(&mut r, action);
    push_text(&mut r, package_type.flag());
    push_text(&mut r, name);
    assert(texts(r@) =~= seq![action@, flag_text(package_type), name@]);
    r
}

/// The arguments of the command that lists the installed packages of a kind.
pub fn list_args(package_type: PackageType) -> (r: Vec<String>)
    ensures
        texts(r@) == seq!["list"@, flag_text(package_type)],
{
    let mut r: Vec<String> = Vec::new();
    push_text(&mut r, "list");
    push_text(&mut r, package_type.flag());
    assert(texts(r@) =~= seq!["list"@, flag_text(package_type)]);
    r
}

} // verus!
