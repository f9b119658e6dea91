//! What a project created from scratch starts with: its `Pulsar.toml`
//! manifest and its top-level folders.

use vstd::prelude::*;
use crate::text::{chars_of, string_from_chars, vec_append_str};

verus! {

/// The manifest of a new project named `name`.
pub open spec fn manifest_text(name: Seq<char>) -> Seq<char> {
    "[project]\nname = \""@ + name
        + "\"\nversion = \"0.1.0\"\nengine_version = \"0.1.23\"\n\n[settings]\ndefault_scene = \"scenes/main.scene\"\n"@
}

/// Whether the new-project form can create a project: it needs a name.
pub fn can_create_project(name: &str) -> (r: bool)
    ensures
        r == (name@.len() > 0),
{
    name.unicode_len() > 0
}

/// The `Pulsar.toml` of a new project: its name, version `0.1.0`, the
/// engine version it was made for and its default scene.
pub fn pulsar_manifest(name: &str) -> (r: String)
    ensures
        r@ == manifest_text(name@),
{
    let mut v = chars_of("[project]\nname = \"");
    vec_append_str(&mut v, name);
    vec_append_str(
        &mut v,
        "\"\nversion = \"0.1.0\"\nengine_version = \"0.1.23\"\n\n[settings]\ndefault_scene = \"scenes/main.scene\"\n",
    );
    string_from_chars(&v)
}

/// The folders created inside a new project, in order.
pub fn project_subdirs() -> (r: Vec<&'static str>)
    ensures
        r@.len() == 4,
        r@[0]@ == "assets"@,
        r@[1]@ == "scenes"@,
        r@[2]@ == "scripts"@,
        r@[3]@ == "prefabs"@,
{
    let mut r: Vec<&'static str> = Vec::new();
    r.push("assets");
    r.push("scenes");
    r.push("scripts");
    r.push("prefabs");
    r
}

} // verus!
