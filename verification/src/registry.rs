//! How the enum editor and enum assets register with the editor registry.

use vstd::prelude::*;
use crate::text::{chars_of, string_from_chars, vec_append_str};

verus! {

/// The lower-case hexadecimal digit for `d` (below sixteen).
pub open spec fn hex_digit(d: int) -> char {
    if d < 10 { (48 + d) as char } else { (87 + d) as char }
}

/// How serde_json writes one character inside a string literal: `"` and
/// `\` behind a backslash, the control characters with short escapes as
/// `\b \t \n \f \r`, the other control characters below `0x20` as `\u00XX`,
/// and everything else as it is.
pub open spec fn json_char(c: char) -> Seq<char> {
    let n = c as u32;
    if c == '"' {
        seq!['\\', '"']
    } else if c == '\\' {
        seq!['\\', '\\']
    } else if n == 0x08 {
        seq!['\\', 'b']
    } else if n == 0x09 {
        seq!['\\', 't']
    } else if n == 0x0A {
        seq!['\\', 'n']
    } else if n == 0x0C {
        seq!['\\', 'f']
    } else if n == 0x0D {
        seq!['\\', 'r']
    } else if n < 0x20 {
        seq!['\\', 'u', '0', '0', hex_digit((n / 16) as int), hex_digit((n % 16) as int)]
    } else {
        seq![c]
    }
}

/// The escaped characters of `s`, one after another.
pub open spec fn json_escape(s: Seq<char>) -> Seq<char>
    decreases s.len(),
{
    if s.len() == 0 {
        Seq::empty()
    } else {
        json_escape(s.drop_last()) + json_char(s.last())
    }
}

/// The JSON string literal serde_json writes for `s`: the escaped
/// characters between double quotes.
pub open spec fn json_string_literal(s: Seq<char>) -> Seq<char> {
    seq!['"'] + json_escape(s) + seq!['"']
}

/// Calls `serde_json::to_string` on a string slice, which writes the
/// string literal that `json_string_literal` describes (serde_json's
/// `format_escaped_str` with its escape table). It cannot fail on a string
/// slice; its error arm, never taken, returns a pair of quotes.
#[verifier::external_body]
fn json_quote(s: &str) -> (r: String)
    ensures
        r@ == json_string_literal(s@),
{
    match serde_json::to_string(s) {
        Ok(j) => j,
        Err(_) => String::from("\"\""),
    }
}

/// Registration of the enum editor.
#[derive(Clone, Copy, Debug)]
pub struct EnumEditorType;

impl EnumEditorType {
    /// The editor's identifier.
    pub fn editor_id(&self) -> (r: &'static str)
        ensures
            r@ == "enum_editor"@,
    {
        "enum_editor"
    }

    /// The editor's name as shown to users.
    pub fn display_name(&self) -> (r: &'static str)
        ensures
            r@ == "Enum Editor"@,
    {
        "Enum Editor"
    }

    /// The editor's icon.
    pub fn icon(&self) -> (r: &'static str)
        ensures
            r@ == "🔢"@,
    {
        "🔢"
    }
}

/// Registration of the enum asset type.
#[derive(Clone, Copy, Debug)]
pub struct EnumAssetType;

/// The content of a new enum asset named `name`: an empty description, the
/// name, and no variants, as serde_json writes that object.
pub open spec fn enum_template(name: Seq<char>) -> Seq<char> {
    "{\"description\":\"\",\"name\":"@ + json_string_literal(name) + ",\"variants\":[]}"@
}

impl EnumAssetType {
    /// The asset type's identifier.
    pub fn type_id(&self) -> (r: &'static str)
        ensures
            r@ == "enum"@,
    {
        "enum"
    }

    /// The asset type's name as shown to users.
    pub fn display_name(&self) -> (r: &'static str)
        ensures
            r@ == "Enum"@,
    {
        "Enum"
    }

    /// The asset type's icon.
    pub fn icon(&self) -> (r: &'static str)
        ensures
            r@ == "🔢"@,
    {
        "🔢"
    }

    /// What the asset type holds.
    pub fn description(&self) -> (r: &'static str)
        ensures
            r@ == "Rust enum definition"@,
    {
        "Rust enum definition"
    }

    /// File extensions of the asset type.
    pub fn extensions(&self) -> (r: Vec<&'static str>)
        ensures
            r@.len() == 1,
            r@[0]@ == "enum.json"@,
    {
        let mut r: Vec<&'static str> = Vec::new();
        r.push("enum.json");
        r
    }

    /// Where new assets of this type go.
    pub fn default_directory(&self) -> (r: &'static str)
        ensures
            r@ == "types/enums"@,
    {
        "types/enums"
    }

    /// The editor that opens assets of this type.
    pub fn editor_id(&self) -> (r: &'static str)
        ensures
            r@ == "enum_editor"@,
    {
        "enum_editor"
    }

    /// The JSON content of a new enum asset named `name`.
    pub fn generate_template(&self, name: &str) -> (r: String)
        ensures
            r@ == enum_template(name@),
    {
        let q = json_quote(name);
        let mut v = chars_of("{\"description\":\"\",\"name\":");
        vec_append_str(&mut v, q.as_str());
        vec_append_str(&mut v, ",\"variants\":[]}");
        string_from_chars(&v)
    }
}

} // verus!
