//! Enum assets as the enum editor edits them, and the Rust code generated
//! from them.

use vstd::prelude::*;
use crate::text::{chars_of, decimal_chars, string_from_chars, vec_append_str};

verus! {

/// Visibility of an item in generated code.
#[derive(Debug, Clone, Copy, PartialEq, Eq)]
pub enum Visibility {
    Public,
    Private,
    Crate,
    Super,
}

/// A reference to a type.
#[derive(Debug, Clone)]
pub enum TypeRef {
    Primitive { name: String },
    Path { path: String },
    AliasRef { alias: String },
}

/// A field of a struct-like variant.
#[derive(Debug, Clone)]
pub struct StructField {
    pub name: String,
    pub type_ref: TypeRef,
    pub visibility: Visibility,
    pub doc: Option<String>,
}

/// What a variant carries.
#[derive(Debug, Clone)]
pub enum VariantPayload {
    Unit,
    Single(TypeRef),
    Struct(Vec<StructField>),
}

/// One variant of an enum.
#[derive(Debug, Clone)]
pub struct EnumVariant {
    pub name: String,
    pub payload: VariantPayload,
    pub doc: Option<String>,
}

/// An enum definition as stored in an `enum.json` asset.
#[derive(Debug, Clone)]
pub struct EnumAsset {
    pub schema_version: u32,
    pub name: String,
    pub display_name: String,
    pub description: Option<String>,
    pub variants: Vec<EnumVariant>,
    pub visibility: Visibility,
}

/// The visibility keyword (with its trailing space) for generated code.
pub open spec fn vis_text(v: Visibility) -> Seq<char> {
    match v {
        Visibility::Public => "pub "@,
        Visibility::Private => ""@,
        Visibility::Crate => "pub(crate) "@,
        Visibility::Super => "pub(super) "@,
    }
}

/// The type name a type reference stands for.
pub open spec fn type_text(t: TypeRef) -> Seq<char> {
    match t {
        TypeRef::Primitive { name } => name@,
        TypeRef::Path { path } => path@,
        TypeRef::AliasRef { alias } => alias@,
    }
}

/// A doc-comment line with the given indentation, when there is a doc.
pub open spec fn doc_line(indent: Seq<char>, doc: Option<String>) -> Seq<char> {
    match doc {
        Some(d) => indent + "/// "@ + d@ + "\n"@,
        None => ""@,
    }
}

/// The code of one field of a struct-like variant.
pub open spec fn field_code(f: StructField) -> Seq<char> {
    doc_line("        "@, f.doc) + "        "@ + vis_text(f.visibility) + f.name@ + ": "@
        + type_text(f.type_ref) + ",\n"@
}

/// The code of a run of fields.
pub open spec fn fields_code(fs: Seq<StructField>) -> Seq<char>
    decreases fs.len(),
{
    if fs.len() == 0 { ""@ } else { fields_code(fs.drop_last()) + field_code(fs.last()) }
}

/// The code of one variant.
pub open spec fn variant_code(v: EnumVariant) -> Seq<char> {
    doc_line("    "@, v.doc) + match v.payload {
        VariantPayload::Unit => "    "@ + v.name@ + ",\n"@,
        VariantPayload::Single(t) => "    "@ + v.name@ + "("@ + type_text(t) + "),\n"@,
        VariantPayload::Struct(fs) => "    "@ + v.name@ + " {\n"@ + fields_code(fs@) + "    },\n"@,
    }
}

/// The code of a run of variants.
pub open spec fn variants_code(vs: Seq<EnumVariant>) -> Seq<char>
    decreases vs.len(),
{
    if vs.len() == 0 { ""@ } else { variants_code(vs.drop_last()) + variant_code(vs.last()) }
}

/// The Rust source of an enum asset.
pub open spec fn enum_code(a: EnumAsset) -> Seq<char> {
    (match a.description {
        Some(d) => "/// "@ + d@ + "\n"@,
        None => ""@,
    }) + "#[derive(Debug, Clone, PartialEq, Eq)]\n"@ + vis_text(a.visibility) + "enum "@ + a.name@ + " {\n"@
        + variants_code(a.variants@) + "}\n"@
}

/// The name given to the `n`-th added variant.
pub open spec fn default_variant_name(n: nat) -> Seq<char> {
    "Variant"@ + crate::text::decimal(n)
}

/// An optional text: none when it is empty.
pub open spec fn doc_from_text_spec(text: String) -> Option<String> {
    if text@.len() == 0 { None } else { Some(text) }
}

/// An optional text from what was typed: none when it is empty.
pub fn doc_from_text(text: String) -> (r: Option<String>)
    ensures
        r == doc_from_text_spec(text),
{
    if text.unicode_len() == 0 { None } else { Some(text) }
}

fn visibility_str(v: Visibility) -> (r: &'static str)
    ensures
        r@ == vis_text(v),
{
    match v {
        Visibility::Public => "pub ",
        Visibility::Private => "",
        Visibility::Crate => "pub(crate) ",
        Visibility::Super => "pub(super) ",
    }
}

/// The type name a type reference stands for.
pub fn type_ref_to_string(type_ref: &TypeRef) -> (r: String)
    ensures
        r@ == type_text(*type_ref),
{
    match type_ref {
        TypeRef::Primitive { name } => name.clone(),
        TypeRef::Path { path } => path.clone(),
        TypeRef::AliasRef { alias } => alias.clone(),
    }
}

fn push_doc(code: &mut Vec<char>, indent: &str, doc: &Option<String>)
    ensures
        final(code)@ == old(code)@ + doc_line(indent@, *doc),
{
    match doc {
        Some(d) => {
            vec_append_str(code, indent);
            vec_append_str(code, "/// ");
            vec_append_str(code, d.as_str());
            vec_append_str(code, "\n");
            assert(final(code)@ =~= old(code)@ + doc_line(indent@, *doc));
        },
        None => {
            proof {
                reveal_strlit("");
            }
            assert(old(code)@ + ""@ =~= old(code)@);
        },
    }
}

fn push_field(code: &mut Vec<char>, f: &StructField)
    ensures
        final(code)@ == old(code)@ + field_code(*f),
{
    push_doc(code, "        ", &f.doc);
    vec_append_str(code, "        ");
    vec_append_str(code, visibility_str(f.visibility));
    vec_append_str(code, f.name.as_str());
    vec_append_str(code, ": ");
    let t = type_ref_to_string(&f.type_ref);
    vec_append_str(code, t.as_str());
    vec_append_str(code, ",\n");
    assert(final(code)@ =~= old(code)@ + field_code(*f));
}

fn push_variant(code: &mut Vec<char>, v: &EnumVariant)
    ensures
        final(code)@ == old(code)@ + variant_code(*v),
{
    push_doc(code, "    ", &v.doc);
    let ghost after_doc = code@;
    match &v.payload {
        VariantPayload::Unit => {
            vec_append_str(code, "    ");
            vec_append_str(code, v.name.as_str());
            vec_append_str(code, ",\n");
        },
        VariantPayload::Single(t) => {
            vec_append_str(code, "    ");
            vec_append_str(code, v.name.as_str());
            vec_append_str(code, "(");
            let ts = type_ref_to_string(t);
            vec_append_str(code, ts.as_str());
            vec_append_str(code, "),\n");
        },
        VariantPayload::Struct(fields) => {
            vec_append_str(code, "    ");
            vec_append_str(code, v.name.as_str());
            vec_append_str(code, " {\n");
            let ghost start = code@;
            let mut i: usize = 0;
            proof {
                reveal_strlit("");
            }
            assert(fields@.take(0) =~= Seq::<StructField>::empty());
            assert(start + fields_code(fields@.take(0)) =~= start);
            while i < fields.len()
                invariant
                    i <= fields.len(),
                    code@ == start + fields_code(fields@.take(i as int)),
                decreases fields.len() - i,
            {
                push_field(code, &fields[i]);
                assert(fields@.take(i + 1).drop_last() =~= fields@.take(i as int));
                assert(fields@.take(i + 1).last() == fields@[i as int]);
                i = i + 1;
                assert(code@ =~= start + fields_code(fields@.take(i as int)));
            }
            assert(fields@.take(fields.len() as int) =~= fields@);
            vec_append_str(code, "    },\n");
        },
    }
    assert(final(code)@ =~= old(code)@ + variant_code(*v));
}

impl EnumAsset {
    /// A fresh, empty, public enum named `NewEnum`.
    pub fn create_empty_asset() -> (r: EnumAsset)
        ensures
            r.schema_version == 1,
            r.name@ == "NewEnum"@,
            r.display_name@ == "New Enum"@,
            r.description is None,
            r.variants@.len() == 0,
            r.visibility == Visibility::Public,
    {
        EnumAsset {
            schema_version: 1,
            name: String::from_str("NewEnum"),
            display_name: String::from_str("New Enum"),
            description: None,
            variants: Vec::new(),
            visibility: Visibility::Public,
        }
    }

    /// The Rust source of this enum: its doc comment, derives, visibility,
    /// and one line (or block) per variant.
    pub fn generate_rust_code(&self) -> (r: String)
        ensures
            r@ == enum_code(*self),
    {
        let mut code: Vec<char> = Vec::new();
        match &self.description {
            Some(d) => {
                vec_append_str(&mut code, "/// ");
                vec_append_str(&mut code, d.as_str());
                vec_append_str(&mut code, "\n");
            },
            None => {},
        }
        vec_append_str(&mut code, "#[derive(Debug, Clone, PartialEq, Eq)]\n");
        vec_append_str(&mut code, visibility_str(self.visibility));
        vec_append_str(&mut code, "enum ");
        vec_append_str(&mut code, self.name.as_str());
        vec_append_str(&mut code, " {\n");
        let ghost start = code@;
        proof {
            reveal_strlit("");
        }
        assert(self.variants@.take(0) =~= Seq::<EnumVariant>::empty());
        assert(start + variants_code(self.variants@.take(0)) =~= start);
        let mut i: usize = 0;
        while i < self.variants.len()
            invariant
                i <= self.variants.len(),
                code@ == start + variants_code(self.variants@.take(i as int)),
            decreases self.variants.len() - i,
        {
            push_variant(&mut code, &self.variants[i]);
            assert(self.variants@.take(i + 1).drop_last() =~= self.variants@.take(i as int));
            assert(self.variants@.take(i + 1).last() == self.variants@[i as int]);
            i = i + 1;
            assert(code@ =~= start + variants_code(self.variants@.take(i as int)));
        }
        assert(self.variants@.take(self.variants.len() as int) =~= self.variants@);
        vec_append_str(&mut code, "}\n");
        let r = string_from_chars(&code);
        assert(r@ =~= enum_code(*self));
        r
    }

    /// Appends a unit variant named `Variant<n>`, `n` being the new number
    /// of variants.
    pub fn add_variant(&mut self)
        requires
            old(self).variants@.len() < u64::MAX,
        ensures
            final(self).variants@.len() == old(self).variants@.len() + 1,
            final(self).variants@.take(old(self).variants@.len() as int) == old(self).variants@,
            final(self).variants@.last().name@ == default_variant_name(final(self).variants@.len()),
            final(self).variants@.last().payload is Unit,
            final(self).variants@.last().doc is None,
            final(self).name == old(self).name,
            final(self).display_name == old(self).display_name,
            final(self).description == old(self).description,
            final(self).visibility == old(self).visibility,
            final(self).schema_version == old(self).schema_version,
    {
        let n = self.variants.len() as u64 + 1;
        let mut nm = chars_of("Variant");
        let digits = decimal_chars(n);
        crate::text::vec_append(&mut nm, &digits);
        let v = EnumVariant { name: string_from_chars(&nm), payload: VariantPayload::Unit, doc: None };
        self.variants.push(v);
        assert(self.variants@.take(old(self).variants@.len() as int) =~= old(self).variants@);
    }

    /// Replaces the variant at `index` with an edited one; an index past the
    /// end changes nothing.
    pub fn set_variant(&mut self, index: usize, variant: EnumVariant)
        ensures
            index < old(self).variants@.len() ==> final(self).variants@ == old(self).variants@.update(index as int, variant),
            index >= old(self).variants@.len() ==> final(self).variants@ == old(self).variants@,
            final(self).name == old(self).name,
            final(self).display_name == old(self).display_name,
            final(self).description == old(self).description,
            final(self).visibility == old(self).visibility,
            final(self).schema_version == old(self).schema_version,
    {
        if index < self.variants.len() {
            self.variants.set(index, variant);
        }
    }

    /// Takes the name, display name and description typed in the property
    /// panel; an empty description means none.
    pub fn set_properties(&mut self, name: String, display_name: String, description: String)
        ensures
            final(self).name == name,
            final(self).display_name == display_name,
            final(self).description == doc_from_text_spec(description),
            final(self).variants == old(self).variants,
            final(self).visibility == old(self).visibility,
            final(self).schema_version == old(self).schema_version,
    {
        self.name = name;
        self.display_name = display_name;
        self.description = doc_from_text(description);
    }

    /// Removes the variant at `index`; an index past the end changes nothing.
    pub fn remove_variant(&mut self, index: usize)
        ensures
            index < old(self).variants@.len() ==> final(self).variants@ == old(self).variants@.remove(index as int),
            index >= old(self).variants@.len() ==> final(self).variants@ == old(self).variants@,
            final(self).name == old(self).name,
            final(self).display_name == old(self).display_name,
            final(self).description == old(self).description,
            final(self).visibility == old(self).visibility,
            final(self).schema_version == old(self).schema_version,
    {
        if index < self.variants.len() {
            self.variants.remove(index);
        }
    }
}


/// `f` is a fresh public field named `name`, of type `ty`, without
/// documentation.
pub open spec fn is_fresh_field(f: StructField, name: Seq<char>, ty: TypeRef) -> bool {
    &&& f.name@ == name
    &&& f.type_ref == ty
    &&& f.visibility == Visibility::Public
    &&& f.doc is None
}

/// `t` is the primitive type `String`, the type new payloads start with.
pub open spec fn is_string_type(t: TypeRef) -> bool {
    t matches TypeRef::Primitive { name } && name@ == "String"@
}

/// The name given to the `n`-th field of a struct payload.
pub open spec fn default_field_name(n: nat) -> Seq<char> {
    "field"@ + crate::text::decimal(n)
}

fn string_type() -> (r: TypeRef)
    ensures
        is_string_type(r),
{
    TypeRef::Primitive { name: String::from_str("String") }
}

fn fresh_field(name: String, ty: TypeRef) -> (r: StructField)
    ensures
        is_fresh_field(r, name@, ty),
{
    StructField { name, type_ref: ty, visibility: Visibility::Public, doc: None }
}

impl EnumVariant {
    /// Gives the variant a tuple payload of type `String`.
    pub fn add_tuple_payload(&mut self)
        ensures
            final(self).payload matches VariantPayload::Single(t) && is_string_type(t),
            final(self).name == old(self).name,
            final(self).doc == old(self).doc,
    {
        self.payload = VariantPayload::Single(string_type());
    }

    /// Gives the variant a struct payload with one `String` field, `field1`.
    pub fn add_struct_payload(&mut self)
        ensures
            final(self).payload matches VariantPayload::Struct(fs) && fs@.len() == 1
                && is_string_type(fs@[0].type_ref) && is_fresh_field(fs@[0], "field1"@, fs@[0].type_ref),
            final(self).name == old(self).name,
            final(self).doc == old(self).doc,
    {
        let mut fields: Vec<StructField> = Vec::new();
        fields.push(fresh_field(String::from_str("field1"), string_type()));
        self.payload = VariantPayload::Struct(fields);
    }

    /// Turns a tuple payload into a struct payload whose one field, `value`,
    /// keeps the tuple's type; any other payload stays.
    pub fn convert_to_struct(&mut self)
        ensures
            old(self).payload matches VariantPayload::Single(t) ==> (final(self).payload matches VariantPayload::Struct(fs)
                && fs@.len() == 1 && is_fresh_field(fs@[0], "value"@, t)),
            !(old(self).payload is Single) ==> final(self).payload == old(self).payload,
            final(self).name == old(self).name,
            final(self).doc == old(self).doc,
    {
        let mut p = VariantPayload::Unit;
        std::mem::swap(&mut p, &mut self.payload);
        match p {
            VariantPayload::Single(t) => {
                let mut fields: Vec<StructField> = Vec::new();
                fields.push(fresh_field(String::from_str("value"), t));
                self.payload = VariantPayload::Struct(fields);
            },
            other => {
                self.payload = other;
            },
        }
    }

    /// Drops the payload: the variant becomes a unit variant.
    pub fn clear_payload(&mut self)
        ensures
            final(self).payload is Unit,
            final(self).name == old(self).name,
            final(self).doc == old(self).doc,
    {
        self.payload = VariantPayload::Unit;
    }

    /// Appends a `String` field named `field<n>` to a struct payload, `n`
    /// being the new number of fields; any other payload stays.
    pub fn add_field(&mut self)
        requires
            old(self).payload matches VariantPayload::Struct(fs) ==> fs@.len() < u64::MAX,
        ensures
            old(self).payload matches VariantPayload::Struct(fs) ==> (final(self).payload matches VariantPayload::Struct(gs)
                && gs@.len() == fs@.len() + 1
                && gs@.take(fs@.len() as int) == fs@
                && is_string_type(gs@.last().type_ref)
                && is_fresh_field(gs@.last(), default_field_name(gs@.len()), gs@.last().type_ref)),
            !(old(self).payload is Struct) ==> final(self).payload == old(self).payload,
            final(self).name == old(self).name,
            final(self).doc == old(self).doc,
    {
        let mut p = VariantPayload::Unit;
        std::mem::swap(&mut p, &mut self.payload);
        match p {
            VariantPayload::Struct(mut fields) => {
                let ghost before = fields@;
                let n = fields.len() as u64 + 1;
                let mut nm = chars_of("field");
                let digits = decimal_chars(n);
                crate::text::vec_append(&mut nm, &digits);
                fields.push(fresh_field(string_from_chars(&nm), string_type()));
                assert(fields@.take(before.len() as int) =~= before);
                self.payload = VariantPayload::Struct(fields);
            },
            other => {
                self.payload = other;
            },
        }
    }

    /// Removes field `index` of a struct payload; an index past the end, or
    /// another payload, changes nothing.
    pub fn remove_field(&mut self, index: usize)
        ensures
            old(self).payload matches VariantPayload::Struct(fs) ==> (final(self).payload matches VariantPayload::Struct(gs)
                && (index < fs@.len() ==> gs@ == fs@.remove(index as int))
                && (index >= fs@.len() ==> gs@ == fs@)),
            !(old(self).payload is Struct) ==> final(self).payload == old(self).payload,
            final(self).name == old(self).name,
            final(self).doc == old(self).doc,
    {
        let mut p = VariantPayload::Unit;
        std::mem::swap(&mut p, &mut self.payload);
        match p {
            VariantPayload::Struct(mut fields) => {
                if index < fields.len() {
                    fields.remove(index);
                }
                self.payload = VariantPayload::Struct(fields);
            },
            other => {
                self.payload = other;
            },
        }
    }
}

/// The line that lists a field: `name: Type`.
pub fn field_label(field: &StructField) -> (r: String)
    ensures
        r@ == field.name@ + ": "@ + type_text(field.type_ref),
{
    let mut v = chars_of(field.name.as_str());
    vec_append_str(&mut v, ": ");
    let t = type_ref_to_string(&field.type_ref);
    vec_append_str(&mut v, t.as_str());
    string_from_chars(&v)
}

/// The documentation line of a variant as the editor shows it: the doc
/// behind `/// `, or an invitation to write one.
pub fn doc_label(doc: &Option<String>) -> (r: String)
    ensures
        r@ == "/// "@ + match doc {
            Some(d) => d@,
            None => "Click to add documentation"@,
        },
{
    let mut v = chars_of("/// ");
    match doc {
        Some(d) => vec_append_str(&mut v, d.as_str()),
        None => vec_append_str(&mut v, "Click to add documentation"),
    }
    string_from_chars(&v)
}

/// The lines of generated code before the declaration: the description as
/// a doc comment, when there is one, then the derive attribute.
pub open spec fn code_head(description: Option<String>) -> Seq<char> {
    (match description {
        Some(d) => "/// "@ + d@ + "\n"@,
        None => ""@,
    }) + "#[derive(Debug, Clone, PartialEq, Eq)]\n"@
}

/// Each visibility is written as its own Rust keyword in front of the enum:
/// nothing for a private enum, `pub`, `pub(crate)` or `pub(super)`
/// otherwise.
pub proof fn lemma_enum_declaration_keyword(a: EnumAsset)
    ensures
        a.visibility == Visibility::Private ==> enum_code(a) == code_head(a.description)
            + "enum "@ + a.name@ + " {\n"@ + variants_code(a.variants@) + "}\n"@,
        a.visibility == Visibility::Public ==> enum_code(a) == code_head(a.description)
            + "pub enum "@ + a.name@ + " {\n"@ + variants_code(a.variants@) + "}\n"@,
        a.visibility == Visibility::Crate ==> enum_code(a) == code_head(a.description)
            + "pub(crate) enum "@ + a.name@ + " {\n"@ + variants_code(a.variants@) + "}\n"@,
        a.visibility == Visibility::Super ==> enum_code(a) == code_head(a.description)
            + "pub(super) enum "@ + a.name@ + " {\n"@ + variants_code(a.variants@) + "}\n"@,
{
    reveal_strlit("");
    reveal_strlit("pub ");
    reveal_strlit("pub(crate) ");
    reveal_strlit("pub(super) ");
    reveal_strlit("enum ");
    reveal_strlit("pub enum ");
    reveal_strlit("pub(crate) enum ");
    reveal_strlit("pub(super) enum ");
    let tail = a.name@ + " {\n"@ + variants_code(a.variants@) + "}\n"@;
    let h = code_head(a.description);
    assert(enum_code(a) =~= h + vis_text(a.visibility) + "enum "@ + tail);
    if a.visibility == Visibility::Private {
        assert(h + ""@ + "enum "@ + tail =~= h + "enum "@ + tail);
        assert(h + "enum "@ + tail =~= h + "enum "@ + a.name@ + " {\n"@ + variants_code(a.variants@) + "}\n"@);
    } else if a.visibility == Visibility::Public {
        assert(h + "pub "@ + "enum "@ + tail =~= h + "pub enum "@ + a.name@ + " {\n"@ + variants_code(a.variants@) + "}\n"@);
    } else if a.visibility == Visibility::Crate {
        assert(h + "pub(crate) "@ + "enum "@ + tail =~= h + "pub(crate) enum "@ + a.name@ + " {\n"@ + variants_code(a.variants@) + "}\n"@);
    } else {
        assert(h + "pub(super) "@ + "enum "@ + tail =~= h + "pub(super) enum "@ + a.name@ + " {\n"@ + variants_code(a.variants@) + "}\n"@);
    }
}

/// A struct field is written with its own visibility keyword: nothing for a
/// private field, `pub`, `pub(crate)` or `pub(super)` otherwise, after its
/// documentation and eight spaces of indentation.
pub proof fn lemma_field_keyword(f: StructField)
    ensures
        f.visibility == Visibility::Private ==> field_code(f) == doc_line("        "@, f.doc)
            + "        "@ + f.name@ + ": "@ + type_text(f.type_ref) + ",\n"@,
        f.visibility == Visibility::Public ==> field_code(f) == doc_line("        "@, f.doc)
            + "        pub "@ + f.name@ + ": "@ + type_text(f.type_ref) + ",\n"@,
        f.visibility == Visibility::Crate ==> field_code(f) == doc_line("        "@, f.doc)
            + "        pub(crate) "@ + f.name@ + ": "@ + type_text(f.type_ref) + ",\n"@,
        f.visibility == Visibility::Super ==> field_code(f) == doc_line("        "@, f.doc)
            + "        pub(super) "@ + f.name@ + ": "@ + type_text(f.type_ref) + ",\n"@,
{
    reveal_strlit("");
    reveal_strlit("pub ");
    reveal_strlit("pub(crate) ");
    reveal_strlit("pub(super) ");
    reveal_strlit("        ");
    reveal_strlit("        pub ");
    reveal_strlit("        pub(crate) ");
    reveal_strlit("        pub(super) ");
    let d = doc_line("        "@, f.doc);
    let tail = f.name@ + ": "@ + type_text(f.type_ref) + ",\n"@;
    assert(field_code(f) =~= d + "        "@ + vis_text(f.visibility) + tail);
    if f.visibility == Visibility::Private {
        assert(d + "        "@ + ""@ + tail =~= d + "        "@ + f.name@ + ": "@ + type_text(f.type_ref) + ",\n"@);
    } else if f.visibility == Visibility::Public {
        assert(d + "        "@ + "pub "@ + tail =~= d + "        pub "@ + f.name@ + ": "@ + type_text(f.type_ref) + ",\n"@);
    } else if f.visibility == Visibility::Crate {
        assert(d + "        "@ + "pub(crate) "@ + tail =~= d + "        pub(crate) "@ + f.name@ + ": "@ + type_text(f.type_ref) + ",\n"@);
    } else {
        assert(d + "        "@ + "pub(super) "@ + tail =~= d + "        pub(super) "@ + f.name@ + ": "@ + type_text(f.type_ref) + ",\n"@);
    }
}

/// Removing the variant that `add_variant` just appended gives back the
/// variants as they were.
pub proof fn lemma_remove_undoes_add_variant(before: Seq<EnumVariant>, after: Seq<EnumVariant>)
    requires
        after.len() == before.len() + 1,
        after.take(before.len() as int) == before,
    ensures
        after.remove(before.len() as int) == before,
{
    assert(after.remove(before.len() as int) =~= before);
}

} // verus!
