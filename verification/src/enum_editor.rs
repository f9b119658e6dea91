//! The state of the enum editor panel: the asset being edited, whether it
//! has unsaved changes, whether the code preview is stale, and the error to
//! show. Reading, parsing, serialising and writing the file happen outside;
//! their outcomes come in here.

use vstd::prelude::*;
use crate::enum_asset::{EnumAsset, EnumVariant, doc_from_text_spec, enum_code};
use crate::text::{chars_of, string_from_chars, vec_append_str};

verus! {

/// How reading an enum asset went.
#[derive(Debug, Clone)]
pub enum LoadOutcome {
    /// The file was read and parsed.
    Loaded(EnumAsset),
    /// The file could not be read; the reason.
    ReadFailed(String),
    /// The file did not parse as an enum asset; the reason.
    ParseFailed(String),
}

/// How saving the asset went.
#[derive(Debug, Clone)]
pub enum SaveOutcome {
    /// The file was written.
    Saved,
    /// The asset could not be serialised; the reason.
    SerializeFailed(String),
    /// The file could not be written; the reason.
    WriteFailed(String),
}

/// A property of the asset that has an input box.
#[derive(Clone, Copy, Debug, PartialEq, Eq, Structural)]
pub enum PropertyField {
    Name,
    DisplayName,
    Description,
}

/// The editor's state apart from its widgets.
#[derive(Debug, Clone)]
pub struct EnumEditorState {
    pub asset: EnumAsset,
    pub error_message: Option<String>,
    pub show_preview: bool,
    pub preview_needs_update: bool,
    pub modified: bool,
}

/// `e` is an error message made of `prefix` and the reason `reason`.
pub open spec fn is_message(e: Option<String>, prefix: Seq<char>, reason: Seq<char>) -> bool {
    e matches Some(m) && m@ == prefix + reason
}

fn message(prefix: &str, reason: &str) -> (r: String)
    ensures
        r@ == prefix@ + reason@,
{
    let mut v = chars_of(prefix);
    vec_append_str(&mut v, reason);
    string_from_chars(&v)
}

/// The fields of `a` and `b` other than their variants agree.
pub open spec fn same_properties(a: EnumAsset, b: EnumAsset) -> bool {
    &&& a.name == b.name
    &&& a.display_name == b.display_name
    &&& a.description == b.description
    &&& a.visibility == b.visibility
    &&& a.schema_version == b.schema_version
}

impl EnumEditorState {
    /// The state after opening a file: the loaded asset, or an empty one
    /// with the reason it could not be loaded. The preview is shown and up
    /// to date, and nothing is modified yet.
    pub fn from_load(outcome: LoadOutcome) -> (r: Self)
        ensures
            r.show_preview,
            !r.preview_needs_update,
            !r.modified,
            outcome matches LoadOutcome::Loaded(a) ==> r.asset == a && r.error_message is None,
            outcome matches LoadOutcome::ReadFailed(e) ==> {
                &&& is_message(r.error_message, "Failed to read file: "@, e@)
                &&& r.asset.name@ == "NewEnum"@
                &&& r.asset.variants@.len() == 0
            },
            outcome matches LoadOutcome::ParseFailed(e) ==> {
                &&& is_message(r.error_message, "Failed to parse enum: "@, e@)
                &&& r.asset.name@ == "NewEnum"@
                &&& r.asset.variants@.len() == 0
            },
    {
        let (asset, error_message) = match outcome {
            LoadOutcome::Loaded(a) => (a, None),
            LoadOutcome::ReadFailed(e) => (
                EnumAsset::create_empty_asset(),
                Some(message("Failed to read file: ", e.as_str())),
            ),
            LoadOutcome::ParseFailed(e) => (
                EnumAsset::create_empty_asset(),
                Some(message("Failed to parse enum: ", e.as_str())),
            ),
        };
        EnumEditorState {
            asset,
            error_message,
            show_preview: true,
            preview_needs_update: false,
            modified: false,
        }
    }

    /// A property box changed: the asset is modified, and the preview is
    /// stale unless only the display name (which the code does not show)
    /// changed.
    pub fn on_property_changed(&mut self, field: PropertyField)
        ensures
            final(self).modified,
            final(self).preview_needs_update == (old(self).preview_needs_update || field != PropertyField::DisplayName),
            final(self).asset == old(self).asset,
            final(self).show_preview == old(self).show_preview,
            final(self).error_message == old(self).error_message,
    {
        self.modified = true;
        match field {
            PropertyField::DisplayName => {},
            _ => {
                self.preview_needs_update = true;
            },
        }
    }

    /// Takes the texts of the property boxes into the asset, as saving and
    /// refreshing the preview do first.
    pub fn sync_properties(&mut self, name: String, display_name: String, description: String)
        ensures
            final(self).asset.name == name,
            final(self).asset.display_name == display_name,
            final(self).asset.description == doc_from_text_spec(description),
            final(self).asset.variants == old(self).asset.variants,
            final(self).asset.visibility == old(self).asset.visibility,
            final(self).asset.schema_version == old(self).asset.schema_version,
            final(self).modified == old(self).modified,
            final(self).preview_needs_update == old(self).preview_needs_update,
            final(self).show_preview == old(self).show_preview,
            final(self).error_message == old(self).error_message,
    {
        self.asset.set_properties(name, display_name, description);
    }

    /// A variant editor reported an edited variant: it replaces the variant
    /// at `index`, which marks the asset modified and the preview stale; an
    /// index past the end changes nothing.
    pub fn on_variant_changed(&mut self, index: usize, variant: EnumVariant)
        ensures
            index < old(self).asset.variants@.len() ==> {
                &&& final(self).asset.variants@ == old(self).asset.variants@.update(index as int, variant)
                &&& final(self).modified
                &&& final(self).preview_needs_update
            },
            index >= old(self).asset.variants@.len() ==> *final(self) == *old(self),
            same_properties(final(self).asset, old(self).asset),
            final(self).show_preview == old(self).show_preview,
            final(self).error_message == old(self).error_message,
    {
        if index < self.asset.variants.len() {
            self.asset.set_variant(index, variant);
            self.modified = true;
            self.preview_needs_update = true;
        }
    }

    /// Removes the variant at `index`, marking the asset modified and the
    /// preview stale; returns whether a variant was removed (an index past
    /// the end changes nothing).
    pub fn remove_variant(&mut self, index: usize) -> (removed: bool)
        ensures
            removed == (index < old(self).asset.variants@.len()),
            removed ==> {
                &&& final(self).asset.variants@ == old(self).asset.variants@.remove(index as int)
                &&& final(self).modified
                &&& final(self).preview_needs_update
            },
            !removed ==> *final(self) == *old(self),
            same_properties(final(self).asset, old(self).asset),
            final(self).show_preview == old(self).show_preview,
            final(self).error_message == old(self).error_message,
    {
        if index < self.asset.variants.len() {
            self.asset.remove_variant(index);
            self.modified = true;
            self.preview_needs_update = true;
            true
        } else {
            false
        }
    }

    /// Appends a new unit variant `Variant<n>`, marking the asset modified
    /// and the preview stale.
    pub fn add_variant(&mut self)
        requires
            old(self).asset.variants@.len() < u64::MAX,
        ensures
            final(self).asset.variants@.len() == old(self).asset.variants@.len() + 1,
            final(self).asset.variants@.take(old(self).asset.variants@.len() as int) == old(self).asset.variants@,
            final(self).asset.variants@.last().name@ == crate::enum_asset::default_variant_name(final(self).asset.variants@.len()),
            final(self).asset.variants@.last().payload is Unit,
            final(self).modified,
            final(self).preview_needs_update,
            same_properties(final(self).asset, old(self).asset),
            final(self).show_preview == old(self).show_preview,
            final(self).error_message == old(self).error_message,
    {
        self.asset.add_variant();
        self.modified = true;
        self.preview_needs_update = true;
    }

    /// Shows or hides the code preview.
    pub fn toggle_preview(&mut self)
        ensures
            final(self).show_preview == !old(self).show_preview,
            final(self).asset == old(self).asset,
            final(self).modified == old(self).modified,
            final(self).preview_needs_update == old(self).preview_needs_update,
            final(self).error_message == old(self).error_message,
    {
        self.show_preview = !self.show_preview;
    }

    /// The code to show in the preview when it is stale, which it no longer
    /// is afterwards; none when it was up to date.
    pub fn refresh_preview(&mut self) -> (r: Option<String>)
        ensures
            old(self).preview_needs_update ==> (r matches Some(code) && code@ == enum_code(old(self).asset)),
            !old(self).preview_needs_update ==> r is None,
            !final(self).preview_needs_update,
            final(self).asset == old(self).asset,
            final(self).modified == old(self).modified,
            final(self).show_preview == old(self).show_preview,
            final(self).error_message == old(self).error_message,
    {
        if self.preview_needs_update {
            self.preview_needs_update = false;
            Some(self.asset.generate_rust_code())
        } else {
            None
        }
    }

    /// Records how saving went: a written file clears the modified mark and
    /// the error; a failure keeps the mark and shows why.
    pub fn save_finished(&mut self, outcome: SaveOutcome)
        ensures
            outcome is Saved ==> !final(self).modified && final(self).error_message is None,
            outcome matches SaveOutcome::SerializeFailed(e) ==> final(self).modified == old(self).modified
                && is_message(final(self).error_message, "Failed to serialize: "@, e@),
            outcome matches SaveOutcome::WriteFailed(e) ==> final(self).modified == old(self).modified
                && is_message(final(self).error_message, "Failed to save: "@, e@),
            final(self).asset == old(self).asset,
            final(self).show_preview == old(self).show_preview,
            final(self).preview_needs_update == old(self).preview_needs_update,
    {
        match outcome {
            SaveOutcome::Saved => {
                self.modified = false;
                self.error_message = None;
            },
            SaveOutcome::SerializeFailed(e) => {
                self.error_message = Some(message("Failed to serialize: ", e.as_str()));
            },
            SaveOutcome::WriteFailed(e) => {
                self.error_message = Some(message("Failed to save: ", e.as_str()));
            },
        }
    }

    /// The panel's tab title: the display name, with ` \u{2022}` behind it
    /// while there are unsaved changes.
    pub fn title(&self) -> (r: String)
        ensures
            r@ == self.asset.display_name@ + (if self.modified { " \u{2022}"@ } else { ""@ }),
    {
        let mut v = chars_of(self.asset.display_name.as_str());
        if self.modified {
            vec_append_str(&mut v, " \u{2022}");
        } else {
            proof {
                reveal_strlit("");
            }
            assert(v@ + ""@ =~= v@);
        }
        string_from_chars(&v)
    }

    /// The label of the toolbar button that shows or hides the preview.
    pub fn preview_toggle_label(&self) -> (r: &'static str)
        ensures
            r@ == (if self.show_preview { "Hide Preview"@ } else { "Show Preview"@ }),
    {
        if self.show_preview { "Hide Preview" } else { "Show Preview" }
    }

    /// The heading of the variants panel: `Variants (<n>)`.
    pub fn variants_heading(&self) -> (r: String)
        ensures
            r@ == "Variants ("@ + crate::text::decimal(self.asset.variants@.len() as nat) + ")"@,
    {
        let mut v = chars_of("Variants (");
        let d = crate::text::decimal_chars(self.asset.variants.len() as u64);
        crate::text::vec_append(&mut v, &d);
        vec_append_str(&mut v, ")");
        string_from_chars(&v)
    }
}

} // verus!
