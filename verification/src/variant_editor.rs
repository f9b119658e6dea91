//! The editing state of one variant in the enum editor: which of its inputs
//! is being edited, and how input events change the variant.

use vstd::prelude::*;
use crate::enum_asset::{EnumVariant, doc_from_text, doc_from_text_spec};

verus! {

/// What an input box reports.
#[derive(Clone, Copy, Debug, PartialEq, Eq, Structural)]
pub enum InputEventKind {
    /// The text changed.
    Change,
    /// The box lost focus.
    Blur,
    /// Anything else (focus gained, enter pressed, ...).
    Other,
}

/// The state behind a variant editor: the variant, its index in the enum,
/// and whether its name or its documentation is being edited.
#[derive(Debug, Clone)]
pub struct VariantEditorState {
    pub variant: EnumVariant,
    pub index: usize,
    pub editing_name: bool,
    pub editing_doc: bool,
}

/// Whether an input event of this kind, while editing, updates the variant.
pub open spec fn takes_input(editing: bool, event: InputEventKind) -> bool {
    editing && (event is Change || event is Blur)
}

impl VariantEditorState {
    /// An editor for `variant`, at `index`, with nothing being edited.
    pub fn new(variant: EnumVariant, index: usize) -> (r: Self)
        ensures
            r.variant == variant,
            r.index == index,
            !r.editing_name,
            !r.editing_doc,
    {
        VariantEditorState { variant, index, editing_name: false, editing_doc: false }
    }

    /// Starts editing the name.
    pub fn begin_name_edit(&mut self)
        ensures
            final(self).editing_name,
            final(self).editing_doc == old(self).editing_doc,
            final(self).variant == old(self).variant,
            final(self).index == old(self).index,
    {
        self.editing_name = true;
    }

    /// Starts editing the documentation.
    pub fn begin_doc_edit(&mut self)
        ensures
            final(self).editing_doc,
            final(self).editing_name == old(self).editing_name,
            final(self).variant == old(self).variant,
            final(self).index == old(self).index,
    {
        self.editing_doc = true;
    }

    /// Handles an event of the name box holding `text`. While the name is
    /// edited, a change or a blur takes the text as the name, and a blur
    /// ends the editing. Returns whether the variant changed, in which case
    /// the caller reports it.
    pub fn on_name_input(&mut self, event: InputEventKind, text: String) -> (changed: bool)
        ensures
            changed == takes_input(old(self).editing_name, event),
            changed ==> final(self).variant.name == text,
            !changed ==> final(self).variant.name == old(self).variant.name,
            final(self).variant.payload == old(self).variant.payload,
            final(self).variant.doc == old(self).variant.doc,
            final(self).editing_name == (old(self).editing_name && !(event is Blur)),
            final(self).editing_doc == old(self).editing_doc,
            final(self).index == old(self).index,
    {
        if !self.editing_name {
            return false;
        }
        match event {
            InputEventKind::Change => {
                self.variant.name = text;
                true
            },
            InputEventKind::Blur => {
                self.editing_name = false;
                self.variant.name = text;
                true
            },
            InputEventKind::Other => false,
        }
    }

    /// Handles an event of the documentation box holding `text`, as
    /// `on_name_input` does for the name; empty text means no documentation.
    pub fn on_doc_input(&mut self, event: InputEventKind, text: String) -> (changed: bool)
        ensures
            changed == takes_input(old(self).editing_doc, event),
            changed ==> final(self).variant.doc == doc_from_text_spec(text),
            !changed ==> final(self).variant.doc == old(self).variant.doc,
            final(self).variant.payload == old(self).variant.payload,
            final(self).variant.name == old(self).variant.name,
            final(self).editing_doc == (old(self).editing_doc && !(event is Blur)),
            final(self).editing_name == old(self).editing_name,
            final(self).index == old(self).index,
    {
        if !self.editing_doc {
            return false;
        }
        match event {
            InputEventKind::Change => {
                self.variant.doc = doc_from_text(text);
                true
            },
            InputEventKind::Blur => {
                self.editing_doc = false;
                self.variant.doc = doc_from_text(text);
                true
            },
            InputEventKind::Other => false,
        }
    }

    /// Whether the documentation block is shown: when there is a doc or it
    /// is being written.
    pub fn shows_doc(&self) -> (r: bool)
        ensures
            r == (self.variant.doc is Some || self.editing_doc),
    {
        self.variant.doc.is_some() || self.editing_doc
    }
}

} // verus!
