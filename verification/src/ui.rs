//! What crosses the render boundary: the keys that come in and the frame
//! that goes out.

use crate::validator::ErrorMessage;
use vstd::prelude::*;

verus! {

/// The modifier keys held down together with a key.
#[derive(Clone, Copy, Debug, PartialEq, Eq, Structural)]
pub struct KeyModifiers {
    /// Shift is held.
    pub shift: bool,
    /// Control is held.
    pub control: bool,
    /// Alt is held.
    pub alt: bool,
}

impl KeyModifiers {
    /// No modifier key.
    pub open spec fn spec_none() -> KeyModifiers {
        KeyModifiers { shift: false, control: false, alt: false }
    }

    /// No modifier key.
    #[verifier::when_used_as_spec(spec_none)]
    pub fn none() -> (modifiers: KeyModifiers)
        ensures
            modifiers == Self::spec_none(),
    {
        KeyModifiers { shift: false, control: false, alt: false }
    }

    /// Shift alone.
    pub open spec fn spec_shift() -> KeyModifiers {
        KeyModifiers { shift: true, control: false, alt: false }
    }

    /// Shift alone.
    #[verifier::when_used_as_spec(spec_shift)]
    pub fn shift() -> (modifiers: KeyModifiers)
        ensures
            modifiers == Self::spec_shift(),
    {
        KeyModifiers { shift: true, control: false, alt: false }
    }

    /// Whether no modifier key is held.
    pub open spec fn spec_is_none(&self) -> bool {
        !self.shift && !self.control && !self.alt
    }

    /// Whether no modifier key is held.
    #[verifier::when_used_as_spec(spec_is_none)]
    pub fn is_none(&self) -> (plain: bool)
        ensures
            plain == self.spec_is_none(),
    {
        !self.shift && !self.control && !self.alt
    }

    /// Whether nothing but, possibly, shift is held: the modifiers under
    /// which a character key types its character.
    pub open spec fn spec_types_text(&self) -> bool {
        !self.control && !self.alt
    }

    /// Whether nothing but, possibly, shift is held.
    #[verifier::when_used_as_spec(spec_types_text)]
    pub fn types_text(&self) -> (typing: bool)
        ensures
            typing == self.spec_types_text(),
    {
        !self.control && !self.alt
    }
}

/// A logical key event, as the render boundary hands it to a prompt.
#[derive(Clone, Copy, Debug, PartialEq, Eq, Structural)]
pub enum Key {
    /// Skip the prompt (Escape).
    Cancel,
    /// Interrupt the program.
    Interrupt,
    /// Submit the current answer (Enter).
    Submit,
    /// Delete what was typed last.
    Backspace,
    /// The tabulator key.
    Tab,
    /// The delete key.
    Delete(KeyModifiers),
    /// Jump to the first option.
    Home,
    /// Jump to the last option.
    End,
    /// One page up.
    PageUp,
    /// One page down.
    PageDown,
    /// Arrow up.
    Up(KeyModifiers),
    /// Arrow down.
    Down(KeyModifiers),
    /// Arrow left.
    Left(KeyModifiers),
    /// Arrow right.
    Right(KeyModifiers),
    /// A character key.
    Char(char, KeyModifiers),
    /// Any other key.
    Any,
}

/// How the index of an option is drawn in front of it.
#[derive(Clone, Copy, Debug, PartialEq, Eq, Structural)]
pub enum IndexPrefix {
    /// No index is drawn.
    Hidden,
    /// The index as it is.
    Simple,
    /// The index, padded with spaces to the width of the largest.
    SpacePadded,
    /// The index, padded with zeroes to the width of the largest.
    ZeroPadded,
}

/// Choices on how a frame is drawn. The engine carries them to the render
/// boundary and decides nothing by them.
#[derive(Clone, Copy, Debug, PartialEq, Eq, Structural)]
pub struct RenderConfig {
    /// Whether colours are used.
    pub colored: bool,
    /// How option indices are drawn.
    pub option_index_prefix: IndexPrefix,
}

impl RenderConfig {
    /// Colours on, no indices.
    pub open spec fn spec_colored() -> RenderConfig {
        RenderConfig { colored: true, option_index_prefix: IndexPrefix::Hidden }
    }

    /// Colours on, no indices.
    #[verifier::when_used_as_spec(spec_colored)]
    pub fn colored() -> (config: RenderConfig)
        ensures
            config == Self::spec_colored(),
    {
        RenderConfig { colored: true, option_index_prefix: IndexPrefix::Hidden }
    }

    /// No colours, no indices.
    pub open spec fn spec_empty() -> RenderConfig {
        RenderConfig { colored: false, option_index_prefix: IndexPrefix::Hidden }
    }

    /// No colours, no indices.
    #[verifier::when_used_as_spec(spec_empty)]
    pub fn empty() -> (config: RenderConfig)
        ensures
            config == Self::spec_empty(),
    {
        RenderConfig { colored: false, option_index_prefix: IndexPrefix::Hidden }
    }
}

/// What one row of the option list shows.
#[derive(Clone, Copy, Debug, PartialEq, Eq)]
pub enum ListOptionValue<'a> {
    /// An entry of the registry, by its display text.
    Normal(&'a str),
    /// The entry that selecting this row would create, by the filter text.
    Dynamic(&'a str),
}

/// One row of the option list.
#[derive(Clone, Copy, Debug, PartialEq, Eq)]
pub struct ListOptionView<'a> {
    /// Stable index of the entry; the registry's length for the row of an
    /// entry that is yet to be created.
    pub index: usize,
    /// What the row shows.
    pub content: ListOptionValue<'a>,
    /// Whether the entry is selected.
    pub checked: bool,
    /// Whether the cursor is on this row.
    pub highlighted: bool,
}

/// Everything a prompt asks the render boundary to draw before it waits for
/// the next key.
#[derive(Clone, Debug, PartialEq, Eq)]
pub struct MultiSelectFrame<'a> {
    /// The prompt message.
    pub message: &'a str,
    /// The filter text typed so far.
    pub input: &'a str,
    /// The message of the last rejected submission, if any.
    pub error: Option<&'a ErrorMessage>,
    /// The rows inside the page window.
    pub options: Vec<ListOptionView<'a>>,
    /// Position of the cursor relative to the start of the window.
    pub selection: usize,
    /// Whether the window starts at the first row of the filtered view.
    pub first: bool,
    /// Whether the window ends at the last row of the filtered view.
    pub last: bool,
    /// The help line.
    pub help_message: Option<&'a str>,
}

} // verus!
