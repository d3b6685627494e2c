//! The editor of the filter text.

use crate::ui::Key;
use unicode_segmentation::UnicodeSegmentation;
use vstd::prelude::*;

verus! {

/// The extended grapheme clusters of a text, in order: what
/// `UnicodeSegmentation::graphemes(text, true)` yields.
pub uninterp spec fn extended_graphemes(text: Seq<char>) -> Seq<Seq<char>>;

/// The texts of a sequence of strings.
pub open spec fn texts_of(parts: Seq<String>) -> Seq<Seq<char>> {
    Seq::new(parts.len(), |i: int| parts[i]@)
}

/// All parts, one after the other.
pub open spec fn concat_all(parts: Seq<Seq<char>>) -> Seq<char>
    decreases parts.len(),
{
    if parts.len() == 0 {
        Seq::empty()
    } else {
        concat_all(parts.drop_last()) + parts.last()
    }
}

/// A text without its last extended grapheme cluster; the empty text stays
/// as it is.
pub open spec fn without_last_grapheme(text: Seq<char>) -> Seq<char> {
    if text.len() == 0 {
        text
    } else {
        concat_all(extended_graphemes(text).drop_last())
    }
}

/// `UnicodeSegmentation::graphemes` with `is_extended` set, each cluster
/// copied into a `String`. Trusted: the clusters are those that the
/// segmentation rules give, none is empty, and one after the other they
/// make up the text again, since the iterator hands out the consecutive
/// slices between one boundary and the next, from the start of the text to
/// its end.
#[verifier::external_body]
fn split_graphemes(text: &str) -> (clusters: Vec<String>)
    ensures
        texts_of(clusters@) == extended_graphemes(text@),
        concat_all(texts_of(clusters@)) == text@,
        forall|i: int| 0 <= i < clusters@.len() ==> (#[trigger] clusters@[i])@.len() > 0,
{
    text.graphemes(true).map(String::from).collect()
}

/// `String::push`. Trusted: the character is appended to the end of the
/// text.
#[verifier::external_body]
fn push_char(text: &mut String, c: char)
    ensures
        final(text)@ == old(text)@.push(c),
{
    text.push(c);
}

/// The filter text of a prompt, edited at its end.
#[derive(Clone, Debug, PartialEq, Eq)]
pub struct Input {
    /// The text typed so far.
    pub content: String,
}

impl View for Input {
    type V = Seq<char>;

    open spec fn view(&self) -> Seq<char> {
        self.content@
    }
}

/// What a key makes of a filter text.
pub open spec fn text_after_key(text: Seq<char>, key: Key) -> Seq<char> {
    match key {
        Key::Backspace => without_last_grapheme(text),
        Key::Char(c, modifiers) => if modifiers.types_text() {
            text.push(c)
        } else {
            text
        },
        _ => text,
    }
}

/// Whether a key edits a filter text. A backspace on the empty text does
/// not.
pub open spec fn key_edits_text(text: Seq<char>, key: Key) -> bool {
    match key {
        Key::Backspace => text.len() > 0,
        Key::Char(_, modifiers) => modifiers.types_text(),
        _ => false,
    }
}

/// A backspace shortens a text that is not empty, and what is left is how
/// the text began.
pub proof fn lemma_backspace_shortens(text: Seq<char>)
    requires
        concat_all(extended_graphemes(text)) == text,
        forall|i: int|
            0 <= i < extended_graphemes(text).len() ==> (#[trigger] extended_graphemes(
                text,
            )[i]).len() > 0,
    ensures
        without_last_grapheme(text).len() <= text.len(),
        text.len() > 0 ==> without_last_grapheme(text).len() < text.len(),
        without_last_grapheme(text) == text.subrange(0, without_last_grapheme(text).len() as int),
{
    let clusters = extended_graphemes(text);
    if text.len() > 0 {
        assert(clusters.len() > 0);
        assert(clusters.last().len() > 0);
        assert(text == concat_all(clusters.drop_last()) + clusters.last());
    }
}

impl Input {
    /// An empty filter text.
    pub fn new() -> (input: Input)
        ensures
            input@ == Seq::<char>::empty(),
    {
        Input { content: String::new() }
    }

    /// The text typed so far.
    pub fn content(&self) -> (text: &str)
        ensures
            text@ == self@,
    {
        self.content.as_str()
    }

    /// Whether nothing is typed.
    pub fn is_empty(&self) -> (empty: bool)
        ensures
            empty == (self@.len() == 0),
    {
        self.content.as_str().is_empty()
    }

    /// Types one character at the end of the text.
    pub fn append_char(&mut self, c: char)
        ensures
            final(self)@ == old(self)@.push(c),
    {
        push_char(&mut self.content, c);
    }

    /// Removes the last grapheme cluster of the text, and says whether there
    /// was one to remove.
    pub fn backspace(&mut self) -> (changed: bool)
        ensures
            final(self)@ == without_last_grapheme(old(self)@),
            changed == (old(self)@.len() > 0),
            final(self)@.len() <= old(self)@.len(),
            changed ==> final(self)@.len() < old(self)@.len(),
            final(self)@ == old(self)@.subrange(0, final(self)@.len() as int),
            !changed ==> *final(self) == *old(self),
    {
        let clusters: Vec<String> = split_graphemes(self.content.as_str());
        let count: usize = clusters.len();
        proof {
            lemma_backspace_shortens(self@);
        }
        if count == 0 {
            return false;
        }
        let ghost parts = texts_of(clusters@);
        let mut kept: String = String::new();
        let mut i: usize = 0;
        while i < count - 1
            invariant
                count == clusters@.len(),
                count > 0,
                i <= count - 1,
                parts == texts_of(clusters@),
                kept@ == concat_all(parts.take(i as int)),
            decreases count - 1 - i,
        {
            proof {
                assert(parts.take(i + 1).drop_last() == parts.take(i as int));
                assert(parts.take(i + 1).last() == clusters@[i as int]@);
            }
            kept.append(clusters[i].as_str());
            i = i + 1;
        }
        proof {
            assert(parts.take(count - 1) == parts.drop_last());
        }
        self.content = kept;
        true
    }

    /// Empties the text.
    pub fn clear(&mut self)
        ensures
            final(self)@ == Seq::<char>::empty(),
    {
        self.content = String::new();
    }

    /// Applies a key to the text and says whether the key edited it:
    /// backspace removes the last grapheme cluster, a character key types
    /// its character unless control or alt is held, and every other key
    /// leaves the text alone.
    pub fn handle_key(&mut self, key: Key) -> (dirty: bool)
        ensures
            final(self)@ == text_after_key(old(self)@, key),
            dirty == key_edits_text(old(self)@, key),
            !dirty ==> *final(self) == *old(self),
    {
        match key {
            Key::Backspace => self.backspace(),
            Key::Char(c, modifiers) => {
                if modifiers.types_text() {
                    self.append_char(c);
                    true
                } else {
                    false
                }
            },
            _ => false,
        }
    }
}

} // verus!
