//! The atomic output units appended to the emission log.

use std::rc::Rc;
use vstd::prelude::*;

verus! {

/// A shared, immutable text fragment together with its precomputed
/// character count. Fragments are produced by the caller and referenced,
/// not copied, by [`WriteItem::Text`].
pub struct StringContainer {
    pub text: String,
    pub char_count: u32,
}

impl StringContainer {
    /// The stored count is the fragment's character count.
    pub open spec fn wf(&self) -> bool {
        self.char_count == self.text@.len()
    }

    /// Builds a fragment from text whose character count is already known.
    pub fn new(text: String, char_count: u32) -> (r: StringContainer)
        requires
            char_count == text@.len(),
        ensures
            r.wf(),
            r.text@ == text@,
            r.char_count == char_count,
    {
        StringContainer { text, char_count }
    }
}

impl View for StringContainer {
    type V = Seq<char>;

    open spec fn view(&self) -> Seq<char> {
        self.text@
    }
}

/// One atomic output unit. `Indent(n)` stands for `n` levels of indentation
/// to be expanded at render time; `Tab` and `Space` are always literal
/// single characters; `Text` references a shared fragment.
pub enum WriteItem {
    Indent(u8),
    NewLine,
    Tab,
    Space,
    Text(Rc<StringContainer>),
}

/// The mathematical shape of a [`WriteItem`]: counts as `nat`, text as its
/// character sequence.
pub ghost enum ItemModel {
    Indent(nat),
    NewLine,
    Tab,
    Space,
    Text(Seq<char>),
}

impl View for WriteItem {
    type V = ItemModel;

    open spec fn view(&self) -> ItemModel {
        match self {
            WriteItem::Indent(n) => ItemModel::Indent(*n as nat),
            WriteItem::NewLine => ItemModel::NewLine,
            WriteItem::Tab => ItemModel::Tab,
            WriteItem::Space => ItemModel::Space,
            WriteItem::Text(t) => ItemModel::Text(t.text@),
        }
    }
}

/// The models of a sequence of items, in the same order.
pub open spec fn view_of_items(s: Seq<WriteItem>) -> Seq<ItemModel> {
    s.map_values(|x: WriteItem| x@)
}

impl Clone for WriteItem {
    fn clone(&self) -> (r: WriteItem)
        ensures
            r@ == self@,
    {
        match self {
            WriteItem::Indent(n) => WriteItem::Indent(*n),
            WriteItem::NewLine => WriteItem::NewLine,
            WriteItem::Tab => WriteItem::Tab,
            WriteItem::Space => WriteItem::Space,
            WriteItem::Text(t) => WriteItem::Text(t.clone()),
        }
    }
}

} // verus!
