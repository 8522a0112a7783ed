//! Values as they arrive from the bus.
//!
//! A value on the bus is dynamically typed. The decoders of this crate read
//! such a value in four ways only: as a text, as an unsigned number, as a
//! signed number, and as a list of further values. A [`WireValue`] holds the
//! outcome of each of the four readings, so that decoding is a function of
//! plain data.

use vstd::prelude::*;

verus! {

/// One value from the bus, as the four readings show it. A reading that the
/// value does not offer is `None`. Which numeric readings a number offers
/// depends on its type on the bus; a variant reads as its content does, and
/// as a list of one besides.
#[derive(Debug)]
pub struct WireValue {
    /// The value read as a text.
    pub text: Option<String>,
    /// The value read as an unsigned number.
    pub unsigned: Option<u64>,
    /// The value read as a signed number.
    pub signed: Option<i64>,
    /// The value read as a list: the values that it holds, in order.
    pub items: Option<Vec<WireValue>>,
}

/// The mathematical content of a [`WireValue`].
pub ghost struct WireModel {
    pub text: Option<Seq<char>>,
    pub unsigned: Option<u64>,
    pub signed: Option<i64>,
    pub items: Option<Seq<WireModel>>,
}

impl WireValue {
    /// The content of the value, reading by reading.
    pub open spec fn model(self) -> WireModel
        decreases self,
    {
        WireModel {
            text: match self.text {
                Some(s) => Some(s@),
                None => None,
            },
            unsigned: self.unsigned,
            signed: self.signed,
            items: match self.items {
                Some(v) => Some(Seq::new(v@.len(), |i: int| Self::model_at(v@, i))),
                None => None,
            },
        }
    }

    /// The content of the value at position `i` of a list.
    pub open spec fn model_at(list: Seq<WireValue>, i: int) -> WireModel
        decreases list, 0int,
    {
        if 0 <= i < list.len() {
            list[i].model()
        } else {
            arbitrary()
        }
    }
}

impl View for WireValue {
    type V = WireModel;

    open spec fn view(&self) -> WireModel {
        self.model()
    }
}

/// The way in which a decoder wanted to read a value.
#[derive(Clone, Copy, Debug, PartialEq, Eq, Structural)]
pub enum Shape {
    /// A text.
    Text,
    /// An unsigned number.
    Unsigned,
    /// A signed number.
    Signed,
    /// A list of values.
    List,
    /// A list with a first value.
    Item,
}

/// A value did not have the shape that its key calls for.
#[derive(Clone, Debug)]
pub struct Mismatch {
    /// The key under which the value arrived.
    pub key: String,
    /// The reading that the value does not offer.
    pub expected: Shape,
}

/// The mathematical content of a [`Mismatch`].
pub ghost struct MismatchModel {
    pub key: Seq<char>,
    pub expected: Shape,
}

impl View for Mismatch {
    type V = MismatchModel;

    open spec fn view(&self) -> MismatchModel {
        MismatchModel { key: self.key@, expected: self.expected }
    }
}

/// A keyed value, as a record arrives: one entry per attribute.
pub type Entry = (String, WireValue);

/// The mathematical content of a list of keyed values.
pub open spec fn entries_view(entries: Seq<Entry>) -> Seq<(Seq<char>, WireModel)> {
    Seq::new(entries.len(), |i: int| (entries[i].0@, entries[i].1@))
}

/// The texts of a list of strings.
pub open spec fn texts_of(list: Seq<String>) -> Seq<Seq<char>> {
    Seq::new(list.len(), |i: int| list[i]@)
}

/// The text of an optional string.
pub open spec fn text_of(text: Option<String>) -> Option<Seq<char>> {
    match text {
        Some(s) => Some(s@),
        None => None,
    }
}

/// The views of a list of values.
pub open spec fn values_view(list: Seq<WireValue>) -> Seq<WireModel> {
    Seq::new(list.len(), |i: int| list[i]@)
}

/// The list reading of a value, over the views of its items.
pub proof fn lemma_items_view(value: WireValue)
    ensures
        value@.items == match value.items {
            Some(v) => Some(values_view(v@)),
            None => None,
        },
        value@.text == text_of(value.text),
        value@.unsigned == value.unsigned,
        value@.signed == value.signed,
{
    match value.items {
        Some(v) => {
            assert(value@.items.unwrap() =~= values_view(v@));
        },
        None => {},
    }
}

} // verus!
