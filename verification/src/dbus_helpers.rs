//! The scalar readings of a bus value, each with the error that says which
//! key held a value of another shape.

use crate::text::{split, split_on};
use crate::wire::{
    lemma_items_view, texts_of, values_view, Mismatch, MismatchModel, Shape, WireModel, WireValue,
};
use vstd::prelude::*;
use vstd::string::*;

verus! {

/// The failure to read the value under `key` as `expected`.
pub open spec fn mismatch(key: Seq<char>, expected: Shape) -> MismatchModel {
    MismatchModel { key, expected }
}

/// The text reading of a value.
pub open spec fn want_text(value: WireModel, key: Seq<char>) -> Result<Seq<char>, MismatchModel> {
    match value.text {
        Some(text) => Ok(text),
        None => Err(mismatch(key, Shape::Text)),
    }
}

/// The unsigned reading of a value.
pub open spec fn want_u64(value: WireModel, key: Seq<char>) -> Result<u64, MismatchModel> {
    match value.unsigned {
        Some(number) => Ok(number),
        None => Err(mismatch(key, Shape::Unsigned)),
    }
}

/// The signed reading of a value.
pub open spec fn want_i64(value: WireModel, key: Seq<char>) -> Result<i64, MismatchModel> {
    match value.signed {
        Some(number) => Ok(number),
        None => Err(mismatch(key, Shape::Signed)),
    }
}

/// Reads a value as a text.
pub fn dbus_str<'a>(variant: &'a WireValue, kind: &str) -> (out: Result<&'a str, Mismatch>)
    ensures
        match out {
            Ok(text) => want_text(variant@, kind@) == Ok::<Seq<char>, MismatchModel>(text@),
            Err(e) => want_text(variant@, kind@) == Err::<Seq<char>, MismatchModel>(e@),
        },
{
    proof {
        lemma_items_view(*variant);
    }
    match &variant.text {
        Some(text) => Ok(text.as_str()),
        None => Err(Mismatch { key: kind.to_owned(), expected: Shape::Text }),
    }
}

/// Reads a value as an unsigned number.
pub fn dbus_u64(variant: &WireValue, kind: &str) -> (out: Result<u64, Mismatch>)
    ensures
        match out {
            Ok(number) => want_u64(variant@, kind@) == Ok::<u64, MismatchModel>(number),
            Err(e) => want_u64(variant@, kind@) == Err::<u64, MismatchModel>(e@),
        },
{
    proof {
        lemma_items_view(*variant);
    }
    match variant.unsigned {
        Some(number) => Ok(number),
        None => Err(Mismatch { key: kind.to_owned(), expected: Shape::Unsigned }),
    }
}

/// Reads a value as a signed number.
pub fn dbus_i64(variant: &WireValue, kind: &str) -> (out: Result<i64, Mismatch>)
    ensures
        match out {
            Ok(number) => want_i64(variant@, kind@) == Ok::<i64, MismatchModel>(number),
            Err(e) => want_i64(variant@, kind@) == Err::<i64, MismatchModel>(e@),
        },
{
    proof {
        lemma_items_view(*variant);
    }
    match variant.signed {
        Some(number) => Ok(number),
        None => Err(Mismatch { key: kind.to_owned(), expected: Shape::Signed }),
    }
}

/// The texts of a list of values, where every value offers one.
pub open spec fn texts_in(items: Seq<WireModel>) -> Option<Seq<Seq<char>>>
    decreases items.len(),
{
    if items.len() == 0 {
        Some(Seq::empty())
    } else {
        match (texts_in(items.drop_last()), items.last().text) {
            (Some(front), Some(text)) => Some(front.push(text)),
            _ => None,
        }
    }
}

/// The texts of a list of lists of values, one after another. The error is
/// the reading that the first unfit value does not offer.
pub open spec fn nested_texts(outer: Seq<WireModel>) -> Result<Seq<Seq<char>>, Shape>
    decreases outer.len(),
{
    if outer.len() == 0 {
        Ok(Seq::empty())
    } else {
        match nested_texts(outer.drop_last()) {
            Err(shape) => Err(shape),
            Ok(front) => match outer.last().items {
                None => Err(Shape::List),
                Some(inner) => match texts_in(inner) {
                    None => Err(Shape::Text),
                    Some(texts) => Ok(front + texts),
                },
            },
        }
    }
}

/// The reading of a value as a list of lists of texts, flattened.
pub open spec fn want_nested_texts(value: WireModel, key: Seq<char>) -> Result<
    Seq<Seq<char>>,
    MismatchModel,
> {
    match value.items {
        None => Err(mismatch(key, Shape::List)),
        Some(outer) => match nested_texts(outer) {
            Ok(texts) => Ok(texts),
            Err(shape) => Err(mismatch(key, shape)),
        },
    }
}

/// The pieces of each text of a list, split on `sep`, one after another.
pub open spec fn split_each(texts: Seq<Seq<char>>, sep: char) -> Seq<Seq<char>>
    decreases texts.len(),
{
    if texts.len() == 0 {
        Seq::empty()
    } else {
        split_each(texts.drop_last(), sep) + split_on(texts.last(), sep)
    }
}

/// The reading of a value as a list of texts, each of which may hold
/// several entries separated by commas.
pub open spec fn want_split_texts(value: WireModel, key: Seq<char>) -> Result<
    Seq<Seq<char>>,
    MismatchModel,
> {
    match value.items {
        None => Err(mismatch(key, Shape::List)),
        Some(items) => match texts_in(items) {
            None => Err(mismatch(key, Shape::Text)),
            Some(texts) => Ok(split_each(texts, ',')),
        },
    }
}

/// The reading of a value as a list whose first value is a signed number.
pub open spec fn want_first_i64(value: WireModel, key: Seq<char>) -> Result<i64, MismatchModel> {
    match value.items {
        None => Err(mismatch(key, Shape::List)),
        Some(items) => if items.len() == 0 {
            Err(mismatch(key, Shape::Item))
        } else {
            want_i64(items[0], key)
        },
    }
}

/// Appends the text of every value of `items` to `out`; reports whether
/// every value offered one.
fn collect_texts(items: &Vec<WireValue>, out: &mut Vec<String>) -> (whole: bool)
    ensures
        match texts_in(values_view(items@)) {
            Some(texts) => whole && texts_of(final(out)@) == texts_of(old(out)@) + texts,
            None => !whole,
        },
{
    let ghost models = values_view(items@);
    let ghost start = texts_of(out@);
    let mut i: usize = 0;
    assert(models.take(0) =~= Seq::empty());
    assert(start + Seq::<Seq<char>>::empty() =~= start);
    while i < items.len()
        invariant
            i <= items.len(),
            models == values_view(items@),
            texts_in(models.take(i as int)).is_some(),
            texts_of(out@) == start + texts_in(models.take(i as int)).unwrap(),
        decreases items.len() - i,
    {
        proof {
            lemma_items_view(items@[i as int]);
            assert(models.take(i + 1).drop_last() =~= models.take(i as int));
            assert(models.take(i + 1).last() == items@[i as int]@);
        }
        match &items[i].text {
            Some(text) => {
                let ghost before = texts_of(out@);
                out.push(text.clone());
                assert(texts_of(out@) =~= before.push(text@));
                assert(start + texts_in(models.take(i as int)).unwrap().push(text@) =~= (start
                    + texts_in(models.take(i as int)).unwrap()).push(text@));
            },
            None => {
                proof {
                    lemma_texts_in_prefix(models, i + 1);
                }
                return false;
            },
        }
        i += 1;
    }
    assert(models.take(items.len() as int) =~= models);
    true
}

/// Where a list is not made of texts throughout, no longer list that starts
/// with it is.
pub proof fn lemma_texts_in_prefix(items: Seq<WireModel>, n: int)
    requires
        0 <= n <= items.len(),
        texts_in(items.take(n)).is_none(),
    ensures
        texts_in(items).is_none(),
    decreases items.len(),
{
    if n < items.len() {
        assert(items.drop_last().take(n) =~= items.take(n));
        lemma_texts_in_prefix(items.drop_last(), n);
    } else {
        assert(items.take(n) =~= items);
    }
}

/// Where a list of lists fails to read, every longer list that starts with
/// it fails in the same way.
pub proof fn lemma_nested_texts_prefix(outer: Seq<WireModel>, n: int)
    requires
        0 <= n <= outer.len(),
        nested_texts(outer.take(n)).is_err(),
    ensures
        nested_texts(outer) == nested_texts(outer.take(n)),
    decreases outer.len(),
{
    if n < outer.len() {
        assert(outer.drop_last().take(n) =~= outer.take(n));
        lemma_nested_texts_prefix(outer.drop_last(), n);
    } else {
        assert(outer.take(n) =~= outer);
    }
}

/// Reads a value as a list of lists of texts and returns the texts, one
/// list after another.
pub fn dbus_strs(variant: &WireValue, kind: &str) -> (out: Result<Vec<String>, Mismatch>)
    ensures
        match out {
            Ok(texts) => want_nested_texts(variant@, kind@) == Ok::<
                Seq<Seq<char>>,
                MismatchModel,
            >(texts_of(texts@)),
            Err(e) => want_nested_texts(variant@, kind@) == Err::<Seq<Seq<char>>, MismatchModel>(
                e@,
            ),
        },
{
    proof {
        lemma_items_view(*variant);
    }
    let outer = match &variant.items {
        Some(outer) => outer,
        None => {
            return Err(Mismatch { key: kind.to_owned(), expected: Shape::List });
        },
    };
    let ghost models = values_view(outer@);
    let mut texts: Vec<String> = Vec::new();
    let mut i: usize = 0;
    assert(models.take(0) =~= Seq::empty());
    assert(texts_of(texts@) =~= Seq::empty());
    while i < outer.len()
        invariant
            i <= outer.len(),
            models == values_view(outer@),
            variant@.items == Some(models),
            nested_texts(models.take(i as int)) == Ok::<Seq<Seq<char>>, Shape>(texts_of(texts@)),
        decreases outer.len() - i,
    {
        proof {
            lemma_items_view(outer@[i as int]);
            assert(models.take(i + 1).drop_last() =~= models.take(i as int));
            assert(models.take(i + 1).last() == outer@[i as int]@);
        }
        match &outer[i].items {
            None => {
                proof {
                    lemma_nested_texts_prefix(models, i + 1);
                }
                return Err(Mismatch { key: kind.to_owned(), expected: Shape::List });
            },
            Some(inner) => {
                if !collect_texts(inner, &mut texts) {
                    proof {
                        lemma_nested_texts_prefix(models, i + 1);
                    }
                    return Err(Mismatch { key: kind.to_owned(), expected: Shape::Text });
                }
            },
        }
        i += 1;
    }
    assert(models.take(outer.len() as int) =~= models);
    Ok(texts)
}

/// Reads a value as a list of texts and splits each on commas: one text may
/// carry several entries.
pub fn dbus_split_strs(variant: &WireValue, kind: &str) -> (out: Result<Vec<String>, Mismatch>)
    ensures
        match out {
            Ok(texts) => want_split_texts(variant@, kind@) == Ok::<
                Seq<Seq<char>>,
                MismatchModel,
            >(texts_of(texts@)),
            Err(e) => want_split_texts(variant@, kind@) == Err::<Seq<Seq<char>>, MismatchModel>(
                e@,
            ),
        },
{
    proof {
        lemma_items_view(*variant);
    }
    let items = match &variant.items {
        Some(items) => items,
        None => {
            return Err(Mismatch { key: kind.to_owned(), expected: Shape::List });
        },
    };
    let mut whole: Vec<String> = Vec::new();
    assert(texts_of(whole@) =~= Seq::empty());
    if !collect_texts(items, &mut whole) {
        return Err(Mismatch { key: kind.to_owned(), expected: Shape::Text });
    }
    let ghost texts = texts_of(whole@);
    assert(texts =~= texts_in(values_view(items@)).unwrap());
    let mut pieces: Vec<String> = Vec::new();
    let mut i: usize = 0;
    assert(texts.take(0) =~= Seq::empty());
    assert(texts_of(pieces@) =~= Seq::empty());
    while i < whole.len()
        invariant
            i <= whole.len(),
            texts == texts_of(whole@),
            texts_of(pieces@) == split_each(texts.take(i as int), ','),
        decreases whole.len() - i,
    {
        let mut found = split(whole[i].as_str(), ',');
        proof {
            assert(texts.take(i + 1).drop_last() =~= texts.take(i as int));
            assert(texts.take(i + 1).last() == whole@[i as int]@);
            assert(texts_of(found@) =~= split_on(whole@[i as int]@, ','));
            assert(texts_of(pieces@ + found@) =~= texts_of(pieces@) + texts_of(found@));
        }
        pieces.append(&mut found);
        i += 1;
    }
    assert(texts.take(whole.len() as int) =~= texts);
    Ok(pieces)
}

/// Reads a value as a list and its first value as a signed number.
pub fn dbus_first_i64(variant: &WireValue, kind: &str) -> (out: Result<i64, Mismatch>)
    ensures
        match out {
            Ok(number) => want_first_i64(variant@, kind@) == Ok::<i64, MismatchModel>(number),
            Err(e) => want_first_i64(variant@, kind@) == Err::<i64, MismatchModel>(e@),
        },
{
    proof {
        lemma_items_view(*variant);
    }
    match &variant.items {
        None => Err(Mismatch { key: kind.to_owned(), expected: Shape::List }),
        Some(items) => {
            if items.len() == 0 {
                Err(Mismatch { key: kind.to_owned(), expected: Shape::Item })
            } else {
                dbus_i64(&items[0], kind)
            }
        },
    }
}

} // verus!
