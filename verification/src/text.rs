//! Text primitives shared by the rest of the crate: equality of string
//! slices, and the reading of `/`-separated references (the last segment of
//! a reference, the reference without its last segment, a list split on a
//! separator).
//!
//! References are read as sequences of `char`s, and `/` alone separates
//! their segments. Empty segments and `.` segments at the end of a reference
//! carry no meaning and are dropped before the last segment is looked for. A
//! leading `/`, and a leading `.` that is a whole segment, is the anchor of
//! the reference: it is no segment and is never dropped.

use crate::wire::text_of;
use vstd::prelude::*;
use vstd::string::*;
use vstd::utf8::*;

verus! {

/// Position of the last `/` in `s`, or `-1` where `s` holds none.
pub open spec fn last_slash(s: Seq<char>) -> int
    decreases s.len(),
{
    if s.len() == 0 {
        -1
    } else if s.last() == '/' {
        s.len() - 1
    } else {
        last_slash(s.drop_last())
    }
}

/// Length of the anchor of a reference: 1 where it starts with `/`, or with a
/// `.` that is a whole segment, else 0.
pub open spec fn anchor_len(s: Seq<char>) -> int {
    if s.len() > 0 && (s[0] == '/' || (s[0] == '.' && (s.len() == 1 || s[1] == '/'))) {
        1
    } else {
        0
    }
}

/// True where the last `char` of `s` belongs to a trailing segment without
/// meaning: a `/` behind the anchor, or a `.` that is a whole segment.
pub open spec fn ends_in_filler(s: Seq<char>) -> bool {
    s.len() > anchor_len(s) && (s.last() == '/' || (s.last() == '.' && s[s.len() - 2] == '/'))
}

/// `s` without its trailing `/`s and trailing `.` segments.
pub open spec fn trim_trailing(s: Seq<char>) -> Seq<char>
    decreases s.len(),
{
    if ends_in_filler(s) {
        trim_trailing(s.drop_last())
    } else {
        s
    }
}

/// The last segment of a reference: what follows the last `/` once trailing
/// filler is dropped. A reference that is no more than its anchor has none,
/// and neither has one that ends in `..`.
pub open spec fn basename_of(s: Seq<char>) -> Option<Seq<char>> {
    let t = trim_trailing(s);
    let tail = t.subrange(last_slash(t) + 1, t.len() as int);
    if t.len() <= anchor_len(t) || tail == seq!['.', '.'] {
        None
    } else {
        Some(tail)
    }
}

/// A reference without its last segment: what precedes the last `/` once
/// trailing filler is dropped, itself without trailing filler. The anchor
/// stays. The empty reference and `/` have none; that of `.` is empty.
pub open spec fn dirname_of(s: Seq<char>) -> Option<Seq<char>> {
    let t = trim_trailing(s);
    let cut = last_slash(t);
    if t.len() <= anchor_len(t) {
        if t == seq!['.'] {
            Some(Seq::<char>::empty())
        } else {
            None
        }
    } else {
        Some(trim_trailing(t.take(if cut < anchor_len(t) { anchor_len(t) } else { cut })))
    }
}

/// `dir` followed by `name` as one reference: a `/` is put between them
/// unless `dir` is empty or ends in one, and a `name` that starts at the root
/// stands alone.
pub open spec fn join_of(dir: Seq<char>, name: Seq<char>) -> Seq<char> {
    if name.len() > 0 && name[0] == '/' {
        name
    } else if dir.len() == 0 || dir.last() == '/' {
        dir + name
    } else {
        dir + seq!['/'] + name
    }
}

/// `s` without one trailing `/`, if it has one.
pub open spec fn without_final_slash(s: Seq<char>) -> Seq<char> {
    if s.len() > 0 && s.last() == '/' {
        s.drop_last()
    } else {
        s
    }
}

/// The pieces of `s` between occurrences of `sep`, in order. There is always
/// one piece more than there are separators, so the empty text has one empty
/// piece.
pub open spec fn split_on(s: Seq<char>, sep: char) -> Seq<Seq<char>>
    decreases s.len(),
{
    if s.len() == 0 {
        seq![Seq::<char>::empty()]
    } else {
        let before = split_on(s.drop_last(), sep);
        if s.last() == sep {
            before.push(Seq::<char>::empty())
        } else {
            before.drop_last().push(before.last().push(s.last()))
        }
    }
}

/// True where `a` comes before `b` in the order of the dictionary, byte by
/// byte: at the first position where they differ `a` has the lower byte, or
/// `a` ends there and `b` goes on.
pub open spec fn bytes_lt(a: Seq<u8>, b: Seq<u8>) -> bool
    decreases a.len(),
{
    if b.len() == 0 {
        false
    } else if a.len() == 0 {
        true
    } else if a[0] != b[0] {
        a[0] < b[0]
    } else {
        bytes_lt(a.skip(1), b.skip(1))
    }
}

/// True where the text `a` comes before the text `b`: the order of their
/// UTF-8 bytes, which is the order of strings.
pub open spec fn text_lt_of(a: Seq<char>, b: Seq<char>) -> bool {
    bytes_lt(encode_utf8(a), encode_utf8(b))
}

/// `last_slash` finds the greatest position of a `/`, and finds one
/// wherever there is one.
pub proof fn lemma_last_slash_bounds(s: Seq<char>)
    ensures
        -1 <= last_slash(s) < s.len(),
        last_slash(s) >= 0 ==> s[last_slash(s)] == '/',
        forall|i: int| last_slash(s) < i < s.len() ==> s[i] != '/',
        last_slash(s) == -1 <==> !s.contains('/'),
    decreases s.len(),
{
    if s.len() > 0 {
        let t = s.drop_last();
        if s.last() != '/' {
            lemma_last_slash_bounds(t);
            assert forall|i: int| last_slash(s) < i < s.len() implies s[i] != '/' by {
                if i < t.len() {
                    assert(t[i] == s[i]);
                }
            }
            if last_slash(t) >= 0 {
                assert(t[last_slash(t)] == s[last_slash(t)]);
            }
        }
        if last_slash(s) >= 0 {
            assert(s[last_slash(s)] == '/');
            assert(s.contains('/'));
        }
    }
}

/// The `char`s of a string slice, for indexing in constant time.
pub fn chars_of(s: &str) -> (v: Vec<char>)
    ensures
        v@ == s@,
{
    let mut v: Vec<char> = Vec::new();
    for c in it: s.chars()
        invariant
            it.seq() == s@,
            v@ == it.seq().take(it.index() as int),
    {
        v.push(c);
    }
    v
}

/// Equality of two string slices, decided on their UTF-8 bytes.
pub fn str_eq(a: &str, b: &str) -> (same: bool)
    ensures
        same == (a@ == b@),
{
    let x = a.as_bytes();
    let y = b.as_bytes();
    proof {
        broadcast use encode_utf8_decode_utf8;

        assert(decode_utf8(x@) == a@);
        assert(decode_utf8(y@) == b@);
    }
    if x.len() != y.len() {
        return false;
    }
    let mut i: usize = 0;
    while i < x.len()
        invariant
            x.len() == y.len(),
            i <= x.len(),
            decode_utf8(x@) == a@,
            decode_utf8(y@) == b@,
            x@ == encode_utf8(a@),
            y@ == encode_utf8(b@),
            forall|j: int| 0 <= j < i ==> x@[j] == y@[j],
        decreases x.len() - i,
    {
        if x[i] != y[i] {
            return false;
        }
        i += 1;
    }
    assert(x@ =~= y@);
    true
}

/// Whether `a` comes before `b` in the order of strings, see
/// [`text_lt_of`].
pub fn text_lt(a: &str, b: &str) -> (before: bool)
    ensures
        before == text_lt_of(a@, b@),
{
    let x = a.as_bytes();
    let y = b.as_bytes();
    let mut i: usize = 0;
    assert(x@.skip(0) =~= x@);
    assert(y@.skip(0) =~= y@);
    while i < x.len() && i < y.len()
        invariant
            i <= x.len(),
            i <= y.len(),
            x@ == encode_utf8(a@),
            y@ == encode_utf8(b@),
            bytes_lt(x@, y@) == bytes_lt(x@.skip(i as int), y@.skip(i as int)),
        decreases x.len() - i,
    {
        assert(x@.skip(i as int)[0] == x@[i as int]);
        assert(y@.skip(i as int)[0] == y@[i as int]);
        if x[i] != y[i] {
            return x[i] < y[i];
        }
        assert(x@.skip(i as int).skip(1) =~= x@.skip(i + 1));
        assert(y@.skip(i as int).skip(1) =~= y@.skip(i + 1));
        i += 1;
    }
    i < y.len()
}

/// True where the reference holds a `/`.
pub fn has_slash(s: &str) -> (found: bool)
    ensures
        found == s@.contains('/'),
{
    let cs = chars_of(s);
    let mut i: usize = 0;
    while i < cs.len()
        invariant
            i <= cs.len(),
            cs@ == s@,
            forall|j: int| 0 <= j < i ==> cs@[j] != '/',
        decreases cs.len() - i,
    {
        if cs[i] == '/' {
            assert(s@[i as int] == '/');
            return true;
        }
        i += 1;
    }
    false
}

/// Length of the anchor of the first `end` `char`s.
fn anchor_before(cs: &Vec<char>, end: usize) -> (n: usize)
    requires
        end <= cs.len(),
    ensures
        n == anchor_len(cs@.take(end as int)),
        n <= end,
{
    if end > 0 && (cs[0] == '/' || (cs[0] == '.' && (end == 1 || cs[1] == '/'))) {
        1
    } else {
        0
    }
}

/// Length of the first `end` `char`s once trailing filler is dropped.
fn trimmed_len(cs: &Vec<char>, end: usize) -> (n: usize)
    requires
        end <= cs.len(),
    ensures
        n <= end,
        cs@.take(n as int) == trim_trailing(cs@.take(end as int)),
{
    let mut n: usize = end;
    loop
        invariant
            n <= end <= cs.len(),
            trim_trailing(cs@.take(n as int)) == trim_trailing(cs@.take(end as int)),
        ensures
            n <= end,
            !ends_in_filler(cs@.take(n as int)),
            trim_trailing(cs@.take(n as int)) == trim_trailing(cs@.take(end as int)),
        decreases n,
    {
        let anchor = anchor_before(cs, n);
        if n > anchor && (cs[n - 1] == '/' || (cs[n - 1] == '.' && cs[n - 2] == '/')) {
            assert(cs@.take(n as int).drop_last() =~= cs@.take(n - 1));
            n -= 1;
        } else {
            break;
        }
    }
    n
}

/// Position of the last `/` among the first `end` `char`s.
fn last_slash_before(cs: &Vec<char>, end: usize) -> (at: Option<usize>)
    requires
        end <= cs.len(),
    ensures
        match at {
            Some(i) => i < end && last_slash(cs@.take(end as int)) == i,
            None => last_slash(cs@.take(end as int)) == -1,
        },
{
    let mut n: usize = end;
    while n > 0
        invariant
            n <= end <= cs.len(),
            last_slash(cs@.take(n as int)) == last_slash(cs@.take(end as int)),
        decreases n,
    {
        if cs[n - 1] == '/' {
            return Some(n - 1);
        }
        assert(cs@.take(n as int).drop_last() =~= cs@.take(n - 1));
        n -= 1;
    }
    None
}

/// The last segment of a reference, see [`basename_of`].
pub fn basename(s: &str) -> (name: Option<String>)
    ensures
        text_of(name) == basename_of(s@),
{
    let cs = chars_of(s);
    let end = trimmed_len(&cs, cs.len());
    assert(cs@.take(cs.len() as int) =~= cs@);
    if end <= anchor_before(&cs, end) {
        return None;
    }
    let from = match last_slash_before(&cs, end) {
        Some(i) => i + 1,
        None => 0,
    };
    assert(cs@.take(end as int).subrange(from as int, end as int) =~= s@.subrange(
        from as int,
        end as int,
    ));
    if end - from == 2 && cs[from] == '.' && cs[from + 1] == '.' {
        assert(s@.subrange(from as int, end as int) =~= seq!['.', '.']);
        return None;
    }
    assert(s@.subrange(from as int, end as int) != seq!['.', '.']) by {
        let tail = s@.subrange(from as int, end as int);
        if tail == seq!['.', '.'] {
            assert(tail.len() == 2);
            assert(tail[0] == '.' && tail[1] == '.');
        }
    }
    Some(s.substring_char(from, end).to_owned())
}

/// A reference without its last segment, see [`dirname_of`].
pub fn dirname(s: &str) -> (dir: Option<String>)
    ensures
        text_of(dir) == dirname_of(s@),
{
    let cs = chars_of(s);
    let end = trimmed_len(&cs, cs.len());
    assert(cs@.take(cs.len() as int) =~= cs@);
    let anchor = anchor_before(&cs, end);
    if end <= anchor {
        if end == 1 && cs[0] == '.' {
            assert(cs@.take(1) =~= seq!['.']);
            assert(s@.subrange(0, 0) =~= Seq::<char>::empty());
            return Some(s.substring_char(0, 0).to_owned());
        }
        assert(cs@.take(end as int) != seq!['.']) by {
            if cs@.take(end as int) == seq!['.'] {
                assert(cs@.take(end as int).len() == 1);
                assert(cs@.take(end as int)[0] == '.');
            }
        }
        return None;
    }
    let cut = match last_slash_before(&cs, end) {
        Some(i) => if i < anchor {
            anchor
        } else {
            i
        },
        None => anchor,
    };
    assert(cs@.take(end as int).take(cut as int) =~= cs@.take(cut as int));
    let keep = trimmed_len(&cs, cut);
    assert(cs@.take(keep as int) =~= s@.subrange(0, keep as int));
    Some(s.substring_char(0, keep).to_owned())
}

/// One reference made of `dir` and `name`, see [`join_of`].
pub fn join(dir: &str, name: &str) -> (joined: String)
    ensures
        joined@ == join_of(dir@, name@),
{
    let head = chars_of(dir);
    let tail = chars_of(name);
    if tail.len() > 0 && tail[0] == '/' {
        return name.to_owned();
    }
    let mut joined = dir.to_owned();
    if head.len() > 0 && head[head.len() - 1] != '/' {
        joined.append("/");
        proof {
            reveal_strlit("/");
            assert("/"@ =~= seq!['/']);
        }
    }
    joined.append(name);
    joined
}

/// The reference without one trailing `/`.
pub fn strip_final_slash(s: &str) -> (out: String)
    ensures
        out@ == without_final_slash(s@),
{
    let cs = chars_of(s);
    let n = cs.len();
    if n > 0 && cs[n - 1] == '/' {
        assert(s@.subrange(0, n - 1) =~= s@.drop_last());
        s.substring_char(0, n - 1).to_owned()
    } else {
        s.to_owned()
    }
}

/// What follows the first `n` `char`s of `s`.
pub fn skip_chars(s: &str, n: usize) -> (out: String)
    requires
        n <= s@.len(),
    ensures
        out@ == s@.skip(n as int),
{
    let len = s.unicode_len();
    s.substring_char(n, len).to_owned()
}

/// The pieces of `s` between occurrences of `sep`, see [`split_on`].
pub fn split(s: &str, sep: char) -> (pieces: Vec<String>)
    ensures
        pieces@.len() == split_on(s@, sep).len(),
        forall|k: int| 0 <= k < pieces@.len() ==> (#[trigger] pieces@[k])@ == split_on(s@, sep)[k],
{
    let cs = chars_of(s);
    let mut pieces: Vec<String> = Vec::new();
    let mut start: usize = 0;
    let mut i: usize = 0;
    assert(s@.take(0) =~= Seq::<char>::empty());
    assert(s@.subrange(0, 0) =~= Seq::<char>::empty());
    while i < cs.len()
        invariant
            start <= i <= cs.len(),
            cs@ == s@,
            split_on(s@.take(i as int), sep).len() == pieces@.len() + 1,
            forall|k: int|
                0 <= k < pieces@.len() ==> (#[trigger] pieces@[k])@ == split_on(
                    s@.take(i as int),
                    sep,
                )[k],
            split_on(s@.take(i as int), sep).last() == s@.subrange(start as int, i as int),
        decreases cs.len() - i,
    {
        let ghost before = split_on(s@.take(i as int), sep);
        assert(s@.take(i + 1).drop_last() =~= s@.take(i as int));
        assert(s@.take(i + 1).last() == cs@[i as int]);
        if cs[i] == sep {
            pieces.push(s.substring_char(start, i).to_owned());
            start = i + 1;
            assert(s@.subrange(start as int, start as int) =~= Seq::<char>::empty());
        } else {
            assert(s@.subrange(start as int, i as int).push(s@[i as int]) =~= s@.subrange(
                start as int,
                i + 1,
            ));
        }
        i += 1;
    }
    assert(s@.take(cs.len() as int) =~= s@);
    pieces.push(s.substring_char(start, i).to_owned());
    pieces
}

} // verus!
