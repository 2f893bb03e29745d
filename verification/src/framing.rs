//! Framing: how a list of byte strings becomes one byte string and back.
//!
//! A word is a `u64` in eight bytes, lowest first. An item is framed as the
//! word of its length, then its bytes; a list is the frames of its items, one
//! after the other. Every record of the registry is stored as such a list.

use crate::store::key_views;
use vstd::bytes::*;
use vstd::prelude::*;
use vstd::slice::slice_subrange;

verus! {

/// The eight bytes of a word.
pub open spec fn word(x: u64) -> Seq<u8> {
    spec_u64_to_le_bytes(x)
}

/// The word that eight bytes stand for.
pub open spec fn word_value(s: Seq<u8>) -> u64 {
    spec_u64_from_le_bytes(s)
}

/// The word that a field holds, if it has the length of one.
pub open spec fn parse_word(s: Seq<u8>) -> Option<u64> {
    if s.len() == 8 {
        Some(word_value(s))
    } else {
        None
    }
}

/// One item with its length in front.
pub open spec fn frame_one(item: Seq<u8>) -> Seq<u8> {
    word(item.len() as u64) + item
}

/// The frames of the items, one after the other.
pub open spec fn frame(items: Seq<Seq<u8>>) -> Seq<u8>
    decreases items.len(),
{
    if items.len() == 0 {
        Seq::empty()
    } else {
        frame_one(items[0]) + frame(items.drop_first())
    }
}

/// The items whose frames make up `bytes`, if it is made of whole frames.
pub open spec fn unframe(bytes: Seq<u8>) -> Option<Seq<Seq<u8>>>
    decreases bytes.len(),
{
    if bytes.len() == 0 {
        Some(Seq::empty())
    } else if bytes.len() < 8 {
        None
    } else {
        let n = word_value(bytes.take(8)) as int;
        if 8 + n > bytes.len() {
            None
        } else {
            match unframe(bytes.skip(8 + n)) {
                Some(rest) => Some(seq![bytes.subrange(8, 8 + n)] + rest),
                None => None,
            }
        }
    }
}

/// Every item is short enough for its length to be a word.
pub open spec fn framable(items: Seq<Seq<u8>>) -> bool {
    forall|i: int| 0 <= i < items.len() ==> (#[trigger] items[i]).len() <= u64::MAX
}

/// A word is eight bytes and reads back as itself.
pub proof fn lemma_word(x: u64)
    ensures
        word(x).len() == 8,
        word_value(word(x)) == x,
        parse_word(word(x)) == Some(x),
{
    lemma_auto_spec_u64_to_from_le_bytes();
}

/// The frames of a list with one more item at its end.
pub proof fn lemma_frame_push(items: Seq<Seq<u8>>, item: Seq<u8>)
    ensures
        frame(items.push(item)) == frame(items) + frame_one(item),
    decreases items.len(),
{
    if items.len() == 0 {
        assert(items.push(item).drop_first() =~= Seq::<Seq<u8>>::empty());
        assert(frame(items.push(item).drop_first()) =~= Seq::<u8>::empty());
        assert(frame(items.push(item)) =~= frame_one(item));
        assert(frame(items) + frame_one(item) =~= frame_one(item));
    } else {
        assert(items.push(item).drop_first() =~= items.drop_first().push(item));
        lemma_frame_push(items.drop_first(), item);
        assert(frame_one(items[0]) + (frame(items.drop_first()) + frame_one(item)) =~= (frame_one(
            items[0],
        ) + frame(items.drop_first())) + frame_one(item));
    }
}

/// What was framed is what unframing gives back.
pub proof fn lemma_unframe_frame(items: Seq<Seq<u8>>)
    requires
        framable(items),
    ensures
        unframe(frame(items)) == Some(items),
    decreases items.len(),
{
    if items.len() == 0 {
    } else {
        let first = items[0];
        let rest = items.drop_first();
        let bytes = frame(items);
        lemma_word(first.len() as u64);
        assert(bytes.take(8) =~= word(first.len() as u64));
        assert(bytes.subrange(8, 8 + first.len() as int) =~= first);
        assert(bytes.skip(8 + first.len() as int) =~= frame(rest));
        assert(framable(rest)) by {
            assert forall|i: int| 0 <= i < rest.len() implies (#[trigger] rest[i]).len()
                <= u64::MAX by {
                assert(rest[i] == items[i + 1]);
            }
        }
        lemma_unframe_frame(rest);
        assert(seq![first] + rest =~= items);
    }
}

/// Two lists of items of the same lengths have frames of the same length.
pub proof fn lemma_frame_same_len(a: Seq<Seq<u8>>, b: Seq<Seq<u8>>)
    requires
        a.len() == b.len(),
        forall|i: int| 0 <= i < a.len() ==> (#[trigger] a[i]).len() == b[i].len(),
    ensures
        frame(a).len() == frame(b).len(),
    decreases a.len(),
{
    if a.len() > 0 {
        lemma_word(a[0].len() as u64);
        lemma_word(b[0].len() as u64);
        let ra = a.drop_first();
        let rb = b.drop_first();
        assert forall|i: int| 0 <= i < ra.len() implies (#[trigger] ra[i]).len() == rb[i].len() by {
            assert(ra[i] == a[i + 1]);
        }
        lemma_frame_same_len(ra, rb);
    }
}

/// Appends the bytes of `src` to `out`.
pub fn put_bytes(out: &mut Vec<u8>, src: &Vec<u8>)
    ensures
        final(out)@ == old(out)@ + src@,
{
    let mut i: usize = 0;
    while i < src.len()
        invariant
            i <= src@.len(),
            out@ == old(out)@ + src@.take(i as int),
        decreases src@.len() - i,
    {
        out.push(src[i]);
        assert(old(out)@ + src@.take(i + 1) =~= (old(out)@ + src@.take(i as int)).push(
            src@[i as int],
        ));
        i += 1;
    }
    assert(src@.take(src@.len() as int) =~= src@);
}

/// Appends the eight bytes of a word to `out`.
pub fn put_word(out: &mut Vec<u8>, x: u64)
    ensures
        final(out)@ == old(out)@ + word(x),
{
    let w = u64_to_le_bytes(x);
    put_bytes(out, &w);
}

/// The eight bytes of a word, as a field of their own.
pub fn word_bytes(x: u64) -> (r: Vec<u8>)
    ensures
        r@ == word(x),
        r@.len() == 8,
{
    u64_to_le_bytes(x)
}

/// Reads a field as a word.
pub fn read_word(field: &Vec<u8>) -> (r: Option<u64>)
    ensures
        r == parse_word(field@),
{
    if field.len() == 8 {
        Some(u64_from_le_bytes(field.as_slice()))
    } else {
        None
    }
}

/// Appends the frame of one item to `out`.
pub fn put_frame(out: &mut Vec<u8>, item: &Vec<u8>)
    ensures
        final(out)@ == old(out)@ + frame_one(item@),
{
    put_word(out, item.len() as u64);
    put_bytes(out, item);
    assert(old(out)@ + word(item@.len() as u64) + item@ =~= old(out)@ + frame_one(item@));
}

/// Frames a list of items.
pub fn frame_items(items: &Vec<Vec<u8>>) -> (r: Vec<u8>)
    ensures
        r@ == frame(key_views(items@)),
        unframe(r@) == Some(key_views(items@)),
{
    let mut out: Vec<u8> = Vec::new();
    let mut i: usize = 0;
    assert(key_views(items@).take(0) =~= Seq::<Seq<u8>>::empty());
    while i < items.len()
        invariant
            i <= items@.len(),
            out@ == frame(key_views(items@).take(i as int)),
        decreases items@.len() - i,
    {
        put_frame(&mut out, &items[i]);
        proof {
            let all = key_views(items@);
            assert(all.take(i + 1) =~= all.take(i as int).push(items@[i as int]@));
            lemma_frame_push(all.take(i as int), items@[i as int]@);
        }
        i += 1;
    }
    proof {
        let all = key_views(items@);
        assert(all.take(items@.len() as int) =~= all);
        assert forall|k: int| 0 <= k < all.len() implies (#[trigger] all[k]).len() <= u64::MAX by {
            assert(all[k] == items@[k]@);
            assert(items@[k].len() == items@[k]@.len());
        }
        lemma_unframe_frame(all);
    }
    out
}

/// Takes a byte string apart into the items that were framed in it.
pub fn unframe_items(bytes: &Vec<u8>) -> (r: Option<Vec<Vec<u8>>>)
    ensures
        match r {
            Some(items) => unframe(bytes@) == Some(key_views(items@)),
            None => unframe(bytes@) is None,
        },
{
    let mut items: Vec<Vec<u8>> = Vec::new();
    let mut pos: usize = 0;
    assert(bytes@.skip(0) =~= bytes@);
    assert(key_views(items@) + Seq::<Seq<u8>>::empty() =~= key_views(items@));
    while pos < bytes.len()
        invariant
            pos <= bytes@.len(),
            unframe(bytes@) == match unframe(bytes@.skip(pos as int)) {
                Some(rest) => Some(key_views(items@) + rest),
                None => None,
            },
        decreases bytes@.len() - pos,
    {
        let ghost tail = bytes@.skip(pos as int);
        let ghost done = key_views(items@);
        if bytes.len() - pos < 8 {
            return None;
        }
        let n = u64_from_le_bytes(slice_subrange(bytes.as_slice(), pos, pos + 8));
        assert(bytes@.subrange(pos as int, pos + 8) =~= tail.take(8));
        if n > (bytes.len() - pos - 8) as u64 {
            return None;
        }
        let start: usize = pos + 8;
        let end: usize = start + n as usize;
        let mut item: Vec<u8> = Vec::with_capacity(n as usize);
        let mut j: usize = start;
        while j < end
            invariant
                start <= j <= end <= bytes@.len(),
                item@ == bytes@.subrange(start as int, j as int),
            decreases end - j,
        {
            item.push(bytes[j]);
            assert(bytes@.subrange(start as int, j + 1) =~= bytes@.subrange(
                start as int,
                j as int,
            ).push(bytes@[j as int]));
            j += 1;
        }
        items.push(item);
        proof {
            assert(bytes@.subrange(start as int, end as int) =~= tail.subrange(8, 8 + n));
            assert(bytes@.skip(end as int) =~= tail.skip(8 + n));
            assert(key_views(items@) =~= done.push(tail.subrange(8, 8 + n)));
            match unframe(tail.skip(8 + n)) {
                Some(rest) => {
                    assert(done + (seq![tail.subrange(8, 8 + n)] + rest) =~= key_views(items@)
                        + rest);
                },
                None => {},
            }
        }
        pos = end;
    }
    assert(key_views(items@) + Seq::<Seq<u8>>::empty() =~= key_views(items@));
    Some(items)
}

} // verus!
