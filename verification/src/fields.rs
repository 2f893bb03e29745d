//! The fields that records are framed from: texts, lists of texts, flags,
//! words and values that may be missing, each with how it is written and how
//! it is read back.

use crate::framing::{frame, frame_items, unframe, unframe_items};
use crate::identity::{copy_bytes, StorablePrincipal};
use crate::store::key_views;
use crate::types::texts;
use vstd::prelude::*;
use vstd::string::*;
use vstd::utf8::*;

verus! {

// Texts

/// A text is read from bytes that are UTF-8.
pub open spec fn parse_text(b: Seq<u8>) -> Option<Seq<char>> {
    if valid_utf8(b) {
        Some(decode_utf8(b))
    } else {
        None
    }
}

/// `String::from_utf8`: the string that holds exactly these bytes, or nothing
/// where they are not UTF-8.
#[verifier::external_body]
fn string_from_utf8(bytes: Vec<u8>) -> (r: Option<String>)
    ensures
        match r {
            Some(s) => encode_utf8(s@) == bytes@,
            None => !valid_utf8(bytes@),
        },
{
    match String::from_utf8(bytes) {
        Ok(s) => Some(s),
        Err(_) => None,
    }
}

/// Writes a text as its UTF-8 bytes.
pub fn encode_text(s: &String) -> (r: Vec<u8>)
    ensures
        r@ == encode_utf8(s@),
        parse_text(r@) == Some(s@),
{
    proof {
        encode_utf8_valid_utf8(s@);
        encode_utf8_decode_utf8(s@);
    }
    s.as_str().as_bytes_vec()
}

/// Reads a text.
pub fn decode_text(b: &Vec<u8>) -> (r: Option<String>)
    ensures
        match r {
            Some(s) => parse_text(b@) == Some(s@),
            None => parse_text(b@) is None,
        },
{
    match string_from_utf8(copy_bytes(b)) {
        Some(s) => {
            proof {
                encode_utf8_valid_utf8(s@);
                encode_utf8_decode_utf8(s@);
            }
            Some(s)
        },
        None => None,
    }
}

// Lists of texts

/// The UTF-8 bytes of each text of a list.
pub open spec fn texts_fields(v: Seq<Seq<char>>) -> Seq<Seq<u8>> {
    v.map_values(|s: Seq<char>| encode_utf8(s))
}

/// A list of texts is written as the frames of its texts.
pub open spec fn texts_bytes(v: Seq<Seq<char>>) -> Seq<u8> {
    frame(texts_fields(v))
}

/// Every item is UTF-8.
pub open spec fn all_texts(items: Seq<Seq<u8>>) -> bool {
    forall|i: int| 0 <= i < items.len() ==> valid_utf8(#[trigger] items[i])
}

/// A list of texts is read from frames that each hold UTF-8.
pub open spec fn parse_texts(b: Seq<u8>) -> Option<Seq<Seq<char>>> {
    match unframe(b) {
        Some(items) => if all_texts(items) {
            Some(items.map_values(|x: Seq<u8>| decode_utf8(x)))
        } else {
            None
        },
        None => None,
    }
}

/// Writes a list of texts.
pub fn encode_texts(v: &Vec<String>) -> (r: Vec<u8>)
    ensures
        r@ == texts_bytes(texts(v@)),
        parse_texts(r@) == Some(texts(v@)),
{
    let mut items: Vec<Vec<u8>> = Vec::with_capacity(v.len());
    let mut i: usize = 0;
    while i < v.len()
        invariant
            i <= v@.len(),
            items@.len() == i,
            forall|j: int| 0 <= j < i ==> (#[trigger] items@[j])@ == encode_utf8(v@[j]@),
        decreases v@.len() - i,
    {
        items.push(encode_text(&v[i]));
        i += 1;
    }
    let r = frame_items(&items);
    proof {
        let fields = key_views(items@);
        assert(fields =~= texts_fields(texts(v@)));
        assert forall|j: int| 0 <= j < fields.len() implies valid_utf8(#[trigger] fields[j]) by {
            encode_utf8_valid_utf8(v@[j]@);
        }
        assert(fields.map_values(|x: Seq<u8>| decode_utf8(x)) =~= texts(v@)) by {
            assert forall|j: int| 0 <= j < fields.len() implies decode_utf8(#[trigger] fields[j])
                == texts(v@)[j] by {
                encode_utf8_decode_utf8(v@[j]@);
            }
        }
    }
    r
}

/// Reads a list of texts.
pub fn decode_texts(b: &Vec<u8>) -> (r: Option<Vec<String>>)
    ensures
        match r {
            Some(v) => parse_texts(b@) == Some(texts(v@)),
            None => parse_texts(b@) is None,
        },
{
    let items = match unframe_items(b) {
        Some(items) => items,
        None => {
            return None;
        },
    };
    let ghost fields = key_views(items@);
    let mut out: Vec<String> = Vec::with_capacity(items.len());
    let mut i: usize = 0;
    while i < items.len()
        invariant
            i <= items@.len(),
            fields == key_views(items@),
            unframe(b@) == Some(fields),
            out@.len() == i,
            forall|j: int| 0 <= j < i ==> valid_utf8(#[trigger] fields[j]),
            forall|j: int| 0 <= j < i ==> (#[trigger] out@[j])@ == decode_utf8(fields[j]),
        decreases items@.len() - i,
    {
        match decode_text(&items[i]) {
            Some(s) => {
                out.push(s);
            },
            None => {
                assert(!valid_utf8(fields[i as int]));
                return None;
            },
        }
        i += 1;
    }
    assert(texts(out@) =~= fields.map_values(|x: Seq<u8>| decode_utf8(x)));
    Some(out)
}

// Flags

/// A flag is written as one byte, 0 or 1.
pub open spec fn flag_bytes(b: bool) -> Seq<u8> {
    seq![if b { 1u8 } else { 0u8 }]
}

/// A flag is read from one byte that is 0 or 1.
pub open spec fn parse_flag(b: Seq<u8>) -> Option<bool> {
    if b.len() == 1 && b[0] <= 1 {
        Some(b[0] == 1)
    } else {
        None
    }
}

/// Writes a flag.
pub fn encode_flag(b: bool) -> (r: Vec<u8>)
    ensures
        r@ == flag_bytes(b),
        parse_flag(r@) == Some(b),
{
    let mut r: Vec<u8> = Vec::with_capacity(1);
    r.push(if b { 1u8 } else { 0u8 });
    assert(r@ =~= flag_bytes(b));
    r
}

/// Reads a flag.
pub fn decode_flag(b: &Vec<u8>) -> (r: Option<bool>)
    ensures
        r == parse_flag(b@),
{
    if b.len() == 1 && b[0] <= 1 {
        Some(b[0] == 1)
    } else {
        None
    }
}

// Values that may be missing

/// A value that may be missing is written as a list of one item or of none.
pub open spec fn optional_bytes(o: Option<Seq<u8>>) -> Seq<u8> {
    match o {
        Some(x) => frame(seq![x]),
        None => frame(Seq::empty()),
    }
}

/// A value that may be missing is read from a list of one item or of none.
pub open spec fn parse_optional(b: Seq<u8>) -> Option<Option<Seq<u8>>> {
    match unframe(b) {
        Some(items) => if items.len() == 0 {
            Some(None)
        } else if items.len() == 1 {
            Some(Some(items[0]))
        } else {
            None
        },
        None => None,
    }
}

/// Writes bytes that may be missing.
pub fn encode_optional(o: Option<&Vec<u8>>) -> (r: Vec<u8>)
    ensures
        r@ == optional_bytes(
            match o {
                Some(x) => Some(x@),
                None => None,
            },
        ),
        parse_optional(r@) == Some(
            match o {
                Some(x) => Some(x@),
                None => None::<Seq<u8>>,
            },
        ),
{
    let mut items: Vec<Vec<u8>> = Vec::new();
    match o {
        Some(x) => {
            items.push(copy_bytes(x));
            assert(key_views(items@) =~= seq![x@]);
        },
        None => {
            assert(key_views(items@) =~= Seq::<Seq<u8>>::empty());
        },
    }
    frame_items(&items)
}

/// Reads bytes that may be missing.
pub fn decode_optional(b: &Vec<u8>) -> (r: Option<Option<Vec<u8>>>)
    ensures
        match r {
            Some(Some(x)) => parse_optional(b@) == Some(Some(x@)),
            Some(None) => parse_optional(b@) == Some(None::<Seq<u8>>),
            None => parse_optional(b@) is None,
        },
{
    match unframe_items(b) {
        Some(items) => {
            if items.len() == 0 {
                Some(None)
            } else if items.len() == 1 {
                Some(Some(copy_bytes(&items[0])))
            } else {
                None
            }
        },
        None => None,
    }
}

// Identities

/// The identity that a field holds: any bytes are one.
pub fn decode_identity(b: &Vec<u8>) -> (r: StorablePrincipal)
    ensures
        r@ == b@,
{
    StorablePrincipal(copy_bytes(b))
}

} // verus!
