//! How each record of the registry is written into a table and read back.
//!
//! A record is the frames of its fields, in the order of the `_fields`
//! functions below. Reading checks every field, and what was written reads
//! back as the same record.

use crate::fields::{
    decode_identity, decode_optional, decode_text, encode_optional, encode_text, optional_bytes,
    parse_optional, parse_text,
};
use crate::framing::{
    frame, frame_items, lemma_word, read_word, unframe, unframe_items, word, word_bytes,
    word_value,
};
use crate::identity::{copy_bytes, StorablePrincipal};
use crate::store::key_views;
use crate::types::{
    identities, optional_identity, optional_text, ProposalStatus, ProposalType, ResearchType,
};
use vstd::prelude::*;
use vstd::utf8::*;

verus! {

// Tags

/// The byte that stands for a kind of research.
pub open spec fn research_type_tag(t: ResearchType) -> u8 {
    match t {
        ResearchType::Paper => 0,
        ResearchType::Dataset => 1,
        ResearchType::Code => 2,
        ResearchType::Experiment => 3,
        ResearchType::Review => 4,
    }
}

/// The kind of research that a field of one byte stands for.
pub open spec fn parse_research_type(b: Seq<u8>) -> Option<ResearchType> {
    if b.len() != 1 {
        None
    } else if b[0] == 0 {
        Some(ResearchType::Paper)
    } else if b[0] == 1 {
        Some(ResearchType::Dataset)
    } else if b[0] == 2 {
        Some(ResearchType::Code)
    } else if b[0] == 3 {
        Some(ResearchType::Experiment)
    } else if b[0] == 4 {
        Some(ResearchType::Review)
    } else {
        None
    }
}

/// The byte that stands for a type of proposal.
pub open spec fn proposal_type_tag(t: ProposalType) -> u8 {
    match t {
        ProposalType::PlatformUpgrade => 0,
        ProposalType::ResearchStandard => 1,
        ProposalType::TreasuryAllocation => 2,
        ProposalType::GovernanceChange => 3,
    }
}

/// The type of proposal that a field of one byte stands for.
pub open spec fn parse_proposal_type(b: Seq<u8>) -> Option<ProposalType> {
    if b.len() != 1 {
        None
    } else if b[0] == 0 {
        Some(ProposalType::PlatformUpgrade)
    } else if b[0] == 1 {
        Some(ProposalType::ResearchStandard)
    } else if b[0] == 2 {
        Some(ProposalType::TreasuryAllocation)
    } else if b[0] == 3 {
        Some(ProposalType::GovernanceChange)
    } else {
        None
    }
}

/// The byte that stands for a status.
pub open spec fn proposal_status_tag(s: ProposalStatus) -> u8 {
    match s {
        ProposalStatus::Active => 0,
        ProposalStatus::Passed => 1,
        ProposalStatus::Rejected => 2,
        ProposalStatus::Executed => 3,
    }
}

/// The status that a field of one byte stands for.
pub open spec fn parse_proposal_status(b: Seq<u8>) -> Option<ProposalStatus> {
    if b.len() != 1 {
        None
    } else if b[0] == 0 {
        Some(ProposalStatus::Active)
    } else if b[0] == 1 {
        Some(ProposalStatus::Passed)
    } else if b[0] == 2 {
        Some(ProposalStatus::Rejected)
    } else if b[0] == 3 {
        Some(ProposalStatus::Executed)
    } else {
        None
    }
}

fn tag_field(tag: u8) -> (r: Vec<u8>)
    ensures
        r@ == seq![tag],
{
    let mut r: Vec<u8> = Vec::with_capacity(1);
    r.push(tag);
    assert(r@ =~= seq![tag]);
    r
}

/// Writes a kind of research as its tag.
pub fn encode_research_type(t: ResearchType) -> (r: Vec<u8>)
    ensures
        r@ == seq![research_type_tag(t)],
        parse_research_type(r@) == Some(t),
{
    tag_field(
        match t {
            ResearchType::Paper => 0,
            ResearchType::Dataset => 1,
            ResearchType::Code => 2,
            ResearchType::Experiment => 3,
            ResearchType::Review => 4,
        },
    )
}

/// Reads a kind of research from its tag.
pub fn decode_research_type(b: &Vec<u8>) -> (r: Option<ResearchType>)
    ensures
        r == parse_research_type(b@),
{
    if b.len() != 1 {
        None
    } else if b[0] == 0 {
        Some(ResearchType::Paper)
    } else if b[0] == 1 {
        Some(ResearchType::Dataset)
    } else if b[0] == 2 {
        Some(ResearchType::Code)
    } else if b[0] == 3 {
        Some(ResearchType::Experiment)
    } else if b[0] == 4 {
        Some(ResearchType::Review)
    } else {
        None
    }
}

/// Writes a type of proposal as its tag.
pub fn encode_proposal_type(t: ProposalType) -> (r: Vec<u8>)
    ensures
        r@ == seq![proposal_type_tag(t)],
        parse_proposal_type(r@) == Some(t),
{
    tag_field(
        match t {
            ProposalType::PlatformUpgrade => 0,
            ProposalType::ResearchStandard => 1,
            ProposalType::TreasuryAllocation => 2,
            ProposalType::GovernanceChange => 3,
        },
    )
}

/// Reads a type of proposal from its tag.
pub fn decode_proposal_type(b: &Vec<u8>) -> (r: Option<ProposalType>)
    ensures
        r == parse_proposal_type(b@),
{
    if b.len() != 1 {
        None
    } else if b[0] == 0 {
        Some(ProposalType::PlatformUpgrade)
    } else if b[0] == 1 {
        Some(ProposalType::ResearchStandard)
    } else if b[0] == 2 {
        Some(ProposalType::TreasuryAllocation)
    } else if b[0] == 3 {
        Some(ProposalType::GovernanceChange)
    } else {
        None
    }
}

/// Writes a status as its tag.
pub fn encode_proposal_status(s: ProposalStatus) -> (r: Vec<u8>)
    ensures
        r@ == seq![proposal_status_tag(s)],
        parse_proposal_status(r@) == Some(s),
{
    tag_field(
        match s {
            ProposalStatus::Active => 0,
            ProposalStatus::Passed => 1,
            ProposalStatus::Rejected => 2,
            ProposalStatus::Executed => 3,
        },
    )
}

/// Reads a status from its tag.
pub fn decode_proposal_status(b: &Vec<u8>) -> (r: Option<ProposalStatus>)
    ensures
        r == parse_proposal_status(b@),
{
    if b.len() != 1 {
        None
    } else if b[0] == 0 {
        Some(ProposalStatus::Active)
    } else if b[0] == 1 {
        Some(ProposalStatus::Passed)
    } else if b[0] == 2 {
        Some(ProposalStatus::Rejected)
    } else if b[0] == 3 {
        Some(ProposalStatus::Executed)
    } else {
        None
    }
}

// Words as table keys and balances

/// The key under which a numbered record is stored.
pub fn id_key(id: u64) -> (r: Vec<u8>)
    ensures
        r@ == word(id),
        r@.len() == 8,
{
    word_bytes(id)
}

// Texts that may be missing

/// A text that may be missing is written as its UTF-8 bytes that may be
/// missing.
pub open spec fn optional_text_bytes(o: Option<Seq<char>>) -> Seq<u8> {
    optional_bytes(
        match o {
            Some(s) => Some(encode_utf8(s)),
            None => None,
        },
    )
}

/// A text that may be missing is read from bytes that may be missing and
/// are UTF-8 where they are there.
pub open spec fn parse_optional_text(b: Seq<u8>) -> Option<Option<Seq<char>>> {
    match parse_optional(b) {
        Some(Some(x)) => match parse_text(x) {
            Some(s) => Some(Some(s)),
            None => None,
        },
        Some(None) => Some(None),
        None => None,
    }
}

/// Writes a text that may be missing.
pub fn encode_optional_text(o: &Option<String>) -> (r: Vec<u8>)
    ensures
        r@ == optional_text_bytes(optional_text(*o)),
        parse_optional_text(r@) == Some(optional_text(*o)),
{
    match o {
        Some(s) => {
            let b = encode_text(s);
            encode_optional(Some(&b))
        },
        None => encode_optional(None),
    }
}

/// Reads a text that may be missing.
pub fn decode_optional_text(b: &Vec<u8>) -> (r: Option<Option<String>>)
    ensures
        match r {
            Some(o) => parse_optional_text(b@) == Some(optional_text(o)),
            None => parse_optional_text(b@) is None,
        },
{
    match decode_optional(b) {
        Some(Some(x)) => match decode_text(&x) {
            Some(s) => Some(Some(s)),
            None => None,
        },
        Some(None) => Some(None),
        None => None,
    }
}

/// Writes an identity that may be missing.
pub fn encode_optional_identity(o: &Option<StorablePrincipal>) -> (r: Vec<u8>)
    ensures
        r@ == optional_bytes(optional_identity(*o)),
        parse_optional(r@) == Some(optional_identity(*o)),
{
    match o {
        Some(p) => encode_optional(Some(&p.0)),
        None => encode_optional(None),
    }
}

/// Reads an identity that may be missing.
pub fn decode_optional_identity(b: &Vec<u8>) -> (r: Option<Option<StorablePrincipal>>)
    ensures
        match r {
            Some(o) => parse_optional(b@) == Some(optional_identity(o)),
            None => parse_optional(b@) is None,
        },
{
    match decode_optional(b) {
        Some(Some(x)) => Some(Some(StorablePrincipal(x))),
        Some(None) => Some(None),
        None => None,
    }
}

// Lists of identities and of ids

/// Writes a list of identities as the frames of their bytes.
pub fn encode_identities(v: &Vec<StorablePrincipal>) -> (r: Vec<u8>)
    ensures
        r@ == frame(identities(v@)),
        unframe(r@) == Some(identities(v@)),
{
    let mut items: Vec<Vec<u8>> = Vec::with_capacity(v.len());
    let mut i: usize = 0;
    while i < v.len()
        invariant
            i <= v@.len(),
            items@.len() == i,
            forall|j: int| 0 <= j < i ==> (#[trigger] items@[j])@ == v@[j]@,
        decreases v@.len() - i,
    {
        items.push(copy_bytes(&v[i].0));
        i += 1;
    }
    assert(key_views(items@) =~= identities(v@));
    frame_items(&items)
}

/// Reads a list of identities.
pub fn decode_identities(b: &Vec<u8>) -> (r: Option<Vec<StorablePrincipal>>)
    ensures
        match r {
            Some(v) => unframe(b@) == Some(identities(v@)),
            None => unframe(b@) is None,
        },
{
    let items = match unframe_items(b) {
        Some(items) => items,
        None => {
            return None;
        },
    };
    let ghost fields = key_views(items@);
    let mut out: Vec<StorablePrincipal> = Vec::with_capacity(items.len());
    let mut i: usize = 0;
    while i < items.len()
        invariant
            i <= items@.len(),
            fields == key_views(items@),
            out@.len() == i,
            forall|j: int| 0 <= j < i ==> (#[trigger] out@[j])@ == fields[j],
        decreases items@.len() - i,
    {
        out.push(decode_identity(&items[i]));
        i += 1;
    }
    assert(identities(out@) =~= fields);
    Some(out)
}

/// The words of a list of ids.
pub open spec fn ids_fields(ids: Seq<u64>) -> Seq<Seq<u8>> {
    ids.map_values(|id: u64| word(id))
}

/// Every item has the length of a word.
pub open spec fn all_words(items: Seq<Seq<u8>>) -> bool {
    forall|i: int| 0 <= i < items.len() ==> (#[trigger] items[i]).len() == 8
}

/// A list of ids is read from frames that each hold a word.
pub open spec fn parse_ids(b: Seq<u8>) -> Option<Seq<u64>> {
    match unframe(b) {
        Some(items) => if all_words(items) {
            Some(items.map_values(|x: Seq<u8>| word_value(x)))
        } else {
            None
        },
        None => None,
    }
}

/// Writes a list of ids as the frames of their words.
pub fn encode_ids(ids: &Vec<u64>) -> (r: Vec<u8>)
    ensures
        r@ == frame(ids_fields(ids@)),
        parse_ids(r@) == Some(ids@),
{
    let mut items: Vec<Vec<u8>> = Vec::with_capacity(ids.len());
    let mut i: usize = 0;
    while i < ids.len()
        invariant
            i <= ids@.len(),
            items@.len() == i,
            forall|j: int| 0 <= j < i ==> (#[trigger] items@[j])@ == word(ids@[j]),
        decreases ids@.len() - i,
    {
        items.push(word_bytes(ids[i]));
        i += 1;
    }
    let r = frame_items(&items);
    proof {
        let fields = key_views(items@);
        assert(fields =~= ids_fields(ids@));
        assert forall|j: int| 0 <= j < fields.len() implies (#[trigger] fields[j]).len() == 8 by {
            lemma_word(ids@[j]);
        }
        assert(fields.map_values(|x: Seq<u8>| word_value(x)) =~= ids@) by {
            assert forall|j: int| 0 <= j < fields.len() implies word_value(#[trigger] fields[j])
                == ids@[j] by {
                lemma_word(ids@[j]);
            }
        }
    }
    r
}

/// Reads a list of ids.
pub fn decode_ids(b: &Vec<u8>) -> (r: Option<Vec<u64>>)
    ensures
        match r {
            Some(ids) => parse_ids(b@) == Some(ids@),
            None => parse_ids(b@) is None,
        },
{
    let items = match unframe_items(b) {
        Some(items) => items,
        None => {
            return None;
        },
    };
    let ghost fields = key_views(items@);
    let mut out: Vec<u64> = Vec::with_capacity(items.len());
    let mut i: usize = 0;
    while i < items.len()
        invariant
            i <= items@.len(),
            fields == key_views(items@),
            unframe(b@) == Some(fields),
            out@.len() == i,
            forall|j: int| 0 <= j < i ==> (#[trigger] fields[j]).len() == 8,
            forall|j: int| 0 <= j < i ==> #[trigger] out@[j] == word_value(fields[j]),
        decreases items@.len() - i,
    {
        match read_word(&items[i]) {
            Some(x) => {
                out.push(x);
            },
            None => {
                assert(fields[i as int].len() != 8);
                return None;
            },
        }
        i += 1;
    }
    assert(out@ =~= fields.map_values(|x: Seq<u8>| word_value(x)));
    Some(out)
}

} // verus!
