use vstd::prelude::*;
use vstd::utf8::{decode_utf8, valid_utf8};

verus! {

/// One record handed in at construction: the bytes of a key (without its
/// terminating NUL) and the caller's token for it.
pub struct SearchElement {
    pub key: Vec<u8>,
    pub val: usize,
}

/// Whether the record's key is well-formed UTF-8.
pub open spec fn key_is_text(r: SearchElement) -> bool {
    valid_utf8(r.key@)
}

/// The pattern table built from `records`: the records whose key is
/// well-formed UTF-8, in their order, each as its decoded key and its token.
pub open spec fn kept_patterns(records: Seq<SearchElement>) -> Seq<(Seq<char>, usize)>
    decreases records.len(),
{
    if records.len() == 0 {
        Seq::empty()
    } else {
        let rest = kept_patterns(records.drop_last());
        let r = records.last();
        if key_is_text(r) {
            rest.push((decode_utf8(r.key@), r.val))
        } else {
            rest
        }
    }
}

/// Number of records whose key is well-formed UTF-8.
pub open spec fn text_key_count(records: Seq<SearchElement>) -> nat {
    records.filter(|r: SearchElement| key_is_text(r)).len()
}

/// The pattern table as plain values.
pub open spec fn table_view(t: Seq<(String, usize)>) -> Seq<(Seq<char>, usize)> {
    t.map_values(|p: (String, usize)| (p.0@, p.1))
}

/// Relies on std::str::from_utf8: it succeeds exactly on well-formed UTF-8,
/// and then the text holds the characters that the bytes encode.
#[verifier::external_body]
fn decode_key(bytes: &[u8]) -> (r: Option<String>)
    ensures
        r is Some <==> valid_utf8(bytes@),
        r matches Some(s) ==> s@ == decode_utf8(bytes@),
{
    match std::str::from_utf8(bytes) {
        Ok(s) => Some(s.to_string()),
        Err(_) => None,
    }
}

/// Builds the pattern table for an engine: records whose key is not
/// well-formed UTF-8 are left out, silently; the others keep their order.
pub fn searchable_patterns(records: &Vec<SearchElement>) -> (r: Vec<(String, usize)>)
    ensures
        table_view(r@) == kept_patterns(records@),
{
    let mut r: Vec<(String, usize)> = Vec::new();
    let mut i: usize = 0;
    while i < records.len()
        invariant
            i <= records@.len(),
            table_view(r@) == kept_patterns(records@.subrange(0, i as int)),
        decreases records@.len() - i,
    {
        let rec = &records[i];
        let decoded = decode_key(rec.key.as_slice());
        let ghost before = r@;
        proof {
            assert(records@.subrange(0, i + 1).drop_last() =~= records@.subrange(0, i as int));
        }
        match decoded {
            Some(s) => {
                r.push((s, rec.val));
                assert(table_view(r@) =~= table_view(before).push((s@, rec.val)));
            },
            None => {},
        }
        i += 1;
    }
    assert(records@.subrange(0, records@.len() as int) =~= records@);
    r
}

/// The table handed to the engine has one entry for each record whose key is
/// well-formed UTF-8, and no other.
pub proof fn lemma_pattern_count(records: Seq<SearchElement>)
    ensures
        kept_patterns(records).len() == text_key_count(records),
    decreases records.len(),
{
    reveal(Seq::filter);
    if records.len() > 0 {
        lemma_pattern_count(records.drop_last());
    }
}

/// With no records there is no pattern.
pub proof fn lemma_no_records_no_patterns()
    ensures
        kept_patterns(Seq::empty()).len() == 0,
        text_key_count(Seq::empty()) == 0,
{
    lemma_pattern_count(Seq::empty());
}

} // verus!
