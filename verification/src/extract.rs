//! Temperature extraction from a history document.
//!
//! The device service's history response is an object whose top-level key
//! names are not part of any stable contract. The sample data sits in the
//! single top-level value that is itself an object with a `temperature` key,
//! holding an array of `[timestampMillis, value]` pairs. This module locates
//! that value and selects the most recent pair.

use vstd::prelude::*;

use crate::json::JsonVal;

verus! {

/// The key under which a candidate object holds its samples.
pub open spec fn temperature_key() -> Seq<char> {
    "temperature"@
}

/// Whether some entry of an object carries this key.
pub open spec fn has_key(entries: Seq<(String, JsonVal)>, key: Seq<char>) -> bool {
    exists|i: int| 0 <= i < entries.len() && (#[trigger] entries[i].0)@ == key
}

/// The value of the first entry carrying this key (`Null` if there is none).
pub open spec fn key_lookup(entries: Seq<(String, JsonVal)>, key: Seq<char>) -> JsonVal
    decreases entries.len(),
{
    if entries.len() == 0 {
        JsonVal::Null
    } else if entries[0].0@ == key {
        entries[0].1
    } else {
        key_lookup(entries.drop_first(), key)
    }
}

/// Find the first entry of a JSON object with the given key.
pub fn lookup_key<'a>(entries: &'a Vec<(String, JsonVal)>, key: &String) -> (r: Option<
    &'a JsonVal,
>)
    ensures
        match r {
            Some(v) => has_key(entries@, key@) && *v == key_lookup(entries@, key@),
            None => !has_key(entries@, key@),
        },
{
    let mut i: usize = 0;
    proof {
        assert(entries@.subrange(0, entries@.len() as int) =~= entries@);
    }
    while i < entries.len()
        invariant
            i <= entries@.len(),
            forall|k: int| 0 <= k < i ==> (#[trigger] entries@[k].0)@ != key@,
            key_lookup(entries@, key@) == key_lookup(
                entries@.subrange(i as int, entries@.len() as int),
                key@,
            ),
        decreases entries@.len() - i,
    {
        proof {
            assert(entries@.subrange(i as int, entries@.len() as int).drop_first()
                =~= entries@.subrange(i + 1, entries@.len() as int));
            assert(entries@.subrange(i as int, entries@.len() as int)[0] == entries@[i as int]);
        }
        let pair = &entries[i];
        if pair.0 == *key {
            return Some(&pair.1);
        }
        i += 1;
    }
    proof {
        if has_key(entries@, key@) {
            let w = choose|w: int|
                0 <= w < entries@.len() && (#[trigger] entries@[w].0)@ == key@;
            assert((entries@[w].0)@ != key@);
        }
    }
    None
}

/// Whether a top-level value is the candidate: an object carrying a
/// `temperature` key.
pub open spec fn is_candidate(v: JsonVal) -> bool {
    match v {
        JsonVal::Obj(es) => has_key(es@, temperature_key()),
        _ => false,
    }
}

/// The first candidate among the top-level entries.
pub open spec fn first_candidate(entries: Seq<(String, JsonVal)>) -> Option<JsonVal>
    decreases entries.len(),
{
    if entries.len() == 0 {
        None
    } else if is_candidate(entries[0].1) {
        Some(entries[0].1)
    } else {
        first_candidate(entries.drop_first())
    }
}

/// How one element of the sample array decodes: a `[timestampMillis, value]`
/// pair must be an array of exactly two numbers whose first member is an
/// integer representable as `i64`; the second member's value is carried
/// through as `serde_json` holds it.
pub open spec fn spec_decode_pair(v: JsonVal) -> Option<(i64, serde_json::Number)> {
    match v {
        JsonVal::Arr(xs) => {
            if xs@.len() == 2 {
                match (xs@[0], xs@[1]) {
                    (JsonVal::Num(a), JsonVal::Num(b)) => {
                        match a.int_value {
                            Some(ts) => Some((ts, b.raw)),
                            None => None,
                        }
                    },
                    _ => None,
                }
            } else {
                None
            }
        },
        _ => None,
    }
}

/// Decode one element of the sample array.
fn decode_pair(v: &JsonVal) -> (r: Option<(i64, serde_json::Number)>)
    ensures
        match r {
            Some(p) => spec_decode_pair(*v) == Some(p),
            None => spec_decode_pair(*v) is None,
        },
{
    match v {
        JsonVal::Arr(xs) => {
            if xs.len() != 2 {
                return None;
            }
            match (&xs[0], &xs[1]) {
                (JsonVal::Num(a), JsonVal::Num(b)) => {
                    match a.int_value {
                        Some(ts) => Some((ts, b.raw.clone())),
                        None => None,
                    }
                },
                _ => None,
            }
        },
        _ => None,
    }
}

/// Whether every element of the sample array decodes.
pub open spec fn pairs_decodable(xs: Seq<JsonVal>) -> bool {
    forall|i: int| 0 <= i < xs.len() ==> spec_decode_pair(#[trigger] xs[i]) is Some
}

/// The decoded sample array (meaningful when every element decodes).
pub open spec fn spec_decoded_pairs(xs: Seq<JsonVal>) -> Seq<(i64, serde_json::Number)> {
    xs.map_values(|v: JsonVal| spec_decode_pair(v)->0)
}

/// The pair with the greatest timestamp; on equal timestamps the later
/// element wins.
pub open spec fn latest_pair(ps: Seq<(i64, serde_json::Number)>) -> (i64, serde_json::Number)
    recommends
        ps.len() > 0,
    decreases ps.len(),
{
    if ps.len() <= 1 {
        ps[0]
    } else {
        let prev = latest_pair(ps.drop_last());
        if ps.last().0 >= prev.0 {
            ps.last()
        } else {
            prev
        }
    }
}

/// `latest_pair` picks an element of the sequence, and no element has a
/// greater timestamp.
pub proof fn lemma_latest_pair(ps: Seq<(i64, serde_json::Number)>)
    requires
        ps.len() > 0,
    ensures
        exists|i: int| 0 <= i < ps.len() && ps[i] == latest_pair(ps),
        forall|i: int| 0 <= i < ps.len() ==> (#[trigger] ps[i]).0 <= latest_pair(ps).0,
    decreases ps.len(),
{
    if ps.len() == 1 {
        assert(ps[0] == latest_pair(ps));
    } else {
        lemma_latest_pair(ps.drop_last());
        let prev = latest_pair(ps.drop_last());
        let w = choose|w: int| 0 <= w < ps.drop_last().len() && ps.drop_last()[w] == prev;
        assert(ps[w] == prev);
        if ps.last().0 >= prev.0 {
            assert(ps[ps.len() - 1] == latest_pair(ps));
        }
        assert forall|i: int| 0 <= i < ps.len() implies (#[trigger] ps[i]).0
            <= latest_pair(ps).0 by {
            if i < ps.len() - 1 {
                assert(ps.drop_last()[i] == ps[i]);
            }
        }
    }
}

/// What extraction yields from a history document.
pub enum Extracted {
    /// No candidate object, or an empty sample array.
    NoReading,
    /// The sample pair with the greatest timestamp, in milliseconds.
    Sample { timestamp_millis: i64, temperature: serde_json::Number },
    /// The document is not an object, the candidate is malformed, or its
    /// samples do not decode as pairs.
    Undecodable,
}

/// What extraction yields: the first top-level value that is an object with
/// a `temperature` key is authoritative; its samples must decode as pairs;
/// the pair with the greatest timestamp is the reading, an empty array or a
/// missing candidate is no reading at all.
pub open spec fn spec_extract(doc: JsonVal) -> Extracted {
    match doc {
        JsonVal::Obj(top) => match first_candidate(top@) {
            None => Extracted::NoReading,
            Some(cand) => match cand {
                JsonVal::Obj(es) => match key_lookup(es@, temperature_key()) {
                    JsonVal::Arr(xs) => if !pairs_decodable(xs@) {
                        Extracted::Undecodable
                    } else if xs@.len() == 0 {
                        Extracted::NoReading
                    } else {
                        Extracted::Sample {
                            timestamp_millis: latest_pair(spec_decoded_pairs(xs@)).0,
                            temperature: latest_pair(spec_decoded_pairs(xs@)).1,
                        }
                    },
                    _ => Extracted::Undecodable,
                },
                _ => Extracted::Undecodable,
            },
        },
        _ => Extracted::Undecodable,
    }
}

/// Decode the whole sample array.
fn decode_pairs(xs: &Vec<JsonVal>) -> (r: Option<Vec<(i64, serde_json::Number)>>)
    ensures
        match r {
            Some(ps) => pairs_decodable(xs@) && ps@ == spec_decoded_pairs(xs@),
            None => !pairs_decodable(xs@),
        },
{
    let mut out: Vec<(i64, serde_json::Number)> = Vec::new();
    let mut i: usize = 0;
    while i < xs.len()
        invariant
            i <= xs@.len(),
            out@.len() == i,
            forall|k: int| 0 <= k < i ==> spec_decode_pair(#[trigger] xs@[k]) is Some,
            forall|k: int| 0 <= k < i ==> out@[k] == spec_decode_pair(#[trigger] xs@[k])->0,
        decreases xs@.len() - i,
    {
        match decode_pair(&xs[i]) {
            Some(p) => {
                out.push(p);
            },
            None => {
                return None;
            },
        }
        i += 1;
    }
    proof {
        assert(out@ =~= spec_decoded_pairs(xs@));
    }
    Some(out)
}

/// Pick the index of the pair with the greatest timestamp (the last such).
fn latest_index(ps: &Vec<(i64, serde_json::Number)>) -> (r: usize)
    requires
        ps@.len() > 0,
    ensures
        r < ps@.len(),
        ps@[r as int] == latest_pair(ps@),
{
    let mut best: usize = 0;
    let mut k: usize = 1;
    proof {
        assert(ps@.subrange(0, 1)[0] == ps@[0]);
    }
    while k < ps.len()
        invariant
            1 <= k <= ps@.len(),
            best < k,
            ps@[best as int] == latest_pair(ps@.subrange(0, k as int)),
        decreases ps@.len() - k,
    {
        proof {
            assert(ps@.subrange(0, k + 1).drop_last() =~= ps@.subrange(0, k as int));
            assert(ps@.subrange(0, k + 1).last() == ps@[k as int]);
        }
        if ps[k].0 >= ps[best].0 {
            best = k;
        }
        k += 1;
    }
    proof {
        assert(ps@.subrange(0, ps@.len() as int) =~= ps@);
    }
    best
}

/// Extract the latest temperature sample from a history document.
pub fn extract_reading(doc: &JsonVal) -> (r: Extracted)
    ensures
        r == spec_extract(*doc),
{
    let top = match doc {
        JsonVal::Obj(top) => top,
        _ => {
            return Extracted::Undecodable;
        },
    };
    let tkey: String = temperature_key_string();
    let mut i: usize = 0;
    proof {
        assert(top@.subrange(0, top@.len() as int) =~= top@);
    }
    while i < top.len()
        invariant
            i <= top@.len(),
            tkey@ == temperature_key(),
            *doc == JsonVal::Obj(*top),
            first_candidate(top@) == first_candidate(
                top@.subrange(i as int, top@.len() as int),
            ),
        decreases top@.len() - i,
    {
        proof {
            assert(top@.subrange(i as int, top@.len() as int).drop_first() =~= top@.subrange(
                i + 1,
                top@.len() as int,
            ));
            assert(top@.subrange(i as int, top@.len() as int)[0] == top@[i as int]);
        }
        let cand_opt: Option<&Vec<(String, JsonVal)>> = match &top[i].1 {
            JsonVal::Obj(es) => Some(es),
            _ => None,
        };
        match cand_opt {
            Some(es) => {
                match lookup_key(es, &tkey) {
                    Some(tv) => {
                        proof {
                            assert(is_candidate(top@[i as int].1));
                            assert(first_candidate(top@) == Some(top@[i as int].1));
                        }
                        match tv {
                            JsonVal::Arr(xs) => {
                                match decode_pairs(xs) {
                                    Some(ps) => {
                                        if ps.len() == 0 {
                                            return Extracted::NoReading;
                                        }
                                        let b = latest_index(&ps);
                                        return Extracted::Sample {
                                            timestamp_millis: ps[b].0,
                                            temperature: ps[b].1.clone(),
                                        };
                                    },
                                    None => {
                                        return Extracted::Undecodable;
                                    },
                                }
                            },
                            _ => {
                                return Extracted::Undecodable;
                            },
                        }
                    },
                    None => {},
                }
            },
            None => {},
        }
        proof {
            assert(!is_candidate(top@[i as int].1));
        }
        i += 1;
    }
    Extracted::NoReading
}

/// The sample key as an owned string.
fn temperature_key_string() -> (r: String)
    ensures
        r@ == temperature_key(),
{
    let r = String::from_str("temperature");
    r
}

proof fn lemma_first_candidate_unique(entries: Seq<(String, JsonVal)>, c: int)
    requires
        0 <= c < entries.len(),
        is_candidate(entries[c].1),
        forall|k: int| 0 <= k < entries.len() && k != c ==> !is_candidate(#[trigger] entries[k].1),
    ensures
        first_candidate(entries) == Some(entries[c].1),
    decreases entries.len(),
{
    if c == 0 {
    } else {
        assert(!is_candidate(entries[0].1));
        assert forall|k: int|
            0 <= k < entries.drop_first().len() && k != c - 1 implies !is_candidate(
            #[trigger] entries.drop_first()[k].1,
        ) by {
            assert(entries.drop_first()[k] == entries[k + 1]);
        }
        assert(entries.drop_first()[c - 1] == entries[c]);
        lemma_first_candidate_unique(entries.drop_first(), c - 1);
    }
}

proof fn lemma_first_candidate_none(entries: Seq<(String, JsonVal)>)
    requires
        forall|k: int| 0 <= k < entries.len() ==> !is_candidate(#[trigger] entries[k].1),
    ensures
        first_candidate(entries) is None,
    decreases entries.len(),
{
    if entries.len() > 0 {
        assert forall|k: int|
            0 <= k < entries.drop_first().len() implies !is_candidate(
            #[trigger] entries.drop_first()[k].1,
        ) by {
            assert(entries.drop_first()[k] == entries[k + 1]);
        }
        lemma_first_candidate_none(entries.drop_first());
    }
}

/// For a history document with exactly one top-level value carrying a
/// `temperature` key, whose sample array decodes as pairs and is nonempty,
/// extraction yields a pair of that array with the greatest timestamp (on
/// equal timestamps, the later element).
pub proof fn lemma_extract_unique_candidate(doc: JsonVal, c: int)
    requires
        doc matches JsonVal::Obj(top) && 0 <= c < top@.len() && (forall|k: int|
            0 <= k < top@.len() && k != c ==> !is_candidate(#[trigger] top@[k].1)) && (top@[c].1
            matches JsonVal::Obj(es) && has_key(es@, temperature_key()) && (key_lookup(
            es@,
            temperature_key(),
        ) matches JsonVal::Arr(xs) && pairs_decodable(xs@) && xs@.len() > 0)),
    ensures
        doc matches JsonVal::Obj(top) ==> (top@[c].1 matches JsonVal::Obj(es) ==> (key_lookup(
            es@,
            temperature_key(),
        ) matches JsonVal::Arr(xs) ==> ({
            let ps = spec_decoded_pairs(xs@);
            &&& spec_extract(doc) == (Extracted::Sample {
                timestamp_millis: latest_pair(ps).0,
                temperature: latest_pair(ps).1,
            })
            &&& exists|i: int| 0 <= i < ps.len() && ps[i] == latest_pair(ps)
            &&& forall|i: int| 0 <= i < ps.len() ==> (#[trigger] ps[i]).0 <= latest_pair(ps).0
        }))),
{
    match doc {
        JsonVal::Obj(top) => {
            assert(is_candidate(top@[c].1));
            lemma_first_candidate_unique(top@, c);
            match top@[c].1 {
                JsonVal::Obj(es) => {
                    match key_lookup(es@, temperature_key()) {
                        JsonVal::Arr(xs) => {
                            lemma_latest_pair(spec_decoded_pairs(xs@));
                        },
                        _ => {},
                    }
                },
                _ => {},
            }
        },
        _ => {},
    }
}

/// For a history document none of whose top-level values is an object
/// carrying a `temperature` key, extraction yields no reading — not an
/// error.
pub proof fn lemma_extract_no_candidate(doc: JsonVal)
    requires
        doc matches JsonVal::Obj(top) && forall|k: int|
            0 <= k < top@.len() ==> !is_candidate(#[trigger] top@[k].1),
    ensures
        spec_extract(doc) == Extracted::NoReading,
{
    match doc {
        JsonVal::Obj(top) => {
            lemma_first_candidate_none(top@);
        },
        _ => {},
    }
}

} // verus!
