//! The body of a station report: `application/x-www-form-urlencoded` fields,
//! decoded by the `url` crate and gathered into one value per key.

use vstd::prelude::*;
use crate::routing::fields;
use crate::text::text_eq;
use vstd::string::StringSliceAdditionalSpecFns;

verus! {

/// The (name, value) pairs that `url::form_urlencoded::parse` decodes from
/// `input`, in their order.
pub uninterp spec fn form_urlencoded_pairs(input: Seq<u8>) -> Seq<(Seq<char>, Seq<char>)>;

/// A byte that the form decoding leaves as it is and that separates nothing:
/// ASCII, and none of `&`, `=`, `+` and `%`.
pub open spec fn is_plain_byte(b: u8) -> bool {
    b < 0x80 && b != 0x26 && b != 0x3d && b != 0x2b && b != 0x25
}

/// The characters of ASCII bytes.
pub open spec fn ascii_chars(bytes: Seq<u8>) -> Seq<char> {
    bytes.map_values(|b: u8| b as char)
}

/// Decodes the form-encoded `input` into its (name, value) pairs, through
/// `url::form_urlencoded::parse` and `Parse::into_owned`.
///
/// Claims that the pairs are `form_urlencoded_pairs` of the input, and what
/// the crate's source shows of them: nothing comes of an empty input; the
/// input splits at its first `&` into the pairs before it and those after it;
/// and a field of plain bytes (ASCII without `&`, `+` and `%`) is its name up
/// to its first `=` and its value after it (empty where it has no `=`). How
/// `+`, percent escapes and invalid UTF-8 decode is left unsaid.
#[verifier::external_body]
fn decode_form(input: &[u8]) -> (r: Vec<(String, String)>)
    ensures
        fields(r@) == form_urlencoded_pairs(input@),
        input@.len() == 0 ==> r@.len() == 0,
        forall|k: int|
            0 <= k < input@.len() && input@[k] == 0x26 && (forall|j: int|
                0 <= j < k ==> input@[j] != 0x26) ==> #[trigger] fields(r@)
                == form_urlencoded_pairs(input@.take(k)) + form_urlencoded_pairs(input@.skip(k + 1)),
        input@.len() > 0 && (forall|j: int| 0 <= j < input@.len() ==> is_plain_byte(input@[j]))
            ==> fields(r@) == seq![(ascii_chars(input@), Seq::<char>::empty())],
        forall|k: int|
            0 <= k < input@.len() && input@[k] == 0x3d && (forall|j: int|
                0 <= j < k ==> is_plain_byte(input@[j])) && (forall|j: int|
                k < j < input@.len() ==> is_plain_byte(input@[j]) || input@[j] == 0x3d)
                ==> #[trigger] fields(r@) == seq![
                (ascii_chars(input@.take(k)), ascii_chars(input@.skip(k + 1))),
            ],
{
    url::form_urlencoded::parse(input).into_owned().collect()
}

/// The value of the last pair named `key`.
pub open spec fn last_value(pairs: Seq<(Seq<char>, Seq<char>)>, key: Seq<char>) -> Option<
    Seq<char>,
>
    decreases pairs.len(),
{
    if pairs.len() == 0 {
        None
    } else if pairs.last().0 == key {
        Some(pairs.last().1)
    } else {
        last_value(pairs.drop_last(), key)
    }
}

/// `fields` holds one field per name that `pairs` has, each with the value of
/// the last pair of that name: what collecting the pairs into a map keyed by
/// name gives.
pub open spec fn gathers(fields: Seq<(Seq<char>, Seq<char>)>, pairs: Seq<(Seq<char>, Seq<char>)>) -> bool {
    &&& forall|i: int, j: int| 0 <= i < j < fields.len() ==> fields[i].0 != fields[j].0
    &&& forall|i: int| 0 <= i < fields.len() ==> last_value(pairs, #[trigger] fields[i].0) == Some(fields[i].1)
    &&& forall|k: Seq<char>| #[trigger] last_value(pairs, k) is Some ==> exists|i: int|
        0 <= i < fields.len() && fields[i].0 == k
}

/// The names of `fields` come in the order of their first pair: every pair
/// named like a later field comes after some pair named like an earlier one.
pub open spec fn in_first_pair_order(
    fields: Seq<(Seq<char>, Seq<char>)>,
    pairs: Seq<(Seq<char>, Seq<char>)>,
) -> bool {
    forall|i: int, j: int, b: int|
        #![trigger fields[i], fields[j], pairs[b]]
        0 <= i < j < fields.len() && 0 <= b < pairs.len() && pairs[b].0 == fields[j].0 ==> exists|
            a: int,
        | 0 <= a < b && #[trigger] pairs[a].0 == fields[i].0
}

/// A name has a last value exactly where some pair has that name.
proof fn lemma_last_value_some(pairs: Seq<(Seq<char>, Seq<char>)>, key: Seq<char>)
    ensures
        last_value(pairs, key) is Some <==> exists|b: int| 0 <= b < pairs.len() && #[trigger] pairs[b].0 == key,
    decreases pairs.len(),
{
    if pairs.len() > 0 {
        let rest = pairs.drop_last();
        lemma_last_value_some(rest, key);
        if last_value(pairs, key) is Some && pairs.last().0 != key {
            let b = choose|b: int| 0 <= b < rest.len() && #[trigger] rest[b].0 == key;
            assert(pairs[b].0 == key);
        }
        if exists|b: int| 0 <= b < pairs.len() && #[trigger] pairs[b].0 == key {
            let b = choose|b: int| 0 <= b < pairs.len() && #[trigger] pairs[b].0 == key;
            if b < rest.len() {
                assert(rest[b].0 == key);
            }
        }
    }
}

/// Where `key` is among the names of `fields`.
fn position_of(entries: &Vec<(String, String)>, key: &str) -> (r: Option<usize>)
    ensures
        match r {
            Some(j) => j < entries.len() && entries@[j as int].0@ == key@,
            None => forall|m: int| 0 <= m < entries.len() ==> entries@[m].0@ != key@,
        },
{
    let mut j: usize = 0;
    while j < entries.len()
        invariant
            j <= entries.len(),
            forall|m: int| 0 <= m < j ==> entries@[m].0@ != key@,
        decreases entries.len() - j,
    {
        if text_eq(entries[j].0.as_str(), key) {
            return Some(j);
        }
        j = j + 1;
    }
    None
}

/// Gathers `pairs` into one field per name, each with the value of the last
/// pair of that name; names keep the order of their first pair.
pub fn gather_fields(pairs: Vec<(String, String)>) -> (r: Vec<(String, String)>)
    ensures
        gathers(fields(r@), fields(pairs@)),
        in_first_pair_order(fields(r@), fields(pairs@)),
{
    let mut out: Vec<(String, String)> = Vec::new();
    let mut i: usize = 0;
    while i < pairs.len()
        invariant
            i <= pairs.len(),
            gathers(fields(out@), fields(pairs@).take(i as int)),
            in_first_pair_order(fields(out@), fields(pairs@).take(i as int)),
        decreases pairs.len() - i,
    {
        let ghost seen = fields(pairs@).take(i as int);
        let ghost next = fields(pairs@).take(i + 1);
        assert(next.drop_last() =~= seen);
        assert(next.last() == (pairs@[i as int].0@, pairs@[i as int].1@));
        let key = pairs[i].0.clone();
        let value = pairs[i].1.clone();
        let position = position_of(&out, key.as_str());
        let ghost before = fields(out@);
        let ghost kv = (key@, value@);
        match position {
            Some(j) => {
                out.set(j, (key, value));
                assert(fields(out@) =~= before.update(j as int, kv));
            },
            None => {
                out.push((key, value));
                assert(fields(out@) =~= before.push(kv));
            },
        }
        proof {
            let after = fields(out@);
            assert forall|k: Seq<char>| #[trigger] last_value(next, k) is Some implies exists|m: int|
                0 <= m < after.len() && after[m].0 == k by {
                if k == kv.0 {
                    match position {
                        Some(j) => assert(after[j as int].0 == k),
                        None => assert(after[after.len() - 1].0 == k),
                    }
                } else {
                    assert(last_value(seen, k) is Some);
                    let m = choose|m: int| 0 <= m < before.len() && before[m].0 == k;
                    assert(after[m].0 == k);
                }
            }
            assert forall|m: int| 0 <= m < after.len() implies last_value(next, #[trigger] after[m].0)
                == Some(after[m].1) by {
                if after[m].0 == kv.0 {
                    match position {
                        Some(j) => {
                            if m != j {
                                assert(before[m] == after[m]);
                                assert(before[j as int].0 == kv.0);
                            }
                            assert(after[m] == kv);
                        },
                        None => {
                            if m < before.len() {
                                assert(before[m] == after[m]);
                            }
                            assert(after[m] == kv);
                        },
                    }
                } else {
                    assert(m < before.len());
                    assert(after[m] == before[m]);
                }
            }
            assert forall|m: int, n: int| 0 <= m < n < after.len() implies after[m].0 != after[n].0 by {
                match position {
                    Some(j) => {
                        if m != j && n != j {
                            assert(before[m] == after[m] && before[n] == after[n]);
                        } else if m == j {
                            assert(before[n] == after[n]);
                            assert(before[j as int].0 == kv.0);
                        } else {
                            assert(before[m] == after[m]);
                            assert(before[j as int].0 == kv.0);
                        }
                    },
                    None => {
                        assert(before[m] == after[m]);
                        if n < before.len() {
                            assert(before[n] == after[n]);
                        }
                    },
                }
            }
        }
        proof {
            let after = fields(out@);
            assert forall|m: int, n: int, b: int|
                #![trigger after[m], after[n], next[b]]
                0 <= m < n < after.len() && 0 <= b < next.len() && next[b].0 == after[n].0 implies exists|
                    a: int,
                | 0 <= a < b && #[trigger] next[a].0 == after[m].0 by {
                match position {
                    Some(jj) => {
                        if m == jj {
                            assert(before[jj as int].0 == kv.0);
                        } else {
                            assert(after[m] == before[m]);
                        }
                    },
                    None => assert(after[m] == before[m]),
                }
                assert(after[m].0 == before[m].0);
                lemma_last_value_some(seen, before[m].0);
                if b < seen.len() {
                    assert(next[b] == seen[b]);
                    if n < before.len() {
                        assert(after[n].0 == before[n].0);
                        let a = choose|a: int| 0 <= a < b && #[trigger] seen[a].0 == before[m].0;
                        assert(next[a] == seen[a]);
                    } else {
                        lemma_last_value_some(seen, kv.0);
                        assert(seen[b].0 == kv.0);
                        assert(false);
                    }
                } else {
                    assert(next[b].0 == kv.0);
                    match position {
                        Some(jj) => {
                            if n != jj {
                                assert(after[n] == before[n]);
                                assert(before[jj as int].0 == kv.0);
                                assert(false);
                            }
                            assert(after[n].0 == before[n].0);
                            lemma_last_value_some(seen, before[n].0);
                            let c = choose|c: int| 0 <= c < seen.len() && #[trigger] seen[c].0 == before[n].0;
                            let a = choose|a: int| 0 <= a < c && #[trigger] seen[a].0 == before[m].0;
                            assert(next[a] == seen[a]);
                        },
                        None => {
                            let a = choose|a: int| 0 <= a < seen.len() && #[trigger] seen[a].0 == before[m].0;
                            assert(next[a] == seen[a]);
                        },
                    }
                }
            }
        }
        assert(in_first_pair_order(fields(out@), next));
        i = i + 1;
    }
    assert(fields(pairs@).take(pairs.len() as int) =~= fields(pairs@));
    out
}

/// The fields of a report body: its form-encoded pairs, one per name, each
/// with the value of the last pair of that name; names keep the order of
/// their first pair.
pub fn parse_report(body: &str) -> (r: Vec<(String, String)>)
    ensures
        gathers(fields(r@), form_urlencoded_pairs(body.spec_bytes())),
        in_first_pair_order(fields(r@), form_urlencoded_pairs(body.spec_bytes())),
{
    gather_fields(decode_form(body.as_bytes()))
}

} // verus!
