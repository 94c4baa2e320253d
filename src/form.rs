//! Decoding of `application/x-www-form-urlencoded` bodies, and lookup of
//! the fields that a form must carry exactly once.

use vstd::prelude::*;

verus! {

/// The (name, value) pairs of a decoded form, in the order they were sent.
pub type FormPairs = Seq<(Seq<char>, Seq<char>)>;

/// The pairs that `form_urlencoded::parse` yields for a body: split on `&`,
/// split each part at its first `=`, `+` read as a space, percent escapes
/// decoded, invalid UTF-8 replaced.
pub uninterp spec fn form_pairs(body: Seq<u8>) -> FormPairs;

/// The view of a vector of owned pairs.
pub open spec fn pairs_view(pairs: Seq<(String, String)>) -> FormPairs {
    pairs.map_values(|p: (String, String)| (p.0@, p.1@))
}

/// Relies on `form_urlencoded::parse` (with `into_owned`) to decode a body
/// into its pairs, in order; an empty body holds no pair.
#[verifier::external_body]
fn decode_pairs(body: &[u8]) -> (r: Vec<(String, String)>)
    ensures
        pairs_view(r@) == form_pairs(body@),
        body@.len() == 0 ==> r@.len() == 0,
{
    form_urlencoded::parse(body).into_owned().collect()
}

/// Decodes a form body into its (name, value) pairs.
pub fn decode_form(body: &[u8]) -> (r: Vec<(String, String)>)
    ensures
        pairs_view(r@) == form_pairs(body@),
        body@.len() == 0 ==> r@.len() == 0,
{
    decode_pairs(body)
}

/// How often a field occurs in a form, and its value when it occurs once.
pub enum FieldLookup {
    Absent,
    Once(Seq<char>),
    Repeated,
}

/// Looks up `key` among `pairs`: absent, given exactly once (with its value),
/// or given more than once.
pub open spec fn lookup_field(pairs: FormPairs, key: Seq<char>) -> FieldLookup
    decreases pairs.len(),
{
    if pairs.len() == 0 {
        FieldLookup::Absent
    } else {
        let before = lookup_field(pairs.drop_last(), key);
        if pairs.last().0 == key {
            match before {
                FieldLookup::Absent => FieldLookup::Once(pairs.last().1),
                _ => FieldLookup::Repeated,
            }
        } else {
            before
        }
    }
}

/// Finds the one pair named `key`. Returns its index when the name occurs
/// exactly once, and `None` when it is absent or repeated.
pub fn find_field(pairs: &Vec<(String, String)>, key: &String) -> (r: Option<usize>)
    ensures
        match r {
            Some(i) => i < pairs@.len() && lookup_field(pairs_view(pairs@), key@)
                == FieldLookup::Once(pairs@[i as int].1@),
            None => !(lookup_field(pairs_view(pairs@), key@) is Once),
        },
{
    let ghost all = pairs_view(pairs@);
    let mut found: Option<usize> = None;
    let mut repeated = false;
    let mut i: usize = 0;
    while i < pairs.len()
        invariant
            i <= pairs@.len(),
            all == pairs_view(pairs@),
            match found {
                Some(j) => j < i && !repeated && lookup_field(all.subrange(0, i as int), key@)
                    == FieldLookup::Once(pairs@[j as int].1@),
                None => if repeated {
                    lookup_field(all.subrange(0, i as int), key@) is Repeated
                } else {
                    lookup_field(all.subrange(0, i as int), key@) is Absent
                },
            },
        decreases pairs@.len() - i,
    {
        assert(all.subrange(0, i + 1).drop_last() =~= all.subrange(0, i as int));
        if pairs[i].0 == *key {
            if found.is_none() && !repeated {
                found = Some(i);
            } else {
                found = None;
                repeated = true;
            }
        }
        i = i + 1;
    }
    assert(all.subrange(0, i as int) =~= all);
    found
}

} // verus!
