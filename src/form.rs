//! The query string of a request: its decoded pairs and the lookup key.

use vstd::prelude::*;

verus! {

/// The name/value pairs, in order and decoded, that the
/// `application/x-www-form-urlencoded` parser finds in a query string.
pub uninterp spec fn form_pairs(query: Seq<char>) -> Seq<(Seq<char>, Seq<char>)>;

/// The abstract view of a list of decoded pairs.
pub open spec fn pairs_view(pairs: Seq<(String, String)>) -> Seq<(Seq<char>, Seq<char>)> {
    pairs.map_values(|p: (String, String)| (p.0@, p.1@))
}

/// `i` is the first position whose name is `name`.
pub open spec fn is_first_match(pairs: Seq<(Seq<char>, Seq<char>)>, name: Seq<char>, i: int) -> bool {
    &&& 0 <= i < pairs.len()
    &&& pairs[i].0 == name
    &&& forall|j: int| 0 <= j < i ==> pairs[j].0 != name
}

/// The value of the first pair named `name`, or `None` when no pair has that name.
pub open spec fn first_value(pairs: Seq<(Seq<char>, Seq<char>)>, name: Seq<char>) -> Option<Seq<char>> {
    if exists|i: int| 0 <= i < pairs.len() && pairs[i].0 == name {
        Some(pairs[choose|i: int| is_first_match(pairs, name, i)].1)
    } else {
        None
    }
}

/// The lookup key that a query string carries: its first `url` parameter, decoded.
pub open spec fn query_key(query: Seq<char>) -> Option<Seq<char>> {
    first_value(form_pairs(query), "url"@)
}

/// The abstract view of an optional string.
pub open spec fn opt_view(o: Option<String>) -> Option<Seq<char>> {
    match o {
        Some(s) => Some(s@),
        None => None,
    }
}

/// Relies on `url::form_urlencoded::parse` (with `into_owned`): the pairs it
/// yields depend on the input alone, and an empty input yields none.
#[verifier::external_body]
fn decode_form(query: &str) -> (r: Vec<(String, String)>)
    ensures
        pairs_view(r@) == form_pairs(query@),
        query@.len() == 0 ==> r@.len() == 0,
{
    url::form_urlencoded::parse(query.as_bytes()).into_owned().collect()
}

proof fn lemma_first_match_unique(pairs: Seq<(Seq<char>, Seq<char>)>, name: Seq<char>, i: int, k: int)
    requires
        is_first_match(pairs, name, i),
        is_first_match(pairs, name, k),
    ensures
        i == k,
{
    if k < i {
        assert(pairs[k].0 != name);
    } else if i < k {
        assert(pairs[i].0 != name);
    }
}

/// The value of the first pair named `name` (first match wins).
pub fn first_param(pairs: &Vec<(String, String)>, name: &str) -> (r: Option<String>)
    ensures
        opt_view(r) == first_value(pairs_view(pairs@), name@),
{
    let ghost pv = pairs_view(pairs@);
    let wanted = name.to_owned();
    let mut i: usize = 0;
    while i < pairs.len()
        invariant
            i <= pairs@.len(),
            pv == pairs_view(pairs@),
            wanted@ == name@,
            forall|j: int| 0 <= j < i ==> pv[j].0 != name@,
        decreases pairs@.len() - i,
    {
        if pairs[i].0 == wanted {
            proof {
                assert(is_first_match(pv, name@, i as int));
                let k = choose|k: int| is_first_match(pv, name@, k);
                lemma_first_match_unique(pv, name@, i as int, k);
            }
            return Some(pairs[i].1.clone());
        }
        i = i + 1;
    }
    None
}

/// The lookup key of a query string: the decoded value of its first `url`
/// parameter, or `None` when it has none.
pub fn lookup_key(query: &str) -> (r: Option<String>)
    ensures
        opt_view(r) == query_key(query@),
        query@.len() == 0 ==> r is None,
{
    let pairs = decode_form(query);
    first_param(&pairs, "url")
}

} // verus!
