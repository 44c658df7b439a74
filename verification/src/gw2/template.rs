//! Expansion of the `:name` placeholders of a route template.
use crate::error::Gw3Error;
use crate::text::{
    lemma_seq_lt_irreflexive, lemma_seq_lt_transitive, opt_view, owned, pairs_view, replace_all,
    replaced, seq_lt, str_eq, str_lt, strings_view,
};
use vstd::prelude::*;

verus! {

/// The names of a list of pairs, in order.
pub open spec fn pair_names(pairs: Seq<(Seq<char>, Seq<char>)>) -> Seq<Seq<char>> {
    pairs.map_values(|p: (Seq<char>, Seq<char>)| p.0)
}

/// The value of the last pair named `name`: the value that a map built from
/// the pairs in order keeps.
pub open spec fn last_value(pairs: Seq<(Seq<char>, Seq<char>)>, name: Seq<char>) -> Option<Seq<char>>
    decreases pairs.len(),
{
    if pairs.len() == 0 {
        None
    } else if pairs.last().0 == name {
        Some(pairs.last().1)
    } else {
        last_value(pairs.drop_last(), name)
    }
}

/// The first expected parameter that no pair names.
pub open spec fn first_missing(expected: Seq<Seq<char>>, pairs: Seq<(Seq<char>, Seq<char>)>) -> Option<
    Seq<char>,
>
    decreases expected.len(),
{
    if expected.len() == 0 {
        None
    } else if !pair_names(pairs).contains(expected[0]) {
        Some(expected[0])
    } else {
        first_missing(expected.drop_first(), pairs)
    }
}

/// Whether `name` is given by a pair but not expected.
pub open spec fn is_unexpected(
    expected: Seq<Seq<char>>,
    pairs: Seq<(Seq<char>, Seq<char>)>,
    name: Seq<char>,
) -> bool {
    pair_names(pairs).contains(name) && !expected.contains(name)
}

/// `path` with `:name` replaced by the value given for `name`, for each
/// expected name in order.
pub open spec fn rendered_path(
    path: Seq<char>,
    expected: Seq<Seq<char>>,
    pairs: Seq<(Seq<char>, Seq<char>)>,
) -> Seq<char>
    decreases expected.len(),
{
    if expected.len() == 0 {
        path
    } else {
        let next = match last_value(pairs, expected[0]) {
            Some(v) => replaced(path, ":"@ + expected[0], v),
            None => path,
        };
        rendered_path(next, expected.drop_first(), pairs)
    }
}

/// The outcome of expanding `template` for the route `key`: the first
/// expected parameter that is missing, else the least (by `seq_lt`) given
/// parameter that is not expected, else the expanded path.
pub open spec fn render_outcome(
    key: Seq<char>,
    template: Seq<char>,
    expected: Seq<Seq<char>>,
    pairs: Seq<(Seq<char>, Seq<char>)>,
    res: Result<String, Gw3Error>,
) -> bool {
    match first_missing(expected, pairs) {
        Some(m) => res matches Err(Gw3Error::MissingPathParameter { key: k, name: n }) && k@ == key
            && n@ == m,
        None => if exists|n: Seq<char>| is_unexpected(expected, pairs, n) {
            res matches Err(Gw3Error::UnexpectedPathParameter { key: k, name: n }) && k@ == key
                && is_unexpected(expected, pairs, n@) && forall|o: Seq<char>|
                is_unexpected(expected, pairs, o) ==> !seq_lt(o, n@)
        } else {
            res matches Ok(p) && p@ == rendered_path(template, expected, pairs)
        },
    }
}

/// Whether `list` holds `s`.
pub fn contains_string(list: &Vec<String>, s: &str) -> (res: bool)
    ensures
        res == strings_view(list@).contains(s@),
{
    let mut i: usize = 0;
    while i < list.len()
        invariant
            i <= list.len(),
            forall|k: int| 0 <= k < i ==> strings_view(list@)[k] != s@,
        decreases list.len() - i,
    {
        if str_eq(list[i].as_str(), s) {
            assert(strings_view(list@)[i as int] == s@);
            return true;
        }
        i = i + 1;
    }
    false
}

/// Whether a pair of `pairs` is named `name`.
pub fn has_pair_named(pairs: &Vec<(String, String)>, name: &str) -> (res: bool)
    ensures
        res == pair_names(pairs_view(pairs@)).contains(name@),
{
    let mut i: usize = 0;
    while i < pairs.len()
        invariant
            i <= pairs.len(),
            forall|k: int| 0 <= k < i ==> pair_names(pairs_view(pairs@))[k] != name@,
        decreases pairs.len() - i,
    {
        if str_eq(pairs[i].0.as_str(), name) {
            assert(pair_names(pairs_view(pairs@))[i as int] == name@);
            return true;
        }
        i = i + 1;
    }
    false
}

/// The value of the last pair named `name`.
pub fn last_value_of(pairs: &Vec<(String, String)>, name: &str) -> (res: Option<String>)
    ensures
        opt_view(res) == last_value(pairs_view(pairs@), name@),
{
    let mut i: usize = pairs.len();
    assert(pairs_view(pairs@).take(pairs.len() as int) =~= pairs_view(pairs@));
    while i > 0
        invariant
            i <= pairs.len(),
            last_value(pairs_view(pairs@), name@) == last_value(pairs_view(pairs@).take(i as int), name@),
        decreases i,
    {
        let ghost prefix = pairs_view(pairs@).take(i as int);
        assert(prefix.drop_last() =~= pairs_view(pairs@).take(i - 1));
        if str_eq(pairs[i - 1].0.as_str(), name) {
            return Some(pairs[i - 1].1.clone());
        }
        i = i - 1;
    }
    None
}

/// Expands the `:name` placeholders of `template` with the values of
/// `provided`, after checking that every expected parameter is given
/// (`MissingPathParameter`) and that no other one is
/// (`UnexpectedPathParameter`, for the least such name).
pub fn render_public_path(
    key: &str,
    template: &str,
    expected: &Vec<String>,
    provided: &Vec<(String, String)>,
) -> (res: Result<String, Gw3Error>)
    ensures
        render_outcome(key@, template@, strings_view(expected@), pairs_view(provided@), res),
{
    let ghost ex = strings_view(expected@);
    let ghost pv = pairs_view(provided@);
    let mut k: usize = 0;
    assert(ex.skip(0) =~= ex);
    while k < expected.len()
        invariant
            k <= expected.len(),
            ex == strings_view(expected@),
            pv == pairs_view(provided@),
            first_missing(ex, pv) == first_missing(ex.skip(k as int), pv),
        decreases expected.len() - k,
    {
        assert(ex.skip(k as int)[0] == expected@[k as int]@);
        if !has_pair_named(provided, expected[k].as_str()) {
            return Err(Gw3Error::MissingPathParameter { key: owned(key), name: expected[k].clone() });
        }
        assert(ex.skip(k as int).drop_first() =~= ex.skip(k + 1));
        k = k + 1;
    }
    assert(first_missing(ex, pv) is None);
    let mut best: Option<String> = None;
    let mut i: usize = 0;
    while i < provided.len()
        invariant
            i <= provided.len(),
            ex == strings_view(expected@),
            pv == pairs_view(provided@),
            best matches Some(b) ==> is_unexpected(ex, pv, b@),
            best matches Some(b) ==> forall|j: int|
                0 <= j < i && is_unexpected(ex, pv, #[trigger] pv[j].0) ==> !seq_lt(pv[j].0, b@),
            best is None ==> forall|j: int| 0 <= j < i ==> !is_unexpected(ex, pv, #[trigger] pv[j].0),
        decreases provided.len() - i,
    {
        let name = &provided[i].0;
        assert(pv[i as int].0 == name@);
        assert(pair_names(pv)[i as int] == name@);
        if !contains_string(expected, name.as_str()) {
            assert(is_unexpected(ex, pv, name@));
            proof {
                lemma_seq_lt_irreflexive(name@);
            }
            let replace = match &best {
                None => true,
                Some(b) => str_lt(name.as_str(), b.as_str()),
            };
            if replace {
                proof {
                    if let Some(b) = best {
                        assert forall|j: int|
                            0 <= j < i && is_unexpected(ex, pv, #[trigger] pv[j].0) implies !seq_lt(
                            pv[j].0,
                            name@,
                        ) by {
                            if seq_lt(pv[j].0, name@) {
                                lemma_seq_lt_transitive(pv[j].0, name@, b@);
                            }
                        }
                    }
                }
                best = Some(name.clone());
            }
        }
        i = i + 1;
    }
    if let Some(name) = best {
        assert forall|o: Seq<char>| is_unexpected(ex, pv, o) implies !seq_lt(o, name@) by {
            let j = choose|j: int| 0 <= j < pair_names(pv).len() && pair_names(pv)[j] == o;
            assert(pv[j].0 == o);
        }
        return Err(Gw3Error::UnexpectedPathParameter { key: owned(key), name });
    }
    assert(!exists|n: Seq<char>| is_unexpected(ex, pv, n)) by {
        assert forall|n: Seq<char>| !is_unexpected(ex, pv, n) by {
            if is_unexpected(ex, pv, n) {
                let j = choose|j: int| 0 <= j < pair_names(pv).len() && pair_names(pv)[j] == n;
                assert(pv[j].0 == n);
            }
        }
    }
    let mut path = owned(template);
    let mut k: usize = 0;
    assert(ex.skip(0) =~= ex);
    while k < expected.len()
        invariant
            k <= expected.len(),
            ex == strings_view(expected@),
            pv == pairs_view(provided@),
            rendered_path(template@, ex, pv) == rendered_path(path@, ex.skip(k as int), pv),
        decreases expected.len() - k,
    {
        let name = expected[k].as_str();
        assert(ex.skip(k as int)[0] == name@);
        assert(ex.skip(k as int).drop_first() =~= ex.skip(k + 1));
        let placeholder = owned(":").concat(name);
        if let Some(value) = last_value_of(provided, name) {
            path = replace_all(path.as_str(), placeholder.as_str(), value.as_str());
        }
        k = k + 1;
    }
    assert(ex.skip(expected.len() as int) =~= Seq::<Seq<char>>::empty());
    Ok(path)
}

} // verus!
