//! Champion names and keys from Riot's Data Dragon.

use vstd::prelude::*;
use std::collections::HashMap;
use crate::champ_select::str_at;
use crate::json::JsonRecord;

verus! {

broadcast use vstd::std_specs::hash::group_hash_axioms;

/// A Data Dragon version and its champions: numeric id to `(key, name)`.
pub struct DdragonCache {
    pub version: String,
    pub id_to_key: HashMap<i64, (String, String)>,
}

/// The version used when Data Dragon lists none.
pub open spec fn fallback_version() -> Seq<char> {
    "15.1.1"@
}

/// The newest Data Dragon version: the first one listed.
pub fn ddragon_version(versions: &Vec<String>) -> (r: String)
    ensures
        versions@.len() > 0 ==> r@ == versions@[0]@,
        versions@.len() == 0 ==> r@ == fallback_version(),
{
    if versions.len() > 0 {
        versions[0].clone()
    } else {
        String::from_str("15.1.1")
    }
}

/// Whether `c` is an ASCII decimal digit.
pub open spec fn is_digit(c: char) -> bool {
    '0' <= c <= '9'
}

/// The number that a string of decimal digits denotes.
pub open spec fn digits_value(s: Seq<char>) -> int
    decreases s.len(),
{
    if s.len() == 0 {
        0
    } else {
        digits_value(s.drop_last()) * 10 + (s.last() as int - 48)
    }
}

/// `s` without one leading `+` or `-`.
pub open spec fn unsigned_part(s: Seq<char>) -> Seq<char> {
    if s.len() > 0 && (s[0] == '-' || s[0] == '+') {
        s.drop_first()
    } else {
        s
    }
}

/// Every character of `s` is a decimal digit.
pub open spec fn all_digits(s: Seq<char>) -> bool {
    forall|i: int| 0 <= i < s.len() ==> is_digit(#[trigger] s[i])
}

/// The value that `s` denotes, with its sign.
pub open spec fn signed_value(s: Seq<char>) -> int {
    if s.len() > 0 && s[0] == '-' {
        -digits_value(unsigned_part(s))
    } else {
        digits_value(unsigned_part(s))
    }
}

/// What `str::parse::<i64>` gives: an optional `+` or `-` followed by at
/// least one decimal digit and nothing else, whose value fits an `i64`.
pub open spec fn parse_i64_spec(s: Seq<char>) -> Option<i64> {
    if unsigned_part(s).len() > 0 && all_digits(unsigned_part(s)) && i64::MIN <= signed_value(s)
        <= i64::MAX {
        Some(signed_value(s) as i64)
    } else {
        None
    }
}

proof fn lemma_digits_grow(s: Seq<char>, i: int, j: int)
    requires
        0 <= i <= j <= s.len(),
        forall|k: int| 0 <= k < s.len() ==> is_digit(#[trigger] s[k]),
    ensures
        digits_value(s.subrange(0, i)) <= digits_value(s.subrange(0, j)),
    decreases j - i,
{
    if i < j {
        lemma_digits_grow(s, i, j - 1);
        assert(s.subrange(0, j).drop_last() =~= s.subrange(0, j - 1));
        lemma_digits_nonneg(s.subrange(0, j - 1));
    }
}

proof fn lemma_digits_nonneg(s: Seq<char>)
    requires
        forall|k: int| 0 <= k < s.len() ==> is_digit(#[trigger] s[k]),
    ensures
        digits_value(s) >= 0,
    decreases s.len(),
{
    if s.len() > 0 {
        assert(forall|k: int| 0 <= k < s.drop_last().len() ==> s.drop_last()[k] == s[k]);
        lemma_digits_nonneg(s.drop_last());
        assert(is_digit(s[s.len() - 1]));
    }
}

/// Parses a decimal `i64` as `str::parse::<i64>` does.
pub fn parse_i64(s: &str) -> (r: Option<i64>)
    ensures
        r == parse_i64_spec(s@),
{
    let n = s.unicode_len();
    if n == 0 {
        return None;
    }
    let first = s.get_char(0);
    let neg = first == '-';
    let start: usize = if first == '-' || first == '+' {
        1
    } else {
        0
    };
    let ghost ds = if first == '-' || first == '+' {
        s@.drop_first()
    } else {
        s@
    };
    assert(ds =~= s@.subrange(start as int, n as int));
    if start == n {
        return None;
    }
    let limit: u128 = 9223372036854775808;
    let mut acc: u128 = 0;
    let mut i: usize = start;
    assert(ds.subrange(0, 0) =~= Seq::<char>::empty());
    while i < n
        invariant
            n == s@.len(),
            n > 0,
            start <= i <= n,
            start == (if s@[0] == '-' || s@[0] == '+' {
                1usize
            } else {
                0usize
            }),
            neg == (s@[0] == '-'),
            ds == s@.subrange(start as int, n as int),
            limit == 9223372036854775808u128,
            acc <= limit,
            acc == digits_value(ds.subrange(0, i - start)),
            forall|k: int| 0 <= k < i - start ==> is_digit(#[trigger] ds[k]),
        decreases n - i,
    {
        let c = s.get_char(i);
        assert(c == ds[i - start]);
        if !('0' <= c && c <= '9') {
            proof {
                let sd = unsigned_part(s@);
                assert(sd =~= ds);
                assert(!is_digit(sd[i - start]));
                assert(!(forall|k: int| 0 <= k < sd.len() ==> is_digit(#[trigger] sd[k])));
            }
            return None;
        }
        let d: u128 = (c as u32 - 48) as u128;
        assert(ds.subrange(0, i - start + 1).drop_last() =~= ds.subrange(0, i - start));
        assert(acc * 10 <= 92233720368547758080) by (nonlinear_arith)
            requires
                acc <= 9223372036854775808u128,
        ;
        acc = acc * 10 + d;
        i = i + 1;
        if acc > limit {
            proof {
                // the whole number is at least as large, whatever follows
                assert(unsigned_part(s@) =~= ds);
                if all_digits(ds) {
                    lemma_digits_grow(ds, i - start, ds.len() as int);
                    assert(ds.subrange(0, ds.len() as int) =~= ds);
                }
            }
            return None;
        }
    }
    assert(ds.subrange(0, n - start) =~= ds);
    if neg {
        if acc == limit {
            Some(-9223372036854775807i64 - 1)
        } else {
            Some(-(acc as i64))
        }
    } else {
        if acc == limit {
            None
        } else {
            Some(acc as i64)
        }
    }
}

/// The catalog entry that a champion record gives: its numeric `key` as id,
/// the member name as key, and its `name` (or the member name) as name.
pub open spec fn entry_spec(key: Seq<char>, champ: JsonRecord) -> Option<(i64, Seq<char>, Seq<char>)> {
    match str_at(champ, "key"@) {
        Some(id_str) => match parse_i64_spec(id_str) {
            Some(id) => Some(
                (
                    id,
                    key,
                    match str_at(champ, "name"@) {
                        Some(n) => n,
                        None => key,
                    },
                ),
            ),
            None => None,
        },
        None => None,
    }
}

/// The catalog entry of one member of Data Dragon's `data` object.
pub fn champion_entry(key: &str, champ: &JsonRecord) -> (r: Option<(i64, String, String)>)
    ensures
        match r {
            Some((id, k, n)) => entry_spec(key@, *champ) == Some((id, k@, n@)),
            None => entry_spec(key@, *champ) is None,
        },
{
    match champ.get_str("key") {
        Some(id_str) => match parse_i64(id_str) {
            Some(id) => {
                let name = match champ.get_str("name") {
                    Some(n) => String::from_str(n),
                    None => String::from_str(key),
                };
                Some((id, String::from_str(key), name))
            },
            None => None,
        },
        None => None,
    }
}

/// The catalog built from the members of `data` in order; a later entry with
/// the same id replaces an earlier one.
pub open spec fn catalog_spec(data: Seq<(String, JsonRecord)>) -> Map<i64, (Seq<char>, Seq<char>)>
    decreases data.len(),
{
    if data.len() == 0 {
        Map::empty()
    } else {
        let prev = catalog_spec(data.drop_last());
        match entry_spec(data.last().0@, data.last().1) {
            Some((id, k, n)) => prev.insert(id, (k, n)),
            None => prev,
        }
    }
}

/// The catalog as character sequences.
pub open spec fn catalog_view(m: Map<i64, (String, String)>) -> Map<i64, (Seq<char>, Seq<char>)> {
    Map::new(|id: i64| m.dom().contains(id), |id: i64| (m[id].0@, m[id].1@))
}

/// The champion catalog of a Data Dragon version, from the members of its
/// `data` object.
pub fn build_catalog(version: String, data: &Vec<(String, JsonRecord)>) -> (r: DdragonCache)
    ensures
        r.version == version,
        catalog_view(r.id_to_key@) == catalog_spec(data@),
{
    let mut m: HashMap<i64, (String, String)> = HashMap::new();
    let n = data.len();
    let mut i: usize = 0;
    assert(catalog_view(m@) =~= Map::<i64, (Seq<char>, Seq<char>)>::empty());
    while i < n
        invariant
            n == data@.len(),
            i <= n,
            catalog_view(m@) == catalog_spec(data@.subrange(0, i as int)),
        decreases n - i,
    {
        let ghost prefix = data@.subrange(0, (i + 1) as int);
        assert(prefix.drop_last() =~= data@.subrange(0, i as int));
        assert(prefix.last() == data@[i as int]);
        match champion_entry(data[i].0.as_str(), &data[i].1) {
            Some((id, k, nm)) => {
                let ghost before = m@;
                m.insert(id, (k, nm));
                assert(catalog_view(m@) =~= catalog_view(before).insert(id, (k@, nm@)));
            },
            None => {},
        }
        i = i + 1;
    }
    assert(data@.subrange(0, n as int) =~= data@);
    DdragonCache { version, id_to_key: m }
}

/// Key and name of a champion, `("Unknown", "Unknown")` when the catalog lacks it.
pub fn champion_names(cache: &DdragonCache, id: i64) -> (r: (String, String))
    ensures
        catalog_view(cache.id_to_key@).contains_key(id) ==> (r.0@, r.1@) == catalog_view(
            cache.id_to_key@,
        )[id],
        !catalog_view(cache.id_to_key@).contains_key(id) ==> r.0@ == "Unknown"@ && r.1@
            == "Unknown"@,
{
    match cache.id_to_key.get(&id) {
        Some(kn) => (kn.0.clone(), kn.1.clone()),
        None => (String::from_str("Unknown"), String::from_str("Unknown")),
    }
}

} // verus!
