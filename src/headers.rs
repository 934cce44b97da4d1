use vstd::prelude::*;

verus! {

/// The number of characters before the first `:` of `s` (all of them where
/// there is none).
pub open spec fn chars_before_colon(s: Seq<char>) -> nat
    decreases s.len(),
{
    if s.len() > 0 && s[0] != ':' {
        1 + chars_before_colon(s.drop_first())
    } else {
        0
    }
}

/// A `KEY:VALUE` header entry split at its first `:`; `None` where it has no
/// `:`.
pub open spec fn header_entry(s: Seq<char>) -> Option<(Seq<char>, Seq<char>)> {
    let k = chars_before_colon(s) as int;
    if k < s.len() {
        Some((s.take(k), s.skip(k + 1)))
    } else {
        None
    }
}

/// The header map that a list of entries gives: entries without `:` are
/// ignored, and a later entry replaces an earlier one with the same key.
pub open spec fn header_map(entries: Seq<Seq<char>>) -> Map<Seq<char>, Seq<char>>
    decreases entries.len(),
{
    if entries.len() == 0 {
        Map::empty()
    } else {
        let m = header_map(entries.drop_last());
        match header_entry(entries.last()) {
            Some((k, v)) => m.insert(k, v),
            None => m,
        }
    }
}

/// The map of a list of key-value pairs, a later pair winning.
pub open spec fn pairs_map(ps: Seq<(Seq<char>, Seq<char>)>) -> Map<Seq<char>, Seq<char>>
    decreases ps.len(),
{
    if ps.len() == 0 {
        Map::empty()
    } else {
        pairs_map(ps.drop_last()).insert(ps.last().0, ps.last().1)
    }
}

pub open spec fn keys_unique(ps: Seq<(Seq<char>, Seq<char>)>) -> bool {
    forall|i: int, j: int| 0 <= i < j < ps.len() ==> ps[i].0 != ps[j].0
}

/// The pairs of strings as pairs of character sequences.
pub open spec fn pairs_view(v: Seq<(String, String)>) -> Seq<(Seq<char>, Seq<char>)> {
    v.map_values(|p: (String, String)| (p.0@, p.1@))
}

pub open spec fn strings_view(v: Seq<String>) -> Seq<Seq<char>> {
    v.map_values(|s: String| s@)
}

/// Replacing the value of a key in a list with unique keys replaces it in its
/// map.
proof fn lemma_pairs_map_update(ps: Seq<(Seq<char>, Seq<char>)>, j: int, v: Seq<char>)
    requires
        keys_unique(ps),
        0 <= j < ps.len(),
    ensures
        pairs_map(ps.update(j, (ps[j].0, v))) =~= pairs_map(ps).insert(ps[j].0, v),
    decreases ps.len(),
{
    let k = ps[j].0;
    let qs = ps.update(j, (k, v));
    assert(qs.drop_last() =~= if j == ps.len() - 1 {
        ps.drop_last()
    } else {
        ps.drop_last().update(j, (k, v))
    });
    if j < ps.len() - 1 {
        let t = ps.drop_last();
        assert(keys_unique(t));
        assert(t[j].0 == k);
        lemma_pairs_map_update(t, j, v);
        assert(ps.last().0 != k);
        assert(qs.last() == ps.last());
    }
}

/// Finds the first `:` of `s`.
fn find_colon(s: &str) -> (r: usize)
    ensures
        r == chars_before_colon(s@),
        r <= s@.len(),
{
    let len = s.unicode_len();
    let mut i: usize = 0;
    while i < len && s.get_char(i) != ':'
        invariant
            len == s@.len(),
            0 <= i <= len,
            forall|j: int| 0 <= j < i ==> s@[j] != ':',
        decreases len - i,
    {
        i = i + 1;
    }
    proof {
        lemma_chars_before_colon(s@, i as int);
    }
    i
}

proof fn lemma_chars_before_colon(s: Seq<char>, i: int)
    requires
        0 <= i <= s.len(),
        forall|j: int| 0 <= j < i ==> s[j] != ':',
        i == s.len() || s[i] == ':',
    ensures
        chars_before_colon(s) == i,
    decreases i,
{
    if i > 0 {
        let t = s.drop_first();
        assert forall|j: int| 0 <= j < i - 1 implies t[j] != ':' by {
            assert(t[j] == s[j + 1]);
        }
        assert(s[0] != ':');
        lemma_chars_before_colon(t, i - 1);
    }
}

/// Parses `KEY:VALUE` header entries into key-value pairs with unique keys.
/// Each entry is split at its first `:`; entries without one are skipped, and
/// a later entry replaces the value of an earlier one with the same key.
pub fn parse_headers(entries: &Vec<String>) -> (r: Vec<(String, String)>)
    ensures
        keys_unique(pairs_view(r@)),
        pairs_map(pairs_view(r@)) == header_map(strings_view(entries@)),
{
    let mut out: Vec<(String, String)> = Vec::new();
    let mut i: usize = 0;
    while i < entries.len()
        invariant
            0 <= i <= entries@.len(),
            keys_unique(pairs_view(out@)),
            pairs_map(pairs_view(out@)) == header_map(strings_view(entries@).take(i as int)),
        decreases entries@.len() - i,
    {
        let ghost before = strings_view(entries@).take(i as int);
        let ghost after = strings_view(entries@).take(i + 1);
        proof {
            assert(after.drop_last() =~= before);
            assert(after.last() == entries@[i as int]@);
        }
        let entry = entries[i].as_str();
        let k = find_colon(entry);
        let len = entry.unicode_len();
        if k < len {
            let key = entry.substring_char(0, k).to_owned();
            let value = entry.substring_char(k + 1, len).to_owned();
            proof {
                assert(key@ =~= entry@.take(k as int));
                assert(value@ =~= entry@.skip(k + 1));
                assert(header_entry(entry@) == Some((key@, value@)));
            }
            let mut j: usize = 0;
            let mut found = false;
            while j < out.len()
                invariant_except_break
                    !found,
                invariant
                    0 <= j <= out@.len(),
                    forall|t: int| 0 <= t < j ==> out@[t].0@ != key@,
                ensures
                    found ==> j < out@.len() && out@[j as int].0@ == key@,
                    !found ==> j == out@.len(),
                decreases out@.len() - j,
            {
                if out[j].0 == key {
                    found = true;
                    break;
                }
                j = j + 1;
            }
            let ghost ps = pairs_view(out@);
            if found {
                proof {
                    assert(ps[j as int].0 == key@);
                    lemma_pairs_map_update(ps, j as int, value@);
                }
                out.set(j, (key, value));
                proof {
                    assert(pairs_view(out@) =~= ps.update(j as int, (key@, value@)));
                }
            } else {
                out.push((key, value));
                proof {
                    assert(pairs_view(out@) =~= ps.push((key@, value@)));
                    assert(pairs_view(out@).drop_last() =~= ps);
                    assert forall|a: int, b: int|
                        0 <= a < b < pairs_view(out@).len() implies pairs_view(out@)[a].0
                        != pairs_view(out@)[b].0 by {
                        if b == ps.len() {
                            assert(out@[a].0@ != key@);
                        }
                    }
                }
            }
        } else {
            proof {
                assert(header_entry(entry@) is None);
            }
        }
        i = i + 1;
    }
    proof {
        assert(strings_view(entries@).take(entries@.len() as int) =~= strings_view(entries@));
    }
    out
}

} // verus!
