//! Names on disk: safe file stems, and the order in which a listing is shown.

use crate::text;
use vstd::prelude::*;

verus! {

/// Letters, digits, `-` and `_`: what a file stem may hold.
pub open spec fn stem_char(c: char) -> bool {
    let u = c as int;
    0x30 <= u <= 0x39 || 0x41 <= u <= 0x5A || 0x61 <= u <= 0x7A || c == '-' || c == '_'
}

/// A character as a file stem shows it: anything unsafe becomes `_`.
pub open spec fn safe_char(c: char) -> char {
    if stem_char(c) {
        c
    } else {
        '_'
    }
}

/// The file stem for `name`: trimmed, each unsafe character replaced, and
/// `fallback` where nothing is left.
pub open spec fn stem(name: Seq<char>, fallback: Seq<char>) -> Seq<char> {
    let t = text::trimmed(name);
    if t.len() == 0 {
        fallback
    } else {
        t.map_values(|c: char| safe_char(c))
    }
}

/// Text that is safe as a file stem.
pub open spec fn is_safe(s: Seq<char>) -> bool {
    s.len() > 0 && forall|i: int| 0 <= i < s.len() ==> stem_char(#[trigger] s[i])
}

/// A stem is never empty and holds safe characters only (no path separator, no
/// space, no dot).
pub proof fn stem_is_safe(name: Seq<char>, fallback: Seq<char>)
    requires
        is_safe(fallback),
    ensures
        is_safe(stem(name, fallback)),
{
}

/// Safe text is its own stem; so taking the stem of a stem changes nothing.
pub proof fn stem_of_safe_text(s: Seq<char>, fallback: Seq<char>)
    requires
        is_safe(s),
    ensures
        stem(s, fallback) == s,
{
    lemma_safe_is_trimmed(s);
    assert(s.map_values(|c: char| safe_char(c)) =~= s);
}

proof fn lemma_safe_is_trimmed(s: Seq<char>)
    requires
        is_safe(s),
    ensures
        text::trimmed(s) == s,
{
    assert(stem_char(s[0]));
    assert(stem_char(s[s.len() - 1]));
}

/// Taking the stem twice is taking it once.
pub proof fn stem_is_idempotent(name: Seq<char>, fallback: Seq<char>)
    requires
        is_safe(fallback),
    ensures
        stem(stem(name, fallback), fallback) == stem(name, fallback),
{
    stem_is_safe(name, fallback);
    stem_of_safe_text(stem(name, fallback), fallback);
}

/// White space around a name does not matter to its file.
pub proof fn stem_ignores_outer_space(name: Seq<char>, fallback: Seq<char>)
    ensures
        stem(text::trimmed(name), fallback) == stem(name, fallback),
{
    text::trimming_is_idempotent(name);
}

fn is_stem_char(c: char) -> (r: bool)
    ensures
        r == stem_char(c),
{
    let u: u32 = text::code_point(c);
    (0x30 <= u && u <= 0x39) || (0x41 <= u && u <= 0x5A) || (0x61 <= u && u <= 0x7A) || c == '-'
        || c == '_'
}

/// The file stem for `name`, or `fallback` where the name is all white space.
pub fn stem_text(name: &str, fallback: &str) -> (r: String)
    ensures
        r@ == stem(name@, fallback@),
{
    let kept = text::trim(name);
    let v = text::chars_of(kept.as_str());
    if v.len() == 0 {
        return fallback.to_owned();
    }
    let mut s: String = String::new();
    let mut i: usize = 0;
    while i < v.len()
        invariant
            i <= v@.len(),
            s@ == v@.take(i as int).map_values(|c: char| safe_char(c)),
        decreases v@.len() - i,
    {
        let c: char = if is_stem_char(v[i]) {
            v[i]
        } else {
            '_'
        };
        proof {
            assert(v@.take(i + 1).map_values(|c: char| safe_char(c)) =~= v@.take(
                i as int,
            ).map_values(|c: char| safe_char(c)).push(c));
        }
        s.push(c);
        i += 1;
    }
    proof {
        assert(v@.take(v@.len() as int) =~= v@);
    }
    s
}

/// The name of the file that holds `stem`, with the extension `ext`.
pub fn file_name(stem: &str, ext: &str) -> (r: String)
    ensures
        r@ == stem@ + ext@,
{
    let mut r: String = stem.to_owned();
    r.append(ext);
    r
}

/// `order` lists the indices of `keys` so that the keys ascend, equal keys in
/// their first order.
pub open spec fn is_stable_order(keys: Seq<Seq<char>>, order: Seq<usize>) -> bool {
    &&& order.len() == keys.len()
    &&& forall|i: int| 0 <= i < order.len() ==> (#[trigger] order[i]) < keys.len()
    &&& forall|i: int, j: int|
        0 <= i < j < order.len() ==> in_order(keys, #[trigger] order[i], #[trigger] order[j])
}

/// Item `a` is listed before item `b`.
pub open spec fn in_order(keys: Seq<Seq<char>>, a: usize, b: usize) -> bool {
    text::text_lt(keys[a as int], keys[b as int]) || (keys[a as int] == keys[b as int] && a < b)
}

/// A stable order names every index once, so nothing is lost or doubled.
pub proof fn stable_order_is_a_permutation(keys: Seq<Seq<char>>, order: Seq<usize>)
    requires
        is_stable_order(keys, order),
    ensures
        order.no_duplicates(),
        forall|k: int| 0 <= k < keys.len() ==> order.contains(#[trigger] (k as usize)),
{
    assert forall|i: int, j: int| 0 <= i < order.len() && 0 <= j < order.len() && i != j implies
        order[i] != order[j] by {
        if i < j {
            text::text_order_is_asymmetric(keys[order[i] as int], keys[order[j] as int]);
            assert(in_order(keys, order[i], order[j]));
        } else {
            text::text_order_is_asymmetric(keys[order[j] as int], keys[order[i] as int]);
            assert(in_order(keys, order[j], order[i]));
        }
    }
    lemma_all_indices(order, keys.len());
}

/// A duplicate-free list of `n` numbers below `n` holds each of them.
proof fn lemma_all_indices(order: Seq<usize>, n: nat)
    requires
        order.len() == n,
        order.no_duplicates(),
        forall|i: int| 0 <= i < order.len() ==> (#[trigger] order[i]) < n,
    ensures
        forall|k: int| 0 <= k < n ==> order.contains(#[trigger] (k as usize)),
{
    let got = order.map_values(|u: usize| u as int);
    assert forall|i: int, j: int| 0 <= i < got.len() && 0 <= j < got.len() && i != j implies got[i]
        != got[j] by {
        assert(order[i] != order[j]);
    }
    let all = vstd::set_lib::set_int_range(0, n as int);
    vstd::set_lib::lemma_int_range(0, n as int);
    got.unique_seq_to_set();
    assert(got.to_set().subset_of(all)) by {
        assert forall|x: int| got.to_set().contains(x) implies all.contains(x) by {
            let i = choose|i: int| 0 <= i < got.len() && got[i] == x;
            assert(order[i] < n);
        }
    }
    vstd::set_lib::lemma_subset_equality(got.to_set(), all);
    assert forall|k: int| 0 <= k < n implies order.contains(#[trigger] (k as usize)) by {
        assert(all.contains(k));
        assert(got.contains(k));
        let i = choose|i: int| 0 <= i < got.len() && got[i] == k;
        assert(order[i] == k as usize);
    }
}

proof fn lemma_in_order_transitive(keys: Seq<Seq<char>>, a: usize, b: usize, c: usize)
    requires
        in_order(keys, a, b),
        in_order(keys, b, c),
    ensures
        in_order(keys, a, c),
{
    let (x, y, z) = (keys[a as int], keys[b as int], keys[c as int]);
    if text::text_lt(x, y) && text::text_lt(y, z) {
        text::text_order_is_transitive(x, y, z);
    }
}

/// The order in which to list items so that their keys ascend, items with equal
/// keys keeping their first order.
pub fn stable_order(keys: &Vec<String>) -> (order: Vec<usize>)
    ensures
        is_stable_order(keys@.map_values(|s: String| s@), order@),
{
    let ghost k = keys@.map_values(|s: String| s@);
    let mut order: Vec<usize> = Vec::new();
    let mut i: usize = 0;
    while i < keys.len()
        invariant
            k == keys@.map_values(|s: String| s@),
            i <= keys@.len(),
            order@.len() == i,
            forall|a: int| 0 <= a < order@.len() ==> (#[trigger] order@[a]) < i,
            forall|a: int, b: int|
                0 <= a < b < order@.len() ==> in_order(k, #[trigger] order@[a], #[trigger] order@[b]),
        decreases keys@.len() - i,
    {
        let mut p: usize = order.len();
        while p > 0 && text::text_before(keys[i].as_str(), keys[order[p - 1]].as_str())
            invariant
                k == keys@.map_values(|s: String| s@),
                i < keys@.len(),
                p <= order@.len() == i,
                forall|a: int| 0 <= a < order@.len() ==> (#[trigger] order@[a]) < i,
                forall|a: int| p <= a < order@.len() ==> in_order(k, i, #[trigger] order@[a]),
            decreases p,
        {
            p -= 1;
        }
        proof {
            if p > 0 {
                let q = order@[p - 1];
                text::text_order_is_total(k[q as int], k[i as int]);
                assert(in_order(k, q, i));
                assert forall|a: int| 0 <= a < p implies in_order(k, #[trigger] order@[a], i) by {
                    if a < p - 1 {
                        lemma_in_order_transitive(k, order@[a], q, i);
                    }
                }
            }
        }
        let ghost before = order@;
        order.insert(p, i);
        proof {
            assert(order@ == before.insert(p as int, i));
            assert forall|a: int, b: int| 0 <= a < b < order@.len() implies in_order(
                k,
                #[trigger] order@[a],
                #[trigger] order@[b],
            ) by {
                let x = if a < p {
                    a
                } else {
                    a - 1
                };
                let y = if b < p {
                    b
                } else {
                    b - 1
                };
                if a != p && b != p {
                    assert(in_order(k, before[x], before[y]));
                } else if a == p {
                    assert(in_order(k, i, before[y]));
                } else {
                    assert(in_order(k, before[x], i));
                }
            }
        }
        i += 1;
    }
    order
}

/// The name of a JSON file: something, and `.json`.
pub open spec fn is_json_name(f: Seq<char>) -> bool {
    f.len() > 5 && f.skip(f.len() - 5) == ".json"@
}

/// Whether `f` is the name of a JSON file.
pub fn is_json_file(f: &str) -> (r: bool)
    ensures
        r == is_json_name(f@),
{
    let v = text::chars_of(f);
    let n: usize = v.len();
    if n <= 5 {
        return false;
    }
    let end = text::text_of(&v, n - 5, n);
    assert(f@.skip(n - 5) =~= f@.subrange(n - 5, n as int));
    text::same_text(end.as_str(), ".json")
}

/// `out` lists `names` in dictionary order of their lower-case forms; names with the
/// same form keep their order.
pub open spec fn is_sorted_listing(names: Seq<Seq<char>>, out: Seq<Seq<char>>) -> bool {
    exists|order: Seq<usize>|
        #[trigger] is_stable_order(lower_keys(names), order) && out.len() == names.len() && forall|
            i: int,
        |
            0 <= i < out.len() ==> #[trigger] out[i] == names[order[i] as int]
}

/// The lower-case forms of the names.
pub open spec fn lower_keys(names: Seq<Seq<char>>) -> Seq<Seq<char>> {
    names.map_values(|s: Seq<char>| text::lower_cased(s))
}

/// The order in which to list `names`: dictionary order of their lower-case forms.
pub fn name_order(names: &Vec<String>) -> (order: Vec<usize>)
    ensures
        is_stable_order(lower_keys(names@.map_values(|s: String| s@)), order@),
{
    let mut keys: Vec<String> = Vec::new();
    let mut i: usize = 0;
    while i < names.len()
        invariant
            i <= names@.len(),
            keys@.len() == i,
            forall|j: int| 0 <= j < i ==> (#[trigger] keys@[j])@ == text::lower_cased(names@[j]@),
        decreases names@.len() - i,
    {
        keys.push(text::lower_case(names[i].as_str()));
        i += 1;
    }
    assert(keys@.map_values(|s: String| s@) =~= lower_keys(names@.map_values(|s: String| s@)));
    stable_order(&keys)
}

/// The names in dictionary order of their lower-case forms.
pub fn sorted_names(names: &Vec<String>) -> (out: Vec<String>)
    ensures
        is_sorted_listing(
            names@.map_values(|s: String| s@),
            out@.map_values(|s: String| s@),
        ),
{
    let order = name_order(names);
    let ghost all = names@.map_values(|s: String| s@);
    let mut out: Vec<String> = Vec::new();
    let mut i: usize = 0;
    while i < order.len()
        invariant
            all == names@.map_values(|s: String| s@),
            is_stable_order(lower_keys(all), order@),
            i <= order@.len(),
            out@.len() == i,
            forall|j: int| 0 <= j < i ==> (#[trigger] out@[j])@ == all[order@[j] as int],
        decreases order@.len() - i,
    {
        out.push(names[order[i]].clone());
        i += 1;
    }
    let ghost shown = out@.map_values(|s: String| s@);
    assert forall|j: int| 0 <= j < shown.len() implies #[trigger] shown[j]
        == all[order@[j] as int] by {
        assert(shown[j] == out@[j]@);
    }
    out
}

/// A file stem is the trimmed name letter by letter: safe characters as they are, and a dash
/// below the line for every other one.
pub proof fn stems_follow_the_name(name: Seq<char>, fallback: Seq<char>, i: int)
    requires
        0 <= i < text::trimmed(name).len(),
    ensures
        stem(name, fallback).len() == text::trimmed(name).len(),
        stem_char(text::trimmed(name)[i]) ==> stem(name, fallback)[i] == text::trimmed(name)[i],
        !stem_char(text::trimmed(name)[i]) ==> stem(name, fallback)[i] == '_',
{
}

/// What is safe in a file stem: the letters and digits of ASCII, the dash and the
/// underscore. Path separators, dots and spaces are not.
pub proof fn safe_characters(c: char)
    ensures
        'a' <= c <= 'z' || 'A' <= c <= 'Z' || '0' <= c <= '9' || c == '-' || c == '_'
            <==> stem_char(c),
        !stem_char('/') && !stem_char('.') && !stem_char(' ') && !stem_char(':'),
{
}

/// A listing loses nothing and doubles nothing, and its lower-case forms ascend.
pub proof fn listings_hold_every_name(names: Seq<Seq<char>>, out: Seq<Seq<char>>, i: int)
    requires
        is_sorted_listing(names, out),
        names.len() <= usize::MAX,
        0 <= i < names.len(),
    ensures
        out.len() == names.len(),
        out.contains(names[i]),
        names.contains(out[i]),
        i + 1 < out.len() ==> !text::text_lt(
            text::lower_cased(out[i + 1]),
            text::lower_cased(out[i]),
        ),
{
    let order = choose|order: Seq<usize>|
        #[trigger] is_stable_order(lower_keys(names), order) && out.len() == names.len() && forall|
            j: int,
        |
            0 <= j < out.len() ==> #[trigger] out[j] == names[order[j] as int];
    stable_order_is_a_permutation(lower_keys(names), order);
    assert(order.contains(i as usize));
    let j = choose|j: int| 0 <= j < order.len() && order[j] == i as usize;
    assert(out[j] == names[i]);
    assert(order[i] < names.len());
    assert(names[order[i] as int] == out[i]);
    if i + 1 < out.len() {
        assert(in_order(lower_keys(names), order[i], order[i + 1]));
        text::text_order_is_asymmetric(
            lower_keys(names)[order[i] as int],
            lower_keys(names)[order[i + 1] as int],
        );
        text::text_order_is_asymmetric(
            lower_keys(names)[order[i + 1] as int],
            lower_keys(names)[order[i + 1] as int],
        );
        assert(lower_keys(names)[order[i] as int] == text::lower_cased(out[i]));
        assert(lower_keys(names)[order[i + 1] as int] == text::lower_cased(out[i + 1]));
    }
}

} // verus!
