//! Text building blocks: decimal and hexadecimal rendering, lexicographic
//! order on strings, and sorted de-duplication of string lists.

use vstd::prelude::*;
use vstd::string::*;

verus! {

// ---------------------------------------------------------------------------
// Rendering numbers
// ---------------------------------------------------------------------------

/// The ASCII character of a decimal or hexadecimal digit value (lower case).
pub open spec fn digit_char(d: nat) -> char {
    if d < 10 {
        ((48 + d) as u8) as char
    } else {
        ((87 + d) as u8) as char
    }
}

/// Decimal rendering of a natural number without leading zeros.
pub open spec fn decimal(n: nat) -> Seq<char>
    decreases n,
{
    if n < 10 {
        seq![digit_char(n)]
    } else {
        decimal(n / 10) + seq![digit_char(n % 10)]
    }
}

/// Decimal rendering of an integer, with a leading `-` when negative.
pub open spec fn signed_decimal(i: int) -> Seq<char> {
    if i < 0 {
        seq!['-'] + decimal((-i) as nat)
    } else {
        decimal(i as nat)
    }
}

/// The lowest `width` hexadecimal digits of `n`, zero padded, lower case.
pub open spec fn hex_fixed(n: nat, width: nat) -> Seq<char>
    decreases width,
{
    if width == 0 {
        Seq::empty()
    } else {
        hex_fixed(n / 16, (width - 1) as nat) + seq![digit_char(n % 16)]
    }
}

/// Appends `c` to `s`.
#[verifier::external_body]
pub(crate) fn push_char(s: &mut String, c: char)
    ensures
        final(s)@ == old(s)@.push(c),
{
    s.push(c);
}

fn digit(d: u64) -> (c: char)
    requires
        d < 16,
    ensures
        c == digit_char(d as nat),
{
    if d < 10 {
        ((48 + d) as u8) as char
    } else {
        ((87 + d) as u8) as char
    }
}

/// Appends the decimal rendering of `n` to `out`.
pub fn push_decimal(out: &mut String, n: u64)
    ensures
        final(out)@ == old(out)@ + decimal(n as nat),
    decreases n,
{
    if n < 10 {
        push_char(out, digit(n));
    } else {
        push_decimal(out, n / 10);
        push_char(out, digit(n % 10));
    }
    proof {
        assert(final(out)@ =~= old(out)@ + decimal(n as nat));
    }
}

/// Appends the decimal rendering of a signed integer to `out`.
pub fn push_signed_decimal(out: &mut String, v: i64)
    ensures
        final(out)@ == old(out)@ + signed_decimal(v as int),
{
    if v < 0 {
        push_char(out, '-');
        let magnitude: u64 = (0i128 - (v as i128)) as u64;
        push_decimal(out, magnitude);
        assert(final(out)@ =~= old(out)@ + signed_decimal(v as int));
    } else {
        push_decimal(out, v as u64);
    }
}

/// Appends the lowest `width` hexadecimal digits of `n` to `out`.
pub fn push_hex_fixed(out: &mut String, n: u64, width: u32)
    ensures
        final(out)@ == old(out)@ + hex_fixed(n as nat, width as nat),
    decreases width,
{
    if width > 0 {
        push_hex_fixed(out, n / 16, width - 1);
        push_char(out, digit(n % 16));
    }
    proof {
        assert(final(out)@ =~= old(out)@ + hex_fixed(n as nat, width as nat));
    }
}

/// Appends `piece` to `out`.
pub fn push_str(out: &mut String, piece: &str)
    ensures
        final(out)@ == old(out)@ + piece@,
{
    out.append(piece);
}

/// A fresh string holding `piece`.
pub fn string_of(piece: &str) -> (s: String)
    ensures
        s@ == piece@,
{
    String::from_str(piece)
}

// ---------------------------------------------------------------------------
// Lexicographic order
// ---------------------------------------------------------------------------

/// Strict lexicographic order on character sequences, comparing characters
/// by code point; this is the order of Rust strings.
pub open spec fn seq_lt(a: Seq<char>, b: Seq<char>) -> bool
    decreases a.len(),
{
    if a.len() == 0 {
        b.len() > 0
    } else if b.len() == 0 {
        false
    } else if a[0] == b[0] {
        seq_lt(a.drop_first(), b.drop_first())
    } else {
        (a[0] as int) < (b[0] as int)
    }
}

pub proof fn lemma_seq_lt_irreflexive(a: Seq<char>)
    ensures
        !seq_lt(a, a),
    decreases a.len(),
{
    if a.len() > 0 {
        lemma_seq_lt_irreflexive(a.drop_first());
    }
}

pub proof fn lemma_seq_lt_transitive(a: Seq<char>, b: Seq<char>, c: Seq<char>)
    requires
        seq_lt(a, b),
        seq_lt(b, c),
    ensures
        seq_lt(a, c),
    decreases a.len(),
{
    if a.len() > 0 && b.len() > 0 && c.len() > 0 {
        if a[0] == b[0] && b[0] == c[0] {
            lemma_seq_lt_transitive(a.drop_first(), b.drop_first(), c.drop_first());
        }
    }
}

pub proof fn lemma_seq_lt_total(a: Seq<char>, b: Seq<char>)
    ensures
        a == b || seq_lt(a, b) || seq_lt(b, a),
    decreases a.len(),
{
    if a.len() > 0 && b.len() > 0 {
        if a[0] == b[0] {
            lemma_seq_lt_total(a.drop_first(), b.drop_first());
            if a.drop_first() == b.drop_first() {
                assert(a =~= seq![a[0]] + a.drop_first());
                assert(b =~= seq![b[0]] + b.drop_first());
            }
        } else {
            assert((a[0] as int) != (b[0] as int));
        }
    } else if a.len() == 0 && b.len() == 0 {
        assert(a =~= b);
    }
}

pub proof fn lemma_seq_lt_asymmetric(a: Seq<char>, b: Seq<char>)
    requires
        seq_lt(a, b),
    ensures
        !seq_lt(b, a),
{
    if seq_lt(b, a) {
        lemma_seq_lt_transitive(a, b, a);
        lemma_seq_lt_irreflexive(a);
    }
}

proof fn lemma_seq_lt_step(a: Seq<char>, b: Seq<char>, i: int)
    requires
        0 <= i < a.len(),
        i < b.len(),
        a[i] == b[i],
    ensures
        seq_lt(a.skip(i), b.skip(i)) == seq_lt(a.skip(i + 1), b.skip(i + 1)),
{
    assert(a.skip(i).drop_first() =~= a.skip(i + 1));
    assert(b.skip(i).drop_first() =~= b.skip(i + 1));
}

/// Whether `a` orders strictly before `b`.
pub fn str_lt(a: &str, b: &str) -> (r: bool)
    ensures
        r == seq_lt(a@, b@),
{
    let la = a.unicode_len();
    let lb = b.unicode_len();
    let mut i: usize = 0;
    assert(a@.skip(0) =~= a@);
    assert(b@.skip(0) =~= b@);
    while i < la && i < lb
        invariant
            la == a@.len(),
            lb == b@.len(),
            i <= la,
            i <= lb,
            seq_lt(a@, b@) == seq_lt(a@.skip(i as int), b@.skip(i as int)),
        decreases la - i,
    {
        let ca = a.get_char(i);
        let cb = b.get_char(i);
        if ca != cb {
            assert(a@.skip(i as int)[0] == ca);
            assert(b@.skip(i as int)[0] == cb);
            return (ca as u32) < (cb as u32);
        }
        proof {
            lemma_seq_lt_step(a@, b@, i as int);
        }
        i = i + 1;
    }
    i == la && i < lb
}

/// Whether two strings hold the same characters.
pub fn str_eq(a: &str, b: &str) -> (r: bool)
    ensures
        r == (a@ == b@),
{
    let la = a.unicode_len();
    let lb = b.unicode_len();
    if la != lb {
        return false;
    }
    let mut i: usize = 0;
    while i < la
        invariant
            la == a@.len(),
            lb == b@.len(),
            la == lb,
            i <= la,
            forall|k: int| 0 <= k < i ==> a@[k] == b@[k],
        decreases la - i,
    {
        if a.get_char(i) != b.get_char(i) {
            return false;
        }
        i = i + 1;
    }
    assert(a@ =~= b@);
    true
}

// ---------------------------------------------------------------------------
// Sorted, de-duplicated string lists
// ---------------------------------------------------------------------------

/// The characters of each string in a list.
pub open spec fn texts(v: Seq<String>) -> Seq<Seq<char>> {
    v.map_values(|s: String| s@)
}

pub proof fn lemma_texts_push(v: Seq<String>, s: String)
    ensures
        texts(v.push(s)) == texts(v).push(s@),
{
    assert(texts(v.push(s)) =~= texts(v).push(s@));
}

/// Strictly increasing in lexicographic order (so free of duplicates).
pub open spec fn strictly_sorted(s: Seq<Seq<char>>) -> bool {
    forall|i: int, j: int| 0 <= i < j < s.len() ==> seq_lt(#[trigger] s[i], #[trigger] s[j])
}

/// Inserts `x` into a sorted list, unless an equal element is present.
pub open spec fn insert_unique(sorted: Seq<Seq<char>>, x: Seq<char>) -> Seq<Seq<char>>
    decreases sorted.len(),
{
    if sorted.len() == 0 {
        seq![x]
    } else if seq_lt(sorted[0], x) {
        seq![sorted[0]] + insert_unique(sorted.drop_first(), x)
    } else if sorted[0] == x {
        sorted
    } else {
        seq![x] + sorted
    }
}

/// The elements of `s`, sorted, each once.
pub open spec fn sorted_unique(s: Seq<Seq<char>>) -> Seq<Seq<char>>
    decreases s.len(),
{
    if s.len() == 0 {
        Seq::empty()
    } else {
        insert_unique(sorted_unique(s.drop_last()), s.last())
    }
}

/// `insert_unique` keeps the prefix of smaller elements and puts `x` at the
/// first position that does not order before it.
pub proof fn lemma_insert_unique_at(sorted: Seq<Seq<char>>, x: Seq<char>, k: int)
    requires
        0 <= k <= sorted.len(),
        forall|m: int| 0 <= m < k ==> seq_lt(#[trigger] sorted[m], x),
        k < sorted.len() ==> !seq_lt(sorted[k], x),
    ensures
        insert_unique(sorted, x) == if k < sorted.len() && sorted[k] == x {
            sorted
        } else {
            sorted.take(k).push(x) + sorted.skip(k)
        },
    decreases k,
{
    if k == 0 {
        assert(sorted.take(0).push(x) + sorted.skip(0) =~= seq![x] + sorted);
    } else {
        let rest = sorted.drop_first();
        assert forall|m: int| 0 <= m < k - 1 implies seq_lt(#[trigger] rest[m], x) by {
            assert(rest[m] == sorted[m + 1]);
        }
        if k - 1 < rest.len() {
            assert(rest[k - 1] == sorted[k]);
        }
        lemma_insert_unique_at(rest, x, k - 1);
        assert(seq_lt(sorted[0], x));
        if k < sorted.len() && sorted[k] == x {
            assert(seq![sorted[0]] + rest =~= sorted);
        } else {
            assert(seq![sorted[0]] + (rest.take(k - 1).push(x) + rest.skip(k - 1)) =~= sorted.take(
                k,
            ).push(x) + sorted.skip(k));
        }
    }
}

/// A strictly sorted list is its own sorted, de-duplicated form.
pub proof fn lemma_sorted_unique_of_sorted(s: Seq<Seq<char>>)
    requires
        strictly_sorted(s),
    ensures
        sorted_unique(s) == s,
    decreases s.len(),
{
    if s.len() > 0 {
        let d = s.drop_last();
        assert(strictly_sorted(d)) by {
            assert forall|i: int, j: int| 0 <= i < j < d.len() implies seq_lt(#[trigger] d[i], #[trigger] d[j]) by {
                assert(d[i] == s[i] && d[j] == s[j]);
            }
        }
        lemma_sorted_unique_of_sorted(d);
        assert forall|m: int| 0 <= m < d.len() implies seq_lt(#[trigger] d[m], s.last()) by {
            assert(d[m] == s[m]);
        }
        lemma_insert_unique_at(d, s.last(), d.len() as int);
        assert(d.take(d.len() as int).push(s.last()) + d.skip(d.len() as int) =~= s);
    }
}

/// Whether `v` holds a string equal to `s`.
pub fn contains_text(v: &Vec<String>, s: &str) -> (r: bool)
    ensures
        r == texts(v@).contains(s@),
{
    let mut i: usize = 0;
    while i < v.len()
        invariant
            i <= v@.len(),
            forall|k: int| 0 <= k < i ==> v@[k]@ != s@,
        decreases v@.len() - i,
    {
        if str_eq(v[i].as_str(), s) {
            assert(texts(v@)[i as int] == s@);
            return true;
        }
        i = i + 1;
    }
    proof {
        if texts(v@).contains(s@) {
            let w = choose|w: int| 0 <= w < texts(v@).len() && texts(v@)[w] == s@;
            assert(v@[w]@ == s@);
        }
    }
    false
}

/// Sorts `items` and removes duplicates: the result is strictly increasing
/// and holds exactly the strings that `items` holds.
pub fn dedup_sorted(items: Vec<String>) -> (r: Vec<String>)
    ensures
        texts(r@) == sorted_unique(texts(items@)),
        strictly_sorted(texts(r@)),
        forall|t: Seq<char>| texts(r@).contains(t) <==> texts(items@).contains(t),
{
    let mut out: Vec<String> = Vec::new();
    let n = items.len();
    let mut i: usize = 0;
    while i < n
        invariant
            n == items.len(),
            i <= n,
            strictly_sorted(texts(out@)),
            texts(out@) == sorted_unique(texts(items@.subrange(0, i as int))),
            forall|t: Seq<char>|
                texts(out@).contains(t) <==> texts(items@.subrange(0, i as int)).contains(t),
        decreases n - i,
    {
        insert_sorted_unique(&mut out, &items[i]);
        proof {
            let tn = texts(items@.subrange(0, i + 1));
            let tp = texts(items@.subrange(0, i as int));
            assert(items@.subrange(0, i + 1) =~= items@.subrange(0, i as int).push(items@[i as int]));
            assert(tn =~= tp.push(items@[i as int]@));
            assert(tn.drop_last() =~= tp);
            assert(tn.last() == items@[i as int]@);
        }
        proof {
            assert forall|t: Seq<char>|
                texts(out@).contains(t) <==> texts(items@.subrange(0, i + 1)).contains(t) by {
                let prev = items@.subrange(0, i as int);
                let next = items@.subrange(0, i + 1);
                assert(next =~= prev.push(items@[i as int]));
                let tn = texts(next);
                let tp = texts(prev);
                assert(tn =~= tp.push(items@[i as int]@));
                assert(tn.drop_last() =~= tp);
                if tn.contains(t) {
                    let w = choose|w: int| 0 <= w < tn.len() && tn[w] == t;
                    if w < tp.len() {
                        assert(tp[w] == t);
                    }
                }
                if tp.contains(t) {
                    let w = choose|w: int| 0 <= w < tp.len() && tp[w] == t;
                    assert(tn[w] == t);
                }
                if t == items@[i as int]@ {
                    assert(tn[tp.len() as int] == t);
                }
            }
        }
        i = i + 1;
    }
    assert(items@.subrange(0, n as int) =~= items@);
    out
}

/// Inserts a copy of `item` into the strictly sorted `out`, unless an equal
/// string is already there.
pub fn insert_sorted_unique(out: &mut Vec<String>, item: &String)
    requires
        strictly_sorted(texts(old(out)@)),
    ensures
        texts(final(out)@) == insert_unique(texts(old(out)@), item@),
        strictly_sorted(texts(final(out)@)),
        forall|t: Seq<char>|
            texts(final(out)@).contains(t) <==> (texts(old(out)@).contains(t) || t == item@),
{
    let ghost old_t = texts(out@);
    let n = out.len();
    let mut k: usize = 0;
    while k < n && str_lt(out[k].as_str(), item.as_str())
        invariant
            n == out.len(),
            out@ == old(out)@,
            k <= n,
            forall|m: int| 0 <= m < k ==> seq_lt(#[trigger] texts(out@)[m], item@),
        decreases n - k,
    {
        k = k + 1;
    }
    proof {
        lemma_insert_unique_at(old_t, item@, k as int);
    }
    if k < n && str_eq(out[k].as_str(), item.as_str()) {
        assert(texts(out@)[k as int] == item@);
        return;
    }
    proof {
        if k < n {
            lemma_seq_lt_total(texts(out@)[k as int], item@);
        }
    }
    let copy = item.clone();
    out.insert(k, copy);
    proof {
        let t = texts(out@);
        assert(t =~= old_t.subrange(0, k as int).push(item@) + old_t.subrange(k as int, n as int));
        assert(t =~= old_t.take(k as int).push(item@) + old_t.skip(k as int));
        assert forall|i: int, j: int| 0 <= i < j < t.len() implies seq_lt(t[i], t[j]) by {
            if j == k as int {
                assert(seq_lt(old_t[i], item@));
            } else if i == k as int {
                assert(t[j] == old_t[j - 1]);
                if j - 1 > k as int {
                    lemma_seq_lt_transitive(item@, old_t[k as int], old_t[j - 1]);
                }
            } else if i < k as int && j > k as int {
                assert(seq_lt(old_t[i], old_t[j - 1]));
            } else if i > k as int {
                assert(seq_lt(old_t[i - 1], old_t[j - 1]));
            }
        }
        assert forall|x: Seq<char>| t.contains(x) <==> (old_t.contains(x) || x == item@) by {
            if t.contains(x) {
                let w = choose|w: int| 0 <= w < t.len() && t[w] == x;
                if w < k as int {
                    assert(old_t[w] == x);
                } else if w > k as int {
                    assert(old_t[w - 1] == x);
                }
            }
            if old_t.contains(x) {
                let w = choose|w: int| 0 <= w < old_t.len() && old_t[w] == x;
                if w < k as int {
                    assert(t[w] == x);
                } else {
                    assert(t[w + 1] == x);
                }
            }
            if x == item@ {
                assert(t[k as int] == x);
            }
        }
    }
}

// ---------------------------------------------------------------------------
// Sorting (duplicates kept)
// ---------------------------------------------------------------------------

/// Inserts `x` into a sorted list before the first element that does not
/// order before it.
pub open spec fn insert_sorted(sorted: Seq<Seq<char>>, x: Seq<char>) -> Seq<Seq<char>>
    decreases sorted.len(),
{
    if sorted.len() == 0 {
        seq![x]
    } else if seq_lt(sorted[0], x) {
        seq![sorted[0]] + insert_sorted(sorted.drop_first(), x)
    } else {
        seq![x] + sorted
    }
}

/// The elements of `s` in increasing order, duplicates kept (insertion sort).
pub open spec fn sort_texts(s: Seq<Seq<char>>) -> Seq<Seq<char>>
    decreases s.len(),
{
    if s.len() == 0 {
        Seq::empty()
    } else {
        insert_sorted(sort_texts(s.drop_last()), s.last())
    }
}

/// Sorted in lexicographic order, duplicates allowed.
pub open spec fn sorted_texts(s: Seq<Seq<char>>) -> bool {
    forall|i: int, j: int| 0 <= i < j < s.len() ==> !seq_lt(#[trigger] s[j], #[trigger] s[i])
}

/// `insert_sorted` puts `x` right after the prefix of elements that order
/// before it.
pub proof fn lemma_insert_sorted_at(sorted: Seq<Seq<char>>, x: Seq<char>, k: int)
    requires
        0 <= k <= sorted.len(),
        forall|m: int| 0 <= m < k ==> seq_lt(#[trigger] sorted[m], x),
        k < sorted.len() ==> !seq_lt(sorted[k], x),
    ensures
        insert_sorted(sorted, x) == sorted.take(k).push(x) + sorted.skip(k),
    decreases k,
{
    if k == 0 {
        assert(sorted.take(0).push(x) + sorted.skip(0) =~= seq![x] + sorted);
    } else {
        let rest = sorted.drop_first();
        assert forall|m: int| 0 <= m < k - 1 implies seq_lt(#[trigger] rest[m], x) by {
            assert(rest[m] == sorted[m + 1]);
        }
        if k - 1 < rest.len() {
            assert(rest[k - 1] == sorted[k]);
        }
        lemma_insert_sorted_at(rest, x, k - 1);
        assert(seq_lt(sorted[0], x));
        assert(seq![sorted[0]] + (rest.take(k - 1).push(x) + rest.skip(k - 1)) =~= sorted.take(
            k,
        ).push(x) + sorted.skip(k));
    }
}

/// Inserts `item` into `out` before the first string that does not order
/// before it.
pub fn insert_sorted_string(out: &mut Vec<String>, item: String)
    ensures
        texts(final(out)@) == insert_sorted(texts(old(out)@), item@),
{
    let ghost old_t = texts(out@);
    let n = out.len();
    let mut k: usize = 0;
    while k < n && str_lt(out[k].as_str(), item.as_str())
        invariant
            n == out.len(),
            out@ == old(out)@,
            k <= n,
            forall|m: int| 0 <= m < k ==> seq_lt(#[trigger] texts(out@)[m], item@),
        decreases n - k,
    {
        k = k + 1;
    }
    proof {
        lemma_insert_sorted_at(old_t, item@, k as int);
    }
    out.insert(k, item);
    proof {
        assert(texts(out@) =~= old_t.take(k as int).push(item@) + old_t.skip(k as int));
    }
}

/// The strings of `v` in increasing order, duplicates kept.
pub fn sort_strings(v: &Vec<String>) -> (r: Vec<String>)
    ensures
        texts(r@) == sort_texts(texts(v@)),
{
    let mut out: Vec<String> = Vec::new();
    let mut i: usize = 0;
    while i < v.len()
        invariant
            i <= v@.len(),
            texts(out@) == sort_texts(texts(v@).take(i as int)),
        decreases v@.len() - i,
    {
        proof {
            let t = texts(v@).take(i + 1);
            assert(t.drop_last() =~= texts(v@).take(i as int));
            assert(t.last() == v@[i as int]@);
        }
        insert_sorted_string(&mut out, v[i].clone());
        i = i + 1;
    }
    assert(texts(v@).take(v@.len() as int) =~= texts(v@));
    out
}

} // verus!
