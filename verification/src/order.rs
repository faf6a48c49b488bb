//! Alphabetical order of channel paths: texts compared character by
//! character (by code point), a prefix first.  For UTF-8 text this is the
//! byte order in which `str` values compare.
use vstd::prelude::*;
use vstd::string::*;

verus! {

/// `a` comes no later than `b`: at the first position where they differ `a`
/// has the smaller character, or `a` is a prefix of `b`.
pub open spec fn text_le(a: Seq<char>, b: Seq<char>) -> bool
    decreases a.len(),
{
    if a.len() == 0 {
        true
    } else if b.len() == 0 {
        false
    } else if a[0] != b[0] {
        (a[0] as int) < (b[0] as int)
    } else {
        text_le(a.drop_first(), b.drop_first())
    }
}

/// Every element of `s` comes no later than every element after it.
pub open spec fn texts_sorted(s: Seq<String>) -> bool {
    forall|i: int, j: int| 0 <= i < j < s.len() ==> text_le(#[trigger] s[i]@, #[trigger] s[j]@)
}

/// Of two texts, one comes no later than the other.
pub proof fn lemma_text_le_total(a: Seq<char>, b: Seq<char>)
    ensures
        text_le(a, b) || text_le(b, a),
    decreases a.len(),
{
    if a.len() > 0 && b.len() > 0 && a[0] == b[0] {
        lemma_text_le_total(a.drop_first(), b.drop_first());
    }
}

/// The order is transitive.
pub proof fn lemma_text_le_transitive(a: Seq<char>, b: Seq<char>, c: Seq<char>)
    requires
        text_le(a, b),
        text_le(b, c),
    ensures
        text_le(a, c),
    decreases a.len(),
{
    if a.len() > 0 && a[0] == b[0] && b[0] == c[0] {
        lemma_text_le_transitive(a.drop_first(), b.drop_first(), c.drop_first());
    }
}

/// The characters of a text, one per element.
fn chars_of(s: &str) -> (v: Vec<char>)
    ensures
        v@ == s@,
{
    let n: usize = s.unicode_len();
    let mut v: Vec<char> = Vec::new();
    let mut i: usize = 0;
    while i < n
        invariant
            n == s@.len(),
            i <= n,
            v@ == s@.take(i as int),
        decreases n - i,
    {
        let c: char = s.get_char(i);
        v.push(c);
        assert(s@.take(i + 1) =~= s@.take(i as int).push(c));
        i = i + 1;
    }
    assert(s@.take(n as int) =~= s@);
    v
}

/// Whether `a` comes no later than `b`.
fn chars_le(a: &Vec<char>, b: &Vec<char>) -> (r: bool)
    ensures
        r == text_le(a@, b@),
{
    let mut i: usize = 0;
    assert(a@.skip(0) =~= a@);
    assert(b@.skip(0) =~= b@);
    while i < a.len() && i < b.len() && a[i] == b[i]
        invariant
            i <= a@.len(),
            i <= b@.len(),
            text_le(a@, b@) == text_le(a@.skip(i as int), b@.skip(i as int)),
        decreases a@.len() - i,
    {
        assert(a@.skip(i as int).drop_first() =~= a@.skip(i + 1));
        assert(b@.skip(i as int).drop_first() =~= b@.skip(i + 1));
        i = i + 1;
    }
    if i == a.len() {
        true
    } else if i == b.len() {
        false
    } else {
        a[i] < b[i]
    }
}

/// The same paths, in alphabetical order (see `text_le`).
pub fn sort_channels(paths: Vec<String>) -> (sorted: Vec<String>)
    ensures
        sorted@.to_multiset() == paths@.to_multiset(),
        texts_sorted(sorted@),
{
    let n: usize = paths.len();
    let mut out: Vec<String> = Vec::new();
    let mut keys: Vec<Vec<char>> = Vec::new();
    let mut i: usize = 0;
    assert(paths@.take(0) =~= Seq::<String>::empty());
    assert(out@ =~= Seq::<String>::empty());
    while i < n
        invariant
            n == paths@.len(),
            i <= n,
            out@.len() == keys@.len(),
            forall|k: int| 0 <= k < keys@.len() ==> (#[trigger] keys@[k])@ == out@[k]@,
            out@.to_multiset() == paths@.take(i as int).to_multiset(),
            texts_sorted(out@),
        decreases n - i,
    {
        let x: String = paths[i].clone();
        let key: Vec<char> = chars_of(x.as_str());
        let len: usize = out.len();
        let mut pos: usize = 0;
        while pos < len && chars_le(&keys[pos], &key)
            invariant
                len == out@.len(),
                out@.len() == keys@.len(),
                forall|k: int| 0 <= k < keys@.len() ==> (#[trigger] keys@[k])@ == out@[k]@,
                key@ == x@,
                pos <= len,
                forall|k: int| 0 <= k < pos ==> text_le(#[trigger] out@[k]@, x@),
            decreases len - pos,
        {
            pos = pos + 1;
        }
        let ghost before = out@;
        let ghost keys_before = keys@;
        proof {
            if pos < len {
                lemma_text_le_total(before[pos as int]@, x@);
            }
            assert forall|k: int| pos <= k < len implies text_le(x@, #[trigger] before[k]@) by {
                if k > pos {
                    lemma_text_le_transitive(x@, before[pos as int]@, before[k]@);
                }
            }
        }
        out.insert(pos, x);
        keys.insert(pos, key);
        proof {
            let after = out@;
            assert(after == before.insert(pos as int, paths@[i as int]));
            vstd::seq_lib::to_multiset_insert(before, pos as int, paths@[i as int]);
            vstd::seq_lib::to_multiset_insert(paths@.take(i as int), i as int, paths@[i as int]);
            assert(paths@.take(i + 1) =~= paths@.take(i as int).insert(i as int, paths@[i as int]));
            assert forall|a: int, b: int| 0 <= a < b < after.len() implies text_le(
                #[trigger] after[a]@,
                #[trigger] after[b]@,
            ) by {
                if b < pos {
                } else if b == pos {
                    assert(after[b] == x);
                } else if a < pos {
                    assert(after[b] == before[b - 1]);
                    lemma_text_le_transitive(before[a]@, x@, before[b - 1]@);
                } else if a == pos {
                    assert(after[b] == before[b - 1]);
                } else {
                    assert(after[a] == before[a - 1]);
                    assert(after[b] == before[b - 1]);
                }
            }
            assert forall|k: int| 0 <= k < keys@.len() implies (#[trigger] keys@[k])@ == out@[k]@ by {
                if k > pos {
                    assert(keys@[k] == keys_before[k - 1]);
                    assert(out@[k] == before[k - 1]);
                }
            }
        }
        i = i + 1;
    }
    assert(paths@.take(n as int) =~= paths@);
    out
}

} // verus!
