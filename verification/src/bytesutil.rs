//! Byte-string helpers shared by header parsing: equality, subranges,
//! ASCII trimming and separator splitting, each proved against a small
//! recursive specification.

use vstd::prelude::*;

verus! {

/// ASCII whitespace as header values know it: space, tab, line feed,
/// form feed, carriage return.
pub open spec fn is_ascii_ws(b: u8) -> bool {
    b == 0x20 || b == 0x09 || b == 0x0a || b == 0x0c || b == 0x0d
}

/// The suffix of `s` that remains once every leading byte satisfying
/// `pred` is dropped.
pub open spec fn drop_front_while(s: Seq<u8>, pred: spec_fn(u8) -> bool) -> Seq<u8>
    decreases s.len(),
{
    if s.len() > 0 && pred(s[0]) {
        drop_front_while(s.drop_first(), pred)
    } else {
        s
    }
}

/// The prefix of `s` that remains once every trailing byte satisfying
/// `pred` is dropped.
pub open spec fn drop_back_while(s: Seq<u8>, pred: spec_fn(u8) -> bool) -> Seq<u8>
    decreases s.len(),
{
    if s.len() > 0 && pred(s.last()) {
        drop_back_while(s.drop_last(), pred)
    } else {
        s
    }
}

/// `s` with ASCII whitespace removed from both ends.
pub open spec fn trimmed(s: Seq<u8>) -> Seq<u8> {
    drop_back_while(drop_front_while(s, |b: u8| is_ascii_ws(b)), |b: u8| is_ascii_ws(b))
}

pub proof fn lemma_drop_front_while(s: Seq<u8>, pred: spec_fn(u8) -> bool, i: int)
    requires
        0 <= i <= s.len(),
        forall|k: int| 0 <= k < i ==> pred(s[k]),
        i == s.len() || !pred(s[i]),
    ensures
        drop_front_while(s, pred) =~= s.skip(i),
    decreases i,
{
    if i == 0 {
        assert(s.skip(0) =~= s);
    } else {
        assert(pred(s[0]));
        assert(forall|k: int| 0 <= k < i - 1 ==> pred(s.drop_first()[k]));
        lemma_drop_front_while(s.drop_first(), pred, i - 1);
        assert(s.drop_first().skip(i - 1) =~= s.skip(i));
    }
}

pub proof fn lemma_drop_back_while(s: Seq<u8>, pred: spec_fn(u8) -> bool, j: int)
    requires
        0 <= j <= s.len(),
        forall|k: int| j <= k < s.len() ==> pred(s[k]),
        j == 0 || !pred(s[j - 1]),
    ensures
        drop_back_while(s, pred) =~= s.take(j),
    decreases s.len() - j,
{
    if j == s.len() {
        assert(s.take(j) =~= s);
    } else {
        assert(pred(s.last()));
        assert(forall|k: int| j <= k < s.drop_last().len() ==> pred(s.drop_last()[k]));
        lemma_drop_back_while(s.drop_last(), pred, j);
        assert(s.drop_last().take(j) =~= s.take(j));
    }
}

/// Whether `b` is ASCII whitespace.
pub fn is_ws_byte(b: u8) -> (r: bool)
    ensures
        r == is_ascii_ws(b),
{
    b == 0x20 || b == 0x09 || b == 0x0a || b == 0x0c || b == 0x0d
}

/// Copies `v[from..to]` into a fresh vector.
pub fn subrange_vec(v: &[u8], from: usize, to: usize) -> (r: Vec<u8>)
    requires
        from <= to <= v@.len(),
    ensures
        r@ == v@.subrange(from as int, to as int),
{
    let mut r: Vec<u8> = Vec::new();
    let mut k: usize = from;
    while k < to
        invariant
            from <= k <= to <= v@.len(),
            r@ =~= v@.subrange(from as int, k as int),
        decreases to - k,
    {
        r.push(v[k]);
        assert(r@ =~= v@.subrange(from as int, k as int + 1));
        k += 1;
    }
    assert(r@ =~= v@.subrange(from as int, to as int));
    r
}

/// Byte-for-byte equality of two byte strings.
pub fn bytes_eq(a: &[u8], b: &[u8]) -> (r: bool)
    ensures
        r == (a@ == b@),
{
    if a.len() != b.len() {
        return false;
    }
    let mut k: usize = 0;
    while k < a.len()
        invariant
            a@.len() == b@.len(),
            k <= a@.len(),
            forall|t: int| 0 <= t < k ==> a@[t] == b@[t],
        decreases a@.len() - k,
    {
        if a[k] != b[k] {
            return false;
        }
        k += 1;
    }
    assert(a@ =~= b@);
    true
}

/// `v` with ASCII whitespace removed from both ends.
pub fn trim_bytes(v: &[u8]) -> (r: Vec<u8>)
    ensures
        r@ == trimmed(v@),
{
    let ghost pred = |b: u8| is_ascii_ws(b);
    let mut i: usize = 0;
    while i < v.len() && is_ws_byte(v[i])
        invariant
            i <= v@.len(),
            forall|k: int| 0 <= k < i ==> is_ascii_ws(v@[k]),
        decreases v@.len() - i,
    {
        i += 1;
    }
    let mut j: usize = v.len();
    while j > i && is_ws_byte(v[j - 1])
        invariant
            i <= j <= v@.len(),
            forall|k: int| j <= k < v@.len() ==> is_ascii_ws(v@[k]),
        decreases j,
    {
        j -= 1;
    }
    proof {
        lemma_drop_front_while(v@, pred, i as int);
        assert(forall|k: int| (j - i) <= k < v@.skip(i as int).len() ==> pred(
            v@.skip(i as int)[k],
        ));
        lemma_drop_back_while(v@.skip(i as int), pred, j - i);
        assert(v@.skip(i as int).take(j - i) =~= v@.subrange(i as int, j as int));
        assert(trimmed(v@) =~= v@.subrange(i as int, j as int));
    }
    subrange_vec(v, i, j)
}

/// The segments of `s` between occurrences of `sep`: one more segment
/// than there are separators, in order, separators themselves dropped.
pub open spec fn split_on(s: Seq<u8>, sep: u8) -> Seq<Seq<u8>>
    decreases s.len(),
{
    if s.len() == 0 {
        seq![Seq::<u8>::empty()]
    } else if s[0] == sep {
        seq![Seq::<u8>::empty()] + split_on(s.drop_first(), sep)
    } else {
        let rest = split_on(s.drop_first(), sep);
        seq![seq![s[0]] + rest[0]] + rest.drop_first()
    }
}

pub proof fn lemma_split_on_len(s: Seq<u8>, sep: u8)
    ensures
        split_on(s, sep).len() >= 1,
    decreases s.len(),
{
    if s.len() == 0 {
    } else {
        lemma_split_on_len(s.drop_first(), sep);
    }
}

/// Splits `v` on `sep`.
pub fn split_bytes(v: &[u8], sep: u8) -> (r: Vec<Vec<u8>>)
    ensures
        r.deep_view() == split_on(v@, sep),
{
    let mut out: Vec<Vec<u8>> = Vec::new();
    let mut cur: Vec<u8> = Vec::new();
    let mut i: usize = 0;
    proof {
        lemma_split_on_len(v@, sep);
        assert(v@.skip(0) =~= v@);
        assert(seq![split_on(v@, sep)[0]] + split_on(v@, sep).drop_first() =~= split_on(v@, sep));
    }
    while i < v.len()
        invariant
            i <= v@.len(),
            split_on(v@, sep) =~= out.deep_view() + seq![
                cur@ + split_on(v@.skip(i as int), sep)[0],
            ] + split_on(v@.skip(i as int), sep).drop_first(),
        decreases v@.len() - i,
    {
        proof {
            lemma_split_on_len(v@.skip(i as int + 1), sep);
            assert(v@.skip(i as int).drop_first() =~= v@.skip(i as int + 1));
            assert(v@.skip(i as int)[0] == v@[i as int]);
        }
        let ghost old_out = out.deep_view();
        let ghost old_cur = cur@;
        let ghost tail = split_on(v@.skip(i as int + 1), sep);
        if v[i] == sep {
            proof {
                assert(split_on(v@.skip(i as int), sep) =~= seq![Seq::<u8>::empty()] + tail);
                assert(old_cur + (seq![Seq::<u8>::empty()] + tail)[0] =~= old_cur);
            }
            out.push(cur);
            cur = Vec::new();
            proof {
                assert(out.deep_view() =~~= old_out + seq![old_cur]);
                assert(seq![cur@ + tail[0]] + tail.drop_first() =~= tail);
                assert(split_on(v@, sep) =~= out.deep_view() + seq![
                    cur@ + split_on(v@.skip(i as int + 1), sep)[0],
                ] + split_on(v@.skip(i as int + 1), sep).drop_first());
            }
        } else {
            proof {
                assert(split_on(v@.skip(i as int), sep) =~= seq![seq![v@[i as int]] + tail[0]]
                    + tail.drop_first());
                assert(old_cur + (seq![v@[i as int]] + tail[0]) =~= (old_cur + seq![v@[i as int]])
                    + tail[0]);
            }
            cur.push(v[i]);
            proof {
                assert(cur@ =~= old_cur + seq![v@[i as int]]);
                assert(split_on(v@, sep) =~= out.deep_view() + seq![
                    cur@ + split_on(v@.skip(i as int + 1), sep)[0],
                ] + split_on(v@.skip(i as int + 1), sep).drop_first());
            }
        }
        i += 1;
    }
    proof {
        assert(v@.skip(i as int) =~= Seq::<u8>::empty());
        assert(split_on(v@, sep) =~= out.deep_view() + seq![cur@]);
    }
    let ghost old_out = out.deep_view();
    let ghost old_cur = cur@;
    out.push(cur);
    proof {
        assert(out.deep_view() =~~= old_out + seq![old_cur]);
        assert(out.deep_view() =~~= split_on(v@, sep));
    }
    out
}

} // verus!
