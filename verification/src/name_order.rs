use vstd::prelude::*;

verus! {

/// The bytes of a name, in the order in which names are compared.
pub open spec fn name_key(s: String) -> Seq<u8> {
    vstd::utf8::encode_utf8(s@)
}

/// Lexicographic order on byte strings, the order of `String`'s `cmp`.
pub open spec fn bytes_le(a: Seq<u8>, b: Seq<u8>) -> bool
    decreases a.len(),
{
    if a.len() == 0 {
        true
    } else if b.len() == 0 {
        false
    } else if a[0] != b[0] {
        a[0] < b[0]
    } else {
        bytes_le(a.drop_first(), b.drop_first())
    }
}

/// The order is transitive.
pub proof fn lemma_bytes_le_transitive(a: Seq<u8>, b: Seq<u8>, c: Seq<u8>)
    requires
        bytes_le(a, b),
        bytes_le(b, c),
    ensures
        bytes_le(a, c),
    decreases a.len(),
{
    if a.len() > 0 && b.len() > 0 && c.len() > 0 && a[0] == b[0] && b[0] == c[0] {
        lemma_bytes_le_transitive(a.drop_first(), b.drop_first(), c.drop_first());
    }
}

/// The order is total.
pub proof fn lemma_bytes_le_total(a: Seq<u8>, b: Seq<u8>)
    ensures
        bytes_le(a, b) || bytes_le(b, a),
    decreases a.len(),
{
    if a.len() > 0 && b.len() > 0 && a[0] == b[0] {
        lemma_bytes_le_total(a.drop_first(), b.drop_first());
    }
}

/// Whether `a` comes no later than `b` in the order of names.
pub fn name_le(a: &String, b: &String) -> (r: bool)
    ensures
        r == bytes_le(name_key(*a), name_key(*b)),
{
    let ab = a.as_str().as_bytes();
    let bb = b.as_str().as_bytes();
    let ghost ka = name_key(*a);
    let ghost kb = name_key(*b);
    assert(ab@ == ka);
    assert(bb@ == kb);
    assert(ka.skip(0) =~= ka);
    assert(kb.skip(0) =~= kb);
    let mut i: usize = 0;
    while i < ab.len() && i < bb.len()
        invariant
            ka == name_key(*a),
            kb == name_key(*b),
            ab@ == ka,
            bb@ == kb,
            0 <= i <= ka.len(),
            i <= kb.len(),
            bytes_le(ka, kb) == bytes_le(ka.skip(i as int), kb.skip(i as int)),
        decreases ka.len() - i,
    {
        let x = ab[i];
        let y = bb[i];
        if x != y {
            assert(ka.skip(i as int)[0] == ab[i as int]);
            assert(kb.skip(i as int)[0] == bb[i as int]);
            assert(ka.skip(i as int).len() > 0 && kb.skip(i as int).len() > 0);
            assert(bytes_le(ka.skip(i as int), kb.skip(i as int)) == (x < y));
            return x < y;
        }
        assert(ka.skip(i as int).drop_first() =~= ka.skip(i + 1));
        assert(kb.skip(i as int).drop_first() =~= kb.skip(i + 1));
        i = i + 1;
    }
    if i == ab.len() {
        assert(ka.skip(i as int).len() == 0);
    } else {
        assert(kb.skip(i as int).len() == 0);
        assert(ka.skip(i as int).len() > 0);
    }
    i == ab.len()
}

} // verus!
