//! The order in which record identifiers are kept: byte by byte over their
//! UTF-8 encoding, a shorter identifier before any longer one it begins.

use vstd::prelude::*;
use vstd::string::*;
use vstd::utf8::*;

verus! {

/// `a` comes before `b` because of position `k`: the two agree on every byte
/// before it, and there `a` has ended or holds the smaller byte.
pub open spec fn bytes_lt_at(a: Seq<u8>, b: Seq<u8>, k: int) -> bool {
    &&& 0 <= k <= a.len()
    &&& k < b.len()
    &&& forall|j: int| 0 <= j < k ==> a[j] == b[j]
    &&& (k == a.len() || a[k] < b[k])
}

/// Lexicographic order on byte strings.
pub open spec fn bytes_lt(a: Seq<u8>, b: Seq<u8>) -> bool {
    exists|k: int| bytes_lt_at(a, b, k)
}

/// The order of identifiers: `a` comes strictly before `b`.
pub open spec fn key_lt(a: Seq<char>, b: Seq<char>) -> bool {
    bytes_lt(encode_utf8(a), encode_utf8(b))
}

/// The order on byte strings is transitive.
pub proof fn lemma_bytes_lt_transitive(a: Seq<u8>, b: Seq<u8>, c: Seq<u8>)
    requires
        bytes_lt(a, b),
        bytes_lt(b, c),
    ensures
        bytes_lt(a, c),
{
    let k1 = choose|k: int| bytes_lt_at(a, b, k);
    let k2 = choose|k: int| bytes_lt_at(b, c, k);
    let k = if k1 <= k2 { k1 } else { k2 };
    assert(bytes_lt_at(a, c, k));
}

/// Two byte strings that agree up to position `k` are equal, or one comes
/// before the other.
proof fn lemma_bytes_total_from(a: Seq<u8>, b: Seq<u8>, k: int)
    requires
        0 <= k <= a.len(),
        k <= b.len(),
        forall|j: int| 0 <= j < k ==> a[j] == b[j],
    ensures
        a == b || bytes_lt(a, b) || bytes_lt(b, a),
    decreases a.len() - k,
{
    if k == a.len() {
        if k == b.len() {
            assert(a =~= b);
        } else {
            assert(bytes_lt_at(a, b, k));
        }
    } else if k == b.len() {
        assert(bytes_lt_at(b, a, k));
    } else if a[k] < b[k] {
        assert(bytes_lt_at(a, b, k));
    } else if b[k] < a[k] {
        assert(bytes_lt_at(b, a, k));
    } else {
        lemma_bytes_total_from(a, b, k + 1);
    }
}

/// The order of identifiers is strict: nothing comes before itself.
pub proof fn lemma_key_lt_irreflexive(a: Seq<char>)
    ensures
        !key_lt(a, a),
{
}

/// The order of identifiers is one-way: of two identifiers at most one comes
/// before the other.
pub proof fn lemma_key_lt_asymmetric(a: Seq<char>, b: Seq<char>)
    requires
        key_lt(a, b),
    ensures
        !key_lt(b, a),
{
    if key_lt(b, a) {
        lemma_bytes_lt_transitive(encode_utf8(a), encode_utf8(b), encode_utf8(a));
    }
}

/// The order of identifiers is transitive.
pub proof fn lemma_key_lt_transitive(a: Seq<char>, b: Seq<char>, c: Seq<char>)
    requires
        key_lt(a, b),
        key_lt(b, c),
    ensures
        key_lt(a, c),
{
    lemma_bytes_lt_transitive(encode_utf8(a), encode_utf8(b), encode_utf8(c));
}

/// The order of identifiers is total: two different identifiers are ordered.
pub proof fn lemma_key_lt_total(a: Seq<char>, b: Seq<char>)
    ensures
        a == b || key_lt(a, b) || key_lt(b, a),
{
    lemma_bytes_total_from(encode_utf8(a), encode_utf8(b), 0);
    if encode_utf8(a) == encode_utf8(b) {
        encode_utf8_decode_utf8(a);
        encode_utf8_decode_utf8(b);
    }
}

/// How one identifier stands to another in the order of the store.
#[derive(Clone, Copy, Debug, PartialEq, Eq, Structural)]
pub enum KeyOrder {
    Before,
    Same,
    After,
}

/// What [`compare_keys`] returns for two identifiers.
pub open spec fn key_order(a: Seq<char>, b: Seq<char>) -> KeyOrder {
    if a == b {
        KeyOrder::Same
    } else if key_lt(a, b) {
        KeyOrder::Before
    } else {
        KeyOrder::After
    }
}

/// Compares two identifiers in the order of the store.
pub fn compare_keys(a: &String, b: &String) -> (r: KeyOrder)
    ensures
        r == key_order(a@, b@),
        r == KeyOrder::After ==> key_lt(b@, a@),
{
    let x = a.as_str().as_bytes();
    let y = b.as_str().as_bytes();
    proof {
        lemma_key_lt_total(a@, b@);
        lemma_key_lt_irreflexive(a@);
        if key_lt(a@, b@) {
            lemma_key_lt_asymmetric(a@, b@);
        }
    }
    let mut i: usize = 0;
    while i < x.len() && i < y.len()
        invariant
            i <= x.len(),
            i <= y.len(),
            x@ == encode_utf8(a@),
            y@ == encode_utf8(b@),
            forall|j: int| 0 <= j < i ==> x@[j] == y@[j],
            a@ == b@ || key_lt(a@, b@) || key_lt(b@, a@),
            !(key_lt(a@, b@) && key_lt(b@, a@)),
            !key_lt(a@, a@),
        decreases x.len() - i,
    {
        if x[i] < y[i] {
            assert(bytes_lt_at(x@, y@, i as int));
            return KeyOrder::Before;
        }
        if y[i] < x[i] {
            assert(bytes_lt_at(y@, x@, i as int));
            return KeyOrder::After;
        }
        i += 1;
    }
    if i < y.len() {
        assert(bytes_lt_at(x@, y@, i as int));
        KeyOrder::Before
    } else if i < x.len() {
        assert(bytes_lt_at(y@, x@, i as int));
        KeyOrder::After
    } else {
        proof {
            assert(x@ =~= y@);
            encode_utf8_decode_utf8(a@);
            encode_utf8_decode_utf8(b@);
        }
        KeyOrder::Same
    }
}

} // verus!
