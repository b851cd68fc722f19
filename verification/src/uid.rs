use vstd::prelude::*;

verus! {

/// Strict lexicographic order on byte strings, as `Ord` orders byte arrays.
pub open spec fn bytes_lt(a: Seq<u8>, b: Seq<u8>) -> bool
    decreases a.len(),
{
    if a.len() == 0 {
        b.len() > 0
    } else if b.len() == 0 {
        false
    } else if a[0] < b[0] {
        true
    } else if a[0] > b[0] {
        false
    } else {
        bytes_lt(a.drop_first(), b.drop_first())
    }
}

/// `bytes_lt` is a strict total order.
pub proof fn lemma_bytes_lt_strict_total(a: Seq<u8>, b: Seq<u8>)
    ensures
        !bytes_lt(a, a),
        bytes_lt(a, b) ==> !bytes_lt(b, a),
        a != b ==> bytes_lt(a, b) || bytes_lt(b, a),
    decreases a.len(),
{
    if a.len() > 0 && b.len() > 0 {
        lemma_bytes_lt_strict_total(a.drop_first(), b.drop_first());
        if a[0] == b[0] && a != b {
            assert(a =~= seq![a[0]] + a.drop_first());
            assert(b =~= seq![b[0]] + b.drop_first());
        }
    } else if a.len() == 0 && b.len() == 0 {
        assert(a =~= b);
    } else if a.len() > 0 {
        lemma_bytes_lt_strict_total(a.drop_first(), a.drop_first());
    }
}

/// Byte strings of one length are ordered by their first differing byte, as
/// unsigned numbers: the one with the smaller byte there comes first.
pub proof fn law_bytes_lt_first_difference(a: Seq<u8>, b: Seq<u8>, k: int)
    requires
        a.len() == b.len(),
        0 <= k < a.len(),
        forall|j: int| 0 <= j < k ==> a[j] == b[j],
        a[k] != b[k],
    ensures
        bytes_lt(a, b) == (a[k] < b[k]),
        bytes_lt(b, a) == (b[k] < a[k]),
    decreases k,
{
    if k > 0 {
        assert(a[0] == b[0]);
        let ta = a.drop_first();
        let tb = b.drop_first();
        assert forall|j: int| 0 <= j < k - 1 implies ta[j] == tb[j] by {
            assert(ta[j] == a[j + 1]);
            assert(tb[j] == b[j + 1]);
        }
        law_bytes_lt_first_difference(ta, tb, k - 1);
    }
}

/// Equal byte strings do not come before each other.
pub proof fn law_bytes_lt_irreflexive(a: Seq<u8>)
    ensures
        !bytes_lt(a, a),
{
    lemma_bytes_lt_strict_total(a, a);
}

/// A unique identifier of a peer.
///
/// Identifiers are compared for equality, and ordered by a strict total order
/// (`precedes`) which decides, between two peers, which one chooses the
/// connection that both keep.
pub trait Uid: Sized + Copy {
    /// The strict total order on identifiers.
    spec fn precedes(self, other: Self) -> bool;

    /// `precedes` is irreflexive, asymmetric and total.
    proof fn lemma_precedes_strict_total(a: Self, b: Self)
        ensures
            !a.precedes(a),
            a.precedes(b) ==> !b.precedes(a),
            a != b ==> a.precedes(b) || b.precedes(a),
    ;

    /// Whether the two identifiers are equal.
    fn is_same(&self, other: &Self) -> (r: bool)
        ensures
            r == (*self == *other),
    ;

    /// Whether `self` comes after `other` in the order.
    fn is_greater(&self, other: &Self) -> (r: bool)
        ensures
            r == other.precedes(*self),
    ;

    /// The text of the identifier's `Debug` rendering.
    spec fn debug_text(self) -> Seq<char>;

    /// The identifier's `Debug` rendering.
    fn debug_string(&self) -> (s: String)
        ensures
            s@ == self.debug_text(),
    ;
}

/// The character of the decimal digit `d`, for `d < 10`.
pub open spec fn digit_char(d: nat) -> char {
    seq!['0', '1', '2', '3', '4', '5', '6', '7', '8', '9'][d as int]
}

/// The decimal digits of `n`, most significant first, with no leading zero.
pub open spec fn decimal_text(n: nat) -> Seq<char>
    decreases n,
{
    if n < 10 {
        seq![digit_char(n)]
    } else {
        decimal_text(n / 10) + seq![digit_char(n % 10)]
    }
}

/// The text `format!("{:?}", x)` gives for a `u64`: its decimal digits.
pub open spec fn u64_debug_text(x: u64) -> Seq<char> {
    decimal_text(x as nat)
}

/// The bytes in decimal, separated by a comma and a space.
pub open spec fn byte_list_text(bytes: Seq<u8>) -> Seq<char>
    decreases bytes.len(),
{
    if bytes.len() == 0 {
        Seq::empty()
    } else if bytes.len() == 1 {
        decimal_text(bytes[0] as nat)
    } else {
        byte_list_text(bytes.drop_last()) + seq![',', ' '] + decimal_text(bytes.last() as nat)
    }
}

/// The text `format!("{:?}", a)` gives for a byte array with these bytes:
/// the bytes in decimal, separated by a comma and a space, in brackets.
pub open spec fn byte_array_debug_text(bytes: Seq<u8>) -> Seq<char> {
    seq!['['] + byte_list_text(bytes) + seq![']']
}

/// Calls `format!("{:?}", x)`, whose text is the decimal digits of `x`.
#[verifier::external_body]
fn format_u64_debug(x: u64) -> (s: String)
    ensures
        s@ == u64_debug_text(x),
{
    format!("{:?}", x)
}

/// Calls `format!("{:?}", a)` on a 20-byte array, whose text lists the bytes
/// in decimal, separated by a comma and a space, in brackets.
#[verifier::external_body]
fn format_bytes20_debug(a: &[u8; 20]) -> (s: String)
    ensures
        s@ == byte_array_debug_text(a@),
{
    format!("{:?}", a)
}

/// The identifier used by this library's own services: twenty random bytes.
pub type UniqueId = [u8; 20];

impl Uid for u64 {
    open spec fn precedes(self, other: Self) -> bool {
        self < other
    }

    proof fn lemma_precedes_strict_total(a: Self, b: Self) {
    }

    fn is_same(&self, other: &Self) -> (r: bool) {
        *self == *other
    }

    fn is_greater(&self, other: &Self) -> (r: bool) {
        *self > *other
    }

    open spec fn debug_text(self) -> Seq<char> {
        u64_debug_text(self)
    }

    fn debug_string(&self) -> (s: String) {
        format_u64_debug(*self)
    }
}

impl Uid for [u8; 20] {
    open spec fn precedes(self, other: Self) -> bool {
        bytes_lt(self@, other@)
    }

    proof fn lemma_precedes_strict_total(a: Self, b: Self) {
        lemma_bytes_lt_strict_total(a@, b@);
        if a@ == b@ {
            broadcast use vstd::array::axiom_array_ext_equal;
            assert(a =~= b);
        }
    }

    fn is_same(&self, other: &Self) -> (r: bool) {
        bytes_equal(self, other)
    }

    fn is_greater(&self, other: &Self) -> (r: bool) {
        bytes_greater(self, other)
    }

    open spec fn debug_text(self) -> Seq<char> {
        byte_array_debug_text(self@)
    }

    fn debug_string(&self) -> (s: String) {
        format_bytes20_debug(self)
    }
}

/// Element-wise equality of two byte arrays of the same length.
pub fn bytes_equal<const N: usize>(a: &[u8; N], b: &[u8; N]) -> (r: bool)
    ensures
        r == (*a == *b),
{
    broadcast use vstd::array::group_array_axioms;
    let mut i: usize = 0;
    while i < N
        invariant
            0 <= i <= N,
            a@.len() == N,
            b@.len() == N,
            forall|j: int| 0 <= j < i ==> a@[j] == b@[j],
        decreases N - i,
    {
        if a[i] != b[i] {
            assert(a@[i as int] != b@[i as int]);
            return false;
        }
        i = i + 1;
    }
    assert(a@ =~= b@);
    assert(*a =~= *b);
    true
}

/// Whether `a` comes after `b` in lexicographic order.
pub fn bytes_greater<const N: usize>(a: &[u8; N], b: &[u8; N]) -> (r: bool)
    ensures
        r == bytes_lt(b@, a@),
{
    broadcast use vstd::array::group_array_axioms;
    let mut i: usize = 0;
    assert(a@.skip(0) =~= a@);
    assert(b@.skip(0) =~= b@);
    while i < N
        invariant
            0 <= i <= N,
            a@.len() == N,
            b@.len() == N,
            forall|j: int| 0 <= j < i ==> a@[j] == b@[j],
            bytes_lt(b@, a@) == bytes_lt(b@.skip(i as int), a@.skip(i as int)),
        decreases N - i,
    {
        assert(a@.skip(i as int).drop_first() =~= a@.skip(i + 1));
        assert(b@.skip(i as int).drop_first() =~= b@.skip(i + 1));
        if a[i] > b[i] {
            return true;
        }
        if a[i] < b[i] {
            return false;
        }
        i = i + 1;
    }
    false
}

} // verus!
