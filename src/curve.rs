use vstd::prelude::*;
use crate::bytes::be_value;
use libsecp256k1::curve::{Affine, Field, Jacobian, Scalar};
use libsecp256k1::{ECMULT_CONTEXT, ECMULT_GEN_CONTEXT};

verus! {

/// The order of the secp256k1 group.
pub open spec fn group_order() -> int {
    0xFFFFFFFFFFFFFFFFFFFFFFFFFFFFFFFEBAAEDCE6AF48A03BBFD25E8CD0364141int
}

/// The prime of the secp256k1 base field.
pub open spec fn field_prime() -> int {
    0xFFFFFFFFFFFFFFFFFFFFFFFFFFFFFFFFFFFFFFFFFFFFFFFFFFFFFFFEFFFFFC2Fint
}

/// A scalar modulo the group order, as 32 big-endian bytes.
#[derive(Clone, Copy, Debug)]
pub struct ScalarValue {
    pub bytes: [u8; 32],
}

impl ScalarValue {
    /// The integer this scalar stands for.
    pub open spec fn value(&self) -> int {
        be_value(self.bytes@) as int
    }

    /// The scalar is in reduced form.
    pub open spec fn wf(&self) -> bool {
        self.value() < group_order()
    }
}

/// Relies on `Scalar::set_b32` of libsecp256k1: the bytes are read big-endian and
/// reduced once by the group order, and the flag tells whether they were at or above it.
#[verifier::external_body]
fn scalar_set_b32(b: &[u8; 32]) -> (r: (ScalarValue, bool))
    ensures
        r.0.value() == be_value(b@) as int % group_order(),
        r.1 == (be_value(b@) >= group_order()),
{
    let mut s = Scalar::default();
    let overflow = s.set_b32(b);
    (ScalarValue { bytes: s.b32() }, bool::from(overflow))
}


/// Relies on `Scalar`'s `+` in libsecp256k1: addition modulo the group order.
/// `Scalar::clear` wipes the copies of the operands.
#[verifier::external_body]
fn scalar_add(a: &ScalarValue, b: &ScalarValue) -> (r: ScalarValue)
    requires
        a.wf(),
        b.wf(),
    ensures
        r.value() == (a.value() + b.value()) % group_order(),
{
    let (mut x, mut y) = (Scalar::default(), Scalar::default());
    let _ = x.set_b32(&a.bytes);
    let _ = y.set_b32(&b.bytes);
    let r = ScalarValue { bytes: (x + y).b32() };
    x.clear();
    y.clear();
    r
}

/// Relies on `Scalar`'s `*` in libsecp256k1: multiplication modulo the group order.
/// `Scalar::clear` wipes the copies of the operands.
#[verifier::external_body]
fn scalar_mul(a: &ScalarValue, b: &ScalarValue) -> (r: ScalarValue)
    requires
        a.wf(),
        b.wf(),
    ensures
        r.value() == (a.value() * b.value()) % group_order(),
{
    let (mut x, mut y) = (Scalar::default(), Scalar::default());
    let _ = x.set_b32(&a.bytes);
    let _ = y.set_b32(&b.bytes);
    let r = ScalarValue { bytes: (x * y).b32() };
    x.clear();
    y.clear();
    r
}

/// Relies on `Scalar::cond_neg_assign` of libsecp256k1 with a set flag: negation
/// modulo the group order (zero stays zero).
#[verifier::external_body]
fn scalar_neg(a: &ScalarValue) -> (r: ScalarValue)
    requires
        a.wf(),
    ensures
        r.value() == (group_order() - a.value()) % group_order(),
{
    let mut x = Scalar::default();
    let _ = x.set_b32(&a.bytes);
    x.cond_neg_assign(1.into());
    ScalarValue { bytes: x.b32() }
}

impl ScalarValue {
    /// Reads 32 big-endian bytes as a scalar, reducing them by the group order;
    /// the flag tells whether the bytes were at or above the order.
    pub fn from_bytes_reduced(b: &[u8; 32]) -> (r: (ScalarValue, bool))
        ensures
            r.0.wf(),
            r.0.value() == be_value(b@) as int % group_order(),
            r.1 == (be_value(b@) >= group_order()),
    {
        scalar_set_b32(b)
    }

    /// Reads 32 big-endian bytes as a scalar, or `None` when they are at or
    /// above the group order.
    pub fn from_bytes(b: &[u8; 32]) -> (r: Option<ScalarValue>)
        ensures
            r is Some <==> be_value(b@) < group_order(),
            r is Some ==> r->0.bytes@ == b@,
    {
        let (_, overflow) = scalar_set_b32(b);
        if overflow {
            None
        } else {
            Some(ScalarValue { bytes: *b })
        }
    }

    /// The scalar that 32 drawn bytes give as a nonce, or `None` when they are
    /// zero or not below the group order.
    pub fn nonce_from_bytes(b: &[u8; 32]) -> (r: Option<ScalarValue>)
        ensures
            r is Some <==> 1 <= be_value(b@) < group_order(),
            r is Some ==> r->0.bytes@ == b@ && r->0.wf(),
    {
        match ScalarValue::from_bytes(b) {
            Some(k) => {
                if k.is_zero() {
                    None
                } else {
                    Some(k)
                }
            },
            None => None,
        }
    }

    /// The zero scalar.
    pub fn zero() -> (r: ScalarValue)
        ensures
            r.wf(),
            r.value() == 0,
    {
        let r = ScalarValue { bytes: [0u8; 32] };
        proof { lemma_be_value_zeros(r.bytes@); }
        r
    }

    /// The scalar is zero.
    pub fn is_zero(&self) -> (r: bool)
        ensures
            r == (self.value() == 0),
    {
        let mut i: usize = 0;
        while i < 32
            invariant
                i <= 32,
                self.bytes@.len() == 32,
                forall|j: int| 0 <= j < i ==> self.bytes@[j] == 0,
            decreases 32 - i,
        {
            if self.bytes[i] != 0 {
                proof { lemma_be_value_nonzero(self.bytes@, i as int); }
                return false;
            }
            i = i + 1;
        }
        proof { lemma_be_value_zeros(self.bytes@); }
        true
    }

    /// Overwrites the scalar with zero; the stores are kept even when the value
    /// is not read again.
    pub fn clear(&mut self)
        ensures
            final(self).value() == 0,
            final(self).wf(),
    {
        let mut i: usize = 0;
        while i < 32
            invariant
                i <= 32,
                self.bytes@.len() == 32,
                forall|j: int| 0 <= j < i ==> self.bytes@[j] == 0,
            decreases 32 - i,
        {
            self.bytes[i] = 0;
            i = i + 1;
        }
        keep_stores(&self.bytes);
        proof { lemma_be_value_zeros(self.bytes@); }
    }

    /// `(self - a * b) mod n`.
    pub fn sub_mul(&self, a: &ScalarValue, b: &ScalarValue) -> (r: ScalarValue)
        requires
            self.wf(),
            a.wf(),
            b.wf(),
        ensures
            r.wf(),
            r.value() == (self.value() - a.value() * b.value()) % group_order(),
    {
        let neg_a = scalar_neg(a);
        let prod = scalar_mul(&neg_a, b);
        let r = scalar_add(self, &prod);
        proof {
            let n = group_order();
            let (k, x, y) = (self.value(), a.value(), b.value());
            lemma_sub_mul_mod(k, x, y, n);
        }
        r
    }
}

/// Relies on `std::hint::black_box`: the compiler treats the bytes as read, so
/// the stores that zeroed them are not removed.
#[verifier::external_body]
fn keep_stores(b: &[u8; 32]) {
    std::hint::black_box(b);
}

proof fn lemma_sub_mul_mod(k: int, x: int, y: int, n: int)
    requires
        n > 0,
        0 <= x < n,
    ensures
        (k + ((n - x) % n * y) % n) % n == (k - x * y) % n,
{
    vstd::arithmetic::div_mod::lemma_mul_mod_noop_left(n - x, y, n);
    assert((n - x) * y == n * y + (-x * y)) by (nonlinear_arith);
    vstd::arithmetic::div_mod::lemma_mod_multiples_vanish(y, -x * y, n);
    assert(((n - x) % n * y) % n == (-x * y) % n);
    vstd::arithmetic::div_mod::lemma_add_mod_noop_right(k, -x * y, n);
    assert(k + -x * y == k - x * y) by (nonlinear_arith);
}

proof fn lemma_be_value_zeros(s: Seq<u8>)
    requires
        forall|j: int| 0 <= j < s.len() ==> s[j] == 0,
    ensures
        be_value(s) == 0,
    decreases s.len(),
{
    if s.len() > 0 {
        lemma_be_value_zeros(s.drop_last());
    }
}

proof fn lemma_be_value_nonzero(s: Seq<u8>, i: int)
    requires
        0 <= i < s.len(),
        s[i] != 0,
    ensures
        be_value(s) != 0,
    decreases s.len(),
{
    if i < s.len() - 1 {
        lemma_be_value_nonzero(s.drop_last(), i);
    }
}

/// A point of the curve in affine coordinates: 32-byte big-endian `x` and `y`,
/// or the point at infinity.
#[derive(Clone, Copy, Debug)]
pub struct CurvePoint {
    pub x: [u8; 32],
    pub y: [u8; 32],
    pub infinity: bool,
}

impl CurvePoint {
    /// Both coordinates are below the field prime.
    pub open spec fn canonical(&self) -> bool {
        &&& be_value(self.x@) < field_prime()
        &&& be_value(self.y@) < field_prime()
    }

    /// A finite point that satisfies `y^2 = x^3 + 7` over the base field.
    pub open spec fn on_curve(&self) -> bool {
        let x = be_value(self.x@) as int;
        let y = be_value(self.y@) as int;
        &&& !self.infinity
        &&& self.canonical()
        &&& (y * y) % field_prime() == (x * x * x + 7) % field_prime()
    }

    /// The 64 bytes `x || y` that the hashes take.
    pub open spec fn encoding(&self) -> Seq<u8> {
        self.x@ + self.y@
    }

    /// The generator of the group.
    pub fn generator() -> (r: CurvePoint)
        ensures
            r.encoding() == generator_encoding(),
            !r.infinity,
    {
        let r = CurvePoint {
            x: [0x79, 0xBE, 0x66, 0x7E, 0xF9, 0xDC, 0xBB, 0xAC, 0x55, 0xA0, 0x62, 0x95, 0xCE, 0x87, 0x0B, 0x07, 0x02, 0x9B, 0xFC, 0xDB, 0x2D, 0xCE, 0x28, 0xD9, 0x59, 0xF2, 0x81, 0x5B, 0x16, 0xF8, 0x17, 0x98],
            y: [0x48, 0x3A, 0xDA, 0x77, 0x26, 0xA3, 0xC4, 0x65, 0x5D, 0xA4, 0xFB, 0xFC, 0x0E, 0x11, 0x08, 0xA8, 0xFD, 0x17, 0xB4, 0x48, 0xA6, 0x85, 0x54, 0x19, 0x9C, 0x47, 0xD0, 0x8F, 0xFB, 0x10, 0xD4, 0xB8],
            infinity: false,
        };
        assert(r.encoding() =~= generator_encoding());
        r
    }

    /// Tells whether the point is a finite point of the curve with canonical
    /// coordinates.
    pub fn is_valid(&self) -> (r: bool)
        ensures
            r == self.on_curve(),
    {
        field_set_b32(&self.x) && field_set_b32(&self.y) && affine_is_valid_var(self)
    }
}

/// The encoding `x || y` of the generator.
pub open spec fn generator_encoding() -> Seq<u8> {
    seq![0x79, 0xBE, 0x66, 0x7E, 0xF9, 0xDC, 0xBB, 0xAC, 0x55, 0xA0, 0x62, 0x95, 0xCE, 0x87, 0x0B, 0x07, 0x02, 0x9B, 0xFC, 0xDB, 0x2D, 0xCE, 0x28, 0xD9, 0x59, 0xF2, 0x81, 0x5B, 0x16, 0xF8, 0x17, 0x98, 0x48, 0x3A, 0xDA, 0x77, 0x26, 0xA3, 0xC4, 0x65, 0x5D, 0xA4, 0xFB, 0xFC, 0x0E, 0x11, 0x08, 0xA8, 0xFD, 0x17, 0xB4, 0x48, 0xA6, 0x85, 0x54, 0x19, 0x9C, 0x47, 0xD0, 0x8F, 0xFB, 0x10, 0xD4, 0xB8]
}

/// What `ECMultGenContext::ecmult_gen` of libsecp256k1 yields for a scalar,
/// in normalised affine form.
pub uninterp spec fn gen_mul_of(k: int) -> CurvePoint;

/// What `ECMultContext::ecmult` of libsecp256k1 yields for a point `a` and
/// scalars `na`, `ng` (`na * a + ng * G`), in normalised affine form.
pub uninterp spec fn ecmult_of(a: CurvePoint, na: int, ng: int) -> CurvePoint;

/// What `Jacobian::add_ge_var` of libsecp256k1 yields for two points, in
/// normalised affine form.
pub uninterp spec fn add_of(a: CurvePoint, b: CurvePoint) -> CurvePoint;

/// Relies on `Field::set_b32` of libsecp256k1: it succeeds exactly when the
/// big-endian value is below the field prime.
#[verifier::external_body]
fn field_set_b32(b: &[u8; 32]) -> (r: bool)
    ensures
        r == (be_value(b@) < field_prime()),
{
    let mut f = Field::default();
    f.set_b32(b)
}

/// Relies on `Affine::is_valid_var` of libsecp256k1: a finite point whose
/// coordinates satisfy the curve equation.
#[verifier::external_body]
fn affine_is_valid_var(p: &CurvePoint) -> (r: bool)
    requires
        p.canonical(),
    ensures
        r == p.on_curve(),
{
    let mut a = Affine::default();
    let _ = a.x.set_b32(&p.x);
    let _ = a.y.set_b32(&p.y);
    a.infinity = p.infinity;
    a.is_valid_var()
}

/// Relies on `ECMultGenContext::ecmult_gen` of libsecp256k1 (its static
/// table): the result is normalised, so its coordinates are canonical.
/// `Scalar::clear` wipes the copy of the scalar.
#[verifier::external_body]
pub(crate) fn ecmult_gen(k: &ScalarValue) -> (r: CurvePoint)
    requires
        k.wf(),
    ensures
        r == gen_mul_of(k.value()),
        r.canonical(),
{
    let mut s = Scalar::default();
    let _ = s.set_b32(&k.bytes);
    let mut j = Jacobian::default();
    ECMULT_GEN_CONTEXT.ecmult_gen(&mut j, &s);
    s.clear();
    let mut a = Affine::from_gej(&j);
    a.x.normalize();
    a.y.normalize();
    CurvePoint { x: a.x.b32(), y: a.y.b32(), infinity: a.infinity }
}

/// Relies on `ECMultContext::ecmult` of libsecp256k1 (its static table). It is
/// given points of the curve only: its table of odd multiples asserts on a point
/// whose multiples reach infinity. The result is normalised, so its coordinates
/// are canonical. `Scalar::clear` wipes the copies of the scalars.
#[verifier::external_body]
pub(crate) fn ecmult(a: &CurvePoint, na: &ScalarValue, ng: &ScalarValue) -> (r: CurvePoint)
    requires
        a.on_curve(),
        na.wf(),
        ng.wf(),
    ensures
        r == ecmult_of(*a, na.value(), ng.value()),
        r.canonical(),
{
    let mut p = Affine::default();
    let _ = (p.x.set_b32(&a.x), p.y.set_b32(&a.y));
    let (mut s, mut t) = (Scalar::default(), Scalar::default());
    let _ = (s.set_b32(&na.bytes), t.set_b32(&ng.bytes));
    let mut j = Jacobian::default();
    ECMULT_CONTEXT.ecmult(&mut j, &Jacobian::from_ge(&p), &s, &t);
    s.clear();
    t.clear();
    let mut r = Affine::from_gej(&j);
    r.x.normalize();
    r.y.normalize();
    CurvePoint { x: r.x.b32(), y: r.y.b32(), infinity: r.infinity }
}

/// Relies on `Jacobian::add_ge_var` of libsecp256k1, which takes either point at
/// infinity: the sum is normalised, so its coordinates are canonical.
#[verifier::external_body]
pub(crate) fn add_ge_var(a: &CurvePoint, b: &CurvePoint) -> (r: CurvePoint)
    requires
        a.canonical(),
        b.canonical(),
    ensures
        r == add_of(*a, *b),
        r.canonical(),
{
    let (mut p, mut q) = (Affine::default(), Affine::default());
    let _ = (p.x.set_b32(&a.x), p.y.set_b32(&a.y));
    let _ = (q.x.set_b32(&b.x), q.y.set_b32(&b.y));
    p.infinity = a.infinity;
    q.infinity = b.infinity;
    let mut r = Affine::from_gej(&Jacobian::from_ge(&p).add_ge_var(&q, None));
    r.x.normalize();
    r.y.normalize();
    CurvePoint { x: r.x.b32(), y: r.y.b32(), infinity: r.infinity }
}

} // verus!
