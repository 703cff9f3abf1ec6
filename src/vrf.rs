use vstd::prelude::*;
use rand::RngCore;
use crate::bytes::{be_value, bytes32_eq, lemma_be_value_injective, push_bytes32, read_bytes32};
use crate::curve::{
    add_ge_var, add_of, ecmult, ecmult_gen, ecmult_of, gen_mul_of, generator_encoding,
    field_prime, group_order, CurvePoint, ScalarValue,
};
use crate::keccak::{keccak256, keccak256_of};

verus! {

/// Why an operation on keys or proofs failed.
#[derive(Clone, Copy, Debug, PartialEq, Eq, Structural)]
pub enum VrfError {
    /// A point is not on the curve, or is the point at infinity.
    InvalidPoint,
    /// Bytes do not denote a scalar below the group order (or denote zero for a key).
    InvalidScalarEncoding,
    /// The entropy source could not deliver a nonce.
    RandomSourceFailure,
    /// Bytes do not have the fixed layout.
    DecodeError,
}

/// A proof: `gamma = sk * H`, the challenge `c`, the response `s`, the output
/// `y = keccak256(gamma)` and the public key it was made with.
#[derive(Clone, Copy, Debug)]
pub struct ECVRFProof {
    pub gamma: CurvePoint,
    pub c: ScalarValue,
    pub s: ScalarValue,
    pub y: [u8; 32],
    pub public_key: CurvePoint,
}

/// The point that input `alpha` maps to: `alpha * G`, plus `binding` when given.
pub open spec fn hash_to_curve_of(alpha: int, binding: Option<CurvePoint>) -> CurvePoint {
    match binding {
        Some(v) => add_of(gen_mul_of(alpha), v),
        None => gen_mul_of(alpha),
    }
}

/// The bytes that the challenge hash reads: six points, each as `x || y`.
pub open spec fn points_encoding(
    g: CurvePoint,
    h: CurvePoint,
    pk: CurvePoint,
    gamma: CurvePoint,
    kg: CurvePoint,
    kh: CurvePoint,
) -> Seq<u8> {
    g.encoding() + h.encoding() + pk.encoding() + gamma.encoding() + kg.encoding() + kh.encoding()
}

/// The scalar that a byte string hashes to: its Keccak-256 digest, big-endian,
/// reduced by the group order.
pub open spec fn challenge_of(input: Seq<u8>) -> int {
    be_value(keccak256_of(input)) as int % group_order()
}

/// The challenge of a proof, with the generator as its first point.
pub open spec fn vrf_challenge(
    h: CurvePoint,
    pk: CurvePoint,
    gamma: CurvePoint,
    u: CurvePoint,
    v: CurvePoint,
) -> int {
    challenge_of(
        generator_encoding() + h.encoding() + pk.encoding() + gamma.encoding() + u.encoding()
            + v.encoding(),
    )
}

/// The output that `gamma` yields: Keccak-256 of `gamma.x || gamma.y`.
pub open spec fn output_of(gamma: CurvePoint) -> Seq<u8> {
    keccak256_of(gamma.encoding())
}

/// `p` is the proof that secret `sk` (public key `pk`) gives for input `alpha`
/// with nonce `k`.
pub open spec fn proof_with_nonce(sk: int, pk: CurvePoint, alpha: int, k: int, p: ECVRFProof) -> bool {
    let h = hash_to_curve_of(alpha, Some(pk));
    let gamma = ecmult_of(h, sk, 0);
    let c = vrf_challenge(h, pk, gamma, gen_mul_of(k), ecmult_of(h, k, 0));
    &&& p.gamma == gamma
    &&& gamma.on_curve()
    &&& p.c.wf()
    &&& p.c.value() == c
    &&& p.s.wf()
    &&& p.s.value() == (k - c * sk) % group_order()
    &&& p.y@ == output_of(gamma)
    &&& p.public_key == pk
}

/// No proof comes out for secret `sk` (public key `pk`) and input `alpha`:
/// `H` or `gamma = sk * H` is not a finite point of the curve.
pub open spec fn no_valid_gamma(sk: int, pk: CurvePoint, alpha: int) -> bool {
    let h = hash_to_curve_of(alpha, Some(pk));
    !h.on_curve() || !ecmult_of(h, sk, 0).on_curve()
}

/// `p` is a proof that secret `sk` gives for input `alpha`, with some nonce in `[1, n)`.
pub open spec fn is_proof_of(sk: int, pk: CurvePoint, alpha: int, p: ECVRFProof) -> bool {
    exists|k: int| 1 <= k < group_order() && proof_with_nonce(sk, pk, alpha, k, p)
}

/// What a verifier holding public key `pk` decides on input `alpha` and proof `p`:
/// both points valid, both scalars reduced, `H` a finite point of the curve, the
/// recomputed challenge over `U = c * pk + s * G` and `V = s * H + c * gamma`
/// equal to `c`, and the output equal to the hash of `gamma`.
pub open spec fn verify_of(pk: CurvePoint, alpha: int, p: ECVRFProof) -> bool {
    let h = hash_to_curve_of(alpha, Some(pk));
    let u = ecmult_of(pk, p.c.value(), p.s.value());
    let v = add_of(ecmult_of(h, p.s.value(), 0), ecmult_of(p.gamma, p.c.value(), 0));
    &&& pk.on_curve()
    &&& p.gamma.on_curve()
    &&& p.c.wf()
    &&& p.s.wf()
    &&& h.on_curve()
    &&& vrf_challenge(h, pk, p.gamma, u, v) == p.c.value()
    &&& output_of(p.gamma) == p.y@
}

/// How many 32-byte draws `prove` makes at most to find a nonce in `[1, n)`.
pub const NONCE_ATTEMPTS: u32 = 64;

/// Relies on rand's `OsRng::try_fill_bytes`: it reports whether the operating
/// system's entropy source filled the buffer.
#[verifier::external_body]
fn os_fill_bytes(buf: &mut [u8; 32]) -> (r: bool) {
    rand::rngs::OsRng.try_fill_bytes(buf).is_ok()
}

/// Draws a nonce uniformly from `[1, n)` by rejection sampling.
pub fn random_nonce() -> (r: Result<ScalarValue, VrfError>)
    ensures
        r is Ok ==> r->Ok_0.wf() && r->Ok_0.value() >= 1,
        r is Err ==> r->Err_0 == VrfError::RandomSourceFailure,
{
    let mut attempt: u32 = 0;
    while attempt < NONCE_ATTEMPTS
        invariant
            attempt <= NONCE_ATTEMPTS,
        decreases NONCE_ATTEMPTS - attempt,
    {
        let mut buf = [0u8; 32];
        if !os_fill_bytes(&mut buf) {
            return Err(VrfError::RandomSourceFailure);
        }
        match ScalarValue::nonce_from_bytes(&buf) {
            Some(k) => {
                return Ok(k);
            },
            None => {},
        }
        attempt = attempt + 1;
    }
    Err(VrfError::RandomSourceFailure)
}

/// Appends the encoding `x || y` of a point.
fn push_point(buf: &mut Vec<u8>, p: &CurvePoint)
    ensures
        final(buf)@ == old(buf)@ + p.encoding(),
{
    push_bytes32(buf, &p.x);
    push_bytes32(buf, &p.y);
    assert(final(buf)@ =~= old(buf)@ + p.encoding());
}

/// The output that a `gamma` yields: Keccak-256 of its encoding.
pub fn keccak256_point(gamma: &CurvePoint) -> (r: [u8; 32])
    ensures
        r@ == output_of(*gamma),
{
    let mut buf: Vec<u8> = Vec::new();
    push_point(&mut buf, gamma);
    assert(buf@ =~= gamma.encoding());
    keccak256(buf.as_slice())
}

/// A VRF engine bound to one secret key and the public key derived from it.
pub struct ECVRF {
    secret_key: ScalarValue,
    public_key: CurvePoint,
}

impl ECVRF {
    /// The secret scalar.
    pub closed spec fn secret(&self) -> int {
        self.secret_key.value()
    }

    /// The public key `secret * G`.
    pub closed spec fn spec_public_key(&self) -> CurvePoint {
        self.public_key
    }

    /// The key pair is consistent.
    pub closed spec fn wf(&self) -> bool {
        &&& self.secret_key.wf()
        &&& self.secret_key.value() >= 1
        &&& self.public_key == gen_mul_of(self.secret_key.value())
        &&& self.public_key.canonical()
    }

    /// Binds an engine to a 32-byte big-endian secret key; the key must lie in `[1, n)`.
    pub fn new(secret_key: &[u8; 32]) -> (r: Result<ECVRF, VrfError>)
        ensures
            r is Ok <==> 1 <= be_value(secret_key@) < group_order(),
            r is Err ==> r->Err_0 == VrfError::InvalidScalarEncoding,
            r is Ok ==> {
                &&& r->Ok_0.wf()
                &&& r->Ok_0.secret() == be_value(secret_key@)
                &&& r->Ok_0.spec_public_key() == gen_mul_of(be_value(secret_key@) as int)
            },
    {
        match ScalarValue::from_bytes(secret_key) {
            Some(sk) => {
                if sk.is_zero() {
                    Err(VrfError::InvalidScalarEncoding)
                } else {
                    let public_key = ecmult_gen(&sk);
                    Ok(ECVRF { secret_key: sk, public_key })
                }
            },
            None => Err(VrfError::InvalidScalarEncoding),
        }
    }

    /// The public key `secret * G`.
    pub fn public_key(&self) -> (r: CurvePoint)
        ensures
            r == self.spec_public_key(),
    {
        self.public_key
    }

    /// Maps `alpha` to the point `alpha * G`, offset by `y` when given.
    pub fn hash_to_curve(&self, alpha: &ScalarValue, y: Option<&CurvePoint>) -> (r: CurvePoint)
        requires
            alpha.wf(),
            y is Some ==> y->0.canonical(),
        ensures
            r == hash_to_curve_of(
                alpha.value(),
                match y {
                    Some(v) => Some(*v),
                    None => None,
                },
            ),
            r.canonical(),
    {
        map_to_curve(alpha, y)
    }

    /// The Fiat-Shamir challenge over six points.
    pub fn hash_points(
        &self,
        g: &CurvePoint,
        h: &CurvePoint,
        pk: &CurvePoint,
        gamma: &CurvePoint,
        kg: &CurvePoint,
        kh: &CurvePoint,
    ) -> (r: ScalarValue)
        ensures
            r.wf(),
            r.value() == challenge_of(points_encoding(*g, *h, *pk, *gamma, *kg, *kh)),
    {
        challenge(g, h, pk, gamma, kg, kh)
    }

    /// Proves input `alpha` with the nonce `k`; fails with `InvalidPoint` exactly
    /// when `H` or `gamma` is not a finite point of the curve (`alpha` maps to
    /// infinity).
    pub fn prove_with_nonce(&self, alpha: &ScalarValue, k: &ScalarValue) -> (r: Result<
        ECVRFProof,
        VrfError,
    >)
        requires
            self.wf(),
            alpha.wf(),
            k.wf(),
            k.value() >= 1,
        ensures
            r is Err <==> no_valid_gamma(self.secret(), self.spec_public_key(), alpha.value()),
            r is Err ==> r->Err_0 == VrfError::InvalidPoint,
            r is Ok ==> proof_with_nonce(
                self.secret(),
                self.spec_public_key(),
                alpha.value(),
                k.value(),
                r->Ok_0,
            ),
    {
        let mut secret_key = self.secret_key;
        let pk = self.public_key;
        let h = self.hash_to_curve(alpha, Some(&pk));
        if !h.is_valid() {
            secret_key.clear();
            return Err(VrfError::InvalidPoint);
        }
        let zero = ScalarValue::zero();
        let gamma = ecmult(&h, &secret_key, &zero);
        if !gamma.is_valid() {
            secret_key.clear();
            return Err(VrfError::InvalidPoint);
        }
        let kg = ecmult_gen(k);
        let kh = ecmult(&h, k, &zero);
        let g = CurvePoint::generator();
        let c = self.hash_points(&g, &h, &pk, &gamma, &kg, &kh);
        let s = k.sub_mul(&c, &secret_key);
        secret_key.clear();
        let y = keccak256_point(&gamma);
        Ok(ECVRFProof::new(gamma, c, s, y, pk))
    }

    /// Proves input `alpha` with a fresh random nonce. The output depends on the
    /// key and `alpha` alone; the challenge and response differ between calls.
    pub fn prove(&self, alpha: &ScalarValue) -> (r: Result<ECVRFProof, VrfError>)
        requires
            self.wf(),
            alpha.wf(),
        ensures
            r is Ok ==> is_proof_of(self.secret(), self.spec_public_key(), alpha.value(), r->Ok_0),
            r is Err ==> r->Err_0 == VrfError::RandomSourceFailure || (r->Err_0
                == VrfError::InvalidPoint && no_valid_gamma(
                self.secret(),
                self.spec_public_key(),
                alpha.value(),
            )),
            no_valid_gamma(self.secret(), self.spec_public_key(), alpha.value()) ==> r is Err,
    {
        let k = match random_nonce() {
            Ok(k) => k,
            Err(e) => return Err(e),
        };
        let r = self.prove_with_nonce(alpha, &k);
        assert(r is Ok ==> proof_with_nonce(
            self.secret(),
            self.spec_public_key(),
            alpha.value(),
            k.value(),
            r->Ok_0,
        ));
        r
    }

    /// Verifies a proof of `alpha` against this engine's public key.
    pub fn verify(&self, alpha: &ScalarValue, vrf_proof: &ECVRFProof) -> (r: bool)
        requires
            alpha.wf(),
        ensures
            r == verify_of(self.spec_public_key(), alpha.value(), *vrf_proof),
    {
        verify_with_public_key(&self.public_key, alpha, vrf_proof)
    }
}

/// Verifies a proof of `alpha` against public key `pk`. Invalid points and
/// unreduced scalars are rejected.
pub fn verify_with_public_key(pk: &CurvePoint, alpha: &ScalarValue, vrf_proof: &ECVRFProof) -> (r: bool)
    requires
        alpha.wf(),
    ensures
        r == verify_of(*pk, alpha.value(), *vrf_proof),
{
    if !pk.is_valid() || !vrf_proof.gamma.is_valid() {
        return false;
    }
    let (c, c_overflow) = ScalarValue::from_bytes_reduced(&vrf_proof.c.bytes);
    let (s, s_overflow) = ScalarValue::from_bytes_reduced(&vrf_proof.s.bytes);
    if c_overflow || s_overflow {
        return false;
    }
    proof {
        vstd::arithmetic::div_mod::lemma_small_mod(vrf_proof.c.value() as nat, group_order() as nat);
        vstd::arithmetic::div_mod::lemma_small_mod(vrf_proof.s.value() as nat, group_order() as nat);
    }
    let h = map_to_curve(alpha, Some(pk));
    if !h.is_valid() {
        return false;
    }
    let zero = ScalarValue::zero();
    let u = ecmult(pk, &c, &s);
    let s_h = ecmult(&h, &s, &zero);
    let c_gamma = ecmult(&vrf_proof.gamma, &c, &zero);
    let v = add_ge_var(&s_h, &c_gamma);
    let g = CurvePoint::generator();
    let computed_c = challenge(&g, &h, pk, &vrf_proof.gamma, &u, &v);
    let computed_y = keccak256_point(&vrf_proof.gamma);
    let c_eq = bytes32_eq(&computed_c.bytes, &vrf_proof.c.bytes);
    proof {
        if computed_c.value() == vrf_proof.c.value() {
            lemma_be_value_injective(computed_c.bytes@, vrf_proof.c.bytes@);
        }
    }
    c_eq && bytes32_eq(&computed_y, &vrf_proof.y)
}

/// `alpha * G`, plus `y` when given.
fn map_to_curve(alpha: &ScalarValue, y: Option<&CurvePoint>) -> (r: CurvePoint)
    requires
        alpha.wf(),
        y is Some ==> y->0.canonical(),
    ensures
        r == hash_to_curve_of(
            alpha.value(),
            match y {
                Some(v) => Some(*v),
                None => None,
            },
        ),
        r.canonical(),
{
    let r = ecmult_gen(alpha);
    match y {
        Some(v) => add_ge_var(&r, v),
        None => r,
    }
}

/// The challenge hash over six points.
fn challenge(
    g: &CurvePoint,
    h: &CurvePoint,
    pk: &CurvePoint,
    gamma: &CurvePoint,
    kg: &CurvePoint,
    kh: &CurvePoint,
) -> (r: ScalarValue)
    ensures
        r.wf(),
        r.value() == challenge_of(points_encoding(*g, *h, *pk, *gamma, *kg, *kh)),
{
    let mut buf: Vec<u8> = Vec::new();
    push_point(&mut buf, g);
    push_point(&mut buf, h);
    push_point(&mut buf, pk);
    push_point(&mut buf, gamma);
    push_point(&mut buf, kg);
    push_point(&mut buf, kh);
    assert(buf@ =~= points_encoding(*g, *h, *pk, *gamma, *kg, *kh));
    let digest = keccak256(buf.as_slice());
    ScalarValue::from_bytes_reduced(&digest).0
}

impl ECVRFProof {
    /// Assembles a proof from its parts.
    pub fn new(gamma: CurvePoint, c: ScalarValue, s: ScalarValue, y: [u8; 32], public_key: CurvePoint) -> (r: ECVRFProof)
        ensures
            r == (ECVRFProof { gamma, c, s, y, public_key }),
    {
        ECVRFProof { gamma, c, s, y, public_key }
    }
}

/// The length of an encoded proof.
pub const PROOF_SIZE: usize = 224;

/// The 64 bytes `x || y` denote a finite curve point with canonical coordinates.
pub open spec fn valid_point_bytes(e: Seq<u8>) -> bool {
    let x = be_value(e.subrange(0, 32)) as int;
    let y = be_value(e.subrange(32, 64)) as int;
    &&& x < field_prime()
    &&& y < field_prime()
    &&& (y * y) % field_prime() == (x * x * x + 7) % field_prime()
}

impl CurvePoint {
    /// Reads a point from its 64-byte encoding `x || y`. Fails with `DecodeError`
    /// on a wrong length and with `InvalidPoint` when the bytes are not a valid
    /// curve point.
    pub fn from_encoding(b: &[u8]) -> (r: Result<CurvePoint, VrfError>)
        ensures
            (r == Err::<CurvePoint, VrfError>(VrfError::DecodeError)) <==> b@.len() != 64,
            (r == Err::<CurvePoint, VrfError>(VrfError::InvalidPoint)) <==> (b@.len() == 64
                && !valid_point_bytes(b@)),
            r is Err ==> r->Err_0 == VrfError::DecodeError || r->Err_0 == VrfError::InvalidPoint,
            r is Ok ==> r->Ok_0.encoding() == b@ && r->Ok_0.on_curve(),
    {
        if b.len() != 64 {
            return Err(VrfError::DecodeError);
        }
        let p = CurvePoint { x: read_bytes32(b, 0), y: read_bytes32(b, 32), infinity: false };
        assert(b@.subrange(0, 32) =~= p.x@);
        assert(b@.subrange(32, 64) =~= p.y@);
        if !p.is_valid() {
            return Err(VrfError::InvalidPoint);
        }
        assert(p.encoding() =~= b@);
        Ok(p)
    }

    /// The 64-byte encoding `x || y`.
    pub fn to_encoding(&self) -> (r: Vec<u8>)
        ensures
            r@ == self.encoding(),
    {
        let mut buf: Vec<u8> = Vec::new();
        push_point(&mut buf, self);
        assert(buf@ =~= self.encoding());
        buf
    }
}

impl ECVRFProof {
    /// The fixed layout: `gamma` (64), `c` (32), `s` (32), `y` (32), public key (64).
    pub open spec fn encoding(&self) -> Seq<u8> {
        self.gamma.encoding() + self.c.bytes@ + self.s.bytes@ + self.y@ + self.public_key.encoding()
    }

    /// Serialises the proof in its fixed 224-byte layout.
    pub fn to_bytes(&self) -> (r: Vec<u8>)
        ensures
            r@ == self.encoding(),
            r@.len() == PROOF_SIZE,
    {
        let mut buf: Vec<u8> = Vec::new();
        push_point(&mut buf, &self.gamma);
        push_bytes32(&mut buf, &self.c.bytes);
        push_bytes32(&mut buf, &self.s.bytes);
        push_bytes32(&mut buf, &self.y);
        push_point(&mut buf, &self.public_key);
        assert(buf@ =~= self.encoding());
        buf
    }

    /// Reads a proof from its fixed layout. Fails with `DecodeError` on a wrong
    /// length, then with `InvalidScalarEncoding` when `c` or `s` is not below the
    /// group order, then with `InvalidPoint` when `gamma` or the public key is not
    /// a valid curve point.
    pub fn from_bytes(b: &[u8]) -> (r: Result<ECVRFProof, VrfError>)
        ensures
            (r == Err::<ECVRFProof, VrfError>(VrfError::DecodeError)) <==> b@.len() != PROOF_SIZE,
            (r == Err::<ECVRFProof, VrfError>(VrfError::InvalidScalarEncoding)) <==> {
                &&& b@.len() == PROOF_SIZE
                &&& (be_value(b@.subrange(64, 96)) >= group_order() || be_value(b@.subrange(96, 128))
                    >= group_order())
            },
            (r == Err::<ECVRFProof, VrfError>(VrfError::InvalidPoint)) <==> {
                &&& b@.len() == PROOF_SIZE
                &&& be_value(b@.subrange(64, 96)) < group_order()
                &&& be_value(b@.subrange(96, 128)) < group_order()
                &&& !(valid_point_bytes(b@.subrange(0, 64)) && valid_point_bytes(
                    b@.subrange(160, 224),
                ))
            },
            r is Err ==> r->Err_0 != VrfError::RandomSourceFailure,
            r is Ok ==> {
                &&& r->Ok_0.encoding() == b@
                &&& r->Ok_0.gamma.on_curve()
                &&& r->Ok_0.public_key.on_curve()
                &&& r->Ok_0.c.wf()
                &&& r->Ok_0.s.wf()
            },
    {
        if b.len() != PROOF_SIZE {
            return Err(VrfError::DecodeError);
        }
        let c = ScalarValue { bytes: read_bytes32(b, 64) };
        let s = ScalarValue { bytes: read_bytes32(b, 96) };
        let (_, c_overflow) = ScalarValue::from_bytes_reduced(&c.bytes);
        let (_, s_overflow) = ScalarValue::from_bytes_reduced(&s.bytes);
        if c_overflow || s_overflow {
            return Err(VrfError::InvalidScalarEncoding);
        }
        let gamma = CurvePoint { x: read_bytes32(b, 0), y: read_bytes32(b, 32), infinity: false };
        let public_key = CurvePoint {
            x: read_bytes32(b, 160),
            y: read_bytes32(b, 192),
            infinity: false,
        };
        assert(b@.subrange(0, 64).subrange(0, 32) =~= gamma.x@);
        assert(b@.subrange(0, 64).subrange(32, 64) =~= gamma.y@);
        assert(b@.subrange(160, 224).subrange(0, 32) =~= public_key.x@);
        assert(b@.subrange(160, 224).subrange(32, 64) =~= public_key.y@);
        if !gamma.is_valid() || !public_key.is_valid() {
            return Err(VrfError::InvalidPoint);
        }
        let y = read_bytes32(b, 128);
        let r = ECVRFProof { gamma, c, s, y, public_key };
        assert(r.encoding() =~= b@);
        Ok(r)
    }
}

/// For one key and one input, every proof carries the same `gamma` and the same
/// output, whatever nonces were drawn.
pub proof fn lemma_output_determinism(
    sk: int,
    pk: CurvePoint,
    alpha: int,
    p1: ECVRFProof,
    p2: ECVRFProof,
)
    requires
        is_proof_of(sk, pk, alpha, p1),
        is_proof_of(sk, pk, alpha, p2),
    ensures
        p1.gamma == p2.gamma,
        p1.y@ == p2.y@,
{
    let k1 = choose|k: int| 1 <= k < group_order() && proof_with_nonce(sk, pk, alpha, k, p1);
    let k2 = choose|k: int| 1 <= k < group_order() && proof_with_nonce(sk, pk, alpha, k, p2);
    assert(proof_with_nonce(sk, pk, alpha, k1, p1));
    assert(proof_with_nonce(sk, pk, alpha, k2, p2));
}

/// The output of every proof is the Keccak-256 digest of its serialised `gamma`.
pub proof fn lemma_output_is_hash_of_gamma(sk: int, pk: CurvePoint, alpha: int, p: ECVRFProof)
    requires
        is_proof_of(sk, pk, alpha, p),
    ensures
        p.y@ == keccak256_of(p.encoding().subrange(0, 64)),
{
    let k = choose|k: int| 1 <= k < group_order() && proof_with_nonce(sk, pk, alpha, k, p);
    assert(proof_with_nonce(sk, pk, alpha, k, p));
    assert(p.encoding().subrange(0, 64) =~= p.gamma.encoding());
}

/// A proof that verifies stops verifying once its output is changed and
/// nothing else.
pub proof fn lemma_changed_output_rejected(pk: CurvePoint, alpha: int, p: ECVRFProof, q: ECVRFProof)
    requires
        verify_of(pk, alpha, p),
        q.gamma == p.gamma,
        q.y@ != p.y@,
    ensures
        !verify_of(pk, alpha, q),
{
}

/// A proof whose `gamma`, or a public key that, is not a valid curve point is
/// rejected.
pub proof fn lemma_invalid_point_rejected(pk: CurvePoint, alpha: int, p: ECVRFProof)
    requires
        !pk.on_curve() || !p.gamma.on_curve(),
    ensures
        !verify_of(pk, alpha, p),
{
}

} // verus!
