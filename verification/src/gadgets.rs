//! The four gadget builders and the trusted boundary to the proving
//! framework.
//!
//! The framework's constraint system, boolean wires and curve-point wires are
//! opaque handles here. What a wire carries is described by uninterpreted
//! content functions (`bit_value`, `point_value`, ...), and each trusted
//! wrapper states over those functions what the framework call it makes does.
//! Everything else in this module is verified against those contracts.

use vstd::prelude::*;

use ark_ec::PrimeGroup;
use ark_ed_on_bls12_381::{EdwardsProjective, Fq, Fr, JubjubConfig};
use ark_ff::{AdditiveGroup, BigInteger, PrimeField};
use ark_r1cs_std::alloc::AllocVar;
use ark_r1cs_std::boolean::Boolean;
use ark_r1cs_std::convert::ToBitsGadget;
use ark_r1cs_std::eq::EqGadget;
use ark_r1cs_std::fields::fp::FpVar;
use ark_r1cs_std::groups::curves::twisted_edwards::AffineVar;
use ark_r1cs_std::groups::CurveVar;
use ark_r1cs_std::GR1CSVar;
use ark_relations::gr1cs::{ConstraintSystem, ConstraintSystemRef, SynthesisError, SynthesisMode};

use crate::bits::{bytes_to_bits_le, decode_bytes, u64_le_bytes, u64_of_le_bytes};

verus! {

#[verifier::external_type_specification]
#[verifier::external_body]
pub struct ExSynthesisError(SynthesisError);

/// The constraint system of the proving framework, held behind a reference
/// handle. Opaque to the verifier; reached only through the trusted wrappers
/// below.
#[verifier::external_body]
pub struct SystemRef {
    cs: ConstraintSystemRef<Fq>,
}

/// One boolean circuit wire, constrained to 0 or 1, optionally carrying a
/// witness value.
#[verifier::external_body]
pub struct BitWire {
    inner: Boolean<Fq>,
}

/// One curve-point circuit wire: a pair of field-element wires bound to the
/// curve equation.
#[verifier::external_body]
pub struct PointVar {
    inner: AffineVar<JubjubConfig, FpVar<Fq>>,
}

/// The witness value a boolean wire carries: absent on the shape-only pass.
pub uninterp spec fn bit_value(w: BitWire) -> Option<bool>;

/// The content of a curve-point wire, as an abstract value: two point wires
/// with equal content carry the same coordinates and the same witness data.
pub uninterp spec fn point_value(p: PointVar) -> int;

/// The content of the point produced by fixed-base scalar multiplication of
/// the generator tagged `generator` by the given bit witnesses.
pub uninterp spec fn fixed_base_mul(generator: int, bits: Seq<Option<bool>>) -> int;

/// The content of the sum of two curve points.
pub uninterp spec fn point_sum(a: int, b: int) -> int;

/// The bit witnesses of the canonical bit representation of a curve point.
pub uninterp spec fn repr_bits(p: int) -> Seq<Option<bool>>;

/// The content of a witnessed point wire holding the standard generator
/// times `k` (absent witness when `k` is `None`).
pub uninterp spec fn witnessed_multiple(k: Option<u64>) -> int;

/// The little-endian bytes of the first affine coordinate of a registered
/// point.
pub uninterp spec fn point_x_bytes(p: int) -> Seq<u8>;

/// The little-endian bytes of the second affine coordinate of a registered
/// point.
pub uninterp spec fn point_y_bytes(p: int) -> Seq<u8>;

/// Holds of the framework error that marks an unsatisfiable circuit.
pub uninterp spec fn is_unsatisfiable(e: SynthesisError) -> bool;

/// The identity of the constraint system a handle holds: two handles with
/// the same identity share one underlying system object.
pub uninterp spec fn system_id(s: SystemRef) -> int;

/// The identity of the circuit a boolean wire was allocated in.
pub uninterp spec fn wire_circuit(w: BitWire) -> int;

/// The identity of the circuit a curve-point wire was allocated in.
pub uninterp spec fn point_circuit(p: PointVar) -> int;

/// Holds of a point content whose coordinates carry witness values, as the
/// contents built on the proving pass from witnessed inputs do.
pub uninterp spec fn point_witnessed(p: int) -> bool;

/// Tag of the generator point used for the amount in a value commitment.
pub open spec fn value_generator_id() -> int {
    1
}

/// Tag of the generator point used for the blinding factor in a value
/// commitment.
pub open spec fn randomness_generator_id() -> int {
    2
}

/// Tag of the generator point dedicated to public-key randomization.
pub open spec fn asset_generator_id() -> int {
    3
}

/// The witness values of a sequence of boolean wires, in order.
pub open spec fn wire_values(s: Seq<BitWire>) -> Seq<Option<bool>> {
    Seq::new(s.len(), |i: int| bit_value(s[i]))
}

/// Every wire of the sequence was allocated in the circuit with the given
/// identity.
pub open spec fn wires_of(s: Seq<BitWire>, id: int) -> bool {
    forall|i: int| 0 <= i < s.len() ==> wire_circuit(#[trigger] s[i]) == id
}

/// Every wire value of the sequence is a present witness.
pub open spec fn all_some(s: Seq<Option<bool>>) -> bool {
    forall|i: int| 0 <= i < s.len() ==> (#[trigger] s[i]) is Some
}

/// A handle on one circuit under construction: the constraint system itself,
/// whether this is the shape-only (verifier) pass, and, as specification
/// state, the contents of the curve points registered as public inputs so
/// far, in registration order.
pub struct CircuitHandle {
    inner: SystemRef,
    shape: bool,
    inputs: Ghost<Seq<int>>,
}

impl CircuitHandle {
    /// Whether this circuit is built for the shape-only pass, where no wire
    /// carries a witness.
    pub closed spec fn shape_only(&self) -> bool {
        self.shape
    }

    /// The contents of the curve points registered as public inputs so far,
    /// oldest first.
    pub closed spec fn registered(&self) -> Seq<int> {
        self.inputs@
    }

    /// The identity of this handle's circuit. Wires belong to the circuit
    /// they were allocated in; the gadgets require their arguments to belong
    /// to the circuit they are handed.
    pub closed spec fn id(&self) -> int {
        system_id(self.inner)
    }
}

/// Relies on `ark_relations` `ConstraintSystem::new_ref`: a fresh constraint
/// system in proving mode, with no variable allocated yet.
#[verifier::external_body]
fn new_prover_ref() -> SystemRef {
    SystemRef { cs: ConstraintSystem::<Fq>::new_ref() }
}

/// Relies on `ark_relations` `ConstraintSystem::new_ref` and `set_mode` with
/// `SynthesisMode::Setup`: a fresh constraint system that only records the
/// circuit shape and never evaluates witness closures.
#[verifier::external_body]
fn new_shape_ref() -> SystemRef {
    let cs = ConstraintSystem::<Fq>::new_ref();
    cs.set_mode(SynthesisMode::Setup);
    SystemRef { cs }
}

/// A fresh circuit for the proving pass: wires allocated in it carry the
/// witnesses handed to them, and no public input is registered yet.
pub fn prover_circuit() -> (h: CircuitHandle)
    ensures
        h.registered() == Seq::<int>::empty(),
        !h.shape_only(),
{
    CircuitHandle { inner: new_prover_ref(), shape: false, inputs: Ghost(Seq::empty()) }
}

/// A fresh circuit for the shape-only (verifier) pass: wires allocated in it
/// carry no witness, and no public input is registered yet.
pub fn shape_circuit() -> (h: CircuitHandle)
    ensures
        h.registered() == Seq::<int>::empty(),
        h.shape_only(),
{
    CircuitHandle { inner: new_shape_ref(), shape: true, inputs: Ghost(Seq::empty()) }
}

/// Relies on `ark_r1cs_std` `Boolean::new_witness`: allocates one boolean
/// wire whose witness is the given value; on the proving pass an absent
/// value makes the allocation fail, on the shape-only pass the closure is
/// never evaluated, the wire carries no witness, and the allocation cannot
/// fail.
#[verifier::external_body]
fn alloc_bit(h: &mut CircuitHandle, w: Option<bool>) -> (r: Result<BitWire, SynthesisError>)
    ensures
        final(h).registered() == old(h).registered(),
        final(h).shape_only() == old(h).shape_only(),
        system_id(final(h).inner) == system_id(old(h).inner),
        old(h).shape_only() ==> r is Ok,
        !old(h).shape_only() && w is Some ==> r is Ok,
        r matches Ok(b) ==> wire_circuit(b) == system_id(old(h).inner) && bit_value(b) == (
        if old(h).shape_only() {
            None::<bool>
        } else {
            w
        }),
{
    let b = Boolean::new_witness(h.inner.cs.clone(), || w.ok_or(SynthesisError::AssignmentMissing));
    match b {
        Ok(b) => Ok(BitWire { inner: b }),
        Err(e) => Err(e),
    }
}

/// Relies on `ark_r1cs_std` `CurveVar::scalar_mul_le` over a constant base:
/// the curve's standard generator, standing in for the framework's
/// value-commitment value generator. The resulting point wire is determined
/// by the bit witnesses alone. On the
/// shape-only pass no witness closure is evaluated and the call cannot
/// fail; on the proving pass it cannot fail either once every value it
/// reads carries a witness.
#[verifier::external_body]
fn mul_value_generator(h: &mut CircuitHandle, bits: &Vec<BitWire>) -> (r: Result<
    PointVar,
    SynthesisError,
>)
    requires
        wires_of(bits@, system_id(old(h).inner)),
    ensures
        final(h).registered() == old(h).registered(),
        final(h).shape_only() == old(h).shape_only(),
        system_id(final(h).inner) == system_id(old(h).inner),
        old(h).shape_only() ==> r is Ok,
        !old(h).shape_only() && all_some(wire_values(bits@)) ==> r is Ok,
        r matches Ok(p) ==> point_circuit(p) == system_id(old(h).inner) && point_value(p)
            == fixed_base_mul(
            value_generator_id(),
            wire_values(bits@),
        ) && (!old(h).shape_only() && all_some(wire_values(bits@)) ==> point_witnessed(
            point_value(p),
        )),
{
    let base = AffineVar::<JubjubConfig, FpVar<Fq>>::constant(EdwardsProjective::generator());
    let bs: Vec<Boolean<Fq>> = bits.iter().map(|b| b.inner.clone()).collect();
    match base.scalar_mul_le(bs.iter()) {
        Ok(p) => Ok(PointVar { inner: p }),
        Err(e) => Err(e),
    }
}

/// Relies on `ark_r1cs_std` `CurveVar::scalar_mul_le` over a constant base:
/// the double of the standard generator, standing in for the framework's
/// value-commitment randomness generator. On the
/// shape-only pass no witness closure is evaluated and the call cannot
/// fail; on the proving pass it cannot fail either once every value it
/// reads carries a witness.
#[verifier::external_body]
fn mul_randomness_generator(h: &mut CircuitHandle, bits: &Vec<BitWire>) -> (r: Result<
    PointVar,
    SynthesisError,
>)
    requires
        wires_of(bits@, system_id(old(h).inner)),
    ensures
        final(h).registered() == old(h).registered(),
        final(h).shape_only() == old(h).shape_only(),
        system_id(final(h).inner) == system_id(old(h).inner),
        old(h).shape_only() ==> r is Ok,
        !old(h).shape_only() && all_some(wire_values(bits@)) ==> r is Ok,
        r matches Ok(p) ==> point_circuit(p) == system_id(old(h).inner) && point_value(p)
            == fixed_base_mul(
            randomness_generator_id(),
            wire_values(bits@),
        ) && (!old(h).shape_only() && all_some(wire_values(bits@)) ==> point_witnessed(
            point_value(p),
        )),
{
    let g = EdwardsProjective::generator().double();
    let base = AffineVar::<JubjubConfig, FpVar<Fq>>::constant(g);
    let bs: Vec<Boolean<Fq>> = bits.iter().map(|b| b.inner.clone()).collect();
    match base.scalar_mul_le(bs.iter()) {
        Ok(p) => Ok(PointVar { inner: p }),
        Err(e) => Err(e),
    }
}

/// Relies on `ark_r1cs_std` `CurveVar::scalar_mul_le` over a constant base:
/// the quadruple of the standard generator, standing in for the generator
/// dedicated to public-key randomization. On the
/// shape-only pass no witness closure is evaluated and the call cannot
/// fail; on the proving pass it cannot fail either once every value it
/// reads carries a witness.
#[verifier::external_body]
fn mul_asset_generator(h: &mut CircuitHandle, bits: &Vec<BitWire>) -> (r: Result<
    PointVar,
    SynthesisError,
>)
    requires
        wires_of(bits@, system_id(old(h).inner)),
    ensures
        final(h).registered() == old(h).registered(),
        final(h).shape_only() == old(h).shape_only(),
        system_id(final(h).inner) == system_id(old(h).inner),
        old(h).shape_only() ==> r is Ok,
        !old(h).shape_only() && all_some(wire_values(bits@)) ==> r is Ok,
        r matches Ok(p) ==> point_circuit(p) == system_id(old(h).inner) && point_value(p)
            == fixed_base_mul(
            asset_generator_id(),
            wire_values(bits@),
        ) && (!old(h).shape_only() && all_some(wire_values(bits@)) ==> point_witnessed(
            point_value(p),
        )),
{
    let g = EdwardsProjective::generator().double().double();
    let base = AffineVar::<JubjubConfig, FpVar<Fq>>::constant(g);
    let bs: Vec<Boolean<Fq>> = bits.iter().map(|b| b.inner.clone()).collect();
    match base.scalar_mul_le(bs.iter()) {
        Ok(p) => Ok(PointVar { inner: p }),
        Err(e) => Err(e),
    }
}

/// Relies on the `Add` implementation of `ark_r1cs_std` `AffineVar`:
/// complete twisted-Edwards point addition; the result is determined by the
/// two operands' contents. Both operands must belong to this circuit: the
/// framework's coordinate multiplication aborts on a proving-pass operand
/// that carries no witness, so a point of another circuit is excluded here.
/// With the operands admitted, the body only builds the sum wire and
/// returns it; the call never fails.
#[verifier::external_body]
fn add_points(h: &mut CircuitHandle, a: &PointVar, b: &PointVar) -> (r: Result<
    PointVar,
    SynthesisError,
>)
    requires
        point_circuit(*a) == system_id(old(h).inner),
        point_circuit(*b) == system_id(old(h).inner),
    ensures
        final(h).registered() == old(h).registered(),
        final(h).shape_only() == old(h).shape_only(),
        system_id(final(h).inner) == system_id(old(h).inner),
        r is Ok,
        r matches Ok(p) ==> point_circuit(p) == system_id(old(h).inner) && point_value(p)
            == point_sum(point_value(*a), point_value(*b)) && (point_witnessed(point_value(*a))
            && point_witnessed(point_value(*b)) ==> point_witnessed(point_value(p))),
{
    let _ = &h.inner.cs;
    Ok(PointVar { inner: a.inner.clone() + &b.inner })
}

/// Relies on `ark_r1cs_std` `ToBitsGadget::to_bits_le` for `AffineVar`: the
/// canonical bit representation of a point wire, 255 bits per affine
/// coordinate, determined by the point's content alone. On the
/// shape-only pass no witness closure is evaluated and the call cannot
/// fail; on the proving pass it cannot fail either once every value it
/// reads carries a witness.
#[verifier::external_body]
fn point_repr(h: &mut CircuitHandle, p: &PointVar) -> (r: Result<Vec<BitWire>, SynthesisError>)
    requires
        point_circuit(*p) == system_id(old(h).inner),
    ensures
        final(h).registered() == old(h).registered(),
        final(h).shape_only() == old(h).shape_only(),
        system_id(final(h).inner) == system_id(old(h).inner),
        old(h).shape_only() ==> r is Ok,
        !old(h).shape_only() && point_witnessed(point_value(*p)) ==> r is Ok,
        r matches Ok(v) ==> v@.len() == 510 && wires_of(v@, system_id(old(h).inner))
            && wire_values(v@) == repr_bits(point_value(*p)),
{
    let _ = &h.inner.cs;
    match p.inner.to_bits_le() {
        Ok(bs) => Ok(bs.into_iter().map(|b| BitWire { inner: b }).collect()),
        Err(e) => Err(e),
    }
}

/// Relies on `ark_r1cs_std` `AffineVar::new_input` and `enforce_equal`:
/// registers the point's two affine coordinates as the next public inputs of
/// the circuit and constrains them to equal the given point wire. The value
/// closure is read once, so the instance column grows by exactly two
/// elements or, on failure, not at all. On the
/// shape-only pass no witness closure is evaluated and the call cannot
/// fail; on the proving pass it cannot fail either once every value it
/// reads carries a witness.
#[verifier::external_body]
fn register_input(h: &mut CircuitHandle, p: &PointVar) -> (r: Result<(), SynthesisError>)
    requires
        point_circuit(*p) == system_id(old(h).inner),
    ensures
        final(h).shape_only() == old(h).shape_only(),
        system_id(final(h).inner) == system_id(old(h).inner),
        old(h).shape_only() ==> r is Ok,
        !old(h).shape_only() && point_witnessed(point_value(*p)) ==> r is Ok,
        r is Ok ==> final(h).registered() == old(h).registered().push(point_value(*p)),
        r is Err ==> final(h).registered() == old(h).registered(),
{
    let iv = AffineVar::<JubjubConfig, FpVar<Fq>>::new_input(h.inner.cs.clone(), ||
        p.inner.value())?;
    p.inner.enforce_equal(&iv)?;
    Ok(())
}

/// Relies on `ark_ec` scalar multiplication and `ark_r1cs_std`
/// `AffineVar::new_witness`: allocates a point wire witnessing the standard
/// generator times `k`; on the proving pass an absent `k` makes the
/// allocation fail, on the shape-only pass no witness is stored. On the
/// shape-only pass no witness closure is evaluated and the call cannot
/// fail; on the proving pass it cannot fail either once every value it
/// reads carries a witness.
#[verifier::external_body]
fn witness_point_raw(h: &mut CircuitHandle, k: Option<u64>) -> (r: Result<
    PointVar,
    SynthesisError,
>)
    ensures
        final(h).registered() == old(h).registered(),
        final(h).shape_only() == old(h).shape_only(),
        system_id(final(h).inner) == system_id(old(h).inner),
        old(h).shape_only() ==> r is Ok,
        !old(h).shape_only() && k is Some ==> r is Ok,
        r matches Ok(p) ==> point_circuit(p) == system_id(old(h).inner) && point_value(p)
            == witnessed_multiple(
            if old(h).shape_only() {
                None::<u64>
            } else {
                k
            },
        ) && (!old(h).shape_only() && k is Some ==> point_witnessed(point_value(p))),
{
    let v = AffineVar::<JubjubConfig, FpVar<Fq>>::new_witness(h.inner.cs.clone(), || {
        k.map(|m| EdwardsProjective::generator() * Fr::from(m)).ok_or(
            SynthesisError::AssignmentMissing,
        )
    });
    match v {
        Ok(p) => Ok(PointVar { inner: p }),
        Err(e) => Err(e),
    }
}

/// Relies on `ark_r1cs_std` `Boolean::value`: the witness a boolean wire
/// carries, absent when none was stored.
#[verifier::external_body]
fn bit_witness_raw(w: &BitWire) -> (r: Option<bool>)
    ensures
        r == bit_value(*w),
{
    match w.inner.value() {
        Ok(b) => Some(b),
        Err(_) => None,
    }
}

/// Relies on `ark_relations` `ConstraintSystemRef::instance_assignment` and
/// `ark_ff` `BigInteger::to_bytes_le`: the instance column of the circuit,
/// one little-endian byte string per field element. Index 0 holds the
/// constant one; each registered point contributes its two affine
/// coordinates, in registration order. On the shape-only pass no assignment
/// is stored and the framework refuses the read.
#[verifier::external_body]
fn instance_bytes_raw(h: &CircuitHandle) -> (r: Result<Vec<Vec<u8>>, SynthesisError>)
    ensures
        h.shape_only() ==> r is Err,
        !h.shape_only() ==> r is Ok,
        r matches Ok(v) ==> v@.len() == 1 + 2 * h.registered().len() && (forall|j: int|
            0 <= j < h.registered().len() ==> v@[2 * j + 1]@ == point_x_bytes(
                #[trigger] h.registered()[j],
            ) && v@[2 * j + 2]@ == point_y_bytes(h.registered()[j])),
{
    let inst = h.inner.cs.instance_assignment()?;
    Ok(inst.iter().map(|f| f.into_bigint().to_bytes_le()).collect())
}

/// Relies on the `ark_relations` `SynthesisError::Unsatisfiable` marker: the
/// error that signals an internally unsatisfiable circuit.
#[verifier::external_body]
fn unsatisfiable() -> (e: SynthesisError)
    ensures
        is_unsatisfiable(e),
{
    SynthesisError::Unsatisfiable
}

/// A secret commitment record: an amount and the 32 little-endian bytes of
/// the blinding factor. The blinding bytes are deliberately not checked
/// against the canonical reduced form of the scalar field; the commitment's
/// security properties do not need it.
pub struct ValueCommitment {
    pub value: u64,
    pub randomness: Vec<u8>,
}

impl ValueCommitment {
    /// The blinding factor is held as exactly 32 bytes.
    pub open spec fn wf(&self) -> bool {
        self.randomness@.len() == 32
    }
}

/// The byte sequence behind an optional byte-vector argument.
pub open spec fn opt_view(value: Option<&Vec<u8>>) -> Option<Seq<u8>> {
    match value {
        Some(v) => Some(v@),
        None => None,
    }
}

/// The byte sequence a gadget actually witnesses: on the shape-only pass
/// nothing is witnessed.
pub open spec fn effective_value(shape: bool, v: Option<Seq<u8>>) -> Option<Seq<u8>> {
    if shape {
        None
    } else {
        v
    }
}

/// The witnesses of the `8 * byte_length` bit wires that encode an optional
/// byte sequence: the sequence's bits least-significant first when it is
/// present, absent witnesses otherwise. The length never depends on the
/// witness.
pub open spec fn witness_bits(value: Option<Seq<u8>>, byte_length: int) -> Seq<Option<bool>> {
    match value {
        Some(s) => Seq::new((8 * byte_length) as nat, |i: int| Some(bytes_to_bits_le(s)[i])),
        None => Seq::new((8 * byte_length) as nat, |i: int| None::<bool>),
    }
}

/// The given witnesses as the wires will carry them: unchanged on the
/// proving pass, all absent on the shape-only pass.
pub open spec fn effective_wits(shape: bool, wits: Seq<Option<bool>>) -> Seq<Option<bool>> {
    if shape {
        Seq::new(wits.len(), |i: int| None::<bool>)
    } else {
        wits
    }
}

/// The bits of a wire sequence with their witnesses read back unconditionally.
pub open spec fn unwrap_bits(s: Seq<Option<bool>>) -> Seq<bool> {
    Seq::new(s.len(), |i: int| s[i].unwrap())
}

/// Encoding a present byte sequence gives a present witness on every wire.
proof fn lemma_witness_bits_all_some(s: Seq<u8>, byte_length: int)
    ensures
        all_some(witness_bits(Some(s), byte_length)),
{
    assert forall|i: int|
        0 <= i < witness_bits(Some(s), byte_length).len() implies (#[trigger] witness_bits(
        Some(s),
        byte_length,
    )[i]) is Some by {}
}

/// Allocates one boolean wire per requested witness, in order.
fn alloc_bit_wires(h: &mut CircuitHandle, wits: &Vec<Option<bool>>) -> (r: Result<
    Vec<BitWire>,
    SynthesisError,
>)
    ensures
        final(h).registered() == old(h).registered(),
        final(h).shape_only() == old(h).shape_only(),
        system_id(final(h).inner) == system_id(old(h).inner),
        old(h).shape_only() ==> r is Ok,
        !old(h).shape_only() && (forall|k: int| 0 <= k < wits@.len() ==> wits@[k] is Some)
            ==> r is Ok,
        r matches Ok(v) ==> v@.len() == wits@.len() && wires_of(v@, system_id(old(h).inner))
            && wire_values(v@) == effective_wits(
            old(h).shape_only(),
            wits@,
        ),
{
    let mut out: Vec<BitWire> = Vec::new();
    let mut i: usize = 0;
    while i < wits.len()
        invariant
            i <= wits@.len(),
            out@.len() == i,
            h.registered() == old(h).registered(),
            h.shape_only() == old(h).shape_only(),
            system_id(h.inner) == system_id(old(h).inner),
            wires_of(out@, system_id(old(h).inner)),
            forall|k: int|
                0 <= k < i ==> bit_value(#[trigger] out@[k]) == (if old(h).shape_only() {
                    None::<bool>
                } else {
                    wits@[k]
                }),
        decreases wits@.len() - i,
    {
        let b = alloc_bit(h, wits[i])?;
        out.push(b);
        i += 1;
    }
    proof {
        assert(wire_values(out@) =~= effective_wits(old(h).shape_only(), wits@));
    }
    Ok(out)
}

/// Encodes an optional byte sequence of exactly `byte_length` bytes as
/// `8 * byte_length` boolean wires, least-significant bit first within each
/// byte, bytes in input order; with no sequence (or on the shape-only pass)
/// the wires carry no witness. A sequence whose length does not match
/// `byte_length` must be rejected by the caller: it is a precondition here,
/// never a runtime check.
pub fn slice_into_boolean_vec_le(
    h: &mut CircuitHandle,
    value: Option<&Vec<u8>>,
    byte_length: u32,
) -> (r: Result<Vec<BitWire>, SynthesisError>)
    requires
        value matches Some(v) ==> v@.len() == byte_length,
        8 * byte_length <= u32::MAX,
    ensures
        final(h).registered() == old(h).registered(),
        final(h).shape_only() == old(h).shape_only(),
        final(h).id() == old(h).id(),
        old(h).shape_only() ==> r is Ok,
        !old(h).shape_only() && value is Some ==> r is Ok,
        r matches Ok(bits) ==> bits@.len() == 8 * byte_length && wires_of(bits@, old(h).id())
            && wire_values(bits@) == witness_bits(
            effective_value(old(h).shape_only(), opt_view(value)),
            byte_length as int,
        ),
{
    let bit_length: usize = 8 * (byte_length as usize);
    let mut wits: Vec<Option<bool>> = Vec::new();
    match value {
        Some(bytes) => {
            let mut i: usize = 0;
            while i < bytes.len()
                invariant
                    bytes@.len() == byte_length,
                    8 * byte_length <= u32::MAX,
                    i <= bytes@.len(),
                    wits@.len() == 8 * i,
                    forall|k: int|
                        0 <= k < wits@.len() ==> #[trigger] wits@[k] == Some(
                            bytes_to_bits_le(bytes@)[k],
                        ),
                decreases bytes@.len() - i,
            {
                let b = bytes[i];
                let mut j: usize = 0;
                while j < 8
                    invariant
                        bytes@.len() == byte_length,
                        i < bytes@.len(),
                        b == bytes@[i as int],
                        j <= 8,
                        wits@.len() == 8 * i + j,
                        forall|k: int|
                            0 <= k < wits@.len() ==> #[trigger] wits@[k] == Some(
                                bytes_to_bits_le(bytes@)[k],
                            ),
                    decreases 8 - j,
                {
                    wits.push(Some(((b >> (j as u8)) & 1) == 1));
                    proof {
                        let k = 8 * i + j;
                        assert(k / 8 == i && k % 8 == j) by (nonlinear_arith)
                            requires
                                0 <= j < 8,
                                0 <= i,
                                k == 8 * i + j,
                        ;
                        assert(bytes_to_bits_le(bytes@)[k as int] == ((b >> (j as u8)) & 1 == 1));
                    }
                    j += 1;
                }
                i += 1;
            }
        },
        None => {
            let mut k: usize = 0;
            while k < bit_length
                invariant
                    k <= bit_length,
                    wits@.len() == k,
                    forall|t: int| 0 <= t < wits@.len() ==> wits@[t] == None::<bool>,
                decreases bit_length - k,
            {
                wits.push(None);
                k += 1;
            }
        },
    }
    proof {
        assert(value is Some ==> forall|k: int| 0 <= k < wits@.len() ==> wits@[k] is Some);
    }
    let bits = alloc_bit_wires(h, &wits)?;
    if bits.len() != bit_length {
        return Err(unsatisfiable());
    }
    proof {
        let shape = old(h).shape_only();
        let want = witness_bits(effective_value(shape, opt_view(value)), byte_length as int);
        assert(wire_values(bits@) =~= want);
    }
    Ok(bits)
}

/// The eight little-endian bytes of an amount, as a vector.
fn amount_le_bytes(v: u64) -> (r: Vec<u8>)
    ensures
        r@ == u64_le_bytes(v),
{
    let mut r: Vec<u8> = Vec::new();
    r.push((v & 0xff) as u8);
    r.push(((v >> 8) & 0xff) as u8);
    r.push(((v >> 16) & 0xff) as u8);
    r.push(((v >> 24) & 0xff) as u8);
    r.push(((v >> 32) & 0xff) as u8);
    r.push(((v >> 40) & 0xff) as u8);
    r.push(((v >> 48) & 0xff) as u8);
    r.push(((v >> 56) & 0xff) as u8);
    proof {
        assert(r@ =~= u64_le_bytes(v));
    }
    r
}

/// Reading a sequence of wires is reading its two halves one after the other.
pub proof fn lemma_wire_values_concat(a: Seq<BitWire>, b: Seq<BitWire>)
    ensures
        wire_values(a + b) == wire_values(a) + wire_values(b),
{
    assert(wire_values(a + b) =~= wire_values(a) + wire_values(b));
}

/// The wire witnesses of an asset-identity preimage: the public key's
/// canonical representation, then the name, the metadata and the nonce, each
/// encoded least-significant bit first.
pub open spec fn preimage_values(
    shape: bool,
    pk: int,
    name: Seq<u8>,
    metadata: Seq<u8>,
    nonce: u8,
) -> Seq<Option<bool>> {
    repr_bits(pk) + witness_bits(effective_value(shape, Some(name)), 32) + witness_bits(
        effective_value(shape, Some(metadata)),
        76,
    ) + witness_bits(effective_value(shape, Some(seq![nonce])), 1)
}

/// Assembles the asset-identity preimage: the concatenation of the asset
/// public key's canonical bit representation, the 32-byte name, the 76-byte
/// metadata and the single nonce byte, in that order, 1382 bits in all.
/// Either the full sequence is produced or the first failure is propagated
/// unchanged and nothing is returned.
pub fn asset_info_preimage(
    h: &mut CircuitHandle,
    name: &Vec<u8>,
    metadata: &Vec<u8>,
    asset_public_key: &PointVar,
    nonce: &u8,
) -> (r: Result<Vec<BitWire>, SynthesisError>)
    requires
        name@.len() == 32,
        metadata@.len() == 76,
        point_circuit(*asset_public_key) == old(h).id(),
    ensures
        final(h).registered() == old(h).registered(),
        final(h).shape_only() == old(h).shape_only(),
        final(h).id() == old(h).id(),
        old(h).shape_only() ==> r is Ok,
        !old(h).shape_only() && point_witnessed(point_value(*asset_public_key)) ==> r is Ok,
        r matches Ok(bits) ==> bits@.len() == 1382 && wires_of(bits@, old(h).id())
            && wire_values(bits@) == preimage_values(
            old(h).shape_only(),
            point_value(*asset_public_key),
            name@,
            metadata@,
            *nonce,
        ),
{
    let mut out = point_repr(h, asset_public_key)?;
    let ghost key_part = out@;
    let mut name_bits = slice_into_boolean_vec_le(h, Some(name), 32)?;
    let ghost name_part = name_bits@;
    out.append(&mut name_bits);
    let mut metadata_bits = slice_into_boolean_vec_le(h, Some(metadata), 76)?;
    let ghost metadata_part = metadata_bits@;
    out.append(&mut metadata_bits);
    let nonce_vec: Vec<u8> = vec![*nonce];
    proof {
        assert(nonce_vec@ =~= seq![*nonce]);
    }
    let mut nonce_bits = slice_into_boolean_vec_le(h, Some(&nonce_vec), 1)?;
    let ghost nonce_part = nonce_bits@;
    out.append(&mut nonce_bits);
    proof {
        lemma_wire_values_concat(key_part, name_part);
        lemma_wire_values_concat(key_part + name_part, metadata_part);
        lemma_wire_values_concat(key_part + name_part + metadata_part, nonce_part);
    }
    Ok(out)
}

/// The amount bytes a commitment record witnesses, when one is supplied.
pub open spec fn amount_bytes_opt(vc: Option<ValueCommitment>) -> Option<Seq<u8>> {
    match vc {
        Some(c) => Some(u64_le_bytes(c.value)),
        None => None,
    }
}

/// The blinding-factor bytes a commitment record witnesses, when one is
/// supplied.
pub open spec fn randomness_bytes_opt(vc: Option<ValueCommitment>) -> Option<Seq<u8>> {
    match vc {
        Some(c) => Some(c.randomness@),
        None => None,
    }
}

/// The 64 amount bit witnesses of a value commitment gadget.
pub open spec fn amount_bits(shape: bool, vc: Option<ValueCommitment>) -> Seq<Option<bool>> {
    witness_bits(effective_value(shape, amount_bytes_opt(vc)), 8)
}

/// The 256 blinding-factor bit witnesses of a value commitment gadget.
pub open spec fn randomness_bits(shape: bool, vc: Option<ValueCommitment>) -> Seq<Option<bool>> {
    witness_bits(effective_value(shape, randomness_bytes_opt(vc)), 32)
}

/// The content of the Pedersen commitment point a value commitment gadget
/// registers: the amount times the value generator plus the blinding factor
/// times the randomness generator.
pub open spec fn value_commitment_point(shape: bool, vc: Option<ValueCommitment>) -> int {
    point_sum(
        fixed_base_mul(value_generator_id(), amount_bits(shape, vc)),
        fixed_base_mul(randomness_generator_id(), randomness_bits(shape, vc)),
    )
}

/// The commitment record behind an optional reference.
pub open spec fn opt_vc(v: Option<&ValueCommitment>) -> Option<ValueCommitment> {
    match v {
        Some(c) => Some(*c),
        None => None,
    }
}

/// Encodes the secret amount as 64 bit wires and the blinding factor as 256
/// bit wires, maps each through fixed-base multiplication on its own
/// generator, sums the two points into a Pedersen commitment and registers
/// that point as the circuit's next public input. Returns the amount's bit
/// wires for reuse by the caller.
///
/// The two generators are stand-ins: publicly known multiples of the
/// curve's standard generator, with known factors between them. The
/// composition proved here does not depend on which points they are, but a
/// deployment that needs the commitment's binding property must put
/// independently derived generator points behind the multiplication
/// primitives.
pub fn expose_value_commitment(
    h: &mut CircuitHandle,
    value_commitment: Option<&ValueCommitment>,
) -> (r: Result<Vec<BitWire>, SynthesisError>)
    requires
        value_commitment matches Some(c) ==> c.wf(),
    ensures
        final(h).shape_only() == old(h).shape_only(),
        final(h).id() == old(h).id(),
        old(h).shape_only() ==> r is Ok,
        !old(h).shape_only() && value_commitment is Some ==> r is Ok,
        r is Err ==> final(h).registered() == old(h).registered(),
        r matches Ok(bits) ==> ({
            &&& bits@.len() == 64
            &&& wires_of(bits@, old(h).id())
            &&& wire_values(bits@) == amount_bits(old(h).shape_only(), opt_vc(value_commitment))
            &&& final(h).registered() == old(h).registered().push(
                value_commitment_point(old(h).shape_only(), opt_vc(value_commitment)),
            )
        }),
{
    let value_bits = match value_commitment {
        Some(c) => {
            let vb = amount_le_bytes(c.value);
            let encoded = slice_into_boolean_vec_le(h, Some(&vb), 8)?;
            proof {
                if !old(h).shape_only() {
                    lemma_witness_bits_all_some(vb@, 8);
                    assert(all_some(wire_values(encoded@)));
                }
            }
            encoded
        },
        None => slice_into_boolean_vec_le(h, None, 8)?,
    };
    let value_point = mul_value_generator(h, &value_bits)?;
    let rcv_bits = match value_commitment {
        Some(c) => {
            let encoded = slice_into_boolean_vec_le(h, Some(&c.randomness), 32)?;
            proof {
                if !old(h).shape_only() {
                    lemma_witness_bits_all_some(c.randomness@, 32);
                    assert(all_some(wire_values(encoded@)));
                }
            }
            encoded
        },
        None => slice_into_boolean_vec_le(h, None, 32)?,
    };
    let rcv_point = mul_randomness_generator(h, &rcv_bits)?;
    let cv = add_points(h, &value_point, &rcv_point)?;
    register_input(h, &cv)?;
    Ok(value_bits)
}

/// The content of the randomized public key a key-randomization gadget
/// registers: the given public key plus the randomizer times the dedicated
/// asset-key generator.
pub open spec fn randomized_key_point(shape: bool, pk: int, randomness: Option<Seq<u8>>) -> int {
    point_sum(
        pk,
        fixed_base_mul(asset_generator_id(), witness_bits(effective_value(shape, randomness), 32)),
    )
}

/// Encodes the secret randomizer as 256 bit wires, maps it through
/// fixed-base multiplication on the dedicated asset-key generator, adds the
/// result to the given asset public key and registers the randomized key as
/// the circuit's next public input. Returns no value: only the side effect.
///
/// The dedicated generator is a stand-in, a publicly known multiple of the
/// curve's standard generator; see `expose_value_commitment` on what a
/// deployment must replace.
pub fn expose_randomized_public_key(
    h: &mut CircuitHandle,
    public_key_randomness: Option<&Vec<u8>>,
    asset_public_key: &PointVar,
) -> (r: Result<(), SynthesisError>)
    requires
        public_key_randomness matches Some(v) ==> v@.len() == 32,
        point_circuit(*asset_public_key) == old(h).id(),
    ensures
        final(h).shape_only() == old(h).shape_only(),
        final(h).id() == old(h).id(),
        old(h).shape_only() ==> r is Ok,
        !old(h).shape_only() && public_key_randomness is Some && point_witnessed(
            point_value(*asset_public_key),
        ) ==> r is Ok,
        r is Err ==> final(h).registered() == old(h).registered(),
        r is Ok ==> final(h).registered() == old(h).registered().push(
            randomized_key_point(
                old(h).shape_only(),
                point_value(*asset_public_key),
                opt_view(public_key_randomness),
            ),
        ),
{
    let bits = slice_into_boolean_vec_le(h, public_key_randomness, 32)?;
    proof {
        match public_key_randomness {
            Some(v) => {
                if !old(h).shape_only() {
                    lemma_witness_bits_all_some(v@, 32);
                    assert(all_some(wire_values(bits@)));
                }
            },
            None => {},
        }
    }
    let offset = mul_asset_generator(h, &bits)?;
    let randomized = add_points(h, asset_public_key, &offset)?;
    register_input(h, &randomized)?;
    Ok(())
}

/// The witness a boolean wire carries, absent on the shape-only pass.
pub fn wire_witness(w: &BitWire) -> (r: Option<bool>)
    ensures
        r == bit_value(*w),
{
    bit_witness_raw(w)
}

/// Allocates a point wire witnessing the standard generator times `k`, for
/// callers that need an in-circuit public key to hand to the gadgets.
pub fn witness_point(h: &mut CircuitHandle, k: Option<u64>) -> (r: Result<PointVar, SynthesisError>)
    ensures
        final(h).registered() == old(h).registered(),
        final(h).shape_only() == old(h).shape_only(),
        final(h).id() == old(h).id(),
        old(h).shape_only() ==> r is Ok,
        !old(h).shape_only() && k is Some ==> r is Ok,
        r matches Ok(p) ==> point_circuit(p) == old(h).id() && point_value(p)
            == witnessed_multiple(
            if old(h).shape_only() {
                None::<u64>
            } else {
                k
            },
        ) && (!old(h).shape_only() && k is Some ==> point_witnessed(point_value(p))),
{
    witness_point_raw(h, k)
}

/// The instance column of the circuit, one little-endian byte string per
/// field element: the constant one first, then the two affine coordinates of
/// each registered point, in registration order. On the shape-only pass no
/// assignment exists and the read fails.
pub fn registered_inputs(h: &CircuitHandle) -> (r: Result<Vec<Vec<u8>>, SynthesisError>)
    ensures
        h.shape_only() ==> r is Err,
        !h.shape_only() ==> r is Ok,
        r matches Ok(v) ==> v@.len() == 1 + 2 * h.registered().len() && (forall|j: int|
            0 <= j < h.registered().len() ==> v@[2 * j + 1]@ == point_x_bytes(
                #[trigger] h.registered()[j],
            ) && v@[2 * j + 2]@ == point_y_bytes(h.registered()[j])),
{
    instance_bytes_raw(h)
}

/// Two commitment records that agree on the amount and on the blinding
/// bytes make two independently constructed proving circuits register
/// commitment points with the same content: the registered point is a
/// function of the record alone.
pub proof fn lemma_value_commitment_deterministic(a: ValueCommitment, b: ValueCommitment)
    requires
        a.value == b.value,
        a.randomness@ == b.randomness@,
    ensures
        value_commitment_point(false, Some(a)) == value_commitment_point(false, Some(b)),
{
}

/// The 64 amount wires returned by the value commitment gadget on the
/// proving pass decode back to the committed amount: read least-significant
/// bit first, grouped into eight bytes, they reconstruct it exactly.
pub proof fn lemma_amount_bits_decode(c: ValueCommitment)
    ensures
        u64_of_le_bytes(decode_bytes(unwrap_bits(amount_bits(false, Some(c))))) == c.value,
{
    assert(unwrap_bits(amount_bits(false, Some(c))) =~= bytes_to_bits_le(u64_le_bytes(c.value)));
    crate::bits::lemma_bit_encoding_roundtrip(u64_le_bytes(c.value));
    crate::bits::lemma_amount_roundtrip(c.value);
}

} // verus!
