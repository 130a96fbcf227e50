use vstd::bytes::*;
use vstd::prelude::*;
use vstd::slice::slice_subrange;

verus! {

/// Number of instances drawn per frame, and of vectors held by one slot.
pub const INSTANCE_COUNT: usize = 3;

/// Bytes of one tightly packed three-component vector.
pub const VECTOR_BYTES: usize = 12;

/// Bytes of one instance slot: three vectors, tightly packed, no padding.
pub const SLOT_BYTES: usize = 36;

/// Bytes of the projection uniform: a four-by-four single-precision matrix.
pub const UNIFORM_BYTES: usize = 64;

/// The fixed per-frame rotation increment, a tenth of a radian, as the bit
/// pattern of an IEEE-754 single-precision value.
pub const ROTATION_ANGLE_BITS: u32 = 0x3DCC_CCCD;

/// Bit pattern of single-precision zero.
pub const ZERO_BITS: u32 = 0;

/// Bit pattern of single-precision one half.
pub const HALF_BITS: u32 = 0x3F00_0000;

/// Bit pattern of single-precision negative one half.
pub const NEG_HALF_BITS: u32 = 0xBF00_0000;

/// Bit pattern of single-precision one.
pub const ONE_BITS: u32 = 0x3F80_0000;

/// Bit pattern of single-precision one tenth.
pub const TENTH_BITS: u32 = 0x3DCC_CCCD;

/// Bit pattern of single-precision negative one tenth.
pub const NEG_TENTH_BITS: u32 = 0xBDCC_CCCD;

/// One three-component vector, each component held as the bit pattern of an
/// IEEE-754 single-precision value.
#[derive(Clone, Copy, PartialEq, Eq, Structural, Debug)]
pub struct PackedVec3 {
    pub x: u32,
    pub y: u32,
    pub z: u32,
}

/// The contents of one instance slot: exactly three vectors. The same shape
/// also carries the triangle's three vertex positions.
#[derive(Clone, Copy, PartialEq, Eq, Structural, Debug)]
pub struct VectorTriple {
    pub v0: PackedVec3,
    pub v1: PackedVec3,
    pub v2: PackedVec3,
}

/// The twelve bytes of one vector, components little-endian, in x, y, z order.
pub open spec fn spec_vec_bytes(v: PackedVec3) -> Seq<u8> {
    spec_u32_to_le_bytes(v.x) + spec_u32_to_le_bytes(v.y) + spec_u32_to_le_bytes(v.z)
}

/// The thirty-six bytes of one slot: the three vectors in order.
pub open spec fn spec_encode(t: VectorTriple) -> Seq<u8> {
    spec_vec_bytes(t.v0) + spec_vec_bytes(t.v1) + spec_vec_bytes(t.v2)
}

/// The vector whose twelve bytes start at `off` in `s`.
pub open spec fn spec_vec_at(s: Seq<u8>, off: int) -> PackedVec3 {
    PackedVec3 {
        x: spec_u32_from_le_bytes(s.subrange(off, off + 4)),
        y: spec_u32_from_le_bytes(s.subrange(off + 4, off + 8)),
        z: spec_u32_from_le_bytes(s.subrange(off + 8, off + 12)),
    }
}

/// The triple held by a thirty-six-byte slot snapshot.
pub open spec fn spec_decode(s: Seq<u8>) -> VectorTriple
    recommends
        s.len() == SLOT_BYTES,
{
    VectorTriple {
        v0: spec_vec_at(s, 0),
        v1: spec_vec_at(s, 12),
        v2: spec_vec_at(s, 24),
    }
}

/// Appends one word's four little-endian bytes.
fn push_word(out: &mut Vec<u8>, word: u32)
    ensures
        final(out)@ == old(out)@ + spec_u32_to_le_bytes(word),
{
    let mut part = u32_to_le_bytes(word);
    out.append(&mut part);
}

impl VectorTriple {
    /// Packs the triple into the slot's byte layout.
    pub fn encode(&self) -> (out: Vec<u8>)
        ensures
            out@ == spec_encode(*self),
            out@.len() == SLOT_BYTES,
    {
        proof {
            lemma_auto_spec_u32_to_from_le_bytes();
        }
        let mut out: Vec<u8> = Vec::new();
        push_word(&mut out, self.v0.x);
        push_word(&mut out, self.v0.y);
        push_word(&mut out, self.v0.z);
        push_word(&mut out, self.v1.x);
        push_word(&mut out, self.v1.y);
        push_word(&mut out, self.v1.z);
        push_word(&mut out, self.v2.x);
        push_word(&mut out, self.v2.y);
        push_word(&mut out, self.v2.z);
        assert(out@ =~= spec_encode(*self));
        out
    }

    /// Unpacks a slot snapshot; `None` exactly when the snapshot does not have
    /// a whole slot's length.
    pub fn decode(bytes: &[u8]) -> (r: Option<VectorTriple>)
        ensures
            match r {
                Some(t) => bytes@.len() == SLOT_BYTES && t == spec_decode(bytes@),
                None => bytes@.len() != SLOT_BYTES,
            },
    {
        if bytes.len() != SLOT_BYTES {
            return None;
        }
        let v0 = decode_vec_at(bytes, 0);
        let v1 = decode_vec_at(bytes, 12);
        let v2 = decode_vec_at(bytes, 24);
        Some(VectorTriple { v0, v1, v2 })
    }
}

/// Reads the vector whose twelve bytes start at `off`.
fn decode_vec_at(bytes: &[u8], off: usize) -> (v: PackedVec3)
    requires
        off + VECTOR_BYTES <= bytes@.len(),
    ensures
        v == spec_vec_at(bytes@, off as int),
{
    let n: usize = bytes.len();
    assert(off + 12 <= n);
    let x = u32_from_le_bytes(slice_subrange(bytes, off, off + 4));
    let y = u32_from_le_bytes(slice_subrange(bytes, off + 4, off + 8));
    let z = u32_from_le_bytes(slice_subrange(bytes, off + 8, off + 12));
    PackedVec3 { x, y, z }
}

/// Unpacking undoes packing: a triple survives the slot's byte layout intact.
pub proof fn lemma_encode_then_decode_is_identity(t: VectorTriple)
    ensures
        spec_encode(t).len() == SLOT_BYTES,
        spec_decode(spec_encode(t)) == t,
{
    lemma_auto_spec_u32_to_from_le_bytes();
    let s = spec_encode(t);
    assert(s.subrange(0, 4) =~= spec_u32_to_le_bytes(t.v0.x));
    assert(s.subrange(4, 8) =~= spec_u32_to_le_bytes(t.v0.y));
    assert(s.subrange(8, 12) =~= spec_u32_to_le_bytes(t.v0.z));
    assert(s.subrange(12, 16) =~= spec_u32_to_le_bytes(t.v1.x));
    assert(s.subrange(16, 20) =~= spec_u32_to_le_bytes(t.v1.y));
    assert(s.subrange(20, 24) =~= spec_u32_to_le_bytes(t.v1.z));
    assert(s.subrange(24, 28) =~= spec_u32_to_le_bytes(t.v2.x));
    assert(s.subrange(28, 32) =~= spec_u32_to_le_bytes(t.v2.y));
    assert(s.subrange(32, 36) =~= spec_u32_to_le_bytes(t.v2.z));
}

/// Packing undoes unpacking: reading a slot and writing the same triple back
/// reproduces the bytes exactly; mapping alone corrupts nothing.
pub proof fn lemma_decode_then_encode_is_identity(s: Seq<u8>)
    requires
        s.len() == SLOT_BYTES,
    ensures
        spec_encode(spec_decode(s)) == s,
{
    lemma_auto_spec_u32_to_from_le_bytes();
    let t = spec_decode(s);
    assert(spec_u32_to_le_bytes(t.v0.x) =~= s.subrange(0, 4));
    assert(spec_u32_to_le_bytes(t.v0.y) =~= s.subrange(4, 8));
    assert(spec_u32_to_le_bytes(t.v0.z) =~= s.subrange(8, 12));
    assert(spec_u32_to_le_bytes(t.v1.x) =~= s.subrange(12, 16));
    assert(spec_u32_to_le_bytes(t.v1.y) =~= s.subrange(16, 20));
    assert(spec_u32_to_le_bytes(t.v1.z) =~= s.subrange(20, 24));
    assert(spec_u32_to_le_bytes(t.v2.x) =~= s.subrange(24, 28));
    assert(spec_u32_to_le_bytes(t.v2.y) =~= s.subrange(28, 32));
    assert(spec_u32_to_le_bytes(t.v2.z) =~= s.subrange(32, 36));
    assert(spec_encode(spec_decode(s)) =~= s);
}

/// Relies on glam::Mat3::from_rotation_y and its product with glam::Vec3 to
/// rotate one vector about the y axis. The sine and cosine behind the matrix
/// come from the platform's math library, whose rounding std leaves
/// unspecified, so nothing is claimed of the returned bits: what follows the
/// call is specified relative to its result, whatever came back.
#[verifier::external_body]
fn rotate_y(angle_bits: u32, v: PackedVec3) -> PackedVec3 {
    let m = glam::Mat3::from_rotation_y(bytemuck::cast(angle_bits));
    let out = m * glam::Vec3::from_array(bytemuck::cast([v.x, v.y, v.z]));
    let bits: [u32; 3] = bytemuck::cast(out.to_array());
    PackedVec3 { x: bits[0], y: bits[1], z: bits[2] }
}

/// Applies the fixed rotation to each of a slot's three vectors. The numeric
/// outcome is the platform's, so no value-level contract is stated here; the
/// frame pipeline fixes everything downstream of it relative to the triple
/// this returns.
pub fn rotate_triple(angle_bits: u32, t: &VectorTriple) -> VectorTriple {
    VectorTriple {
        v0: rotate_y(angle_bits, t.v0),
        v1: rotate_y(angle_bits, t.v1),
        v2: rotate_y(angle_bits, t.v2),
    }
}

/// The instance offsets the pool is seeded with: the origin, and half a unit
/// left and right along the x axis.
pub open spec fn spec_initial_instances() -> VectorTriple {
    VectorTriple {
        v0: PackedVec3 { x: ZERO_BITS, y: ZERO_BITS, z: ZERO_BITS },
        v1: PackedVec3 { x: NEG_HALF_BITS, y: ZERO_BITS, z: ZERO_BITS },
        v2: PackedVec3 { x: HALF_BITS, y: ZERO_BITS, z: ZERO_BITS },
    }
}

/// The startup instance offsets.
pub fn initial_instances() -> (r: VectorTriple)
    ensures
        r == spec_initial_instances(),
{
    VectorTriple {
        v0: PackedVec3 { x: ZERO_BITS, y: ZERO_BITS, z: ZERO_BITS },
        v1: PackedVec3 { x: NEG_HALF_BITS, y: ZERO_BITS, z: ZERO_BITS },
        v2: PackedVec3 { x: HALF_BITS, y: ZERO_BITS, z: ZERO_BITS },
    }
}

/// The sixty-four bytes of the projection uniform, column-major, each entry
/// little-endian. The view volume is the unit box, a unit wide and tall
/// around the origin with depth zero to one, so the orthographic projection
/// is exactly the identity matrix: every entry is exactly representable and
/// the uniform is a constant of the scene.
pub open spec fn spec_projection_uniform() -> Seq<u8> {
    spec_u32_to_le_bytes(ONE_BITS) + spec_u32_to_le_bytes(ZERO_BITS) + spec_u32_to_le_bytes(
        ZERO_BITS,
    ) + spec_u32_to_le_bytes(ZERO_BITS) + spec_u32_to_le_bytes(ZERO_BITS)
        + spec_u32_to_le_bytes(ONE_BITS) + spec_u32_to_le_bytes(ZERO_BITS)
        + spec_u32_to_le_bytes(ZERO_BITS) + spec_u32_to_le_bytes(ZERO_BITS)
        + spec_u32_to_le_bytes(ZERO_BITS) + spec_u32_to_le_bytes(ONE_BITS)
        + spec_u32_to_le_bytes(ZERO_BITS) + spec_u32_to_le_bytes(ZERO_BITS)
        + spec_u32_to_le_bytes(ZERO_BITS) + spec_u32_to_le_bytes(ZERO_BITS)
        + spec_u32_to_le_bytes(ONE_BITS)
}

/// The projection uniform uploaded once at startup.
pub fn projection_uniform() -> (out: Vec<u8>)
    ensures
        out@ == spec_projection_uniform(),
        out@.len() == UNIFORM_BYTES,
{
    proof {
        lemma_auto_spec_u32_to_from_le_bytes();
    }
    let mut out: Vec<u8> = Vec::new();
    push_word(&mut out, ONE_BITS);
    push_word(&mut out, ZERO_BITS);
    push_word(&mut out, ZERO_BITS);
    push_word(&mut out, ZERO_BITS);
    push_word(&mut out, ZERO_BITS);
    push_word(&mut out, ONE_BITS);
    push_word(&mut out, ZERO_BITS);
    push_word(&mut out, ZERO_BITS);
    push_word(&mut out, ZERO_BITS);
    push_word(&mut out, ZERO_BITS);
    push_word(&mut out, ONE_BITS);
    push_word(&mut out, ZERO_BITS);
    push_word(&mut out, ZERO_BITS);
    push_word(&mut out, ZERO_BITS);
    push_word(&mut out, ZERO_BITS);
    push_word(&mut out, ONE_BITS);
    assert(out@ =~= spec_projection_uniform());
    out
}

/// The triangle's vertex positions: a tenth of a unit wide and tall.
pub open spec fn spec_triangle_vertices() -> VectorTriple {
    VectorTriple {
        v0: PackedVec3 { x: NEG_TENTH_BITS, y: NEG_TENTH_BITS, z: ZERO_BITS },
        v1: PackedVec3 { x: ZERO_BITS, y: TENTH_BITS, z: ZERO_BITS },
        v2: PackedVec3 { x: TENTH_BITS, y: NEG_TENTH_BITS, z: ZERO_BITS },
    }
}

/// The fixed vertex positions uploaded once at startup.
pub fn triangle_vertices() -> (r: VectorTriple)
    ensures
        r == spec_triangle_vertices(),
{
    VectorTriple {
        v0: PackedVec3 { x: NEG_TENTH_BITS, y: NEG_TENTH_BITS, z: ZERO_BITS },
        v1: PackedVec3 { x: ZERO_BITS, y: TENTH_BITS, z: ZERO_BITS },
        v2: PackedVec3 { x: TENTH_BITS, y: NEG_TENTH_BITS, z: ZERO_BITS },
    }
}

} // verus!
