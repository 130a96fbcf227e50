use triframe::instance::{
    initial_instances, projection_uniform, rotate_triple, triangle_vertices, PackedVec3,
    VectorTriple, HALF_BITS, NEG_HALF_BITS, NEG_TENTH_BITS, ONE_BITS, ROTATION_ANGLE_BITS,
    SLOT_BYTES, TENTH_BITS, UNIFORM_BYTES, ZERO_BITS,
};

fn close(bits: u32, expected: f32) -> bool {
    (f32::from_bits(bits) - expected).abs() < 1e-5
}

#[test]
fn bit_constants_match_their_values() {
    assert_eq!(ZERO_BITS, 0.0f32.to_bits());
    assert_eq!(HALF_BITS, 0.5f32.to_bits());
    assert_eq!(NEG_HALF_BITS, (-0.5f32).to_bits());
    assert_eq!(TENTH_BITS, 0.1f32.to_bits());
    assert_eq!(NEG_TENTH_BITS, (-0.1f32).to_bits());
    assert_eq!(ONE_BITS, 1.0f32.to_bits());
    assert_eq!(ROTATION_ANGLE_BITS, 0.1f32.to_bits());
}

fn uniform_entries(bytes: &[u8]) -> Vec<f32> {
    bytes
        .chunks(4)
        .map(|c| f32::from_bits(u32::from_le_bytes([c[0], c[1], c[2], c[3]])))
        .collect()
}

#[test]
fn projection_uniform_is_the_identity_matrix() {
    let bytes = projection_uniform();
    assert_eq!(bytes.len(), UNIFORM_BYTES);
    for (i, entry) in uniform_entries(&bytes).into_iter().enumerate() {
        let expected = if i % 5 == 0 { 1.0 } else { 0.0 };
        assert_eq!(entry, expected);
    }
}

#[test]
fn projection_uniform_matches_the_orthographic_projection() {
    let expected =
        glam::camera::lh::proj::directx::orthographic(-1f32, 1., -1., 1., 0., 1.)
            .to_cols_array();
    let entries = uniform_entries(&projection_uniform());
    assert_eq!(entries.len(), expected.len());
    for (entry, want) in entries.into_iter().zip(expected) {
        // numeric equality: a negative zero translation equals zero
        assert_eq!(entry, want);
    }
}

#[test]
fn encode_then_decode_returns_the_triple() {
    let t = VectorTriple {
        v0: PackedVec3 { x: 1, y: 2, z: 3 },
        v1: PackedVec3 { x: 0xDEAD_BEEF, y: 0, z: u32::MAX },
        v2: PackedVec3 { x: 7, y: 0x8000_0000, z: 42 },
    };
    let bytes = t.encode();
    assert_eq!(bytes.len(), SLOT_BYTES);
    assert_eq!(VectorTriple::decode(&bytes), Some(t));
}

#[test]
fn decode_then_encode_returns_the_bytes() {
    let bytes: Vec<u8> = (0..36).map(|i| (i * 7 + 3) as u8).collect();
    let t = VectorTriple::decode(&bytes).expect("whole slot");
    assert_eq!(t.encode(), bytes);
}

#[test]
fn decode_rejects_partial_slots() {
    assert_eq!(VectorTriple::decode(&[]), None);
    assert_eq!(VectorTriple::decode(&[0u8; 35]), None);
    assert_eq!(VectorTriple::decode(&[0u8; 37]), None);
}

#[test]
fn encoding_is_little_endian_and_tightly_packed() {
    let t = VectorTriple {
        v0: PackedVec3 { x: 0x0403_0201, y: 0x0807_0605, z: 0x0C0B_0A09 },
        v1: PackedVec3 { x: 0x100F_0E0D, y: 0x1413_1211, z: 0x1817_1615 },
        v2: PackedVec3 { x: 0x1C1B_1A19, y: 0x201F_1E1D, z: 0x2423_2221 },
    };
    let bytes = t.encode();
    let expected: Vec<u8> = (1..=36).collect();
    assert_eq!(bytes, expected);
}

#[test]
fn rotation_matches_the_analytic_result() {
    let input = VectorTriple {
        v0: PackedVec3 {
            x: 0.3f32.to_bits(),
            y: 0.7f32.to_bits(),
            z: (-0.2f32).to_bits(),
        },
        v1: PackedVec3 { x: ZERO_BITS, y: ZERO_BITS, z: ZERO_BITS },
        v2: PackedVec3 { x: HALF_BITS, y: ZERO_BITS, z: HALF_BITS },
    };
    let r = rotate_triple(ROTATION_ANGLE_BITS, &input);
    let (sin, cos) = 0.1f32.sin_cos();
    // y rotation: x' = x cos + z sin, y' = y, z' = z cos - x sin
    assert!(close(r.v0.x, 0.3 * cos + (-0.2) * sin));
    assert!(close(r.v0.y, 0.7));
    assert!(close(r.v0.z, -0.2 * cos - 0.3 * sin));
    assert!(close(r.v1.x, 0.0));
    assert!(close(r.v1.y, 0.0));
    assert!(close(r.v1.z, 0.0));
    assert!(close(r.v2.x, 0.5 * cos + 0.5 * sin));
    assert!(close(r.v2.y, 0.0));
    assert!(close(r.v2.z, 0.5 * cos - 0.5 * sin));
}

#[test]
fn rotation_changes_offcenter_vectors() {
    let input = initial_instances();
    let r = rotate_triple(ROTATION_ANGLE_BITS, &input);
    assert_ne!(r.v1, input.v1);
    assert_ne!(r.v2, input.v2);
}

#[test]
fn initial_instances_are_the_three_offsets() {
    let t = initial_instances();
    assert_eq!(f32::from_bits(t.v0.x), 0.0);
    assert_eq!(f32::from_bits(t.v1.x), -0.5);
    assert_eq!(f32::from_bits(t.v2.x), 0.5);
    for v in [t.v0, t.v1, t.v2] {
        assert_eq!(f32::from_bits(v.y), 0.0);
        assert_eq!(f32::from_bits(v.z), 0.0);
    }
}

#[test]
fn triangle_vertices_are_the_fixed_corners() {
    let t = triangle_vertices();
    assert_eq!(f32::from_bits(t.v0.x), -0.1);
    assert_eq!(f32::from_bits(t.v0.y), -0.1);
    assert_eq!(f32::from_bits(t.v1.x), 0.0);
    assert_eq!(f32::from_bits(t.v1.y), 0.1);
    assert_eq!(f32::from_bits(t.v2.x), 0.1);
    assert_eq!(f32::from_bits(t.v2.y), -0.1);
    for v in [t.v0, t.v1, t.v2] {
        assert_eq!(f32::from_bits(v.z), 0.0);
    }
}
