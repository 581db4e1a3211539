use vstd::prelude::*;

use crate::render::float_bits::f32_bits_of_uint;
use crate::render::float_bits::f32_bits_of_count;
use crate::world::camera::Camera;
use crate::world::scene::Scene;
use crate::world::sphere::Sphere;
use crate::world::vec3::Vec3;

verus! {

/// How many sphere records the packed scene record reserves room for.
pub const SPHERE_CAPACITY: usize = 16;

/// Bytes of one sphere record: a three-component center and a radius.
pub const SPHERE_STRIDE: usize = 16;

/// Byte offset of the sphere count field, right after the four camera
/// vectors (position, forward, right, up, three 4-byte components each).
pub const COUNT_OFFSET: usize = 48;

/// Byte offset of the sphere array. The twelve bytes between the count
/// field and the array are zeroed padding, so that the array sits on the
/// 16-byte alignment the kernel's uniform layout demands.
pub const SPHERE_ARRAY_OFFSET: usize = 64;

/// Total size of the packed scene record. The device-side buffer is
/// allocated at exactly this size, and the kernel's declared struct must
/// agree with it byte for byte.
pub const SCENE_RECORD_BYTES: usize = SPHERE_ARRAY_OFFSET + SPHERE_CAPACITY * SPHERE_STRIDE;

/// The four bytes of `v` in little-endian order.
pub open spec fn u32_le_bytes(v: u32) -> Seq<u8> {
    seq![
        (v % 0x100) as u8,
        ((v / 0x100) % 0x100) as u8,
        ((v / 0x1_0000) % 0x100) as u8,
        ((v / 0x100_0000) % 0x100) as u8,
    ]
}

/// A vector's three components, each little-endian, tightly packed.
pub open spec fn vec3_bytes(v: Vec3) -> Seq<u8> {
    u32_le_bytes(v.x) + u32_le_bytes(v.y) + u32_le_bytes(v.z)
}

/// The camera header of the record: position, forward, right, up.
pub open spec fn camera_bytes(c: Camera) -> Seq<u8> {
    vec3_bytes(c.pos) + vec3_bytes(c.forward) + vec3_bytes(c.right) + vec3_bytes(c.up)
}

/// One sphere record: center then radius.
pub open spec fn sphere_bytes(s: Sphere) -> Seq<u8> {
    vec3_bytes(s.pos) + u32_le_bytes(s.radius)
}

/// `k` zero bytes.
pub open spec fn zero_bytes(k: nat) -> Seq<u8> {
    Seq::new(k, |i: int| 0u8)
}

/// The sphere count that actually enters the record: the scene's count,
/// clamped to the record's capacity.
pub open spec fn packed_count(n: nat) -> nat {
    if n > SPHERE_CAPACITY {
        SPHERE_CAPACITY as nat
    } else {
        n
    }
}

/// How many spheres the capacity policy drops from a scene of `n` spheres.
pub open spec fn dropped_count(n: nat) -> nat {
    if n > SPHERE_CAPACITY {
        (n - SPHERE_CAPACITY) as nat
    } else {
        0
    }
}

/// The bytes of array slot `i`: the `i`-th sphere where one exists within
/// capacity, zeroed bytes otherwise.
pub open spec fn sphere_slot(spheres: Seq<Sphere>, i: int) -> Seq<u8> {
    if 0 <= i && i < spheres.len() && i < SPHERE_CAPACITY {
        sphere_bytes(spheres[i])
    } else {
        zero_bytes(SPHERE_STRIDE as nat)
    }
}

/// The first `k` slots of the sphere array, concatenated.
pub open spec fn sphere_slots(spheres: Seq<Sphere>, k: nat) -> Seq<u8>
    decreases k,
{
    if k == 0 {
        Seq::empty()
    } else {
        sphere_slots(spheres, (k - 1) as nat) + sphere_slot(spheres, k - 1)
    }
}

/// The whole packed scene record: camera header, count field (stored as the
/// single-precision bit pattern of the clamped count, because the kernel
/// reads the count as a float), alignment padding, then the sphere array.
pub open spec fn pack_spec(camera: Camera, spheres: Seq<Sphere>) -> Seq<u8> {
    camera_bytes(camera) + u32_le_bytes(f32_bits_of_uint(packed_count(spheres.len())) as u32)
        + zero_bytes((SPHERE_ARRAY_OFFSET - COUNT_OFFSET - 4) as nat)
        + sphere_slots(spheres, SPHERE_CAPACITY as nat)
}

/// Appends the little-endian bytes of `v`.
fn push_u32_le(out: &mut Vec<u8>, v: u32)
    ensures
        final(out)@ == old(out)@ + u32_le_bytes(v),
{
    out.push((v % 0x100) as u8);
    out.push(((v / 0x100) % 0x100) as u8);
    out.push(((v / 0x1_0000) % 0x100) as u8);
    out.push(((v / 0x100_0000) % 0x100) as u8);
    proof {
        assert(out@ =~= old(out)@ + u32_le_bytes(v));
    }
}

/// Appends a vector's twelve bytes.
fn push_vec3(out: &mut Vec<u8>, v: Vec3)
    ensures
        final(out)@ == old(out)@ + vec3_bytes(v),
{
    push_u32_le(out, v.x);
    push_u32_le(out, v.y);
    push_u32_le(out, v.z);
    proof {
        assert(out@ =~= old(out)@ + vec3_bytes(v));
    }
}

/// Appends one sphere record.
fn push_sphere(out: &mut Vec<u8>, s: Sphere)
    ensures
        final(out)@ == old(out)@ + sphere_bytes(s),
{
    push_vec3(out, s.pos);
    push_u32_le(out, s.radius);
    proof {
        assert(out@ =~= old(out)@ + sphere_bytes(s));
    }
}

/// Appends `k` zero bytes.
fn push_zeros(out: &mut Vec<u8>, k: usize)
    ensures
        final(out)@ == old(out)@ + zero_bytes(k as nat),
{
    let mut i: usize = 0;
    while i < k
        invariant
            i <= k,
            out@ == old(out)@ + zero_bytes(i as nat),
        decreases k - i,
    {
        out.push(0u8);
        proof {
            assert(out@ =~= old(out)@ + zero_bytes((i + 1) as nat));
        }
        i += 1;
    }
    proof {
        assert(out@ =~= old(out)@ + zero_bytes(k as nat));
    }
}

/// Every slot is `SPHERE_STRIDE` bytes, so `k` slots are `SPHERE_STRIDE * k`.
proof fn lemma_sphere_slots_len(spheres: Seq<Sphere>, k: nat)
    ensures
        sphere_slots(spheres, k).len() == SPHERE_STRIDE * k,
    decreases k,
{
    if k > 0 {
        lemma_sphere_slots_len(spheres, (k - 1) as nat);
    }
}

/// Law: the packed record always has exactly `SCENE_RECORD_BYTES` bytes,
/// whatever the scene's sphere count.
pub proof fn lemma_pack_fixed_size(camera: Camera, spheres: Seq<Sphere>)
    ensures
        pack_spec(camera, spheres).len() == SCENE_RECORD_BYTES,
{
    lemma_sphere_slots_len(spheres, SPHERE_CAPACITY as nat);
    assert(sphere_slots(spheres, SPHERE_CAPACITY as nat).len() == 256);
    let count_field = u32_le_bytes(f32_bits_of_uint(packed_count(spheres.len())) as u32);
    assert(count_field.len() == 4);
    assert(vec3_bytes(camera.pos).len() == 12);
    assert(vec3_bytes(camera.forward).len() == 12);
    assert(vec3_bytes(camera.right).len() == 12);
    assert(vec3_bytes(camera.up).len() == 12);
    assert(camera_bytes(camera).len() == 48);
    assert(zero_bytes((SPHERE_ARRAY_OFFSET - COUNT_OFFSET - 4) as nat).len() == 12);
}

/// Law: packing is a function of the scene alone — two packings of one
/// unchanged scene are byte-identical.
pub proof fn lemma_pack_deterministic(
    camera: Camera,
    spheres: Seq<Sphere>,
    b1: Seq<u8>,
    b2: Seq<u8>,
)
    requires
        b1 == pack_spec(camera, spheres),
        b2 == pack_spec(camera, spheres),
    ensures
        b1 == b2,
{
}

/// Slots only ever read the first `SPHERE_CAPACITY` spheres.
proof fn lemma_sphere_slots_take(spheres: Seq<Sphere>, k: nat)
    requires
        spheres.len() > SPHERE_CAPACITY,
        k <= SPHERE_CAPACITY,
    ensures
        sphere_slots(spheres, k) == sphere_slots(spheres.take(SPHERE_CAPACITY as int), k),
    decreases k,
{
    if k > 0 {
        lemma_sphere_slots_take(spheres, (k - 1) as nat);
        assert(sphere_slot(spheres, k - 1) == sphere_slot(
            spheres.take(SPHERE_CAPACITY as int),
            k - 1,
        ));
    }
}

/// Law: the capacity policy is truncation — past the record's capacity,
/// only the first `SPHERE_CAPACITY` spheres influence the record.
pub proof fn lemma_pack_truncates(camera: Camera, spheres: Seq<Sphere>)
    requires
        spheres.len() > SPHERE_CAPACITY,
    ensures
        pack_spec(camera, spheres) == pack_spec(
            camera,
            spheres.take(SPHERE_CAPACITY as int),
        ),
{
    lemma_sphere_slots_take(spheres, SPHERE_CAPACITY as nat);
}

/// Serializes a scene into the packed record and reports how many spheres
/// the capacity policy dropped. The record is always `SCENE_RECORD_BYTES`
/// bytes; a scene that exceeds `SPHERE_CAPACITY` spheres is truncated
/// deterministically to the first `SPHERE_CAPACITY`.
pub fn pack(scene: &Scene) -> (r: (Vec<u8>, usize))
    ensures
        r.0@ == pack_spec(scene.camera, scene.spheres@),
        r.0@.len() == SCENE_RECORD_BYTES,
        r.1 == dropped_count(scene.spheres@.len()),
{
    let mut out: Vec<u8> = Vec::new();
    push_vec3(&mut out, scene.camera.pos);
    push_vec3(&mut out, scene.camera.forward);
    push_vec3(&mut out, scene.camera.right);
    push_vec3(&mut out, scene.camera.up);
    proof {
        assert(out@ =~= camera_bytes(scene.camera));
    }
    let n = scene.spheres.len();
    let clamped = if n > SPHERE_CAPACITY {
        SPHERE_CAPACITY
    } else {
        n
    };
    let dropped = n - clamped;
    push_u32_le(&mut out, f32_bits_of_count(clamped));
    push_zeros(&mut out, SPHERE_ARRAY_OFFSET - COUNT_OFFSET - 4);
    let ghost header = camera_bytes(scene.camera) + u32_le_bytes(
        f32_bits_of_uint(packed_count(scene.spheres@.len())) as u32,
    ) + zero_bytes((SPHERE_ARRAY_OFFSET - COUNT_OFFSET - 4) as nat);
    proof {
        assert(out@ =~= header + sphere_slots(scene.spheres@, 0));
    }
    let mut i: usize = 0;
    while i < SPHERE_CAPACITY
        invariant
            i <= SPHERE_CAPACITY,
            out@ == header + sphere_slots(scene.spheres@, i as nat),
        decreases SPHERE_CAPACITY - i,
    {
        if i < scene.spheres.len() {
            push_sphere(&mut out, scene.spheres[i]);
        } else {
            push_zeros(&mut out, SPHERE_STRIDE);
        }
        proof {
            assert(out@ =~= header + sphere_slots(scene.spheres@, (i + 1) as nat));
        }
        i += 1;
    }
    proof {
        assert(out@ =~= pack_spec(scene.camera, scene.spheres@));
        lemma_pack_fixed_size(scene.camera, scene.spheres@);
    }
    (out, dropped)
}

} // verus!
