//! The shared record: a fixed-length byte region that one writer publishes
//! frames into and any number of readers poll.
//!
//! | offset | field |
//! |---|---|
//! | 0 | shutdown flag |
//! | 1 | active flag |
//! | 2 | skeleton-present flag |
//! | 3..5 | sync counter, a `u16` |
//! | 5.. | twenty joints, three `f32` each |
//!
//! Multi-byte values are stored in the machine's byte order; `little` in the
//! functions below says which order that is.
use crate::skeleton::{Joint, KinectSkeletonRawBones, SKELETON_BONE_COUNT};
use vstd::prelude::*;

verus! {

pub const MMAP_SHUTDOWN: usize = 0;

pub const MMAP_ACTIVE: usize = 1;

pub const MMAP_SKELETON: usize = 2;

pub const MMAP_SYNC: usize = 3;

pub const MMAP_SKELETON_BONES: usize = 5;

/// Bytes taken by one joint.
pub const JOINT_SIZE: usize = 12;

/// Length of the whole record.
pub const MMAP_FILE_SIZE: usize = MMAP_SKELETON_BONES + JOINT_SIZE * SKELETON_BONE_COUNT;

pub const MMAP_KINECT_SKELETON_NONE: u8 = 0;

pub const MMAP_KINECT_SKELETON_TRACKED: u8 = 1;

/// The `u32` whose bytes, least significant first, are `b0 .. b3`.
pub open spec fn u32_from_bytes(b0: u8, b1: u8, b2: u8, b3: u8) -> u32 {
    (b0 as u32) | ((b1 as u32) << 8u32) | ((b2 as u32) << 16u32) | ((b3 as u32) << 24u32)
}

/// The `u16` whose bytes, least significant first, are `b0, b1`.
pub open spec fn u16_from_bytes(b0: u8, b1: u8) -> u16 {
    (b0 as u16) | ((b1 as u16) << 8u16)
}

pub open spec fn u16_at(mem: Seq<u8>, off: int, little: bool) -> u16 {
    if little {
        u16_from_bytes(mem[off], mem[off + 1])
    } else {
        u16_from_bytes(mem[off + 1], mem[off])
    }
}

pub open spec fn u32_at(mem: Seq<u8>, off: int, little: bool) -> u32 {
    if little {
        u32_from_bytes(mem[off], mem[off + 1], mem[off + 2], mem[off + 3])
    } else {
        u32_from_bytes(mem[off + 3], mem[off + 2], mem[off + 1], mem[off])
    }
}

pub open spec fn joint_at(mem: Seq<u8>, off: int, little: bool) -> Joint {
    Joint { x: u32_at(mem, off, little), y: u32_at(mem, off + 4, little), z: u32_at(mem, off + 8, little) }
}

/// Offset of the joint at `i`.
pub open spec fn joint_offset(i: int) -> int {
    MMAP_SKELETON_BONES + JOINT_SIZE * i
}

/// The twenty joints that the record holds.
pub open spec fn bones_at(mem: Seq<u8>, little: bool) -> Seq<Joint> {
    Seq::new(SKELETON_BONE_COUNT as nat, |i: int| joint_at(mem, joint_offset(i), little))
}

/// The sync counter that the record holds.
pub open spec fn sync_of(mem: Seq<u8>, little: bool) -> u16 {
    u16_at(mem, MMAP_SYNC as int, little)
}

/// `a` and `b` hold the same bytes outside `[lo, hi)`.
pub open spec fn same_outside(a: Seq<u8>, b: Seq<u8>, lo: int, hi: int) -> bool {
    &&& a.len() == b.len()
    &&& forall|j: int| 0 <= j < a.len() && !(lo <= j < hi) ==> #[trigger] a[j] == b[j]
}

proof fn lemma_u32_bytes(x: u32)
    ensures
        u32_from_bytes(
            (x & 0xff) as u8,
            ((x >> 8u32) & 0xff) as u8,
            ((x >> 16u32) & 0xff) as u8,
            ((x >> 24u32) & 0xff) as u8,
        ) == x,
{
    assert(((((x & 0xff) as u8) as u32) | (((((x >> 8u32) & 0xff) as u8) as u32) << 8u32) | (
    ((((x >> 16u32) & 0xff) as u8) as u32) << 16u32) | (((((x >> 24u32) & 0xff) as u8) as u32)
        << 24u32)) == x) by (bit_vector);
}

proof fn lemma_u16_bytes(x: u16)
    ensures
        u16_from_bytes((x & 0xff) as u8, ((x >> 8u16) & 0xff) as u8) == x,
{
    assert(((((x & 0xff) as u8) as u16) | (((((x >> 8u16) & 0xff) as u8) as u16) << 8u16)) == x)
        by (bit_vector);
}

/// Stores `x` at `off` in the given byte order.
pub fn write_u16(mem: &mut [u8], off: usize, x: u16, little: bool)
    requires
        off + 2 <= old(mem)@.len(),
    ensures
        u16_at(final(mem)@, off as int, little) == x,
        same_outside(old(mem)@, final(mem)@, off as int, off + 2),
{
    let b0 = (x & 0xff) as u8;
    let b1 = ((x >> 8u16) & 0xff) as u8;
    proof {
        lemma_u16_bytes(x);
    }
    if little {
        mem[off] = b0;
        mem[off + 1] = b1;
    } else {
        mem[off] = b1;
        mem[off + 1] = b0;
    }
}

/// Loads the `u16` at `off` in the given byte order.
pub fn read_u16(mem: &[u8], off: usize, little: bool) -> (r: u16)
    requires
        off + 2 <= mem@.len(),
    ensures
        r == u16_at(mem@, off as int, little),
{
    proof {
        assert(mem@.len() == mem.len());
    }
    if little {
        (mem[off] as u16) | ((mem[off + 1] as u16) << 8u16)
    } else {
        (mem[off + 1] as u16) | ((mem[off] as u16) << 8u16)
    }
}

/// Stores `x` at `off` in the given byte order.
pub fn write_u32(mem: &mut [u8], off: usize, x: u32, little: bool)
    requires
        off + 4 <= old(mem)@.len(),
    ensures
        u32_at(final(mem)@, off as int, little) == x,
        same_outside(old(mem)@, final(mem)@, off as int, off + 4),
{
    let b0 = (x & 0xff) as u8;
    let b1 = ((x >> 8u32) & 0xff) as u8;
    let b2 = ((x >> 16u32) & 0xff) as u8;
    let b3 = ((x >> 24u32) & 0xff) as u8;
    proof {
        lemma_u32_bytes(x);
    }
    if little {
        mem[off] = b0;
        mem[off + 1] = b1;
        mem[off + 2] = b2;
        mem[off + 3] = b3;
    } else {
        mem[off] = b3;
        mem[off + 1] = b2;
        mem[off + 2] = b1;
        mem[off + 3] = b0;
    }
}

/// Loads the `u32` at `off` in the given byte order.
pub fn read_u32(mem: &[u8], off: usize, little: bool) -> (r: u32)
    requires
        off + 4 <= mem@.len(),
    ensures
        r == u32_at(mem@, off as int, little),
{
    proof {
        assert(mem@.len() == mem.len());
    }
    if little {
        (mem[off] as u32) | ((mem[off + 1] as u32) << 8u32) | ((mem[off + 2] as u32) << 16u32) | ((
        mem[off + 3] as u32) << 24u32)
    } else {
        (mem[off + 3] as u32) | ((mem[off + 2] as u32) << 8u32) | ((mem[off + 1] as u32) << 16u32)
            | ((mem[off] as u32) << 24u32)
    }
}

/// Stores one joint at `off`.
pub fn write_joint(mem: &mut [u8], off: usize, j: Joint, little: bool)
    requires
        off + JOINT_SIZE <= old(mem)@.len(),
    ensures
        joint_at(final(mem)@, off as int, little) == j,
        same_outside(old(mem)@, final(mem)@, off as int, off + JOINT_SIZE),
{
    proof {
        assert(mem@.len() == mem.len());
    }
    write_u32(mem, off, j.x, little);
    write_u32(mem, off + 4, j.y, little);
    write_u32(mem, off + 8, j.z, little);
}

/// Loads the joint at `off`.
pub fn read_joint(mem: &[u8], off: usize, little: bool) -> (r: Joint)
    requires
        off + JOINT_SIZE <= mem@.len(),
    ensures
        r == joint_at(mem@, off as int, little),
{
    proof {
        assert(mem@.len() == mem.len());
    }
    Joint {
        x: read_u32(mem, off, little),
        y: read_u32(mem, off + 4, little),
        z: read_u32(mem, off + 8, little),
    }
}

/// Stores all twenty joints in the bone area; nothing else changes.
pub fn write_bones(mem: &mut [u8], bones: &KinectSkeletonRawBones, little: bool)
    requires
        old(mem)@.len() == MMAP_FILE_SIZE,
    ensures
        bones_at(final(mem)@, little) == bones@,
        same_outside(old(mem)@, final(mem)@, MMAP_SKELETON_BONES as int, MMAP_FILE_SIZE as int),
{
    let ghost start = mem@;
    let mut i: usize = 0;
    while i < SKELETON_BONE_COUNT
        invariant
            i <= SKELETON_BONE_COUNT,
            mem@.len() == MMAP_FILE_SIZE,
            same_outside(start, mem@, MMAP_SKELETON_BONES as int, joint_offset(i as int)),
            forall|k: int| 0 <= k < i ==> joint_at(mem@, joint_offset(k), little) == bones@[k],
        decreases SKELETON_BONE_COUNT - i,
    {
        let ghost before = mem@;
        write_joint(mem, MMAP_SKELETON_BONES + JOINT_SIZE * i, bones[i], little);
        assert forall|k: int| 0 <= k < i implies joint_at(mem@, joint_offset(k), little)
            == bones@[k] by {
            let o = joint_offset(k);
            assert(joint_at(mem@, o, little) == joint_at(before, o, little));
        }
        i = i + 1;
    }
    assert(bones_at(mem@, little) =~= bones@);
}

/// Loads all twenty joints of the bone area.
pub fn read_bones(mem: &[u8], little: bool) -> (r: KinectSkeletonRawBones)
    requires
        mem@.len() == MMAP_FILE_SIZE,
    ensures
        r@ == bones_at(mem@, little),
{
    let mut r = [Joint::origin(); SKELETON_BONE_COUNT];
    let mut i: usize = 0;
    while i < SKELETON_BONE_COUNT
        invariant
            i <= SKELETON_BONE_COUNT,
            mem@.len() == MMAP_FILE_SIZE,
            r@.len() == SKELETON_BONE_COUNT,
            forall|k: int| 0 <= k < i ==> r@[k] == joint_at(mem@, joint_offset(k), little),
        decreases SKELETON_BONE_COUNT - i,
    {
        r[i] = read_joint(mem, MMAP_SKELETON_BONES + JOINT_SIZE * i, little);
        i = i + 1;
    }
    assert(r@ =~= bones_at(mem@, little));
    r
}

/// Writes outside the bone area leave the joints as they were.
pub proof fn lemma_bones_unchanged(a: Seq<u8>, b: Seq<u8>, lo: int, hi: int, little: bool)
    requires
        a.len() == MMAP_FILE_SIZE,
        same_outside(a, b, lo, hi),
        hi <= MMAP_SKELETON_BONES,
    ensures
        bones_at(a, little) == bones_at(b, little),
{
    assert forall|i: int| 0 <= i < SKELETON_BONE_COUNT implies #[trigger] joint_at(a, joint_offset(i), little)
        == joint_at(b, joint_offset(i), little) by {}
    assert(bones_at(a, little) =~= bones_at(b, little));
}

} // verus!
