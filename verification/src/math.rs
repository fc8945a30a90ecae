//! Bit-pattern scalar, vector and matrix types, and the trusted arithmetic
//! on them.
//!
//! Every scalar is the raw bit pattern of a 32-bit IEEE-754 value, carried
//! as a `u32`.  The arithmetic that produces new bit patterns is delegated
//! to `glam` and to the host float unit behind trusted wrappers; each such
//! result is named by an uninterpreted spec function of the operand bits, so
//! that the logic built on top of these operations is verified exactly.

use vstd::prelude::*;

verus! {

/// Bit pattern of the IEEE-754 single-precision value one.
pub const F32_ONE_BITS: u32 = 0x3F80_0000;

/// Bit pattern of the IEEE-754 single-precision value one half.
pub const F32_HALF_BITS: u32 = 0x3F00_0000;

/// Bit pattern of the IEEE-754 single-precision value minus one half.
pub const F32_NEG_HALF_BITS: u32 = 0xBF00_0000;

/// A three-component vector of 32-bit float bit patterns.
#[derive(Clone, Copy, Debug, PartialEq, Eq, Structural)]
pub struct Vec3Bits {
    pub x: u32,
    pub y: u32,
    pub z: u32,
}

impl View for Vec3Bits {
    type V = Seq<u32>;

    open spec fn view(&self) -> Seq<u32> {
        seq![self.x, self.y, self.z]
    }
}

impl Vec3Bits {
    /// The zero vector: every component is the bit pattern of positive zero.
    pub fn zero() -> (r: Vec3Bits)
        ensures
            r == (Vec3Bits { x: 0u32, y: 0u32, z: 0u32 }),
    {
        Vec3Bits { x: 0, y: 0, z: 0 }
    }
}

/// A 4x4 matrix of 32-bit float bit patterns in column-major order:
/// entry `4 * c + r` is row `r` of column `c`.
#[derive(Clone, Copy, Debug, PartialEq, Eq)]
pub struct Mat4Bits {
    pub entries: [u32; 16],
}

impl View for Mat4Bits {
    type V = Seq<u32>;

    open spec fn view(&self) -> Seq<u32> {
        self.entries@
    }
}

/// The column-major bit patterns of the identity matrix.
pub open spec fn spec_identity_bits() -> Seq<u32> {
    seq![
        F32_ONE_BITS, 0u32, 0u32, 0u32,
        0u32, F32_ONE_BITS, 0u32, 0u32,
        0u32, 0u32, F32_ONE_BITS, 0u32,
        0u32, 0u32, 0u32, F32_ONE_BITS,
    ]
}

/// The column-major bit patterns of the fixed depth-range remap matrix that
/// scales and biases Z from the [-1,1] convention to the [0,1] convention of
/// the target graphics backend.
pub open spec fn spec_depth_remap_bits() -> Seq<u32> {
    seq![
        F32_ONE_BITS, 0u32, 0u32, 0u32,
        0u32, F32_ONE_BITS, 0u32, 0u32,
        0u32, 0u32, F32_HALF_BITS, 0u32,
        0u32, 0u32, F32_HALF_BITS, F32_ONE_BITS,
    ]
}

/// The identity matrix.
pub fn identity_matrix() -> (r: Mat4Bits)
    ensures
        r@ == spec_identity_bits(),
{
    let r = Mat4Bits {
        entries: [
            F32_ONE_BITS, 0, 0, 0,
            0, F32_ONE_BITS, 0, 0,
            0, 0, F32_ONE_BITS, 0,
            0, 0, 0, F32_ONE_BITS,
        ],
    };
    proof {
        assert(r@ =~= spec_identity_bits());
    }
    r
}

/// The fixed depth-range remap matrix.
pub fn depth_remap_matrix() -> (r: Mat4Bits)
    ensures
        r@ == spec_depth_remap_bits(),
{
    let r = Mat4Bits {
        entries: [
            F32_ONE_BITS, 0, 0, 0,
            0, F32_ONE_BITS, 0, 0,
            0, 0, F32_HALF_BITS, 0,
            0, 0, F32_HALF_BITS, F32_ONE_BITS,
        ],
    };
    proof {
        assert(r@ =~= spec_depth_remap_bits());
    }
    r
}

/// The bit pattern that `f32::to_radians` returns for the given bit pattern
/// of a value in degrees.
pub uninterp spec fn radians_of(degrees: u32) -> u32;

/// The column-major bit patterns of the right-handed view matrix that
/// `glam::Mat4::look_at_rh` builds from an eye position, a focal point and
/// an up direction.
pub uninterp spec fn look_at_rh_of(eye: Seq<u32>, center: Seq<u32>, up: Seq<u32>) -> Seq<u32>;

/// The column-major bit patterns of the right-handed perspective projection
/// with [0,1] depth range that `glam::Mat4::perspective_rh` builds.
pub uninterp spec fn perspective_rh_of(
    fov_y_radians: u32,
    aspect_ratio: u32,
    z_near: u32,
    z_far: u32,
) -> Seq<u32>;

/// The column-major bit patterns of the product of two column-major
/// matrices, as glam's `Mat4` multiplication computes it.
pub uninterp spec fn mat4_mul_of(lhs: Seq<u32>, rhs: Seq<u32>) -> Seq<u32>;

/// The bit pattern of the IEEE-754 sum of two 32-bit floats.
pub uninterp spec fn f32_add_of(lhs: u32, rhs: u32) -> u32;

/// The bit pattern of the IEEE-754 difference of two 32-bit floats.
pub uninterp spec fn f32_sub_of(lhs: u32, rhs: u32) -> u32;

/// The bit pattern of the IEEE-754 product of two 32-bit floats.
pub uninterp spec fn f32_mul_of(lhs: u32, rhs: u32) -> u32;

/// Relies on `f32::to_radians`: converts a value in degrees to radians; the
/// result depends on the argument bits alone.
#[verifier::external_body]
pub fn degrees_to_radians(degrees: u32) -> (r: u32)
    ensures
        r == radians_of(degrees),
{
    let v: glam::Vec3 = bytemuck::cast([degrees, 0u32, 0u32]);
    v.x.to_radians().to_bits()
}

/// Relies on `glam::Mat4::look_at_rh`: builds a right-handed view matrix
/// from an eye position, a focal point and an up direction; the column-major
/// result depends on the argument bits alone.
#[verifier::external_body]
pub fn look_at_rh(eye: &Vec3Bits, center: &Vec3Bits, up: &Vec3Bits) -> (r: Mat4Bits)
    ensures
        r@ == look_at_rh_of(eye@, center@, up@),
{
    let e: glam::Vec3 = bytemuck::cast([eye.x, eye.y, eye.z]);
    let c: glam::Vec3 = bytemuck::cast([center.x, center.y, center.z]);
    let u: glam::Vec3 = bytemuck::cast([up.x, up.y, up.z]);
    Mat4Bits { entries: bytemuck::cast(glam::Mat4::look_at_rh(e, c, u)) }
}

/// Relies on `glam::Mat4::perspective_rh`: builds a right-handed perspective
/// projection with [0,1] depth range; the column-major result depends on the
/// argument bits alone.
#[verifier::external_body]
pub fn perspective_rh(fov_y_radians: u32, aspect_ratio: u32, z_near: u32, z_far: u32) -> (r:
    Mat4Bits)
    ensures
        r@ == perspective_rh_of(fov_y_radians, aspect_ratio, z_near, z_far),
{
    let p: glam::Vec4 = bytemuck::cast([fov_y_radians, aspect_ratio, z_near, z_far]);
    let a = p.to_array();
    Mat4Bits { entries: bytemuck::cast(glam::Mat4::perspective_rh(a[0], a[1], a[2], a[3])) }
}

/// Relies on glam's `Mat4` multiplication: the column-major product of two
/// column-major matrices; the result depends on the argument bits alone.
#[verifier::external_body]
pub fn mat4_mul(lhs: &Mat4Bits, rhs: &Mat4Bits) -> (r: Mat4Bits)
    ensures
        r@ == mat4_mul_of(lhs@, rhs@),
{
    let a: glam::Mat4 = bytemuck::cast(lhs.entries);
    let b: glam::Mat4 = bytemuck::cast(rhs.entries);
    Mat4Bits { entries: bytemuck::cast(a * b) }
}

/// Relies on the IEEE-754 addition of `f32`: the sum's bit pattern depends
/// on the operand bits alone.
#[verifier::external_body]
pub fn f32_add(lhs: u32, rhs: u32) -> (r: u32)
    ensures
        r == f32_add_of(lhs, rhs),
{
    let v: glam::Vec2 = bytemuck::cast([lhs, rhs]);
    (v.x + v.y).to_bits()
}

/// Relies on the IEEE-754 subtraction of `f32`: the difference's bit pattern
/// depends on the operand bits alone.
#[verifier::external_body]
pub fn f32_sub(lhs: u32, rhs: u32) -> (r: u32)
    ensures
        r == f32_sub_of(lhs, rhs),
{
    let v: glam::Vec2 = bytemuck::cast([lhs, rhs]);
    (v.x - v.y).to_bits()
}

/// Relies on the IEEE-754 multiplication of `f32`: the product's bit pattern
/// depends on the operand bits alone.
#[verifier::external_body]
pub fn f32_mul(lhs: u32, rhs: u32) -> (r: u32)
    ensures
        r == f32_mul_of(lhs, rhs),
{
    let v: glam::Vec2 = bytemuck::cast([lhs, rhs]);
    (v.x * v.y).to_bits()
}

/// The little-endian bytes of one 32-bit word.
pub open spec fn spec_word_bytes(w: u32) -> Seq<u8> {
    seq![
        (w & 0xFF) as u8,
        ((w >> 8) & 0xFF) as u8,
        ((w >> 16) & 0xFF) as u8,
        ((w >> 24) & 0xFF) as u8,
    ]
}

/// The little-endian bytes of a sequence of 32-bit words, in order.
pub open spec fn spec_words_bytes(words: Seq<u32>) -> Seq<u8>
    decreases words.len(),
{
    if words.len() == 0 {
        Seq::<u8>::empty()
    } else {
        spec_word_bytes(words[0]) + spec_words_bytes(words.drop_first())
    }
}

/// Appends the four little-endian bytes of `w` to `out`.
pub fn push_word_bytes(out: &mut Vec<u8>, w: u32)
    ensures
        final(out)@ == old(out)@ + spec_word_bytes(w),
{
    out.push((w & 0xFF) as u8);
    out.push(((w >> 8) & 0xFF) as u8);
    out.push(((w >> 16) & 0xFF) as u8);
    out.push(((w >> 24) & 0xFF) as u8);
}

/// The serialized form of a matrix: its sixteen words as little-endian
/// bytes, in column-major order.
pub open spec fn spec_matrix_bytes(m: Seq<u32>) -> Seq<u8> {
    spec_words_bytes(m)
}

/// Serializes a matrix to its column-major little-endian bytes.
pub fn matrix_bytes(m: &Mat4Bits) -> (r: Vec<u8>)
    ensures
        r@ == spec_matrix_bytes(m@),
{
    let mut out: Vec<u8> = Vec::new();
    let mut i: usize = 0;
    while i < 16
        invariant
            i <= 16,
            out@ == spec_words_bytes(m@.take(i as int)),
        decreases 16 - i,
    {
        proof {
            lemma_words_bytes_take_step(m@, i as int);
        }
        push_word_bytes(&mut out, m.entries[i]);
        i = i + 1;
    }
    proof {
        assert(m@.take(16) =~= m@);
    }
    out
}

/// Serializing one more word appends that word's bytes.
proof fn lemma_words_bytes_take_step(words: Seq<u32>, i: int)
    requires
        0 <= i < words.len(),
    ensures
        spec_words_bytes(words.take(i + 1)) == spec_words_bytes(words.take(i)) + spec_word_bytes(
            words[i],
        ),
    decreases i,
{
    let a = words.take(i + 1);
    let b = words.take(i);
    assert(a.len() == i + 1);
    assert(spec_words_bytes(Seq::<u32>::empty()) == Seq::<u8>::empty());
    if i == 0 {
        assert(b.len() == 0);
        assert(b =~= Seq::<u32>::empty());
        assert(a.drop_first() =~= Seq::<u32>::empty());
        assert(spec_words_bytes(a) == spec_word_bytes(a[0]) + spec_words_bytes(a.drop_first()));
        assert(a[0] == words[0]);
        assert(spec_words_bytes(a) =~= spec_words_bytes(b) + spec_word_bytes(words[0]));
    } else {
        let d = words.drop_first();
        lemma_words_bytes_take_step(d, i - 1);
        assert(a.drop_first() =~= d.take(i));
        assert(b.drop_first() =~= d.take(i - 1));
        assert(spec_words_bytes(a) == spec_word_bytes(a[0]) + spec_words_bytes(d.take(i)));
        assert(spec_words_bytes(b) == spec_word_bytes(b[0]) + spec_words_bytes(d.take(i - 1)));
        assert(d[i - 1] == words[i]);
        assert(a[0] == words[0] && b[0] == words[0]);
        assert(spec_words_bytes(d.take(i)) == spec_words_bytes(d.take(i - 1)) + spec_word_bytes(d[i - 1]));
        assert(spec_words_bytes(a) =~= spec_words_bytes(b) + spec_word_bytes(words[i]));
    }
}

} // verus!
