//! The staged image-upload protocol: row-pitch arithmetic, the layout of a
//! row-padded staging buffer, and the fixed barrier/copy/barrier command
//! sequence that moves the staging bytes into a device-local image.

use vstd::prelude::*;

verus! {

/// The smallest multiple of `align` that is at least `row`.
pub open spec fn spec_row_pitch(row: int, align: int) -> int
    recommends
        align >= 1,
{
    ((row + align - 1) / align) * align
}

/// Round a tightly packed row size up to the device's minimum
/// buffer-copy-pitch alignment. The result is the least `align`-multiple
/// that holds a full row, so a staging buffer laid out with this pitch can
/// be copied row by row without the rows overlapping.
pub fn row_pitch(row_size: usize, align: usize) -> (pitch: usize)
    requires
        align >= 1,
        row_size + align - 1 <= usize::MAX,
    ensures
        pitch == spec_row_pitch(row_size as int, align as int),
        pitch >= row_size,
        pitch % align == 0,
        pitch < row_size + align,
        forall|q: int| q >= row_size && #[trigger] (q % (align as int)) == 0 ==> pitch <= q,
{
    let d = (row_size + (align - 1)) / align;
    proof {
        lemma_row_pitch_bounds(row_size as int, align as int);
    }
    d * align
}

/// The defining properties of `spec_row_pitch`: it is an aligned value, no
/// smaller than the row, and the least such value.
pub proof fn lemma_row_pitch_bounds(row: int, align: int)
    requires
        row >= 0,
        align >= 1,
    ensures
        spec_row_pitch(row, align) >= row,
        spec_row_pitch(row, align) % align == 0,
        spec_row_pitch(row, align) < row + align,
        forall|q: int| q >= row && #[trigger] (q % align) == 0 ==> spec_row_pitch(row, align) <= q,
{
    let d = (row + align - 1) / align;
    vstd::arithmetic::div_mod::lemma_fundamental_div_mod(row + align - 1, align);
    vstd::arithmetic::div_mod::lemma_mod_bound(row + align - 1, align);
    assert(d * align % align == 0) by {
        vstd::arithmetic::div_mod::lemma_mod_multiples_basic(d, align);
    }
    assert forall|q: int| q >= row && #[trigger] (q % align) == 0 implies d * align <= q by {
        let k = q / align;
        vstd::arithmetic::div_mod::lemma_fundamental_div_mod(q, align);
        assert(q == k * align);
        assert(k >= d) by {
            if k < d {
                assert(k <= d - 1);
                assert(k * align <= d * align - align) by (nonlinear_arith)
                    requires
                        k <= d - 1,
                        align >= 1,
                ;
                assert(d * align >= row + align - 1 - (align - 1));
                assert(d * align <= row + align - 1);
                assert(q < row);
            }
        }
        assert(d * align <= k * align) by (nonlinear_arith)
            requires
                d <= k,
                align >= 1,
        ;
    }
}

/// Rounding an already aligned value changes nothing; in particular the
/// computation is idempotent.
pub proof fn lemma_row_pitch_idempotent(row: int, align: int)
    requires
        row >= 0,
        align >= 1,
    ensures
        spec_row_pitch(spec_row_pitch(row, align), align) == spec_row_pitch(row, align),
{
    lemma_row_pitch_bounds(row, align);
    let p = spec_row_pitch(row, align);
    lemma_row_pitch_bounds(p, align);
    assert(spec_row_pitch(p, align) <= p);
}

/// The resolved layout of one staged upload: the tightly packed row size,
/// the padded row pitch, the staging buffer's byte size, and the copy
/// width in texels that the buffer-to-image copy is recorded with.
#[derive(Clone, Copy, Debug, PartialEq, Eq, Structural)]
pub struct UploadPlan {
    pub row_size: usize,
    pub row_pitch: usize,
    pub staging_size: usize,
    pub buffer_width_texels: usize,
}

/// Resolve the layout of a staged upload of a `width` x `height` image
/// with `bytes_per_pixel`-byte texels, on a device whose minimum
/// buffer-copy-pitch alignment is `pitch_align`. The pitch may exceed the
/// packed row size, in which case the staging buffer must be filled row
/// by row rather than in one bulk copy.
pub fn plan_image_upload(
    width: usize,
    height: usize,
    bytes_per_pixel: usize,
    pitch_align: usize,
) -> (plan: UploadPlan)
    requires
        bytes_per_pixel >= 1,
        pitch_align >= 1,
        width * bytes_per_pixel + pitch_align - 1 <= usize::MAX,
        spec_row_pitch((width * bytes_per_pixel) as int, pitch_align as int) * height
            <= usize::MAX,
    ensures
        plan.row_size == width * bytes_per_pixel,
        plan.row_pitch == spec_row_pitch(plan.row_size as int, pitch_align as int),
        plan.row_pitch >= plan.row_size,
        plan.row_pitch % pitch_align == 0,
        plan.staging_size == plan.row_pitch * height,
        plan.buffer_width_texels == plan.row_pitch / bytes_per_pixel,
{
    let row_size = width * bytes_per_pixel;
    let pitch = row_pitch(row_size, pitch_align);
    proof {
        assert(pitch * height <= usize::MAX);
    }
    UploadPlan {
        row_size,
        row_pitch: pitch,
        staging_size: pitch * height,
        buffer_width_texels: pitch / bytes_per_pixel,
    }
}

/// The byte that position `i` of a row-padded staging buffer holds: the
/// matching pixel byte inside a row, and zero in the padding that the
/// pitch adds after each row.
pub open spec fn spec_staging_byte(pixels: Seq<u8>, row_size: int, pitch: int, i: int) -> u8
    recommends
        pitch >= 1,
{
    if i % pitch < row_size {
        pixels[(i / pitch) * row_size + (i % pitch)]
    } else {
        0u8
    }
}

/// The byte that belongs at position `i` of the staging buffer.
fn staging_byte_at(pixels: &Vec<u8>, row_size: usize, height: usize, pitch: usize, i: usize) -> (b:
    u8)
    requires
        pixels@.len() == row_size * height,
        row_size <= pitch,
        pitch >= 1,
        i < pitch * height,
        row_size * height <= usize::MAX,
    ensures
        b == spec_staging_byte(pixels@, row_size as int, pitch as int, i as int),
{
    let y = i / pitch;
    let x = i % pitch;
    proof {
        vstd::arithmetic::div_mod::lemma_fundamental_div_mod(i as int, pitch as int);
        vstd::arithmetic::div_mod::lemma_mod_bound(i as int, pitch as int);
        assert(y < height) by {
            if y as int >= height as int {
                vstd::arithmetic::mul::lemma_mul_inequality(
                    height as int,
                    y as int,
                    pitch as int,
                );
                vstd::arithmetic::mul::lemma_mul_is_commutative(height as int, pitch as int);
                vstd::arithmetic::mul::lemma_mul_is_commutative(y as int, pitch as int);
            }
        }
    }
    if x < row_size {
        proof {
            assert((y as int) * (row_size as int) + (x as int) < (row_size as int) * (height
                as int)) by (nonlinear_arith)
                requires
                    (y as int) < (height as int),
                    (x as int) < (row_size as int),
                    0 <= (x as int),
                    0 <= (y as int),
            ;
        }
        pixels[y * row_size + x]
    } else {
        0u8
    }
}

/// Lay the packed pixel rows out at their padded offsets: row `y` of the
/// result starts at byte `y * pitch`, holds the `row_size` pixel bytes of
/// source row `y`, and is zero-filled up to the pitch.
pub fn pack_rows(pixels: &Vec<u8>, row_size: usize, height: usize, pitch: usize) -> (out: Vec<u8>)
    requires
        pixels@.len() == row_size * height,
        row_size <= pitch,
        pitch >= 1,
        pitch * height <= usize::MAX,
    ensures
        out@.len() == pitch * height,
        forall|i: int|
            0 <= i < out@.len() ==> out@[i] == spec_staging_byte(
                pixels@,
                row_size as int,
                pitch as int,
                i,
            ),
{
    proof {
        vstd::arithmetic::mul::lemma_mul_inequality(row_size as int, pitch as int, height as int);
        vstd::arithmetic::mul::lemma_mul_is_commutative(row_size as int, height as int);
        vstd::arithmetic::mul::lemma_mul_is_commutative(pitch as int, height as int);
    }
    let total = pitch * height;
    let mut out: Vec<u8> = Vec::new();
    let mut i: usize = 0;
    while i < total
        invariant
            pixels@.len() == row_size * height,
            row_size <= pitch,
            pitch >= 1,
            total == pitch * height,
            row_size * height <= usize::MAX,
            i <= total,
            out@.len() == i,
            forall|j: int|
                0 <= j < i ==> out@[j] == spec_staging_byte(
                    pixels@,
                    row_size as int,
                    pitch as int,
                    j,
                ),
        decreases total - i,
    {
        let b = staging_byte_at(pixels, row_size, height, pitch, i);
        out.push(b);
        i = i + 1;
    }
    out
}

/// Recover the row-and-column form of the staging layout: inside row `y`,
/// byte `x` of the padded row is pixel byte `x` of packed row `y` when
/// `x` lies in the row, and zero in the padding after it.
pub proof fn lemma_staging_byte_addressing(
    pixels: Seq<u8>,
    row_size: int,
    pitch: int,
    y: int,
    x: int,
)
    requires
        pitch >= 1,
        row_size <= pitch,
        y >= 0,
        0 <= x < pitch,
    ensures
        x < row_size ==> spec_staging_byte(pixels, row_size, pitch, y * pitch + x) == pixels[y
            * row_size + x],
        x >= row_size ==> spec_staging_byte(pixels, row_size, pitch, y * pitch + x) == 0u8,
{
    vstd::arithmetic::div_mod::lemma_fundamental_div_mod_converse(y * pitch + x, pitch, y, x);
}

/// One step of the synchronous upload protocol, in the order the one-shot
/// command buffer records and the host then completes it.
#[derive(Clone, Copy, Debug, PartialEq, Eq, Structural)]
pub enum UploadStep {
    /// Barrier: undefined layout, no access, to transfer-destination
    /// layout with transfer-write access.
    BarrierToTransferDst,
    /// Copy the staging buffer into the image, row pitch respected.
    CopyStagingToImage,
    /// Barrier: transfer-destination layout to shader-read-only layout
    /// with shader-read access.
    BarrierToShaderRead,
    /// Submit the one-shot command buffer with a dedicated fence.
    SubmitWithFence,
    /// Block until the dedicated fence signals.
    WaitUploadFence,
    /// Destroy the dedicated fence.
    DestroyUploadFence,
    /// Destroy the staging buffer and free its memory.
    DestroyStagingBuffer,
    /// Free the one-shot command buffer.
    FreeUploadCommandBuffer,
}

/// The fixed upload schedule. Both barriers are mandatory: without the
/// first, the copy races the image's undefined prior state; without the
/// second, shader sampling races the copy. The wait makes the upload
/// synchronous by design, so the staging buffer is dead once this
/// sequence ends.
pub fn upload_schedule() -> (steps: Vec<UploadStep>)
    ensures
        steps@ =~= seq![
            UploadStep::BarrierToTransferDst,
            UploadStep::CopyStagingToImage,
            UploadStep::BarrierToShaderRead,
            UploadStep::SubmitWithFence,
            UploadStep::WaitUploadFence,
            UploadStep::DestroyUploadFence,
            UploadStep::DestroyStagingBuffer,
            UploadStep::FreeUploadCommandBuffer,
        ],
{
    let mut steps: Vec<UploadStep> = Vec::new();
    steps.push(UploadStep::BarrierToTransferDst);
    steps.push(UploadStep::CopyStagingToImage);
    steps.push(UploadStep::BarrierToShaderRead);
    steps.push(UploadStep::SubmitWithFence);
    steps.push(UploadStep::WaitUploadFence);
    steps.push(UploadStep::DestroyUploadFence);
    steps.push(UploadStep::DestroyStagingBuffer);
    steps.push(UploadStep::FreeUploadCommandBuffer);
    steps
}

} // verus!
