use frame_engine::errors::SetupError;
use frame_engine::memory::{
    find_memory_type, plan_buffer_allocation, MemoryRequirements, MemoryTypeInfo, Visibility,
    MEMORY_COHERENT, MEMORY_CPU_VISIBLE, MEMORY_DEVICE_LOCAL,
};
use frame_engine::upload::{pack_rows, plan_image_upload, row_pitch, upload_schedule, UploadStep};

#[test]
fn memory_type_first_match_wins() {
    let types = vec![
        MemoryTypeInfo { properties: MEMORY_DEVICE_LOCAL },
        MemoryTypeInfo { properties: MEMORY_CPU_VISIBLE | MEMORY_COHERENT },
        MemoryTypeInfo { properties: MEMORY_CPU_VISIBLE },
    ];
    // All three types admitted by the mask: the first CPU-visible one wins.
    assert_eq!(find_memory_type(&types, 0b111, MEMORY_CPU_VISIBLE), Some(1));
    assert_eq!(find_memory_type(&types, 0b111, MEMORY_DEVICE_LOCAL), Some(0));
}

#[test]
fn memory_type_mask_excludes_types() {
    let types = vec![
        MemoryTypeInfo { properties: MEMORY_CPU_VISIBLE },
        MemoryTypeInfo { properties: MEMORY_CPU_VISIBLE },
    ];
    // The mask admits only index 1, so index 0 must not be picked.
    assert_eq!(find_memory_type(&types, 0b10, MEMORY_CPU_VISIBLE), Some(1));
    // The mask admits only index 0 but its properties are wrong: fail,
    // never silently pick an incompatible type.
    let types = vec![
        MemoryTypeInfo { properties: MEMORY_DEVICE_LOCAL },
        MemoryTypeInfo { properties: MEMORY_CPU_VISIBLE },
    ];
    assert_eq!(find_memory_type(&types, 0b01, MEMORY_CPU_VISIBLE), None);
}

#[test]
fn allocation_plan_carries_size_and_fails_loudly() {
    let types = vec![
        MemoryTypeInfo { properties: MEMORY_DEVICE_LOCAL },
        MemoryTypeInfo { properties: MEMORY_CPU_VISIBLE | MEMORY_COHERENT },
    ];
    let req = MemoryRequirements { size: 4096, alignment: 256, type_mask: 0b11 };
    let plan = plan_buffer_allocation(&req, &types, Visibility::CpuVisible).unwrap();
    assert_eq!(plan.memory_type_index, 1);
    assert_eq!(plan.size, 4096);
    let gpu_only = vec![MemoryTypeInfo { properties: MEMORY_DEVICE_LOCAL }];
    assert_eq!(
        plan_buffer_allocation(&req, &gpu_only, Visibility::CpuVisible),
        Err(SetupError::NoCompatibleMemoryType)
    );
}

#[test]
fn row_pitch_rounds_up_to_alignment() {
    assert_eq!(row_pitch(256, 256), 256);
    assert_eq!(row_pitch(257, 256), 512);
    assert_eq!(row_pitch(1, 256), 256);
    assert_eq!(row_pitch(0, 64), 0);
    assert_eq!(row_pitch(100, 1), 100);
}

#[test]
fn row_pitch_is_idempotent() {
    let p = row_pitch(1000, 128);
    assert_eq!(p, 1024);
    assert_eq!(row_pitch(p, 128), p);
}

#[test]
fn upload_plan_for_a_small_image() {
    // 100 texels of 4 bytes: 400-byte rows padded to a 256-byte pitch.
    let plan = plan_image_upload(100, 2, 4, 256);
    assert_eq!(plan.row_size, 400);
    assert_eq!(plan.row_pitch, 512);
    assert_eq!(plan.staging_size, 1024);
    assert_eq!(plan.buffer_width_texels, 128);
}

#[test]
fn pack_rows_places_rows_at_padded_offsets() {
    let pixels = vec![1u8, 2, 3, 4, 5, 6, 7, 8];
    let out = pack_rows(&pixels, 4, 2, 6);
    assert_eq!(out.len(), 12);
    assert_eq!(&out[0..4], &[1, 2, 3, 4]);
    assert_eq!(&out[4..6], &[0, 0]);
    assert_eq!(&out[6..10], &[5, 6, 7, 8]);
    assert_eq!(&out[10..12], &[0, 0]);
}

#[test]
fn pack_rows_with_tight_pitch_copies_verbatim() {
    let pixels = vec![9u8, 8, 7, 6];
    let out = pack_rows(&pixels, 2, 2, 2);
    assert_eq!(out, pixels);
}

#[test]
fn upload_schedule_keeps_both_barriers_around_the_copy() {
    let steps = upload_schedule();
    assert_eq!(
        steps,
        vec![
            UploadStep::BarrierToTransferDst,
            UploadStep::CopyStagingToImage,
            UploadStep::BarrierToShaderRead,
            UploadStep::SubmitWithFence,
            UploadStep::WaitUploadFence,
            UploadStep::DestroyUploadFence,
            UploadStep::DestroyStagingBuffer,
            UploadStep::FreeUploadCommandBuffer,
        ]
    );
}
