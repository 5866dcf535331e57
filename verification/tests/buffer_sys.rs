use std::sync::Arc;

use vulkano::buffer::alignment::widen_alignment;
use vulkano::buffer::sys::is_success_or_oom;
use vulkano::buffer::sys::Binding;
use vulkano::buffer::sys::BufferCreationError;
use vulkano::buffer::sys::SparseLevel;
use vulkano::buffer::sys::UnsafeBuffer;
use vulkano::buffer::BufferUsage;
use vulkano::device::Device;
use vulkano::device::DeviceOwned;
use vulkano::device::Features;
use vulkano::device::Limits;
use vulkano::memory::DeviceMemory;
use vulkano::memory::MemoryRequirements;
use vulkano::sync::Sharing;
use vulkano::vk;
use vulkano::OomError;
use vulkano::VulkanObject;

fn limits() -> Limits {
    Limits {
        min_texel_buffer_offset_alignment: 64,
        min_uniform_buffer_offset_alignment: 256,
        min_storage_buffer_offset_alignment: 32,
    }
}

fn device_with(features: Features) -> Arc<Device> {
    Arc::new(Device::new(0x1000, features, limits()))
}

fn sparse_binding_only() -> Features {
    Features { sparse_binding: true, ..Features::none() }
}

fn reported(size: u64) -> vk::MemoryRequirements {
    vk::MemoryRequirements { size, alignment: 16, memory_type_bits: 0b1011 }
}

fn buffer_on(device: Arc<Device>, size: usize, usage: BufferUsage) -> UnsafeBuffer {
    let pending =
        UnsafeBuffer::new(device, size, usage, Sharing::Exclusive, SparseLevel::none()).unwrap();
    let answer = reported(size as u64);
    assert!(pending.accepts(vk::SUCCESS, &answer));
    pending.finish(vk::SUCCESS, 7, answer).unwrap().0
}

#[test]
fn create() {
    let device = device_with(Features::none());
    let pending = UnsafeBuffer::new(
        device.clone(),
        128,
        BufferUsage::all(),
        Sharing::Exclusive,
        SparseLevel::none(),
    )
    .unwrap();
    let (buf, reqs) = pending.finish(vk::SUCCESS, 7, reported(128)).unwrap();

    assert!(reqs.size >= 128);
    assert_eq!(buf.size(), 128);
    assert!(Arc::ptr_eq(buf.device(), &device));
}

#[test]
#[should_panic(expected = "Can't enable sparse residency without enabling sparse binding as well")]
fn panic_wrong_sparse_residency() {
    let device = device_with(Features::none());
    let sparse = SparseLevel { sparse: false, sparse_residency: true, sparse_aliased: false };
    assert!(
        sparse.is_consistent(),
        "Can't enable sparse residency without enabling sparse binding as well"
    );
    let _ = UnsafeBuffer::new(device, 128, BufferUsage::all(), Sharing::Exclusive, sparse);
}

#[test]
#[should_panic(expected = "Can't enable sparse aliasing without enabling sparse binding as well")]
fn panic_wrong_sparse_aliased() {
    let device = device_with(Features::none());
    let sparse = SparseLevel { sparse: false, sparse_residency: false, sparse_aliased: true };
    assert!(
        sparse.is_consistent(),
        "Can't enable sparse aliasing without enabling sparse binding as well"
    );
    let _ = UnsafeBuffer::new(device, 128, BufferUsage::all(), Sharing::Exclusive, sparse);
}

#[test]
fn missing_feature_sparse_binding() {
    let device = device_with(Features::none());
    let sparse = SparseLevel { sparse: true, sparse_residency: false, sparse_aliased: false };
    match UnsafeBuffer::new(device, 128, BufferUsage::all(), Sharing::Exclusive, sparse) {
        Err(BufferCreationError::SparseBindingFeatureNotEnabled) => (),
        _ => panic!(),
    }
}

#[test]
fn missing_feature_sparse_residency() {
    let device = device_with(sparse_binding_only());
    let sparse = SparseLevel { sparse: true, sparse_residency: true, sparse_aliased: false };
    match UnsafeBuffer::new(device, 128, BufferUsage::all(), Sharing::Exclusive, sparse) {
        Err(BufferCreationError::SparseResidencyBufferFeatureNotEnabled) => (),
        _ => panic!(),
    }
}

#[test]
fn missing_feature_sparse_aliased() {
    let device = device_with(sparse_binding_only());
    let sparse = SparseLevel { sparse: true, sparse_residency: false, sparse_aliased: true };
    match UnsafeBuffer::new(device, 128, BufferUsage::all(), Sharing::Exclusive, sparse) {
        Err(BufferCreationError::SparseResidencyAliasedFeatureNotEnabled) => (),
        _ => panic!(),
    }
}

#[test]
fn missing_binding_is_named_before_the_other_parts() {
    let device = device_with(Features::none());
    let sparse = SparseLevel { sparse: true, sparse_residency: true, sparse_aliased: true };
    match UnsafeBuffer::new(device, 128, BufferUsage::all(), Sharing::Exclusive, sparse) {
        Err(BufferCreationError::SparseBindingFeatureNotEnabled) => (),
        _ => panic!(),
    }
}

#[test]
fn missing_residency_is_named_before_aliasing() {
    let device = device_with(sparse_binding_only());
    let sparse = SparseLevel { sparse: true, sparse_residency: true, sparse_aliased: true };
    match UnsafeBuffer::new(device, 128, BufferUsage::all(), Sharing::Exclusive, sparse) {
        Err(BufferCreationError::SparseResidencyBufferFeatureNotEnabled) => (),
        _ => panic!(),
    }
}

#[test]
fn all_sparse_features_enabled_is_accepted() {
    let device = device_with(Features::all());
    let sparse = SparseLevel { sparse: true, sparse_residency: true, sparse_aliased: true };
    let pending =
        UnsafeBuffer::new(device, 128, BufferUsage::all(), Sharing::Exclusive, sparse).unwrap();
    assert_eq!(pending.create_info().flags, 0x7);
}

#[test]
fn not_sparse_is_never_refused_for_a_feature() {
    for features in [Features::none(), sparse_binding_only(), Features::all()] {
        let device = device_with(features);
        assert!(UnsafeBuffer::new(
            device,
            1,
            BufferUsage::none(),
            Sharing::Exclusive,
            SparseLevel::none()
        )
        .is_ok());
    }
}

#[test]
fn sparse_level_none_asks_for_nothing() {
    let none = SparseLevel::none();
    assert!(!none.sparse);
    assert!(!none.sparse_residency);
    assert!(!none.sparse_aliased);
    assert!(none.is_consistent());
    assert_eq!(none.to_flags(), 0);
}

#[test]
fn sparse_level_consistency() {
    let level = |sparse, sparse_residency, sparse_aliased| SparseLevel {
        sparse,
        sparse_residency,
        sparse_aliased,
    };
    assert!(level(true, false, false).is_consistent());
    assert!(level(true, true, false).is_consistent());
    assert!(level(true, false, true).is_consistent());
    assert!(level(true, true, true).is_consistent());
    assert!(!level(false, true, false).is_consistent());
    assert!(!level(false, false, true).is_consistent());
    assert!(!level(false, true, true).is_consistent());
}

#[test]
fn sparse_level_flags() {
    let level = |sparse, sparse_residency, sparse_aliased| SparseLevel {
        sparse,
        sparse_residency,
        sparse_aliased,
    };
    assert_eq!(level(true, false, false).to_flags(), 0x1);
    assert_eq!(level(true, true, false).to_flags(), 0x3);
    assert_eq!(level(true, false, true).to_flags(), 0x5);
    assert_eq!(level(true, true, true).to_flags(), 0x7);
}

#[test]
fn check_features_names_what_is_missing() {
    let sparse = SparseLevel { sparse: true, sparse_residency: false, sparse_aliased: true };
    assert_eq!(
        sparse.check_features(&Features::none()),
        Err(BufferCreationError::SparseBindingFeatureNotEnabled)
    );
    assert_eq!(
        sparse.check_features(&sparse_binding_only()),
        Err(BufferCreationError::SparseResidencyAliasedFeatureNotEnabled)
    );
    assert_eq!(sparse.check_features(&Features::all()), Ok(()));
}

#[test]
fn request_of_an_exclusive_buffer() {
    let pending = UnsafeBuffer::new(
        device_with(Features::none()),
        128,
        BufferUsage::all(),
        Sharing::Exclusive,
        SparseLevel::none(),
    )
    .unwrap();
    let info = pending.create_info();
    assert_eq!(info.flags, 0);
    assert_eq!(info.size, 128);
    assert_eq!(info.usage, 0x1ff);
    assert_eq!(info.sharing_mode, vk::SHARING_MODE_EXCLUSIVE);
    assert_eq!(info.queue_family_index_count, 0);
    assert_eq!(info.queue_family_indices.len(), 0);
    assert!(info.queue_family_indices.as_slice().is_empty());
}

#[test]
fn request_of_a_shared_buffer() {
    let pending = UnsafeBuffer::new(
        device_with(Features::none()),
        64,
        BufferUsage::vertex_buffer(),
        Sharing::Concurrent(vec![3, 1, 4]),
        SparseLevel::none(),
    )
    .unwrap();
    let info = pending.create_info();
    assert_eq!(info.size, 64);
    assert_eq!(info.usage, vk::BUFFER_USAGE_VERTEX_BUFFER_BIT);
    assert_eq!(info.sharing_mode, vk::SHARING_MODE_CONCURRENT);
    assert_eq!(info.queue_family_index_count, 3);
    assert_eq!(info.queue_family_indices.len(), 3);
    assert_eq!(info.queue_family_indices.as_slice(), &[3, 1, 4]);
}

#[test]
fn request_of_a_buffer_shared_by_many() {
    let ids: Vec<u32> = (0..20).collect();
    let pending = UnsafeBuffer::new(
        device_with(Features::none()),
        64,
        BufferUsage::all(),
        Sharing::Concurrent(ids.clone()),
        SparseLevel::none(),
    )
    .unwrap();
    let info = pending.create_info();
    assert_eq!(info.queue_family_index_count, 20);
    assert_eq!(info.queue_family_indices.as_slice(), ids.as_slice());
}

#[test]
fn pending_buffer_keeps_its_device() {
    let device = device_with(Features::none());
    let pending = UnsafeBuffer::new(
        device.clone(),
        128,
        BufferUsage::all(),
        Sharing::Exclusive,
        SparseLevel::none(),
    )
    .unwrap();
    assert!(Arc::ptr_eq(pending.device(), &device));
}

#[test]
fn driver_out_of_host_memory() {
    let pending = UnsafeBuffer::new(
        device_with(Features::none()),
        128,
        BufferUsage::all(),
        Sharing::Exclusive,
        SparseLevel::none(),
    )
    .unwrap();
    assert!(pending.accepts(vk::ERROR_OUT_OF_HOST_MEMORY, &reported(0)));
    match pending.finish(vk::ERROR_OUT_OF_HOST_MEMORY, 0, reported(0)) {
        Err(BufferCreationError::OomError(OomError::OutOfHostMemory)) => (),
        _ => panic!(),
    }
}

#[test]
fn driver_out_of_device_memory() {
    let pending = UnsafeBuffer::new(
        device_with(Features::none()),
        128,
        BufferUsage::all(),
        Sharing::Exclusive,
        SparseLevel::none(),
    )
    .unwrap();
    match pending.finish(vk::ERROR_OUT_OF_DEVICE_MEMORY, 0, reported(0)) {
        Err(BufferCreationError::OomError(OomError::OutOfDeviceMemory)) => (),
        _ => panic!(),
    }
}

#[test]
fn answers_that_creation_does_not_take() {
    let pending = UnsafeBuffer::new(
        device_with(Features::none()),
        128,
        BufferUsage::all(),
        Sharing::Exclusive,
        SparseLevel::none(),
    )
    .unwrap();
    // a failure that is no memory fault, and a number that is no result code
    assert!(!pending.accepts(vk::ERROR_DEVICE_LOST, &reported(128)));
    assert!(!pending.accepts(12345, &reported(128)));
    // less than was asked for, and no memory type
    assert!(!pending.accepts(vk::SUCCESS, &reported(127)));
    assert!(!pending.accepts(
        vk::SUCCESS,
        &vk::MemoryRequirements { size: 128, alignment: 16, memory_type_bits: 0 }
    ));
    assert!(pending.accepts(vk::SUCCESS, &reported(128)));
    assert!(pending.accepts(vk::SUCCESS, &reported(4096)));
}

#[test]
fn success_or_oom() {
    assert!(is_success_or_oom(vk::SUCCESS));
    assert!(is_success_or_oom(vk::INCOMPLETE));
    assert!(is_success_or_oom(vk::ERROR_OUT_OF_HOST_MEMORY));
    assert!(is_success_or_oom(vk::ERROR_OUT_OF_DEVICE_MEMORY));
    assert!(!is_success_or_oom(vk::ERROR_DEVICE_LOST));
    assert!(!is_success_or_oom(vk::ERROR_OUT_OF_DATE_KHR));
    assert!(!is_success_or_oom(-12345));
}

#[test]
fn requirements_are_what_the_driver_reported() {
    let pending = UnsafeBuffer::new(
        device_with(Features::none()),
        100,
        BufferUsage::vertex_buffer(),
        Sharing::Exclusive,
        SparseLevel::none(),
    )
    .unwrap();
    let (buf, reqs) = pending
        .finish(
            vk::SUCCESS,
            0xabc,
            vk::MemoryRequirements { size: 112, alignment: 16, memory_type_bits: 0b0110 },
        )
        .unwrap();
    assert_eq!(reqs, MemoryRequirements { size: 112, alignment: 16, memory_type_bits: 0b0110 });
    assert_eq!(buf.memory_requirements(), reqs);
    assert_eq!(buf.size(), 100);
    assert_eq!(buf.key(), 0xabc);
    assert_eq!(buf.internal_object(), 0xabc);
    assert_eq!(buf.binding(), None);
}

#[test]
fn alignment_is_the_greatest_that_applies() {
    let none = BufferUsage::none();
    let l = limits();
    assert_eq!(widen_alignment(16, none, &l), 16);
    assert_eq!(widen_alignment(16, BufferUsage { uniform_texel_buffer: true, ..none }, &l), 64);
    assert_eq!(widen_alignment(16, BufferUsage { storage_texel_buffer: true, ..none }, &l), 64);
    assert_eq!(widen_alignment(16, BufferUsage { storage_buffer: true, ..none }, &l), 32);
    assert_eq!(widen_alignment(16, BufferUsage { uniform_buffer: true, ..none }, &l), 256);
    assert_eq!(widen_alignment(16, BufferUsage::all(), &l), 256);
    // not the sum of what applies
    assert_eq!(
        widen_alignment(
            16,
            BufferUsage { storage_buffer: true, storage_texel_buffer: true, ..none },
            &l
        ),
        64
    );
    // what the driver reported stays where it is the greatest
    assert_eq!(widen_alignment(1024, BufferUsage::all(), &l), 1024);
    // uses that demand nothing
    assert_eq!(widen_alignment(4, BufferUsage::index_buffer(), &l), 4);
}

#[test]
fn created_buffer_needs_the_widened_alignment() {
    let pending = UnsafeBuffer::new(
        device_with(Features::none()),
        128,
        BufferUsage { storage_buffer: true, ..BufferUsage::none() },
        Sharing::Exclusive,
        SparseLevel::none(),
    )
    .unwrap();
    let (_, reqs) = pending.finish(vk::SUCCESS, 7, reported(128)).unwrap();
    assert_eq!(reqs.alignment, 32);
    assert_eq!(reqs.size, 128);
    assert_eq!(reqs.memory_type_bits, 0b1011);
}

#[test]
fn reported_size_is_never_below_the_requested_size() {
    for size in [1usize, 2, 127, 128, 4096] {
        for extra in [0u64, 1, 100] {
            let pending = UnsafeBuffer::new(
                device_with(Features::none()),
                size,
                BufferUsage::all(),
                Sharing::Exclusive,
                SparseLevel::none(),
            )
            .unwrap();
            let answer = reported(size as u64 + extra);
            assert!(pending.accepts(vk::SUCCESS, &answer));
            let (_, reqs) = pending.finish(vk::SUCCESS, 1, answer).unwrap();
            assert!(reqs.size >= size);
            assert_eq!(reqs.size, size + extra as usize);
        }
    }
}

#[test]
fn usage_queries_follow_the_usage() {
    let device = device_with(Features::none());
    let buf = buffer_on(device.clone(), 128, BufferUsage::all());
    assert!(buf.usage_transfer_src());
    assert!(buf.usage_transfer_dest());
    assert!(buf.usage_uniform_texel_buffer());
    assert!(buf.usage_storage_texel_buffer());
    assert!(buf.usage_uniform_buffer());
    assert!(buf.usage_storage_buffer());
    assert!(buf.usage_index_buffer());
    assert!(buf.usage_vertex_buffer());
    assert!(buf.usage_indirect_buffer());

    let buf = buffer_on(device.clone(), 128, BufferUsage::none());
    assert!(!buf.usage_transfer_src());
    assert!(!buf.usage_transfer_dest());
    assert!(!buf.usage_uniform_texel_buffer());
    assert!(!buf.usage_storage_texel_buffer());
    assert!(!buf.usage_uniform_buffer());
    assert!(!buf.usage_storage_buffer());
    assert!(!buf.usage_index_buffer());
    assert!(!buf.usage_vertex_buffer());
    assert!(!buf.usage_indirect_buffer());

    let buf = buffer_on(
        device,
        128,
        BufferUsage { transfer_dest: true, indirect_buffer: true, ..BufferUsage::none() },
    );
    assert!(!buf.usage_transfer_src());
    assert!(buf.usage_transfer_dest());
    assert!(!buf.usage_vertex_buffer());
    assert!(buf.usage_indirect_buffer());
}

fn memory(device: &Arc<Device>, size: usize, memory_type: u32) -> DeviceMemory {
    DeviceMemory::new(device.clone(), 0x77, size, memory_type)
}

#[test]
fn placement_must_fit_the_memory() {
    let device = device_with(Features::none());
    let buf = buffer_on(device.clone(), 128, BufferUsage::vertex_buffer());
    assert!(buf.can_bind_memory(&memory(&device, 128, 0), 0));
    assert!(buf.can_bind_memory(&memory(&device, 1024, 0), 896));
    assert!(!buf.can_bind_memory(&memory(&device, 1024, 0), 912));
    assert!(!buf.can_bind_memory(&memory(&device, 127, 0), 0));
    assert!(!buf.can_bind_memory(&memory(&device, 1024, 0), 2048));
}

#[test]
fn placement_must_be_aligned() {
    let device = device_with(Features::none());
    let buf = buffer_on(device.clone(), 128, BufferUsage::vertex_buffer());
    assert!(buf.can_bind_memory(&memory(&device, 1024, 0), 16));
    assert!(!buf.can_bind_memory(&memory(&device, 1024, 0), 8));
    assert!(!buf.can_bind_memory(&memory(&device, 1024, 0), 17));

    let uniform =
        buffer_on(device.clone(), 128, BufferUsage { uniform_buffer: true, ..BufferUsage::none() });
    assert!(uniform.can_bind_memory(&memory(&device, 1024, 0), 256));
    assert!(!uniform.can_bind_memory(&memory(&device, 1024, 0), 64));
}

#[test]
fn placement_must_be_in_memory_of_an_accepted_type() {
    let device = device_with(Features::none());
    // accepted types: 0, 1 and 3
    let buf = buffer_on(device.clone(), 128, BufferUsage::vertex_buffer());
    assert!(buf.can_bind_memory(&memory(&device, 1024, 0), 0));
    assert!(buf.can_bind_memory(&memory(&device, 1024, 1), 0));
    assert!(!buf.can_bind_memory(&memory(&device, 1024, 2), 0));
    assert!(buf.can_bind_memory(&memory(&device, 1024, 3), 0));
    assert!(!buf.can_bind_memory(&memory(&device, 1024, 4), 0));
    assert!(!buf.can_bind_memory(&memory(&device, 1024, 31), 0));
    assert!(!buf.can_bind_memory(&memory(&device, 1024, 32), 0));
    assert!(!buf.can_bind_memory(&memory(&device, 1024, 1000), 0));
}

#[test]
fn placement_with_a_limit_of_zero_is_refused() {
    let device = Arc::new(Device::new(
        1,
        Features::none(),
        Limits {
            min_texel_buffer_offset_alignment: 0,
            min_uniform_buffer_offset_alignment: 0,
            min_storage_buffer_offset_alignment: 0,
        },
    ));
    let vertex = buffer_on(device.clone(), 128, BufferUsage::vertex_buffer());
    assert!(vertex.can_bind_memory(&memory(&device, 1024, 0), 0));
    let storage =
        buffer_on(device.clone(), 128, BufferUsage { storage_buffer: true, ..BufferUsage::none() });
    assert!(!storage.can_bind_memory(&memory(&device, 1024, 0), 0));
}

#[test]
fn bind_memory_records_the_binding() {
    let device = device_with(Features::none());
    let mut buf = buffer_on(device.clone(), 128, BufferUsage::vertex_buffer());
    let mem = memory(&device, 1024, 1);
    assert!(buf.binding().is_none());
    assert!(buf.can_bind_memory(&mem, 64));
    assert_eq!(buf.bind_memory(&mem, 64, vk::SUCCESS), Ok(()));
    assert_eq!(buf.binding(), Some(Binding { memory: 0x77, memory_size: 1024, offset: 64 }));
    assert_eq!(buf.size(), 128);
    assert!(buf.usage_vertex_buffer());
}

#[test]
fn bind_memory_reports_the_memory_fault() {
    let device = device_with(Features::none());
    let mem = memory(&device, 1024, 1);

    let mut buf = buffer_on(device.clone(), 128, BufferUsage::vertex_buffer());
    assert_eq!(
        buf.bind_memory(&mem, 64, vk::ERROR_OUT_OF_HOST_MEMORY),
        Err(OomError::OutOfHostMemory)
    );
    assert_eq!(buf.binding(), None);

    assert_eq!(
        buf.bind_memory(&mem, 64, vk::ERROR_OUT_OF_DEVICE_MEMORY),
        Err(OomError::OutOfDeviceMemory)
    );
    assert_eq!(buf.binding(), None);
}

#[test]
fn creation_error_descriptions() {
    assert_eq!(
        BufferCreationError::OomError(OomError::OutOfHostMemory).description(),
        "not enough memory available"
    );
    assert_eq!(
        BufferCreationError::SparseBindingFeatureNotEnabled.description(),
        "sparse binding was requested but the corresponding feature wasn't enabled"
    );
    assert_eq!(
        BufferCreationError::SparseResidencyBufferFeatureNotEnabled.description(),
        "sparse residency was requested but the corresponding feature wasn't enabled"
    );
    assert_eq!(
        BufferCreationError::SparseResidencyAliasedFeatureNotEnabled.description(),
        "sparse aliasing was requested but the corresponding feature wasn't enabled"
    );
}

#[test]
fn creation_error_cause() {
    assert_eq!(
        BufferCreationError::OomError(OomError::OutOfDeviceMemory).cause(),
        Some(&OomError::OutOfDeviceMemory)
    );
    assert_eq!(BufferCreationError::SparseBindingFeatureNotEnabled.cause(), None);
    assert_eq!(BufferCreationError::SparseResidencyBufferFeatureNotEnabled.cause(), None);
    assert_eq!(BufferCreationError::SparseResidencyAliasedFeatureNotEnabled.cause(), None);
}

#[test]
fn creation_error_from_a_memory_fault() {
    assert_eq!(
        BufferCreationError::from(OomError::OutOfHostMemory),
        BufferCreationError::OomError(OomError::OutOfHostMemory)
    );
    assert_eq!(
        BufferCreationError::from_error(vulkano::Error::OutOfDeviceMemory),
        BufferCreationError::OomError(OomError::OutOfDeviceMemory)
    );
}
