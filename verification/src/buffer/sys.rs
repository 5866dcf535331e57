//! The lowest level of buffers: one native buffer, the checks that guard its
//! creation and its binding to memory, and what is known of it afterwards.
//!
//! Creating a buffer takes two answers of the driver, and binding it takes
//! one. [`UnsafeBuffer::new`] decides whether the driver is asked at all and
//! with what request; [`PendingBuffer::finish`] and
//! [`UnsafeBuffer::bind_memory`] take the answers and decide what they mean.

use vstd::prelude::*;
use std::sync::Arc;
use crate::buffer::alignment::aligned_to;
use crate::buffer::alignment::effective_alignment;
use crate::buffer::alignment::widen_alignment;
use crate::buffer::queue_families::collect_indices;
use crate::buffer::queue_families::no_indices;
use crate::buffer::queue_families::QueueFamilyIndices;
use crate::buffer::usage::bit_if;
use crate::buffer::usage::usage_to_bits;
use crate::buffer::usage::BufferUsage;
use crate::device::Device;
use crate::device::DeviceOwned;
use crate::device::Features;
use crate::error::check_errors;
use crate::error::meaning;
use crate::error::read_result;
use crate::error::Error;
use crate::error::OomError;
use crate::memory::DeviceMemory;
use crate::memory::DeviceMemoryView;
use crate::memory::MemoryRequirements;
use crate::sync::Sharing;
use crate::vk;
use crate::VulkanObject;

verus! {

/// How far a buffer may be left without memory behind it.
#[derive(Clone, Copy, Debug, PartialEq, Eq, Structural)]
pub struct SparseLevel {
    pub sparse: bool,
    pub sparse_residency: bool,
    pub sparse_aliased: bool,
}

impl SparseLevel {
    /// A buffer that is bound to memory as a whole.
    pub fn none() -> (s: SparseLevel)
        ensures
            s == (SparseLevel { sparse: false, sparse_residency: false, sparse_aliased: false }),
    {
        SparseLevel { sparse: false, sparse_residency: false, sparse_aliased: false }
    }

    /// Whether the level asks for residency and for aliasing only together
    /// with sparse binding, on which both build.
    pub open spec fn consistent(&self) -> bool {
        &&& self.sparse || !self.sparse_residency
        &&& self.sparse || !self.sparse_aliased
    }

    /// Whether the level asks for residency and for aliasing only together
    /// with sparse binding.
    pub fn is_consistent(&self) -> (b: bool)
        ensures
            b == self.consistent(),
    {
        (self.sparse || !self.sparse_residency) && (self.sparse || !self.sparse_aliased)
    }

    /// The native creation flags: one bit for each part that is asked for.
    pub open spec fn flags(&self) -> u32 {
        bit_if(self.sparse, vk::BUFFER_CREATE_SPARSE_BINDING_BIT) | bit_if(
            self.sparse_residency,
            vk::BUFFER_CREATE_SPARSE_RESIDENCY_BIT,
        ) | bit_if(self.sparse_aliased, vk::BUFFER_CREATE_SPARSE_ALIASED_BIT)
    }

    /// The native creation flags: one bit for each part that is asked for,
    /// and no other bit.
    pub fn to_flags(&self) -> (bits: u32)
        ensures
            bits == self.flags(),
            (bits & vk::BUFFER_CREATE_SPARSE_BINDING_BIT != 0) == self.sparse,
            (bits & vk::BUFFER_CREATE_SPARSE_RESIDENCY_BIT != 0) == self.sparse_residency,
            (bits & vk::BUFFER_CREATE_SPARSE_ALIASED_BIT != 0) == self.sparse_aliased,
            bits & !0x7u32 == 0,
    {
        let mut result: u32 = 0;
        if self.sparse {
            result |= vk::BUFFER_CREATE_SPARSE_BINDING_BIT;
        }
        if self.sparse_residency {
            result |= vk::BUFFER_CREATE_SPARSE_RESIDENCY_BIT;
        }
        if self.sparse_aliased {
            result |= vk::BUFFER_CREATE_SPARSE_ALIASED_BIT;
        }
        proof {
            let a = bit_if(self.sparse, vk::BUFFER_CREATE_SPARSE_BINDING_BIT);
            let b = bit_if(self.sparse_residency, vk::BUFFER_CREATE_SPARSE_RESIDENCY_BIT);
            let c = bit_if(self.sparse_aliased, vk::BUFFER_CREATE_SPARSE_ALIASED_BIT);
            assert(forall|x: u32| 0u32 | x == x) by (bit_vector);
            assert(forall|x: u32| #[trigger] (x | 0u32) == x) by (bit_vector);
            assert(result == a | b | c);
            assert({
                &&& ((a | b | c) & 0x1 != 0) == (a != 0)
                &&& ((a | b | c) & 0x2 != 0) == (b != 0)
                &&& ((a | b | c) & 0x4 != 0) == (c != 0)
                &&& (a | b | c) & !0x7u32 == 0
            }) by (bit_vector)
                requires
                    a == 0 || a == 0x1,
                    b == 0 || b == 0x2,
                    c == 0 || c == 0x4,
            ;
        }
        result
    }

    /// The first part of the level that `features` does not provide: binding,
    /// then residency, then aliasing. `None` where all that is asked for is
    /// enabled.
    pub open spec fn missing_feature(&self, features: Features) -> Option<BufferCreationError> {
        if self.sparse && !features.sparse_binding {
            Some(BufferCreationError::SparseBindingFeatureNotEnabled)
        } else if self.sparse_residency && !features.sparse_residency_buffer {
            Some(BufferCreationError::SparseResidencyBufferFeatureNotEnabled)
        } else if self.sparse_aliased && !features.sparse_residency_aliased {
            Some(BufferCreationError::SparseResidencyAliasedFeatureNotEnabled)
        } else {
            None
        }
    }

    /// Checks that `features` provides every part of the level. The error
    /// names the first part that is missing.
    pub fn check_features(&self, features: &Features) -> (r: Result<(), BufferCreationError>)
        ensures
            r matches Err(e) ==> self.missing_feature(*features) == Some(e),
            r is Ok ==> self.missing_feature(*features) is None,
    {
        if self.sparse && !features.sparse_binding {
            return Err(BufferCreationError::SparseBindingFeatureNotEnabled);
        }
        if self.sparse_residency && !features.sparse_residency_buffer {
            return Err(BufferCreationError::SparseResidencyBufferFeatureNotEnabled);
        }
        if self.sparse_aliased && !features.sparse_residency_aliased {
            return Err(BufferCreationError::SparseResidencyAliasedFeatureNotEnabled);
        }
        Ok(())
    }

    /// A level that is not sparse at all asks for no feature, whatever the
    /// device has enabled.
    pub proof fn lemma_not_sparse_needs_no_feature(self, features: Features)
        requires
            self.consistent(),
            !self.sparse,
        ensures
            self.missing_feature(features) is None,
    {
    }

    /// Residency without sparse binding is no consistent level, and neither
    /// is aliasing without it.
    pub proof fn lemma_parts_need_sparse(self)
        requires
            !self.sparse,
            self.sparse_residency || self.sparse_aliased,
        ensures
            !self.consistent(),
    {
    }
}

/// The request that the driver creates a buffer from.
#[derive(Debug)]
pub struct BufferCreateInfo {
    /// The sparse parts that are asked for, as native flags.
    pub flags: u32,
    /// The size of the buffer in bytes.
    pub size: u64,
    /// The uses of the buffer, as native flags.
    pub usage: u32,
    /// The native sharing mode.
    pub sharing_mode: u32,
    /// The number of queue families that share the buffer.
    pub queue_family_index_count: u32,
    /// The queue families that share the buffer.
    pub queue_family_indices: QueueFamilyIndices,
}

impl BufferCreateInfo {
    /// Whether the request asks for a buffer of `size` bytes for `usage`,
    /// shared as `sharing` says and sparse as `sparse` says.
    pub open spec fn describes(
        &self,
        size: usize,
        usage: BufferUsage,
        sharing: Sharing,
        sparse: SparseLevel,
    ) -> bool {
        &&& self.flags == sparse.flags()
        &&& self.size == size
        &&& self.usage == usage.bits()
        &&& self.sharing_mode == sharing.mode()
        &&& self.queue_family_index_count == sharing.queue_families().len()
        &&& self.queue_family_indices@ == sharing.queue_families()
    }
}

/// Where a buffer lies in device memory.
#[derive(Clone, Copy, Debug, PartialEq, Eq, Structural)]
pub struct Binding {
    /// The handle of the memory object.
    pub memory: u64,
    /// The size of the memory object in bytes.
    pub memory_size: usize,
    /// The offset of the buffer in the memory object, in bytes.
    pub offset: usize,
}

impl Binding {
    /// Whether the offset is a multiple of the alignment that `requirements`
    /// asks for, and what follows it in the memory object is as large as
    /// `requirements` asks.
    pub open spec fn satisfies(&self, requirements: MemoryRequirements) -> bool {
        &&& requirements.alignment > 0
        &&& self.offset % requirements.alignment == 0
        &&& self.offset <= self.memory_size
        &&& requirements.size <= self.memory_size - self.offset
    }
}

/// What the contracts say of a buffer.
pub struct UnsafeBufferView {
    /// The driver's handle to the buffer.
    pub handle: u64,
    /// The device that the buffer was created through.
    pub device: Device,
    /// The size of the buffer in bytes.
    pub size: usize,
    /// The uses that the buffer was created for.
    pub usage: BufferUsage,
    /// How far the buffer may be left without memory behind it.
    pub sparse: SparseLevel,
    /// What the buffer needs of the memory it is bound to.
    pub requirements: MemoryRequirements,
    /// Where the buffer lies in memory, once it has been bound.
    pub binding: Option<Binding>,
}

impl UnsafeBufferView {
    /// Whether the buffer may be bound to `memory` at `offset`: what follows
    /// the offset is as large as the buffer needs, the offset is a multiple
    /// of the alignment that the buffer needs and of the minimums that the
    /// hardware demands for its uses, and the memory is of a type that the
    /// buffer accepts.
    pub open spec fn placement_allowed(&self, memory: DeviceMemoryView, offset: usize) -> bool {
        let limits = self.device.hardware_limits();
        &&& offset <= memory.size
        &&& self.requirements.size <= memory.size - offset
        &&& self.requirements.alignment > 0
        &&& offset % self.requirements.alignment == 0
        &&& memory.memory_type < 32
        &&& self.requirements.memory_type_bits & (1u32 << memory.memory_type) != 0
        &&& (self.usage.uniform_texel_buffer || self.usage.storage_texel_buffer) ==> aligned_to(
            offset,
            limits.min_texel_buffer_offset_alignment,
        )
        &&& self.usage.storage_buffer ==> aligned_to(
            offset,
            limits.min_storage_buffer_offset_alignment,
        )
        &&& self.usage.uniform_buffer ==> aligned_to(
            offset,
            limits.min_uniform_buffer_offset_alignment,
        )
    }
}

/// Whether `code` is what the driver may answer where only memory can run
/// out: a success, or one of the two memory faults.
pub open spec fn success_or_oom(code: i32) -> bool {
    match meaning(code) {
        Some(Ok(_)) => true,
        Some(Err(err)) => OomError::covers(err),
        None => false,
    }
}

/// Whether `code` is what the driver may answer where only memory can run
/// out.
pub fn is_success_or_oom(code: i32) -> (b: bool)
    ensures
        b == success_or_oom(code),
{
    match read_result(code) {
        Some(Ok(_)) => true,
        Some(Err(err)) => OomError::is_oom(err),
        None => false,
    }
}

/// What the contracts say of a buffer that the driver has yet to create.
pub struct PendingBufferView {
    /// The device that the buffer is created through.
    pub device: Device,
    /// The size of the buffer in bytes.
    pub size: usize,
    /// The uses that the buffer is created for.
    pub usage: BufferUsage,
    /// How far the buffer may be left without memory behind it.
    pub sparse: SparseLevel,
    /// The request to the driver.
    pub info: BufferCreateInfo,
}

impl PendingBufferView {
    /// Whether `reported` is what the driver may report of the buffer once
    /// it has created it: no less than the size that was asked for, at least
    /// one memory type, and numbers that this machine can address.
    pub open spec fn accepts(&self, reported: vk::MemoryRequirements) -> bool {
        &&& reported.size >= self.size
        &&& reported.memory_type_bits != 0
        &&& reported.size <= usize::MAX
        &&& effective_alignment(reported.alignment, self.usage, self.device.hardware_limits())
            <= usize::MAX
    }

    /// What the buffer needs of its memory, where the driver reported
    /// `reported`: the size and the memory types as they were reported, and
    /// the alignment widened to the minimums of the hardware.
    pub open spec fn requirements(&self, reported: vk::MemoryRequirements) -> MemoryRequirements {
        MemoryRequirements {
            size: reported.size as usize,
            alignment: effective_alignment(
                reported.alignment,
                self.usage,
                self.device.hardware_limits(),
            ) as usize,
            memory_type_bits: reported.memory_type_bits,
        }
    }

    /// How creation ends where the driver answered the request with `code`
    /// and, on success, with the handle `buffer` and with `reported`: in a
    /// memory fault where `code` is one, else in an unbound buffer and what
    /// it needs of its memory.
    pub open spec fn outcome(
        &self,
        code: i32,
        buffer: u64,
        reported: vk::MemoryRequirements,
    ) -> Result<(UnsafeBufferView, MemoryRequirements), BufferCreationError> {
        match meaning(code) {
            Some(Err(err)) => Err(BufferCreationError::OomError(OomError::of(err))),
            _ => Ok(
                (
                    UnsafeBufferView {
                        handle: buffer,
                        device: self.device,
                        size: self.size,
                        usage: self.usage,
                        sparse: self.sparse,
                        requirements: self.requirements(reported),
                        binding: None,
                    },
                    self.requirements(reported),
                ),
            ),
        }
    }
}

/// A buffer that has passed the checks of creation, and that the driver has
/// yet to create.
#[derive(Debug)]
pub struct PendingBuffer {
    device: Arc<Device>,
    size: usize,
    usage: BufferUsage,
    sparse: SparseLevel,
    info: BufferCreateInfo,
}

impl View for PendingBuffer {
    type V = PendingBufferView;

    closed spec fn view(&self) -> PendingBufferView {
        PendingBufferView {
            device: *self.device,
            size: self.size,
            usage: self.usage,
            sparse: self.sparse,
            info: self.info,
        }
    }
}

impl PendingBuffer {
    /// The request that the driver is to be handed.
    pub fn create_info(&self) -> (info: &BufferCreateInfo)
        ensures
            *info == self@.info,
    {
        &self.info
    }

    /// Whether the driver's answers are such as [`PendingBuffer::finish`]
    /// takes: `result` a success or a memory fault and, on success,
    /// `reported` acceptable.
    pub fn accepts(&self, result: i32, reported: &vk::MemoryRequirements) -> (b: bool)
        ensures
            b == (success_or_oom(result) && (meaning(result) matches Some(Ok(_))
                ==> self@.accepts(*reported))),
    {
        match read_result(result) {
            Some(Ok(_)) => {
                let alignment = widen_alignment(
                    reported.alignment,
                    self.usage,
                    self.device.limits(),
                );
                reported.size >= self.size as u64 && reported.memory_type_bits != 0
                    && reported.size <= usize::MAX as u64 && alignment <= usize::MAX as u64
            },
            Some(Err(err)) => OomError::is_oom(err),
            None => false,
        }
    }

    /// Takes the driver's answers and ends creation. `result` is what the
    /// driver returned from creating the buffer, `buffer` the handle it gave,
    /// and `reported` what it then reported the buffer to need; the last two
    /// count only where `result` is a success.
    ///
    /// A memory fault of the driver is the error. Otherwise the buffer exists,
    /// unbound, and needs as much memory as was reported, of the types that
    /// were reported, at the reported alignment widened to the minimums that
    /// the hardware demands for the uses of the buffer.
    ///
    /// A `result` that is neither a success nor a memory fault, or a report
    /// of less than the size that was asked for or of no memory type, is a
    /// fault of the driver. These are left to the caller to rule out.
    pub fn finish(self, result: i32, buffer: u64, reported: vk::MemoryRequirements) -> (r: Result<
        (UnsafeBuffer, MemoryRequirements),
        BufferCreationError,
    >)
        requires
            success_or_oom(result),
            meaning(result) matches Some(Ok(_)) ==> self@.accepts(reported),
        ensures
            match r {
                Ok((created, requirements)) => self@.outcome(result, buffer, reported) == Ok::<
                    _,
                    BufferCreationError,
                >((created@, requirements)),
                Err(e) => self@.outcome(result, buffer, reported) == Err::<
                    (UnsafeBufferView, MemoryRequirements),
                    _,
                >(e),
            },
            r matches Ok((_, requirements)) ==> requirements.size >= self@.size,
            r matches Err(e) ==> e is OomError,
    {
        match check_errors(result) {
            Err(err) => Err(BufferCreationError::from_error(err)),
            Ok(_) => {
                let alignment = widen_alignment(
                    reported.alignment,
                    self.usage,
                    self.device.limits(),
                );
                let mut output = MemoryRequirements::from(reported);
                output.alignment = alignment as usize;
                let obj = UnsafeBuffer {
                    buffer,
                    device: self.device,
                    size: self.size,
                    usage: usage_to_bits(self.usage),
                    sparse: self.sparse,
                    requirements: output,
                    binding: None,
                };
                Ok((obj, output))
            },
        }
    }
}

impl DeviceOwned for PendingBuffer {
    open spec fn owner(&self) -> Device {
        self@.device
    }

    fn device(&self) -> (d: &Arc<Device>) {
        &self.device
    }
}

/// Data storage in a location that the device can reach.
///
/// The uses of a buffer are fixed when it is created. Once it is bound to
/// memory it stays bound there: it cannot be bound again.
#[derive(Debug)]
pub struct UnsafeBuffer {
    buffer: u64,
    device: Arc<Device>,
    size: usize,
    usage: u32,
    sparse: SparseLevel,
    requirements: MemoryRequirements,
    binding: Option<Binding>,
}

impl View for UnsafeBuffer {
    type V = UnsafeBufferView;

    closed spec fn view(&self) -> UnsafeBufferView {
        UnsafeBufferView {
            handle: self.buffer,
            device: *self.device,
            size: self.size,
            usage: BufferUsage::of_bits(self.usage),
            sparse: self.sparse,
            requirements: self.requirements,
            binding: self.binding,
        }
    }
}

impl UnsafeBuffer {
    #[verifier::type_invariant]
    spec fn bound_where_it_fits(self) -> bool {
        self.binding matches Some(binding) ==> binding.satisfies(self.requirements)
    }

    /// Checks that a buffer of `size` bytes for `usage` may be created on
    /// `device`, and makes the request for the driver.
    ///
    /// Fails where `sparse` asks for a part that is not enabled on `device`;
    /// the error names the first such part, of binding, residency and
    /// aliasing. Otherwise the result holds the request, and
    /// [`PendingBuffer::finish`] ends creation once the driver has answered.
    ///
    /// A `sparse` that asks for residency or aliasing without sparse binding
    /// is a fault of the caller, which is to rule it out.
    pub fn new(
        device: Arc<Device>,
        size: usize,
        usage: BufferUsage,
        sharing: Sharing,
        sparse: SparseLevel,
    ) -> (r: Result<PendingBuffer, BufferCreationError>)
        requires
            sparse.consistent(),
            sharing.queue_families().len() <= u32::MAX,
        ensures
            match r {
                Ok(pending) => {
                    &&& sparse.missing_feature(device.features()) is None
                    &&& pending@.device == *device
                    &&& pending@.size == size
                    &&& pending@.usage == usage
                    &&& pending@.sparse == sparse
                    &&& pending@.info.describes(size, usage, sharing, sparse)
                },
                Err(e) => sparse.missing_feature(device.features()) == Some(e),
            },
            !sparse.sparse ==> r is Ok,
    {
        let usage_bits = usage_to_bits(usage);

        match sparse.check_features(device.enabled_features()) {
            Err(e) => {
                return Err(e);
            },
            Ok(_) => {},
        }

        let (sh_mode, sh_indices) = match sharing {
            Sharing::Exclusive => (vk::SHARING_MODE_EXCLUSIVE, no_indices()),
            Sharing::Concurrent(ids) => (vk::SHARING_MODE_CONCURRENT, collect_indices(ids)),
        };

        let infos = BufferCreateInfo {
            flags: sparse.to_flags(),
            size: size as u64,
            usage: usage_bits,
            sharing_mode: sh_mode,
            queue_family_index_count: sh_indices.len() as u32,
            queue_family_indices: sh_indices,
        };

        Ok(PendingBuffer { device, size, usage, sparse, info: infos })
    }

    /// Whether the buffer may be bound to `memory` at `offset`.
    pub fn can_bind_memory(&self, memory: &DeviceMemory, offset: usize) -> (b: bool)
        ensures
            b == self@.placement_allowed(memory@, offset),
    {
        let limits = self.device.limits();
        let memory_size = memory.size();
        if offset > memory_size || self.requirements.size > memory_size - offset {
            return false;
        }
        if self.requirements.alignment == 0 || offset % self.requirements.alignment != 0 {
            return false;
        }
        let id = memory.memory_type().id();
        if id >= 32 || self.requirements.memory_type_bits & (1u32 << id) == 0 {
            return false;
        }
        if self.usage_uniform_texel_buffer() || self.usage_storage_texel_buffer() {
            if limits.min_texel_buffer_offset_alignment == 0 || offset as u64
                % limits.min_texel_buffer_offset_alignment != 0 {
                return false;
            }
        }
        if self.usage_storage_buffer() {
            if limits.min_storage_buffer_offset_alignment == 0 || offset as u64
                % limits.min_storage_buffer_offset_alignment != 0 {
                return false;
            }
        }
        if self.usage_uniform_buffer() {
            if limits.min_uniform_buffer_offset_alignment == 0 || offset as u64
                % limits.min_uniform_buffer_offset_alignment != 0 {
                return false;
            }
        }
        true
    }

    /// Records what the driver answered to binding the buffer to `memory` at
    /// `offset`. `result` is what the driver returned.
    ///
    /// On success the buffer is bound there. A memory fault of the driver is
    /// the error, and leaves the buffer unbound.
    ///
    /// Binding a buffer twice, or where [`UnsafeBuffer::can_bind_memory`]
    /// says it may not be bound, is a fault of the caller; a `result` that is
    /// neither a success nor a memory fault is one of the driver. These are
    /// left to the caller to rule out.
    pub fn bind_memory(&mut self, memory: &DeviceMemory, offset: usize, result: i32) -> (r: Result<
        (),
        OomError,
    >)
        requires
            old(self)@.binding is None,
            old(self)@.placement_allowed(memory@, offset),
            success_or_oom(result),
        ensures
            match meaning(result) {
                Some(Err(err)) => r == Err::<(), _>(OomError::of(err)) && final(self)@ == old(
                    self,
                )@,
                _ => r is Ok && final(self)@ == (UnsafeBufferView {
                    binding: Some(
                        Binding { memory: memory@.handle, memory_size: memory@.size, offset },
                    ),
                    ..old(self)@
                }),
            },
    {
        match check_errors(result) {
            Err(err) => Err(OomError::from_error(err)),
            Ok(_) => {
                self.binding = Some(
                    Binding {
                        memory: memory.internal_object(),
                        memory_size: memory.size(),
                        offset,
                    },
                );
                Ok(())
            },
        }
    }

    /// Where the buffer lies in memory, once it has been bound. A buffer lies
    /// only where its needs are met.
    pub fn binding(&self) -> (b: Option<Binding>)
        ensures
            b == self@.binding,
            b matches Some(binding) ==> binding.satisfies(self@.requirements),
    {
        proof {
            use_type_invariant(self);
        }
        self.binding
    }

    /// How far the buffer may be left without memory behind it.
    pub fn sparse_level(&self) -> (s: SparseLevel)
        ensures
            s == self@.sparse,
    {
        self.sparse
    }

    /// What the buffer needs of the memory it is bound to.
    pub fn memory_requirements(&self) -> (r: MemoryRequirements)
        ensures
            r == self@.requirements,
    {
        self.requirements
    }

    /// Returns the size of the buffer in bytes.
    pub fn size(&self) -> (s: usize)
        ensures
            s == self@.size,
    {
        self.size
    }

    /// Whether the buffer was created for use as the source of a transfer.
    pub fn usage_transfer_src(&self) -> (b: bool)
        ensures
            b == self@.usage.transfer_source,
    {
        (self.usage & vk::BUFFER_USAGE_TRANSFER_SRC_BIT) != 0
    }

    /// Whether the buffer was created for use as the destination of a transfer.
    pub fn usage_transfer_dest(&self) -> (b: bool)
        ensures
            b == self@.usage.transfer_dest,
    {
        (self.usage & vk::BUFFER_USAGE_TRANSFER_DST_BIT) != 0
    }

    /// Whether the buffer was created for use as a uniform texel buffer.
    pub fn usage_uniform_texel_buffer(&self) -> (b: bool)
        ensures
            b == self@.usage.uniform_texel_buffer,
    {
        (self.usage & vk::BUFFER_USAGE_UNIFORM_TEXEL_BUFFER_BIT) != 0
    }

    /// Whether the buffer was created for use as a storage texel buffer.
    pub fn usage_storage_texel_buffer(&self) -> (b: bool)
        ensures
            b == self@.usage.storage_texel_buffer,
    {
        (self.usage & vk::BUFFER_USAGE_STORAGE_TEXEL_BUFFER_BIT) != 0
    }

    /// Whether the buffer was created for use as a uniform buffer.
    pub fn usage_uniform_buffer(&self) -> (b: bool)
        ensures
            b == self@.usage.uniform_buffer,
    {
        (self.usage & vk::BUFFER_USAGE_UNIFORM_BUFFER_BIT) != 0
    }

    /// Whether the buffer was created for use as a storage buffer.
    pub fn usage_storage_buffer(&self) -> (b: bool)
        ensures
            b == self@.usage.storage_buffer,
    {
        (self.usage & vk::BUFFER_USAGE_STORAGE_BUFFER_BIT) != 0
    }

    /// Whether the buffer was created for use as a source of indices.
    pub fn usage_index_buffer(&self) -> (b: bool)
        ensures
            b == self@.usage.index_buffer,
    {
        (self.usage & vk::BUFFER_USAGE_INDEX_BUFFER_BIT) != 0
    }

    /// Whether the buffer was created for use as a source of vertices.
    pub fn usage_vertex_buffer(&self) -> (b: bool)
        ensures
            b == self@.usage.vertex_buffer,
    {
        (self.usage & vk::BUFFER_USAGE_VERTEX_BUFFER_BIT) != 0
    }

    /// Whether the buffer was created for use as a source of indirect commands.
    pub fn usage_indirect_buffer(&self) -> (b: bool)
        ensures
            b == self@.usage.indirect_buffer,
    {
        (self.usage & vk::BUFFER_USAGE_INDIRECT_BUFFER_BIT) != 0
    }

    /// Returns a key unique to each `UnsafeBuffer`. Can be used for the `conflicts_key` method.
    pub fn key(&self) -> (k: u64)
        ensures
            k == self@.handle,
    {
        self.buffer
    }
}

impl VulkanObject for UnsafeBuffer {
    type Object = u64;

    open spec fn handle(&self) -> u64 {
        self@.handle
    }

    fn internal_object(&self) -> (h: u64) {
        self.buffer
    }
}

impl DeviceOwned for UnsafeBuffer {
    open spec fn owner(&self) -> Device {
        self@.device
    }

    fn device(&self) -> (d: &Arc<Device>) {
        &self.device
    }
}

/// Why a buffer could not be created.
#[derive(Clone, Copy, Debug, PartialEq, Eq, Structural)]
pub enum BufferCreationError {
    /// Not enough memory.
    OomError(OomError),
    /// Sparse binding was requested but the corresponding feature wasn't enabled.
    SparseBindingFeatureNotEnabled,
    /// Sparse residency was requested but the corresponding feature wasn't enabled.
    SparseResidencyBufferFeatureNotEnabled,
    /// Sparse aliasing was requested but the corresponding feature wasn't enabled.
    SparseResidencyAliasedFeatureNotEnabled,
}

impl BufferCreationError {
    /// A sentence that describes the error.
    pub fn description(&self) -> (s: &'static str)
        ensures
            *self is OomError ==> s@ == "not enough memory available"@,
            *self is SparseBindingFeatureNotEnabled ==> s@
                == "sparse binding was requested but the corresponding feature wasn't enabled"@,
            *self is SparseResidencyBufferFeatureNotEnabled ==> s@
                == "sparse residency was requested but the corresponding feature wasn't enabled"@,
            *self is SparseResidencyAliasedFeatureNotEnabled ==> s@
                == "sparse aliasing was requested but the corresponding feature wasn't enabled"@,
    {
        match self {
            BufferCreationError::OomError(_) => "not enough memory available",
            BufferCreationError::SparseBindingFeatureNotEnabled => {
                "sparse binding was requested but the corresponding feature wasn't enabled"
            },
            BufferCreationError::SparseResidencyBufferFeatureNotEnabled => {
                "sparse residency was requested but the corresponding feature wasn't enabled"
            },
            BufferCreationError::SparseResidencyAliasedFeatureNotEnabled => {
                "sparse aliasing was requested but the corresponding feature wasn't enabled"
            },
        }
    }

    /// The memory fault behind the error, where there is one.
    pub fn cause(&self) -> (c: Option<&OomError>)
        ensures
            match *self {
                BufferCreationError::OomError(err) => c == Some(&err),
                _ => c is None,
            },
    {
        match self {
            BufferCreationError::OomError(err) => Some(err),
            _ => None,
        }
    }

    /// The creation error that a failure of the driver stands for. The driver
    /// may fail to create a buffer for want of memory; any other failure is
    /// unexpected, and is left to the caller to rule out.
    pub fn from_error(err: Error) -> (r: BufferCreationError)
        requires
            OomError::covers(err),
        ensures
            r == BufferCreationError::OomError(OomError::of(err)),
    {
        BufferCreationError::OomError(OomError::from_error(err))
    }
}

impl From<OomError> for BufferCreationError {
    fn from(err: OomError) -> (r: BufferCreationError) {
        BufferCreationError::OomError(err)
    }
}

impl vstd::std_specs::convert::FromSpecImpl<OomError> for BufferCreationError {
    open spec fn obeys_from_spec() -> bool {
        true
    }

    open spec fn from_spec(err: OomError) -> BufferCreationError {
        BufferCreationError::OomError(err)
    }
}

} // verus!
