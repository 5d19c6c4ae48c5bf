//! The compute encoder: binds what a kernel reads and writes, and dispatches it.

use vstd::prelude::*;
use crate::buffer::MTLBuffer;
use crate::driver::Driver;
use crate::encoder::bind;
use crate::encoder::bind_plain;
use crate::encoder::end;
use crate::encoder::rebase;
use crate::encoder::record;
use crate::encoder::record_with;
use crate::encoder::set_pipeline;
use crate::encoder::MTLCommandEncoder;
use crate::error::MetalError;
use crate::event::MTLFence;
use crate::geometry::MTLSize;
use crate::handle::Handle;
use crate::heap::MTLHeap;
use crate::model::Binding;
use crate::model::Call;
use crate::model::ObjectKind;
use crate::model::ResourceClass;
use crate::model::Stage;
use crate::resource::MTLResource;
use crate::sampler::MTLSamplerState;
use crate::texture::MTLTexture;
use crate::pipeline::MTLComputePipelineState;

verus! {

/// A handle to a compute encoder.
#[derive(Debug, PartialEq, Eq)]
pub struct MTLComputeCommandEncoder(pub Handle);

impl MTLCommandEncoder for MTLComputeCommandEncoder {
    open spec fn raw(&self) -> u64 {
        self.0.0
    }

    open spec fn kind(&self) -> ObjectKind {
        ObjectKind::ComputeCommandEncoder
    }

    fn get_obj(&self) -> (raw: u64) {
        self.0.0
    }

    fn end_encoding(&self, driver: &mut Driver) -> (res: Result<(), MetalError>) {
        end(driver, self.0.0, ObjectKind::ComputeCommandEncoder)
    }
}

impl MTLComputeCommandEncoder {
    /// Sets the pipeline state that later dispatches run.
    pub fn set_compute_pipeline_state(
        &self,
        driver: &mut Driver,
        state: MTLComputePipelineState,
    ) -> (res: Result<(), MetalError>)
        ensures
            match old(driver)@.take_fault(
                self.0.0,
                ObjectKind::ComputeCommandEncoder,
                state.0.0,
                ObjectKind::ComputePipelineState,
            ) {
                Some(e) => res == Err::<(), MetalError>(e) && final(driver)@ == old(driver)@,
                None => res is Ok && final(driver)@ == old(driver)@.set_pipeline(
                    self.0.0,
                    state.0.0,
                ),
            },
            old(driver)@.leads_to(final(driver)@),
    {
        set_pipeline(
            driver,
            self.0.0,
            ObjectKind::ComputeCommandEncoder,
            state.0.0,
            ObjectKind::ComputePipelineState,
        )
    }

    /// Binds `buffer`, from `offset` on, to buffer slot `index` of the kernel.
    pub fn set_buffer(
        &self,
        driver: &mut Driver,
        buffer: MTLBuffer,
        offset: u64,
        index: u64,
    ) -> (res: Result<(), MetalError>)
        ensures
            match old(driver)@.take_fault(
                self.0.0,
                ObjectKind::ComputeCommandEncoder,
                buffer.0.0,
                ObjectKind::Buffer,
            ) {
                Some(e) => res == Err::<(), MetalError>(e) && final(driver)@ == old(driver)@,
                None => res is Ok && final(driver)@ == old(driver)@.bind(
                    self.0.0,
                    (Binding {
                        stage: Stage::Kernel,
                        class: ResourceClass::Buffer,
                        index,
                        resource: buffer.0.0,
                        offset,
                        length: 0,
                    }),
                ),
            },
            old(driver)@.leads_to(final(driver)@),
    {
        bind(
            driver,
            self.0.0,
            ObjectKind::ComputeCommandEncoder,
            Binding {
                stage: Stage::Kernel,
                class: ResourceClass::Buffer,
                index,
                resource: buffer.0.0,
                offset,
                length: 0,
            },
            ObjectKind::Buffer,
        )
    }

    /// Moves what buffer slot `index` of the kernel holds to `offset`.
    pub fn set_buffer_offset(
        &self,
        driver: &mut Driver,
        offset: u64,
        index: u64,
    ) -> (res: Result<(), MetalError>)
        ensures
            match old(driver)@.encoder_fault(self.0.0, ObjectKind::ComputeCommandEncoder) {
                Some(e) => res == Err::<(), MetalError>(e) && final(driver)@ == old(driver)@,
                None => res is Ok && final(driver)@ == old(driver)@.rebase(
                    self.0.0,
                    (Binding {
                        stage: Stage::Kernel,
                        class: ResourceClass::Buffer,
                        index,
                        resource: 0,
                        offset: 0,
                        length: 0,
                    }),
                    offset,
                ),
            },
            old(driver)@.leads_to(final(driver)@),
    {
        rebase(
            driver,
            self.0.0,
            ObjectKind::ComputeCommandEncoder,
            Binding {
                stage: Stage::Kernel,
                class: ResourceClass::Buffer,
                index,
                resource: 0,
                offset: 0,
                length: 0,
            },
            offset,
        )
    }

    /// Binds a copy of `bytes` to buffer slot `index` of the kernel.
    pub fn set_bytes(
        &self,
        driver: &mut Driver,
        bytes: &[u8],
        index: u64,
    ) -> (res: Result<(), MetalError>)
        ensures
            match old(driver)@.encoder_fault(self.0.0, ObjectKind::ComputeCommandEncoder) {
                Some(e) => res == Err::<(), MetalError>(e) && final(driver)@ == old(driver)@,
                None => res is Ok && final(driver)@ == old(driver)@.bind_plain(
                    self.0.0,
                    (Binding {
                        stage: Stage::Kernel,
                        class: ResourceClass::Buffer,
                        index,
                        resource: 0,
                        offset: 0,
                        length: bytes@.len() as u64,
                    }),
                ),
            },
            old(driver)@.leads_to(final(driver)@),
    {
        bind_plain(
            driver,
            self.0.0,
            ObjectKind::ComputeCommandEncoder,
            Binding {
                stage: Stage::Kernel,
                class: ResourceClass::Buffer,
                index,
                resource: 0,
                offset: 0,
                length: bytes.len() as u64,
            },
        )
    }

    /// Binds `state` to sampler slot `index` of the kernel.
    pub fn set_sampler_state(
        &self,
        driver: &mut Driver,
        state: MTLSamplerState,
        index: u64,
    ) -> (res: Result<(), MetalError>)
        ensures
            match old(driver)@.take_fault(
                self.0.0,
                ObjectKind::ComputeCommandEncoder,
                state.0.0,
                ObjectKind::SamplerState,
            ) {
                Some(e) => res == Err::<(), MetalError>(e) && final(driver)@ == old(driver)@,
                None => res is Ok && final(driver)@ == old(driver)@.bind(
                    self.0.0,
                    (Binding {
                        stage: Stage::Kernel,
                        class: ResourceClass::Sampler,
                        index,
                        resource: state.0.0,
                        offset: 0,
                        length: 0,
                    }),
                ),
            },
            old(driver)@.leads_to(final(driver)@),
    {
        bind(
            driver,
            self.0.0,
            ObjectKind::ComputeCommandEncoder,
            Binding {
                stage: Stage::Kernel,
                class: ResourceClass::Sampler,
                index,
                resource: state.0.0,
                offset: 0,
                length: 0,
            },
            ObjectKind::SamplerState,
        )
    }

    /// Binds `texture` to texture slot `index` of the kernel.
    pub fn set_texture(
        &self,
        driver: &mut Driver,
        texture: MTLTexture,
        index: u64,
    ) -> (res: Result<(), MetalError>)
        ensures
            match old(driver)@.take_fault(
                self.0.0,
                ObjectKind::ComputeCommandEncoder,
                texture.0.0,
                ObjectKind::Texture,
            ) {
                Some(e) => res == Err::<(), MetalError>(e) && final(driver)@ == old(driver)@,
                None => res is Ok && final(driver)@ == old(driver)@.bind(
                    self.0.0,
                    (Binding {
                        stage: Stage::Kernel,
                        class: ResourceClass::Texture,
                        index,
                        resource: texture.0.0,
                        offset: 0,
                        length: 0,
                    }),
                ),
            },
            old(driver)@.leads_to(final(driver)@),
    {
        bind(
            driver,
            self.0.0,
            ObjectKind::ComputeCommandEncoder,
            Binding {
                stage: Stage::Kernel,
                class: ResourceClass::Texture,
                index,
                resource: texture.0.0,
                offset: 0,
                length: 0,
            },
            ObjectKind::Texture,
        )
    }

    /// Gives threadgroup memory slot `index` of the kernel `length` bytes.
    pub fn set_threadgroup_memory_length(
        &self,
        driver: &mut Driver,
        length: u64,
        index: u64,
    ) -> (res: Result<(), MetalError>)
        ensures
            match old(driver)@.encoder_fault(self.0.0, ObjectKind::ComputeCommandEncoder) {
                Some(e) => res == Err::<(), MetalError>(e) && final(driver)@ == old(driver)@,
                None => res is Ok && final(driver)@ == old(driver)@.bind_plain(
                    self.0.0,
                    (Binding {
                        stage: Stage::Kernel,
                        class: ResourceClass::ThreadgroupMemory,
                        index,
                        resource: 0,
                        offset: 0,
                        length,
                    }),
                ),
            },
            old(driver)@.leads_to(final(driver)@),
    {
        bind_plain(
            driver,
            self.0.0,
            ObjectKind::ComputeCommandEncoder,
            Binding {
                stage: Stage::Kernel,
                class: ResourceClass::ThreadgroupMemory,
                index,
                resource: 0,
                offset: 0,
                length,
            },
        )
    }

    /// Dispatches a grid of `threadgroups_per_grid` threadgroups of
    /// `threads_per_threadgroup` threads.
    pub fn dispatch_threadgroups(
        &self,
        driver: &mut Driver,
        threadgroups_per_grid: (u64, u64, u64),
        threads_per_threadgroup: (u64, u64, u64),
    ) -> (res: Result<(), MetalError>)
        ensures
            match old(driver)@.encoder_fault(self.0.0, ObjectKind::ComputeCommandEncoder) {
                Some(e) => res == Err::<(), MetalError>(e) && final(driver)@ == old(driver)@,
                None => res is Ok && final(driver)@ == old(driver)@.record(
                    self.0.0,
                    (Call::DispatchThreadgroups {
                        threadgroups_per_grid: MTLSize::packed(threadgroups_per_grid),
                        threads_per_threadgroup: MTLSize::packed(threads_per_threadgroup),
                    }),
                ),
            },
            old(driver)@.leads_to(final(driver)@),
    {
        let a = MTLSize::from_tuple(threadgroups_per_grid);
        let b = MTLSize::from_tuple(threads_per_threadgroup);
        record(
            driver,
            self.0.0,
            ObjectKind::ComputeCommandEncoder,
            Call::DispatchThreadgroups { threadgroups_per_grid: a, threads_per_threadgroup: b },
        )
    }

    /// Dispatches a grid of `threads_per_grid` threads, in threadgroups of
    /// `threads_per_threadgroup`.
    pub fn dispatch_threads(
        &self,
        driver: &mut Driver,
        threads_per_grid: (u64, u64, u64),
        threads_per_threadgroup: (u64, u64, u64),
    ) -> (res: Result<(), MetalError>)
        ensures
            match old(driver)@.encoder_fault(self.0.0, ObjectKind::ComputeCommandEncoder) {
                Some(e) => res == Err::<(), MetalError>(e) && final(driver)@ == old(driver)@,
                None => res is Ok && final(driver)@ == old(driver)@.record(
                    self.0.0,
                    (Call::DispatchThreads {
                        threads_per_grid: MTLSize::packed(threads_per_grid),
                        threads_per_threadgroup: MTLSize::packed(threads_per_threadgroup),
                    }),
                ),
            },
            old(driver)@.leads_to(final(driver)@),
    {
        let a = MTLSize::from_tuple(threads_per_grid);
        let b = MTLSize::from_tuple(threads_per_threadgroup);
        record(
            driver,
            self.0.0,
            ObjectKind::ComputeCommandEncoder,
            Call::DispatchThreads { threads_per_grid: a, threads_per_threadgroup: b },
        )
    }

    /// Dispatches threadgroups of `threads_per_threadgroup` threads; how many, `buffer`
    /// says at `offset` when the work runs.
    pub fn dispatch_threadgroups_with_indirect_buffer(
        &self,
        driver: &mut Driver,
        buffer: MTLBuffer,
        offset: u64,
        threads_per_threadgroup: (u64, u64, u64),
    ) -> (res: Result<(), MetalError>)
        ensures
            match old(driver)@.take_fault(
                self.0.0,
                ObjectKind::ComputeCommandEncoder,
                buffer.0.0,
                ObjectKind::Buffer,
            ) {
                Some(e) => res == Err::<(), MetalError>(e) && final(driver)@ == old(driver)@,
                None => res is Ok && final(driver)@ == old(driver)@.record_with(
                    self.0.0,
                    (Call::DispatchThreadgroupsIndirect {
                        buffer: buffer.0.0,
                        offset,
                        threads_per_threadgroup: MTLSize::packed(threads_per_threadgroup),
                    }),
                    buffer.0.0,
                ),
            },
            old(driver)@.leads_to(final(driver)@),
    {
        let size = MTLSize::from_tuple(threads_per_threadgroup);
        record_with(
            driver,
            self.0.0,
            ObjectKind::ComputeCommandEncoder,
            Call::DispatchThreadgroupsIndirect {
                buffer: buffer.0.0,
                offset,
                threads_per_threadgroup: size,
            },
            buffer.0.0,
            ObjectKind::Buffer,
        )
    }

    /// Tells that the kernel uses `resource` through an argument buffer, as `usage` says.
    pub fn use_resource<T: MTLResource>(
        &self,
        driver: &mut Driver,
        resource: T,
        usage: u64,
    ) -> (res: Result<(), MetalError>)
        ensures
            match old(driver)@.take_fault(
                self.0.0,
                ObjectKind::ComputeCommandEncoder,
                resource.raw(),
                resource.kind(),
            ) {
                Some(e) => res == Err::<(), MetalError>(e) && final(driver)@ == old(driver)@,
                None => res is Ok && final(driver)@ == old(driver)@.record_with(
                    self.0.0,
                    (Call::UseResource { resource: resource.raw(), usage, stages: 0 }),
                    resource.raw(),
                ),
            },
            old(driver)@.leads_to(final(driver)@),
    {
        let raw = resource.get_obj();
        record_with(
            driver,
            self.0.0,
            ObjectKind::ComputeCommandEncoder,
            Call::UseResource { resource: raw, usage, stages: 0 },
            raw,
            resource.get_kind(),
        )
    }

    /// Tells that the kernel uses what `heap` holds.
    pub fn use_heap(&self, driver: &mut Driver, heap: MTLHeap) -> (res: Result<(), MetalError>)
        ensures
            match old(driver)@.take_fault(
                self.0.0,
                ObjectKind::ComputeCommandEncoder,
                heap.0.0,
                ObjectKind::Heap,
            ) {
                Some(e) => res == Err::<(), MetalError>(e) && final(driver)@ == old(driver)@,
                None => res is Ok && final(driver)@ == old(driver)@.record_with(
                    self.0.0,
                    (Call::UseHeap { heap: heap.0.0 }),
                    heap.0.0,
                ),
            },
            old(driver)@.leads_to(final(driver)@),
    {
        record_with(
            driver,
            self.0.0,
            ObjectKind::ComputeCommandEncoder,
            Call::UseHeap { heap: heap.0.0 },
            heap.0.0,
            ObjectKind::Heap,
        )
    }

    /// Updates `fence` once the work of this encoder is done.
    pub fn update_fence(
        &self,
        driver: &mut Driver,
        fence: MTLFence,
    ) -> (res: Result<(), MetalError>)
        ensures
            match old(driver)@.take_fault(
                self.0.0,
                ObjectKind::ComputeCommandEncoder,
                fence.0.0,
                ObjectKind::Fence,
            ) {
                Some(e) => res == Err::<(), MetalError>(e) && final(driver)@ == old(driver)@,
                None => res is Ok && final(driver)@ == old(driver)@.record_with(
                    self.0.0,
                    (Call::UpdateFence { fence: fence.0.0 }),
                    fence.0.0,
                ),
            },
            old(driver)@.leads_to(final(driver)@),
    {
        record_with(
            driver,
            self.0.0,
            ObjectKind::ComputeCommandEncoder,
            Call::UpdateFence { fence: fence.0.0 },
            fence.0.0,
            ObjectKind::Fence,
        )
    }

    /// Holds the work of this encoder back until `fence` is updated.
    pub fn wait_for_fence(
        &self,
        driver: &mut Driver,
        fence: MTLFence,
    ) -> (res: Result<(), MetalError>)
        ensures
            match old(driver)@.take_fault(
                self.0.0,
                ObjectKind::ComputeCommandEncoder,
                fence.0.0,
                ObjectKind::Fence,
            ) {
                Some(e) => res == Err::<(), MetalError>(e) && final(driver)@ == old(driver)@,
                None => res is Ok && final(driver)@ == old(driver)@.record_with(
                    self.0.0,
                    (Call::WaitForFence { fence: fence.0.0 }),
                    fence.0.0,
                ),
            },
            old(driver)@.leads_to(final(driver)@),
    {
        record_with(
            driver,
            self.0.0,
            ObjectKind::ComputeCommandEncoder,
            Call::WaitForFence { fence: fence.0.0 },
            fence.0.0,
            ObjectKind::Fence,
        )
    }
}

} // verus!
