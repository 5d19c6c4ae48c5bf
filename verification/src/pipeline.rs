//! Pipelines: the descriptors that say what a pipeline is to be like, and the states that
//! are made from them, compiled, validated and fixed.

use vstd::prelude::*;
use crate::descriptor::MTLAttributeDescriptor;
use crate::descriptor::MTLAttributeDescriptorArray;
use crate::descriptor::MTLBufferLayoutDescriptor;
use crate::descriptor::MTLBufferLayoutDescriptorArray;
use crate::descriptor::MTLPipelineBufferDescriptor;
use crate::descriptor::MTLPipelineBufferDescriptorArray;
use crate::descriptor::MTLRenderPipelineColorAttachmentDescriptor;
use crate::descriptor::MTLRenderPipelineColorAttachmentDescriptorArray;
use crate::descriptor::MTLVertexAttributeDescriptor;
use crate::descriptor::MTLVertexAttributeDescriptorArray;
use crate::descriptor::MTLVertexBufferLayoutDescriptor;
use crate::descriptor::MTLVertexBufferLayoutDescriptorArray;
use crate::driver::Driver;
use crate::error::MetalError;
use crate::handle::Handle;
use crate::library::MTLFunction;
use crate::model::ObjectKind;

verus! {

/// A handle to a compute pipeline state.
#[derive(Debug, PartialEq, Eq)]
pub struct MTLComputePipelineState(pub Handle);

/// A handle to a render pipeline state.
#[derive(Debug, PartialEq, Eq)]
pub struct MTLRenderPipelineState(pub Handle);

impl MTLComputePipelineState {
    /// The most threads a threadgroup can have.
    pub fn max_total_threads_per_threadgroup(
        &self,
        driver: &Driver,
    ) -> (res: Result<u64, MetalError>)
        ensures
            match driver@.fault(self.0.0, ObjectKind::ComputePipelineState) {
                Some(e) => res == Err::<u64, MetalError>(e),
                None => res == Ok::<u64, MetalError>(
                    driver@.pipeline_facts(self.0.0).max_total_threads_per_threadgroup,
                ),
            },
    {
        match driver.check(self.0.0, ObjectKind::ComputePipelineState) {
            Err(e) => Err(e),
            Ok(()) => Ok(driver.pipeline_facts(self.0.0).max_total_threads_per_threadgroup),
        }
    }

    /// The number of threads that run in step.
    pub fn thread_execute_width(&self, driver: &Driver) -> (res: Result<u64, MetalError>)
        ensures
            match driver@.fault(self.0.0, ObjectKind::ComputePipelineState) {
                Some(e) => res == Err::<u64, MetalError>(e),
                None => res == Ok::<u64, MetalError>(
                    driver@.pipeline_facts(self.0.0).thread_execution_width,
                ),
            },
    {
        match driver.check(self.0.0, ObjectKind::ComputePipelineState) {
            Err(e) => Err(e),
            Ok(()) => Ok(driver.pipeline_facts(self.0.0).thread_execution_width),
        }
    }

    /// The bytes of threadgroup memory that the kernel declares.
    pub fn static_threadgroup_memory_length(
        &self,
        driver: &Driver,
    ) -> (res: Result<u64, MetalError>)
        ensures
            match driver@.fault(self.0.0, ObjectKind::ComputePipelineState) {
                Some(e) => res == Err::<u64, MetalError>(e),
                None => res == Ok::<u64, MetalError>(
                    driver@.pipeline_facts(self.0.0).static_threadgroup_memory_length,
                ),
            },
    {
        match driver.check(self.0.0, ObjectKind::ComputePipelineState) {
            Err(e) => Err(e),
            Ok(()) => Ok(driver.pipeline_facts(self.0.0).static_threadgroup_memory_length),
        }
    }

    /// Whether the pipeline can stand in an indirect command buffer.
    pub fn support_indirect_command_buffers(
        &self,
        driver: &Driver,
    ) -> (res: Result<bool, MetalError>)
        ensures
            match driver@.fault(self.0.0, ObjectKind::ComputePipelineState) {
                Some(e) => res == Err::<bool, MetalError>(e),
                None => res == Ok::<bool, MetalError>(
                    driver@.pipeline_facts(self.0.0).support_indirect_command_buffers,
                ),
            },
    {
        match driver.check(self.0.0, ObjectKind::ComputePipelineState) {
            Err(e) => Err(e),
            Ok(()) => Ok(driver.pipeline_facts(self.0.0).support_indirect_command_buffers),
        }
    }
}

impl MTLRenderPipelineState {
    /// The most threads a threadgroup can have.
    pub fn max_total_threads_per_threadgroup(
        &self,
        driver: &Driver,
    ) -> (res: Result<u64, MetalError>)
        ensures
            match driver@.fault(self.0.0, ObjectKind::RenderPipelineState) {
                Some(e) => res == Err::<u64, MetalError>(e),
                None => res == Ok::<u64, MetalError>(
                    driver@.pipeline_facts(self.0.0).max_total_threads_per_threadgroup,
                ),
            },
    {
        match driver.check(self.0.0, ObjectKind::RenderPipelineState) {
            Err(e) => Err(e),
            Ok(()) => Ok(driver.pipeline_facts(self.0.0).max_total_threads_per_threadgroup),
        }
    }

    /// Whether a threadgroup covers a tile.
    pub fn threadgroup_size_matches_tile_size(
        &self,
        driver: &Driver,
    ) -> (res: Result<bool, MetalError>)
        ensures
            match driver@.fault(self.0.0, ObjectKind::RenderPipelineState) {
                Some(e) => res == Err::<bool, MetalError>(e),
                None => res == Ok::<bool, MetalError>(
                    driver@.pipeline_facts(self.0.0).threadgroup_size_matches_tile_size,
                ),
            },
    {
        match driver.check(self.0.0, ObjectKind::RenderPipelineState) {
            Err(e) => Err(e),
            Ok(()) => Ok(driver.pipeline_facts(self.0.0).threadgroup_size_matches_tile_size),
        }
    }

    /// The bytes one sample takes in an imageblock.
    pub fn imageblock_sample_length(&self, driver: &Driver) -> (res: Result<u64, MetalError>)
        ensures
            match driver@.fault(self.0.0, ObjectKind::RenderPipelineState) {
                Some(e) => res == Err::<u64, MetalError>(e),
                None => res == Ok::<u64, MetalError>(
                    driver@.pipeline_facts(self.0.0).imageblock_sample_length,
                ),
            },
    {
        match driver.check(self.0.0, ObjectKind::RenderPipelineState) {
            Err(e) => Err(e),
            Ok(()) => Ok(driver.pipeline_facts(self.0.0).imageblock_sample_length),
        }
    }

    /// Whether the pipeline can stand in an indirect command buffer.
    pub fn support_indirect_command_buffers(
        &self,
        driver: &Driver,
    ) -> (res: Result<bool, MetalError>)
        ensures
            match driver@.fault(self.0.0, ObjectKind::RenderPipelineState) {
                Some(e) => res == Err::<bool, MetalError>(e),
                None => res == Ok::<bool, MetalError>(
                    driver@.pipeline_facts(self.0.0).support_indirect_command_buffers,
                ),
            },
    {
        match driver.check(self.0.0, ObjectKind::RenderPipelineState) {
            Err(e) => Err(e),
            Ok(()) => Ok(driver.pipeline_facts(self.0.0).support_indirect_command_buffers),
        }
    }
}

/// How the input of a compute stage is laid out.
#[derive(Debug)]
pub struct MTLStageInputOutputDescriptor {
    pub attributes: MTLAttributeDescriptorArray,
    pub layouts: MTLBufferLayoutDescriptorArray,
    /// The buffer that holds the indices.
    pub index_buffer_index: u64,
    /// The type of an index.
    pub index_type: u64,
}

impl MTLStageInputOutputDescriptor {
    /// A descriptor with nothing set.
    pub fn new() -> (descriptor: MTLStageInputOutputDescriptor)
        ensures
            descriptor.attributes.0.entries@.len() == 0,
            descriptor.attributes.0.fallback == MTLAttributeDescriptor::initial(),
            descriptor.layouts.0.entries@.len() == 0,
            descriptor.layouts.0.fallback == MTLBufferLayoutDescriptor::initial(),
            descriptor.index_buffer_index == 0,
            descriptor.index_type == 0,
    {
        MTLStageInputOutputDescriptor {
            attributes: MTLAttributeDescriptorArray::filled(MTLAttributeDescriptor::new()),
            layouts: MTLBufferLayoutDescriptorArray::filled(MTLBufferLayoutDescriptor::new()),
            index_buffer_index: 0,
            index_type: 0,
        }
    }

    /// The attributes, to read and to set.
    pub fn get_attributes(&mut self) -> (attributes: &mut MTLAttributeDescriptorArray)
        ensures
            *attributes == old(self).attributes,
            final(self).attributes == *final(attributes),
            final(self).layouts == old(self).layouts,
            final(self).index_buffer_index == old(self).index_buffer_index,
            final(self).index_type == old(self).index_type,
    {
        &mut self.attributes
    }

    /// The buffer layouts, to read and to set.
    pub fn get_layouts(&mut self) -> (layouts: &mut MTLBufferLayoutDescriptorArray)
        ensures
            *layouts == old(self).layouts,
            final(self).layouts == *final(layouts),
            final(self).attributes == old(self).attributes,
            final(self).index_buffer_index == old(self).index_buffer_index,
            final(self).index_type == old(self).index_type,
    {
        &mut self.layouts
    }

    /// Sets the buffer that holds the indices.
    pub fn set_index_buffer_index(&mut self, index: u64)
        ensures
            final(self).index_buffer_index == index,
            final(self).index_type == old(self).index_type,
            final(self).attributes == old(self).attributes,
            final(self).layouts == old(self).layouts,
    {
        self.index_buffer_index = index;
    }

    /// Sets the type of an index.
    pub fn set_index_type(&mut self, index_type: u64)
        ensures
            final(self).index_type == index_type,
            final(self).index_buffer_index == old(self).index_buffer_index,
            final(self).attributes == old(self).attributes,
            final(self).layouts == old(self).layouts,
    {
        self.index_type = index_type;
    }

    /// Puts the descriptor back to what it was when it was made.
    pub fn reset(&mut self)
        ensures
            final(self).attributes.0.entries@.len() == 0,
            final(self).attributes.0.fallback == old(self).attributes.0.fallback,
            final(self).layouts.0.entries@.len() == 0,
            final(self).layouts.0.fallback == old(self).layouts.0.fallback,
            final(self).index_buffer_index == 0,
            final(self).index_type == 0,
    {
        self.attributes.0.clear();
        self.layouts.0.clear();
        self.index_buffer_index = 0;
        self.index_type = 0;
    }
}

/// How the vertices of a render pipeline are laid out.
#[derive(Debug)]
pub struct MTLVertexDescriptor {
    pub attributes: MTLVertexAttributeDescriptorArray,
    pub layouts: MTLVertexBufferLayoutDescriptorArray,
}

impl MTLVertexDescriptor {
    /// A descriptor with nothing set.
    pub fn new() -> (descriptor: MTLVertexDescriptor)
        ensures
            descriptor.attributes.0.entries@.len() == 0,
            descriptor.attributes.0.fallback == MTLVertexAttributeDescriptor::initial(),
            descriptor.layouts.0.entries@.len() == 0,
            descriptor.layouts.0.fallback == MTLVertexBufferLayoutDescriptor::initial(),
    {
        MTLVertexDescriptor {
            attributes: MTLVertexAttributeDescriptorArray::filled(
                MTLVertexAttributeDescriptor::new(),
            ),
            layouts: MTLVertexBufferLayoutDescriptorArray::filled(
                MTLVertexBufferLayoutDescriptor::new(),
            ),
        }
    }

    /// The attributes, to read and to set.
    pub fn get_attributes(&mut self) -> (attributes: &mut MTLVertexAttributeDescriptorArray)
        ensures
            *attributes == old(self).attributes,
            final(self).attributes == *final(attributes),
            final(self).layouts == old(self).layouts,
    {
        &mut self.attributes
    }

    /// The buffer layouts, to read and to set.
    pub fn get_layouts(&mut self) -> (layouts: &mut MTLVertexBufferLayoutDescriptorArray)
        ensures
            *layouts == old(self).layouts,
            final(self).layouts == *final(layouts),
            final(self).attributes == old(self).attributes,
    {
        &mut self.layouts
    }

    /// Puts the descriptor back to what it was when it was made.
    pub fn reset(&mut self)
        ensures
            final(self).attributes.0.entries@.len() == 0,
            final(self).attributes.0.fallback == old(self).attributes.0.fallback,
            final(self).layouts.0.entries@.len() == 0,
            final(self).layouts.0.fallback == old(self).layouts.0.fallback,
    {
        self.attributes.0.clear();
        self.layouts.0.clear();
    }
}

/// What a compute pipeline is to be like.
#[derive(Debug)]
pub struct MTLComputePipelineDescriptor {
    /// The kernel, by the number of its object; 0 for none. The descriptor names the
    /// function and holds no reference to it.
    pub compute_function: u64,
    /// Whether every threadgroup is a multiple of the execution width, as a number.
    pub threadgroup_size_is_multiple_of_thread_execution_width: u64,
    /// The number of threads a threadgroup has at most; 0 for no limit of its own.
    pub max_total_threads_per_threadgroup: u64,
    pub stage_input_descriptor: MTLStageInputOutputDescriptor,
    pub buffers: MTLPipelineBufferDescriptorArray,
}

impl MTLComputePipelineDescriptor {
    /// A descriptor with nothing set.
    pub fn new() -> (descriptor: MTLComputePipelineDescriptor)
        ensures
            descriptor.compute_function == 0,
            descriptor.threadgroup_size_is_multiple_of_thread_execution_width == 0,
            descriptor.max_total_threads_per_threadgroup == 0,
            descriptor.buffers.0.entries@.len() == 0,
            descriptor.buffers.0.fallback == MTLPipelineBufferDescriptor::initial(),
    {
        MTLComputePipelineDescriptor {
            compute_function: 0,
            threadgroup_size_is_multiple_of_thread_execution_width: 0,
            max_total_threads_per_threadgroup: 0,
            stage_input_descriptor: MTLStageInputOutputDescriptor::new(),
            buffers: MTLPipelineBufferDescriptorArray::filled(MTLPipelineBufferDescriptor::new()),
        }
    }

    /// The kernel, retained: the handle has a reference of its own.
    pub fn get_compute_function(
        &self,
        driver: &mut Driver,
    ) -> (res: Result<MTLFunction, MetalError>)
        ensures
            match old(driver)@.retain_fault(self.compute_function) {
                Some(e) => res == Err::<MTLFunction, MetalError>(
                    e,
                ) && final(driver)@ == old(driver)@,
                None => res == Ok::<MTLFunction, MetalError>(
                    MTLFunction(Handle(self.compute_function)),
                ) && final(driver)@ == old(driver)@.retain(self.compute_function),
            },
            old(driver)@.leads_to(final(driver)@),
    {
        match Handle::wrap_and_retain(driver, self.compute_function) {
            Ok(handle) => Ok(MTLFunction(handle)),
            Err(e) => Err(e),
        }
    }

    /// Sets the kernel.
    pub fn set_compute_function(&mut self, function: &MTLFunction)
        ensures
            final(self).compute_function == function.0.0,
            final(self).threadgroup_size_is_multiple_of_thread_execution_width == old(
                self,
            ).threadgroup_size_is_multiple_of_thread_execution_width,
            final(self).max_total_threads_per_threadgroup == old(
                self,
            ).max_total_threads_per_threadgroup,
            final(self).stage_input_descriptor == old(self).stage_input_descriptor,
            final(self).buffers == old(self).buffers,
    {
        self.compute_function = function.0.0;
    }

    /// Whether every threadgroup is a multiple of the execution width, as a number.
    pub fn is_threadgroup_size_is_multiple_of_thread_execution_width(&self) -> (width: u64)
        ensures
            width == self.threadgroup_size_is_multiple_of_thread_execution_width,
    {
        self.threadgroup_size_is_multiple_of_thread_execution_width
    }

    /// Sets whether every threadgroup is a multiple of the execution width, as a number.
    pub fn set_threadgroup_size_is_multiple_of_thread_execution_width(&mut self, width: u64)
        ensures
            final(self).threadgroup_size_is_multiple_of_thread_execution_width == width,
            final(self).compute_function == old(self).compute_function,
            final(self).max_total_threads_per_threadgroup == old(
                self,
            ).max_total_threads_per_threadgroup,
            final(self).stage_input_descriptor == old(self).stage_input_descriptor,
            final(self).buffers == old(self).buffers,
    {
        self.threadgroup_size_is_multiple_of_thread_execution_width = width;
    }

    /// The number of threads a threadgroup has at most.
    pub fn get_max_total_threads_per_threadgroup(&self) -> (max: u64)
        ensures
            max == self.max_total_threads_per_threadgroup,
    {
        self.max_total_threads_per_threadgroup
    }

    /// Sets the number of threads a threadgroup has at most.
    pub fn set_max_total_threads_per_threadgroup(&mut self, max: u64)
        ensures
            final(self).max_total_threads_per_threadgroup == max,
            final(self).compute_function == old(self).compute_function,
            final(self).threadgroup_size_is_multiple_of_thread_execution_width == old(
                self,
            ).threadgroup_size_is_multiple_of_thread_execution_width,
            final(self).stage_input_descriptor == old(self).stage_input_descriptor,
            final(self).buffers == old(self).buffers,
    {
        self.max_total_threads_per_threadgroup = max;
    }

    /// The layout of the stage input, to read and to set.
    pub fn get_stage_input_descriptor(&mut self) -> (descriptor: &mut MTLStageInputOutputDescriptor)
        ensures
            *descriptor == old(self).stage_input_descriptor,
            final(self).stage_input_descriptor == *final(descriptor),
            final(self).compute_function == old(self).compute_function,
            final(self).threadgroup_size_is_multiple_of_thread_execution_width == old(
                self,
            ).threadgroup_size_is_multiple_of_thread_execution_width,
            final(self).max_total_threads_per_threadgroup == old(
                self,
            ).max_total_threads_per_threadgroup,
            final(self).buffers == old(self).buffers,
    {
        &mut self.stage_input_descriptor
    }

    /// Sets the layout of the stage input.
    pub fn set_stage_input_descriptor(&mut self, descriptor: MTLStageInputOutputDescriptor)
        ensures
            final(self).stage_input_descriptor == descriptor,
            final(self).compute_function == old(self).compute_function,
            final(self).threadgroup_size_is_multiple_of_thread_execution_width == old(
                self,
            ).threadgroup_size_is_multiple_of_thread_execution_width,
            final(self).max_total_threads_per_threadgroup == old(
                self,
            ).max_total_threads_per_threadgroup,
            final(self).buffers == old(self).buffers,
    {
        self.stage_input_descriptor = descriptor;
    }

    /// What the pipeline may do with its buffers, to read and to set.
    pub fn get_buffers(&mut self) -> (buffers: &mut MTLPipelineBufferDescriptorArray)
        ensures
            *buffers == old(self).buffers,
            final(self).buffers == *final(buffers),
            final(self).compute_function == old(self).compute_function,
            final(self).threadgroup_size_is_multiple_of_thread_execution_width == old(
                self,
            ).threadgroup_size_is_multiple_of_thread_execution_width,
            final(self).max_total_threads_per_threadgroup == old(
                self,
            ).max_total_threads_per_threadgroup,
            final(self).stage_input_descriptor == old(self).stage_input_descriptor,
    {
        &mut self.buffers
    }
}

/// The settings of a render pipeline that are plain values.
#[derive(Copy, Clone, Debug, PartialEq, Eq, Structural)]
pub struct RenderPipelineOptions {
    /// The format of a texel of the depth attachment.
    pub depth_attachment_pixel_format: u64,
    /// The format of a texel of the stencil attachment.
    pub stencil_attachment_pixel_format: u64,
    /// The number of samples in each texel.
    pub sample_count: u64,
    /// Whether alpha is turned into coverage.
    pub alpha_to_coverage_enabled: bool,
    /// Whether alpha is forced to one.
    pub alpha_to_one_enabled: bool,
    /// Whether primitives are rasterized.
    pub rasterization_enabled: bool,
    /// The kind of primitive that is drawn.
    pub input_primitive_topology: u64,
    /// The number of samples taken in rasterization.
    pub raster_sample_count: u64,
    /// The highest tessellation factor.
    pub max_tessellation_factor: u64,
    /// Whether tessellation factors are scaled.
    pub tessellation_factor_scale_enabled: bool,
    /// The format of a tessellation factor.
    pub tessellation_factor_format: u64,
    /// The type of an index of a control point.
    pub tessellation_control_point_index_type: u64,
    /// When the next tessellation factor is taken.
    pub tessellation_factor_step_function: u64,
    /// The winding of what tessellation puts out.
    pub tessellation_output_winding_order: u64,
    /// How a patch is partitioned.
    pub tessellation_partition_mode: u64,
    /// Whether the pipeline can stand in an indirect command buffer.
    pub support_indirect_command_buffers: bool,
    /// How often a vertex is amplified at most.
    pub max_vertex_amplification_count: u64,
}

impl RenderPipelineOptions {
    /// The settings as they are before anything is set.
    pub open spec fn initial() -> RenderPipelineOptions {
        RenderPipelineOptions {
            depth_attachment_pixel_format: 0,
            stencil_attachment_pixel_format: 0,
            sample_count: 1,
            alpha_to_coverage_enabled: false,
            alpha_to_one_enabled: false,
            rasterization_enabled: true,
            input_primitive_topology: 0,
            raster_sample_count: 1,
            max_tessellation_factor: 16,
            tessellation_factor_scale_enabled: false,
            tessellation_factor_format: 0,
            tessellation_control_point_index_type: 0,
            tessellation_factor_step_function: 0,
            tessellation_output_winding_order: 0,
            tessellation_partition_mode: 0,
            support_indirect_command_buffers: false,
            max_vertex_amplification_count: 1,
        }
    }

    /// Settings with nothing set.
    pub fn new() -> (options: RenderPipelineOptions)
        ensures
            options == RenderPipelineOptions::initial(),
    {
        RenderPipelineOptions {
            depth_attachment_pixel_format: 0,
            stencil_attachment_pixel_format: 0,
            sample_count: 1,
            alpha_to_coverage_enabled: false,
            alpha_to_one_enabled: false,
            rasterization_enabled: true,
            input_primitive_topology: 0,
            raster_sample_count: 1,
            max_tessellation_factor: 16,
            tessellation_factor_scale_enabled: false,
            tessellation_factor_format: 0,
            tessellation_control_point_index_type: 0,
            tessellation_factor_step_function: 0,
            tessellation_output_winding_order: 0,
            tessellation_partition_mode: 0,
            support_indirect_command_buffers: false,
            max_vertex_amplification_count: 1,
        }
    }
}

/// What a render pipeline is to be like.
#[derive(Debug)]
pub struct MTLRenderPipelineDescriptor {
    /// The vertex function, by the number of its object; 0 for none. The descriptor names
    /// its functions and holds no reference to them.
    pub vertex_function: u64,
    /// The fragment function, by the number of its object; 0 for none.
    pub fragment_function: u64,
    pub vertex_descriptor: MTLVertexDescriptor,
    pub vertex_buffers: MTLPipelineBufferDescriptorArray,
    pub fragment_buffers: MTLPipelineBufferDescriptorArray,
    pub color_attachments: MTLRenderPipelineColorAttachmentDescriptorArray,
    pub options: RenderPipelineOptions,
}

impl MTLRenderPipelineDescriptor {
    /// Whether the two descriptors name the same functions and lay out the same vertices,
    /// buffers and attachments.
    pub open spec fn same_stages(&self, other: &MTLRenderPipelineDescriptor) -> bool {
        &&& self.vertex_function == other.vertex_function
        &&& self.fragment_function == other.fragment_function
        &&& self.vertex_descriptor == other.vertex_descriptor
        &&& self.vertex_buffers == other.vertex_buffers
        &&& self.fragment_buffers == other.fragment_buffers
        &&& self.color_attachments == other.color_attachments
    }

    /// A descriptor with nothing set.
    pub fn new() -> (descriptor: MTLRenderPipelineDescriptor)
        ensures
            descriptor.vertex_function == 0,
            descriptor.fragment_function == 0,
            descriptor.vertex_buffers.0.entries@.len() == 0,
            descriptor.vertex_buffers.0.fallback == MTLPipelineBufferDescriptor::initial(),
            descriptor.fragment_buffers.0.entries@.len() == 0,
            descriptor.fragment_buffers.0.fallback == MTLPipelineBufferDescriptor::initial(),
            descriptor.color_attachments.0.entries@.len() == 0,
            descriptor.color_attachments.0.fallback
                == MTLRenderPipelineColorAttachmentDescriptor::initial(),
            descriptor.options == RenderPipelineOptions::initial(),
    {
        MTLRenderPipelineDescriptor {
            vertex_function: 0,
            fragment_function: 0,
            vertex_descriptor: MTLVertexDescriptor::new(),
            vertex_buffers: MTLPipelineBufferDescriptorArray::filled(
                MTLPipelineBufferDescriptor::new(),
            ),
            fragment_buffers: MTLPipelineBufferDescriptorArray::filled(
                MTLPipelineBufferDescriptor::new(),
            ),
            color_attachments: MTLRenderPipelineColorAttachmentDescriptorArray::filled(
                MTLRenderPipelineColorAttachmentDescriptor::new(),
            ),
            options: RenderPipelineOptions::new(),
        }
    }

    /// The vertex function, retained: the handle has a reference of its own.
    pub fn get_vertex_function(&self, driver: &mut Driver) -> (res: Result<MTLFunction, MetalError>)
        ensures
            match old(driver)@.retain_fault(self.vertex_function) {
                Some(e) => res == Err::<MTLFunction, MetalError>(
                    e,
                ) && final(driver)@ == old(driver)@,
                None => res == Ok::<MTLFunction, MetalError>(
                    MTLFunction(Handle(self.vertex_function)),
                ) && final(driver)@ == old(driver)@.retain(self.vertex_function),
            },
            old(driver)@.leads_to(final(driver)@),
    {
        match Handle::wrap_and_retain(driver, self.vertex_function) {
            Ok(handle) => Ok(MTLFunction(handle)),
            Err(e) => Err(e),
        }
    }

    /// Sets the vertex function.
    pub fn set_vertex_function(&mut self, function: &MTLFunction)
        ensures
            final(self).vertex_function == function.0.0,
            final(self).fragment_function == old(self).fragment_function,
            final(self).vertex_descriptor == old(self).vertex_descriptor,
            final(self).vertex_buffers == old(self).vertex_buffers,
            final(self).fragment_buffers == old(self).fragment_buffers,
            final(self).color_attachments == old(self).color_attachments,
            final(self).options == old(self).options,
    {
        self.vertex_function = function.0.0;
    }

    /// The fragment function, retained: the handle has a reference of its own.
    pub fn get_fragment_function(
        &self,
        driver: &mut Driver,
    ) -> (res: Result<MTLFunction, MetalError>)
        ensures
            match old(driver)@.retain_fault(self.fragment_function) {
                Some(e) => res == Err::<MTLFunction, MetalError>(
                    e,
                ) && final(driver)@ == old(driver)@,
                None => res == Ok::<MTLFunction, MetalError>(
                    MTLFunction(Handle(self.fragment_function)),
                ) && final(driver)@ == old(driver)@.retain(self.fragment_function),
            },
            old(driver)@.leads_to(final(driver)@),
    {
        match Handle::wrap_and_retain(driver, self.fragment_function) {
            Ok(handle) => Ok(MTLFunction(handle)),
            Err(e) => Err(e),
        }
    }

    /// Sets the fragment function.
    pub fn set_fragment_function(&mut self, function: &MTLFunction)
        ensures
            final(self).fragment_function == function.0.0,
            final(self).vertex_function == old(self).vertex_function,
            final(self).vertex_descriptor == old(self).vertex_descriptor,
            final(self).vertex_buffers == old(self).vertex_buffers,
            final(self).fragment_buffers == old(self).fragment_buffers,
            final(self).color_attachments == old(self).color_attachments,
            final(self).options == old(self).options,
    {
        self.fragment_function = function.0.0;
    }

    /// Sets how the vertices are laid out.
    pub fn set_vertex_descriptor(&mut self, descriptor: MTLVertexDescriptor)
        ensures
            final(self).vertex_descriptor == descriptor,
            final(self).vertex_function == old(self).vertex_function,
            final(self).fragment_function == old(self).fragment_function,
            final(self).vertex_buffers == old(self).vertex_buffers,
            final(self).fragment_buffers == old(self).fragment_buffers,
            final(self).color_attachments == old(self).color_attachments,
            final(self).options == old(self).options,
    {
        self.vertex_descriptor = descriptor;
    }

    /// What the pipeline may do with its vertex buffers, to read and to set.
    pub fn get_vertex_buffers(&mut self) -> (buffers: &mut MTLPipelineBufferDescriptorArray)
        ensures
            *buffers == old(self).vertex_buffers,
            final(self).vertex_buffers == *final(buffers),
            final(self).vertex_function == old(self).vertex_function,
            final(self).fragment_function == old(self).fragment_function,
            final(self).vertex_descriptor == old(self).vertex_descriptor,
            final(self).fragment_buffers == old(self).fragment_buffers,
            final(self).color_attachments == old(self).color_attachments,
            final(self).options == old(self).options,
    {
        &mut self.vertex_buffers
    }

    /// What the pipeline may do with its fragment buffers, to read and to set.
    pub fn get_fragment_buffers(&mut self) -> (buffers: &mut MTLPipelineBufferDescriptorArray)
        ensures
            *buffers == old(self).fragment_buffers,
            final(self).fragment_buffers == *final(buffers),
            final(self).vertex_function == old(self).vertex_function,
            final(self).fragment_function == old(self).fragment_function,
            final(self).vertex_descriptor == old(self).vertex_descriptor,
            final(self).vertex_buffers == old(self).vertex_buffers,
            final(self).color_attachments == old(self).color_attachments,
            final(self).options == old(self).options,
    {
        &mut self.fragment_buffers
    }

    /// How the pipeline writes its colour attachments, to read and to set.
    pub fn get_color_attachments(
        &mut self,
    ) -> (attachments: &mut MTLRenderPipelineColorAttachmentDescriptorArray)
        ensures
            *attachments == old(self).color_attachments,
            final(self).color_attachments == *final(attachments),
            final(self).vertex_function == old(self).vertex_function,
            final(self).fragment_function == old(self).fragment_function,
            final(self).vertex_descriptor == old(self).vertex_descriptor,
            final(self).vertex_buffers == old(self).vertex_buffers,
            final(self).fragment_buffers == old(self).fragment_buffers,
            final(self).options == old(self).options,
    {
        &mut self.color_attachments
    }

    /// Sets the format of a texel of the depth attachment.
    pub fn set_depth_attachment_pixel_format(&mut self, format: u64)
        ensures
            final(self).options == (RenderPipelineOptions {
                depth_attachment_pixel_format: format,
                ..old(self).options
            }),
            final(self).same_stages(old(self)),
    {
        self.options.depth_attachment_pixel_format = format;
    }

    /// Sets the format of a texel of the stencil attachment.
    pub fn set_stencil_attachment_pixel_format(&mut self, format: u64)
        ensures
            final(self).options == (RenderPipelineOptions {
                stencil_attachment_pixel_format: format,
                ..old(self).options
            }),
            final(self).same_stages(old(self)),
    {
        self.options.stencil_attachment_pixel_format = format;
    }

    /// Sets the number of samples in each texel.
    pub fn set_sample_count(&mut self, count: u64)
        ensures
            final(self).options == (RenderPipelineOptions {
                sample_count: count,
                ..old(self).options
            }),
            final(self).same_stages(old(self)),
    {
        self.options.sample_count = count;
    }

    /// Sets whether alpha is turned into coverage.
    pub fn set_alpha_to_coverage_enabled(&mut self, enabled: bool)
        ensures
            final(self).options == (RenderPipelineOptions {
                alpha_to_coverage_enabled: enabled,
                ..old(self).options
            }),
            final(self).same_stages(old(self)),
    {
        self.options.alpha_to_coverage_enabled = enabled;
    }

    /// Sets whether alpha is forced to one.
    pub fn set_alpha_to_one_enabled(&mut self, enabled: bool)
        ensures
            final(self).options == (RenderPipelineOptions {
                alpha_to_one_enabled: enabled,
                ..old(self).options
            }),
            final(self).same_stages(old(self)),
    {
        self.options.alpha_to_one_enabled = enabled;
    }

    /// Sets whether primitives are rasterized.
    pub fn set_rasterization_enabled(&mut self, enabled: bool)
        ensures
            final(self).options == (RenderPipelineOptions {
                rasterization_enabled: enabled,
                ..old(self).options
            }),
            final(self).same_stages(old(self)),
    {
        self.options.rasterization_enabled = enabled;
    }

    /// Sets the kind of primitive that is drawn.
    pub fn set_input_primitive_topology(&mut self, topology: u64)
        ensures
            final(self).options == (RenderPipelineOptions {
                input_primitive_topology: topology,
                ..old(self).options
            }),
            final(self).same_stages(old(self)),
    {
        self.options.input_primitive_topology = topology;
    }

    /// Sets the number of samples taken in rasterization.
    pub fn set_raster_sample_count(&mut self, count: u64)
        ensures
            final(self).options == (RenderPipelineOptions {
                raster_sample_count: count,
                ..old(self).options
            }),
            final(self).same_stages(old(self)),
    {
        self.options.raster_sample_count = count;
    }

    /// Sets the highest tessellation factor.
    pub fn set_max_tessellation_factor(&mut self, factor: u64)
        ensures
            final(self).options == (RenderPipelineOptions {
                max_tessellation_factor: factor,
                ..old(self).options
            }),
            final(self).same_stages(old(self)),
    {
        self.options.max_tessellation_factor = factor;
    }

    /// Sets whether tessellation factors are scaled.
    pub fn set_tessellation_factor_scale_enabled(&mut self, enabled: bool)
        ensures
            final(self).options == (RenderPipelineOptions {
                tessellation_factor_scale_enabled: enabled,
                ..old(self).options
            }),
            final(self).same_stages(old(self)),
    {
        self.options.tessellation_factor_scale_enabled = enabled;
    }

    /// Sets the format of a tessellation factor.
    pub fn set_tessellation_factor_format(&mut self, format: u64)
        ensures
            final(self).options == (RenderPipelineOptions {
                tessellation_factor_format: format,
                ..old(self).options
            }),
            final(self).same_stages(old(self)),
    {
        self.options.tessellation_factor_format = format;
    }

    /// Sets the type of an index of a control point.
    pub fn set_tessellation_control_point_index_type(&mut self, index_type: u64)
        ensures
            final(self).options == (RenderPipelineOptions {
                tessellation_control_point_index_type: index_type,
                ..old(self).options
            }),
            final(self).same_stages(old(self)),
    {
        self.options.tessellation_control_point_index_type = index_type;
    }

    /// Sets when the next tessellation factor is taken.
    pub fn set_tessellation_factor_step_function(&mut self, step_function: u64)
        ensures
            final(self).options == (RenderPipelineOptions {
                tessellation_factor_step_function: step_function,
                ..old(self).options
            }),
            final(self).same_stages(old(self)),
    {
        self.options.tessellation_factor_step_function = step_function;
    }

    /// Sets the winding of what tessellation puts out.
    pub fn set_tessellation_output_winding_order(&mut self, winding: u64)
        ensures
            final(self).options == (RenderPipelineOptions {
                tessellation_output_winding_order: winding,
                ..old(self).options
            }),
            final(self).same_stages(old(self)),
    {
        self.options.tessellation_output_winding_order = winding;
    }

    /// Sets how a patch is partitioned.
    pub fn set_tessellation_partition_mode(&mut self, mode: u64)
        ensures
            final(self).options == (RenderPipelineOptions {
                tessellation_partition_mode: mode,
                ..old(self).options
            }),
            final(self).same_stages(old(self)),
    {
        self.options.tessellation_partition_mode = mode;
    }

    /// Sets whether the pipeline can stand in an indirect command buffer.
    pub fn set_support_indirect_command_buffers(&mut self, support: bool)
        ensures
            final(self).options == (RenderPipelineOptions {
                support_indirect_command_buffers: support,
                ..old(self).options
            }),
            final(self).same_stages(old(self)),
    {
        self.options.support_indirect_command_buffers = support;
    }

    /// Sets how often a vertex is amplified at most.
    pub fn set_max_vertex_amplification_count(&mut self, count: u64)
        ensures
            final(self).options == (RenderPipelineOptions {
                max_vertex_amplification_count: count,
                ..old(self).options
            }),
            final(self).same_stages(old(self)),
    {
        self.options.max_vertex_amplification_count = count;
    }
}

} // verus!
