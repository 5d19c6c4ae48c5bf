use cull_canyon::descriptor::DeviceInfo;
use cull_canyon::descriptor::MTLArgumentDescriptor;
use cull_canyon::descriptor::MTLIndirectCommandBufferDescriptor;
use cull_canyon::descriptor::MTLRenderPipelineColorAttachmentDescriptor;
use cull_canyon::descriptor::MTLSamplerDescriptor;
use cull_canyon::descriptor::MTLTextureDescriptor;
use cull_canyon::descriptor::MTLVertexBufferLayoutDescriptor;
use cull_canyon::device::MTLDevice;
use cull_canyon::driver::Driver;
use cull_canyon::pipeline::MTLRenderPipelineDescriptor;
use cull_canyon::pipeline::MTLVertexDescriptor;
use cull_canyon::pipeline::RenderPipelineOptions;

#[test]
fn a_texture_descriptor_keeps_what_is_set() {
    let mut descriptor = MTLTextureDescriptor::new();
    descriptor.set_texture_type(7);
    descriptor.set_pixel_format(115);
    descriptor.set_width(32);
    descriptor.set_height(16);
    descriptor.set_mipmap_level_count(3);
    descriptor.set_usage(5);
    descriptor.set_resource_options(32);
    assert_eq!(
        descriptor,
        MTLTextureDescriptor {
            texture_type: 7,
            pixel_format: 115,
            width: 32,
            height: 16,
            depth: 1,
            mipmap_level_count: 3,
            sample_count: 1,
            array_length: 1,
            resource_options: 32,
            cpu_cache_mode: 0,
            storage_mode: 0,
            hazard_tracking_mode: 0,
            allow_gpu_optimized_contents: true,
            usage: 5,
            swizzle_red: 2,
            swizzle_green: 3,
            swizzle_blue: 4,
            swizzle_alpha: 5,
        }
    );
}

#[test]
fn a_sampler_descriptor_keeps_what_is_set() {
    let mut descriptor = MTLSamplerDescriptor::new();
    descriptor.set_r_address_mode(1);
    descriptor.set_s_address_mode(2);
    descriptor.set_t_address_mode(3);
    descriptor.set_border_color(2);
    descriptor.set_mip_filter(2);
    descriptor.set_lod_average_enabled(true);
    descriptor.set_compare_function(4);
    descriptor.set_support_argument_buffers(true);
    assert_eq!(
        descriptor,
        MTLSamplerDescriptor {
            normalized_coords: true,
            r_address_mode: 1,
            s_address_mode: 2,
            t_address_mode: 3,
            border_color: 2,
            min_filter: 0,
            mag_filter: 0,
            mip_filter: 2,
            lod_average_enabled: true,
            max_anisotropy: 1,
            compare_function: 4,
            support_argument_buffers: true,
        }
    );
}

#[test]
fn small_descriptors_keep_what_is_set() {
    let mut argument = MTLArgumentDescriptor::new();
    argument.set_array_length(4);
    argument.set_constant_block_alignment(16);
    argument.set_texture_type(5);
    assert_eq!(
        argument,
        MTLArgumentDescriptor {
            data_type: 0,
            index: 0,
            access: 0,
            array_length: 4,
            constant_block_alignment: 16,
            texture_type: 5,
        }
    );
    let mut indirect = MTLIndirectCommandBufferDescriptor::new();
    indirect.set_inherit_pipeline_state(true);
    indirect.set_max_vertex_buffer_bind_count(3);
    indirect.set_max_fragment_buffer_bind_count(2);
    indirect.set_max_kernel_buffer_bind_count(1);
    assert_eq!(
        indirect,
        MTLIndirectCommandBufferDescriptor {
            command_types: 0,
            inherit_buffers: false,
            inherit_pipeline_state: true,
            max_vertex_buffer_bind_count: 3,
            max_fragment_buffer_bind_count: 2,
            max_kernel_buffer_bind_count: 1,
        }
    );
    let mut color = MTLRenderPipelineColorAttachmentDescriptor::new();
    color.set_write_mask(7);
    color.set_alpha_blend_operation(1);
    color.set_rgb_blend_operation(2);
    color.set_destination_alpha_blend_factor(5);
    color.set_destination_rgb_blend_factor(5);
    color.set_source_alpha_blend_factor(4);
    color.set_source_rgb_blend_factor(4);
    assert_eq!(
        color,
        MTLRenderPipelineColorAttachmentDescriptor {
            pixel_format: 0,
            write_mask: 7,
            blending_enabled: false,
            alpha_blend_operation: 1,
            rgb_blend_operation: 2,
            destination_alpha_blend_factor: 5,
            destination_rgb_blend_factor: 5,
            source_alpha_blend_factor: 4,
            source_rgb_blend_factor: 4,
        }
    );
}

#[test]
fn a_render_pipeline_descriptor_keeps_what_is_set() {
    let mut descriptor = MTLRenderPipelineDescriptor::new();
    descriptor.set_stencil_attachment_pixel_format(253);
    descriptor.set_alpha_to_coverage_enabled(true);
    descriptor.set_alpha_to_one_enabled(true);
    descriptor.set_input_primitive_topology(3);
    descriptor.set_raster_sample_count(4);
    descriptor.set_max_tessellation_factor(64);
    descriptor.set_tessellation_factor_scale_enabled(true);
    descriptor.set_tessellation_factor_format(1);
    descriptor.set_tessellation_control_point_index_type(2);
    descriptor.set_tessellation_factor_step_function(3);
    descriptor.set_tessellation_output_winding_order(1);
    descriptor.set_tessellation_partition_mode(2);
    descriptor.set_support_indirect_command_buffers(true);
    descriptor.set_max_vertex_amplification_count(2);
    assert_eq!(
        descriptor.options,
        RenderPipelineOptions {
            depth_attachment_pixel_format: 0,
            stencil_attachment_pixel_format: 253,
            sample_count: 1,
            alpha_to_coverage_enabled: true,
            alpha_to_one_enabled: true,
            rasterization_enabled: true,
            input_primitive_topology: 3,
            raster_sample_count: 4,
            max_tessellation_factor: 64,
            tessellation_factor_scale_enabled: true,
            tessellation_factor_format: 1,
            tessellation_control_point_index_type: 2,
            tessellation_factor_step_function: 3,
            tessellation_output_winding_order: 1,
            tessellation_partition_mode: 2,
            support_indirect_command_buffers: true,
            max_vertex_amplification_count: 2,
        }
    );
    let mut vertex = descriptor.get_vertex_buffers().object_at_indexed_subscript(0);
    vertex.set_mutability(1);
    descriptor.get_vertex_buffers().set_object_at_indexed_subscript(0, vertex);
    let mut fragment = descriptor.get_fragment_buffers().object_at_indexed_subscript(2);
    fragment.set_mutability(2);
    descriptor.get_fragment_buffers().set_object_at_indexed_subscript(2, fragment);
    assert_eq!(descriptor.vertex_buffers.object_at_indexed_subscript(0).mutability, 1);
    assert_eq!(descriptor.vertex_buffers.object_at_indexed_subscript(2).mutability, 0);
    assert_eq!(descriptor.fragment_buffers.object_at_indexed_subscript(2).mutability, 2);
    let mut layout = MTLVertexDescriptor::new();
    let mut first = layout.get_layouts().object_at_indexed_subscript(0);
    assert_eq!(first, MTLVertexBufferLayoutDescriptor { step_function: 1, step_rate: 1, stride: 0 });
    first.set_stride(24);
    first.set_step_function(2);
    first.set_step_rate(4);
    layout.get_layouts().set_object_at_indexed_subscript(0, first);
    first.set_stride(48);
    layout.get_layouts().set_object_at_indexed_subscript(0, first);
    assert_eq!(layout.get_layouts().object_at_indexed_subscript(0).stride, 48);
    layout.reset();
    assert_eq!(layout.get_layouts().object_at_indexed_subscript(0).stride, 0);
}

#[test]
fn a_device_says_what_it_was_attached_with() {
    let mut driver = Driver::new();
    let info = DeviceInfo {
        location_number: 3,
        max_transfer_rate: 8_000_000_000,
        peer_group_id: 77,
        recommended_max_working_set_size: 1 << 33,
        programmable_sample_positions_supported: true,
        depth24_stencil8_pixel_format_supported: true,
        barycentric_coords_supported: true,
        max_argument_buffer_sampler_count: 1024,
        ..DeviceInfo::new()
    };
    driver.attach_device_with(info, "Radeon", vec![], vec![]).unwrap();
    let device = MTLDevice::create_system_default_device(&mut driver).unwrap();
    assert_eq!(device.get_location_number(&driver), Ok(3));
    assert_eq!(device.get_max_transfer_rate(&driver), Ok(8_000_000_000));
    assert_eq!(device.get_peer_group_id(&driver), Ok(77));
    assert_eq!(device.get_recommended_max_working_set_size(&driver), Ok(1 << 33));
    assert_eq!(device.are_programmable_sample_positions_supported(&driver), Ok(true));
    assert_eq!(device.is_depth24_stencil8_pixel_format_supported(&driver), Ok(true));
    assert_eq!(device.are_barycentric_coords_supported(&driver), Ok(true));
    assert_eq!(device.get_max_argument_buffer_sampler_count(&driver), Ok(1024));
    assert_eq!(device.get_current_allocated_size(&driver), Ok(0));
    assert_eq!(device.read_write_texture_support(&driver), Ok(0));
}
