use cull_canyon::buffer::MTLBuffer;
use cull_canyon::descriptor::MTLArgumentDescriptor;
use cull_canyon::descriptor::MTLDepthStencilDescriptor;
use cull_canyon::descriptor::MTLHeapDescriptor;
use cull_canyon::descriptor::MTLIndirectCommandBufferDescriptor;
use cull_canyon::descriptor::MTLSamplerDescriptor;
use cull_canyon::descriptor::MTLTextureDescriptor;
use cull_canyon::device::MTLDevice;
use cull_canyon::driver::Driver;
use cull_canyon::error::MetalError;
use cull_canyon::geometry::MTLRegion;
use cull_canyon::geometry::MTLSize;
use cull_canyon::handle::Handle;
use cull_canyon::model::Binding;
use cull_canyon::model::ResourceClass;
use cull_canyon::model::Stage;
use cull_canyon::model::Transfer;
use cull_canyon::resource::MTLResource;

fn setup() -> (Driver, MTLDevice) {
    let mut driver = Driver::new();
    driver.attach_device().unwrap();
    let device = MTLDevice::create_system_default_device(&mut driver).unwrap();
    (driver, device)
}

#[test]
fn a_heap_without_room_gives_none() {
    let (mut driver, device) = setup();
    let mut descriptor = MTLHeapDescriptor::new();
    descriptor.set_size(100);
    descriptor.set_type(1);
    descriptor.set_storage_mode(2);
    let heap = device.new_heap_with_descriptor(&mut driver, descriptor).unwrap();
    assert_eq!(heap.get_size(&driver), Ok(100));
    assert_eq!(heap.get_type(&driver), Ok(1));
    assert_eq!(heap.get_storage_mode(&driver), Ok(2));
    assert_eq!(heap.get_used_size(&driver), Ok(0));
    let first = heap.new_buffer_with_length(&mut driver, 60, 0, None).unwrap();
    assert!(first.is_some());
    assert_eq!(first.unwrap().get_length(&driver), Ok(60));
    assert_eq!(heap.get_used_size(&driver), Ok(60));
    let count = driver.object_count();
    assert_eq!(heap.new_buffer_with_length(&mut driver, 41, 0, None), Ok(None));
    assert_eq!(driver.object_count(), count);
    assert_eq!(heap.get_used_size(&driver), Ok(60));
    assert!(heap.new_buffer_with_length(&mut driver, 40, 0, None).unwrap().is_some());
    assert_eq!(heap.get_used_size(&driver), Ok(100));
    assert_eq!(heap.new_buffer_with_length(&mut driver, 1, 0, None), Ok(None));
    assert!(heap.new_buffer_with_length(&mut driver, 0, 0, None).unwrap().is_some());
}

#[test]
fn a_placed_buffer_must_lie_in_the_heap() {
    let (mut driver, device) = setup();
    let mut descriptor = MTLHeapDescriptor::new();
    descriptor.set_size(100);
    let heap = device.new_heap_with_descriptor(&mut driver, descriptor).unwrap();
    assert!(heap.new_buffer_with_length(&mut driver, 50, 0, Some(50)).unwrap().is_some());
    assert_eq!(heap.new_buffer_with_length(&mut driver, 50, 0, Some(51)), Ok(None));
    assert_eq!(
        heap.new_buffer_with_length(&mut driver, u64::MAX, 0, Some(2)),
        Ok(None)
    );
    assert_eq!(heap.get_used_size(&driver), Ok(0));
    let texture = heap
        .new_texture_with_descriptor(&mut driver, MTLTextureDescriptor::new(), None, 64)
        .unwrap();
    assert!(texture.is_some());
    assert_eq!(heap.get_used_size(&driver), Ok(64));
    assert_eq!(
        heap.new_texture_with_descriptor(&mut driver, MTLTextureDescriptor::new(), None, 64),
        Ok(None)
    );
}

#[test]
fn room_is_counted_in_whole_alignments() {
    let (mut driver, device) = setup();
    let mut descriptor = MTLHeapDescriptor::new();
    descriptor.set_size(1000);
    let heap = device.new_heap_with_descriptor(&mut driver, descriptor).unwrap();
    heap.new_buffer_with_length(&mut driver, 100, 0, None).unwrap();
    assert_eq!(heap.get_max_available_size_with_alignment(&driver, 256), Ok(768));
    assert_eq!(heap.get_max_available_size_with_alignment(&driver, 0), Ok(900));
    assert_eq!(heap.get_max_available_size_with_alignment(&driver, 1), Ok(900));
    assert_eq!(heap.get_max_available_size_with_alignment(&driver, 1024), Ok(0));
    assert_eq!(heap.get_current_allocated_size(&driver), Ok(1000));
}

#[test]
fn the_purgeable_state_is_kept_unless_asked_to_stay() {
    let (mut driver, device) = setup();
    let heap = device
        .new_heap_with_descriptor(&mut driver, MTLHeapDescriptor::new())
        .unwrap();
    assert_eq!(driver.purgeable(heap.0 .0), 2);
    heap.set_purgeable_state(&mut driver, 3).unwrap();
    assert_eq!(driver.purgeable(heap.0 .0), 3);
    heap.set_purgeable_state(&mut driver, 1).unwrap();
    assert_eq!(driver.purgeable(heap.0 .0), 3);
}

#[test]
fn a_region_is_packed_as_the_native_call_takes_it() {
    assert_eq!(
        MTLRegion::from_rectangle((1, 2, 3, 4)),
        MTLRegion { x: 1, y: 2, z: 0, width: 3, height: 4, depth: 1 }
    );
    assert_eq!(
        MTLRegion::from_box((1, 2, 3, 4, 5, 6)),
        MTLRegion { x: 1, y: 2, z: 3, width: 4, height: 5, depth: 6 }
    );
    assert_eq!(MTLSize::from_tuple((7, 8, 9)), MTLSize { w: 7, h: 8, d: 9 });
}

#[test]
fn transfers_are_noted_in_turn() {
    let (mut driver, device) = setup();
    let texture = device
        .new_texture_with_descriptor(
            &mut driver,
            MTLTextureDescriptor::texture_2d_descriptor_with_pixel_format((5, 5), false, 70),
        )
        .unwrap();
    let pixels = [0u8; 100];
    texture
        .replace_region(&mut driver, (0, 0, 5, 5), 0, &pixels, 20)
        .unwrap();
    texture
        .replace_region_arrayed(&mut driver, (1, 1, 2, 2), 1, 3, &pixels[..16], 8, 16)
        .unwrap();
    texture.get_bytes(&mut driver, 100, 20, (0, 0, 5, 5), 0).unwrap();
    texture
        .get_bytes_arrayed(&mut driver, 64, 16, 64, (0, 1, 2, 4, 4, 1), 2, 5)
        .unwrap();
    let raw = texture.0 .0;
    assert_eq!(
        driver.transfers(),
        vec![
            Transfer {
                texture: raw,
                write: true,
                region: MTLRegion { x: 0, y: 0, z: 0, width: 5, height: 5, depth: 1 },
                mipmap_level: 0,
                slice: 0,
                bytes_per_row: 20,
                bytes_per_image: 0,
                length: 100,
            },
            Transfer {
                texture: raw,
                write: true,
                region: MTLRegion { x: 1, y: 1, z: 0, width: 2, height: 2, depth: 1 },
                mipmap_level: 1,
                slice: 3,
                bytes_per_row: 8,
                bytes_per_image: 16,
                length: 16,
            },
            Transfer {
                texture: raw,
                write: false,
                region: MTLRegion { x: 0, y: 0, z: 0, width: 5, height: 5, depth: 1 },
                mipmap_level: 0,
                slice: 0,
                bytes_per_row: 20,
                bytes_per_image: 0,
                length: 100,
            },
            Transfer {
                texture: raw,
                write: false,
                region: MTLRegion { x: 0, y: 1, z: 2, width: 4, height: 4, depth: 1 },
                mipmap_level: 2,
                slice: 5,
                bytes_per_row: 16,
                bytes_per_image: 64,
                length: 64,
            },
        ]
    );
    texture.0.drop(&mut driver).unwrap();
    let gone = cull_canyon::texture::MTLTexture(Handle::wrap(raw));
    assert_eq!(
        gone.replace_region(&mut driver, (0, 0, 1, 1), 0, &pixels, 4),
        Err(MetalError::Dangling)
    );
    assert_eq!(driver.transfers().len(), 4);
}

#[test]
fn a_view_shows_its_parent() {
    let (mut driver, device) = setup();
    let parent = device
        .new_texture_with_descriptor(
            &mut driver,
            MTLTextureDescriptor::texture_2d_descriptor_with_pixel_format((64, 16), true, 70),
        )
        .unwrap();
    assert_eq!(parent.get_mipmap_level_count(&driver), Ok(7));
    assert_eq!(parent.get_parent_texture(&mut driver), Ok(None));
    assert_eq!(parent.get_buffer(&mut driver), Ok(None));
    let view = parent
        .new_texture_view_with_pixel_format(&mut driver, 71)
        .unwrap();
    assert_eq!(view.get_pixel_format(&driver), Ok(71));
    assert_eq!(view.get_width(&driver), Ok(64));
    assert_eq!(view.get_height(&driver), Ok(16));
    let again = view.get_parent_texture(&mut driver).unwrap().unwrap();
    assert_eq!(again.0 .0, parent.0 .0);
    assert_eq!(driver.retain_count(parent.0 .0), 2);
    let window = parent
        .new_texture_view_with_pixel_format_arrayed(&mut driver, 72, 3, (1, 2), (4, 5))
        .unwrap();
    assert_eq!(window.get_texture_type(&driver), Ok(3));
    assert_eq!(window.get_mipmap_level_count(&driver), Ok(2));
    assert_eq!(window.get_array_length(&driver), Ok(5));
    assert_eq!(window.get_parent_relative_level(&driver), Ok(1));
    assert_eq!(window.get_parent_relative_slice(&driver), Ok(4));
    let swizzled = parent
        .new_texture_view_with_pixel_format_arrayed_swizzle(
            &mut driver,
            72,
            3,
            (0, 1),
            (0, 1),
            (5, 4, 3, 258),
        )
        .unwrap();
    assert_eq!(swizzled.get_swizzle(&driver), Ok((5, 4, 3, 2)));
    assert_eq!(parent.get_swizzle(&driver), Ok((2, 3, 4, 5)));
    assert_eq!(parent.get_depth(&driver), Ok(1));
    assert_eq!(parent.get_sample_count(&driver), Ok(1));
    assert_eq!(parent.does_allow_gpu_optimized_contents(&driver), Ok(true));
    assert_eq!(parent.get_kind(), cull_canyon::model::ObjectKind::Texture);
    let linear = device
        .new_texture_with_descriptor(
            &mut driver,
            MTLTextureDescriptor::texture_buffer_descriptor_with_pixel_format(64, 53, 32, 1),
        )
        .unwrap();
    assert_eq!(linear.get_resource_options(&driver), Ok(32));
    assert_eq!(parent.get_obj(), parent.0 .0);
}

#[test]
fn only_a_shared_texture_crosses() {
    let (mut driver, device) = setup();
    let plain = device
        .new_texture_with_descriptor(&mut driver, MTLTextureDescriptor::new())
        .unwrap();
    let shared = device
        .new_shared_texture_with_descriptor(&mut driver, MTLTextureDescriptor::new())
        .unwrap();
    assert_eq!(plain.is_shareable(&driver), Ok(false));
    assert_eq!(shared.is_shareable(&driver), Ok(true));
    assert_eq!(plain.new_shared_texture_handle(&mut driver), Ok(None));
    let handle = shared.new_shared_texture_handle(&mut driver).unwrap().unwrap();
    let raw = handle.0 .0;
    let arrived = device.new_shared_texture_with_handle(&mut driver, handle).unwrap();
    assert_eq!(arrived.is_shareable(&driver), Ok(true));
    assert!(!driver.is_live(raw));
    let device_again = MTLDevice(device.0.clone(&mut driver).unwrap());
    let remote = shared
        .new_remote_texture_view_for_device(&mut driver, device_again)
        .unwrap();
    assert_eq!(driver.parent_texture(remote.0 .0), shared.0 .0);
    assert_eq!(driver.retain_count(device.0 .0), 2);
}

#[test]
fn buffers_know_their_length() {
    let (mut driver, device) = setup();
    let buffer = device.new_buffer_with_length(&mut driver, 48, 16).unwrap();
    assert_eq!(buffer.get_length(&driver), Ok(48));
    assert_eq!(buffer.get_resource_options(&driver), Ok(16));
    assert_eq!(buffer.did_modify_range(&driver, (4, 12)), Ok((4, 12)));
    let copied = device
        .new_buffer_with_bytes(&mut driver, &[1, 2, 3, 4, 5], 0)
        .unwrap();
    assert_eq!(copied.get_length(&driver), Ok(5));
    assert_eq!(copied.get_kind(), cull_canyon::model::ObjectKind::Buffer);
    let raw = buffer.0 .0;
    buffer.0.drop(&mut driver).unwrap();
    assert_eq!(
        MTLBuffer(Handle::wrap(raw)).get_length(&driver),
        Err(MetalError::Dangling)
    );
}

#[test]
fn states_keep_what_they_were_made_from() {
    let (mut driver, device) = setup();
    let mut sampler = MTLSamplerDescriptor::new();
    sampler.set_min_filter(1);
    sampler.set_mag_filter(1);
    sampler.set_max_anisotropy(4);
    sampler.set_normalized_coords(false);
    let state = device
        .new_sampler_state_with_descriptor(&mut driver, sampler)
        .unwrap();
    assert_eq!(state.get_descriptor(&driver), Ok(sampler));
    let mut depth = MTLDepthStencilDescriptor::new();
    depth.set_depth_write_enabled(true);
    depth.set_depth_compare_function(1);
    let state = device.new_depth_stencil_state(&mut driver, depth).unwrap();
    assert_eq!(state.get_descriptor(&driver), Ok(depth));
    let mut indirect = MTLIndirectCommandBufferDescriptor::new();
    indirect.set_command_types(3);
    indirect.set_inherit_buffers(true);
    let buffer = device
        .new_indirect_command_buffer_with_descriptor(&mut driver, indirect, 32, 0)
        .unwrap();
    assert_eq!(buffer.get_size(&driver), Ok(32));
    assert_eq!(driver.indirect_descriptor(buffer.0 .0), indirect);
}

#[test]
fn shared_events_are_signalled() {
    let (mut driver, device) = setup();
    let event = device.new_shared_event(&mut driver).unwrap();
    assert_eq!(event.get_signaled_value(&driver), Ok(0));
    event.set_signaled_value(&mut driver, 7).unwrap();
    assert_eq!(event.get_signaled_value(&driver), Ok(7));
    let handle = event.new_shared_event_handle(&mut driver).unwrap();
    let arrived = device.new_shared_event_with_handle(&mut driver, handle).unwrap();
    assert_eq!(arrived.get_signaled_value(&driver), Ok(0));
    let plain = device.new_event(&mut driver).unwrap();
    assert_eq!(driver.retain_count(plain.0 .0), 1);
}

#[test]
fn an_argument_encoder_writes_its_entries() {
    let (mut driver, device) = setup();
    let mut first = MTLArgumentDescriptor::new();
    first.set_data_type(60);
    first.set_index(0);
    let mut second = MTLArgumentDescriptor::new();
    second.set_data_type(59);
    second.set_index(1);
    second.set_access(1);
    let encoder = device
        .new_argument_encoder_with_arguments(&mut driver, &[first, second])
        .unwrap();
    assert_eq!(encoder.get_arguments(&driver), Ok(vec![first, second]));
    let target = device.new_buffer_with_length(&mut driver, 256, 0).unwrap();
    let target_raw = target.0 .0;
    let data = device.new_buffer_with_length(&mut driver, 64, 0).unwrap();
    let data_raw = data.0 .0;
    let data_again = MTLBuffer(data.0.clone(&mut driver).unwrap());
    encoder
        .set_argument_buffer_with_start_offset(&mut driver, target, 16, 2)
        .unwrap();
    assert_eq!(driver.argument_buffer(encoder.0 .0), target_raw);
    assert_eq!(driver.argument_offset(encoder.0 .0), 16);
    assert_eq!(driver.argument_element(encoder.0 .0), 2);
    encoder.set_buffer(&mut driver, data_again, 8, 0).unwrap();
    assert_eq!(
        driver.entries(encoder.0 .0),
        vec![Binding {
            stage: Stage::Any,
            class: ResourceClass::Buffer,
            index: 0,
            resource: data_raw,
            offset: 8,
            length: 0,
        }]
    );
    assert_eq!(driver.retain_count(data_raw), 1);
    assert!(!driver.is_live(target_raw));
    let other = device.new_buffer_with_length(&mut driver, 8, 0).unwrap();
    encoder.set_argument_buffer(&mut driver, other, 0).unwrap();
    assert_eq!(driver.argument_element(encoder.0 .0), 0);
}
