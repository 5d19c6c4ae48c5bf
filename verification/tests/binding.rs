use cull_canyon::buffer::MTLBuffer;
use cull_canyon::commandbuffer::MTLCommandBuffer;
use cull_canyon::compute::MTLComputeCommandEncoder;
use cull_canyon::descriptor::MTLSamplerDescriptor;
use cull_canyon::descriptor::MTLTextureDescriptor;
use cull_canyon::device::MTLDevice;
use cull_canyon::driver::Driver;
use cull_canyon::encoder::MTLCommandEncoder;
use cull_canyon::error::MetalError;
use cull_canyon::handle::Handle;
use cull_canyon::model::Binding;
use cull_canyon::model::Call;
use cull_canyon::model::ResourceClass;
use cull_canyon::model::Stage;
use cull_canyon::texture::MTLTexture;

fn setup(retained: bool) -> (Driver, MTLDevice, MTLCommandBuffer, MTLComputeCommandEncoder) {
    let mut driver = Driver::new();
    driver.attach_device().unwrap();
    let device = MTLDevice::create_system_default_device(&mut driver).unwrap();
    let queue = device.new_command_queue(&mut driver).unwrap();
    let commands = if retained {
        queue.new_command_buffer(&mut driver).unwrap()
    } else {
        queue
            .new_command_buffer_with_unretained_references(&mut driver)
            .unwrap()
    };
    let encoder = commands.new_compute_command_encoder(&mut driver).unwrap();
    (driver, device, commands, encoder)
}

fn kernel_buffer(index: u64, resource: u64, offset: u64) -> Binding {
    Binding {
        stage: Stage::Kernel,
        class: ResourceClass::Buffer,
        index,
        resource,
        offset,
        length: 0,
    }
}

#[test]
fn the_last_binding_to_a_slot_wins() {
    let (mut driver, device, _commands, encoder) = setup(true);
    let a = device.new_buffer_with_length(&mut driver, 16, 0).unwrap();
    let b = device.new_buffer_with_length(&mut driver, 16, 0).unwrap();
    let c = device.new_buffer_with_length(&mut driver, 16, 0).unwrap();
    let copy = MTLBuffer(a.0.clone(&mut driver).unwrap());
    encoder.set_buffer(&mut driver, copy, 0, 0).unwrap();
    let copy = MTLBuffer(b.0.clone(&mut driver).unwrap());
    encoder.set_buffer(&mut driver, copy, 0, 1).unwrap();
    let copy = MTLBuffer(c.0.clone(&mut driver).unwrap());
    encoder.set_buffer(&mut driver, copy, 4, 0).unwrap();
    assert_eq!(
        driver.bindings(encoder.0 .0),
        vec![kernel_buffer(1, b.0 .0, 0), kernel_buffer(0, c.0 .0, 4)]
    );
    encoder.set_buffer_offset(&mut driver, 8, 1).unwrap();
    assert_eq!(
        driver.bindings(encoder.0 .0),
        vec![kernel_buffer(1, b.0 .0, 8), kernel_buffer(0, c.0 .0, 4)]
    );
}

#[test]
fn other_classes_have_slots_of_their_own() {
    let (mut driver, device, _commands, encoder) = setup(true);
    let buffer = device.new_buffer_with_length(&mut driver, 16, 0).unwrap();
    let texture = device
        .new_texture_with_descriptor(&mut driver, MTLTextureDescriptor::new())
        .unwrap();
    let sampler = device
        .new_sampler_state_with_descriptor(&mut driver, MTLSamplerDescriptor::new())
        .unwrap();
    encoder.set_buffer(&mut driver, buffer, 0, 0).unwrap();
    encoder.set_texture(&mut driver, texture, 0).unwrap();
    encoder.set_sampler_state(&mut driver, sampler, 0).unwrap();
    encoder.set_bytes(&mut driver, &[0, 1, 2], 1).unwrap();
    encoder.set_threadgroup_memory_length(&mut driver, 64, 0).unwrap();
    let bound = driver.bindings(encoder.0 .0);
    assert_eq!(bound.len(), 5);
    assert_eq!(bound[1].class, ResourceClass::Texture);
    assert_eq!(bound[2].class, ResourceClass::Sampler);
    assert_eq!(
        bound[3],
        Binding {
            stage: Stage::Kernel,
            class: ResourceClass::Buffer,
            index: 1,
            resource: 0,
            offset: 0,
            length: 3,
        }
    );
    assert_eq!(
        bound[4],
        Binding {
            stage: Stage::Kernel,
            class: ResourceClass::ThreadgroupMemory,
            index: 0,
            resource: 0,
            offset: 0,
            length: 64,
        }
    );
}

#[test]
fn what_is_bound_lives_until_the_buffer_completes() {
    let (mut driver, device, commands, encoder) = setup(true);
    let buffer = device.new_buffer_with_length(&mut driver, 16, 0).unwrap();
    let raw = buffer.0 .0;
    assert_eq!(driver.retain_count(raw), 1);
    encoder.set_buffer(&mut driver, buffer, 0, 0).unwrap();
    assert_eq!(driver.retain_count(raw), 1);
    assert!(driver.is_live(raw));
    assert!(driver.is_pending(commands.0 .0));
    encoder.end_encoding(&mut driver).unwrap();
    commands.commit(&mut driver).unwrap();
    assert!(driver.is_live(raw));
    commands.wait_until_completed(&mut driver).unwrap();
    assert!(!driver.is_pending(commands.0 .0));
    assert_eq!(driver.retain_count(raw), 0);
    assert!(!driver.is_live(raw));
}

#[test]
fn a_buffer_that_retains_nothing_keeps_nothing_alive() {
    let (mut driver, device, _commands, encoder) = setup(false);
    let buffer = device.new_buffer_with_length(&mut driver, 16, 0).unwrap();
    let raw = buffer.0 .0;
    encoder.set_buffer(&mut driver, buffer, 0, 0).unwrap();
    assert_eq!(driver.retain_count(raw), 0);
    assert!(!driver.is_live(raw));
}

#[test]
fn a_handle_that_owns_nothing_is_not_taken() {
    let (mut driver, device, _commands, encoder) = setup(true);
    let buffer = device.new_buffer_with_length(&mut driver, 16, 0).unwrap();
    let raw = buffer.0 .0;
    buffer.0.drop(&mut driver).unwrap();
    assert_eq!(
        encoder.set_buffer(&mut driver, MTLBuffer(Handle::wrap(raw)), 0, 0),
        Err(MetalError::Dangling)
    );
    assert_eq!(
        encoder.set_buffer(&mut driver, MTLBuffer(Handle::wrap(0)), 0, 0),
        Err(MetalError::NullHandle)
    );
    assert_eq!(
        encoder.set_texture(&mut driver, MTLTexture(Handle::wrap(encoder.0 .0)), 0),
        Err(MetalError::WrongKind)
    );
    assert_eq!(driver.bindings(encoder.0 .0), vec![]);
}

#[test]
fn an_encoder_does_not_see_what_another_bound() {
    let (mut driver, device, commands, first) = setup(true);
    let buffer = device.new_buffer_with_length(&mut driver, 16, 0).unwrap();
    first.set_buffer(&mut driver, buffer, 0, 0).unwrap();
    first.end_encoding(&mut driver).unwrap();
    let second = commands.new_compute_command_encoder(&mut driver).unwrap();
    assert_eq!(driver.bindings(second.0 .0), vec![]);
    second.dispatch_threads(&mut driver, (8, 1, 1), (8, 1, 1)).unwrap();
    let recorded = driver.commands(commands.0 .0);
    assert_eq!(recorded.len(), 1);
    assert_eq!(recorded[0].encoder, second.0 .0);
    assert_eq!(recorded[0].bindings, vec![]);
}

#[test]
fn resources_fences_and_heaps_are_recorded() {
    let (mut driver, device, commands, encoder) = setup(true);
    let buffer = device.new_buffer_with_length(&mut driver, 16, 0).unwrap();
    let indirect = device.new_buffer_with_length(&mut driver, 12, 0).unwrap();
    let fence = device.new_fence(&mut driver).unwrap();
    let fence_raw = fence.0 .0;
    let buffer_raw = buffer.0 .0;
    let indirect_raw = indirect.0 .0;
    encoder.use_resource(&mut driver, buffer, 3).unwrap();
    encoder.update_fence(&mut driver, fence).unwrap();
    encoder
        .dispatch_threadgroups_with_indirect_buffer(&mut driver, indirect, 4, (8, 8, 1))
        .unwrap();
    let recorded = driver.commands(commands.0 .0);
    assert_eq!(recorded.len(), 3);
    assert_eq!(
        recorded[0].call,
        Call::UseResource { resource: buffer_raw, usage: 3, stages: 0 }
    );
    assert_eq!(recorded[1].call, Call::UpdateFence { fence: fence_raw });
    assert_eq!(
        recorded[2].call,
        Call::DispatchThreadgroupsIndirect {
            buffer: indirect_raw,
            offset: 4,
            threads_per_threadgroup: cull_canyon::geometry::MTLSize { w: 8, h: 8, d: 1 },
        }
    );
    assert!(driver.is_live(fence_raw));
}
