use cull_canyon::buffer::MTLBuffer;
use cull_canyon::commandbuffer::MTLCommandBuffer;
use cull_canyon::commandqueue::MTLCommandQueue;
use cull_canyon::descriptor::Attachment;
use cull_canyon::descriptor::MTLTextureDescriptor;
use cull_canyon::device::MTLDevice;
use cull_canyon::driver::Driver;
use cull_canyon::encoder::MTLCommandEncoder;
use cull_canyon::error::MetalError;
use cull_canyon::geometry::MTLSize;
use cull_canyon::model::Binding;
use cull_canyon::model::Call;
use cull_canyon::model::ResourceClass;
use cull_canyon::model::Stage;
use cull_canyon::model::Status;
use cull_canyon::render::MTLRenderPassAttachmentDescriptor;
use cull_canyon::render::MTLRenderPassDescriptor;
use cull_canyon::render::Target;
use cull_canyon::texture::MTLTexture;

fn setup() -> (Driver, MTLDevice, MTLCommandQueue, MTLCommandBuffer) {
    let mut driver = Driver::new();
    driver.attach_device().unwrap();
    let device = MTLDevice::create_system_default_device(&mut driver).unwrap();
    let queue = device.new_command_queue(&mut driver).unwrap();
    let commands = queue.new_command_buffer(&mut driver).unwrap();
    (driver, device, queue, commands)
}

#[test]
fn compute_pass_records_one_dispatch_with_both_buffers_in_bind_order() {
    let (mut driver, device, queue, commands) = setup();
    let encoder = commands.new_compute_command_encoder(&mut driver).unwrap();
    let first = device.new_buffer_with_length(&mut driver, 64, 0).unwrap();
    let second = device.new_buffer_with_length(&mut driver, 128, 0).unwrap();
    let first_again = MTLBuffer(first.0.clone(&mut driver).unwrap());
    let second_again = MTLBuffer(second.0.clone(&mut driver).unwrap());
    encoder.set_buffer(&mut driver, first_again, 0, 0).unwrap();
    encoder.set_buffer(&mut driver, second_again, 16, 1).unwrap();
    encoder.dispatch_threadgroups(&mut driver, (4, 2, 1), (32, 1, 1)).unwrap();
    encoder.end_encoding(&mut driver).unwrap();
    commands.commit(&mut driver).unwrap();
    commands.wait_until_completed(&mut driver).unwrap();

    assert_eq!(driver.status(commands.0 .0), Some(Status::Completed));
    let recorded = driver.commands(commands.0 .0);
    assert_eq!(recorded.len(), 1);
    assert_eq!(recorded[0].encoder, encoder.0 .0);
    assert_eq!(
        recorded[0].call,
        Call::DispatchThreadgroups {
            threadgroups_per_grid: MTLSize { w: 4, h: 2, d: 1 },
            threads_per_threadgroup: MTLSize { w: 32, h: 1, d: 1 },
        }
    );
    assert_eq!(
        recorded[0].bindings,
        vec![
            Binding {
                stage: Stage::Kernel,
                class: ResourceClass::Buffer,
                index: 0,
                resource: first.0 .0,
                offset: 0,
                length: 0,
            },
            Binding {
                stage: Stage::Kernel,
                class: ResourceClass::Buffer,
                index: 1,
                resource: second.0 .0,
                offset: 16,
                length: 0,
            },
        ]
    );
    assert_eq!(driver.order(queue.0 .0), vec![commands.0 .0]);
}

#[test]
fn committed_buffer_opens_no_encoder() {
    let (mut driver, _device, _queue, commands) = setup();
    commands.commit(&mut driver).unwrap();
    assert_eq!(
        commands.new_compute_command_encoder(&mut driver),
        Err(MetalError::AlreadyCommitted)
    );
    assert_eq!(
        commands.new_compute_command_encoder_with_dispatch_type(&mut driver, 1),
        Err(MetalError::AlreadyCommitted)
    );
    assert_eq!(
        commands.new_render_command_encoder_with_descriptor(
            &mut driver,
            &MTLRenderPassDescriptor::new()
        ),
        Err(MetalError::AlreadyCommitted)
    );
    assert_eq!(commands.commit(&mut driver), Err(MetalError::AlreadyCommitted));
    assert_eq!(commands.enqueue(&mut driver), Err(MetalError::AlreadyCommitted));
    commands.wait_until_completed(&mut driver).unwrap();
    assert_eq!(
        commands.new_compute_command_encoder(&mut driver),
        Err(MetalError::AlreadyCommitted)
    );
}

#[test]
fn second_encoder_is_refused_while_the_first_is_open() {
    let (mut driver, _device, _queue, commands) = setup();
    let first = commands.new_compute_command_encoder(&mut driver).unwrap();
    assert_eq!(
        commands.new_compute_command_encoder(&mut driver),
        Err(MetalError::EncoderOpen)
    );
    assert_eq!(commands.commit(&mut driver), Err(MetalError::EncoderOpen));
    first.end_encoding(&mut driver).unwrap();
    let second = commands
        .new_compute_command_encoder_with_dispatch_type(&mut driver, 1)
        .unwrap();
    assert!(driver.is_open(second.0 .0));
    assert!(!driver.is_open(first.0 .0));
    assert_eq!(driver.dispatch_of(second.0 .0), 1);
    assert_eq!(driver.dispatch_of(first.0 .0), 0);
}

#[test]
fn ending_an_encoder_twice_is_refused() {
    let (mut driver, _device, _queue, commands) = setup();
    let encoder = commands.new_compute_command_encoder(&mut driver).unwrap();
    assert_eq!(encoder.end_encoding(&mut driver), Ok(()));
    assert_eq!(encoder.end_encoding(&mut driver), Err(MetalError::EncoderEnded));
    assert_eq!(
        encoder.dispatch_threads(&mut driver, (1, 1, 1), (1, 1, 1)),
        Err(MetalError::EncoderEnded)
    );
    assert_eq!(
        encoder.set_threadgroup_memory_length(&mut driver, 16, 0),
        Err(MetalError::EncoderEnded)
    );
}

#[test]
fn nothing_is_waited_for_before_the_commit() {
    let (mut driver, _device, _queue, commands) = setup();
    assert_eq!(
        commands.wait_until_scheduled(&mut driver),
        Err(MetalError::NotCommitted)
    );
    assert_eq!(
        commands.wait_until_completed(&mut driver),
        Err(MetalError::NotCommitted)
    );
    commands.enqueue(&mut driver).unwrap();
    assert_eq!(
        commands.wait_until_completed(&mut driver),
        Err(MetalError::NotCommitted)
    );
    commands.commit(&mut driver).unwrap();
    assert_eq!(driver.status(commands.0 .0), Some(Status::Committed));
    commands.wait_until_scheduled(&mut driver).unwrap();
    assert_eq!(driver.status(commands.0 .0), Some(Status::Scheduled));
    commands.wait_until_completed(&mut driver).unwrap();
    assert_eq!(driver.status(commands.0 .0), Some(Status::Completed));
    commands.wait_until_scheduled(&mut driver).unwrap();
    assert_eq!(driver.status(commands.0 .0), Some(Status::Completed));
}

#[test]
fn an_enqueued_buffer_keeps_its_place() {
    let (mut driver, _device, queue, first) = setup();
    let second = queue.new_command_buffer(&mut driver).unwrap();
    let third = queue
        .new_command_buffer_with_unretained_references(&mut driver)
        .unwrap();
    second.enqueue(&mut driver).unwrap();
    assert_eq!(second.enqueue(&mut driver), Err(MetalError::AlreadyEnqueued));
    assert_eq!(driver.status(second.0 .0), Some(Status::Enqueued));
    third.commit(&mut driver).unwrap();
    first.commit(&mut driver).unwrap();
    second.commit(&mut driver).unwrap();
    assert_eq!(
        driver.order(queue.0 .0),
        vec![second.0 .0, third.0 .0, first.0 .0]
    );
    assert!(driver.retains(first.0 .0));
    assert!(!driver.retains(third.0 .0));
    assert_eq!(driver.queue_of(third.0 .0), queue.0 .0);
}

#[test]
fn queues_take_as_many_buffers_as_they_are_made_for() {
    let mut driver = Driver::new();
    driver.attach_device().unwrap();
    let device = MTLDevice::create_system_default_device(&mut driver).unwrap();
    let plain = device.new_command_queue(&mut driver).unwrap();
    let small = device
        .new_command_queue_with_max_command_buffers(&mut driver, 2)
        .unwrap();
    assert_eq!(driver.capacity(plain.0 .0), 64);
    assert_eq!(driver.capacity(small.0 .0), 2);
}

#[test]
fn a_render_pass_draws_to_its_attachments() {
    let (mut driver, device, _queue, commands) = setup();
    let color = device
        .new_texture_with_descriptor(
            &mut driver,
            MTLTextureDescriptor::texture_2d_descriptor_with_pixel_format((640, 480), false, 80),
        )
        .unwrap();
    let depth = device
        .new_texture_with_descriptor(
            &mut driver,
            MTLTextureDescriptor::texture_2d_descriptor_with_pixel_format((640, 480), false, 252),
        )
        .unwrap();
    let mut pass = MTLRenderPassDescriptor::new();
    let mut attachment = pass.get_color_attachments().object_at_indexed_subscript(1);
    attachment.set_texture(&color);
    attachment.set_level(2);
    attachment.set_load_action(2);
    pass.get_color_attachments()
        .set_object_at_indexed_subscript(1, attachment);
    pass.get_depth_attachment().set_texture(&depth);
    let encoder = commands
        .new_render_command_encoder_with_descriptor(&mut driver, &pass)
        .unwrap();
    let vertices = device.new_buffer_with_length(&mut driver, 256, 0).unwrap();
    let indices = device.new_buffer_with_length(&mut driver, 64, 0).unwrap();
    encoder.set_cull_mode(&mut driver, 2).unwrap();
    let copy = MTLBuffer(vertices.0.clone(&mut driver).unwrap());
    encoder.set_vertex_buffer(&mut driver, copy, 0, 0).unwrap();
    encoder.set_vertex_buffer_offset(&mut driver, 32, 0).unwrap();
    encoder.set_fragment_bytes(&mut driver, &[1, 2, 3, 4], 3).unwrap();
    encoder.set_scissor_rect(&mut driver, (1, 2, 3, 4)).unwrap();
    encoder.draw_primitives(&mut driver, 3, 0, 6, 1, 0).unwrap();
    let index_buffer = MTLBuffer(indices.0.clone(&mut driver).unwrap());
    encoder
        .draw_indexed_primitives(&mut driver, 3, 6, 1, index_buffer, 8, 1, 0, 0)
        .unwrap();
    encoder.end_encoding(&mut driver).unwrap();

    let color_target = Target {
        class: ResourceClass::ColorAttachment,
        index: 1,
        attachment: Attachment {
            texture: color.0 .0,
            level: 2,
            slice: 0,
            depth_plane: 0,
            load_action: 2,
            store_action: 1,
            store_action_options: 0,
        },
    };
    let depth_target = Target {
        class: ResourceClass::DepthAttachment,
        index: 0,
        attachment: Attachment {
            texture: depth.0 .0,
            level: 0,
            slice: 0,
            depth_plane: 0,
            load_action: 2,
            store_action: 0,
            store_action_options: 0,
        },
    };
    assert_eq!(pass.get_targets(), vec![color_target, depth_target]);
    let targets = vec![color_target.get_binding(), depth_target.get_binding()];
    assert_eq!(
        targets[0],
        Binding {
            stage: Stage::Fragment,
            class: ResourceClass::ColorAttachment,
            index: 1,
            resource: color.0 .0,
            offset: 2,
            length: 0,
        }
    );
    let recorded = driver.commands(commands.0 .0);
    assert_eq!(recorded.len(), 6);
    assert_eq!(recorded[0].call, color_target.get_call());
    assert_eq!(
        recorded[0].call,
        Call::Attach {
            class: ResourceClass::ColorAttachment,
            index: 1,
            attachment: color_target.attachment,
        }
    );
    assert_eq!(recorded[0].bindings, vec![targets[0]]);
    assert_eq!(recorded[1].call, depth_target.get_call());
    assert_eq!(recorded[1].bindings, targets);
    assert_eq!(recorded[2].call, Call::SetCullMode { mode: 2 });
    assert_eq!(recorded[2].bindings, targets);
    assert_eq!(
        recorded[3].call,
        Call::SetScissorRect { x: 1, y: 2, width: 3, height: 4 }
    );
    assert_eq!(
        recorded[4].call,
        Call::DrawPrimitives { primitive: 3, start: 0, count: 6, instances: 1, base_instance: 0 }
    );
    assert_eq!(recorded[4].bindings.len(), 4);
    assert_eq!(
        recorded[4].bindings[2],
        Binding {
            stage: Stage::Vertex,
            class: ResourceClass::Buffer,
            index: 0,
            resource: vertices.0 .0,
            offset: 32,
            length: 0,
        }
    );
    assert_eq!(
        recorded[4].bindings[3],
        Binding {
            stage: Stage::Fragment,
            class: ResourceClass::Buffer,
            index: 3,
            resource: 0,
            offset: 0,
            length: 4,
        }
    );
    assert_eq!(
        recorded[5].call,
        Call::DrawIndexedPrimitives {
            primitive: 3,
            count: 6,
            index_type: 1,
            index_buffer: indices.0 .0,
            index_buffer_offset: 8,
            instances: 1,
            base_vertex: 0,
            base_instance: 0,
        }
    );
    assert_eq!(driver.retain_count(color.0 .0), 2);
    assert_eq!(driver.retain_count(indices.0 .0), 2);
}

#[test]
fn a_render_pass_needs_its_textures() {
    let (mut driver, device, _queue, commands) = setup();
    let color = device
        .new_texture_with_descriptor(&mut driver, MTLTextureDescriptor::new())
        .unwrap();
    let mut pass = MTLRenderPassDescriptor::new();
    let mut attachment = pass.get_color_attachments().object_at_indexed_subscript(0);
    attachment.set_texture(&color);
    pass.get_color_attachments()
        .set_object_at_indexed_subscript(0, attachment);
    color.0.drop(&mut driver).unwrap();
    let before = driver.object_count();
    assert_eq!(
        commands.new_render_command_encoder_with_descriptor(&mut driver, &pass),
        Err(MetalError::Dangling)
    );
    assert_eq!(driver.object_count(), before);
    assert_eq!(driver.encoder_of(commands.0 .0), 0);
    let _ = MTLTexture(cull_canyon::handle::Handle::wrap(0));
}
