use cull_canyon::descriptor::DeviceInfo;
use cull_canyon::device::MTLDevice;
use cull_canyon::geometry::MTLSize;
use cull_canyon::driver::Driver;
use cull_canyon::error::MetalError;
use cull_canyon::handle::release;
use cull_canyon::handle::retain;
use cull_canyon::handle::Handle;
use cull_canyon::model::Ownership;

fn device_and_queue(driver: &mut Driver) -> (MTLDevice, u64) {
    driver.attach_device().unwrap();
    let device = MTLDevice::create_system_default_device(driver).unwrap();
    let queue = device.new_command_queue(driver).unwrap();
    let raw = queue.0 .0;
    (device, raw)
}

#[test]
fn clones_and_drops_bring_the_count_back() {
    let mut driver = Driver::new();
    let (_device, queue) = device_and_queue(&mut driver);
    let first_handle = Handle::wrap(queue);
    assert_eq!(driver.retain_count(queue), 1);
    let second_handle = first_handle.clone(&mut driver).unwrap();
    let second = second_handle.clone(&mut driver).unwrap();
    assert_eq!(driver.retain_count(queue), 3);
    assert_eq!(second_handle.drop(&mut driver), Ok(()));
    let third = first_handle.clone(&mut driver).unwrap();
    assert_eq!(driver.retain_count(queue), 3);
    assert_eq!(third.drop(&mut driver), Ok(()));
    assert_eq!(second.drop(&mut driver), Ok(()));
    assert_eq!(driver.retain_count(queue), 1);
    assert!(driver.is_live(queue));
    assert_eq!(first_handle.drop(&mut driver), Ok(()));
    assert_eq!(driver.retain_count(queue), 0);
    assert!(!driver.is_live(queue));
}

#[test]
fn wrap_and_retain_counts_one_more_than_wrap() {
    let mut driver = Driver::new();
    let (_device, queue) = device_and_queue(&mut driver);
    let before = driver.retain_count(queue);
    let wrapped = Handle::wrap(queue);
    assert_eq!(driver.retain_count(queue), before);
    let retained = Handle::wrap_and_retain(&mut driver, queue).unwrap();
    assert_eq!(driver.retain_count(queue), before + 1);
    assert_eq!(wrapped, retained);
}

#[test]
fn adopt_follows_the_ownership() {
    let mut driver = Driver::new();
    let (_device, queue) = device_and_queue(&mut driver);
    let owned = Handle::adopt(&mut driver, queue, Ownership::Owned).unwrap();
    assert_eq!(driver.retain_count(queue), 1);
    let borrowed = Handle::adopt(&mut driver, queue, Ownership::Borrowed).unwrap();
    assert_eq!(driver.retain_count(queue), 2);
    assert_eq!(owned, borrowed);
}

#[test]
fn a_dropped_object_is_dangling() {
    let mut driver = Driver::new();
    let (_device, queue) = device_and_queue(&mut driver);
    assert_eq!(Handle::wrap(queue).drop(&mut driver), Ok(()));
    assert_eq!(Handle::wrap(queue).drop(&mut driver), Err(MetalError::Dangling));
    assert_eq!(Handle::wrap(queue).clone(&mut driver), Err(MetalError::Dangling));
    assert_eq!(Handle::wrap(99).clone(&mut driver), Err(MetalError::Dangling));
}

#[test]
fn the_reference_of_the_system_cannot_be_released() {
    let mut driver = Driver::new();
    let raw = driver.attach_device().unwrap();
    assert_eq!(driver.retain_count(raw), 1);
    assert_eq!(release(&mut driver, raw), Err(MetalError::OverRelease));
    assert_eq!(retain(&mut driver, raw), Ok(raw));
    assert_eq!(release(&mut driver, raw), Ok(()));
    assert_eq!(release(&mut driver, raw), Err(MetalError::OverRelease));
    assert_eq!(driver.retain_count(raw), 1);
}

#[test]
fn null_is_retained_and_released_in_vain() {
    let mut driver = Driver::new();
    assert_eq!(retain(&mut driver, 0), Ok(0));
    assert_eq!(release(&mut driver, 0), Ok(()));
    assert_eq!(Handle::wrap_and_retain(&mut driver, 0), Ok(Handle(0)));
    assert_eq!(driver.retain_count(0), 0);
}

#[test]
fn a_call_on_the_null_handle_is_refused() {
    let mut driver = Driver::new();
    let device = MTLDevice::create_system_default_device(&mut driver).unwrap();
    assert!(device.0.is_null());
    assert_eq!(device.new_command_queue(&mut driver), Err(MetalError::NullHandle));
}

#[test]
fn a_call_on_an_object_of_another_kind_is_refused() {
    let mut driver = Driver::new();
    let (_device, queue) = device_and_queue(&mut driver);
    let not_a_device = MTLDevice(Handle::wrap(queue));
    assert_eq!(not_a_device.new_command_queue(&mut driver), Err(MetalError::WrongKind));
}

#[test]
fn every_device_is_copied_retained() {
    let mut driver = Driver::new();
    let first = driver.attach_device().unwrap();
    let second = driver.attach_device().unwrap();
    let devices = MTLDevice::copy_all_devices(&mut driver).unwrap();
    assert_eq!(devices, vec![MTLDevice(Handle(first)), MTLDevice(Handle(second))]);
    assert_eq!(driver.retain_count(first), 2);
    assert_eq!(driver.retain_count(second), 2);
    assert_eq!(driver.devices(), vec![first, second]);
}

#[test]
fn a_device_says_what_it_is_like() {
    let mut driver = Driver::new();
    let info = DeviceInfo {
        low_power: true,
        unified_memory: true,
        registry_id: 4294969696,
        peer_count: 2,
        peer_index: 1,
        max_buffer_length: 1 << 30,
        max_threadgroup_memory_length: 32768,
        max_vertex_amplification_count: 2,
        linear_texture_alignment: 256,
        texture_buffer_alignment: 16,
        texture_sample_counts: 0b1_0001_0110,
        max_threads_per_threadgroup: MTLSize { w: 1024, h: 1024, d: 64 },
        ..DeviceInfo::new()
    };
    driver
        .attach_device_with(info, "Apple M1", vec![1001, 1002, 2002], vec![10000])
        .unwrap();
    let device = MTLDevice::create_system_default_device(&mut driver).unwrap();
    assert_eq!(device.get_name(&driver), Ok(String::from("Apple M1")));
    assert_eq!(device.is_low_power(&driver), Ok(true));
    assert_eq!(device.is_headless(&driver), Ok(false));
    assert_eq!(device.is_removable(&driver), Ok(false));
    assert_eq!(device.has_unified_memory(&driver), Ok(true));
    assert_eq!(device.get_registry_id(&driver), Ok(4294969696));
    assert_eq!(device.get_peer_count(&driver), Ok(2));
    assert_eq!(device.get_peer_index(&driver), Ok(1));
    assert_eq!(device.max_buffer_length(&driver), Ok(1 << 30));
    assert_eq!(device.get_max_threadgroup_memory_length(&driver), Ok(32768));
    assert_eq!(
        device.get_max_threads_per_threadgroup(&driver),
        Ok((1024, 1024, 64))
    );
    assert_eq!(device.supports_family(&driver, 1002), Ok(true));
    assert_eq!(device.supports_family(&driver, 1003), Ok(false));
    assert_eq!(device.supports_feature_set(&driver, 10000), Ok(true));
    assert_eq!(device.supports_feature_set(&driver, 10001), Ok(false));
    assert_eq!(device.supports_vertex_amplification_count(&driver, 2), Ok(true));
    assert_eq!(device.supports_vertex_amplification_count(&driver, 3), Ok(false));
    assert_eq!(device.supports_vertex_amplification_count(&driver, 0), Ok(false));
    assert_eq!(device.supports_texture_sample_count(&driver, 1), Ok(true));
    assert_eq!(device.supports_texture_sample_count(&driver, 2), Ok(true));
    assert_eq!(device.supports_texture_sample_count(&driver, 4), Ok(true));
    assert_eq!(device.supports_texture_sample_count(&driver, 8), Ok(true));
    assert_eq!(device.supports_texture_sample_count(&driver, 0), Ok(false));
    assert_eq!(device.supports_texture_sample_count(&driver, 3), Ok(false));
    assert_eq!(device.supports_texture_sample_count(&driver, 16), Ok(false));
    assert_eq!(device.supports_texture_sample_count(&driver, 64), Ok(false));
    assert_eq!(device.supports_texture_sample_count(&driver, u64::MAX), Ok(false));
    assert_eq!(
        device.minimum_linear_texture_alignment_for_pixel_format(&driver, 70),
        Ok(256)
    );
    assert_eq!(
        device.minimum_texture_buffer_alignment_for_pixel_format(&driver, 70),
        Ok(16)
    );
    assert_eq!(device.get_location(&driver), Ok(0));
    assert_eq!(device.get_argument_buffers_support(&driver), Ok(0));
}
