use cull_canyon::device::MTLDevice;
use cull_canyon::driver::Driver;
use cull_canyon::error::MetalError;
use cull_canyon::layer::set_layer_for_raw_window_handle;
use cull_canyon::layer::CAMetalLayer;
use cull_canyon::layer::RawWindowHandle;
use cull_canyon::model::Call;

#[test]
fn no_drawable_is_none_and_no_error() {
    let mut driver = Driver::new();
    let layer = CAMetalLayer::new(&mut driver).unwrap();
    layer.set_maximum_drawable_count(&mut driver, 2).unwrap();
    let first = layer.next_drawable(&mut driver).unwrap().unwrap();
    let second = layer.next_drawable(&mut driver).unwrap().unwrap();
    let count = driver.object_count();
    assert_eq!(layer.next_drawable(&mut driver), Ok(None));
    assert_eq!(layer.next_drawable(&mut driver), Ok(None));
    assert_eq!(driver.object_count(), count);
    first.present(&mut driver).unwrap();
    let third = layer.next_drawable(&mut driver).unwrap();
    assert!(third.is_some());
    assert_eq!(layer.next_drawable(&mut driver), Ok(None));
    assert_eq!(
        driver.vended(layer.0 .0),
        vec![first.0 .0, second.0 .0, third.unwrap().0 .0]
    );
}

#[test]
fn a_layer_hands_out_three_drawables_unless_set_otherwise() {
    let mut driver = Driver::new();
    let layer = CAMetalLayer::new(&mut driver).unwrap();
    assert_eq!(layer.get_settings(&driver).unwrap().maximum_drawable_count, 3);
    for _ in 0..3 {
        assert!(layer.next_drawable(&mut driver).unwrap().is_some());
    }
    assert_eq!(layer.next_drawable(&mut driver), Ok(None));
}

#[test]
fn the_texture_of_a_drawable_is_retained() {
    let mut driver = Driver::new();
    let layer = CAMetalLayer::new(&mut driver).unwrap();
    layer.set_pixel_format(&mut driver, 70).unwrap();
    let drawable = layer.next_drawable(&mut driver).unwrap().unwrap();
    let raw = driver.drawable_texture(drawable.0 .0);
    assert_eq!(driver.retain_count(raw), 1);
    let texture = drawable.get_texture(&mut driver).unwrap();
    assert_eq!(texture.0 .0, raw);
    assert_eq!(driver.retain_count(raw), 2);
    assert_eq!(texture.get_pixel_format(&driver), Ok(70));
    assert_eq!(texture.get_usage(&driver), Ok(4));
    assert_eq!(driver.retain_count(drawable.0 .0), 2);
}

#[test]
fn a_command_buffer_presents_a_drawable() {
    let mut driver = Driver::new();
    driver.attach_device().unwrap();
    let device = MTLDevice::create_system_default_device(&mut driver).unwrap();
    let queue = device.new_command_queue(&mut driver).unwrap();
    let commands = queue.new_command_buffer(&mut driver).unwrap();
    let layer = CAMetalLayer::new(&mut driver).unwrap();
    let device_again = MTLDevice(device.0.clone(&mut driver).unwrap());
    layer.set_device(&mut driver, device_again).unwrap();
    assert_eq!(layer.get_settings(&driver).unwrap().device, device.0 .0);
    let drawable = layer.next_drawable(&mut driver).unwrap().unwrap();
    let raw = drawable.0 .0;
    assert!(driver.is_in_use(raw));
    commands.present_drawable(&mut driver, drawable).unwrap();
    assert!(!driver.is_in_use(raw));
    let recorded = driver.commands(commands.0 .0);
    assert_eq!(recorded.len(), 1);
    assert_eq!(recorded[0].call, Call::PresentDrawable { drawable: raw });
    assert_eq!(recorded[0].encoder, 0);
    commands.commit(&mut driver).unwrap();
    let next = layer.next_drawable(&mut driver).unwrap().unwrap();
    assert_eq!(
        commands.present_drawable(&mut driver, next),
        Err(MetalError::AlreadyCommitted)
    );
}

#[test]
fn the_preferred_device_is_the_first_of_the_system() {
    let mut driver = Driver::new();
    let layer = CAMetalLayer::new(&mut driver).unwrap();
    assert!(layer.get_preferred_device(&mut driver).unwrap().0.is_null());
    let raw = driver.attach_device().unwrap();
    let device = layer.get_preferred_device(&mut driver).unwrap();
    assert_eq!(device.0 .0, raw);
    assert_eq!(driver.retain_count(raw), 2);
}

#[test]
fn settings_are_kept() {
    let mut driver = Driver::new();
    let layer = CAMetalLayer::new(&mut driver).unwrap();
    layer.set_framebuffer_only(&mut driver, false).unwrap();
    layer.set_presents_with_transaction(&mut driver, true).unwrap();
    layer.set_display_sync_enabled(&mut driver, false).unwrap();
    layer
        .set_wants_extended_dynamic_range_content(&mut driver, true)
        .unwrap();
    layer.set_allows_next_drawable_timeout(&mut driver, false).unwrap();
    let settings = layer.get_settings(&driver).unwrap();
    assert!(!settings.framebuffer_only);
    assert!(settings.presents_with_transaction);
    assert!(!settings.display_sync_enabled);
    assert!(settings.wants_extended_dynamic_range_content);
    assert!(!settings.allows_next_drawable_timeout);
    assert_eq!(settings.pixel_format, 80);
}

#[test]
fn a_view_keeps_the_layer_it_shows() {
    let mut driver = Driver::new();
    let layer = CAMetalLayer::new(&mut driver).unwrap();
    let raw = layer.0 .0;
    let copy = CAMetalLayer(layer.0.clone(&mut driver).unwrap());
    let window = RawWindowHandle::MacOS { ns_window: 7, ns_view: 8 };
    assert_eq!(set_layer_for_raw_window_handle(&mut driver, copy, &window), Ok(()));
    assert_eq!(layer.get_settings(&driver).unwrap().view, 8);
    assert_eq!(driver.retain_count(raw), 2);
    assert_eq!(layer.0.drop(&mut driver), Ok(()));
    assert!(driver.is_live(raw));
    assert_eq!(
        cull_canyon::handle::release(&mut driver, raw),
        Err(MetalError::OverRelease)
    );
}
