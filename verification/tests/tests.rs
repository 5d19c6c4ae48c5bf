use cull_canyon::device::MTLDevice;
use cull_canyon::driver::Driver;
use cull_canyon::handle::Handle;
use cull_canyon::nsstring::nsstring_to_string;
use cull_canyon::nsstring::string_to_nsstring;
use cull_canyon::version::Os;
use cull_canyon::version::Version;

#[test]
fn null_handle() {
    let mut driver = Driver::new();
    let handle = Handle::wrap(0);
    assert!(handle.is_null());
    assert_eq!(handle.drop(&mut driver), Ok(()));
    assert_eq!(driver.object_count(), 0);

    println!("Have a handle.");
}

#[test]
fn os_version() {
    let version = Version::from_product_version(Os::macOS, "10.15.4\n").unwrap();
    assert_eq!(version.1, 101504);
    assert_eq!(version.text(), "macOS 10.15.4");
    println!("You are running: {}", version.text())
}

#[test]
fn call_metal_function() {
    let mut driver = Driver::new();
    let raw = driver.attach_device().unwrap();
    let device = MTLDevice::create_system_default_device(&mut driver).unwrap();
    let handle = device.0;
    assert_eq!(handle, Handle(raw));
    assert_eq!(driver.retain_count(raw), 2);
    println!("So now I have a Metal device handle...");
    assert_eq!(handle.drop(&mut driver), Ok(()));
    assert_eq!(driver.retain_count(raw), 1);
}

#[test]
fn new_string() {
    let hello_world = "Hey there world!";
    let native = string_to_nsstring(hello_world);
    assert_eq!(native.encoding, 4);
    assert_eq!(native.bytes.len(), hello_world.len());
    let message = nsstring_to_string(&native).unwrap();
    assert_eq!(message, "Hey there world!");

    println!("{}", message);
}
