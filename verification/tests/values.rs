use cull_canyon::descriptor::full_mip_chain;
use cull_canyon::descriptor::MTLTextureDescriptor;
use cull_canyon::keyboard::Keyboard;
use cull_canyon::mesh::grid_indices;
use cull_canyon::model::Ownership;
use cull_canyon::model::Status;
use cull_canyon::nsstring::nsstring_to_string;
use cull_canyon::nsstring::string_to_nsstring;
use cull_canyon::nsstring::NSString;
use cull_canyon::ownership::holds;
use cull_canyon::ownership::ownership_of_selector;
use cull_canyon::version::Os;
use cull_canyon::version::Version;

#[test]
fn parts_of_a_version() {
    let version = Version(Os::macOS, 101504);
    assert_eq!(version.get_major(), 10);
    assert_eq!(version.get_minor(), 15);
    assert_eq!(version.get_patch(), 4);
    let version = Version(Os::iOS, 130301);
    assert_eq!(version.get_major(), 13);
    assert_eq!(version.get_minor(), 3);
    assert_eq!(version.get_patch(), 1);
    let version = Version(Os::Unknown, 0);
    assert_eq!(
        (version.get_major(), version.get_minor(), version.get_patch()),
        (0, 0, 0)
    );
}

#[test]
fn a_major_part_beyond_a_byte_wraps() {
    let version = Version(Os::macOS, 2_560_000);
    assert_eq!(version.get_major(), 0);
    let version = Version(Os::macOS, u32::MAX);
    assert_eq!(version.get_major(), ((u32::MAX / 10000) % 256) as u8);
    assert_eq!(version.get_minor(), 72);
    assert_eq!(version.get_patch(), 95);
}

#[test]
fn versions_are_written_without_leading_zeros() {
    assert_eq!(Version(Os::macOS, 101504).text(), "macOS 10.15.4");
    assert_eq!(Version(Os::iOS, 130000).text(), "iOS 13.0.0");
    assert_eq!(Version(Os::tvOS, 2559999).text(), "tvOS 255.99.99");
    assert_eq!(Version(Os::watchOS, 61005).text(), "watchOS 6.10.5");
    assert_eq!(Version(Os::Unknown, 0).text(), "none 0.0.0");
    assert_eq!(Os::macOS.text(), "macOS");
}

#[test]
fn product_versions_are_read() {
    let read = |text: &str| Version::from_product_version(Os::macOS, text).map(|v| v.1);
    assert_eq!(read("10.15.4"), Some(101504));
    assert_eq!(read("10.15.4\n"), Some(101504));
    assert_eq!(read(" 11 . 2 .\t3 "), Some(110203));
    assert_eq!(read("+1.+2.+3"), Some(10203));
    assert_eq!(read("10.15.4.9"), Some(101504));
    assert_eq!(read("0.0.0"), Some(0));
    assert_eq!(read("007.08.09"), Some(70809));
    assert_eq!(read("1.200.3"), Some(30003));
    assert_eq!(read("429496.72.95"), Some(u32::MAX));
}

#[test]
fn what_is_no_product_version_is_not_read() {
    let read = |text: &str| Version::from_product_version(Os::macOS, text).map(|v| v.1);
    assert_eq!(read(""), None);
    assert_eq!(read("10"), None);
    assert_eq!(read("10.15"), None);
    assert_eq!(read("10.15."), None);
    assert_eq!(read("10..4"), None);
    assert_eq!(read("10.15.4b"), None);
    assert_eq!(read("10.15.4.x"), None);
    assert_eq!(read("-1.0.0"), None);
    assert_eq!(read("1 0.0.0"), None);
    assert_eq!(read("+.0.0"), None);
    assert_eq!(read("++1.0.0"), None);
    assert_eq!(read("4294967296.0.0"), None);
    assert_eq!(read("429496.72.96"), None);
    assert_eq!(read("429497.0.0"), None);
    assert_eq!(read("１.2.3"), None);
}

#[test]
fn names_with_new_or_copy_hand_out_owned_references() {
    assert_eq!(ownership_of_selector("newCommandQueue"), Ownership::Owned);
    assert_eq!(ownership_of_selector("newBufferWithLength"), Ownership::Owned);
    assert_eq!(ownership_of_selector("copy"), Ownership::Owned);
    assert_eq!(ownership_of_selector("mutablecopy"), Ownership::Owned);
    assert_eq!(ownership_of_selector("renew"), Ownership::Owned);
    assert_eq!(ownership_of_selector("commandBuffer"), Ownership::Borrowed);
    assert_eq!(ownership_of_selector("texture"), Ownership::Borrowed);
    assert_eq!(ownership_of_selector("nextDrawable"), Ownership::Borrowed);
    assert_eq!(ownership_of_selector("New"), Ownership::Borrowed);
    assert_eq!(ownership_of_selector("ne"), Ownership::Borrowed);
    assert_eq!(ownership_of_selector(""), Ownership::Borrowed);
    assert!(holds("abc", ""));
    assert!(holds("abc", "bc"));
    assert!(!holds("abc", "abcd"));
    assert!(!holds("abc", "ac"));
    assert!(holds("naïve new", "new"));
}

#[test]
fn a_full_chain_halves_down_to_one_texel() {
    assert_eq!(full_mip_chain(0), 1);
    assert_eq!(full_mip_chain(1), 1);
    assert_eq!(full_mip_chain(2), 2);
    assert_eq!(full_mip_chain(3), 2);
    assert_eq!(full_mip_chain(4), 3);
    assert_eq!(full_mip_chain(255), 8);
    assert_eq!(full_mip_chain(256), 9);
    assert_eq!(full_mip_chain(u64::MAX), 64);
}

#[test]
fn texture_descriptors_are_made_for_their_purpose() {
    let plain = MTLTextureDescriptor::new();
    assert_eq!(plain.get_texture_type(), 2);
    assert_eq!(plain.get_width(), 1);
    assert_eq!(plain.get_swizzle(), (2, 3, 4, 5));
    let flat = MTLTextureDescriptor::texture_2d_descriptor_with_pixel_format((640, 480), true, 80);
    assert_eq!(flat.get_pixel_format(), 80);
    assert_eq!((flat.get_width(), flat.get_height()), (640, 480));
    assert_eq!(flat.get_mipmap_level_count(), 10);
    let tall = MTLTextureDescriptor::texture_2d_descriptor_with_pixel_format((4, 32), true, 80);
    assert_eq!(tall.get_mipmap_level_count(), 6);
    let cube = MTLTextureDescriptor::texture_cube_descriptor_with_pixel_format(16, true, 70);
    assert_eq!(cube.get_texture_type(), 5);
    assert_eq!((cube.get_width(), cube.get_height()), (16, 16));
    assert_eq!(cube.get_mipmap_level_count(), 5);
    let unmipped = MTLTextureDescriptor::texture_cube_descriptor_with_pixel_format(16, false, 70);
    assert_eq!(unmipped.get_mipmap_level_count(), 1);
    let linear = MTLTextureDescriptor::texture_buffer_descriptor_with_pixel_format(1024, 53, 32, 3);
    assert_eq!(linear.get_texture_type(), 9);
    assert_eq!(linear.get_width(), 1024);
    assert_eq!(linear.get_resource_options(), 32);
    assert_eq!(linear.get_usage(), 3);
    let mut set = plain;
    set.set_depth(4);
    set.set_array_length(6);
    set.set_sample_count(2);
    set.set_storage_mode(2);
    set.set_cpu_cache_mode(1);
    set.set_hazard_tracking_mode(1);
    set.set_allow_gpu_optimized_contents(false);
    set.set_swizzle((5, 4, 3, 2));
    assert_eq!(set.get_depth(), 4);
    assert_eq!(set.get_array_length(), 6);
    assert_eq!(set.get_sample_count(), 2);
    assert_eq!(set.get_storage_mode(), 2);
    assert_eq!(set.get_cpu_cache_mode(), 1);
    assert_eq!(set.get_hazard_tracking_mode(), 1);
    assert!(!set.get_allow_gpu_optimized_contents());
    assert_eq!(set.get_swizzle(), (5, 4, 3, 2));
    assert_eq!(set.get_width(), 1);
}

#[test]
fn native_strings_hold_utf8() {
    let native = string_to_nsstring("Grüße, 世界");
    assert_eq!(native.bytes, "Grüße, 世界".as_bytes().to_vec());
    assert_eq!(native.encoding, 4);
    assert_eq!(nsstring_to_string(&native), Some(String::from("Grüße, 世界")));
    assert_eq!(nsstring_to_string(&string_to_nsstring("")), Some(String::new()));
}

#[test]
fn bytes_that_are_no_utf8_are_no_text() {
    let broken = NSString { bytes: vec![0x48, 0xff, 0x49], encoding: 4 };
    assert_eq!(nsstring_to_string(&broken), None);
    let cut = NSString { bytes: vec![0xe4, 0xb8], encoding: 4 };
    assert_eq!(nsstring_to_string(&cut), None);
    let other = NSString { bytes: vec![0x48, 0x49], encoding: 1 };
    assert_eq!(nsstring_to_string(&other), None);
}

#[test]
fn keys_are_down_until_they_are_up() {
    let mut keyboard = Keyboard::new();
    assert!(!keyboard.is_key_down(0));
    assert!(!keyboard.is_key_down(299));
    keyboard.set_key(17, true);
    keyboard.set_key(299, true);
    assert!(keyboard.is_key_down(17));
    assert!(keyboard.is_key_down(299));
    assert!(!keyboard.is_key_down(18));
    keyboard.set_key(17, false);
    assert!(!keyboard.is_key_down(17));
}

#[test]
fn states_come_in_order() {
    assert!(!Status::Unscheduled.is_committed());
    assert!(!Status::Enqueued.is_committed());
    assert!(Status::Committed.is_committed());
    assert!(Status::Scheduled.is_committed());
    assert!(Status::Completed.is_committed());
}

#[test]
fn a_grid_is_covered_by_two_triangles_a_cell() {
    assert_eq!(grid_indices(0), vec![]);
    assert_eq!(grid_indices(1), vec![]);
    assert_eq!(grid_indices(2), vec![0, 2, 1, 1, 2, 3]);
    assert_eq!(
        grid_indices(3),
        vec![0, 3, 1, 1, 3, 4, 1, 4, 2, 2, 4, 5, 3, 6, 4, 4, 6, 7, 4, 7, 5, 5, 7, 8]
    );
    let large = grid_indices(100);
    assert_eq!(large.len(), 6 * 99 * 99);
    assert_eq!(large[large.len() - 1], 9999);
    assert_eq!(&large[6 * (5 * 99 + 7)..6 * (5 * 99 + 7) + 6], &[507, 607, 508, 508, 607, 608]);
}
