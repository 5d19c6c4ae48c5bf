//! Textures: formatted image data.

use vstd::prelude::*;
use crate::buffer::MTLBuffer;
use crate::descriptor::MTLTextureDescriptor;
use crate::device::plain_made;
use crate::device::MTLDevice;
use crate::driver::Driver;
use crate::driver::Payload;
use crate::encoder::check_hand_over;
use crate::error::MetalError;
use crate::geometry::MTLRegion;
use crate::handle::Handle;
use crate::laws::lemma_leads_to_is_transitive;
use crate::laws::lemma_leads_to_itself;
use crate::model::DriverView;
use crate::model::ObjectKind;
use crate::model::ObjectView;
use crate::model::Ownership;
use crate::model::PayloadView;
use crate::model::Transfer;
use crate::ownership::lemma_borrowed_names;
use crate::ownership::lemma_owned_names;
use crate::ownership::ownership_of_selector;
use crate::resource::MTLResource;

verus! {

/// A handle to a texture.
#[derive(Debug, PartialEq, Eq)]
pub struct MTLTexture(pub Handle);

/// The handle by which a texture crosses to another process.
#[derive(Debug, PartialEq, Eq)]
pub struct MTLSharedTextureHandle(pub Handle);

/// A texture made from `descriptor`, as the native call hands it to its caller.
pub open spec fn texture_made(descriptor: MTLTextureDescriptor) -> ObjectView {
    texture_object(descriptor, 0, 0, 0, false)
}

/// A texture made from `descriptor`, as the native call hands it to its caller. A view
/// shows the memory of `parent` from `level` and `slice` on; a texture that is `shareable`
/// can cross to another process.
pub open spec fn texture_object(
    descriptor: MTLTextureDescriptor,
    parent: u64,
    level: u64,
    slice: u64,
    shareable: bool,
) -> ObjectView {
    ObjectView::handed_out(
        ObjectKind::Texture,
        Ownership::Owned,
        PayloadView::Texture { descriptor, parent, buffer: 0, level, slice, shareable },
    )
}

/// The low byte of `channel`.
pub open spec fn low_byte(channel: u64) -> u8 {
    (channel % 256) as u8
}

/// The low byte of `channel`.
fn narrow(channel: u64) -> (byte: u8)
    ensures
        byte == low_byte(channel),
{
    assert(channel & 0xff == channel % 256) by (bit_vector);
    (channel & 0xff) as u8
}

impl DriverView {
    /// What a view of texture `raw` is like that shows it in `format`.
    pub open spec fn reformatted(self, raw: u64, format: u64) -> MTLTextureDescriptor {
        MTLTextureDescriptor { pixel_format: format, ..self.texture_descriptor(raw) }
    }

    /// What a view of texture `raw` is like that shows `levels.1` of its levels and
    /// `slices.1` of its slices as a texture of `texture_type` in `format`.
    pub open spec fn windowed(
        self,
        raw: u64,
        format: u64,
        texture_type: u64,
        levels: (u64, u64),
        slices: (u64, u64),
    ) -> MTLTextureDescriptor {
        MTLTextureDescriptor {
            pixel_format: format,
            texture_type,
            mipmap_level_count: levels.1,
            array_length: slices.1,
            ..self.texture_descriptor(raw)
        }
    }

    /// Why the parent of texture `raw` cannot be had, if it cannot. That the texture has
    /// none is no refusal.
    pub open spec fn parent_fault(self, raw: u64, parent: u64) -> Option<MetalError> {
        match self.fault(raw, ObjectKind::Texture) {
            Some(e) => Some(e),
            None => self.retain_fault(parent),
        }
    }

    /// Why no handle can be made by which texture `raw` crosses to another process, if
    /// none can. That the texture cannot cross is no refusal.
    pub open spec fn share_fault(self, raw: u64) -> Option<MetalError> {
        match self.fault(raw, ObjectKind::Texture) {
            Some(e) => Some(e),
            None => if self.shareable(raw) && self.full() {
                Some(MetalError::Exhausted)
            } else {
                None
            },
        }
    }
}

impl MTLResource for MTLTexture {
    open spec fn raw(&self) -> u64 {
        self.0.0
    }

    open spec fn kind(&self) -> ObjectKind {
        ObjectKind::Texture
    }

    fn get_obj(&self) -> (raw: u64) {
        self.0.0
    }

    fn get_kind(&self) -> (kind: ObjectKind) {
        ObjectKind::Texture
    }

    fn get_resource_options(&self, driver: &Driver) -> (res: Result<u64, MetalError>) {
        match driver.check(self.0.0, ObjectKind::Texture) {
            Err(e) => Err(e),
            Ok(()) => Ok(driver.resource_options(self.0.0)),
        }
    }
}

/// Notes a transfer of bytes between memory and texture `raw`.
fn note(driver: &mut Driver, raw: u64, transfer: Transfer) -> (res: Result<(), MetalError>)
    requires
        transfer.texture == raw,
    ensures
        match old(driver)@.fault(raw, ObjectKind::Texture) {
            Some(e) => res == Err::<(), MetalError>(e) && final(driver)@ == old(driver)@,
            None => res is Ok && final(driver)@ == old(driver)@.with_transfer(transfer),
        },
        old(driver)@.leads_to(final(driver)@),
{
    proof {
        lemma_leads_to_itself(driver@);
    }
    match driver.check(raw, ObjectKind::Texture) {
        Err(e) => {
            return Err(e);
        },
        Ok(()) => {},
    }
    driver.push_transfer(transfer);
    proof {
        let s = old(driver)@;
        let t = driver@;
        assert forall|other: u64| #![trigger t.get(other)] s.has(other) implies s.object_evolves(
            t,
            other,
        ) by {
            assert(t.get(other) == s.get(other));
            assert(t.open(other) == s.open(other));
            assert(t.status(other) == s.status(other));
        }
        if s.sound() {
            assert forall|other: u64| t.has(other) implies (#[trigger] t.get(
                other,
            )).well_formed() by {
                assert(s.has(other));
                assert(s.get(other).well_formed());
            }
        }
    }
    Ok(())
}

/// Makes a view of texture `raw`.
fn view(
    driver: &mut Driver,
    raw: u64,
    selector: &str,
    descriptor: MTLTextureDescriptor,
    level: u64,
    slice: u64,
) -> (res: Result<MTLTexture, MetalError>)
    requires
        crate::ownership::ownership_of(selector@) == Ownership::Owned,
    ensures
        match old(driver)@.make_fault(raw, ObjectKind::Texture) {
            Some(e) => res == Err::<MTLTexture, MetalError>(e) && final(driver)@ == old(driver)@,
            None => res == Ok::<MTLTexture, MetalError>(MTLTexture(Handle(old(driver)@.next())))
                && final(driver)@ == old(driver)@.plus(
                texture_object(descriptor, raw, level, slice, false),
            ),
        },
        old(driver)@.leads_to(final(driver)@),
{
    match driver.produce(
        raw,
        ObjectKind::Texture,
        ObjectKind::Texture,
        selector,
        Payload::Texture { descriptor, parent: raw, buffer: 0, level, slice, shareable: false },
    ) {
        Ok(handle) => Ok(MTLTexture(handle)),
        Err(e) => Err(e),
    }
}

impl MTLTexture {
    /// Copies `bytes`, laid out in rows of `bytes_per_row`, into the rectangle `region` of
    /// `(x, y, width, height)` of level `mipmap_level`. The native call takes the rectangle
    /// as a region of the first plane.
    pub fn replace_region(
        &self,
        driver: &mut Driver,
        region: (u64, u64, u64, u64),
        mipmap_level: u64,
        bytes: &[u8],
        bytes_per_row: u64,
    ) -> (res: Result<(), MetalError>)
        ensures
            match old(driver)@.fault(self.0.0, ObjectKind::Texture) {
                Some(e) => res == Err::<(), MetalError>(e) && final(driver)@ == old(driver)@,
                None => res is Ok && final(driver)@ == old(driver)@.with_transfer(
                    Transfer {
                        texture: self.0.0,
                        write: true,
                        region: MTLRegion::flat(region),
                        mipmap_level,
                        slice: 0,
                        bytes_per_row,
                        bytes_per_image: 0,
                        length: bytes@.len() as u64,
                    },
                ),
            },
            old(driver)@.leads_to(final(driver)@),
    {
        note(
            driver,
            self.0.0,
            Transfer {
                texture: self.0.0,
                write: true,
                region: MTLRegion::from_rectangle(region),
                mipmap_level,
                slice: 0,
                bytes_per_row,
                bytes_per_image: 0,
                length: bytes.len() as u64,
            },
        )
    }

    /// Copies `bytes`, laid out in rows of `bytes_per_row` and images of `bytes_per_image`,
    /// into the rectangle `region` of slice `slice` of level `mipmap_level`.
    pub fn replace_region_arrayed(
        &self,
        driver: &mut Driver,
        region: (u64, u64, u64, u64),
        mipmap_level: u64,
        slice: u64,
        bytes: &[u8],
        bytes_per_row: u64,
        bytes_per_image: u64,
    ) -> (res: Result<(), MetalError>)
        ensures
            match old(driver)@.fault(self.0.0, ObjectKind::Texture) {
                Some(e) => res == Err::<(), MetalError>(e) && final(driver)@ == old(driver)@,
                None => res is Ok && final(driver)@ == old(driver)@.with_transfer(
                    Transfer {
                        texture: self.0.0,
                        write: true,
                        region: MTLRegion::flat(region),
                        mipmap_level,
                        slice,
                        bytes_per_row,
                        bytes_per_image,
                        length: bytes@.len() as u64,
                    },
                ),
            },
            old(driver)@.leads_to(final(driver)@),
    {
        note(
            driver,
            self.0.0,
            Transfer {
                texture: self.0.0,
                write: true,
                region: MTLRegion::from_rectangle(region),
                mipmap_level,
                slice,
                bytes_per_row,
                bytes_per_image,
                length: bytes.len() as u64,
            },
        )
    }

    /// Asks for the rectangle `region` of level `mipmap_level`, to be laid out in rows of
    /// `bytes_per_row` in memory of `length` bytes. What the texels hold is the native
    /// layer's to say; the driver notes the transfer.
    pub fn get_bytes(
        &self,
        driver: &mut Driver,
        length: u64,
        bytes_per_row: u64,
        region: (u64, u64, u64, u64),
        mipmap_level: u64,
    ) -> (res: Result<(), MetalError>)
        ensures
            match old(driver)@.fault(self.0.0, ObjectKind::Texture) {
                Some(e) => res == Err::<(), MetalError>(e) && final(driver)@ == old(driver)@,
                None => res is Ok && final(driver)@ == old(driver)@.with_transfer(
                    Transfer {
                        texture: self.0.0,
                        write: false,
                        region: MTLRegion::flat(region),
                        mipmap_level,
                        slice: 0,
                        bytes_per_row,
                        bytes_per_image: 0,
                        length,
                    },
                ),
            },
            old(driver)@.leads_to(final(driver)@),
    {
        note(
            driver,
            self.0.0,
            Transfer {
                texture: self.0.0,
                write: false,
                region: MTLRegion::from_rectangle(region),
                mipmap_level,
                slice: 0,
                bytes_per_row,
                bytes_per_image: 0,
                length,
            },
        )
    }

    /// Asks for the box `region` of slice `slice` of level `mipmap_level`, to be laid out
    /// in rows of `bytes_per_row` and images of `bytes_per_image` in memory of `length`
    /// bytes.
    pub fn get_bytes_arrayed(
        &self,
        driver: &mut Driver,
        length: u64,
        bytes_per_row: u64,
        bytes_per_image: u64,
        region: (u64, u64, u64, u64, u64, u64),
        mipmap_level: u64,
        slice: u64,
    ) -> (res: Result<(), MetalError>)
        ensures
            match old(driver)@.fault(self.0.0, ObjectKind::Texture) {
                Some(e) => res == Err::<(), MetalError>(e) && final(driver)@ == old(driver)@,
                None => res is Ok && final(driver)@ == old(driver)@.with_transfer(
                    Transfer {
                        texture: self.0.0,
                        write: false,
                        region: MTLRegion::solid(region),
                        mipmap_level,
                        slice,
                        bytes_per_row,
                        bytes_per_image,
                        length,
                    },
                ),
            },
            old(driver)@.leads_to(final(driver)@),
    {
        note(
            driver,
            self.0.0,
            Transfer {
                texture: self.0.0,
                write: false,
                region: MTLRegion::from_box(region),
                mipmap_level,
                slice,
                bytes_per_row,
                bytes_per_image,
                length,
            },
        )
    }

    /// A view of the texture that shows its memory in `format`.
    pub fn new_texture_view_with_pixel_format(&self, driver: &mut Driver, format: u64) -> (res:
        Result<MTLTexture, MetalError>)
        ensures
            match old(driver)@.make_fault(self.0.0, ObjectKind::Texture) {
                Some(e) => res == Err::<MTLTexture, MetalError>(
                    e,
                ) && final(driver)@ == old(driver)@,
                None => res == Ok::<MTLTexture, MetalError>(MTLTexture(Handle(old(driver)@.next())))
                    && final(driver)@ == old(driver)@.plus(
                    texture_object(
                        old(driver)@.reformatted(self.0.0, format),
                        self.0.0,
                        0,
                        0,
                        false,
                    ),
                ),
            },
            old(driver)@.leads_to(final(driver)@),
    {
        proof {
            lemma_owned_names();
        }
        let mut descriptor = driver.texture_descriptor(self.0.0);
        descriptor.pixel_format = format;
        view(driver, self.0.0, "newTextureViewWithPixelFormat", descriptor, 0, 0)
    }

    /// A view of the texture that shows part of its memory as a texture of `texture_type`
    /// in `format`. The native call takes `levels` and `slices` each as a first and a
    /// number: the view starts at level `levels.0` and slice `slices.0` and has `levels.1`
    /// levels and `slices.1` slices.
    pub fn new_texture_view_with_pixel_format_arrayed(
        &self,
        driver: &mut Driver,
        format: u64,
        texture_type: u64,
        levels: (u64, u64),
        slices: (u64, u64),
    ) -> (res: Result<MTLTexture, MetalError>)
        ensures
            match old(driver)@.make_fault(self.0.0, ObjectKind::Texture) {
                Some(e) => res == Err::<MTLTexture, MetalError>(
                    e,
                ) && final(driver)@ == old(driver)@,
                None => res == Ok::<MTLTexture, MetalError>(MTLTexture(Handle(old(driver)@.next())))
                    && final(driver)@ == old(driver)@.plus(
                    texture_object(
                        old(driver)@.windowed(self.0.0, format, texture_type, levels, slices),
                        self.0.0,
                        levels.0,
                        slices.0,
                        false,
                    ),
                ),
            },
            old(driver)@.leads_to(final(driver)@),
    {
        proof {
            lemma_owned_names();
        }
        let mut descriptor = driver.texture_descriptor(self.0.0);
        descriptor.pixel_format = format;
        descriptor.texture_type = texture_type;
        descriptor.mipmap_level_count = levels.1;
        descriptor.array_length = slices.1;
        view(driver, self.0.0, "newTextureViewWithPixelFormat", descriptor, levels.0, slices.0)
    }

    /// A view as `new_texture_view_with_pixel_format_arrayed` makes it, whose channels are
    /// read as `swizzle` says for red, green, blue and alpha, each by its low byte.
    pub fn new_texture_view_with_pixel_format_arrayed_swizzle(
        &self,
        driver: &mut Driver,
        format: u64,
        texture_type: u64,
        levels: (u64, u64),
        slices: (u64, u64),
        swizzle: (u64, u64, u64, u64),
    ) -> (res: Result<MTLTexture, MetalError>)
        ensures
            match old(driver)@.make_fault(self.0.0, ObjectKind::Texture) {
                Some(e) => res == Err::<MTLTexture, MetalError>(
                    e,
                ) && final(driver)@ == old(driver)@,
                None => res == Ok::<MTLTexture, MetalError>(MTLTexture(Handle(old(driver)@.next())))
                    && final(driver)@ == old(driver)@.plus(
                    texture_object(
                        MTLTextureDescriptor {
                            swizzle_red: low_byte(swizzle.0),
                            swizzle_green: low_byte(swizzle.1),
                            swizzle_blue: low_byte(swizzle.2),
                            swizzle_alpha: low_byte(swizzle.3),
                            ..old(driver)@.windowed(self.0.0, format, texture_type, levels, slices)
                        },
                        self.0.0,
                        levels.0,
                        slices.0,
                        false,
                    ),
                ),
            },
            old(driver)@.leads_to(final(driver)@),
    {
        proof {
            lemma_owned_names();
        }
        let mut descriptor = driver.texture_descriptor(self.0.0);
        descriptor.pixel_format = format;
        descriptor.texture_type = texture_type;
        descriptor.mipmap_level_count = levels.1;
        descriptor.array_length = slices.1;
        descriptor.swizzle_red = narrow(swizzle.0);
        descriptor.swizzle_green = narrow(swizzle.1);
        descriptor.swizzle_blue = narrow(swizzle.2);
        descriptor.swizzle_alpha = narrow(swizzle.3);
        view(driver, self.0.0, "newTextureViewWithPixelFormat", descriptor, levels.0, slices.0)
    }

    /// The dimension and arrangement of the texture.
    pub fn get_texture_type(&self, driver: &Driver) -> (res: Result<u64, MetalError>)
        ensures
            match driver@.fault(self.0.0, ObjectKind::Texture) {
                Some(e) => res == Err::<u64, MetalError>(e),
                None => res == Ok::<u64, MetalError>(
                    driver@.texture_descriptor(self.0.0).texture_type,
                ),
            },
    {
        match driver.check(self.0.0, ObjectKind::Texture) {
            Err(e) => Err(e),
            Ok(()) => Ok(driver.texture_descriptor(self.0.0).texture_type),
        }
    }

    /// The format of a texel.
    pub fn get_pixel_format(&self, driver: &Driver) -> (res: Result<u64, MetalError>)
        ensures
            match driver@.fault(self.0.0, ObjectKind::Texture) {
                Some(e) => res == Err::<u64, MetalError>(e),
                None => res == Ok::<u64, MetalError>(
                    driver@.texture_descriptor(self.0.0).pixel_format,
                ),
            },
    {
        match driver.check(self.0.0, ObjectKind::Texture) {
            Err(e) => Err(e),
            Ok(()) => Ok(driver.texture_descriptor(self.0.0).pixel_format),
        }
    }

    /// The width in texels.
    pub fn get_width(&self, driver: &Driver) -> (res: Result<u64, MetalError>)
        ensures
            match driver@.fault(self.0.0, ObjectKind::Texture) {
                Some(e) => res == Err::<u64, MetalError>(e),
                None => res == Ok::<u64, MetalError>(driver@.texture_descriptor(self.0.0).width),
            },
    {
        match driver.check(self.0.0, ObjectKind::Texture) {
            Err(e) => Err(e),
            Ok(()) => Ok(driver.texture_descriptor(self.0.0).width),
        }
    }

    /// The height in texels.
    pub fn get_height(&self, driver: &Driver) -> (res: Result<u64, MetalError>)
        ensures
            match driver@.fault(self.0.0, ObjectKind::Texture) {
                Some(e) => res == Err::<u64, MetalError>(e),
                None => res == Ok::<u64, MetalError>(driver@.texture_descriptor(self.0.0).height),
            },
    {
        match driver.check(self.0.0, ObjectKind::Texture) {
            Err(e) => Err(e),
            Ok(()) => Ok(driver.texture_descriptor(self.0.0).height),
        }
    }

    /// The depth in texels.
    pub fn get_depth(&self, driver: &Driver) -> (res: Result<u64, MetalError>)
        ensures
            match driver@.fault(self.0.0, ObjectKind::Texture) {
                Some(e) => res == Err::<u64, MetalError>(e),
                None => res == Ok::<u64, MetalError>(driver@.texture_descriptor(self.0.0).depth),
            },
    {
        match driver.check(self.0.0, ObjectKind::Texture) {
            Err(e) => Err(e),
            Ok(()) => Ok(driver.texture_descriptor(self.0.0).depth),
        }
    }

    /// The number of mipmap levels.
    pub fn get_mipmap_level_count(&self, driver: &Driver) -> (res: Result<u64, MetalError>)
        ensures
            match driver@.fault(self.0.0, ObjectKind::Texture) {
                Some(e) => res == Err::<u64, MetalError>(e),
                None => res == Ok::<u64, MetalError>(
                    driver@.texture_descriptor(self.0.0).mipmap_level_count,
                ),
            },
    {
        match driver.check(self.0.0, ObjectKind::Texture) {
            Err(e) => Err(e),
            Ok(()) => Ok(driver.texture_descriptor(self.0.0).mipmap_level_count),
        }
    }

    /// The number of slices of an array.
    pub fn get_array_length(&self, driver: &Driver) -> (res: Result<u64, MetalError>)
        ensures
            match driver@.fault(self.0.0, ObjectKind::Texture) {
                Some(e) => res == Err::<u64, MetalError>(e),
                None => res == Ok::<u64, MetalError>(
                    driver@.texture_descriptor(self.0.0).array_length,
                ),
            },
    {
        match driver.check(self.0.0, ObjectKind::Texture) {
            Err(e) => Err(e),
            Ok(()) => Ok(driver.texture_descriptor(self.0.0).array_length),
        }
    }

    /// The number of samples in each texel.
    pub fn get_sample_count(&self, driver: &Driver) -> (res: Result<u64, MetalError>)
        ensures
            match driver@.fault(self.0.0, ObjectKind::Texture) {
                Some(e) => res == Err::<u64, MetalError>(e),
                None => res == Ok::<u64, MetalError>(
                    driver@.texture_descriptor(self.0.0).sample_count,
                ),
            },
    {
        match driver.check(self.0.0, ObjectKind::Texture) {
            Err(e) => Err(e),
            Ok(()) => Ok(driver.texture_descriptor(self.0.0).sample_count),
        }
    }

    /// What the texture is used for.
    pub fn get_usage(&self, driver: &Driver) -> (res: Result<u64, MetalError>)
        ensures
            match driver@.fault(self.0.0, ObjectKind::Texture) {
                Some(e) => res == Err::<u64, MetalError>(e),
                None => res == Ok::<u64, MetalError>(driver@.texture_descriptor(self.0.0).usage),
            },
    {
        match driver.check(self.0.0, ObjectKind::Texture) {
            Err(e) => Err(e),
            Ok(()) => Ok(driver.texture_descriptor(self.0.0).usage),
        }
    }

    /// Whether the contents may be laid out for the graphics processor.
    pub fn does_allow_gpu_optimized_contents(
        &self,
        driver: &Driver,
    ) -> (res: Result<bool, MetalError>)
        ensures
            match driver@.fault(self.0.0, ObjectKind::Texture) {
                Some(e) => res == Err::<bool, MetalError>(e),
                None => res == Ok::<bool, MetalError>(
                    driver@.texture_descriptor(self.0.0).allow_gpu_optimized_contents,
                ),
            },
    {
        match driver.check(self.0.0, ObjectKind::Texture) {
            Err(e) => Err(e),
            Ok(()) => Ok(driver.texture_descriptor(self.0.0).allow_gpu_optimized_contents),
        }
    }

    /// Whether the texture can cross to another process.
    pub fn is_shareable(&self, driver: &Driver) -> (res: Result<bool, MetalError>)
        ensures
            match driver@.fault(self.0.0, ObjectKind::Texture) {
                Some(e) => res == Err::<bool, MetalError>(e),
                None => res == Ok::<bool, MetalError>(driver@.shareable(self.0.0)),
            },
    {
        match driver.check(self.0.0, ObjectKind::Texture) {
            Err(e) => Err(e),
            Ok(()) => Ok(driver.shareable(self.0.0)),
        }
    }

    /// The channels read as red, green, blue and alpha.
    pub fn get_swizzle(&self, driver: &Driver) -> (res: Result<(u64, u64, u64, u64), MetalError>)
        ensures
            match driver@.fault(self.0.0, ObjectKind::Texture) {
                Some(e) => res == Err::<(u64, u64, u64, u64), MetalError>(e),
                None => res == Ok::<(u64, u64, u64, u64), MetalError>(
                    (
                        driver@.texture_descriptor(self.0.0).swizzle_red as u64,
                        driver@.texture_descriptor(self.0.0).swizzle_green as u64,
                        driver@.texture_descriptor(self.0.0).swizzle_blue as u64,
                        driver@.texture_descriptor(self.0.0).swizzle_alpha as u64,
                    ),
                ),
            },
    {
        match driver.check(self.0.0, ObjectKind::Texture) {
            Err(e) => Err(e),
            Ok(()) => {
                let descriptor = driver.texture_descriptor(self.0.0);
                Ok(
                    (
                        descriptor.swizzle_red as u64,
                        descriptor.swizzle_green as u64,
                        descriptor.swizzle_blue as u64,
                        descriptor.swizzle_alpha as u64,
                    ),
                )
            },
        }
    }

    /// The texture that this one is a view of, retained, or none.
    pub fn get_parent_texture(
        &self,
        driver: &mut Driver,
    ) -> (res: Result<Option<MTLTexture>, MetalError>)
        ensures
            match old(driver)@.parent_fault(self.0.0, old(driver)@.parent_texture(self.0.0)) {
                Some(e) => res == Err::<Option<MTLTexture>, MetalError>(
                    e,
                ) && final(driver)@ == old(driver)@,
                None => if old(driver)@.parent_texture(self.0.0) == 0 {
                    &&& res == Ok::<Option<MTLTexture>, MetalError>(None)
                    &&& final(driver)@ == old(driver)@
                } else {
                    &&& res == Ok::<Option<MTLTexture>, MetalError>(
                        Some(MTLTexture(Handle(old(driver)@.parent_texture(self.0.0)))),
                    )
                    &&& final(driver)@ == old(driver)@.retain(old(driver)@.parent_texture(self.0.0))
                },
            },
            old(driver)@.leads_to(final(driver)@),
    {
        proof {
            lemma_leads_to_itself(driver@);
            lemma_borrowed_names();
        }
        match driver.check(self.0.0, ObjectKind::Texture) {
            Err(e) => {
                return Err(e);
            },
            Ok(()) => {},
        }
        let parent = driver.parent_texture(self.0.0);
        match Handle::adopt(driver, parent, ownership_of_selector("parentTexture")) {
            Err(e) => Err(e),
            Ok(handle) => if parent == 0 {
                Ok(None)
            } else {
                Ok(Some(MTLTexture(handle)))
            },
        }
    }

    /// The level of its parent at which this view starts.
    pub fn get_parent_relative_level(&self, driver: &Driver) -> (res: Result<u64, MetalError>)
        ensures
            match driver@.fault(self.0.0, ObjectKind::Texture) {
                Some(e) => res == Err::<u64, MetalError>(e),
                None => res == Ok::<u64, MetalError>(driver@.parent_level(self.0.0)),
            },
    {
        match driver.check(self.0.0, ObjectKind::Texture) {
            Err(e) => Err(e),
            Ok(()) => Ok(driver.parent_level(self.0.0)),
        }
    }

    /// The slice of its parent at which this view starts.
    pub fn get_parent_relative_slice(&self, driver: &Driver) -> (res: Result<u64, MetalError>)
        ensures
            match driver@.fault(self.0.0, ObjectKind::Texture) {
                Some(e) => res == Err::<u64, MetalError>(e),
                None => res == Ok::<u64, MetalError>(driver@.parent_slice(self.0.0)),
            },
    {
        match driver.check(self.0.0, ObjectKind::Texture) {
            Err(e) => Err(e),
            Ok(()) => Ok(driver.parent_slice(self.0.0)),
        }
    }

    /// The buffer whose memory this texture shows, retained, or none.
    pub fn get_buffer(&self, driver: &mut Driver) -> (res: Result<Option<MTLBuffer>, MetalError>)
        ensures
            match old(driver)@.parent_fault(self.0.0, old(driver)@.parent_buffer(self.0.0)) {
                Some(e) => res == Err::<Option<MTLBuffer>, MetalError>(
                    e,
                ) && final(driver)@ == old(driver)@,
                None => if old(driver)@.parent_buffer(self.0.0) == 0 {
                    &&& res == Ok::<Option<MTLBuffer>, MetalError>(None)
                    &&& final(driver)@ == old(driver)@
                } else {
                    &&& res == Ok::<Option<MTLBuffer>, MetalError>(
                        Some(MTLBuffer(Handle(old(driver)@.parent_buffer(self.0.0)))),
                    )
                    &&& final(driver)@ == old(driver)@.retain(old(driver)@.parent_buffer(self.0.0))
                },
            },
            old(driver)@.leads_to(final(driver)@),
    {
        proof {
            lemma_leads_to_itself(driver@);
            lemma_borrowed_names();
        }
        match driver.check(self.0.0, ObjectKind::Texture) {
            Err(e) => {
                return Err(e);
            },
            Ok(()) => {},
        }
        let buffer = driver.parent_buffer(self.0.0);
        match Handle::adopt(driver, buffer, ownership_of_selector("buffer")) {
            Err(e) => Err(e),
            Ok(handle) => if buffer == 0 {
                Ok(None)
            } else {
                Ok(Some(MTLBuffer(handle)))
            },
        }
    }

    /// A handle by which the texture crosses to another process, or none where the
    /// texture cannot cross.
    pub fn new_shared_texture_handle(&self, driver: &mut Driver) -> (res: Result<
        Option<MTLSharedTextureHandle>,
        MetalError,
    >)
        ensures
            match old(driver)@.share_fault(self.0.0) {
                Some(e) => res == Err::<Option<MTLSharedTextureHandle>, MetalError>(
                    e,
                ) && final(driver)@ == old(driver)@,
                None => if old(driver)@.shareable(self.0.0) {
                    &&& res == Ok::<Option<MTLSharedTextureHandle>, MetalError>(
                        Some(MTLSharedTextureHandle(Handle(old(driver)@.next()))),
                    )
                    &&& final(driver)@ == old(driver)@.plus(
                        plain_made(ObjectKind::SharedTextureHandle),
                    )
                } else {
                    &&& res == Ok::<Option<MTLSharedTextureHandle>, MetalError>(None)
                    &&& final(driver)@ == old(driver)@
                },
            },
            old(driver)@.leads_to(final(driver)@),
    {
        proof {
            lemma_leads_to_itself(driver@);
            lemma_owned_names();
        }
        match driver.check(self.0.0, ObjectKind::Texture) {
            Err(e) => {
                return Err(e);
            },
            Ok(()) => {},
        }
        if !driver.shareable(self.0.0) {
            return Ok(None);
        }
        match driver.make(
            ObjectKind::SharedTextureHandle,
            "newSharedTextureHandle",
            Payload::Plain,
        ) {
            Ok(handle) => Ok(Some(MTLSharedTextureHandle(handle))),
            Err(e) => Err(e),
        }
    }

    /// A view of the texture for `device`, whose handle gives its reference up.
    pub fn new_remote_texture_view_for_device(
        &self,
        driver: &mut Driver,
        device: MTLDevice,
    ) -> (res: Result<MTLTexture, MetalError>)
        ensures
            match old(driver)@.fault(self.0.0, ObjectKind::Texture) {
                Some(e) => res == Err::<MTLTexture, MetalError>(
                    e,
                ) && final(driver)@ == old(driver)@,
                None => match old(driver)@.hand_over_fault(device.0.0, ObjectKind::Device) {
                    Some(e) => res == Err::<MTLTexture, MetalError>(
                        e,
                    ) && final(driver)@ == old(driver)@,
                    None => if old(driver)@.full() {
                        &&& res == Err::<MTLTexture, MetalError>(MetalError::Exhausted)
                        &&& final(driver)@ == old(driver)@
                    } else {
                        &&& res == Ok::<MTLTexture, MetalError>(
                            MTLTexture(Handle(old(driver)@.next())),
                        )
                        &&& final(driver)@ == old(driver)@.plus(
                            texture_object(
                                old(driver)@.texture_descriptor(self.0.0),
                                self.0.0,
                                0,
                                0,
                                false,
                            ),
                        ).release(device.0.0)
                    },
                },
            },
            old(driver)@.leads_to(final(driver)@),
    {
        proof {
            lemma_leads_to_itself(driver@);
            lemma_owned_names();
        }
        match driver.check(self.0.0, ObjectKind::Texture) {
            Err(e) => {
                return Err(e);
            },
            Ok(()) => {},
        }
        match check_hand_over(driver, device.0.0, ObjectKind::Device) {
            Err(e) => {
                return Err(e);
            },
            Ok(()) => {},
        }
        let descriptor = driver.texture_descriptor(self.0.0);
        match driver.make(
            ObjectKind::Texture,
            "newRemoteTextureViewForDevice",
            Payload::Texture {
                descriptor,
                parent: self.0.0,
                buffer: 0,
                level: 0,
                slice: 0,
                shareable: false,
            },
        ) {
            Err(e) => Err(e),
            Ok(made) => {
                let ghost mid = driver@;
                assert(mid.get(device.0.0) == old(driver)@.get(device.0.0));
                assert(mid.live(device.0.0)) by {
                    assert(mid.get(device.0.0).strong > 0);
                }
                let _ = driver.release(device.0.0);
                proof {
                    lemma_leads_to_is_transitive(old(driver)@, mid, driver@);
                }
                Ok(MTLTexture(made))
            },
        }
    }
}

} // verus!
