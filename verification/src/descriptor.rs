//! Descriptors: plain values that say what an object is to be made like. A descriptor is
//! read when the object is made and not after.

use vstd::prelude::*;
use crate::geometry::MTLSize;

verus! {

/// Numbered slots that each hold a descriptor: a list of what was put where, in turn, and
/// the descriptor that a slot holds while nothing was put there.
#[derive(Debug)]
pub struct Slots<D> {
    pub fallback: D,
    pub entries: Vec<(u64, D)>,
}

/// What slot `index` holds after `entries` were put, in turn, into slots that held
/// `fallback`.
pub open spec fn slot<D>(entries: Seq<(u64, D)>, fallback: D, index: u64) -> D
    decreases entries.len(),
{
    if entries.len() == 0 {
        fallback
    } else if entries.last().0 == index {
        entries.last().1
    } else {
        slot(entries.drop_last(), fallback, index)
    }
}

impl<D: Copy> Slots<D> {
    /// What slot `index` holds.
    pub open spec fn at(&self, index: u64) -> D {
        slot(self.entries@, self.fallback, index)
    }

    /// Slots that all hold `fallback`.
    pub fn filled(fallback: D) -> (slots: Slots<D>)
        ensures
            slots.fallback == fallback,
            slots.entries@.len() == 0,
    {
        Slots { fallback, entries: Vec::new() }
    }

    /// What slot `index` holds.
    pub fn get(&self, index: u64) -> (descriptor: D)
        ensures
            descriptor == self.at(index),
    {
        let mut i: usize = self.entries.len();
        assert(self.entries@.take(i as int) == self.entries@);
        while i > 0
            invariant
                i <= self.entries.len(),
                self.at(index) == slot(self.entries@.take(i as int), self.fallback, index),
            decreases i,
        {
            assert(self.entries@.take(i as int).drop_last() == self.entries@.take(i - 1));
            if self.entries[i - 1].0 == index {
                return self.entries[i - 1].1;
            }
            i = i - 1;
        }
        self.fallback
    }

    /// Puts `descriptor` in slot `index`.
    pub fn set(&mut self, index: u64, descriptor: D)
        ensures
            final(self).fallback == old(self).fallback,
            final(self).entries@ == old(self).entries@.push((index, descriptor)),
            forall|other: u64|
                final(self).at(other) == if other == index {
                    descriptor
                } else {
                    old(self).at(other)
                },
    {
        self.entries.push((index, descriptor));
        assert(self.entries@.drop_last() == old(self).entries@);
    }

    /// Empties every slot: each holds again what it held at first.
    pub fn clear(&mut self)
        ensures
            final(self).fallback == old(self).fallback,
            final(self).entries@.len() == 0,
    {
        self.entries.clear();
    }
}

/// How many levels a full chain of mipmaps has over a texture whose longest side is
/// `extent` texels: each level halves the side, down to one texel.
pub open spec fn mip_levels(extent: nat) -> nat
    decreases extent,
{
    if extent <= 1 {
        1
    } else {
        mip_levels(extent / 2) + 1
    }
}

/// A side below the `bits`-th power of two has a full chain of `bits` levels at most, or
/// of one.
pub proof fn lemma_mip_levels_bound(extent: nat, bits: nat)
    requires
        bits >= 1,
        extent < vstd::arithmetic::power2::pow2(bits),
    ensures
        mip_levels(extent) <= bits,
    decreases extent,
{
    if extent > 1 {
        vstd::arithmetic::power2::lemma_pow2_unfold(bits);
        if bits == 1 {
            vstd::arithmetic::power2::lemma2_to64();
        } else {
            lemma_mip_levels_bound(extent / 2, (bits - 1) as nat);
        }
    }
}

/// How many levels a full chain of mipmaps has over a texture whose longest side is
/// `extent` texels.
pub fn full_mip_chain(extent: u64) -> (levels: u64)
    ensures
        levels == mip_levels(extent as nat),
        1 <= levels <= 64,
{
    let mut side: u64 = extent;
    let mut levels: u64 = 1;
    proof {
        vstd::arithmetic::power2::lemma2_to64();
        lemma_mip_levels_bound(extent as nat, 64);
    }
    while side > 1
        invariant
            levels + mip_levels(side as nat) == mip_levels(extent as nat) + 1,
            mip_levels(extent as nat) <= 64,
            levels >= 1,
        decreases side,
    {
        side = side / 2;
        levels = levels + 1;
    }
    levels
}

/// What a texture is to be made like.
#[derive(Copy, Clone, Debug, PartialEq, Eq, Structural)]
pub struct MTLTextureDescriptor {
    /// The dimension and arrangement of the texture.
    pub texture_type: u64,
    /// The format of a texel.
    pub pixel_format: u64,
    /// The width in texels.
    pub width: u64,
    /// The height in texels.
    pub height: u64,
    /// The depth in texels.
    pub depth: u64,
    /// The number of mipmap levels.
    pub mipmap_level_count: u64,
    /// The number of samples in each texel.
    pub sample_count: u64,
    /// The number of slices of an array.
    pub array_length: u64,
    /// The options of the resource.
    pub resource_options: u64,
    /// How the processor caches the memory.
    pub cpu_cache_mode: u64,
    /// Where the memory lies and who reaches it.
    pub storage_mode: u64,
    /// Whether hazards are tracked.
    pub hazard_tracking_mode: u64,
    /// Whether the contents may be laid out for the graphics processor.
    pub allow_gpu_optimized_contents: bool,
    /// What the texture is used for.
    pub usage: u64,
    /// The channel read as red.
    pub swizzle_red: u8,
    /// The channel read as green.
    pub swizzle_green: u8,
    /// The channel read as blue.
    pub swizzle_blue: u8,
    /// The channel read as alpha.
    pub swizzle_alpha: u8,
}

impl MTLTextureDescriptor {
    /// The descriptor as it is before anything is set.
    pub open spec fn initial() -> MTLTextureDescriptor {
        MTLTextureDescriptor {
            texture_type: 2,
            pixel_format: 70,
            width: 1,
            height: 1,
            depth: 1,
            mipmap_level_count: 1,
            sample_count: 1,
            array_length: 1,
            resource_options: 0,
            cpu_cache_mode: 0,
            storage_mode: 0,
            hazard_tracking_mode: 0,
            allow_gpu_optimized_contents: true,
            usage: 1,
            swizzle_red: 2,
            swizzle_green: 3,
            swizzle_blue: 4,
            swizzle_alpha: 5,
        }
    }

    /// A descriptor with nothing set.
    pub fn new() -> (descriptor: MTLTextureDescriptor)
        ensures
            descriptor == MTLTextureDescriptor::initial(),
    {
        MTLTextureDescriptor {
            texture_type: 2,
            pixel_format: 70,
            width: 1,
            height: 1,
            depth: 1,
            mipmap_level_count: 1,
            sample_count: 1,
            array_length: 1,
            resource_options: 0,
            cpu_cache_mode: 0,
            storage_mode: 0,
            hazard_tracking_mode: 0,
            allow_gpu_optimized_contents: true,
            usage: 1,
            swizzle_red: 2,
            swizzle_green: 3,
            swizzle_blue: 4,
            swizzle_alpha: 5,
        }
    }

    /// Sets the dimension and arrangement of the texture.
    pub fn set_texture_type(&mut self, texture_type: u64)
        ensures
            *final(self) == (MTLTextureDescriptor { texture_type, ..*old(self) }),
    {
        self.texture_type = texture_type;
    }

    /// The dimension and arrangement of the texture.
    pub fn get_texture_type(&self) -> (texture_type: u64)
        ensures
            texture_type == self.texture_type,
    {
        self.texture_type
    }

    /// Sets the format of a texel.
    pub fn set_pixel_format(&mut self, pixel_format: u64)
        ensures
            *final(self) == (MTLTextureDescriptor { pixel_format, ..*old(self) }),
    {
        self.pixel_format = pixel_format;
    }

    /// The format of a texel.
    pub fn get_pixel_format(&self) -> (pixel_format: u64)
        ensures
            pixel_format == self.pixel_format,
    {
        self.pixel_format
    }

    /// Sets the width in texels.
    pub fn set_width(&mut self, width: u64)
        ensures
            *final(self) == (MTLTextureDescriptor { width, ..*old(self) }),
    {
        self.width = width;
    }

    /// The width in texels.
    pub fn get_width(&self) -> (width: u64)
        ensures
            width == self.width,
    {
        self.width
    }

    /// Sets the height in texels.
    pub fn set_height(&mut self, height: u64)
        ensures
            *final(self) == (MTLTextureDescriptor { height, ..*old(self) }),
    {
        self.height = height;
    }

    /// The height in texels.
    pub fn get_height(&self) -> (height: u64)
        ensures
            height == self.height,
    {
        self.height
    }

    /// Sets the depth in texels.
    pub fn set_depth(&mut self, depth: u64)
        ensures
            *final(self) == (MTLTextureDescriptor { depth, ..*old(self) }),
    {
        self.depth = depth;
    }

    /// The depth in texels.
    pub fn get_depth(&self) -> (depth: u64)
        ensures
            depth == self.depth,
    {
        self.depth
    }

    /// Sets the number of mipmap levels.
    pub fn set_mipmap_level_count(&mut self, mipmap_level_count: u64)
        ensures
            *final(self) == (MTLTextureDescriptor { mipmap_level_count, ..*old(self) }),
    {
        self.mipmap_level_count = mipmap_level_count;
    }

    /// The number of mipmap levels.
    pub fn get_mipmap_level_count(&self) -> (mipmap_level_count: u64)
        ensures
            mipmap_level_count == self.mipmap_level_count,
    {
        self.mipmap_level_count
    }

    /// Sets the number of samples in each texel.
    pub fn set_sample_count(&mut self, sample_count: u64)
        ensures
            *final(self) == (MTLTextureDescriptor { sample_count, ..*old(self) }),
    {
        self.sample_count = sample_count;
    }

    /// The number of samples in each texel.
    pub fn get_sample_count(&self) -> (sample_count: u64)
        ensures
            sample_count == self.sample_count,
    {
        self.sample_count
    }

    /// Sets the number of slices of an array.
    pub fn set_array_length(&mut self, array_length: u64)
        ensures
            *final(self) == (MTLTextureDescriptor { array_length, ..*old(self) }),
    {
        self.array_length = array_length;
    }

    /// The number of slices of an array.
    pub fn get_array_length(&self) -> (array_length: u64)
        ensures
            array_length == self.array_length,
    {
        self.array_length
    }

    /// Sets the options of the resource.
    pub fn set_resource_options(&mut self, resource_options: u64)
        ensures
            *final(self) == (MTLTextureDescriptor { resource_options, ..*old(self) }),
    {
        self.resource_options = resource_options;
    }

    /// The options of the resource.
    pub fn get_resource_options(&self) -> (resource_options: u64)
        ensures
            resource_options == self.resource_options,
    {
        self.resource_options
    }

    /// Sets how the processor caches the memory.
    pub fn set_cpu_cache_mode(&mut self, cpu_cache_mode: u64)
        ensures
            *final(self) == (MTLTextureDescriptor { cpu_cache_mode, ..*old(self) }),
    {
        self.cpu_cache_mode = cpu_cache_mode;
    }

    /// How the processor caches the memory.
    pub fn get_cpu_cache_mode(&self) -> (cpu_cache_mode: u64)
        ensures
            cpu_cache_mode == self.cpu_cache_mode,
    {
        self.cpu_cache_mode
    }

    /// Sets where the memory lies and who reaches it.
    pub fn set_storage_mode(&mut self, storage_mode: u64)
        ensures
            *final(self) == (MTLTextureDescriptor { storage_mode, ..*old(self) }),
    {
        self.storage_mode = storage_mode;
    }

    /// Where the memory lies and who reaches it.
    pub fn get_storage_mode(&self) -> (storage_mode: u64)
        ensures
            storage_mode == self.storage_mode,
    {
        self.storage_mode
    }

    /// Sets whether hazards are tracked.
    pub fn set_hazard_tracking_mode(&mut self, hazard_tracking_mode: u64)
        ensures
            *final(self) == (MTLTextureDescriptor { hazard_tracking_mode, ..*old(self) }),
    {
        self.hazard_tracking_mode = hazard_tracking_mode;
    }

    /// Whether hazards are tracked.
    pub fn get_hazard_tracking_mode(&self) -> (hazard_tracking_mode: u64)
        ensures
            hazard_tracking_mode == self.hazard_tracking_mode,
    {
        self.hazard_tracking_mode
    }

    /// Sets whether the contents may be laid out for the graphics processor.
    pub fn set_allow_gpu_optimized_contents(&mut self, allow_gpu_optimized_contents: bool)
        ensures
            *final(self) == (MTLTextureDescriptor { allow_gpu_optimized_contents, ..*old(self) }),
    {
        self.allow_gpu_optimized_contents = allow_gpu_optimized_contents;
    }

    /// Whether the contents may be laid out for the graphics processor.
    pub fn get_allow_gpu_optimized_contents(&self) -> (allow_gpu_optimized_contents: bool)
        ensures
            allow_gpu_optimized_contents == self.allow_gpu_optimized_contents,
    {
        self.allow_gpu_optimized_contents
    }

    /// Sets what the texture is used for.
    pub fn set_usage(&mut self, usage: u64)
        ensures
            *final(self) == (MTLTextureDescriptor { usage, ..*old(self) }),
    {
        self.usage = usage;
    }

    /// What the texture is used for.
    pub fn get_usage(&self) -> (usage: u64)
        ensures
            usage == self.usage,
    {
        self.usage
    }

    /// Sets the channels read as red, green, blue and alpha.
    pub fn set_swizzle(&mut self, swizzle: (u8, u8, u8, u8))
        ensures
            *final(self) == (MTLTextureDescriptor {
                swizzle_red: swizzle.0,
                swizzle_green: swizzle.1,
                swizzle_blue: swizzle.2,
                swizzle_alpha: swizzle.3,
                ..*old(self)
            }),
    {
        self.swizzle_red = swizzle.0;
        self.swizzle_green = swizzle.1;
        self.swizzle_blue = swizzle.2;
        self.swizzle_alpha = swizzle.3;
    }

    /// The channels read as red, green, blue and alpha.
    pub fn get_swizzle(&self) -> (swizzle: (u8, u8, u8, u8))
        ensures
            swizzle == (
                self.swizzle_red,
                self.swizzle_green,
                self.swizzle_blue,
                self.swizzle_alpha,
            ),
    {
        (self.swizzle_red, self.swizzle_green, self.swizzle_blue, self.swizzle_alpha)
    }

    /// The larger of two sides.
    pub open spec fn longer(a: u64, b: u64) -> u64 {
        if a >= b {
            a
        } else {
            b
        }
    }

    /// A descriptor of a two-dimensional texture of `size` texels in `format`, with a full
    /// chain of mipmaps if `mipmapped`.
    pub fn texture_2d_descriptor_with_pixel_format(
        size: (u64, u64),
        mipmapped: bool,
        format: u64,
    ) -> (descriptor: MTLTextureDescriptor)
        ensures
            descriptor == (MTLTextureDescriptor {
                texture_type: 2,
                pixel_format: format,
                width: size.0,
                height: size.1,
                mipmap_level_count: if mipmapped {
                    mip_levels(MTLTextureDescriptor::longer(size.0, size.1) as nat) as u64
                } else {
                    1
                },
                ..MTLTextureDescriptor::initial()
            }),
    {
        let mut descriptor = MTLTextureDescriptor::new();
        descriptor.texture_type = 2;
        descriptor.pixel_format = format;
        descriptor.width = size.0;
        descriptor.height = size.1;
        if mipmapped {
            let longest = if size.0 >= size.1 {
                size.0
            } else {
                size.1
            };
            descriptor.mipmap_level_count = full_mip_chain(longest);
        }
        descriptor
    }

    /// A descriptor of a cube texture whose faces are `size` texels square in `format`,
    /// with a full chain of mipmaps if `mipmapped`.
    pub fn texture_cube_descriptor_with_pixel_format(
        size: u64,
        mipmapped: bool,
        format: u64,
    ) -> (descriptor: MTLTextureDescriptor)
        ensures
            descriptor == (MTLTextureDescriptor {
                texture_type: 5,
                pixel_format: format,
                width: size,
                height: size,
                mipmap_level_count: if mipmapped {
                    mip_levels(size as nat) as u64
                } else {
                    1
                },
                ..MTLTextureDescriptor::initial()
            }),
    {
        let mut descriptor = MTLTextureDescriptor::new();
        descriptor.texture_type = 5;
        descriptor.pixel_format = format;
        descriptor.width = size;
        descriptor.height = size;
        if mipmapped {
            descriptor.mipmap_level_count = full_mip_chain(size);
        }
        descriptor
    }

    /// A descriptor of a texture of `width` texels in `format` that shows the memory of a
    /// buffer.
    pub fn texture_buffer_descriptor_with_pixel_format(
        width: u64,
        format: u64,
        options: u64,
        usage: u64,
    ) -> (descriptor: MTLTextureDescriptor)
        ensures
            descriptor == (MTLTextureDescriptor {
                texture_type: 9,
                pixel_format: format,
                width,
                resource_options: options,
                usage,
                ..MTLTextureDescriptor::initial()
            }),
    {
        let mut descriptor = MTLTextureDescriptor::new();
        descriptor.texture_type = 9;
        descriptor.pixel_format = format;
        descriptor.width = width;
        descriptor.resource_options = options;
        descriptor.usage = usage;
        descriptor
    }
}

/// What a heap is to be made like.
#[derive(Copy, Clone, Debug, PartialEq, Eq, Structural)]
pub struct MTLHeapDescriptor {
    /// How the heap places what is carved from it.
    pub heap_type: u64,
    /// Where the memory lies and who reaches it.
    pub storage_mode: u64,
    /// How the processor caches the memory.
    pub cpu_cache_mode: u64,
    /// Whether hazards are tracked.
    pub hazard_tracking_mode: u64,
    /// The options of every resource of the heap.
    pub resource_options: u64,
    /// The size in bytes.
    pub size: u64,
}

impl MTLHeapDescriptor {
    /// The descriptor as it is before anything is set.
    pub open spec fn initial() -> MTLHeapDescriptor {
        MTLHeapDescriptor {
            heap_type: 0,
            storage_mode: 0,
            cpu_cache_mode: 0,
            hazard_tracking_mode: 0,
            resource_options: 0,
            size: 0,
        }
    }

    /// A descriptor with nothing set.
    pub fn new() -> (descriptor: MTLHeapDescriptor)
        ensures
            descriptor == MTLHeapDescriptor::initial(),
    {
        MTLHeapDescriptor {
            heap_type: 0,
            storage_mode: 0,
            cpu_cache_mode: 0,
            hazard_tracking_mode: 0,
            resource_options: 0,
            size: 0,
        }
    }

    /// Sets how the heap places what is carved from it.
    pub fn set_type(&mut self, heap_type: u64)
        ensures
            *final(self) == (MTLHeapDescriptor { heap_type, ..*old(self) }),
    {
        self.heap_type = heap_type;
    }

    /// Sets where the memory lies and who reaches it.
    pub fn set_storage_mode(&mut self, storage_mode: u64)
        ensures
            *final(self) == (MTLHeapDescriptor { storage_mode, ..*old(self) }),
    {
        self.storage_mode = storage_mode;
    }

    /// Sets how the processor caches the memory.
    pub fn set_cpu_cache_mode(&mut self, cpu_cache_mode: u64)
        ensures
            *final(self) == (MTLHeapDescriptor { cpu_cache_mode, ..*old(self) }),
    {
        self.cpu_cache_mode = cpu_cache_mode;
    }

    /// Sets whether hazards are tracked.
    pub fn set_hazard_tracking_mode(&mut self, hazard_tracking_mode: u64)
        ensures
            *final(self) == (MTLHeapDescriptor { hazard_tracking_mode, ..*old(self) }),
    {
        self.hazard_tracking_mode = hazard_tracking_mode;
    }

    /// Sets the options of every resource of the heap.
    pub fn set_resource_options(&mut self, resource_options: u64)
        ensures
            *final(self) == (MTLHeapDescriptor { resource_options, ..*old(self) }),
    {
        self.resource_options = resource_options;
    }

    /// Sets the size in bytes.
    pub fn set_size(&mut self, size: u64)
        ensures
            *final(self) == (MTLHeapDescriptor { size, ..*old(self) }),
    {
        self.size = size;
    }
}

/// How a layer is set.
#[derive(Copy, Clone, Debug, PartialEq, Eq, Structural)]
pub struct LayerSettings {
    /// The device that makes the drawables.
    pub device: u64,
    /// The view that shows the layer; 0 for none.
    pub view: u64,
    /// The format of a texel of a drawable.
    pub pixel_format: u64,
    /// Whether drawables serve as render targets only.
    pub framebuffer_only: bool,
    /// Whether presentation waits for the transaction.
    pub presents_with_transaction: bool,
    /// Whether presentation waits for the display.
    pub display_sync_enabled: bool,
    /// Whether the extended range is asked for.
    pub wants_extended_dynamic_range_content: bool,
    /// The number of drawables the layer hands out at a time.
    pub maximum_drawable_count: u64,
    /// Whether a request for a drawable gives up after a while.
    pub allows_next_drawable_timeout: bool,
}

impl LayerSettings {
    /// The descriptor as it is before anything is set.
    pub open spec fn initial() -> LayerSettings {
        LayerSettings {
            device: 0,
            view: 0,
            pixel_format: 80,
            framebuffer_only: true,
            presents_with_transaction: false,
            display_sync_enabled: true,
            wants_extended_dynamic_range_content: false,
            maximum_drawable_count: 3,
            allows_next_drawable_timeout: true,
        }
    }

    /// A descriptor with nothing set.
    pub fn new() -> (descriptor: LayerSettings)
        ensures
            descriptor == LayerSettings::initial(),
    {
        LayerSettings {
            device: 0,
            view: 0,
            pixel_format: 80,
            framebuffer_only: true,
            presents_with_transaction: false,
            display_sync_enabled: true,
            wants_extended_dynamic_range_content: false,
            maximum_drawable_count: 3,
            allows_next_drawable_timeout: true,
        }
    }
}

/// What a sampler state is to be made like.
#[derive(Copy, Clone, Debug, PartialEq, Eq, Structural)]
pub struct MTLSamplerDescriptor {
    /// Whether coordinates run from 0 to 1.
    pub normalized_coords: bool,
    /// What is read beyond the depth.
    pub r_address_mode: u64,
    /// What is read beyond the width.
    pub s_address_mode: u64,
    /// What is read beyond the height.
    pub t_address_mode: u64,
    /// The colour read beyond the border.
    pub border_color: u64,
    /// How texels are combined when the texture is shrunk.
    pub min_filter: u64,
    /// How texels are combined when the texture is enlarged.
    pub mag_filter: u64,
    /// How levels are combined.
    pub mip_filter: u64,
    /// Whether the level of detail is averaged.
    pub lod_average_enabled: bool,
    /// The number of samples taken for anisotropy.
    pub max_anisotropy: u64,
    /// How a depth is compared.
    pub compare_function: u64,
    /// Whether the sampler can stand in an argument buffer.
    pub support_argument_buffers: bool,
}

impl MTLSamplerDescriptor {
    /// The descriptor as it is before anything is set.
    pub open spec fn initial() -> MTLSamplerDescriptor {
        MTLSamplerDescriptor {
            normalized_coords: true,
            r_address_mode: 0,
            s_address_mode: 0,
            t_address_mode: 0,
            border_color: 0,
            min_filter: 0,
            mag_filter: 0,
            mip_filter: 0,
            lod_average_enabled: false,
            max_anisotropy: 1,
            compare_function: 0,
            support_argument_buffers: false,
        }
    }

    /// A descriptor with nothing set.
    pub fn new() -> (descriptor: MTLSamplerDescriptor)
        ensures
            descriptor == MTLSamplerDescriptor::initial(),
    {
        MTLSamplerDescriptor {
            normalized_coords: true,
            r_address_mode: 0,
            s_address_mode: 0,
            t_address_mode: 0,
            border_color: 0,
            min_filter: 0,
            mag_filter: 0,
            mip_filter: 0,
            lod_average_enabled: false,
            max_anisotropy: 1,
            compare_function: 0,
            support_argument_buffers: false,
        }
    }

    /// Sets whether coordinates run from 0 to 1.
    pub fn set_normalized_coords(&mut self, normalized_coords: bool)
        ensures
            *final(self) == (MTLSamplerDescriptor { normalized_coords, ..*old(self) }),
    {
        self.normalized_coords = normalized_coords;
    }

    /// Sets what is read beyond the depth.
    pub fn set_r_address_mode(&mut self, r_address_mode: u64)
        ensures
            *final(self) == (MTLSamplerDescriptor { r_address_mode, ..*old(self) }),
    {
        self.r_address_mode = r_address_mode;
    }

    /// Sets what is read beyond the width.
    pub fn set_s_address_mode(&mut self, s_address_mode: u64)
        ensures
            *final(self) == (MTLSamplerDescriptor { s_address_mode, ..*old(self) }),
    {
        self.s_address_mode = s_address_mode;
    }

    /// Sets what is read beyond the height.
    pub fn set_t_address_mode(&mut self, t_address_mode: u64)
        ensures
            *final(self) == (MTLSamplerDescriptor { t_address_mode, ..*old(self) }),
    {
        self.t_address_mode = t_address_mode;
    }

    /// Sets the colour read beyond the border.
    pub fn set_border_color(&mut self, border_color: u64)
        ensures
            *final(self) == (MTLSamplerDescriptor { border_color, ..*old(self) }),
    {
        self.border_color = border_color;
    }

    /// Sets how texels are combined when the texture is shrunk.
    pub fn set_min_filter(&mut self, min_filter: u64)
        ensures
            *final(self) == (MTLSamplerDescriptor { min_filter, ..*old(self) }),
    {
        self.min_filter = min_filter;
    }

    /// Sets how texels are combined when the texture is enlarged.
    pub fn set_mag_filter(&mut self, mag_filter: u64)
        ensures
            *final(self) == (MTLSamplerDescriptor { mag_filter, ..*old(self) }),
    {
        self.mag_filter = mag_filter;
    }

    /// Sets how levels are combined.
    pub fn set_mip_filter(&mut self, mip_filter: u64)
        ensures
            *final(self) == (MTLSamplerDescriptor { mip_filter, ..*old(self) }),
    {
        self.mip_filter = mip_filter;
    }

    /// Sets whether the level of detail is averaged.
    pub fn set_lod_average_enabled(&mut self, lod_average_enabled: bool)
        ensures
            *final(self) == (MTLSamplerDescriptor { lod_average_enabled, ..*old(self) }),
    {
        self.lod_average_enabled = lod_average_enabled;
    }

    /// Sets the number of samples taken for anisotropy.
    pub fn set_max_anisotropy(&mut self, max_anisotropy: u64)
        ensures
            *final(self) == (MTLSamplerDescriptor { max_anisotropy, ..*old(self) }),
    {
        self.max_anisotropy = max_anisotropy;
    }

    /// Sets how a depth is compared.
    pub fn set_compare_function(&mut self, compare_function: u64)
        ensures
            *final(self) == (MTLSamplerDescriptor { compare_function, ..*old(self) }),
    {
        self.compare_function = compare_function;
    }

    /// Sets whether the sampler can stand in an argument buffer.
    pub fn set_support_argument_buffers(&mut self, support_argument_buffers: bool)
        ensures
            *final(self) == (MTLSamplerDescriptor { support_argument_buffers, ..*old(self) }),
    {
        self.support_argument_buffers = support_argument_buffers;
    }
}

/// What a depth and stencil state is to be made like.
#[derive(Copy, Clone, Debug, PartialEq, Eq, Structural)]
pub struct MTLDepthStencilDescriptor {
    /// How a depth is compared with the one stored.
    pub depth_compare_function: u64,
    /// Whether depths are stored.
    pub depth_write_enabled: bool,
}

impl MTLDepthStencilDescriptor {
    /// The descriptor as it is before anything is set.
    pub open spec fn initial() -> MTLDepthStencilDescriptor {
        MTLDepthStencilDescriptor {
            depth_compare_function: 7,
            depth_write_enabled: false,
        }
    }

    /// A descriptor with nothing set.
    pub fn new() -> (descriptor: MTLDepthStencilDescriptor)
        ensures
            descriptor == MTLDepthStencilDescriptor::initial(),
    {
        MTLDepthStencilDescriptor {
            depth_compare_function: 7,
            depth_write_enabled: false,
        }
    }

    /// Sets how a depth is compared with the one stored.
    pub fn set_depth_compare_function(&mut self, depth_compare_function: u64)
        ensures
            *final(self) == (MTLDepthStencilDescriptor { depth_compare_function, ..*old(self) }),
    {
        self.depth_compare_function = depth_compare_function;
    }

    /// Sets whether depths are stored.
    pub fn set_depth_write_enabled(&mut self, depth_write_enabled: bool)
        ensures
            *final(self) == (MTLDepthStencilDescriptor { depth_write_enabled, ..*old(self) }),
    {
        self.depth_write_enabled = depth_write_enabled;
    }
}

/// What one argument of an argument buffer is like.
#[derive(Copy, Clone, Debug, PartialEq, Eq, Structural)]
pub struct MTLArgumentDescriptor {
    /// The type of the argument.
    pub data_type: u64,
    /// The place of the argument.
    pub index: u64,
    /// How the function reaches the argument.
    pub access: u64,
    /// The number of elements of an array.
    pub array_length: u64,
    /// The alignment of a block of constants.
    pub constant_block_alignment: u64,
    /// The dimension and arrangement of a texture.
    pub texture_type: u64,
}

impl MTLArgumentDescriptor {
    /// The descriptor as it is before anything is set.
    pub open spec fn initial() -> MTLArgumentDescriptor {
        MTLArgumentDescriptor {
            data_type: 0,
            index: 0,
            access: 0,
            array_length: 0,
            constant_block_alignment: 0,
            texture_type: 2,
        }
    }

    /// A descriptor with nothing set.
    pub fn new() -> (descriptor: MTLArgumentDescriptor)
        ensures
            descriptor == MTLArgumentDescriptor::initial(),
    {
        MTLArgumentDescriptor {
            data_type: 0,
            index: 0,
            access: 0,
            array_length: 0,
            constant_block_alignment: 0,
            texture_type: 2,
        }
    }

    /// Sets the type of the argument.
    pub fn set_data_type(&mut self, data_type: u64)
        ensures
            *final(self) == (MTLArgumentDescriptor { data_type, ..*old(self) }),
    {
        self.data_type = data_type;
    }

    /// Sets the place of the argument.
    pub fn set_index(&mut self, index: u64)
        ensures
            *final(self) == (MTLArgumentDescriptor { index, ..*old(self) }),
    {
        self.index = index;
    }

    /// Sets how the function reaches the argument.
    pub fn set_access(&mut self, access: u64)
        ensures
            *final(self) == (MTLArgumentDescriptor { access, ..*old(self) }),
    {
        self.access = access;
    }

    /// Sets the number of elements of an array.
    pub fn set_array_length(&mut self, array_length: u64)
        ensures
            *final(self) == (MTLArgumentDescriptor { array_length, ..*old(self) }),
    {
        self.array_length = array_length;
    }

    /// Sets the alignment of a block of constants.
    pub fn set_constant_block_alignment(&mut self, constant_block_alignment: u64)
        ensures
            *final(self) == (MTLArgumentDescriptor { constant_block_alignment, ..*old(self) }),
    {
        self.constant_block_alignment = constant_block_alignment;
    }

    /// Sets the dimension and arrangement of a texture.
    pub fn set_texture_type(&mut self, texture_type: u64)
        ensures
            *final(self) == (MTLArgumentDescriptor { texture_type, ..*old(self) }),
    {
        self.texture_type = texture_type;
    }
}

/// What an indirect command buffer is to be made like.
#[derive(Copy, Clone, Debug, PartialEq, Eq, Structural)]
pub struct MTLIndirectCommandBufferDescriptor {
    /// The kinds of command it takes.
    pub command_types: u64,
    /// Whether commands take their buffers from the encoder.
    pub inherit_buffers: bool,
    /// Whether commands take their pipeline state from the encoder.
    pub inherit_pipeline_state: bool,
    /// The number of vertex buffers a command binds at most.
    pub max_vertex_buffer_bind_count: u64,
    /// The number of fragment buffers a command binds at most.
    pub max_fragment_buffer_bind_count: u64,
    /// The number of kernel buffers a command binds at most.
    pub max_kernel_buffer_bind_count: u64,
}

impl MTLIndirectCommandBufferDescriptor {
    /// The descriptor as it is before anything is set.
    pub open spec fn initial() -> MTLIndirectCommandBufferDescriptor {
        MTLIndirectCommandBufferDescriptor {
            command_types: 0,
            inherit_buffers: false,
            inherit_pipeline_state: false,
            max_vertex_buffer_bind_count: 0,
            max_fragment_buffer_bind_count: 0,
            max_kernel_buffer_bind_count: 0,
        }
    }

    /// A descriptor with nothing set.
    pub fn new() -> (descriptor: MTLIndirectCommandBufferDescriptor)
        ensures
            descriptor == MTLIndirectCommandBufferDescriptor::initial(),
    {
        MTLIndirectCommandBufferDescriptor {
            command_types: 0,
            inherit_buffers: false,
            inherit_pipeline_state: false,
            max_vertex_buffer_bind_count: 0,
            max_fragment_buffer_bind_count: 0,
            max_kernel_buffer_bind_count: 0,
        }
    }

    /// Sets the kinds of command it takes.
    pub fn set_command_types(&mut self, command_types: u64)
        ensures
            *final(self) == (MTLIndirectCommandBufferDescriptor { command_types, ..*old(self) }),
    {
        self.command_types = command_types;
    }

    /// Sets whether commands take their buffers from the encoder.
    pub fn set_inherit_buffers(&mut self, inherit_buffers: bool)
        ensures
            *final(self) == (MTLIndirectCommandBufferDescriptor { inherit_buffers, ..*old(self) }),
    {
        self.inherit_buffers = inherit_buffers;
    }

    /// Sets whether commands take their pipeline state from the encoder.
    pub fn set_inherit_pipeline_state(&mut self, inherit_pipeline_state: bool)
        ensures
            *final(self) == (MTLIndirectCommandBufferDescriptor {
                inherit_pipeline_state,
                ..*old(self)
            }),
    {
        self.inherit_pipeline_state = inherit_pipeline_state;
    }

    /// Sets the number of vertex buffers a command binds at most.
    pub fn set_max_vertex_buffer_bind_count(&mut self, max_vertex_buffer_bind_count: u64)
        ensures
            *final(self) == (MTLIndirectCommandBufferDescriptor {
                max_vertex_buffer_bind_count,
                ..*old(self)
            }),
    {
        self.max_vertex_buffer_bind_count = max_vertex_buffer_bind_count;
    }

    /// Sets the number of fragment buffers a command binds at most.
    pub fn set_max_fragment_buffer_bind_count(&mut self, max_fragment_buffer_bind_count: u64)
        ensures
            *final(self) == (MTLIndirectCommandBufferDescriptor {
                max_fragment_buffer_bind_count,
                ..*old(self)
            }),
    {
        self.max_fragment_buffer_bind_count = max_fragment_buffer_bind_count;
    }

    /// Sets the number of kernel buffers a command binds at most.
    pub fn set_max_kernel_buffer_bind_count(&mut self, max_kernel_buffer_bind_count: u64)
        ensures
            *final(self) == (MTLIndirectCommandBufferDescriptor {
                max_kernel_buffer_bind_count,
                ..*old(self)
            }),
    {
        self.max_kernel_buffer_bind_count = max_kernel_buffer_bind_count;
    }
}

/// What the native layer says of a pipeline state that it has made.
#[derive(Copy, Clone, Debug, PartialEq, Eq, Structural)]
pub struct PipelineFacts {
    /// The most threads a threadgroup can have.
    pub max_total_threads_per_threadgroup: u64,
    /// The number of threads that run in step.
    pub thread_execution_width: u64,
    /// The bytes of threadgroup memory that the function declares.
    pub static_threadgroup_memory_length: u64,
    /// The bytes one sample takes in an imageblock.
    pub imageblock_sample_length: u64,
    /// Whether a threadgroup covers a tile.
    pub threadgroup_size_matches_tile_size: bool,
    /// Whether the pipeline can stand in an indirect command buffer.
    pub support_indirect_command_buffers: bool,
}

impl PipelineFacts {
    /// The descriptor as it is before anything is set.
    pub open spec fn initial() -> PipelineFacts {
        PipelineFacts {
            max_total_threads_per_threadgroup: 0,
            thread_execution_width: 0,
            static_threadgroup_memory_length: 0,
            imageblock_sample_length: 0,
            threadgroup_size_matches_tile_size: false,
            support_indirect_command_buffers: false,
        }
    }

    /// A descriptor with nothing set.
    pub fn new() -> (descriptor: PipelineFacts)
        ensures
            descriptor == PipelineFacts::initial(),
    {
        PipelineFacts {
            max_total_threads_per_threadgroup: 0,
            thread_execution_width: 0,
            static_threadgroup_memory_length: 0,
            imageblock_sample_length: 0,
            threadgroup_size_matches_tile_size: false,
            support_indirect_command_buffers: false,
        }
    }
}

/// Where one attribute of a stage input lies.
#[derive(Copy, Clone, Debug, PartialEq, Eq, Structural)]
pub struct MTLAttributeDescriptor {
    /// The buffer that holds the attribute.
    pub buffer_index: u64,
    /// Where in its element the attribute lies.
    pub offset: u64,
    /// The format of the attribute.
    pub format: u64,
}

impl MTLAttributeDescriptor {
    /// The descriptor as it is before anything is set.
    pub open spec fn initial() -> MTLAttributeDescriptor {
        MTLAttributeDescriptor {
            buffer_index: 0,
            offset: 0,
            format: 0,
        }
    }

    /// A descriptor with nothing set.
    pub fn new() -> (descriptor: MTLAttributeDescriptor)
        ensures
            descriptor == MTLAttributeDescriptor::initial(),
    {
        MTLAttributeDescriptor {
            buffer_index: 0,
            offset: 0,
            format: 0,
        }
    }

    /// Sets the buffer that holds the attribute.
    pub fn set_buffer_index(&mut self, buffer_index: u64)
        ensures
            *final(self) == (MTLAttributeDescriptor { buffer_index, ..*old(self) }),
    {
        self.buffer_index = buffer_index;
    }

    /// Sets where in its element the attribute lies.
    pub fn set_offset(&mut self, offset: u64)
        ensures
            *final(self) == (MTLAttributeDescriptor { offset, ..*old(self) }),
    {
        self.offset = offset;
    }

    /// Sets the format of the attribute.
    pub fn set_format(&mut self, format: u64)
        ensures
            *final(self) == (MTLAttributeDescriptor { format, ..*old(self) }),
    {
        self.format = format;
    }
}

/// How the elements of one buffer of a stage input lie.
#[derive(Copy, Clone, Debug, PartialEq, Eq, Structural)]
pub struct MTLBufferLayoutDescriptor {
    /// The distance between two elements in bytes.
    pub stride: u64,
    /// When the next element is taken.
    pub step_function: u64,
    /// How often the next element is taken.
    pub step_rate: u64,
}

impl MTLBufferLayoutDescriptor {
    /// The descriptor as it is before anything is set.
    pub open spec fn initial() -> MTLBufferLayoutDescriptor {
        MTLBufferLayoutDescriptor {
            stride: 0,
            step_function: 1,
            step_rate: 1,
        }
    }

    /// A descriptor with nothing set.
    pub fn new() -> (descriptor: MTLBufferLayoutDescriptor)
        ensures
            descriptor == MTLBufferLayoutDescriptor::initial(),
    {
        MTLBufferLayoutDescriptor {
            stride: 0,
            step_function: 1,
            step_rate: 1,
        }
    }

    /// Sets the distance between two elements in bytes.
    pub fn set_stride(&mut self, stride: u64)
        ensures
            *final(self) == (MTLBufferLayoutDescriptor { stride, ..*old(self) }),
    {
        self.stride = stride;
    }

    /// Sets when the next element is taken.
    pub fn set_step_function(&mut self, step_function: u64)
        ensures
            *final(self) == (MTLBufferLayoutDescriptor { step_function, ..*old(self) }),
    {
        self.step_function = step_function;
    }

    /// Sets how often the next element is taken.
    pub fn set_step_rate(&mut self, step_rate: u64)
        ensures
            *final(self) == (MTLBufferLayoutDescriptor { step_rate, ..*old(self) }),
    {
        self.step_rate = step_rate;
    }
}

/// Where one attribute of a vertex lies.
#[derive(Copy, Clone, Debug, PartialEq, Eq, Structural)]
pub struct MTLVertexAttributeDescriptor {
    /// The format of the attribute.
    pub format: u64,
    /// Where in its vertex the attribute lies.
    pub offset: u64,
    /// The buffer that holds the attribute.
    pub buffer_index: u64,
}

impl MTLVertexAttributeDescriptor {
    /// The descriptor as it is before anything is set.
    pub open spec fn initial() -> MTLVertexAttributeDescriptor {
        MTLVertexAttributeDescriptor {
            format: 0,
            offset: 0,
            buffer_index: 0,
        }
    }

    /// A descriptor with nothing set.
    pub fn new() -> (descriptor: MTLVertexAttributeDescriptor)
        ensures
            descriptor == MTLVertexAttributeDescriptor::initial(),
    {
        MTLVertexAttributeDescriptor {
            format: 0,
            offset: 0,
            buffer_index: 0,
        }
    }

    /// Sets the format of the attribute.
    pub fn set_format(&mut self, format: u64)
        ensures
            *final(self) == (MTLVertexAttributeDescriptor { format, ..*old(self) }),
    {
        self.format = format;
    }

    /// Sets where in its vertex the attribute lies.
    pub fn set_offset(&mut self, offset: u64)
        ensures
            *final(self) == (MTLVertexAttributeDescriptor { offset, ..*old(self) }),
    {
        self.offset = offset;
    }

    /// Sets the buffer that holds the attribute.
    pub fn set_buffer_index(&mut self, buffer_index: u64)
        ensures
            *final(self) == (MTLVertexAttributeDescriptor { buffer_index, ..*old(self) }),
    {
        self.buffer_index = buffer_index;
    }
}

/// How the vertices of one buffer lie.
#[derive(Copy, Clone, Debug, PartialEq, Eq, Structural)]
pub struct MTLVertexBufferLayoutDescriptor {
    /// When the next vertex is taken.
    pub step_function: u64,
    /// How often the next vertex is taken.
    pub step_rate: u64,
    /// The distance between two vertices in bytes.
    pub stride: u64,
}

impl MTLVertexBufferLayoutDescriptor {
    /// The descriptor as it is before anything is set.
    pub open spec fn initial() -> MTLVertexBufferLayoutDescriptor {
        MTLVertexBufferLayoutDescriptor {
            step_function: 1,
            step_rate: 1,
            stride: 0,
        }
    }

    /// A descriptor with nothing set.
    pub fn new() -> (descriptor: MTLVertexBufferLayoutDescriptor)
        ensures
            descriptor == MTLVertexBufferLayoutDescriptor::initial(),
    {
        MTLVertexBufferLayoutDescriptor {
            step_function: 1,
            step_rate: 1,
            stride: 0,
        }
    }

    /// Sets when the next vertex is taken.
    pub fn set_step_function(&mut self, step_function: u64)
        ensures
            *final(self) == (MTLVertexBufferLayoutDescriptor { step_function, ..*old(self) }),
    {
        self.step_function = step_function;
    }

    /// Sets how often the next vertex is taken.
    pub fn set_step_rate(&mut self, step_rate: u64)
        ensures
            *final(self) == (MTLVertexBufferLayoutDescriptor { step_rate, ..*old(self) }),
    {
        self.step_rate = step_rate;
    }

    /// Sets the distance between two vertices in bytes.
    pub fn set_stride(&mut self, stride: u64)
        ensures
            *final(self) == (MTLVertexBufferLayoutDescriptor { stride, ..*old(self) }),
    {
        self.stride = stride;
    }
}

/// What a pipeline may do with one of its buffers.
#[derive(Copy, Clone, Debug, PartialEq, Eq, Structural)]
pub struct MTLPipelineBufferDescriptor {
    /// Whether the buffer changes while the pipeline uses it.
    pub mutability: u64,
}

impl MTLPipelineBufferDescriptor {
    /// The descriptor as it is before anything is set.
    pub open spec fn initial() -> MTLPipelineBufferDescriptor {
        MTLPipelineBufferDescriptor {
            mutability: 0,
        }
    }

    /// A descriptor with nothing set.
    pub fn new() -> (descriptor: MTLPipelineBufferDescriptor)
        ensures
            descriptor == MTLPipelineBufferDescriptor::initial(),
    {
        MTLPipelineBufferDescriptor {
            mutability: 0,
        }
    }

    /// Sets whether the buffer changes while the pipeline uses it.
    pub fn set_mutability(&mut self, mutability: u64)
        ensures
            *final(self) == (MTLPipelineBufferDescriptor { mutability, ..*old(self) }),
    {
        self.mutability = mutability;
    }

    /// Whether the buffer changes while the pipeline uses it.
    pub fn get_mutability(&self) -> (mutability: u64)
        ensures
            mutability == self.mutability,
    {
        self.mutability
    }
}

/// How a render pipeline writes one colour attachment.
#[derive(Copy, Clone, Debug, PartialEq, Eq, Structural)]
pub struct MTLRenderPipelineColorAttachmentDescriptor {
    /// The format of a texel of the attachment.
    pub pixel_format: u64,
    /// The channels written.
    pub write_mask: u64,
    /// Whether what is written is blended with what is there.
    pub blending_enabled: bool,
    /// How alpha is blended.
    pub alpha_blend_operation: u64,
    /// How colour is blended.
    pub rgb_blend_operation: u64,
    /// The weight of the alpha that is there.
    pub destination_alpha_blend_factor: u64,
    /// The weight of the colour that is there.
    pub destination_rgb_blend_factor: u64,
    /// The weight of the alpha written.
    pub source_alpha_blend_factor: u64,
    /// The weight of the colour written.
    pub source_rgb_blend_factor: u64,
}

impl MTLRenderPipelineColorAttachmentDescriptor {
    /// The descriptor as it is before anything is set.
    pub open spec fn initial() -> MTLRenderPipelineColorAttachmentDescriptor {
        MTLRenderPipelineColorAttachmentDescriptor {
            pixel_format: 0,
            write_mask: 15,
            blending_enabled: false,
            alpha_blend_operation: 0,
            rgb_blend_operation: 0,
            destination_alpha_blend_factor: 0,
            destination_rgb_blend_factor: 0,
            source_alpha_blend_factor: 1,
            source_rgb_blend_factor: 1,
        }
    }

    /// A descriptor with nothing set.
    pub fn new() -> (descriptor: MTLRenderPipelineColorAttachmentDescriptor)
        ensures
            descriptor == MTLRenderPipelineColorAttachmentDescriptor::initial(),
    {
        MTLRenderPipelineColorAttachmentDescriptor {
            pixel_format: 0,
            write_mask: 15,
            blending_enabled: false,
            alpha_blend_operation: 0,
            rgb_blend_operation: 0,
            destination_alpha_blend_factor: 0,
            destination_rgb_blend_factor: 0,
            source_alpha_blend_factor: 1,
            source_rgb_blend_factor: 1,
        }
    }

    /// Sets the format of a texel of the attachment.
    pub fn set_pixel_format(&mut self, pixel_format: u64)
        ensures
            *final(self) == (MTLRenderPipelineColorAttachmentDescriptor {
                pixel_format,
                ..*old(self)
            }),
    {
        self.pixel_format = pixel_format;
    }

    /// Sets the channels written.
    pub fn set_write_mask(&mut self, write_mask: u64)
        ensures
            *final(self) == (MTLRenderPipelineColorAttachmentDescriptor {
                write_mask,
                ..*old(self)
            }),
    {
        self.write_mask = write_mask;
    }

    /// Sets whether what is written is blended with what is there.
    pub fn set_blending_enabled(&mut self, blending_enabled: bool)
        ensures
            *final(self) == (MTLRenderPipelineColorAttachmentDescriptor {
                blending_enabled,
                ..*old(self)
            }),
    {
        self.blending_enabled = blending_enabled;
    }

    /// Sets how alpha is blended.
    pub fn set_alpha_blend_operation(&mut self, alpha_blend_operation: u64)
        ensures
            *final(self) == (MTLRenderPipelineColorAttachmentDescriptor {
                alpha_blend_operation,
                ..*old(self)
            }),
    {
        self.alpha_blend_operation = alpha_blend_operation;
    }

    /// Sets how colour is blended.
    pub fn set_rgb_blend_operation(&mut self, rgb_blend_operation: u64)
        ensures
            *final(self) == (MTLRenderPipelineColorAttachmentDescriptor {
                rgb_blend_operation,
                ..*old(self)
            }),
    {
        self.rgb_blend_operation = rgb_blend_operation;
    }

    /// Sets the weight of the alpha that is there.
    pub fn set_destination_alpha_blend_factor(&mut self, destination_alpha_blend_factor: u64)
        ensures
            *final(self) == (MTLRenderPipelineColorAttachmentDescriptor {
                destination_alpha_blend_factor,
                ..*old(self)
            }),
    {
        self.destination_alpha_blend_factor = destination_alpha_blend_factor;
    }

    /// Sets the weight of the colour that is there.
    pub fn set_destination_rgb_blend_factor(&mut self, destination_rgb_blend_factor: u64)
        ensures
            *final(self) == (MTLRenderPipelineColorAttachmentDescriptor {
                destination_rgb_blend_factor,
                ..*old(self)
            }),
    {
        self.destination_rgb_blend_factor = destination_rgb_blend_factor;
    }

    /// Sets the weight of the alpha written.
    pub fn set_source_alpha_blend_factor(&mut self, source_alpha_blend_factor: u64)
        ensures
            *final(self) == (MTLRenderPipelineColorAttachmentDescriptor {
                source_alpha_blend_factor,
                ..*old(self)
            }),
    {
        self.source_alpha_blend_factor = source_alpha_blend_factor;
    }

    /// Sets the weight of the colour written.
    pub fn set_source_rgb_blend_factor(&mut self, source_rgb_blend_factor: u64)
        ensures
            *final(self) == (MTLRenderPipelineColorAttachmentDescriptor {
                source_rgb_blend_factor,
                ..*old(self)
            }),
    {
        self.source_rgb_blend_factor = source_rgb_blend_factor;
    }
}

/// What a render pass draws to, and what it does with it.
#[derive(Copy, Clone, Debug, PartialEq, Eq, Structural)]
pub struct Attachment {
    /// The texture drawn to; 0 for none.
    pub texture: u64,
    /// The mipmap level drawn to.
    pub level: u64,
    /// The slice drawn to.
    pub slice: u64,
    /// The depth plane drawn to.
    pub depth_plane: u64,
    /// What is done with the attachment when the pass begins.
    pub load_action: u64,
    /// What is done with the attachment when the pass ends.
    pub store_action: u64,
    /// The options of the store action.
    pub store_action_options: u64,
}

impl Attachment {
    /// The descriptor as it is before anything is set.
    pub open spec fn initial() -> Attachment {
        Attachment {
            texture: 0,
            level: 0,
            slice: 0,
            depth_plane: 0,
            load_action: 0,
            store_action: 0,
            store_action_options: 0,
        }
    }

    /// A descriptor with nothing set.
    pub fn new() -> (descriptor: Attachment)
        ensures
            descriptor == Attachment::initial(),
    {
        Attachment {
            texture: 0,
            level: 0,
            slice: 0,
            depth_plane: 0,
            load_action: 0,
            store_action: 0,
            store_action_options: 0,
        }
    }
}

/// One colour attachment of a render pass.
#[derive(Copy, Clone, Debug, PartialEq, Eq, Structural)]
pub struct MTLRenderPassColorAttachmentDescriptor(pub Attachment);

impl MTLRenderPassColorAttachmentDescriptor {
    /// The attachment as it is before anything is set: what was there is not kept in mind
    /// when the pass begins, and what was drawn is stored when it ends.
    pub open spec fn initial() -> MTLRenderPassColorAttachmentDescriptor {
        MTLRenderPassColorAttachmentDescriptor(
            Attachment { load_action: 0, store_action: 1, ..Attachment::initial() },
        )
    }

    /// An attachment with nothing set.
    pub fn new() -> (descriptor: MTLRenderPassColorAttachmentDescriptor)
        ensures
            descriptor == MTLRenderPassColorAttachmentDescriptor::initial(),
    {
        let mut attachment = Attachment::new();
        attachment.load_action = 0;
        attachment.store_action = 1;
        MTLRenderPassColorAttachmentDescriptor(attachment)
    }
}

/// The depth attachment of a render pass.
#[derive(Copy, Clone, Debug, PartialEq, Eq, Structural)]
pub struct MTLRenderPassDepthAttachmentDescriptor(pub Attachment);

impl MTLRenderPassDepthAttachmentDescriptor {
    /// The attachment as it is before anything is set: it is cleared when the pass begins,
    /// and what was drawn is not kept when it ends.
    pub open spec fn initial() -> MTLRenderPassDepthAttachmentDescriptor {
        MTLRenderPassDepthAttachmentDescriptor(
            Attachment { load_action: 2, store_action: 0, ..Attachment::initial() },
        )
    }

    /// An attachment with nothing set.
    pub fn new() -> (descriptor: MTLRenderPassDepthAttachmentDescriptor)
        ensures
            descriptor == MTLRenderPassDepthAttachmentDescriptor::initial(),
    {
        let mut attachment = Attachment::new();
        attachment.load_action = 2;
        attachment.store_action = 0;
        MTLRenderPassDepthAttachmentDescriptor(attachment)
    }
}

/// The attributes of a stage input, by their places.
#[derive(Debug)]
pub struct MTLAttributeDescriptorArray(pub Slots<MTLAttributeDescriptor>);

impl MTLAttributeDescriptorArray {
    /// An array in which every slot holds `fallback`.
    pub fn filled(fallback: MTLAttributeDescriptor) -> (array: MTLAttributeDescriptorArray)
        ensures
            array.0.fallback == fallback,
            array.0.entries@.len() == 0,
    {
        MTLAttributeDescriptorArray(Slots::filled(fallback))
    }

    /// What slot `index` holds: the descriptor put there last, or the one that every slot
    /// held at first.
    pub fn object_at_indexed_subscript(&self, index: u64) -> (descriptor: MTLAttributeDescriptor)
        ensures
            descriptor == self.0.at(index),
    {
        self.0.get(index)
    }

    /// Puts `descriptor` in slot `index`.
    pub fn set_object_at_indexed_subscript(
        &mut self,
        index: u64,
        descriptor: MTLAttributeDescriptor,
    )
        ensures
            final(self).0.fallback == old(self).0.fallback,
            final(self).0.entries@ == old(self).0.entries@.push((index, descriptor)),
            forall|other: u64|
                final(self).0.at(other) == if other == index {
                    descriptor
                } else {
                    old(self).0.at(other)
                },
    {
        self.0.set(index, descriptor);
    }
}

/// The buffer layouts of a stage input, by their buffers.
#[derive(Debug)]
pub struct MTLBufferLayoutDescriptorArray(pub Slots<MTLBufferLayoutDescriptor>);

impl MTLBufferLayoutDescriptorArray {
    /// An array in which every slot holds `fallback`.
    pub fn filled(fallback: MTLBufferLayoutDescriptor) -> (array: MTLBufferLayoutDescriptorArray)
        ensures
            array.0.fallback == fallback,
            array.0.entries@.len() == 0,
    {
        MTLBufferLayoutDescriptorArray(Slots::filled(fallback))
    }

    /// What slot `index` holds: the descriptor put there last, or the one that every slot
    /// held at first.
    pub fn object_at_indexed_subscript(&self, index: u64) -> (descriptor: MTLBufferLayoutDescriptor)
        ensures
            descriptor == self.0.at(index),
    {
        self.0.get(index)
    }

    /// Puts `descriptor` in slot `index`.
    pub fn set_object_at_indexed_subscript(
        &mut self,
        index: u64,
        descriptor: MTLBufferLayoutDescriptor,
    )
        ensures
            final(self).0.fallback == old(self).0.fallback,
            final(self).0.entries@ == old(self).0.entries@.push((index, descriptor)),
            forall|other: u64|
                final(self).0.at(other) == if other == index {
                    descriptor
                } else {
                    old(self).0.at(other)
                },
    {
        self.0.set(index, descriptor);
    }
}

/// The attributes of a vertex, by their places.
#[derive(Debug)]
pub struct MTLVertexAttributeDescriptorArray(pub Slots<MTLVertexAttributeDescriptor>);

impl MTLVertexAttributeDescriptorArray {
    /// An array in which every slot holds `fallback`.
    pub fn filled(
        fallback: MTLVertexAttributeDescriptor,
    ) -> (array: MTLVertexAttributeDescriptorArray)
        ensures
            array.0.fallback == fallback,
            array.0.entries@.len() == 0,
    {
        MTLVertexAttributeDescriptorArray(Slots::filled(fallback))
    }

    /// What slot `index` holds: the descriptor put there last, or the one that every slot
    /// held at first.
    pub fn object_at_indexed_subscript(
        &self,
        index: u64,
    ) -> (descriptor: MTLVertexAttributeDescriptor)
        ensures
            descriptor == self.0.at(index),
    {
        self.0.get(index)
    }

    /// Puts `descriptor` in slot `index`.
    pub fn set_object_at_indexed_subscript(
        &mut self,
        index: u64,
        descriptor: MTLVertexAttributeDescriptor,
    )
        ensures
            final(self).0.fallback == old(self).0.fallback,
            final(self).0.entries@ == old(self).0.entries@.push((index, descriptor)),
            forall|other: u64|
                final(self).0.at(other) == if other == index {
                    descriptor
                } else {
                    old(self).0.at(other)
                },
    {
        self.0.set(index, descriptor);
    }
}

/// The layouts of the vertex buffers, by their buffers.
#[derive(Debug)]
pub struct MTLVertexBufferLayoutDescriptorArray(pub Slots<MTLVertexBufferLayoutDescriptor>);

impl MTLVertexBufferLayoutDescriptorArray {
    /// An array in which every slot holds `fallback`.
    pub fn filled(
        fallback: MTLVertexBufferLayoutDescriptor,
    ) -> (array: MTLVertexBufferLayoutDescriptorArray)
        ensures
            array.0.fallback == fallback,
            array.0.entries@.len() == 0,
    {
        MTLVertexBufferLayoutDescriptorArray(Slots::filled(fallback))
    }

    /// What slot `index` holds: the descriptor put there last, or the one that every slot
    /// held at first.
    pub fn object_at_indexed_subscript(
        &self,
        index: u64,
    ) -> (descriptor: MTLVertexBufferLayoutDescriptor)
        ensures
            descriptor == self.0.at(index),
    {
        self.0.get(index)
    }

    /// Puts `descriptor` in slot `index`.
    pub fn set_object_at_indexed_subscript(
        &mut self,
        index: u64,
        descriptor: MTLVertexBufferLayoutDescriptor,
    )
        ensures
            final(self).0.fallback == old(self).0.fallback,
            final(self).0.entries@ == old(self).0.entries@.push((index, descriptor)),
            forall|other: u64|
                final(self).0.at(other) == if other == index {
                    descriptor
                } else {
                    old(self).0.at(other)
                },
    {
        self.0.set(index, descriptor);
    }
}

/// What a pipeline may do with its buffers, by their places.
#[derive(Debug)]
pub struct MTLPipelineBufferDescriptorArray(pub Slots<MTLPipelineBufferDescriptor>);

impl MTLPipelineBufferDescriptorArray {
    /// An array in which every slot holds `fallback`.
    pub fn filled(
        fallback: MTLPipelineBufferDescriptor,
    ) -> (array: MTLPipelineBufferDescriptorArray)
        ensures
            array.0.fallback == fallback,
            array.0.entries@.len() == 0,
    {
        MTLPipelineBufferDescriptorArray(Slots::filled(fallback))
    }

    /// What slot `index` holds: the descriptor put there last, or the one that every slot
    /// held at first.
    pub fn object_at_indexed_subscript(
        &self,
        index: u64,
    ) -> (descriptor: MTLPipelineBufferDescriptor)
        ensures
            descriptor == self.0.at(index),
    {
        self.0.get(index)
    }

    /// Puts `descriptor` in slot `index`.
    pub fn set_object_at_indexed_subscript(
        &mut self,
        index: u64,
        descriptor: MTLPipelineBufferDescriptor,
    )
        ensures
            final(self).0.fallback == old(self).0.fallback,
            final(self).0.entries@ == old(self).0.entries@.push((index, descriptor)),
            forall|other: u64|
                final(self).0.at(other) == if other == index {
                    descriptor
                } else {
                    old(self).0.at(other)
                },
    {
        self.0.set(index, descriptor);
    }
}

/// How a render pipeline writes its colour attachments, by their places.
#[derive(Debug)]
pub struct MTLRenderPipelineColorAttachmentDescriptorArray(
    pub Slots<MTLRenderPipelineColorAttachmentDescriptor>,
);

impl MTLRenderPipelineColorAttachmentDescriptorArray {
    /// An array in which every slot holds `fallback`.
    pub fn filled(
        fallback: MTLRenderPipelineColorAttachmentDescriptor,
    ) -> (array: MTLRenderPipelineColorAttachmentDescriptorArray)
        ensures
            array.0.fallback == fallback,
            array.0.entries@.len() == 0,
    {
        MTLRenderPipelineColorAttachmentDescriptorArray(Slots::filled(fallback))
    }

    /// What slot `index` holds: the descriptor put there last, or the one that every slot
    /// held at first.
    pub fn object_at_indexed_subscript(
        &self,
        index: u64,
    ) -> (descriptor: MTLRenderPipelineColorAttachmentDescriptor)
        ensures
            descriptor == self.0.at(index),
    {
        self.0.get(index)
    }

    /// Puts `descriptor` in slot `index`.
    pub fn set_object_at_indexed_subscript(
        &mut self,
        index: u64,
        descriptor: MTLRenderPipelineColorAttachmentDescriptor,
    )
        ensures
            final(self).0.fallback == old(self).0.fallback,
            final(self).0.entries@ == old(self).0.entries@.push((index, descriptor)),
            forall|other: u64|
                final(self).0.at(other) == if other == index {
                    descriptor
                } else {
                    old(self).0.at(other)
                },
    {
        self.0.set(index, descriptor);
    }
}

/// The colour attachments of a render pass, by their places.
#[derive(Debug)]
pub struct MTLRenderPassColorAttachmentDescriptorArray(
    pub Slots<MTLRenderPassColorAttachmentDescriptor>,
);

impl MTLRenderPassColorAttachmentDescriptorArray {
    /// An array in which every slot holds `fallback`.
    pub fn filled(
        fallback: MTLRenderPassColorAttachmentDescriptor,
    ) -> (array: MTLRenderPassColorAttachmentDescriptorArray)
        ensures
            array.0.fallback == fallback,
            array.0.entries@.len() == 0,
    {
        MTLRenderPassColorAttachmentDescriptorArray(Slots::filled(fallback))
    }

    /// What slot `index` holds: the descriptor put there last, or the one that every slot
    /// held at first.
    pub fn object_at_indexed_subscript(
        &self,
        index: u64,
    ) -> (descriptor: MTLRenderPassColorAttachmentDescriptor)
        ensures
            descriptor == self.0.at(index),
    {
        self.0.get(index)
    }

    /// Puts `descriptor` in slot `index`.
    pub fn set_object_at_indexed_subscript(
        &mut self,
        index: u64,
        descriptor: MTLRenderPassColorAttachmentDescriptor,
    )
        ensures
            final(self).0.fallback == old(self).0.fallback,
            final(self).0.entries@ == old(self).0.entries@.push((index, descriptor)),
            forall|other: u64|
                final(self).0.at(other) == if other == index {
                    descriptor
                } else {
                    old(self).0.at(other)
                },
    {
        self.0.set(index, descriptor);
    }
}

/// What a device is like: what the system knows of its hardware.
#[derive(Copy, Clone, Debug, PartialEq, Eq, Structural)]
pub struct DeviceInfo {
    /// Whether the device drives no display.
    pub headless: bool,
    /// Whether the device spares power.
    pub low_power: bool,
    /// Whether the device can be taken out while the system runs.
    pub removable: bool,
    /// The number by which the system knows the device.
    pub registry_id: u64,
    /// Where the device sits.
    pub location: u64,
    /// The place in the machine at which the device sits.
    pub location_number: u64,
    /// The most bytes a second that pass between the device and memory.
    pub max_transfer_rate: u64,
    /// Whether the device shares its memory with the processor.
    pub unified_memory: bool,
    /// The group of devices that the device shares memory with.
    pub peer_group_id: u64,
    /// How many devices are in that group.
    pub peer_count: u32,
    /// The place of the device in that group.
    pub peer_index: u32,
    /// The most bytes that should be in use at a time.
    pub recommended_max_working_set_size: u64,
    /// The bytes that the device has given out.
    pub current_allocated_size: u64,
    /// The most bytes of threadgroup memory.
    pub max_threadgroup_memory_length: u64,
    /// Whether sample positions can be set.
    pub programmable_sample_positions_supported: bool,
    /// Whether the packed depth and stencil format can be used.
    pub depth24_stencil8_pixel_format_supported: bool,
    /// Whether fragment functions can read barycentric coordinates.
    pub barycentric_coords_supported: bool,
    /// The most bytes a buffer can have.
    pub max_buffer_length: u64,
    /// The tier of support for textures that are read and written.
    pub read_write_texture_support: u64,
    /// The tier of support for argument buffers.
    pub argument_buffers_support: u64,
    /// The most samplers an argument buffer can name.
    pub max_argument_buffer_sampler_count: u64,
    /// How often a vertex can be amplified at most.
    pub max_vertex_amplification_count: u64,
    /// The alignment that a linear texture needs in its buffer.
    pub linear_texture_alignment: u64,
    /// The alignment that a texture buffer needs in its buffer.
    pub texture_buffer_alignment: u64,
    /// The numbers of samples in each texel that the device makes textures with: bit `n`
    /// is set where it does with `n`.
    pub texture_sample_counts: u64,
    /// The most threads a threadgroup can have in each dimension.
    pub max_threads_per_threadgroup: MTLSize,
}

impl DeviceInfo {
    /// A device of which nothing is known.
    pub open spec fn initial() -> DeviceInfo {
        DeviceInfo {
            headless: false,
            low_power: false,
            removable: false,
            registry_id: 0,
            location: 0,
            location_number: 0,
            max_transfer_rate: 0,
            unified_memory: false,
            peer_group_id: 0,
            peer_count: 0,
            peer_index: 0,
            recommended_max_working_set_size: 0,
            current_allocated_size: 0,
            max_threadgroup_memory_length: 0,
            programmable_sample_positions_supported: false,
            depth24_stencil8_pixel_format_supported: false,
            barycentric_coords_supported: false,
            max_buffer_length: 0,
            read_write_texture_support: 0,
            argument_buffers_support: 0,
            max_argument_buffer_sampler_count: 0,
            max_vertex_amplification_count: 1,
            linear_texture_alignment: 1,
            texture_buffer_alignment: 1,
            texture_sample_counts: 18,
            max_threads_per_threadgroup: MTLSize { w: 1, h: 1, d: 1 },
        }
    }

    /// A device of which nothing is known.
    pub fn new() -> (info: DeviceInfo)
        ensures
            info == DeviceInfo::initial(),
    {
        DeviceInfo {
            headless: false,
            low_power: false,
            removable: false,
            registry_id: 0,
            location: 0,
            location_number: 0,
            max_transfer_rate: 0,
            unified_memory: false,
            peer_group_id: 0,
            peer_count: 0,
            peer_index: 0,
            recommended_max_working_set_size: 0,
            current_allocated_size: 0,
            max_threadgroup_memory_length: 0,
            programmable_sample_positions_supported: false,
            depth24_stencil8_pixel_format_supported: false,
            barycentric_coords_supported: false,
            max_buffer_length: 0,
            read_write_texture_support: 0,
            argument_buffers_support: 0,
            max_argument_buffer_sampler_count: 0,
            max_vertex_amplification_count: 1,
            linear_texture_alignment: 1,
            texture_buffer_alignment: 1,
            texture_sample_counts: 18,
            max_threads_per_threadgroup: MTLSize { w: 1, h: 1, d: 1 },
        }
    }
}

} // verus!
