//! A verified model of a binding layer for a graphics interface whose objects are
//! reference counted: the handles that hold the references, the rule that says who owns
//! what a native call hands out, the states that command buffers and their encoders pass
//! through, and the binding of resources to the slots of a shader stage.
//!
//! The [`driver::Driver`] stands where the native layer does. It keeps every object with
//! its reference count and follows what is done to it; every call says in its contract
//! what becomes of the driver's state, which [`model::DriverView`] describes.

pub mod argument;
pub mod buffer;
pub mod commandbuffer;
pub mod commandqueue;
pub mod compute;
pub mod depthstencil;
pub mod descriptor;
pub mod device;
pub mod driver;
pub mod encoder;
pub mod error;
pub mod event;
pub mod geometry;
pub mod handle;
pub mod heap;
pub mod indirect;
pub mod keyboard;
pub mod laws;
pub mod layer;
pub mod library;
pub mod mesh;
pub mod model;
pub mod nsstring;
pub mod ownership;
pub mod pipeline;
pub mod render;
pub mod resource;
pub mod sampler;
pub mod texture;
pub mod version;

pub use crate::argument::MTLArgumentEncoder;
pub use crate::buffer::MTLBuffer;
pub use crate::commandbuffer::MTLCommandBuffer;
pub use crate::commandqueue::MTLCommandQueue;
pub use crate::compute::MTLComputeCommandEncoder;
pub use crate::depthstencil::MTLDepthStencilState;
pub use crate::descriptor::MTLArgumentDescriptor;
pub use crate::descriptor::MTLAttributeDescriptor;
pub use crate::descriptor::MTLAttributeDescriptorArray;
pub use crate::descriptor::MTLBufferLayoutDescriptor;
pub use crate::descriptor::MTLBufferLayoutDescriptorArray;
pub use crate::descriptor::MTLDepthStencilDescriptor;
pub use crate::descriptor::MTLHeapDescriptor;
pub use crate::descriptor::MTLIndirectCommandBufferDescriptor;
pub use crate::descriptor::MTLPipelineBufferDescriptor;
pub use crate::descriptor::MTLPipelineBufferDescriptorArray;
pub use crate::descriptor::MTLRenderPassColorAttachmentDescriptor;
pub use crate::descriptor::MTLRenderPassColorAttachmentDescriptorArray;
pub use crate::descriptor::MTLRenderPassDepthAttachmentDescriptor;
pub use crate::descriptor::MTLRenderPipelineColorAttachmentDescriptor;
pub use crate::descriptor::MTLRenderPipelineColorAttachmentDescriptorArray;
pub use crate::descriptor::MTLSamplerDescriptor;
pub use crate::descriptor::MTLTextureDescriptor;
pub use crate::descriptor::MTLVertexAttributeDescriptor;
pub use crate::descriptor::MTLVertexAttributeDescriptorArray;
pub use crate::descriptor::MTLVertexBufferLayoutDescriptor;
pub use crate::descriptor::MTLVertexBufferLayoutDescriptorArray;
pub use crate::device::MTLDevice;
pub use crate::driver::Driver;
pub use crate::encoder::MTLCommandEncoder;
pub use crate::error::MetalError;
pub use crate::event::MTLEvent;
pub use crate::event::MTLFence;
pub use crate::event::MTLSharedEvent;
pub use crate::event::MTLSharedEventHandle;
pub use crate::handle::release;
pub use crate::handle::retain;
pub use crate::handle::Handle;
pub use crate::heap::MTLHeap;
pub use crate::indirect::MTLIndirectCommandBuffer;
pub use crate::keyboard::Keyboard;
pub use crate::layer::CAMetalDrawable;
pub use crate::layer::CAMetalLayer;
pub use crate::library::MTLCompileOptions;
pub use crate::library::MTLFunction;
pub use crate::library::MTLFunctionConstantValues;
pub use crate::library::MTLLibrary;
pub use crate::pipeline::MTLComputePipelineDescriptor;
pub use crate::pipeline::MTLComputePipelineState;
pub use crate::pipeline::MTLRenderPipelineDescriptor;
pub use crate::pipeline::MTLRenderPipelineState;
pub use crate::pipeline::MTLStageInputOutputDescriptor;
pub use crate::pipeline::MTLVertexDescriptor;
pub use crate::render::MTLRenderCommandEncoder;
pub use crate::render::MTLRenderPassAttachmentDescriptor;
pub use crate::render::MTLRenderPassDescriptor;
pub use crate::resource::MTLResource;
pub use crate::sampler::MTLSamplerState;
pub use crate::texture::MTLSharedTextureHandle;
pub use crate::texture::MTLTexture;
pub use crate::version::Os;
pub use crate::version::Version;
