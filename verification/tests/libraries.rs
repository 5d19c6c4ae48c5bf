use cull_canyon::descriptor::PipelineFacts;
use cull_canyon::device::MTLDevice;
use cull_canyon::driver::Driver;
use cull_canyon::error::MetalError;
use cull_canyon::library::Constant;
use cull_canyon::library::ConstantTarget;
use cull_canyon::library::MTLCompileOptions;
use cull_canyon::library::MTLFunction;
use cull_canyon::library::MTLFunctionConstantValues;
use cull_canyon::library::MTLLibrary;
use cull_canyon::pipeline::MTLComputePipelineDescriptor;
use cull_canyon::pipeline::MTLRenderPipelineDescriptor;
use cull_canyon::pipeline::MTLStageInputOutputDescriptor;
use cull_canyon::pipeline::MTLVertexDescriptor;

fn setup() -> (Driver, MTLDevice, MTLLibrary) {
    let mut driver = Driver::new();
    driver.attach_device().unwrap();
    let device = MTLDevice::create_system_default_device(&mut driver).unwrap();
    let library = device
        .new_library_with_source(
            &mut driver,
            "kernel void add() {} vertex float4 place() {}",
            MTLCompileOptions::new(),
            Ok(vec![String::from("add"), String::from("place")]),
        )
        .unwrap();
    (driver, device, library)
}

#[test]
fn what_the_compiler_says_is_handed_on() {
    let mut driver = Driver::new();
    driver.attach_device().unwrap();
    let device = MTLDevice::create_system_default_device(&mut driver).unwrap();
    let count = driver.object_count();
    assert_eq!(
        device.new_library_with_source(
            &mut driver,
            "kernel void",
            MTLCompileOptions::new(),
            Err(String::from("program_source:1:12: error: expected identifier")),
        ),
        Err(MetalError::Diagnostic(String::from(
            "program_source:1:12: error: expected identifier"
        )))
    );
    assert_eq!(
        device.new_library_with_data(&mut driver, &[1, 2, 3], Err(String::from("Invalid library file"))),
        Err(MetalError::Diagnostic(String::from("Invalid library file")))
    );
    assert_eq!(
        device.new_library_with_file(&mut driver, "missing.metallib", Err(String::from("not found"))),
        Err(MetalError::Diagnostic(String::from("not found")))
    );
    assert_eq!(driver.object_count(), count);
    let library = device
        .new_library_with_data(&mut driver, &[1, 2, 3], Ok(vec![String::from("main0")]))
        .unwrap();
    assert_eq!(library.get_function_names(&driver), Ok(vec![String::from("main0")]));
    let filed = device
        .new_library_with_file(&mut driver, "default.metallib", Ok(vec![]))
        .unwrap();
    assert_eq!(filed.get_function_names(&driver), Ok(vec![]));
}

#[test]
fn a_function_is_found_by_its_name() {
    let (mut driver, _device, library) = setup();
    assert_eq!(
        library.get_function_names(&driver),
        Ok(vec![String::from("add"), String::from("place")])
    );
    let function = library.new_function_with_name(&mut driver, "add").unwrap();
    assert_eq!(function.get_name(&driver), Ok(String::from("add")));
    assert_eq!(driver.retain_count(function.0 .0), 1);
    assert_eq!(
        library.new_function_with_name(&mut driver, "subtract"),
        Err(MetalError::Diagnostic(String::from(
            "This function subtract does not exist."
        )))
    );
    assert_eq!(
        library.new_function_with_name(&mut driver, ""),
        Err(MetalError::Diagnostic(String::from("This function  does not exist.")))
    );
}

#[test]
fn constants_do_not_find_what_is_not_there() {
    let (mut driver, _device, library) = setup();
    let mut values = MTLFunctionConstantValues::new();
    values.set_constant_value_at_index(&[1, 0, 0, 0], 29, 0);
    values.set_constant_value_with_name(&[1], 53, "fast");
    values.set_constant_value_with_range(&[0; 8], 29, (2, 4));
    assert_eq!(
        values.constants,
        vec![
            Constant { target: ConstantTarget::Index(0), data_type: 29, length: 4 },
            Constant {
                target: ConstantTarget::Name(String::from("fast")),
                data_type: 53,
                length: 1
            },
            Constant {
                target: ConstantTarget::Range { location: 2, length: 2 },
                data_type: 29,
                length: 8
            },
        ]
    );
    let function = library
        .new_function_with_name_and_constants(&mut driver, "place", &values, None)
        .unwrap();
    assert_eq!(function.get_name(&driver), Ok(String::from("place")));
    assert_eq!(
        library.new_function_with_name_and_constants(&mut driver, "nowhere", &values, None),
        Ok(MTLFunction(cull_canyon::handle::Handle(0)))
    );
    assert_eq!(
        library.new_function_with_name_and_constants(
            &mut driver,
            "place",
            &values,
            Some(String::from("constant fast has the wrong type"))
        ),
        Err(MetalError::Diagnostic(String::from(
            "constant fast has the wrong type"
        )))
    );
    values.reset();
    assert_eq!(values.constants, vec![]);
}

#[test]
fn a_compute_pipeline_takes_its_function() {
    let (mut driver, device, library) = setup();
    let function = library.new_function_with_name(&mut driver, "add").unwrap();
    let raw = function.0 .0;
    let mut facts = PipelineFacts::new();
    facts.max_total_threads_per_threadgroup = 1024;
    facts.thread_execution_width = 32;
    let state = device
        .new_compute_pipeline_state_with_function(&mut driver, function, Ok(facts))
        .unwrap();
    assert_eq!(driver.retain_count(state.0 .0), 1);
    assert_eq!(state.max_total_threads_per_threadgroup(&driver), Ok(1024));
    assert_eq!(driver.pipeline_functions(state.0 .0), (raw, 0));
    assert_eq!(state.thread_execute_width(&driver), Ok(32));
    assert_eq!(state.static_threadgroup_memory_length(&driver), Ok(0));
    assert_eq!(state.support_indirect_command_buffers(&driver), Ok(false));
    assert!(!driver.is_live(raw));
    let function = library.new_function_with_name(&mut driver, "add").unwrap();
    let raw = function.0 .0;
    assert_eq!(
        device.new_compute_pipeline_state_with_function(
            &mut driver,
            function,
            Err(String::from("threadgroup memory exceeds the limit"))
        ),
        Err(MetalError::Diagnostic(String::from(
            "threadgroup memory exceeds the limit"
        )))
    );
    assert!(!driver.is_live(raw));
    assert_eq!(
        device.new_compute_pipeline_state_with_function(
            &mut driver,
            MTLFunction(cull_canyon::handle::Handle(raw)),
            Ok(facts)
        ),
        Err(MetalError::Dangling)
    );
}

#[test]
fn pipelines_are_made_from_descriptors() {
    let (mut driver, device, library) = setup();
    let kernel = library.new_function_with_name(&mut driver, "add").unwrap();
    let mut compute = MTLComputePipelineDescriptor::new();
    assert_eq!(
        device.new_compute_pipeline_state_with_descriptor(
            &mut driver,
            &compute,
            Ok(PipelineFacts::new())
        ),
        Err(MetalError::NullHandle)
    );
    compute.set_compute_function(&kernel);
    compute.set_max_total_threads_per_threadgroup(256);
    compute.set_threadgroup_size_is_multiple_of_thread_execution_width(1);
    assert_eq!(compute.get_max_total_threads_per_threadgroup(), 256);
    assert_eq!(
        compute.is_threadgroup_size_is_multiple_of_thread_execution_width(),
        1
    );
    let mut input = MTLStageInputOutputDescriptor::new();
    input.set_index_type(1);
    input.set_index_buffer_index(2);
    let mut attribute = input.get_attributes().object_at_indexed_subscript(0);
    attribute.set_format(28);
    attribute.set_offset(4);
    attribute.set_buffer_index(1);
    input.get_attributes().set_object_at_indexed_subscript(0, attribute);
    let mut layout = input.get_layouts().object_at_indexed_subscript(1);
    layout.set_stride(16);
    input.get_layouts().set_object_at_indexed_subscript(1, layout);
    compute.set_stage_input_descriptor(input);
    assert_eq!(
        compute
            .get_stage_input_descriptor()
            .get_attributes()
            .object_at_indexed_subscript(0),
        attribute
    );
    assert_eq!(
        compute
            .get_stage_input_descriptor()
            .get_layouts()
            .object_at_indexed_subscript(1)
            .stride,
        16
    );
    let mut buffer = compute.get_buffers().object_at_indexed_subscript(3);
    buffer.set_mutability(2);
    compute.get_buffers().set_object_at_indexed_subscript(3, buffer);
    assert_eq!(
        compute.get_buffers().object_at_indexed_subscript(3).get_mutability(),
        2
    );
    assert_eq!(
        compute.get_buffers().object_at_indexed_subscript(4).get_mutability(),
        0
    );
    let held = compute.get_compute_function(&mut driver).unwrap();
    assert_eq!(held.0 .0, kernel.0 .0);
    assert_eq!(driver.retain_count(kernel.0 .0), 2);
    let state = device
        .new_compute_pipeline_state_with_descriptor(&mut driver, &compute, Ok(PipelineFacts::new()))
        .unwrap();
    assert!(driver.is_live(state.0 .0));
    compute.get_stage_input_descriptor().reset();
    assert_eq!(compute.get_stage_input_descriptor().index_type, 0);

    let vertex = library.new_function_with_name(&mut driver, "place").unwrap();
    let mut render = MTLRenderPipelineDescriptor::new();
    render.set_vertex_function(&vertex);
    render.set_fragment_function(&kernel);
    render.set_depth_attachment_pixel_format(252);
    render.set_sample_count(4);
    render.set_rasterization_enabled(false);
    let mut color = render.get_color_attachments().object_at_indexed_subscript(0);
    color.set_pixel_format(80);
    color.set_blending_enabled(true);
    render.get_color_attachments().set_object_at_indexed_subscript(0, color);
    let mut layout = MTLVertexDescriptor::new();
    let mut position = layout.get_attributes().object_at_indexed_subscript(0);
    position.set_format(30);
    layout.get_attributes().set_object_at_indexed_subscript(0, position);
    render.set_vertex_descriptor(layout);
    assert_eq!(render.options.depth_attachment_pixel_format, 252);
    assert_eq!(render.options.sample_count, 4);
    assert!(!render.options.rasterization_enabled);
    assert_eq!(render.options.max_tessellation_factor, 16);
    assert_eq!(
        render.get_color_attachments().object_at_indexed_subscript(0).pixel_format,
        80
    );
    assert_eq!(render.vertex_descriptor.attributes.object_at_indexed_subscript(0).format, 30);
    assert_eq!(render.get_vertex_function(&mut driver).unwrap().0 .0, vertex.0 .0);
    assert_eq!(render.get_fragment_function(&mut driver).unwrap().0 .0, kernel.0 .0);
    let state = device
        .new_render_pipeline_state_with_descriptor(
            &mut driver,
            &render,
            Ok(PipelineFacts {
                imageblock_sample_length: 16,
                threadgroup_size_matches_tile_size: true,
                support_indirect_command_buffers: true,
                ..PipelineFacts::new()
            }),
        )
        .unwrap();
    assert!(driver.is_live(state.0 .0));
    assert_eq!(state.imageblock_sample_length(&driver), Ok(16));
    assert_eq!(driver.pipeline_functions(state.0 .0), (vertex.0 .0, kernel.0 .0));
    render.set_vertex_function(&kernel);
    assert_eq!(driver.pipeline_functions(state.0 .0), (vertex.0 .0, kernel.0 .0));
    assert_eq!(state.threadgroup_size_matches_tile_size(&driver), Ok(true));
    assert_eq!(state.support_indirect_command_buffers(&driver), Ok(true));
    assert_eq!(state.max_total_threads_per_threadgroup(&driver), Ok(0));
    assert_eq!(
        device.new_render_pipeline_state_with_descriptor(
            &mut driver,
            &render,
            Err(String::from("fragment function is no fragment function"))
        ),
        Err(MetalError::Diagnostic(String::from(
            "fragment function is no fragment function"
        )))
    );
}

#[test]
fn options_are_kept() {
    let mut options = MTLCompileOptions::new();
    assert!(options.is_fast_math_enabled());
    options.set_fast_math_enabled(false);
    options.set_language_version(131072);
    options.set_preprocessor_macros(9);
    assert!(!options.is_fast_math_enabled());
    assert_eq!(options.get_language_version(), 131072);
    assert_eq!(options.get_preprocessor_macros(), 9);
}
