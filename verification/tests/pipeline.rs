use render_harness::error::ErrorKind;
use render_harness::render::pipeline::{
    BlendMode, BuildError, CullMode, FrontFace, IndexFormat, Pipeline, PipelineState,
    PrimitiveTopology, ShaderModule, ShaderStage, SpirvError, SPIRV_MAGIC,
};
use render_harness::render::renderer::TextureFormat;

/// A module of three words, least significant byte first.
fn little_endian_module() -> Vec<u8> {
    vec![0x03, 0x02, 0x23, 0x07, 0x00, 0x00, 0x01, 0x00, 0x78, 0x56, 0x34, 0x12]
}

/// The same three words, most significant byte first.
fn big_endian_module() -> Vec<u8> {
    vec![0x07, 0x23, 0x02, 0x03, 0x00, 0x01, 0x00, 0x00, 0x12, 0x34, 0x56, 0x78]
}

fn words() -> Vec<u32> {
    vec![0x0723_0203, 0x0001_0000, 0x1234_5678]
}

#[test]
fn fixed_state_is_the_triangle_state() {
    assert_eq!(
        PipelineState::fixed(),
        PipelineState {
            front_face: FrontFace::Ccw,
            cull_mode: CullMode::Off,
            depth_bias: 0,
            topology: PrimitiveTopology::TriangleList,
            color_format: TextureFormat::Bgra8UnormSrgb,
            color_blend: BlendMode::Replace,
            alpha_blend: BlendMode::Replace,
            write_mask: 15,
            depth_stencil: false,
            index_format: IndexFormat::Uint16,
            vertex_buffers: 0,
            sample_count: 1,
            sample_mask: u32::MAX,
            alpha_to_coverage_enabled: false,
        }
    );
}

#[test]
fn stages_start_in_main() {
    assert_eq!(ShaderStage::Vertex.entry_point(), "main");
    assert_eq!(ShaderStage::Fragment.entry_point(), "main");
    assert_eq!(ShaderStage::Vertex.file_name(), "shader.vert");
    assert_eq!(ShaderStage::Fragment.file_name(), "shader.frag");
}

#[test]
fn magic_number_is_that_of_spirv() {
    assert_eq!(SPIRV_MAGIC, 119_734_787);
}

#[test]
fn module_reads_little_endian_words() {
    let module = ShaderModule::from_spirv(ShaderStage::Vertex, &little_endian_module());
    assert_eq!(
        module,
        Ok(ShaderModule {
            stage: ShaderStage::Vertex,
            entry_point: String::from("main"),
            words: words(),
        })
    );
}

#[test]
fn module_reads_big_endian_words() {
    let module = ShaderModule::from_spirv(ShaderStage::Fragment, &big_endian_module());
    assert_eq!(
        module,
        Ok(ShaderModule {
            stage: ShaderStage::Fragment,
            entry_point: String::from("main"),
            words: words(),
        })
    );
}

#[test]
fn module_of_the_magic_number_alone() {
    let module = ShaderModule::from_spirv(ShaderStage::Vertex, &[0x03, 0x02, 0x23, 0x07]);
    assert_eq!(
        module,
        Ok(ShaderModule {
            stage: ShaderStage::Vertex,
            entry_point: String::from("main"),
            words: vec![0x0723_0203],
        })
    );
}

#[test]
fn module_needs_whole_words() {
    let mut bytes = little_endian_module();
    bytes.push(0);
    assert_eq!(
        ShaderModule::from_spirv(ShaderStage::Vertex, &bytes),
        Err(SpirvError::LengthNotWordMultiple)
    );
    assert_eq!(
        ShaderModule::from_spirv(ShaderStage::Vertex, &[0x03, 0x02, 0x23]),
        Err(SpirvError::LengthNotWordMultiple)
    );
}

#[test]
fn module_needs_the_magic_number() {
    assert_eq!(
        ShaderModule::from_spirv(ShaderStage::Vertex, &[0x03, 0x02, 0x23, 0x08, 0, 0, 0, 0]),
        Err(SpirvError::MissingMagicNumber)
    );
    assert_eq!(
        ShaderModule::from_spirv(ShaderStage::Vertex, &[0, 0, 0, 0, 0x03, 0x02, 0x23, 0x07]),
        Err(SpirvError::MissingMagicNumber)
    );
}

#[test]
fn module_of_nothing_has_no_magic_number() {
    assert_eq!(
        ShaderModule::from_spirv(ShaderStage::Fragment, &[]),
        Err(SpirvError::MissingMagicNumber)
    );
}

#[test]
fn spirv_errors_say_what_is_wrong() {
    assert_eq!(SpirvError::LengthNotWordMultiple.message(), "input length not divisible by 4");
    assert_eq!(SpirvError::MissingMagicNumber.message(), "input missing SPIR-V magic number");
}

#[test]
fn build_takes_both_stages() {
    let pipeline = Pipeline::build(Ok(little_endian_module()), Ok(big_endian_module()));
    assert_eq!(
        pipeline,
        Ok(Pipeline {
            vertex: ShaderModule {
                stage: ShaderStage::Vertex,
                entry_point: String::from("main"),
                words: words(),
            },
            fragment: ShaderModule {
                stage: ShaderStage::Fragment,
                entry_point: String::from("main"),
                words: words(),
            },
            state: PipelineState::fixed(),
        })
    );
}

#[test]
fn build_reports_the_vertex_compiler() {
    let pipeline = Pipeline::build(
        Err(String::from("shader.vert:3: error: 'x' : undeclared identifier")),
        Err(String::from("shader.frag:1: error")),
    );
    assert_eq!(
        pipeline,
        Err(BuildError {
            kind: ErrorKind::ShaderCompilation,
            stage: ShaderStage::Vertex,
            diagnostics: String::from("shader.vert:3: error: 'x' : undeclared identifier"),
        })
    );
}

#[test]
fn build_reports_the_fragment_compiler() {
    let pipeline =
        Pipeline::build(Ok(vec![1, 2, 3]), Err(String::from("shader.frag:1: error")));
    assert_eq!(
        pipeline,
        Err(BuildError {
            kind: ErrorKind::ShaderCompilation,
            stage: ShaderStage::Fragment,
            diagnostics: String::from("shader.frag:1: error"),
        })
    );
}

#[test]
fn build_reports_a_broken_vertex_module() {
    let pipeline = Pipeline::build(Ok(vec![1, 2, 3]), Ok(vec![0, 0, 0, 0]));
    assert_eq!(
        pipeline,
        Err(BuildError {
            kind: ErrorKind::ShaderCompilation,
            stage: ShaderStage::Vertex,
            diagnostics: String::from("input length not divisible by 4"),
        })
    );
}

#[test]
fn build_reports_a_broken_fragment_module() {
    let pipeline = Pipeline::build(Ok(little_endian_module()), Ok(vec![0, 0, 0, 0]));
    assert_eq!(
        pipeline,
        Err(BuildError {
            kind: ErrorKind::ShaderCompilation,
            stage: ShaderStage::Fragment,
            diagnostics: String::from("input missing SPIR-V magic number"),
        })
    );
}
