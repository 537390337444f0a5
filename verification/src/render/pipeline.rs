//! The render pipeline: two shader modules and a fixed-function state that
//! never changes once it is built.

use vstd::prelude::*;
use crate::error::ErrorKind;
use crate::render::renderer::{surface_format, TextureFormat};

verus! {

/// The two programmable stages of the pipeline.
#[derive(Clone, Copy, Debug, PartialEq, Eq, Structural)]
pub enum ShaderStage {
    Vertex,
    Fragment,
}

#[derive(Clone, Copy, Debug, PartialEq, Eq, Structural)]
pub enum FrontFace {
    Ccw,
    Cw,
}

#[derive(Clone, Copy, Debug, PartialEq, Eq, Structural)]
pub enum CullMode {
    /// Neither face is culled.
    Off,
    Front,
    Back,
}

#[derive(Clone, Copy, Debug, PartialEq, Eq, Structural)]
pub enum PrimitiveTopology {
    PointList,
    LineList,
    LineStrip,
    TriangleList,
    TriangleStrip,
}

#[derive(Clone, Copy, Debug, PartialEq, Eq, Structural)]
pub enum IndexFormat {
    Uint16,
    Uint32,
}

/// How a fragment's colour meets the colour already in the target.
#[derive(Clone, Copy, Debug, PartialEq, Eq, Structural)]
pub enum BlendMode {
    /// The fragment replaces what was there: no blending.
    Replace,
    AlphaBlending,
}

/// The fixed-function state of a pipeline.
#[derive(Clone, Copy, Debug, PartialEq, Eq, Structural)]
pub struct PipelineState {
    pub front_face: FrontFace,
    pub cull_mode: CullMode,
    pub depth_bias: i32,
    pub topology: PrimitiveTopology,
    /// The format of the single colour target.
    pub color_format: TextureFormat,
    pub color_blend: BlendMode,
    pub alpha_blend: BlendMode,
    /// One bit for each of the four colour channels that is written.
    pub write_mask: u32,
    /// Whether a depth and stencil test is attached.
    pub depth_stencil: bool,
    pub index_format: IndexFormat,
    /// The number of vertex buffers. With none, the vertex stage makes its
    /// vertices from the vertex index alone.
    pub vertex_buffers: u32,
    pub sample_count: u32,
    pub sample_mask: u32,
    pub alpha_to_coverage_enabled: bool,
}

/// A compiled shader stage.
#[derive(Debug, PartialEq, Eq)]
pub struct ShaderModule {
    pub stage: ShaderStage,
    pub entry_point: String,
    pub words: Vec<u32>,
}

/// A `ShaderModule` as the contracts see it.
pub struct ShaderModuleView {
    pub stage: ShaderStage,
    pub entry_point: Seq<char>,
    pub words: Seq<u32>,
}

/// The pipeline that draws the triangle.
#[derive(Debug, PartialEq, Eq)]
pub struct Pipeline {
    pub vertex: ShaderModule,
    pub fragment: ShaderModule,
    pub state: PipelineState,
}

/// A `Pipeline` as the contracts see it.
pub struct PipelineView {
    pub vertex: ShaderModuleView,
    pub fragment: ShaderModuleView,
    pub state: PipelineState,
}

/// Why a compiled stage is no SPIR-V module.
#[derive(Clone, Copy, Debug, PartialEq, Eq, Structural)]
pub enum SpirvError {
    /// The length in bytes is no multiple of four.
    LengthNotWordMultiple,
    /// The first word is not the magic number, in either byte order.
    MissingMagicNumber,
}

/// Why no pipeline was built.
#[derive(Debug, PartialEq, Eq)]
pub struct BuildError {
    pub kind: ErrorKind,
    /// The stage that failed.
    pub stage: ShaderStage,
    /// What the compiler, or the reader of its output, had to say.
    pub diagnostics: String,
}

/// A `BuildError` as the contracts see it.
pub struct BuildErrorView {
    pub kind: ErrorKind,
    pub stage: ShaderStage,
    pub diagnostics: Seq<char>,
}

impl View for ShaderModule {
    type V = ShaderModuleView;

    open spec fn view(&self) -> ShaderModuleView {
        ShaderModuleView { stage: self.stage, entry_point: self.entry_point@, words: self.words@ }
    }
}

impl View for Pipeline {
    type V = PipelineView;

    open spec fn view(&self) -> PipelineView {
        PipelineView { vertex: self.vertex@, fragment: self.fragment@, state: self.state }
    }
}

impl View for BuildError {
    type V = BuildErrorView;

    open spec fn view(&self) -> BuildErrorView {
        BuildErrorView { kind: self.kind, stage: self.stage, diagnostics: self.diagnostics@ }
    }
}

/// The first word of every SPIR-V module.
pub const SPIRV_MAGIC: u32 = 0x0723_0203;

/// The fixed-function state of the triangle pipeline.
pub open spec fn fixed_state() -> PipelineState {
    PipelineState {
        front_face: FrontFace::Ccw,
        cull_mode: CullMode::Off,
        depth_bias: 0,
        topology: PrimitiveTopology::TriangleList,
        color_format: surface_format(),
        color_blend: BlendMode::Replace,
        alpha_blend: BlendMode::Replace,
        write_mask: 0xF,
        depth_stencil: false,
        index_format: IndexFormat::Uint16,
        vertex_buffers: 0,
        sample_count: 1,
        sample_mask: 0xFFFF_FFFF,
        alpha_to_coverage_enabled: false,
    }
}

/// The name of the function that a stage starts in.
pub open spec fn entry_point_name() -> Seq<char> {
    "main"@
}

/// The name under which a stage's source is handed to the compiler.
pub open spec fn source_name(stage: ShaderStage) -> Seq<char> {
    match stage {
        ShaderStage::Vertex => "shader.vert"@,
        ShaderStage::Fragment => "shader.frag"@,
    }
}

/// Word `i` of `bytes`, least significant byte first.
pub open spec fn word_le(bytes: Seq<u8>, i: int) -> u32 {
    (bytes[4 * i] as int + 0x100 * (bytes[4 * i + 1] as int) + 0x1_0000 * (bytes[4 * i + 2] as int)
        + 0x100_0000 * (bytes[4 * i + 3] as int)) as u32
}

/// Word `i` of `bytes`, most significant byte first.
pub open spec fn word_be(bytes: Seq<u8>, i: int) -> u32 {
    (bytes[4 * i + 3] as int + 0x100 * (bytes[4 * i + 2] as int) + 0x1_0000 * (bytes[4 * i
        + 1] as int) + 0x100_0000 * (bytes[4 * i] as int)) as u32
}

/// The bytes hold whole words and start with the magic number, in one byte
/// order or the other.
pub open spec fn spirv_readable(bytes: Seq<u8>) -> bool {
    &&& bytes.len() % 4 == 0
    &&& bytes.len() >= 4
    &&& (word_le(bytes, 0) == SPIRV_MAGIC || word_be(bytes, 0) == SPIRV_MAGIC)
}

/// The words of a module, read in the byte order in which its first word is
/// the magic number.
pub open spec fn spirv_words(bytes: Seq<u8>) -> Seq<u32> {
    if word_le(bytes, 0) == SPIRV_MAGIC {
        Seq::new(bytes.len() / 4, |i: int| word_le(bytes, i))
    } else {
        Seq::new(bytes.len() / 4, |i: int| word_be(bytes, i))
    }
}

/// What is wrong with bytes that are not readable.
pub open spec fn spirv_error_of(bytes: Seq<u8>) -> SpirvError {
    if bytes.len() % 4 != 0 {
        SpirvError::LengthNotWordMultiple
    } else {
        SpirvError::MissingMagicNumber
    }
}

/// What is said of bytes that are not readable.
pub open spec fn spirv_error_text(error: SpirvError) -> Seq<char> {
    match error {
        SpirvError::LengthNotWordMultiple => "input length not divisible by 4"@,
        SpirvError::MissingMagicNumber => "input missing SPIR-V magic number"@,
    }
}

/// The module that a stage's compiled bytes make.
pub open spec fn module_of(stage: ShaderStage, bytes: Seq<u8>) -> ShaderModuleView {
    ShaderModuleView { stage, entry_point: entry_point_name(), words: spirv_words(bytes) }
}

/// The failure of `stage`, with what was said of it.
pub open spec fn compile_failure(stage: ShaderStage, diagnostics: Seq<char>) -> BuildErrorView {
    BuildErrorView { kind: ErrorKind::ShaderCompilation, stage, diagnostics }
}

/// What `Pipeline::build` makes of the two compiler outcomes. The stages
/// are looked at in this order: the vertex compile, the fragment compile,
/// the vertex module, the fragment module. The first that failed is the one
/// reported.
pub open spec fn build_outcome(
    vertex: Result<Seq<u8>, Seq<char>>,
    fragment: Result<Seq<u8>, Seq<char>>,
) -> Result<PipelineView, BuildErrorView> {
    match (vertex, fragment) {
        (Err(diagnostics), _) => Err(compile_failure(ShaderStage::Vertex, diagnostics)),
        (Ok(_), Err(diagnostics)) => Err(compile_failure(ShaderStage::Fragment, diagnostics)),
        (Ok(v), Ok(f)) => if !spirv_readable(v) {
            Err(compile_failure(ShaderStage::Vertex, spirv_error_text(spirv_error_of(v))))
        } else if !spirv_readable(f) {
            Err(compile_failure(ShaderStage::Fragment, spirv_error_text(spirv_error_of(f))))
        } else {
            Ok(
                PipelineView {
                    vertex: module_of(ShaderStage::Vertex, v),
                    fragment: module_of(ShaderStage::Fragment, f),
                    state: fixed_state(),
                },
            )
        },
    }
}

/// A compiler outcome, as the contracts see it.
pub open spec fn compiled_view(outcome: Result<Vec<u8>, String>) -> Result<Seq<u8>, Seq<char>> {
    match outcome {
        Ok(bytes) => Ok(bytes@),
        Err(diagnostics) => Err(diagnostics@),
    }
}

/// What `Pipeline::build` returned, as the contracts see it.
pub open spec fn built_view(res: Result<Pipeline, BuildError>) -> Result<
    PipelineView,
    BuildErrorView,
> {
    match res {
        Ok(pipeline) => Ok(pipeline@),
        Err(error) => Err(error@),
    }
}

/// `std::io::Error`, which `wgpu::read_spirv` fails with. Nothing is known
/// of a value of it.
#[verifier::external_type_specification]
#[verifier::external_body]
pub struct ExIoError(std::io::Error);

/// `wgpu::read_spirv` on a cursor over `bytes`.
///
/// It succeeds exactly on input that holds whole words, at least one, whose
/// first word is the SPIR-V magic number in either byte order. The words it
/// returns are those of the input, read in that byte order. This is taken
/// from the function's source and not proved here.
#[verifier::external_body]
fn read_spirv(bytes: &[u8]) -> (res: Result<Vec<u32>, std::io::Error>)
    ensures
        res is Ok <==> spirv_readable(bytes@),
        res matches Ok(words) ==> words@ == spirv_words(bytes@),
{
    wgpu::read_spirv(std::io::Cursor::new(bytes))
}

impl ShaderStage {
    /// The name of the function that the stage starts in.
    pub fn entry_point(self) -> (name: String)
        ensures
            name@ == entry_point_name(),
    {
        "main".to_string()
    }

    /// The name under which the stage's source is handed to the compiler.
    pub fn file_name(self) -> (name: String)
        ensures
            name@ == source_name(self),
    {
        match self {
            ShaderStage::Vertex => "shader.vert".to_string(),
            ShaderStage::Fragment => "shader.frag".to_string(),
        }
    }
}

impl SpirvError {
    /// What is wrong, in words.
    pub fn message(self) -> (text: String)
        ensures
            text@ == spirv_error_text(self),
    {
        match self {
            SpirvError::LengthNotWordMultiple => "input length not divisible by 4".to_string(),
            SpirvError::MissingMagicNumber => "input missing SPIR-V magic number".to_string(),
        }
    }
}

impl PipelineState {
    /// The fixed-function state of the triangle pipeline.
    pub fn fixed() -> (state: PipelineState)
        ensures
            state == fixed_state(),
    {
        PipelineState {
            front_face: FrontFace::Ccw,
            cull_mode: CullMode::Off,
            depth_bias: 0,
            topology: PrimitiveTopology::TriangleList,
            color_format: TextureFormat::Bgra8UnormSrgb,
            color_blend: BlendMode::Replace,
            alpha_blend: BlendMode::Replace,
            write_mask: 0xF,
            depth_stencil: false,
            index_format: IndexFormat::Uint16,
            vertex_buffers: 0,
            sample_count: 1,
            sample_mask: 0xFFFF_FFFF,
            alpha_to_coverage_enabled: false,
        }
    }
}

impl ShaderModule {
    /// Reads the words of a compiled stage.
    pub fn from_spirv(stage: ShaderStage, bytes: &[u8]) -> (res: Result<ShaderModule, SpirvError>)
        ensures
            res is Ok <==> spirv_readable(bytes@),
            res matches Ok(module) ==> module@ == module_of(stage, bytes@),
            res matches Err(error) ==> error == spirv_error_of(bytes@),
    {
        match read_spirv(bytes) {
            Ok(words) => Ok(ShaderModule { stage, entry_point: stage.entry_point(), words }),
            Err(_) => {
                if bytes.len() % 4 != 0 {
                    Err(SpirvError::LengthNotWordMultiple)
                } else {
                    Err(SpirvError::MissingMagicNumber)
                }
            },
        }
    }
}

impl Pipeline {
    /// Builds the pipeline from what the compiler made of the two stages:
    /// for each the SPIR-V binary, or the compiler's diagnostics.
    pub fn build(vertex: Result<Vec<u8>, String>, fragment: Result<Vec<u8>, String>) -> (res: Result<
        Pipeline,
        BuildError,
    >)
        ensures
            built_view(res) == build_outcome(compiled_view(vertex), compiled_view(fragment)),
    {
        let vertex_bytes = match vertex {
            Ok(bytes) => bytes,
            Err(diagnostics) => {
                return Err(
                    BuildError {
                        kind: ErrorKind::ShaderCompilation,
                        stage: ShaderStage::Vertex,
                        diagnostics,
                    },
                );
            },
        };
        let fragment_bytes = match fragment {
            Ok(bytes) => bytes,
            Err(diagnostics) => {
                return Err(
                    BuildError {
                        kind: ErrorKind::ShaderCompilation,
                        stage: ShaderStage::Fragment,
                        diagnostics,
                    },
                );
            },
        };
        let vertex_module = match ShaderModule::from_spirv(
            ShaderStage::Vertex,
            vertex_bytes.as_slice(),
        ) {
            Ok(module) => module,
            Err(error) => {
                return Err(
                    BuildError {
                        kind: ErrorKind::ShaderCompilation,
                        stage: ShaderStage::Vertex,
                        diagnostics: error.message(),
                    },
                );
            },
        };
        let fragment_module = match ShaderModule::from_spirv(
            ShaderStage::Fragment,
            fragment_bytes.as_slice(),
        ) {
            Ok(module) => module,
            Err(error) => {
                return Err(
                    BuildError {
                        kind: ErrorKind::ShaderCompilation,
                        stage: ShaderStage::Fragment,
                        diagnostics: error.message(),
                    },
                );
            },
        };
        Ok(Pipeline { vertex: vertex_module, fragment: fragment_module, state: PipelineState::fixed() })
    }
}

/// A built pipeline writes the format that the swap chain presents.
pub proof fn lemma_pipeline_matches_surface(
    vertex: Result<Seq<u8>, Seq<char>>,
    fragment: Result<Seq<u8>, Seq<char>>,
    width: u32,
    height: u32,
)
    ensures
        build_outcome(vertex, fragment) matches Ok(pipeline) ==> pipeline.state.color_format
            == crate::render::renderer::surface_descriptor(width, height).format,
{
}

} // verus!
