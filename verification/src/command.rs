//! The calls that the renderer asks of the driver, and the driver's answers.
use vstd::prelude::*;

verus! {

/// One call into the graphics driver.
///
/// Objects are named by handles that this crate hands out; the program that
/// carries the calls out keeps the table from those to the driver's own names.
/// The same holds of uniform locations and of bindless texture handles. A
/// number that the driver takes as a float travels as its IEEE-754 bits.
#[allow(inconsistent_fields)]
#[derive(Clone, Debug, PartialEq, Eq)]
pub enum Command {
    Viewport { x: i32, y: i32, width: i32, height: i32 },
    ClearColor { red: u32, green: u32, blue: u32, alpha: u32 },
    Clear { mask: u32 },
    CreateTexture { texture: u32, target: u32 },
    TextureStorage2d { texture: u32, levels: i32, format: u32, width: i32, height: i32 },
    TextureParameterI32 { texture: u32, parameter: u32, value: i32 },
    ActiveTexture { unit: u32 },
    BindTexture { target: u32, texture: Option<u32> },
    DeleteTexture { texture: u32 },
    GetTextureHandle { texture: u32, handle: u64 },
    MakeTextureHandleResident { handle: u64 },
    CreateFramebuffer { framebuffer: u32 },
    NamedFramebufferTexture { framebuffer: u32, attachment: u32, texture: u32, level: i32 },
    CheckNamedFramebufferStatus { framebuffer: u32, target: u32 },
    BindFramebuffer { target: u32, framebuffer: Option<u32> },
    DeleteFramebuffer { framebuffer: u32 },
    CreateShader { shader: u32, stage: u32 },
    ShaderSource { shader: u32, source: String },
    CompileShader { shader: u32 },
    GetShaderInfoLog { shader: u32 },
    GetShaderCompileStatus { shader: u32 },
    DeleteShader { shader: u32 },
    CreateProgram { program: u32 },
    CreateShaderProgram { program: u32, stage: u32, source: String },
    AttachShader { program: u32, shader: u32 },
    LinkProgram { program: u32 },
    GetProgramInfoLog { program: u32 },
    GetProgramLinkStatus { program: u32 },
    UseProgram { program: Option<u32> },
    DeleteProgram { program: u32 },
    GetUniformLocation { program: u32, name: String, location: u32 },
    Uniform1I32 { location: u32, value: i32 },
    Uniform1F32 { location: u32, bits: u32 },
    Uniform2F32Slice { location: u32, bits: Vec<u32> },
    ProgramUniform1I32 { program: u32, location: u32, value: i32 },
    ProgramUniform1F32 { program: u32, location: u32, bits: u32 },
    ProgramUniformHandle { program: u32, location: u32, handle: u64 },
    CreateProgramPipeline { pipeline: u32 },
    UseProgramStages { pipeline: u32, stages: u32, program: u32 },
    ValidateProgramPipeline { pipeline: u32 },
    GetProgramPipelineInfoLog { pipeline: u32 },
    GetProgramPipelineValidateStatus { pipeline: u32 },
    BindProgramPipeline { pipeline: u32 },
    DeleteProgramPipeline { pipeline: u32 },
    CreateBuffer { buffer: u32 },
    NamedBufferData { buffer: u32, data: Vec<u8>, usage: u32 },
    DeleteBuffer { buffer: u32 },
    CreateVertexArray { vertex_array: u32 },
    VertexArrayAttribFormatF32 {
        vertex_array: u32,
        index: u32,
        size: i32,
        data_type: u32,
        normalized: bool,
        relative_offset: u32,
    },
    VertexArrayVertexBuffer {
        vertex_array: u32,
        binding_index: u32,
        buffer: u32,
        offset: i32,
        stride: i32,
    },
    VertexArrayAttribBindingF32 { vertex_array: u32, index: u32, binding_index: u32 },
    EnableVertexArrayAttrib { vertex_array: u32, index: u32 },
    BindVertexArray { vertex_array: Option<u32> },
    DrawArrays { mode: u32, first: i32, count: i32 },
    DeleteVertexArray { vertex_array: u32 },
}

/// What the driver answered to one call.
#[derive(Clone, Debug, PartialEq, Eq)]
pub enum Reply {
    /// The call returned, and had nothing to say.
    Done,
    /// The driver made no object; the text is its reason.
    Failed(String),
    /// The answer to a yes-or-no query.
    Flag(bool),
    /// A status code.
    Status(u32),
    /// An info log.
    Text(String),
}

/// Where a uniform of a program lives, once the driver has been asked for it.
#[derive(Clone, Copy, Debug, PartialEq, Eq, Structural)]
pub struct UniformLocation {
    /// The handle by which calls name the location.
    pub slot: u32,
}

/// The size of the window's drawable area, in pixels.
#[derive(Clone, Copy, Debug, PartialEq, Eq, Structural)]
pub struct Size {
    pub width: u32,
    pub height: u32,
}

/// The rectangle of the draw target that drawing is mapped onto.
#[derive(Clone, Copy, Debug, PartialEq, Eq, Structural)]
pub struct Viewport {
    pub x: i32,
    pub y: i32,
    pub width: i32,
    pub height: i32,
}

/// The part of the driver's state that drawing depends on: the viewport, and
/// the framebuffer that draw calls write to (`None` is the window).
#[derive(Clone, Copy, Debug, PartialEq, Eq, Structural)]
pub struct GpuState {
    pub viewport: Viewport,
    pub target: Option<u32>,
}

impl GpuState {
    /// The state that the driver is in once it has carried out `command`.
    pub open spec fn after(self, command: Command) -> GpuState {
        match command {
            Command::Viewport { x, y, width, height } => GpuState {
                viewport: Viewport { x, y, width, height },
                target: self.target,
            },
            Command::BindFramebuffer { target, framebuffer } => {
                if target == crate::gl::FRAMEBUFFER {
                    GpuState { viewport: self.viewport, target: framebuffer }
                } else {
                    self
                }
            },
            _ => self,
        }
    }

    /// Computes [`GpuState::after`].
    pub fn step(self, command: &Command) -> (next: GpuState)
        ensures
            next == self.after(*command),
    {
        match command {
            Command::Viewport { x, y, width, height } => GpuState {
                viewport: Viewport { x: *x, y: *y, width: *width, height: *height },
                target: self.target,
            },
            Command::BindFramebuffer { target, framebuffer } => {
                if *target == crate::gl::FRAMEBUFFER {
                    GpuState { viewport: self.viewport, target: *framebuffer }
                } else {
                    self
                }
            },
            _ => self,
        }
    }
}

/// The largest pixel count that the driver's signed sizes can hold.
pub const MAX_EXTENT: u32 = 0x7FFF_FFFF;

/// A pixel count as the driver takes it: `pixels`, or the largest signed
/// value when `pixels` is beyond it.
pub open spec fn extent_of(pixels: u32) -> i32 {
    if pixels > MAX_EXTENT {
        MAX_EXTENT as i32
    } else {
        pixels as i32
    }
}

/// Computes [`extent_of`].
pub fn extent(pixels: u32) -> (e: i32)
    ensures
        e == extent_of(pixels),
        0 <= e,
{
    if pixels > MAX_EXTENT {
        MAX_EXTENT as i32
    } else {
        pixels as i32
    }
}

} // verus!
