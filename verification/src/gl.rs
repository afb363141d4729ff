//! The numeric names of the OpenGL 4.6 core profile that the renderer uses.
use vstd::prelude::*;

verus! {

pub const TEXTURE_2D: u32 = 0x0DE1;

pub const TEXTURE_MAG_FILTER: u32 = 0x2800;

pub const TEXTURE_MIN_FILTER: u32 = 0x2801;

pub const TEXTURE_WRAP_S: u32 = 0x2802;

pub const TEXTURE_WRAP_T: u32 = 0x2803;

pub const NEAREST: u32 = 0x2600;

pub const CLAMP_TO_EDGE: u32 = 0x812F;

pub const TEXTURE0: u32 = 0x84C0;

pub const RGBA8: u32 = 0x8058;

pub const DEPTH_COMPONENT24: u32 = 0x81A6;

pub const FRAMEBUFFER: u32 = 0x8D40;

pub const COLOR_ATTACHMENT0: u32 = 0x8CE0;

pub const DEPTH_ATTACHMENT: u32 = 0x8D00;

pub const FRAMEBUFFER_COMPLETE: u32 = 0x8CD5;

pub const FRAMEBUFFER_UNDEFINED: u32 = 0x8219;

pub const FRAMEBUFFER_INCOMPLETE_ATTACHMENT: u32 = 0x8CD6;

pub const FRAMEBUFFER_INCOMPLETE_MISSING_ATTACHMENT: u32 = 0x8CD7;

pub const FRAMEBUFFER_INCOMPLETE_DRAW_BUFFER: u32 = 0x8CDB;

pub const FRAMEBUFFER_INCOMPLETE_READ_BUFFER: u32 = 0x8CDC;

pub const FRAMEBUFFER_UNSUPPORTED: u32 = 0x8CDD;

pub const FRAMEBUFFER_INCOMPLETE_MULTISAMPLE: u32 = 0x8D56;

pub const FRAMEBUFFER_INCOMPLETE_LAYER_TARGETS: u32 = 0x8DA8;

pub const FRAGMENT_SHADER: u32 = 0x8B30;

pub const VERTEX_SHADER: u32 = 0x8B31;

pub const VERTEX_SHADER_BIT: u32 = 0x0000_0001;

pub const FRAGMENT_SHADER_BIT: u32 = 0x0000_0002;

pub const TRIANGLE_FAN: u32 = 0x0006;

pub const FLOAT: u32 = 0x1406;

pub const STATIC_DRAW: u32 = 0x88E4;

pub const DEPTH_BUFFER_BIT: u32 = 0x0000_0100;

pub const COLOR_BUFFER_BIT: u32 = 0x0000_4000;

} // verus!
