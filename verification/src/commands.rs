//! The fixed GPU work of one frame, as data.
//!
//! The driver mutates ambient pipeline state; verified code cannot issue
//! those calls itself. Instead it decides *which* calls are due and in
//! what order, as a sequence of `GlCommand` values, and the thin shell
//! around the library performs them one by one, in order.

use vstd::prelude::*;

use crate::shader::Shader;

verus! {

/// The red component of the fixed background color, out of 255.
pub const BACKGROUND_RED: u8 = 21;

/// The green component of the fixed background color, out of 255.
pub const BACKGROUND_GREEN: u8 = 43;

/// The blue component of the fixed background color, out of 255.
pub const BACKGROUND_BLUE: u8 = 60;

/// How many vertices the fixed rectangle has: two triangles.
pub const VERTEX_COUNT: i32 = 6;

/// One GL call the frame loop asks the driver to perform. Color
/// components are in 0..=255; the shell divides by 255 for the driver.
#[derive(Clone, Copy, Debug, PartialEq, Eq, Structural)]
pub enum GlCommand {
    ClearColor { red: u8, green: u8, blue: u8, alpha: u8 },
    Clear,
    UseProgram { program: u32 },
    BindTexture2D { texture: u32 },
    BindVertexArray { array: u32 },
    DrawTriangles { first: i32, count: i32 },
}

/// The two commands that wipe the framebuffer to the background color.
pub open spec fn clear_seq() -> Seq<GlCommand> {
    seq![
        GlCommand::ClearColor {
            red: BACKGROUND_RED,
            green: BACKGROUND_GREEN,
            blue: BACKGROUND_BLUE,
            alpha: 255,
        },
        GlCommand::Clear,
    ]
}

/// The four commands that draw the textured rectangle with the given
/// program, vertex array and texture: bind all three, then one draw call
/// for the six vertices as two triangles.
pub open spec fn draw_seq(program: u32, array: u32, texture: u32) -> Seq<GlCommand> {
    seq![
        GlCommand::UseProgram { program },
        GlCommand::BindTexture2D { texture },
        GlCommand::BindVertexArray { array },
        GlCommand::DrawTriangles { first: 0, count: VERTEX_COUNT },
    ]
}

/// The commands that clear the framebuffer to the background color.
pub fn clear_commands() -> (cmds: Vec<GlCommand>)
    ensures
        cmds@ == clear_seq(),
{
    let mut cmds: Vec<GlCommand> = Vec::new();
    cmds.push(
        GlCommand::ClearColor {
            red: BACKGROUND_RED,
            green: BACKGROUND_GREEN,
            blue: BACKGROUND_BLUE,
            alpha: 255,
        },
    );
    cmds.push(GlCommand::Clear);
    proof {
        assert(cmds@ =~= clear_seq());
    }
    cmds
}

/// The commands that draw the rectangle with the given program, vertex
/// array and texture.
pub fn draw_commands(shader: &Shader, array: u32, texture: u32) -> (cmds: Vec<GlCommand>)
    ensures
        cmds@ == draw_seq(shader.id, array, texture),
{
    let mut cmds: Vec<GlCommand> = Vec::new();
    cmds.push(shader.use_program());
    cmds.push(GlCommand::BindTexture2D { texture });
    cmds.push(GlCommand::BindVertexArray { array });
    cmds.push(GlCommand::DrawTriangles { first: 0, count: VERTEX_COUNT });
    proof {
        assert(cmds@ =~= draw_seq(shader.id, array, texture));
    }
    cmds
}

/// All GPU work of one frame between event handling and presentation:
/// first the clear, then the draw, in that order.
pub fn frame_commands(shader: &Shader, array: u32, texture: u32) -> (cmds: Vec<GlCommand>)
    ensures
        cmds@ == clear_seq() + draw_seq(shader.id, array, texture),
{
    let mut cmds = clear_commands();
    let mut draw = draw_commands(shader, array, texture);
    cmds.append(&mut draw);
    proof {
        assert(cmds@ =~= clear_seq() + draw_seq(shader.id, array, texture));
    }
    cmds
}

} // verus!
