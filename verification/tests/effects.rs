use seagull::app::AppContext;
use seagull::command::{Command, Reply, Size, UniformLocation, Viewport};
use seagull::effects::{Chain, Effect, Scale};
use seagull::error::{FrameError, ResourceError};
use seagull::extensions::Extensions;
use seagull::frame_buffer::FrameBuffer;
use seagull::pending::Progress;
use seagull::pixelate::{Pixelate, PixelateSources};
use seagull::shader::flatten;
use seagull::voronoi::{Voronoi, VoronoiSources};
use std::cell::RefCell;

fn window_context(bindless: bool) -> AppContext {
    let mut context = AppContext::new(Size { width: 800, height: 600 }, Extensions { bindless });
    context.take_commands();
    context
}

fn obliging(command: &Command) -> Reply {
    match command {
        Command::CheckNamedFramebufferStatus { .. } => Reply::Status(glow::FRAMEBUFFER_COMPLETE),
        Command::GetShaderCompileStatus { .. }
        | Command::GetProgramLinkStatus { .. }
        | Command::GetProgramPipelineValidateStatus { .. }
        | Command::GetUniformLocation { .. } => Reply::Flag(true),
        Command::GetShaderInfoLog { .. }
        | Command::GetProgramInfoLog { .. }
        | Command::GetProgramPipelineInfoLog { .. } => Reply::Text(String::new()),
        _ => Reply::Done,
    }
}

fn sources() -> PixelateSources {
    PixelateSources {
        vertex: "vertex".to_string(),
        fragment: "pattern".to_string(),
        display: "display".to_string(),
    }
}

fn pixelate(context: &mut AppContext, numerator: u32, denominator: u32) -> Pixelate {
    let size = context.size();
    Pixelate::begin(context, &size, Scale { numerator, denominator }, sources())
        .settle(context, &obliging)
        .unwrap()
}

fn made(commands: &[Command]) -> usize {
    commands
        .iter()
        .filter(|command| {
            matches!(
                command,
                Command::CreateTexture { .. }
                    | Command::CreateFramebuffer { .. }
                    | Command::CreateShader { .. }
                    | Command::CreateProgram { .. }
                    | Command::CreateShaderProgram { .. }
                    | Command::CreateProgramPipeline { .. }
                    | Command::CreateBuffer { .. }
                    | Command::CreateVertexArray { .. }
            )
        })
        .count()
}

fn unmade(commands: &[Command]) -> usize {
    commands
        .iter()
        .filter(|command| {
            matches!(
                command,
                Command::DeleteTexture { .. }
                    | Command::DeleteFramebuffer { .. }
                    | Command::DeleteShader { .. }
                    | Command::DeleteProgram { .. }
                    | Command::DeleteProgramPipeline { .. }
                    | Command::DeleteBuffer { .. }
                    | Command::DeleteVertexArray { .. }
            )
        })
        .count()
}

#[test]
fn scale_divides_and_rounds_down() {
    let half = Scale { numerator: 2, denominator: 1 };
    assert_eq!(half.extent(800), 400);
    assert_eq!(half.extent(601), 300);
    assert_eq!(half.extent(1), 0);
    assert_eq!(half.extent(0), 0);
    let two_thirds = Scale { numerator: 3, denominator: 2 };
    assert_eq!(two_thirds.extent(800), 533);
    assert_eq!(two_thirds.extent(600), 400);
    let double = Scale { numerator: 1, denominator: 2 };
    assert_eq!(double.extent(800), 1600);
}

#[test]
fn scale_stops_at_the_largest_size() {
    let double = Scale { numerator: 1, denominator: 2 };
    assert_eq!(double.extent(u32::MAX), i32::MAX);
    assert_eq!(double.extent(0x4000_0000), i32::MAX);
    assert_eq!(double.extent(0x3FFF_FFFF), 0x7FFF_FFFE);
    let huge = Scale { numerator: 1, denominator: u32::MAX };
    assert_eq!(huge.extent(u32::MAX), i32::MAX);
    let none = Scale { numerator: 0, denominator: 1 };
    assert_eq!(none.extent(800), i32::MAX);
    assert_eq!(none.extent(0), 0);
    let nothing = Scale { numerator: 0, denominator: 0 };
    assert_eq!(nothing.extent(800), 0);
}

#[test]
fn pixelate_at_half_scale_has_a_target_of_half_the_window() {
    let mut context = window_context(false);
    let size = context.size();
    let mut effect =
        Pixelate::new(&mut context, &obliging, &size, Scale { numerator: 2, denominator: 1 }, sources())
            .unwrap();
    assert_eq!((effect.fbo.width, effect.fbo.height), (400, 300));
    assert_eq!((effect.fbo.texture.width, effect.fbo.texture.height), (400, 300));
    assert_eq!((effect.fbo.depth_texture.width, effect.fbo.depth_texture.height), (400, 300));
    let before = pixelate(&mut window_context(false), 2, 1);
    assert_eq!(effect.resize(&mut context, &obliging, &Size { width: 1024, height: 768 }), Ok(()));
    assert_eq!((effect.fbo.width, effect.fbo.height), (512, 384));
    assert_eq!((effect.fbo.texture.width, effect.fbo.texture.height), (512, 384));
    assert_eq!((effect.fbo.depth_texture.width, effect.fbo.depth_texture.height), (512, 384));
    assert_eq!(effect.fbo.id, before.fbo.id);
    assert_eq!(effect.scale, before.scale);
    assert_eq!(effect.pipeline, before.pipeline);
    assert_eq!(effect.vertex_array, before.vertex_array);
    assert_eq!(effect.fragment_shader, before.fragment_shader);
    assert_eq!(effect.display_shader, before.display_shader);
    assert_eq!(effect.vertex_shader, before.vertex_shader);
    assert_eq!(effect.elapsed_loc, before.elapsed_loc);
    assert_eq!(effect.texture_loc, before.texture_loc);
}

#[test]
fn pixelate_takes_eleven_handles_in_order() {
    let mut context = window_context(false);
    let effect = pixelate(&mut context, 2, 1);
    assert_eq!(effect.fbo.id, 1);
    assert_eq!(effect.fbo.texture.id, 2);
    assert_eq!(effect.fbo.depth_texture.id, 3);
    assert_eq!(effect.vertex_shader, seagull::program::Shader { id: 4, stage: glow::VERTEX_SHADER });
    assert_eq!(effect.fragment_shader, seagull::program::Shader { id: 5, stage: glow::FRAGMENT_SHADER });
    assert_eq!(effect.elapsed_loc, UniformLocation { slot: 6 });
    assert_eq!(effect.display_shader, seagull::program::Shader { id: 7, stage: glow::FRAGMENT_SHADER });
    assert_eq!(effect.texture_loc, UniformLocation { slot: 8 });
    assert_eq!(effect.pipeline.id, 9);
    assert_eq!(effect.vertex_array.vertex_buffer.id, 10);
    assert_eq!(effect.vertex_array.vertex_buffer.vertex_count, 4);
    assert_eq!(effect.vertex_array.id, 11);
    assert_eq!(context.handles_left(), u32::MAX - 12);
}

#[test]
fn pixelate_looks_up_its_uniforms_and_uploads_the_quad() {
    let mut context = window_context(false);
    let seen = RefCell::new(Vec::new());
    let size = context.size();
    Pixelate::begin(&mut context, &size, Scale { numerator: 2, denominator: 1 }, sources())
        .settle(&mut context, &|command: &Command| {
            seen.borrow_mut().push(command.clone());
            obliging(command)
        })
        .unwrap();
    let seen = seen.into_inner();
    assert!(seen.contains(&Command::GetUniformLocation {
        program: 5,
        name: "Elapsed".to_string(),
        location: 6,
    }));
    assert!(seen.contains(&Command::GetUniformLocation { program: 7, name: "FBO".to_string(), location: 8 }));
    assert!(seen.contains(&Command::CreateShaderProgram {
        program: 4,
        stage: glow::VERTEX_SHADER,
        source: "vertex".to_string(),
    }));
    assert!(seen.contains(&Command::CreateShaderProgram {
        program: 5,
        stage: glow::FRAGMENT_SHADER,
        source: "pattern".to_string(),
    }));
    assert!(seen.contains(&Command::CreateShaderProgram {
        program: 7,
        stage: glow::FRAGMENT_SHADER,
        source: "display".to_string(),
    }));
    let quad: [f32; 12] = [-1.0, -1.0, 0.0, -1.0, 1.0, 0.0, 1.0, 1.0, 0.0, 1.0, -1.0, 0.0];
    let bytes: &[u8] = bytemuck::cast_slice(&quad);
    assert!(seen.contains(&Command::NamedBufferData {
        buffer: 10,
        data: bytes.to_vec(),
        usage: glow::STATIC_DRAW,
    }));
    assert_eq!(seen.last(), Some(&Command::BindFramebuffer { target: glow::FRAMEBUFFER, framebuffer: None }));
    assert_eq!(made(&seen), 9);
    assert_eq!(unmade(&seen), 0);
}

#[test]
fn pixelate_that_would_have_no_pixels_is_refused() {
    let mut context = AppContext::new(Size { width: 1, height: 600 }, Extensions { bindless: false });
    let size = context.size();
    let progress = Pixelate::begin(&mut context, &size, Scale { numerator: 2, denominator: 1 }, sources());
    assert!(matches!(progress, Progress::Done(Err(ResourceError::InvalidDimensions(0, 300)))));
    let mut context = window_context(false);
    context.reserve(u32::MAX - 11);
    assert_eq!(context.handles_left(), 10);
    let size = context.size();
    let progress = Pixelate::begin(&mut context, &size, Scale { numerator: 2, denominator: 1 }, sources());
    assert!(matches!(progress, Progress::Done(Err(ResourceError::OutOfHandles))));
    assert_eq!(context.handles_left(), 10);
}

#[test]
fn pixelate_that_fails_late_deletes_everything_it_made() {
    let mut context = window_context(true);
    let seen = RefCell::new(Vec::new());
    let size = context.size();
    let outcome = Pixelate::begin(&mut context, &size, Scale { numerator: 2, denominator: 1 }, sources()).settle(
        &mut context,
        &|command: &Command| {
            seen.borrow_mut().push(command.clone());
            match command {
                Command::CreateVertexArray { .. } => Reply::Failed("no vertex arrays".to_string()),
                _ => obliging(command),
            }
        },
    );
    assert_eq!(outcome, Err(ResourceError::AllocationFailed("no vertex arrays".to_string())));
    let seen = seen.into_inner();
    assert_eq!(made(&seen) - 1, unmade(&seen));
    assert_eq!(unmade(&seen), 8);
    assert_eq!(
        &seen[seen.len() - 8..],
        &[
            Command::DeleteBuffer { buffer: 10 },
            Command::DeleteProgramPipeline { pipeline: 9 },
            Command::DeleteProgram { program: 7 },
            Command::DeleteProgram { program: 5 },
            Command::DeleteProgram { program: 4 },
            Command::DeleteTexture { texture: 3 },
            Command::DeleteTexture { texture: 2 },
            Command::DeleteFramebuffer { framebuffer: 1 },
        ]
    );
}

#[test]
fn pixelate_without_a_uniform_fails_with_its_name() {
    let mut context = window_context(false);
    let size = context.size();
    let outcome = Pixelate::begin(&mut context, &size, Scale { numerator: 2, denominator: 1 }, sources()).settle(
        &mut context,
        &|command: &Command| match command {
            Command::GetUniformLocation { name, .. } if name == "FBO" => Reply::Flag(false),
            _ => obliging(command),
        },
    );
    assert_eq!(outcome, Err(ResourceError::UniformNotFound("FBO".to_string())));
}

fn pass(pipeline: u32, program: u32, vertex_array: u32) -> Vec<Command> {
    vec![
        Command::UseProgramStages { pipeline, stages: glow::FRAGMENT_SHADER_BIT, program },
        Command::ValidateProgramPipeline { pipeline },
        Command::BindProgramPipeline { pipeline },
        Command::BindVertexArray { vertex_array: Some(vertex_array) },
        Command::DrawArrays { mode: glow::TRIANGLE_FAN, first: 0, count: 4 },
    ]
}

#[test]
fn pixelate_draws_coarse_then_stretches_over_the_window() {
    let mut context = window_context(false);
    let effect = pixelate(&mut context, 2, 1);
    context.set_elapsed(250.0f32.to_bits());
    assert_eq!(effect.apply(&mut context, None, None), Ok(()));
    let mut expected = vec![
        Command::Viewport { x: 0, y: 0, width: 400, height: 300 },
        Command::BindFramebuffer { target: glow::FRAMEBUFFER, framebuffer: Some(1) },
        Command::ProgramUniform1F32 { program: 5, location: 6, bits: 250.0f32.to_bits() },
    ];
    expected.extend(pass(9, 5, 11));
    expected.push(Command::Viewport { x: 0, y: 0, width: 800, height: 600 });
    expected.push(Command::BindFramebuffer { target: glow::FRAMEBUFFER, framebuffer: None });
    expected.push(Command::ActiveTexture { unit: glow::TEXTURE0 });
    expected.push(Command::BindTexture { target: glow::TEXTURE_2D, texture: Some(2) });
    expected.push(Command::ProgramUniform1I32 { program: 7, location: 8, value: 0 });
    expected.extend(pass(9, 7, 11));
    assert_eq!(context.take_commands(), expected);
    assert_eq!(context.viewport(), Viewport { x: 0, y: 0, width: 800, height: 600 });
    assert_eq!(context.target(), None);
}

#[test]
fn pixelate_samples_through_the_bindless_handle_where_it_can() {
    let mut context = window_context(true);
    let effect = pixelate(&mut context, 2, 1);
    assert_eq!(effect.fbo.texture.handle, Some(2));
    effect.apply(&mut context, None, None).unwrap();
    let commands = context.take_commands();
    assert!(commands.contains(&Command::ProgramUniformHandle { program: 7, location: 8, handle: 2 }));
    assert!(!commands.iter().any(|command| matches!(
        command,
        Command::ActiveTexture { .. } | Command::BindTexture { .. } | Command::ProgramUniform1I32 { .. }
    )));
    assert_eq!(commands.len(), 3 + 5 + 2 + 1 + 5);
}

#[test]
fn apply_into_a_target_leaves_the_viewport_as_it_was() {
    for bindless in [false, true] {
        let mut context = window_context(bindless);
        let effect = pixelate(&mut context, 4, 1);
        let target = FrameBuffer::begin(&mut context, 320, 200).settle(&mut context, &obliging).unwrap();
        context.submit(Command::Viewport { x: 10, y: 20, width: 300, height: 150 });
        context.take_commands();
        let before = context.viewport();
        effect.apply(&mut context, None, Some(&target)).unwrap();
        assert_eq!(context.viewport(), before);
        assert_eq!(context.viewport(), Viewport { x: 10, y: 20, width: 300, height: 150 });
        assert_eq!(context.target(), None);
        let commands = context.take_commands();
        let restore = Command::Viewport { x: 10, y: 20, width: 300, height: 150 };
        assert_eq!(commands[commands.len() - 2], restore);
        assert_eq!(
            commands[commands.len() - 1],
            Command::BindFramebuffer { target: glow::FRAMEBUFFER, framebuffer: None }
        );
        let binds: Vec<&Command> =
            commands.iter().filter(|command| matches!(command, Command::BindFramebuffer { .. })).collect();
        assert_eq!(
            binds,
            vec![
                &Command::BindFramebuffer { target: glow::FRAMEBUFFER, framebuffer: Some(effect.fbo.id) },
                &Command::BindFramebuffer { target: glow::FRAMEBUFFER, framebuffer: None },
                &Command::BindFramebuffer { target: glow::FRAMEBUFFER, framebuffer: Some(target.id) },
                &Command::BindFramebuffer { target: glow::FRAMEBUFFER, framebuffer: None },
            ]
        );
        assert!(commands.contains(&Command::Viewport { x: 0, y: 0, width: 320, height: 200 }));
        assert!(commands.contains(&Command::Viewport { x: 0, y: 0, width: 200, height: 150 }));
    }
}

#[test]
fn render_leaves_the_viewport_at_the_rectangle_given() {
    let mut context = window_context(false);
    let effect = pixelate(&mut context, 2, 1);
    effect.render(&mut context, 1, 2, 30, 40, None);
    assert_eq!(context.viewport(), Viewport { x: 1, y: 2, width: 30, height: 40 });
    assert_eq!(context.target(), None);
}

#[test]
fn pixelate_resize_never_touches_the_window() {
    let mut context = window_context(false);
    let mut effect = pixelate(&mut context, 2, 1);
    let seen = RefCell::new(Vec::new());
    let before = context.viewport();
    let recording = |command: &Command| {
        seen.borrow_mut().push(command.clone());
        obliging(command)
    };
    effect.resize(&mut context, &recording, &Size { width: 1024, height: 768 }).unwrap();
    assert_eq!(context.viewport(), before);
    assert_eq!(context.target(), None);
    assert_eq!(context.size(), Size { width: 800, height: 600 });
    assert!(!seen.borrow().iter().any(|command| matches!(
        command,
        Command::Viewport { .. } | Command::BindFramebuffer { .. }
    )));
    let refused = effect.resize(&mut context, &recording, &Size { width: 1, height: 768 });
    assert_eq!(refused, Err(FrameError::Resource(ResourceError::InvalidDimensions(0, 384))));
    assert_eq!((effect.fbo.width, effect.fbo.height), (512, 384));
}

#[test]
fn failed_pixelate_resize_keeps_the_old_target() {
    let mut context = window_context(false);
    let mut effect = pixelate(&mut context, 2, 1);
    let (colour, depth) = (effect.fbo.texture.id, effect.fbo.depth_texture.id);
    let refusing = |command: &Command| match command {
        Command::CreateTexture { .. } => Reply::Failed("out of memory".to_string()),
        _ => obliging(command),
    };
    assert_eq!(
        effect.resize(&mut context, &refusing, &Size { width: 1024, height: 768 }),
        Err(FrameError::Resource(ResourceError::AllocationFailed("out of memory".to_string())))
    );
    assert_eq!((effect.fbo.width, effect.fbo.height), (400, 300));
    assert_eq!((effect.fbo.texture.id, effect.fbo.depth_texture.id), (colour, depth));
    assert_eq!(context.queued(), 0);
}

#[test]
fn pixelate_delete_deletes_all_nine_objects() {
    let mut context = window_context(false);
    let effect = pixelate(&mut context, 2, 1);
    effect.delete(&mut context);
    assert_eq!(
        context.take_commands(),
        vec![
            Command::DeleteFramebuffer { framebuffer: 1 },
            Command::DeleteTexture { texture: 2 },
            Command::DeleteTexture { texture: 3 },
            Command::DeleteProgram { program: 4 },
            Command::DeleteProgram { program: 5 },
            Command::DeleteProgram { program: 7 },
            Command::DeleteProgramPipeline { pipeline: 9 },
            Command::DeleteVertexArray { vertex_array: 11 },
            Command::DeleteBuffer { buffer: 10 },
        ]
    );
}

fn voronoi(context: &mut AppContext) -> Voronoi {
    let points = vec![(0.5f32.to_bits(), (-0.5f32).to_bits()), (0.25f32.to_bits(), 0.75f32.to_bits())];
    Voronoi::begin(
        context,
        VoronoiSources { vertex: "vertex".to_string(), fragment: "cells".to_string() },
        points,
    )
    .settle(context, &obliging)
    .unwrap()
}

#[test]
fn flatten_puts_the_coordinates_in_a_row() {
    assert_eq!(flatten(&vec![]), Vec::<u32>::new());
    assert_eq!(flatten(&vec![(1, 2)]), vec![1, 2]);
    assert_eq!(flatten(&vec![(1, 2), (3, 4), (5, 6)]), vec![1, 2, 3, 4, 5, 6]);
}

#[test]
fn voronoi_uploads_its_points() {
    let mut context = window_context(false);
    let seen = RefCell::new(Vec::new());
    let points = vec![(0.5f32.to_bits(), (-0.5f32).to_bits()), (0.25f32.to_bits(), 0.75f32.to_bits())];
    let effect = Voronoi::begin(
        &mut context,
        VoronoiSources { vertex: "vertex".to_string(), fragment: "cells".to_string() },
        points.clone(),
    )
    .settle(&mut context, &|command: &Command| {
        seen.borrow_mut().push(command.clone());
        obliging(command)
    })
    .unwrap();
    assert_eq!(effect.points, points);
    assert_eq!(effect.shader_program.id, 3);
    assert_eq!(effect.points_loc, UniformLocation { slot: 4 });
    assert_eq!(effect.vertex_array.vertex_buffer.id, 5);
    assert_eq!(effect.vertex_array.id, 6);
    let seen = seen.into_inner();
    assert_eq!(seen[16], Command::GetUniformLocation { program: 3, name: "Points".to_string(), location: 4 });
    assert_eq!(
        seen[17],
        Command::Uniform2F32Slice {
            location: 4,
            bits: vec![0.5f32.to_bits(), (-0.5f32).to_bits(), 0.25f32.to_bits(), 0.75f32.to_bits()],
        }
    );
    assert_eq!(
        &seen[seen.len() - 2..],
        &[Command::DeleteShader { shader: 1 }, Command::DeleteShader { shader: 2 }]
    );
    context.reserve(context.handles_left() - 5);
    let refused = Voronoi::begin(
        &mut context,
        VoronoiSources { vertex: String::new(), fragment: String::new() },
        Vec::new(),
    );
    assert!(matches!(refused, Progress::Done(Err(ResourceError::OutOfHandles))));
}

#[test]
fn voronoi_draws_into_the_window() {
    let mut context = window_context(false);
    let effect = voronoi(&mut context);
    effect.render(&mut context, 0, 0, 800, 600);
    assert_eq!(
        context.take_commands(),
        vec![
            Command::Viewport { x: 0, y: 0, width: 800, height: 600 },
            Command::BindFramebuffer { target: glow::FRAMEBUFFER, framebuffer: None },
            Command::UseProgram { program: Some(3) },
            Command::BindVertexArray { vertex_array: Some(6) },
            Command::DrawArrays { mode: glow::TRIANGLE_FAN, first: 0, count: 4 },
        ]
    );
    effect.apply(&mut context, None, None).unwrap();
    assert_eq!(context.take_commands().len(), 5);
    assert_eq!(context.viewport(), Viewport { x: 0, y: 0, width: 800, height: 600 });
}

#[test]
fn voronoi_into_a_target_restores_the_viewport() {
    let mut context = window_context(false);
    let effect = voronoi(&mut context);
    let target = FrameBuffer::begin(&mut context, 64, 32).settle(&mut context, &obliging).unwrap();
    effect.apply(&mut context, None, Some(&target)).unwrap();
    assert_eq!(
        context.take_commands(),
        vec![
            Command::Viewport { x: 0, y: 0, width: 64, height: 32 },
            Command::BindFramebuffer { target: glow::FRAMEBUFFER, framebuffer: Some(target.id) },
            Command::UseProgram { program: Some(3) },
            Command::BindVertexArray { vertex_array: Some(6) },
            Command::DrawArrays { mode: glow::TRIANGLE_FAN, first: 0, count: 4 },
            Command::Viewport { x: 0, y: 0, width: 800, height: 600 },
            Command::BindFramebuffer { target: glow::FRAMEBUFFER, framebuffer: None },
        ]
    );
    assert_eq!(context.viewport(), Viewport { x: 0, y: 0, width: 800, height: 600 });
    assert_eq!(context.target(), None);
}

#[test]
fn voronoi_resize_changes_nothing() {
    let mut context = window_context(false);
    let mut effect = voronoi(&mut context);
    let left = context.handles_left();
    let calls = RefCell::new(0);
    let counting = |_: &Command| {
        *calls.borrow_mut() += 1;
        Reply::Done
    };
    assert_eq!(effect.resize(&mut context, &counting, &Size { width: 10, height: 10 }), Ok(()));
    assert_eq!(effect, voronoi(&mut window_context(false)));
    assert_eq!(calls.into_inner(), 0);
    assert_eq!(context.queued(), 0);
    assert_eq!(context.handles_left(), left);
    effect.delete(&mut context);
    assert_eq!(
        context.take_commands(),
        vec![
            Command::DeleteProgram { program: 3 },
            Command::DeleteVertexArray { vertex_array: 6 },
            Command::DeleteBuffer { buffer: 5 },
        ]
    );
}

struct Stamp {
    mark: u32,
    fails: bool,
}

impl Effect for Stamp {
    fn apply(
        &self,
        context: &mut AppContext,
        source: Option<&FrameBuffer>,
        target: Option<&FrameBuffer>,
    ) -> Result<(), FrameError> {
        if self.fails {
            return Err(FrameError::Handler(format!("stamp {} failed", self.mark)));
        }
        context.submit(Command::Clear { mask: self.mark });
        context.submit(Command::DeleteTexture { texture: source.map_or(0, |source| source.id) });
        context.submit(Command::DeleteBuffer { buffer: target.map_or(0, |target| target.id) });
        Ok(())
    }

    fn resize<F: Fn(&Command) -> Reply>(
        &mut self,
        _context: &mut AppContext,
        _execute: &F,
        _size: &Size,
    ) -> Result<(), FrameError> {
        Ok(())
    }
}

fn link(context: &mut AppContext) -> FrameBuffer {
    FrameBuffer::begin(context, 8, 8).settle(context, &obliging).unwrap()
}

#[test]
fn chain_feeds_each_target_to_the_next_effect() {
    let mut context = window_context(false);
    let mut chain = Chain::new(Stamp { mark: 1, fails: false });
    let first_link = link(&mut context);
    let second_link = link(&mut context);
    let (first_id, second_id) = (first_link.id, second_link.id);
    chain.push(first_link, Stamp { mark: 2, fails: false });
    chain.push(second_link, Stamp { mark: 3, fails: false });
    assert_eq!(chain.apply(&mut context), Ok(()));
    assert_eq!(
        context.take_commands(),
        vec![
            Command::Clear { mask: 1 },
            Command::DeleteTexture { texture: 0 },
            Command::DeleteBuffer { buffer: first_id },
            Command::Clear { mask: 2 },
            Command::DeleteTexture { texture: first_id },
            Command::DeleteBuffer { buffer: second_id },
            Command::Clear { mask: 3 },
            Command::DeleteTexture { texture: second_id },
            Command::DeleteBuffer { buffer: 0 },
        ]
    );
}

#[test]
fn chain_of_one_effect_draws_into_the_window() {
    let mut context = window_context(false);
    let chain = Chain::new(Stamp { mark: 9, fails: false });
    assert_eq!(chain.apply(&mut context), Ok(()));
    assert_eq!(
        context.take_commands(),
        vec![
            Command::Clear { mask: 9 },
            Command::DeleteTexture { texture: 0 },
            Command::DeleteBuffer { buffer: 0 },
        ]
    );
}

#[test]
fn chain_stops_at_the_first_effect_that_fails() {
    let mut context = window_context(false);
    let mut chain = Chain::new(Stamp { mark: 1, fails: false });
    let first_link = link(&mut context);
    let second_link = link(&mut context);
    chain.push(first_link, Stamp { mark: 2, fails: true });
    chain.push(second_link, Stamp { mark: 3, fails: false });
    assert_eq!(chain.apply(&mut context), Err(FrameError::Handler("stamp 2 failed".to_string())));
    let commands = context.take_commands();
    assert_eq!(commands.len(), 3);
    assert_eq!(commands[0], Command::Clear { mask: 1 });
    assert!(!commands.contains(&Command::Clear { mask: 3 }));
}

#[test]
fn chain_of_real_effects_keeps_the_viewport() {
    let mut context = window_context(false);
    let first = pixelate(&mut context, 2, 1);
    let link = FrameBuffer::begin(&mut context, 800, 600).settle(&mut context, &obliging).unwrap();
    let second = pixelate(&mut context, 4, 1);
    let mut chain = Chain::new(first);
    chain.push(link, second);
    context.take_commands();
    let before = context.viewport();
    assert_eq!(chain.apply(&mut context), Ok(()));
    assert_eq!(context.viewport(), before);
    assert_eq!(context.target(), None);
    let commands = context.take_commands();
    assert_eq!(commands.len(), (3 + 5 + 2 + 2 + 3 + 5 + 2) + (3 + 5 + 2 + 3 + 5));
}
