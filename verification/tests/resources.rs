use seagull::app::AppContext;
use seagull::command::{Command, Reply, Size, UniformLocation, Viewport};
use seagull::error::ResourceError;
use seagull::extensions::Extensions;
use seagull::frame_buffer::FrameBuffer;
use seagull::pending::Progress;
use seagull::program::Pipeline;
use seagull::texture::Texture;
use seagull::vertex_array::VertexArray;
use seagull::vertex_buffer::VertexBuffer;
use std::cell::RefCell;

fn idle_context(bindless: bool) -> AppContext {
    let mut context = AppContext::new(Size { width: 800, height: 600 }, Extensions { bindless });
    context.take_commands();
    context
}

fn healthy(command: &Command) -> Reply {
    match command {
        Command::CheckNamedFramebufferStatus { .. } => Reply::Status(glow::FRAMEBUFFER_COMPLETE),
        Command::GetShaderCompileStatus { .. }
        | Command::GetProgramLinkStatus { .. }
        | Command::GetProgramPipelineValidateStatus { .. }
        | Command::GetUniformLocation { .. } => Reply::Flag(true),
        Command::GetShaderInfoLog { .. }
        | Command::GetProgramInfoLog { .. }
        | Command::GetProgramPipelineInfoLog { .. } => Reply::Text(String::new()),
        _ => Reply::Done,
    }
}

fn creations(commands: &[Command]) -> usize {
    commands
        .iter()
        .filter(|command| {
            matches!(
                command,
                Command::CreateTexture { .. }
                    | Command::CreateFramebuffer { .. }
                    | Command::CreateShader { .. }
                    | Command::CreateProgram { .. }
                    | Command::CreateShaderProgram { .. }
                    | Command::CreateProgramPipeline { .. }
                    | Command::CreateBuffer { .. }
                    | Command::CreateVertexArray { .. }
            )
        })
        .count()
}

fn deletions(commands: &[Command]) -> usize {
    commands
        .iter()
        .filter(|command| {
            matches!(
                command,
                Command::DeleteTexture { .. }
                    | Command::DeleteFramebuffer { .. }
                    | Command::DeleteShader { .. }
                    | Command::DeleteProgram { .. }
                    | Command::DeleteProgramPipeline { .. }
                    | Command::DeleteBuffer { .. }
                    | Command::DeleteVertexArray { .. }
            )
        })
        .count()
}

fn texture_setup(id: u32, width: i32, height: i32, format: u32) -> Vec<Command> {
    vec![
        Command::CreateTexture { texture: id, target: glow::TEXTURE_2D },
        Command::TextureStorage2d { texture: id, levels: 1, format, width, height },
        Command::TextureParameterI32 {
            texture: id,
            parameter: glow::TEXTURE_MIN_FILTER,
            value: glow::NEAREST as i32,
        },
        Command::TextureParameterI32 {
            texture: id,
            parameter: glow::TEXTURE_MAG_FILTER,
            value: glow::NEAREST as i32,
        },
        Command::TextureParameterI32 {
            texture: id,
            parameter: glow::TEXTURE_WRAP_S,
            value: glow::CLAMP_TO_EDGE as i32,
        },
        Command::TextureParameterI32 {
            texture: id,
            parameter: glow::TEXTURE_WRAP_T,
            value: glow::CLAMP_TO_EDGE as i32,
        },
    ]
}

#[test]
fn texture_is_created_with_fixed_sampling() {
    let mut context = idle_context(false);
    let seen = RefCell::new(Vec::new());
    let texture = Texture::begin(&mut context, 4, 2, glow::RGBA8)
        .settle(&mut context, &|command: &Command| {
            seen.borrow_mut().push(command.clone());
            Reply::Done
        })
        .unwrap();
    assert_eq!(texture, Texture { id: 1, format: glow::RGBA8, width: 4, height: 2, handle: None });
    assert_eq!(seen.into_inner(), texture_setup(1, 4, 2, glow::RGBA8));
    assert_eq!(context.queued(), 0);
}

#[test]
fn texture_of_no_size_is_refused_before_any_call() {
    let mut context = idle_context(true);
    for (width, height) in [(0, 4), (4, 0), (-1, 4), (4, -7), (0, 0)] {
        let progress = Texture::begin(&mut context, width, height, glow::RGBA8);
        assert!(matches!(
            progress,
            Progress::Done(Err(ResourceError::InvalidDimensions(w, h))) if w == width && h == height
        ));
    }
    assert_eq!(context.queued(), 0);
    assert_eq!(context.handles_left(), u32::MAX - 1);
}

#[test]
fn texture_is_refused_when_handles_run_out() {
    let mut context = idle_context(false);
    context.reserve(u32::MAX - 1);
    let progress = Texture::begin(&mut context, 4, 4, glow::RGBA8);
    assert!(matches!(progress, Progress::Done(Err(ResourceError::OutOfHandles))));
}

#[test]
fn refused_texture_leaves_nothing_behind() {
    let mut context = idle_context(false);
    let outcome = Texture::begin(&mut context, 4, 4, glow::RGBA8)
        .settle(&mut context, &|_: &Command| Reply::Failed("Unable to create Texture object".to_string()));
    assert_eq!(
        outcome,
        Err(ResourceError::AllocationFailed("Unable to create Texture object".to_string()))
    );
    assert_eq!(context.queued(), 0);
}

#[test]
fn texture_resize_deletes_the_old_texture_only_after_the_new_one_is_made() {
    let mut context = idle_context(false);
    let texture = Texture::begin(&mut context, 4, 2, glow::DEPTH_COMPONENT24)
        .settle(&mut context, &healthy)
        .unwrap();
    let seen = RefCell::new(Vec::new());
    let resized = texture
        .begin_resize(&mut context, 8, 6)
        .settle(&mut context, &|command: &Command| {
            seen.borrow_mut().push(command.clone());
            Reply::Done
        })
        .unwrap();
    assert_eq!(
        resized,
        Texture { id: 2, format: glow::DEPTH_COMPONENT24, width: 8, height: 6, handle: None }
    );
    let mut expected = texture_setup(2, 8, 6, glow::DEPTH_COMPONENT24);
    expected.push(Command::DeleteTexture { texture: 1 });
    assert_eq!(seen.into_inner(), expected);
}

#[test]
fn failed_texture_resize_leaves_the_old_texture_alone() {
    let mut context = idle_context(false);
    let texture = Texture::begin(&mut context, 4, 2, glow::RGBA8).settle(&mut context, &healthy).unwrap();
    let seen = RefCell::new(Vec::new());
    let outcome = texture.begin_resize(&mut context, 8, 6).settle(&mut context, &|command: &Command| {
        seen.borrow_mut().push(command.clone());
        Reply::Failed("no".to_string())
    });
    assert_eq!(outcome, Err(ResourceError::AllocationFailed("no".to_string())));
    assert_eq!(seen.into_inner(), vec![Command::CreateTexture { texture: 2, target: glow::TEXTURE_2D }]);
    assert_eq!(texture, Texture { id: 1, format: glow::RGBA8, width: 4, height: 2, handle: None });
    let outcome = texture.begin_resize(&mut context, 0, 6);
    assert!(matches!(outcome, Progress::Done(Err(ResourceError::InvalidDimensions(0, 6)))));
}

#[test]
fn texture_delete_queues_one_call() {
    let mut context = idle_context(false);
    let texture = Texture { id: 5, format: glow::RGBA8, width: 1, height: 1, handle: None };
    texture.delete(&mut context);
    assert_eq!(context.take_commands(), vec![Command::DeleteTexture { texture: 5 }]);
}

fn frame_buffer_setup(id: u32, width: i32, height: i32) -> Vec<Command> {
    let mut expected = vec![Command::CreateFramebuffer { framebuffer: id }];
    expected.extend(texture_setup(id + 1, width, height, glow::RGBA8));
    expected.extend(texture_setup(id + 2, width, height, glow::DEPTH_COMPONENT24));
    expected.push(Command::NamedFramebufferTexture {
        framebuffer: id,
        attachment: glow::COLOR_ATTACHMENT0,
        texture: id + 1,
        level: 0,
    });
    expected.push(Command::NamedFramebufferTexture {
        framebuffer: id,
        attachment: glow::DEPTH_ATTACHMENT,
        texture: id + 2,
        level: 0,
    });
    expected.push(Command::CheckNamedFramebufferStatus { framebuffer: id, target: glow::FRAMEBUFFER });
    expected
}

#[test]
fn frame_buffer_is_made_of_two_textures_and_checked() {
    let mut context = idle_context(false);
    let seen = RefCell::new(Vec::new());
    let frame_buffer = FrameBuffer::begin(&mut context, 400, 300)
        .settle(&mut context, &|command: &Command| {
            seen.borrow_mut().push(command.clone());
            healthy(command)
        })
        .unwrap();
    assert_eq!(frame_buffer.id, 1);
    assert_eq!((frame_buffer.width, frame_buffer.height), (400, 300));
    assert_eq!(
        frame_buffer.texture,
        Texture { id: 2, format: glow::RGBA8, width: 400, height: 300, handle: None }
    );
    assert_eq!(
        frame_buffer.depth_texture,
        Texture { id: 3, format: glow::DEPTH_COMPONENT24, width: 400, height: 300, handle: None }
    );
    let mut expected = frame_buffer_setup(1, 400, 300);
    expected.push(Command::BindFramebuffer { target: glow::FRAMEBUFFER, framebuffer: None });
    assert_eq!(seen.into_inner(), expected);
    assert_eq!(context.target(), None);
}

#[test]
fn frame_buffer_of_any_positive_size_is_complete_when_the_driver_says_so() {
    for (width, height) in [(1, 1), (1, 4096), (4096, 1), (400, 300), (i32::MAX, i32::MAX)] {
        let mut context = idle_context(true);
        let checked = RefCell::new(0);
        let frame_buffer = FrameBuffer::begin(&mut context, width, height)
            .settle(&mut context, &|command: &Command| {
                if matches!(command, Command::CheckNamedFramebufferStatus { .. }) {
                    *checked.borrow_mut() += 1;
                }
                healthy(command)
            })
            .unwrap();
        assert_eq!(checked.into_inner(), 1);
        assert_eq!((frame_buffer.width, frame_buffer.height), (width, height));
    }
}

#[test]
fn frame_buffer_of_no_size_fails() {
    let mut context = idle_context(false);
    for (width, height) in [(0, 300), (400, 0), (0, 0), (-400, 300)] {
        let calls = RefCell::new(0);
        let outcome = FrameBuffer::begin(&mut context, width, height).settle(&mut context, &|command: &Command| {
            *calls.borrow_mut() += 1;
            healthy(command)
        });
        assert_eq!(outcome, Err(ResourceError::InvalidDimensions(width, height)));
        assert_eq!(calls.into_inner(), 0);
    }
    assert_eq!(context.handles_left(), u32::MAX - 1);
}

#[test]
fn incomplete_frame_buffer_is_reported_and_taken_apart() {
    let mut context = idle_context(false);
    let seen = RefCell::new(Vec::new());
    let outcome = FrameBuffer::begin(&mut context, 4, 4).settle(&mut context, &|command: &Command| {
        seen.borrow_mut().push(command.clone());
        match command {
            Command::CheckNamedFramebufferStatus { .. } => {
                Reply::Status(glow::FRAMEBUFFER_INCOMPLETE_ATTACHMENT)
            }
            _ => Reply::Done,
        }
    });
    assert_eq!(
        outcome,
        Err(ResourceError::IncompleteFramebuffer(glow::FRAMEBUFFER_INCOMPLETE_ATTACHMENT))
    );
    let seen = seen.into_inner();
    let mut expected = frame_buffer_setup(1, 4, 4);
    expected.push(Command::DeleteTexture { texture: 3 });
    expected.push(Command::DeleteTexture { texture: 2 });
    expected.push(Command::DeleteFramebuffer { framebuffer: 1 });
    assert_eq!(seen, expected);
    assert_eq!(creations(&seen), 3);
    assert_eq!(deletions(&seen), 3);
}

#[test]
fn frame_buffer_whose_depth_texture_is_refused_deletes_what_it_made() {
    let mut context = idle_context(false);
    let seen = RefCell::new(Vec::new());
    let outcome = FrameBuffer::begin(&mut context, 4, 4).settle(&mut context, &|command: &Command| {
        seen.borrow_mut().push(command.clone());
        match command {
            Command::CreateTexture { texture: 3, .. } => Reply::Failed("full".to_string()),
            _ => healthy(command),
        }
    });
    assert_eq!(outcome, Err(ResourceError::AllocationFailed("full".to_string())));
    let seen = seen.into_inner();
    assert_eq!(
        &seen[seen.len() - 3..],
        &[
            Command::CreateTexture { texture: 3, target: glow::TEXTURE_2D },
            Command::DeleteTexture { texture: 2 },
            Command::DeleteFramebuffer { framebuffer: 1 },
        ]
    );
}

#[test]
fn frame_buffer_is_refused_when_fewer_than_three_handles_are_left() {
    let mut context = idle_context(false);
    context.reserve(u32::MAX - 3);
    assert_eq!(context.handles_left(), 2);
    let progress = FrameBuffer::begin(&mut context, 4, 4);
    assert!(matches!(progress, Progress::Done(Err(ResourceError::OutOfHandles))));
    assert_eq!(context.handles_left(), 2);
}

#[test]
fn frame_buffer_resize_swaps_the_textures() {
    let mut context = idle_context(false);
    let frame_buffer = FrameBuffer::begin(&mut context, 400, 300).settle(&mut context, &healthy).unwrap();
    let seen = RefCell::new(Vec::new());
    let resized = frame_buffer
        .begin_resize(&mut context, 512, 384)
        .settle(&mut context, &|command: &Command| {
            seen.borrow_mut().push(command.clone());
            healthy(command)
        })
        .unwrap();
    assert_eq!(resized.id, 1);
    assert_eq!((resized.width, resized.height), (512, 384));
    assert_eq!(resized.texture, Texture { id: 4, format: glow::RGBA8, width: 512, height: 384, handle: None });
    assert_eq!(
        resized.depth_texture,
        Texture { id: 5, format: glow::DEPTH_COMPONENT24, width: 512, height: 384, handle: None }
    );
    let mut expected = texture_setup(4, 512, 384, glow::RGBA8);
    expected.extend(texture_setup(5, 512, 384, glow::DEPTH_COMPONENT24));
    expected.push(Command::NamedFramebufferTexture {
        framebuffer: 1,
        attachment: glow::COLOR_ATTACHMENT0,
        texture: 4,
        level: 0,
    });
    expected.push(Command::NamedFramebufferTexture {
        framebuffer: 1,
        attachment: glow::DEPTH_ATTACHMENT,
        texture: 5,
        level: 0,
    });
    expected.push(Command::CheckNamedFramebufferStatus { framebuffer: 1, target: glow::FRAMEBUFFER });
    expected.push(Command::DeleteTexture { texture: 2 });
    expected.push(Command::DeleteTexture { texture: 3 });
    assert_eq!(seen.into_inner(), expected);
}

#[test]
fn resizing_twice_to_one_size_is_resizing_once() {
    let mut context = idle_context(false);
    let frame_buffer = FrameBuffer::begin(&mut context, 400, 300).settle(&mut context, &healthy).unwrap();
    let once = frame_buffer.begin_resize(&mut context, 640, 480).settle(&mut context, &healthy).unwrap();
    let twice = once.begin_resize(&mut context, 640, 480).settle(&mut context, &healthy).unwrap();
    assert_eq!(twice.id, once.id);
    assert_eq!((twice.width, twice.height), (once.width, once.height));
    assert_eq!((twice.width, twice.height), (640, 480));
    assert_eq!(
        (twice.texture.width, twice.texture.height, twice.texture.format),
        (once.texture.width, once.texture.height, once.texture.format)
    );
    assert_eq!(
        (twice.depth_texture.width, twice.depth_texture.height, twice.depth_texture.format),
        (once.depth_texture.width, once.depth_texture.height, once.depth_texture.format)
    );
}

#[test]
fn failed_frame_buffer_resize_puts_the_old_textures_back() {
    let mut context = idle_context(false);
    let frame_buffer = FrameBuffer::begin(&mut context, 400, 300).settle(&mut context, &healthy).unwrap();
    let seen = RefCell::new(Vec::new());
    let outcome = frame_buffer.begin_resize(&mut context, 512, 384).settle(&mut context, &|command: &Command| {
        seen.borrow_mut().push(command.clone());
        match command {
            Command::CheckNamedFramebufferStatus { .. } => Reply::Status(glow::FRAMEBUFFER_UNSUPPORTED),
            _ => Reply::Done,
        }
    });
    assert_eq!(outcome, Err(ResourceError::IncompleteFramebuffer(glow::FRAMEBUFFER_UNSUPPORTED)));
    let seen = seen.into_inner();
    assert_eq!(
        &seen[seen.len() - 4..],
        &[
            Command::NamedFramebufferTexture {
                framebuffer: 1,
                attachment: glow::DEPTH_ATTACHMENT,
                texture: 3,
                level: 0,
            },
            Command::NamedFramebufferTexture {
                framebuffer: 1,
                attachment: glow::COLOR_ATTACHMENT0,
                texture: 2,
                level: 0,
            },
            Command::DeleteTexture { texture: 5 },
            Command::DeleteTexture { texture: 4 },
        ]
    );
    assert_eq!((frame_buffer.width, frame_buffer.height), (400, 300));
    assert_eq!(frame_buffer.texture.id, 2);
    let refused = frame_buffer.begin_resize(&mut context, 0, 384);
    assert!(matches!(refused, Progress::Done(Err(ResourceError::InvalidDimensions(0, 384)))));
}

#[test]
fn bind_and_unbind_set_viewport_and_target() {
    let mut context = idle_context(false);
    let frame_buffer = FrameBuffer::begin(&mut context, 400, 300).settle(&mut context, &healthy).unwrap();
    frame_buffer.bind(&mut context);
    assert_eq!(context.viewport(), Viewport { x: 0, y: 0, width: 400, height: 300 });
    assert_eq!(context.target(), Some(1));
    frame_buffer.unbind(&mut context, 0, 0, 800, 600);
    assert_eq!(context.viewport(), Viewport { x: 0, y: 0, width: 800, height: 600 });
    assert_eq!(context.target(), None);
    assert_eq!(
        context.take_commands(),
        vec![
            Command::Viewport { x: 0, y: 0, width: 400, height: 300 },
            Command::BindFramebuffer { target: glow::FRAMEBUFFER, framebuffer: Some(1) },
            Command::Viewport { x: 0, y: 0, width: 800, height: 600 },
            Command::BindFramebuffer { target: glow::FRAMEBUFFER, framebuffer: None },
        ]
    );
}

#[test]
fn frame_buffer_delete_takes_its_textures_along() {
    let mut context = idle_context(false);
    let frame_buffer = FrameBuffer::begin(&mut context, 4, 4).settle(&mut context, &healthy).unwrap();
    frame_buffer.delete(&mut context);
    assert_eq!(
        context.take_commands(),
        vec![
            Command::DeleteFramebuffer { framebuffer: 1 },
            Command::DeleteTexture { texture: 2 },
            Command::DeleteTexture { texture: 3 },
        ]
    );
}

#[test]
fn status_codes_have_names() {
    assert_eq!(FrameBuffer::print_frame_buffer_status(glow::FRAMEBUFFER_COMPLETE), "Framebuffer complete");
    assert_eq!(FrameBuffer::print_frame_buffer_status(glow::FRAMEBUFFER_UNDEFINED), "Framebuffer undefined");
    assert_eq!(
        FrameBuffer::print_frame_buffer_status(glow::FRAMEBUFFER_INCOMPLETE_ATTACHMENT),
        "Incomplete attachment"
    );
    assert_eq!(
        FrameBuffer::print_frame_buffer_status(glow::FRAMEBUFFER_INCOMPLETE_MISSING_ATTACHMENT),
        "Incomplete attachment"
    );
    assert_eq!(
        FrameBuffer::print_frame_buffer_status(glow::FRAMEBUFFER_INCOMPLETE_DRAW_BUFFER),
        "Incomplete draw buffer"
    );
    assert_eq!(
        FrameBuffer::print_frame_buffer_status(glow::FRAMEBUFFER_INCOMPLETE_READ_BUFFER),
        "Incomplete read buffer"
    );
    assert_eq!(FrameBuffer::print_frame_buffer_status(glow::FRAMEBUFFER_UNSUPPORTED), "Framebuffer unsupported");
    assert_eq!(
        FrameBuffer::print_frame_buffer_status(glow::FRAMEBUFFER_INCOMPLETE_MULTISAMPLE),
        "Incomplete multisample"
    );
    assert_eq!(
        FrameBuffer::print_frame_buffer_status(glow::FRAMEBUFFER_INCOMPLETE_LAYER_TARGETS),
        "Incomplete layer targets"
    );
    assert_eq!(FrameBuffer::print_frame_buffer_status(0), "Unknown framebuffer error");
    assert_eq!(FrameBuffer::print_frame_buffer_status(12345), "Unknown framebuffer error");
}

#[test]
fn vertex_buffer_uploads_the_bytes_of_the_floats() {
    let mut context = idle_context(false);
    let floats: [f32; 6] = [-1.0, 0.5, 0.0, 1.0, -0.25, 2.0];
    let words: Vec<u32> = floats.iter().map(|float| float.to_bits()).collect();
    let seen = RefCell::new(Vec::new());
    let buffer = VertexBuffer::begin(&mut context, &words)
        .settle(&mut context, &|command: &Command| {
            seen.borrow_mut().push(command.clone());
            Reply::Done
        })
        .unwrap();
    assert_eq!(buffer, VertexBuffer { id: 1, vertex_count: 2 });
    let bytes: &[u8] = bytemuck::cast_slice(&floats);
    assert_eq!(bytes.len(), 24);
    let native: Vec<u8> = floats.iter().flat_map(|float| float.to_ne_bytes()).collect();
    let little: Vec<u8> = words.iter().flat_map(|word| word.to_le_bytes()).collect();
    let big: Vec<u8> = words.iter().flat_map(|word| word.to_be_bytes()).collect();
    assert_eq!(bytes, &native[..]);
    assert!(native == little || native == big);
    assert_eq!(
        seen.into_inner(),
        vec![
            Command::CreateBuffer { buffer: 1 },
            Command::NamedBufferData { buffer: 1, data: native, usage: glow::STATIC_DRAW },
        ]
    );
}

#[test]
fn vertex_count_rounds_down() {
    let mut context = idle_context(false);
    for (words, count) in [(0usize, 0), (1, 0), (2, 0), (3, 1), (5, 1), (12, 4), (13, 4)] {
        let buffer = VertexBuffer::begin(&mut context, &vec![0u32; words])
            .settle(&mut context, &healthy)
            .unwrap();
        assert_eq!(buffer.vertex_count, count);
    }
}

#[test]
fn refused_vertex_buffer_is_an_allocation_failure() {
    let mut context = idle_context(false);
    let outcome = VertexBuffer::begin(&mut context, &[0, 0, 0])
        .settle(&mut context, &|_: &Command| Reply::Failed("Unable to create Buffer object".to_string()));
    assert_eq!(
        outcome,
        Err(ResourceError::AllocationFailed("Unable to create Buffer object".to_string()))
    );
    context.reserve(u32::MAX - 2);
    assert!(matches!(
        VertexBuffer::begin(&mut context, &[0, 0, 0]),
        Progress::Done(Err(ResourceError::OutOfHandles))
    ));
}

#[test]
fn vertex_array_describes_three_floats_per_vertex() {
    let mut context = idle_context(false);
    let buffer = VertexBuffer::begin(&mut context, &[0; 12]).settle(&mut context, &healthy).unwrap();
    let seen = RefCell::new(Vec::new());
    let vertex_array = VertexArray::begin(&mut context, buffer)
        .settle(&mut context, &|command: &Command| {
            seen.borrow_mut().push(command.clone());
            Reply::Done
        })
        .unwrap();
    assert_eq!(vertex_array, VertexArray { id: 2, vertex_buffer: VertexBuffer { id: 1, vertex_count: 4 } });
    assert_eq!(
        seen.into_inner(),
        vec![
            Command::CreateVertexArray { vertex_array: 2 },
            Command::VertexArrayAttribFormatF32 {
                vertex_array: 2,
                index: 0,
                size: 3,
                data_type: glow::FLOAT,
                normalized: false,
                relative_offset: 0,
            },
            Command::VertexArrayVertexBuffer {
                vertex_array: 2,
                binding_index: 0,
                buffer: 1,
                offset: 0,
                stride: 12,
            },
            Command::VertexArrayAttribBindingF32 { vertex_array: 2, index: 0, binding_index: 0 },
            Command::EnableVertexArrayAttrib { vertex_array: 2, index: 0 },
        ]
    );
}

#[test]
fn refused_vertex_array_deletes_the_buffer_it_took_over() {
    let mut context = idle_context(false);
    let buffer = VertexBuffer { id: 7, vertex_count: 4 };
    let seen = RefCell::new(Vec::new());
    let outcome = VertexArray::begin(&mut context, buffer).settle(&mut context, &|command: &Command| {
        seen.borrow_mut().push(command.clone());
        match command {
            Command::CreateVertexArray { .. } => Reply::Failed("no".to_string()),
            _ => Reply::Done,
        }
    });
    assert_eq!(outcome, Err(ResourceError::AllocationFailed("no".to_string())));
    assert_eq!(
        seen.into_inner(),
        vec![Command::CreateVertexArray { vertex_array: 1 }, Command::DeleteBuffer { buffer: 7 }]
    );
    context.reserve(u32::MAX - 2);
    let progress = VertexArray::begin(&mut context, VertexBuffer { id: 8, vertex_count: 4 });
    assert!(matches!(progress, Progress::Done(Err(ResourceError::OutOfHandles))));
    assert_eq!(context.take_commands(), vec![Command::DeleteBuffer { buffer: 8 }]);
}

#[test]
fn vertex_array_draws_every_vertex() {
    let mut context = idle_context(false);
    let vertex_array = VertexArray { id: 2, vertex_buffer: VertexBuffer { id: 1, vertex_count: 4 } };
    vertex_array.bind(&mut context);
    vertex_array.draw(&mut context, glow::TRIANGLE_FAN);
    assert_eq!(
        context.take_commands(),
        vec![
            Command::BindVertexArray { vertex_array: Some(2) },
            Command::BindVertexArray { vertex_array: Some(2) },
            Command::DrawArrays { mode: glow::TRIANGLE_FAN, first: 0, count: 4 },
        ]
    );
    vertex_array.delete(&mut context);
    assert_eq!(
        context.take_commands(),
        vec![Command::DeleteVertexArray { vertex_array: 2 }, Command::DeleteBuffer { buffer: 1 }]
    );
}

#[test]
fn pipeline_is_made_of_two_stages_and_validated() {
    let mut context = idle_context(false);
    let vertex = seagull::program::Shader::begin(&mut context, glow::VERTEX_SHADER, "void main() {}")
        .settle(&mut context, &healthy)
        .unwrap();
    let fragment = seagull::program::Shader::begin(&mut context, glow::FRAGMENT_SHADER, "void main() {}")
        .settle(&mut context, &healthy)
        .unwrap();
    let seen = RefCell::new(Vec::new());
    let pipeline = Pipeline::begin(&mut context, &vertex, &fragment)
        .settle(&mut context, &|command: &Command| {
            seen.borrow_mut().push(command.clone());
            healthy(command)
        })
        .unwrap();
    assert_eq!(pipeline, Pipeline { id: 3 });
    assert_eq!(
        seen.into_inner(),
        vec![
            Command::CreateProgramPipeline { pipeline: 3 },
            Command::UseProgramStages { pipeline: 3, stages: glow::VERTEX_SHADER_BIT, program: 1 },
            Command::UseProgramStages { pipeline: 3, stages: glow::FRAGMENT_SHADER_BIT, program: 2 },
            Command::ValidateProgramPipeline { pipeline: 3 },
            Command::GetProgramPipelineInfoLog { pipeline: 3 },
            Command::GetProgramPipelineValidateStatus { pipeline: 3 },
        ]
    );
    pipeline.use_shader(&mut context, glow::FRAGMENT_SHADER_BIT, 9);
    pipeline.bind(&mut context);
    assert_eq!(
        context.take_commands(),
        vec![
            Command::UseProgramStages { pipeline: 3, stages: glow::FRAGMENT_SHADER_BIT, program: 9 },
            Command::ValidateProgramPipeline { pipeline: 3 },
            Command::BindProgramPipeline { pipeline: 3 },
        ]
    );
    pipeline.delete(&mut context);
    assert_eq!(context.take_commands(), vec![Command::DeleteProgramPipeline { pipeline: 3 }]);
}

#[test]
fn invalid_pipeline_is_reported_with_its_log_and_deleted() {
    let mut context = idle_context(false);
    let vertex = seagull::program::Shader { id: 10, stage: glow::VERTEX_SHADER };
    let fragment = seagull::program::Shader { id: 11, stage: glow::FRAGMENT_SHADER };
    let seen = RefCell::new(Vec::new());
    let outcome = Pipeline::begin(&mut context, &vertex, &fragment).settle(&mut context, &|command: &Command| {
        seen.borrow_mut().push(command.clone());
        match command {
            Command::GetProgramPipelineInfoLog { .. } => Reply::Text("stages do not match".to_string()),
            Command::GetProgramPipelineValidateStatus { .. } => Reply::Flag(false),
            _ => Reply::Done,
        }
    });
    assert_eq!(outcome, Err(ResourceError::PipelineInvalid("stages do not match".to_string())));
    let seen = seen.into_inner();
    assert_eq!(seen.last(), Some(&Command::DeleteProgramPipeline { pipeline: 1 }));
    assert_eq!(creations(&seen), deletions(&seen));
}

#[test]
fn uniform_calls_name_program_and_location() {
    let mut context = idle_context(true);
    let shader = seagull::program::Shader { id: 4, stage: glow::FRAGMENT_SHADER };
    let location = UniformLocation { slot: 6 };
    shader.uniform_1f(&mut context, location, 2.5f32.to_bits());
    shader.uniform_1i(&mut context, location, -3);
    assert!(shader.uniform_1ui_arb(&mut context, location, 77));
    assert_eq!(
        context.take_commands(),
        vec![
            Command::ProgramUniform1F32 { program: 4, location: 6, bits: 2.5f32.to_bits() },
            Command::ProgramUniform1I32 { program: 4, location: 6, value: -3 },
            Command::ProgramUniformHandle { program: 4, location: 6, handle: 77 },
        ]
    );
    let mut plain = idle_context(false);
    assert!(!shader.uniform_1ui_arb(&mut plain, location, 77));
    assert_eq!(plain.queued(), 0);
    shader.delete(&mut plain);
    assert_eq!(plain.take_commands(), vec![Command::DeleteProgram { program: 4 }]);
}

#[test]
fn more_vertices_than_a_draw_call_counts_are_refused() {
    assert_eq!(VertexBuffer::vertex_count(0), Ok(0));
    assert_eq!(VertexBuffer::vertex_count(14), Ok(4));
    assert_eq!(VertexBuffer::vertex_count(3 * i32::MAX as usize + 2), Ok(i32::MAX));
    assert_eq!(
        VertexBuffer::vertex_count(3 * i32::MAX as usize + 3),
        Err(ResourceError::TooManyVertices(i32::MAX as usize + 1))
    );
    assert_eq!(
        VertexBuffer::vertex_count(usize::MAX),
        Err(ResourceError::TooManyVertices(usize::MAX / 3))
    );
}

#[test]
fn texture_is_resized_in_place() {
    let mut context = idle_context(false);
    let mut texture = Texture::new(&mut context, &healthy, 4, 2, glow::RGBA8).unwrap();
    assert_eq!(texture, Texture { id: 1, format: glow::RGBA8, width: 4, height: 2, handle: None });
    let seen = RefCell::new(Vec::new());
    let recording = |command: &Command| {
        seen.borrow_mut().push(command.clone());
        Reply::Done
    };
    assert_eq!(texture.resize(&mut context, &recording, 16, 8), Ok(()));
    assert_eq!(texture, Texture { id: 2, format: glow::RGBA8, width: 16, height: 8, handle: None });
    assert_eq!(seen.borrow().last(), Some(&Command::DeleteTexture { texture: 1 }));
    assert_eq!(
        texture.resize(&mut context, &recording, 16, 0),
        Err(ResourceError::InvalidDimensions(16, 0))
    );
    let refusing = |_: &Command| Reply::Failed("no".to_string());
    assert_eq!(
        texture.resize(&mut context, &refusing, 32, 32),
        Err(ResourceError::AllocationFailed("no".to_string()))
    );
    assert_eq!(texture, Texture { id: 2, format: glow::RGBA8, width: 16, height: 8, handle: None });
}

#[test]
fn frame_buffer_is_resized_in_place_and_keeps_its_handle() {
    let mut context = idle_context(false);
    let mut frame_buffer = FrameBuffer::new(&mut context, &healthy, 400, 300).unwrap();
    assert_eq!(frame_buffer.resize(&mut context, &healthy, 512, 384), Ok(()));
    assert_eq!(frame_buffer.id, 1);
    assert_eq!((frame_buffer.width, frame_buffer.height), (512, 384));
    assert_eq!((frame_buffer.texture.id, frame_buffer.depth_texture.id), (4, 5));
    assert_eq!(frame_buffer.resize(&mut context, &healthy, 512, 384), Ok(()));
    assert_eq!(frame_buffer.id, 1);
    assert_eq!((frame_buffer.width, frame_buffer.height), (512, 384));
    assert_eq!((frame_buffer.texture.id, frame_buffer.depth_texture.id), (6, 7));
    assert_eq!(context.viewport(), Viewport { x: 0, y: 0, width: 800, height: 600 });
    assert_eq!(context.target(), None);
    assert_eq!(context.queued(), 0);
}

#[test]
fn frame_buffer_of_no_size_is_never_made() {
    let mut context = idle_context(false);
    let calls = RefCell::new(0);
    let counting = |command: &Command| {
        *calls.borrow_mut() += 1;
        healthy(command)
    };
    assert_eq!(
        FrameBuffer::new(&mut context, &counting, 0, 600),
        Err(ResourceError::InvalidDimensions(0, 600))
    );
    assert_eq!(
        FrameBuffer::new(&mut context, &counting, 800, 0),
        Err(ResourceError::InvalidDimensions(800, 0))
    );
    assert_eq!(calls.into_inner(), 0);
    assert!(FrameBuffer::new(&mut context, &healthy, 800, 600).is_ok());
}

#[test]
fn objects_are_made_in_one_call_each() {
    let mut context = idle_context(false);
    let buffer = VertexBuffer::new(&mut context, &healthy, &[0; 12]).unwrap();
    let vertex_array = VertexArray::new(&mut context, &healthy, buffer).unwrap();
    assert_eq!(vertex_array, VertexArray { id: 2, vertex_buffer: VertexBuffer { id: 1, vertex_count: 4 } });
    let vertex = seagull::program::Shader::new(&mut context, &healthy, glow::VERTEX_SHADER, "v").unwrap();
    let fragment = seagull::program::Shader::new(&mut context, &healthy, glow::FRAGMENT_SHADER, "f").unwrap();
    let pipeline = Pipeline::new(&mut context, &healthy, &vertex, &fragment).unwrap();
    assert_eq!(pipeline, Pipeline { id: 5 });
    assert_eq!(fragment.get_loc(&mut context, &healthy, "Elapsed"), Ok(UniformLocation { slot: 6 }));
    let missing = |command: &Command| match command {
        Command::GetUniformLocation { .. } => Reply::Flag(false),
        _ => healthy(command),
    };
    assert_eq!(
        fragment.get_loc(&mut context, &missing, "Elapsed"),
        Err(ResourceError::UniformNotFound("Elapsed".to_string()))
    );
    assert_eq!(context.queued(), 0);
}
