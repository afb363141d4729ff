use seagull::app::AppContext;
use seagull::command::{Command, Reply, Size, Viewport};
use seagull::effects::{Chain, Effect, Scale};
use seagull::error::ResourceError;
use seagull::extensions::Extensions;
use seagull::frame_buffer::FrameBuffer;
use seagull::pixelate::{Pixelate, PixelateSources};
use seagull::voronoi::{Voronoi, VoronoiSources};
use std::cell::RefCell;
use std::collections::BTreeSet;

#[derive(Default)]
struct Machine {
    textures: BTreeSet<u32>,
    framebuffers: BTreeSet<u32>,
    shaders: BTreeSet<u32>,
    programs: BTreeSet<u32>,
    pipelines: BTreeSet<u32>,
    buffers: BTreeSet<u32>,
    vertex_arrays: BTreeSet<u32>,
    locations: BTreeSet<u32>,
    handles: BTreeSet<u64>,
    viewport: Option<Viewport>,
    target: Option<u32>,
    draws: Vec<(Option<u32>, Viewport)>,
    created: usize,
    deleted: usize,
    refuse: Option<usize>,
    incomplete: bool,
}

impl Machine {
    fn live(&self) -> usize {
        self.textures.len()
            + self.framebuffers.len()
            + self.shaders.len()
            + self.programs.len()
            + self.pipelines.len()
            + self.buffers.len()
            + self.vertex_arrays.len()
    }

    fn create(&mut self, kind: fn(&mut Machine) -> &mut BTreeSet<u32>, handle: u32) -> Reply {
        if self.refuse == Some(self.created) {
            self.refuse = None;
            return Reply::Failed("refused".to_string());
        }
        self.created += 1;
        assert!(kind(self).insert(handle), "handle {handle} is made twice");
        Reply::Done
    }

    fn delete(&mut self, kind: fn(&mut Machine) -> &mut BTreeSet<u32>, handle: u32) -> Reply {
        self.deleted += 1;
        assert!(kind(self).remove(&handle), "handle {handle} is deleted but does not exist");
        Reply::Done
    }

    fn run(&mut self, command: &Command) -> Reply {
        match command {
            Command::Viewport { x, y, width, height } => {
                assert!(*width >= 0 && *height >= 0);
                self.viewport = Some(Viewport { x: *x, y: *y, width: *width, height: *height });
            }
            Command::ClearColor { .. } | Command::Clear { .. } | Command::ActiveTexture { .. } => {}
            Command::CreateTexture { texture, .. } => return self.create(|m| &mut m.textures, *texture),
            Command::TextureStorage2d { texture, width, height, levels, .. } => {
                assert!(self.textures.contains(texture));
                assert!(*width > 0 && *height > 0 && *levels == 1);
            }
            Command::TextureParameterI32 { texture, .. } => assert!(self.textures.contains(texture)),
            Command::BindTexture { texture, .. } => {
                assert!(texture.map_or(true, |texture| self.textures.contains(&texture)))
            }
            Command::DeleteTexture { texture } => return self.delete(|m| &mut m.textures, *texture),
            Command::GetTextureHandle { texture, handle } => {
                assert!(self.textures.contains(texture));
                self.handles.insert(*handle);
            }
            Command::MakeTextureHandleResident { handle } => assert!(self.handles.contains(handle)),
            Command::CreateFramebuffer { framebuffer } => {
                return self.create(|m| &mut m.framebuffers, *framebuffer)
            }
            Command::NamedFramebufferTexture { framebuffer, texture, .. } => {
                assert!(self.framebuffers.contains(framebuffer));
                assert!(self.textures.contains(texture));
            }
            Command::CheckNamedFramebufferStatus { framebuffer, .. } => {
                assert!(self.framebuffers.contains(framebuffer));
                return if self.incomplete {
                    Reply::Status(glow::FRAMEBUFFER_INCOMPLETE_ATTACHMENT)
                } else {
                    Reply::Status(glow::FRAMEBUFFER_COMPLETE)
                };
            }
            Command::BindFramebuffer { framebuffer, .. } => {
                assert!(framebuffer.map_or(true, |framebuffer| self.framebuffers.contains(&framebuffer)));
                self.target = *framebuffer;
            }
            Command::DeleteFramebuffer { framebuffer } => {
                return self.delete(|m| &mut m.framebuffers, *framebuffer)
            }
            Command::CreateShader { shader, .. } => return self.create(|m| &mut m.shaders, *shader),
            Command::ShaderSource { shader, .. } | Command::CompileShader { shader } => {
                assert!(self.shaders.contains(shader))
            }
            Command::GetShaderInfoLog { shader } => {
                assert!(self.shaders.contains(shader));
                return Reply::Text(String::new());
            }
            Command::GetShaderCompileStatus { shader } => {
                assert!(self.shaders.contains(shader));
                return Reply::Flag(true);
            }
            Command::DeleteShader { shader } => return self.delete(|m| &mut m.shaders, *shader),
            Command::CreateProgram { program } | Command::CreateShaderProgram { program, .. } => {
                return self.create(|m| &mut m.programs, *program)
            }
            Command::AttachShader { program, shader } => {
                assert!(self.programs.contains(program) && self.shaders.contains(shader))
            }
            Command::LinkProgram { program } => assert!(self.programs.contains(program)),
            Command::GetProgramInfoLog { program } => {
                assert!(self.programs.contains(program));
                return Reply::Text(String::new());
            }
            Command::GetProgramLinkStatus { program } => {
                assert!(self.programs.contains(program));
                return Reply::Flag(true);
            }
            Command::UseProgram { program } => {
                assert!(program.map_or(true, |program| self.programs.contains(&program)))
            }
            Command::DeleteProgram { program } => return self.delete(|m| &mut m.programs, *program),
            Command::GetUniformLocation { program, location, .. } => {
                assert!(self.programs.contains(program));
                self.locations.insert(*location);
                return Reply::Flag(true);
            }
            Command::Uniform1I32 { location, .. }
            | Command::Uniform1F32 { location, .. }
            | Command::Uniform2F32Slice { location, .. } => assert!(self.locations.contains(location)),
            Command::ProgramUniform1I32 { program, location, .. }
            | Command::ProgramUniform1F32 { program, location, .. } => {
                assert!(self.programs.contains(program) && self.locations.contains(location))
            }
            Command::ProgramUniformHandle { program, location, handle } => {
                assert!(self.programs.contains(program) && self.locations.contains(location));
                assert!(self.handles.contains(handle));
            }
            Command::CreateProgramPipeline { pipeline } => {
                return self.create(|m| &mut m.pipelines, *pipeline)
            }
            Command::UseProgramStages { pipeline, program, .. } => {
                assert!(self.pipelines.contains(pipeline) && self.programs.contains(program))
            }
            Command::ValidateProgramPipeline { pipeline } | Command::BindProgramPipeline { pipeline } => {
                assert!(self.pipelines.contains(pipeline))
            }
            Command::GetProgramPipelineInfoLog { pipeline } => {
                assert!(self.pipelines.contains(pipeline));
                return Reply::Text(String::new());
            }
            Command::GetProgramPipelineValidateStatus { pipeline } => {
                assert!(self.pipelines.contains(pipeline));
                return Reply::Flag(true);
            }
            Command::DeleteProgramPipeline { pipeline } => {
                return self.delete(|m| &mut m.pipelines, *pipeline)
            }
            Command::CreateBuffer { buffer } => return self.create(|m| &mut m.buffers, *buffer),
            Command::NamedBufferData { buffer, .. } => assert!(self.buffers.contains(buffer)),
            Command::DeleteBuffer { buffer } => return self.delete(|m| &mut m.buffers, *buffer),
            Command::CreateVertexArray { vertex_array } => {
                return self.create(|m| &mut m.vertex_arrays, *vertex_array)
            }
            Command::VertexArrayAttribFormatF32 { vertex_array, .. }
            | Command::VertexArrayAttribBindingF32 { vertex_array, .. }
            | Command::EnableVertexArrayAttrib { vertex_array, .. } => {
                assert!(self.vertex_arrays.contains(vertex_array))
            }
            Command::VertexArrayVertexBuffer { vertex_array, buffer, .. } => {
                assert!(self.vertex_arrays.contains(vertex_array) && self.buffers.contains(buffer))
            }
            Command::BindVertexArray { vertex_array } => {
                assert!(vertex_array.map_or(true, |array| self.vertex_arrays.contains(&array)))
            }
            Command::DeleteVertexArray { vertex_array } => {
                return self.delete(|m| &mut m.vertex_arrays, *vertex_array)
            }
            Command::DrawArrays { count, .. } => {
                assert_eq!(*count, 4);
                self.draws.push((self.target, self.viewport.unwrap()));
            }
        }
        Reply::Done
    }
}

fn pixelate_sources() -> PixelateSources {
    PixelateSources { vertex: "v".to_string(), fragment: "f".to_string(), display: "d".to_string() }
}

fn check_against_model(context: &AppContext, machine: &RefCell<Machine>) {
    assert_eq!(context.queued(), 0);
    assert_eq!(Some(context.viewport()), machine.borrow().viewport);
    assert_eq!(context.target(), machine.borrow().target);
}

#[test]
fn driver_ends_up_where_the_context_says() {
    for bindless in [false, true] {
        let machine = RefCell::new(Machine::default());
        let execute = |command: &Command| machine.borrow_mut().run(command);
        let mut context = AppContext::new(Size { width: 800, height: 600 }, Extensions { bindless });
        let size = context.size();
        let effect = Pixelate::begin(&mut context, &size, Scale { numerator: 2, denominator: 1 }, pixelate_sources())
            .settle(&mut context, &execute)
            .unwrap();
        check_against_model(&context, &machine);
        let target = FrameBuffer::begin(&mut context, 64, 48).settle(&mut context, &execute).unwrap();
        effect.apply(&mut context, None, Some(&target)).unwrap();
        context.flush(&execute);
        check_against_model(&context, &machine);
        assert_eq!(
            machine.borrow().draws,
            vec![
                (Some(effect.fbo.id), Viewport { x: 0, y: 0, width: 400, height: 300 }),
                (Some(target.id), Viewport { x: 0, y: 0, width: 64, height: 48 }),
            ]
        );
        effect.apply(&mut context, None, None).unwrap();
        context.flush(&execute);
        check_against_model(&context, &machine);
        assert_eq!(
            machine.borrow().draws[3],
            (None, Viewport { x: 0, y: 0, width: 800, height: 600 })
        );
        let mut effect = effect;
        effect.resize(&mut context, &execute, &Size { width: 1024, height: 768 }).unwrap();
        assert_eq!((effect.fbo.width, effect.fbo.height), (512, 384));
        check_against_model(&context, &machine);
        assert_eq!(machine.borrow().live(), 9 + 3);
        effect.delete(&mut context);
        target.delete(&mut context);
        context.flush(&execute);
        check_against_model(&context, &machine);
        assert_eq!(machine.borrow().live(), 0);
        assert_eq!(machine.borrow().created, machine.borrow().deleted);
    }
}

#[test]
fn every_refusal_leaves_the_driver_without_objects() {
    for refused in 0..9 {
        let machine = RefCell::new(Machine { refuse: Some(refused), ..Machine::default() });
        let execute = |command: &Command| machine.borrow_mut().run(command);
        let mut context = AppContext::new(Size { width: 800, height: 600 }, Extensions { bindless: true });
        let size = context.size();
        let outcome = Pixelate::begin(&mut context, &size, Scale { numerator: 2, denominator: 1 }, pixelate_sources())
            .settle(&mut context, &execute);
        assert_eq!(outcome, Err(ResourceError::AllocationFailed("refused".to_string())));
        assert_eq!(machine.borrow().live(), 0);
        assert_eq!(machine.borrow().created, refused);
        assert_eq!(machine.borrow().deleted, refused);
        check_against_model(&context, &machine);
    }
    for refused in 0..5 {
        let machine = RefCell::new(Machine { refuse: Some(refused), ..Machine::default() });
        let execute = |command: &Command| machine.borrow_mut().run(command);
        let mut context = AppContext::new(Size { width: 800, height: 600 }, Extensions { bindless: false });
        let sources = VoronoiSources { vertex: "v".to_string(), fragment: "f".to_string() };
        let outcome = Voronoi::begin(&mut context, sources, vec![(0, 0)]).settle(&mut context, &execute);
        assert_eq!(outcome, Err(ResourceError::AllocationFailed("refused".to_string())));
        assert_eq!(machine.borrow().live(), 0);
        assert_eq!(machine.borrow().created, machine.borrow().deleted);
    }
}

#[test]
fn failed_resize_leaves_the_old_target_in_use() {
    let machine = RefCell::new(Machine::default());
    let execute = |command: &Command| machine.borrow_mut().run(command);
    let mut context = AppContext::new(Size { width: 800, height: 600 }, Extensions { bindless: false });
    let mut target = FrameBuffer::new(&mut context, &execute, 64, 48).unwrap();
    let (colour, depth) = (target.texture.id, target.depth_texture.id);
    machine.borrow_mut().incomplete = true;
    assert_eq!(
        target.resize(&mut context, &execute, 256, 192),
        Err(ResourceError::IncompleteFramebuffer(glow::FRAMEBUFFER_INCOMPLETE_ATTACHMENT))
    );
    assert_eq!((target.width, target.height), (64, 48));
    assert_eq!((target.texture.id, target.depth_texture.id), (colour, depth));
    machine.borrow_mut().incomplete = false;
    machine.borrow_mut().incomplete = true;
    let outcome = target.begin_resize(&mut context, 128, 96).settle(&mut context, &execute);
    assert_eq!(
        outcome,
        Err(ResourceError::IncompleteFramebuffer(glow::FRAMEBUFFER_INCOMPLETE_ATTACHMENT))
    );
    assert_eq!(machine.borrow().live(), 3);
    assert!(machine.borrow().textures.contains(&target.texture.id));
    assert!(machine.borrow().textures.contains(&target.depth_texture.id));
    let made = machine.borrow().created;
    machine.borrow_mut().refuse = Some(made + 1);
    machine.borrow_mut().incomplete = false;
    let outcome = target.begin_resize(&mut context, 128, 96).settle(&mut context, &execute);
    assert_eq!(outcome, Err(ResourceError::AllocationFailed("refused".to_string())));
    assert_eq!(machine.borrow().live(), 3);
    target.bind(&mut context);
    target.unbind(&mut context, 0, 0, 800, 600);
    target.delete(&mut context);
    context.flush(&execute);
    assert_eq!(machine.borrow().live(), 0);
    check_against_model(&context, &machine);
}

#[test]
fn voronoi_and_chain_run_on_the_model_driver() {
    let machine = RefCell::new(Machine::default());
    let execute = |command: &Command| machine.borrow_mut().run(command);
    let mut context = AppContext::new(Size { width: 800, height: 600 }, Extensions { bindless: false });
    let sources = VoronoiSources { vertex: "v".to_string(), fragment: "f".to_string() };
    let first = Voronoi::begin(&mut context, sources, vec![(1, 2), (3, 4)])
        .settle(&mut context, &execute)
        .unwrap();
    let sources = VoronoiSources { vertex: "v".to_string(), fragment: "f".to_string() };
    let second = Voronoi::begin(&mut context, sources, vec![]).settle(&mut context, &execute).unwrap();
    assert_eq!(machine.borrow().shaders.len(), 0);
    let link = FrameBuffer::begin(&mut context, 800, 600).settle(&mut context, &execute).unwrap();
    let link_id = link.id;
    let mut chain = Chain::new(first);
    chain.push(link, second);
    chain.apply(&mut context).unwrap();
    context.flush(&execute);
    check_against_model(&context, &machine);
    assert_eq!(
        machine.borrow().draws,
        vec![
            (Some(link_id), Viewport { x: 0, y: 0, width: 800, height: 600 }),
            (None, Viewport { x: 0, y: 0, width: 800, height: 600 }),
        ]
    );
}
