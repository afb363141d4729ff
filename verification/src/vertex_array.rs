//! Vertex arrays: a vertex buffer together with the layout of its contents.
use vstd::prelude::*;
use crate::app::{AppContext, ContextView};
use crate::command::{Command, Reply};
use crate::error::ResourceError;
use crate::gl::FLOAT;
use crate::pending::{disciplined, Progress, Step};
use crate::vertex_buffer::VertexBuffer;

verus! {

/// The bytes from one vertex to the next: three floats of four bytes.
pub const VERTEX_STRIDE: i32 = 12;

/// A vertex array on the GPU, owned by this value together with the buffer
/// that it reads. Attribute 0 is the position: three floats, tightly packed.
#[derive(Debug, PartialEq, Eq)]
pub struct VertexArray {
    /// The handle of the vertex array.
    pub id: u32,
    /// The buffer that the positions are read from.
    pub vertex_buffer: VertexBuffer,
}

impl VertexArray {
    /// The calls that make this vertex array: create it, describe the
    /// position attribute, bind the buffer to binding 0, tie the attribute
    /// to that binding, and enable the attribute.
    pub open spec fn setup(self) -> Seq<Step> {
        seq![
            Step::creating(
                Command::CreateVertexArray { vertex_array: self.id },
                Command::DeleteVertexArray { vertex_array: self.id },
            ),
            Step::plain(
                Command::VertexArrayAttribFormatF32 {
                    vertex_array: self.id,
                    index: 0,
                    size: 3,
                    data_type: FLOAT,
                    normalized: false,
                    relative_offset: 0,
                },
            ),
            Step::plain(
                Command::VertexArrayVertexBuffer {
                    vertex_array: self.id,
                    binding_index: 0,
                    buffer: self.vertex_buffer.id,
                    offset: 0,
                    stride: VERTEX_STRIDE,
                },
            ),
            Step::plain(
                Command::VertexArrayAttribBindingF32 {
                    vertex_array: self.id,
                    index: 0,
                    binding_index: 0,
                },
            ),
            Step::plain(Command::EnableVertexArrayAttrib { vertex_array: self.id, index: 0 }),
        ]
    }

    /// The plan that makes a vertex array accounts for the one object it
    /// makes.
    pub proof fn lemma_setup_disciplined(self)
        ensures
            disciplined(self.setup()),
    {
    }

    /// The calls that draw this vertex array's vertices as `mode`.
    pub open spec fn drawing(self, mode: u32) -> Seq<Command> {
        seq![
            Command::BindVertexArray { vertex_array: Some(self.id) },
            Command::DrawArrays { mode, first: 0, count: self.vertex_buffer.vertex_count },
        ]
    }

    /// Appends to `steps` the calls that make the vertex array of handle
    /// `id` over `vertex_buffer`, and returns that vertex array.
    pub(crate) fn stage(steps: &mut Vec<Step>, id: u32, vertex_buffer: VertexBuffer) -> (vertex_array:
        VertexArray)
        ensures
            vertex_array == (VertexArray { id, vertex_buffer }),
            final(steps)@ == old(steps)@ + vertex_array.setup(),
    {
        let ghost before = steps@;
        let vertex_array = VertexArray { id, vertex_buffer };
        steps.push(
            Step::creating(
                Command::CreateVertexArray { vertex_array: id },
                Command::DeleteVertexArray { vertex_array: id },
            ),
        );
        steps.push(
            Step::plain(
                Command::VertexArrayAttribFormatF32 {
                    vertex_array: id,
                    index: 0,
                    size: 3,
                    data_type: FLOAT,
                    normalized: false,
                    relative_offset: 0,
                },
            ),
        );
        steps.push(
            Step::plain(
                Command::VertexArrayVertexBuffer {
                    vertex_array: id,
                    binding_index: 0,
                    buffer: vertex_array.vertex_buffer.id,
                    offset: 0,
                    stride: VERTEX_STRIDE,
                },
            ),
        );
        steps.push(
            Step::plain(
                Command::VertexArrayAttribBindingF32 {
                    vertex_array: id,
                    index: 0,
                    binding_index: 0,
                },
            ),
        );
        steps.push(Step::plain(Command::EnableVertexArrayAttrib { vertex_array: id, index: 0 }));
        assert(steps@ =~= before + vertex_array.setup());
        vertex_array
    }

    /// Whether `progress` is the work of making a vertex array over
    /// `vertex_buffer` when the context is `earlier`, and `planned` the
    /// context once the work is laid out.
    ///
    /// The work is [`VertexArray::setup`], and takes one handle. When the
    /// work fails, the call that deletes the buffer is queued after those
    /// that take the work back. When no handle is left the work is done at
    /// once, with that error, and the call that deletes the buffer is
    /// queued.
    pub open spec fn begins(
        earlier: ContextView,
        vertex_buffer: VertexBuffer,
        progress: Progress<VertexArray>,
        planned: ContextView,
    ) -> bool {
        if earlier.handles_left() >= 1 {
            &&& planned == earlier.taking(1)
            &&& progress.starts(
                VertexArray { id: earlier.next, vertex_buffer },
                (VertexArray { id: earlier.next, vertex_buffer }).setup(),
                Seq::empty(),
                seq![Command::DeleteBuffer { buffer: vertex_buffer.id }],
            )
        } else {
            &&& planned == earlier.submit(Command::DeleteBuffer { buffer: vertex_buffer.id })
            &&& progress == Progress::Done(
                Err::<VertexArray, ResourceError>(ResourceError::OutOfHandles),
            )
        }
    }

    /// Starts making a vertex array over `vertex_buffer`, which it takes
    /// over, and leaves the calls to whoever carries the work on.
    pub fn begin(context: &mut AppContext, vertex_buffer: VertexBuffer) -> (progress: Progress<
        VertexArray,
    >)
        ensures
            VertexArray::begins(old(context)@, vertex_buffer, progress, final(context)@),
    {
        let id = match context.reserve(1) {
            Some(id) => id,
            None => {
                vertex_buffer.delete(context);
                return Progress::Done(Err(ResourceError::OutOfHandles));
            },
        };
        let mut abort: Vec<Command> = Vec::new();
        abort.push(Command::DeleteBuffer { buffer: vertex_buffer.id });
        assert(abort@ =~= seq![Command::DeleteBuffer { buffer: vertex_buffer.id }]);
        let mut steps: Vec<Step> = Vec::new();
        let vertex_array = VertexArray::stage(&mut steps, id, vertex_buffer);
        assert(steps@ =~= vertex_array.setup());
        Progress::begin(context, vertex_array, steps, Vec::new(), abort)
    }

    /// Makes a vertex array over `vertex_buffer`, which it takes over, with
    /// `execute` to carry out the calls.
    ///
    /// The work is that of [`VertexArray::begin`], carried through as
    /// [`Progress::settle`] does: when no vertex array comes of it, the
    /// buffer is deleted.
    pub fn new<F: Fn(&Command) -> Reply>(
        context: &mut AppContext,
        execute: &F,
        vertex_buffer: VertexBuffer,
    ) -> (outcome: Result<VertexArray, ResourceError>)
        requires
            forall|command: &Command| call_requires(*execute, (command,)),
        ensures
            exists|progress: Progress<VertexArray>, planned: ContextView|
                {
                    &&& VertexArray::begins(old(context)@, vertex_buffer, progress, planned)
                    &&& #[trigger] progress.settles_as(
                        *execute,
                        planned,
                        final(context)@,
                        outcome,
                    )
                },
    {
        VertexArray::begin(context, vertex_buffer).settle(context, execute)
    }

    /// Queues the call that makes this the vertex array that draw calls
    /// read.
    pub fn bind(&self, context: &mut AppContext)
        ensures
            final(context)@ == old(context)@.submit(
                Command::BindVertexArray { vertex_array: Some(self.id) },
            ),
    {
        context.submit(Command::BindVertexArray { vertex_array: Some(self.id) });
    }

    /// Queues the calls that draw every vertex of the buffer as `mode`.
    pub fn draw(&self, context: &mut AppContext, mode: u32)
        ensures
            final(context)@ == old(context)@.submit(
                Command::BindVertexArray { vertex_array: Some(self.id) },
            ).submit(
                Command::DrawArrays { mode, first: 0, count: self.vertex_buffer.vertex_count },
            ),
    {
        self.bind(context);
        context.submit(
            Command::DrawArrays { mode, first: 0, count: self.vertex_buffer.vertex_count },
        );
    }

    /// Queues the calls that delete the vertex array and then its buffer,
    /// and gives the value up.
    pub fn delete(self, context: &mut AppContext)
        ensures
            final(context)@ == old(context)@.submit(
                Command::DeleteVertexArray { vertex_array: self.id },
            ).submit(Command::DeleteBuffer { buffer: self.vertex_buffer.id }),
    {
        context.submit(Command::DeleteVertexArray { vertex_array: self.id });
        self.vertex_buffer.delete(context);
    }
}

} // verus!
