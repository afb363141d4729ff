//! Buffers of vertex positions.
use vstd::prelude::*;
use crate::app::{AppContext, ContextView};
use crate::command::{Command, Reply};
use crate::error::ResourceError;
use crate::gl::STATIC_DRAW;
use crate::pending::{disciplined, Progress, Step};

verus! {

/// How many numbers make up one vertex.
pub const COMPONENTS: usize = 3;

/// The largest number that a draw call can count to.
pub const MAX_VERTICES: usize = 0x7FFF_FFFF;

/// Byte `index` of `word`, counted from the least significant.
pub open spec fn byte_of(word: u32, index: int) -> u8 {
    if index == 0 {
        (word % 0x100) as u8
    } else if index == 1 {
        (word / 0x100 % 0x100) as u8
    } else if index == 2 {
        (word / 0x1_0000 % 0x100) as u8
    } else {
        (word / 0x100_0000 % 0x100) as u8
    }
}

/// The bytes of `words`, four to a word, with the least significant byte of
/// each word first.
pub open spec fn little_endian(words: Seq<u32>) -> Seq<u8> {
    Seq::new(4 * words.len(), |i: int| byte_of(words[i / 4], i % 4))
}

/// The bytes of `words`, four to a word, with the most significant byte of
/// each word first.
pub open spec fn big_endian(words: Seq<u32>) -> Seq<u8> {
    Seq::new(4 * words.len(), |i: int| byte_of(words[i / 4], 3 - i % 4))
}

/// Whether `bytes` are the bytes of `words` as some machine lays them out in
/// memory: in one of the two byte orders.
pub open spec fn in_memory(words: Seq<u32>, bytes: Seq<u8>) -> bool {
    bytes == little_endian(words) || bytes == big_endian(words)
}

/// Reads a slice of words as bytes, in the byte order of the machine.
///
/// Calls `bytemuck::cast_slice` from `u32` to `u8` and copies what it gives.
/// In that direction the cast cannot fail. It gives the memory of the words
/// as it lies: four bytes for each word, in the byte order of the machine,
/// which is either of the two.
#[verifier::external_body]
fn words_to_bytes(words: &[u32]) -> (bytes: Vec<u8>)
    ensures
        in_memory(words@, bytes@),
{
    bytemuck::cast_slice::<u32, u8>(words).to_vec()
}

/// A buffer of vertex positions on the GPU, owned by this value. Its
/// contents never change.
#[derive(Debug, PartialEq, Eq)]
pub struct VertexBuffer {
    /// The handle of the buffer.
    pub id: u32,
    /// How many vertices the buffer holds.
    pub vertex_count: i32,
}

impl VertexBuffer {
    /// The calls that make this buffer and fill it with `data`.
    pub open spec fn setup(self, data: Vec<u8>) -> Seq<Step> {
        seq![
            Step::creating(
                Command::CreateBuffer { buffer: self.id },
                Command::DeleteBuffer { buffer: self.id },
            ),
            Step::plain(Command::NamedBufferData { buffer: self.id, data, usage: STATIC_DRAW }),
        ]
    }

    /// The plan that makes a buffer accounts for the one object it makes.
    pub proof fn lemma_setup_disciplined(self, data: Vec<u8>)
        ensures
            disciplined(self.setup(data)),
    {
    }

    /// The buffer of handle `id` that holds `words` numbers, three to a
    /// vertex.
    pub open spec fn holding(id: u32, words: int) -> VertexBuffer {
        VertexBuffer { id, vertex_count: (words / 3) as i32 }
    }

    /// How many vertices `words` numbers make, three to a vertex and the
    /// rest left over, or the refusal of more vertices than a draw call can
    /// count.
    pub open spec fn counted(words: usize) -> Result<i32, ResourceError> {
        if words / 3 > MAX_VERTICES {
            Err(ResourceError::TooManyVertices((words / 3) as usize))
        } else {
            Ok((words / 3) as i32)
        }
    }

    /// Computes [`VertexBuffer::counted`].
    pub fn vertex_count(words: usize) -> (outcome: Result<i32, ResourceError>)
        ensures
            outcome == VertexBuffer::counted(words),
    {
        let count = words / COMPONENTS;
        if count > MAX_VERTICES {
            Err(ResourceError::TooManyVertices(count))
        } else {
            Ok(count as i32)
        }
    }

    /// Appends to `steps` the calls that make the buffer of handle `id` and
    /// fill it with the bytes of `vertices`, and returns that buffer with the
    /// bytes.
    pub(crate) fn stage(steps: &mut Vec<Step>, id: u32, vertices: &[u32]) -> (staged: (
        VertexBuffer,
        Ghost<Vec<u8>>,
    ))
        requires
            vertices@.len() / 3 <= MAX_VERTICES,
        ensures
            staged.0 == VertexBuffer::holding(id, vertices@.len() as int),
            in_memory(vertices@, staged.1@@),
            final(steps)@ == old(steps)@ + staged.0.setup(staged.1@),
    {
        let ghost before = steps@;
        let data = words_to_bytes(vertices);
        let ghost bytes = data;
        let buffer = VertexBuffer { id, vertex_count: (vertices.len() / COMPONENTS) as i32 };
        steps.push(
            Step::creating(Command::CreateBuffer { buffer: id }, Command::DeleteBuffer { buffer: id }),
        );
        steps.push(Step::plain(Command::NamedBufferData { buffer: id, data, usage: STATIC_DRAW }));
        assert(steps@ =~= before + buffer.setup(bytes));
        (buffer, Ghost(bytes))
    }

    /// Whether `progress` is the work of making a buffer that holds
    /// `vertices` when the context is `earlier`, and `planned` the context
    /// once the work is laid out.
    ///
    /// The work is [`VertexBuffer::setup`] on the bytes of `vertices` as they
    /// lie in memory, and takes one handle. More vertices than a draw call
    /// can count are refused, and so is any buffer when no handle is left;
    /// the work is then done at once, with that error, and the context is as
    /// it was.
    pub open spec fn begins(
        earlier: ContextView,
        vertices: Seq<u32>,
        progress: Progress<VertexBuffer>,
        planned: ContextView,
    ) -> bool {
        match VertexBuffer::counted(vertices.len() as usize) {
            Err(error) => {
                &&& planned == earlier
                &&& progress == Progress::Done(Err::<VertexBuffer, ResourceError>(error))
            },
            Ok(_) => if earlier.handles_left() >= 1 {
                &&& planned == earlier.taking(1)
                &&& exists|data: Vec<u8>|
                    in_memory(vertices, data@) && #[trigger] progress.starts(
                        VertexBuffer::holding(earlier.next, vertices.len() as int),
                        VertexBuffer::holding(earlier.next, vertices.len() as int).setup(data),
                        Seq::empty(),
                        Seq::empty(),
                    )
            } else {
                &&& planned == earlier
                &&& progress == Progress::Done(
                    Err::<VertexBuffer, ResourceError>(ResourceError::OutOfHandles),
                )
            },
        }
    }

    /// Starts making a buffer that holds `vertices`: the IEEE-754 bits of
    /// the coordinates, three to a vertex. Leaves the calls to whoever
    /// carries the work on.
    pub fn begin(context: &mut AppContext, vertices: &[u32]) -> (progress: Progress<VertexBuffer>)
        ensures
            VertexBuffer::begins(old(context)@, vertices@, progress, final(context)@),
    {
        match VertexBuffer::vertex_count(vertices.len()) {
            Ok(_) => {},
            Err(error) => {
                return Progress::Done(Err(error));
            },
        }
        let id = match context.reserve(1) {
            Some(id) => id,
            None => {
                return Progress::Done(Err(ResourceError::OutOfHandles));
            },
        };
        let mut steps: Vec<Step> = Vec::new();
        let (buffer, Ghost(data)) = VertexBuffer::stage(&mut steps, id, vertices);
        assert(steps@ =~= buffer.setup(data));
        let progress = Progress::begin(context, buffer, steps, Vec::new(), Vec::new());
        assert(progress.starts(
            VertexBuffer::holding(id, vertices@.len() as int),
            VertexBuffer::holding(id, vertices@.len() as int).setup(data),
            Seq::empty(),
            Seq::empty(),
        ));
        progress
    }

    /// Makes a buffer that holds `vertices`, with `execute` to carry out the
    /// calls.
    ///
    /// The work is that of [`VertexBuffer::begin`], carried through as
    /// [`Progress::settle`] does.
    pub fn new<F: Fn(&Command) -> Reply>(
        context: &mut AppContext,
        execute: &F,
        vertices: &[u32],
    ) -> (outcome: Result<VertexBuffer, ResourceError>)
        requires
            forall|command: &Command| call_requires(*execute, (command,)),
        ensures
            exists|progress: Progress<VertexBuffer>, planned: ContextView|
                {
                    &&& VertexBuffer::begins(old(context)@, vertices@, progress, planned)
                    &&& #[trigger] progress.settles_as(
                        *execute,
                        planned,
                        final(context)@,
                        outcome,
                    )
                },
    {
        VertexBuffer::begin(context, vertices).settle(context, execute)
    }

    /// Queues the call that deletes this buffer, and gives the value up.
    pub fn delete(self, context: &mut AppContext)
        ensures
            final(context)@ == old(context)@.submit(Command::DeleteBuffer { buffer: self.id }),
    {
        context.submit(Command::DeleteBuffer { buffer: self.id });
    }
}

} // verus!
