//! Per-frame command recording. A recorder is one owned value that moves
//! through its states by being consumed and handed back; every call that
//! the state does not allow is refused, and nothing is recorded for it.

use vstd::prelude::*;
use core::marker::PhantomData;
use core::ops::Range;
use crate::bind_group::BindGroup;
use crate::buffer::{Buffer, BufferUsage};
use crate::framebuffer::{Framebuffer, RenderTarget};
use crate::pipeline::Pipeline;
use crate::render::Render;

verus! {

/// One recorded GPU command.
#[derive(Clone, Copy, Debug, PartialEq, Eq)]
pub enum Command {
    /// Open a render pass on `target`, clear it to the background colour
    /// and bind the pipeline with handle `pipeline`.
    BeginPass { target: RenderTarget, pipeline: usize },
    /// Bind the buffer with handle `buffer` as vertex buffer `slot`.
    SetVertexBuffer { slot: u32, buffer: usize },
    /// Bind the buffer with handle `buffer` as the index buffer.
    SetIndexBuffer { buffer: usize },
    /// Bind the bind group with handle `group` at `slot`.
    SetBindGroup { slot: u32, group: usize },
    /// Draw the vertices `first..end`.
    Draw { first: u32, end: u32 },
    /// Draw the indices `first..end`.
    DrawIndexed { first: u32, end: u32 },
    /// Close the render pass.
    EndPass,
}

/// Where a recorder stands.
#[derive(Clone, Copy, Debug, PartialEq, Eq, Structural)]
pub enum Phase {
    /// Encoding is open; no render pass yet.
    Begun,
    /// A render pass is open and nothing has been drawn in it.
    ConfiguredDraw,
    /// A render pass is open and at least one draw was issued.
    Drawn,
    /// The render pass is closed; nothing more can be recorded.
    Submitted,
}

/// The state of a recorder: its phase and what has been bound so far.
#[derive(Clone, Copy, Debug, PartialEq, Eq, Structural)]
pub struct RecorderState {
    pub phase: Phase,
    pub vertices: bool,
    pub indices: bool,
    pub resources: bool,
}

/// Why a recorder refused a call.
#[derive(Clone, Copy, Debug, PartialEq, Eq, Structural)]
pub enum RecordError {
    /// The call needs an open render pass and none was configured.
    PassNotOpen,
    /// A render pass was already configured on this recorder.
    PassAlreadyOpen,
    /// The buffer was made for another use.
    WrongBufferKind,
    /// A draw was asked for before any vertex buffer was bound.
    NoVertexBuffer,
}

impl RecorderState {
    /// A render pass is open.
    pub open spec fn pass_open(self) -> bool {
        self.phase == Phase::ConfiguredDraw || self.phase == Phase::Drawn
    }
}

/// The state of a recorder that has recorded nothing.
pub open spec fn initial_state() -> RecorderState {
    RecorderState { phase: Phase::Begun, vertices: false, indices: false, resources: false }
}

/// Whether a recorder in state `s` may record `c`.
pub open spec fn permitted(s: RecorderState, c: Command) -> bool {
    match c {
        Command::BeginPass { .. } => s.phase == Phase::Begun,
        Command::SetVertexBuffer { .. } => s.pass_open(),
        Command::SetIndexBuffer { .. } => s.pass_open(),
        Command::SetBindGroup { .. } => s.pass_open(),
        Command::Draw { .. } => s.pass_open() && s.vertices,
        Command::DrawIndexed { .. } => s.pass_open() && s.vertices && s.indices,
        Command::EndPass => s.pass_open(),
    }
}

/// The state that recording `c` leads to from `s`.
pub open spec fn apply(s: RecorderState, c: Command) -> RecorderState {
    match c {
        Command::BeginPass { .. } => RecorderState { phase: Phase::ConfiguredDraw, ..s },
        Command::SetVertexBuffer { .. } => RecorderState { vertices: true, ..s },
        Command::SetIndexBuffer { .. } => RecorderState { indices: true, ..s },
        Command::SetBindGroup { .. } => RecorderState { resources: true, ..s },
        Command::Draw { .. } => RecorderState { phase: Phase::Drawn, ..s },
        Command::DrawIndexed { .. } => RecorderState { phase: Phase::Drawn, ..s },
        Command::EndPass => RecorderState { phase: Phase::Submitted, ..s },
    }
}

/// The state of a recorder after it has recorded `log`.
pub open spec fn state_after(log: Seq<Command>) -> RecorderState
    decreases log.len(),
{
    if log.len() == 0 {
        initial_state()
    } else {
        apply(state_after(log.drop_last()), log.last())
    }
}

/// Every command of `log` was permitted in the state that the commands
/// before it led to.
pub open spec fn legal(log: Seq<Command>) -> bool
    decreases log.len(),
{
    log.len() == 0 || (legal(log.drop_last()) && permitted(
        state_after(log.drop_last()),
        log.last(),
    ))
}

/// `log` is a finished command buffer: legal, and with no render pass
/// left open.
pub open spec fn finished(log: Seq<Command>) -> bool {
    legal(log) && !state_after(log).pass_open()
}

/// What submitting a recorder that holds `log` hands to the queue: the
/// log itself, with the render pass closed where one is open.
pub open spec fn finalized(log: Seq<Command>) -> Seq<Command> {
    if state_after(log).pass_open() {
        log.push(Command::EndPass)
    } else {
        log
    }
}

/// Recording a permitted command onto a legal log gives a legal log.
pub proof fn lemma_legal_push(log: Seq<Command>, c: Command)
    requires
        legal(log),
        permitted(state_after(log), c),
    ensures
        legal(log.push(c)),
        state_after(log.push(c)) == apply(state_after(log), c),
{
    assert(log.push(c).drop_last() =~= log);
}

/// Every prefix of a legal log is legal.
pub proof fn lemma_legal_prefix(log: Seq<Command>, n: int)
    requires
        legal(log),
        0 <= n <= log.len(),
    ensures
        legal(log.take(n)),
    decreases log.len(),
{
    if n == log.len() {
        assert(log.take(n) =~= log);
    } else {
        lemma_legal_prefix(log.drop_last(), n);
        assert(log.drop_last().take(n) =~= log.take(n));
    }
}

/// In a legal log every command was permitted where it stands.
pub proof fn lemma_legal_at(log: Seq<Command>, i: int)
    requires
        legal(log),
        0 <= i < log.len(),
    ensures
        permitted(state_after(log.take(i)), log[i]),
{
    lemma_legal_prefix(log, i + 1);
    assert(log.take(i + 1).drop_last() =~= log.take(i));
}

/// A recorder stands at the beginning exactly as long as it has recorded
/// nothing: whatever a legal log holds, its first command has opened the
/// render pass.
pub proof fn lemma_begun_means_nothing_recorded(log: Seq<Command>)
    requires
        legal(log),
    ensures
        state_after(log).phase == Phase::Begun <==> log.len() == 0,
        state_after(log).pass_open() ==> log.len() > 0 && log[0] is BeginPass,
{
    if log.len() > 0 {
        lemma_single_pass(log, 0);
    }
}

/// A legal log that holds anything starts by opening the render pass, and
/// opens none after that.
pub proof fn lemma_single_pass(log: Seq<Command>, i: int)
    requires
        legal(log),
        0 <= i < log.len(),
    ensures
        log[0] is BeginPass,
        log[i] is BeginPass ==> i == 0,
{
    lemma_legal_at(log, 0);
    assert(log.take(0) =~= Seq::<Command>::empty());
    lemma_legal_at(log, i);
    if i > 0 {
        let before = log.take(i);
        lemma_legal_prefix(log, i);
        assert(before.len() > 0);
    }
}

/// In a legal log a draw never comes first: a render pass is open where
/// it stands and a vertex buffer was bound before it, and before an
/// indexed draw an index buffer too.
pub proof fn lemma_draw_is_prepared(log: Seq<Command>, i: int)
    requires
        legal(log),
        0 <= i < log.len(),
        log[i] is Draw || log[i] is DrawIndexed,
    ensures
        i > 0,
        state_after(log.take(i)).pass_open(),
        state_after(log.take(i)).vertices,
        log[i] is DrawIndexed ==> state_after(log.take(i)).indices,
{
    lemma_legal_at(log, i);
    if i == 0 {
        assert(log.take(0) =~= Seq::<Command>::empty());
    }
}

/// Submitting closes what is open: the finalized form of a legal log that
/// was not yet closed is a finished command buffer.
pub proof fn lemma_finalized_is_finished(log: Seq<Command>)
    requires
        legal(log),
        state_after(log).phase != Phase::Submitted,
    ensures
        finished(finalized(log)),
{
    if state_after(log).pass_open() {
        lemma_legal_push(log, Command::EndPass);
    }
}

/// A finished command buffer, as the queue takes it.
#[derive(Debug)]
pub struct CommandList {
    commands: Vec<Command>,
}

impl View for CommandList {
    type V = Seq<Command>;

    closed spec fn view(&self) -> Seq<Command> {
        self.commands@
    }
}

impl CommandList {
    #[verifier::type_invariant]
    spec fn closed(self) -> bool {
        finished(self.commands@)
    }

    /// The commands in recording order. They form a finished command
    /// buffer.
    pub fn commands(&self) -> (commands: &[Command])
        ensures
            commands@ == self@,
            finished(self@),
    {
        proof {
            use_type_invariant(self);
        }
        self.commands.as_slice()
    }
}

/// The command queue of a device: the command buffers submitted and not
/// yet taken by the backend, oldest first.
#[derive(Debug)]
pub struct Queue {
    pending: Vec<CommandList>,
}

impl View for Queue {
    type V = Seq<Seq<Command>>;

    closed spec fn view(&self) -> Seq<Seq<Command>> {
        self.pending@.map_values(|list: CommandList| list@)
    }
}

impl Queue {
    /// A queue with nothing submitted.
    pub fn new() -> (queue: Queue)
        ensures
            queue@ == Seq::<Seq<Command>>::empty(),
    {
        let queue = Queue { pending: Vec::new() };
        assert(queue@ =~= Seq::<Seq<Command>>::empty());
        queue
    }

    /// Number of command buffers waiting.
    pub fn len(&self) -> (len: usize)
        ensures
            len == self@.len(),
    {
        self.pending.len()
    }

    /// The command buffer at place `i`, counted from the oldest, where
    /// there is one.
    pub fn get(&self, i: usize) -> (list: Option<&CommandList>)
        ensures
            i < self@.len() ==> list is Some && list->Some_0@ == self@[i as int],
            i >= self@.len() ==> list is None,
    {
        if i < self.pending.len() {
            Some(&self.pending[i])
        } else {
            None
        }
    }

    /// Hands the waiting command buffers to the caller, oldest first, and
    /// leaves the queue empty.
    pub fn take_pending(&mut self) -> (lists: Vec<CommandList>)
        ensures
            lists@.map_values(|list: CommandList| list@) == old(self)@,
            final(self)@ == Seq::<Seq<Command>>::empty(),
    {
        let mut lists: Vec<CommandList> = Vec::new();
        core::mem::swap(&mut lists, &mut self.pending);
        assert(self@ =~= Seq::<Seq<Command>>::empty());
        lists
    }

    fn push(&mut self, list: CommandList)
        ensures
            final(self)@ == old(self)@.push(list@),
    {
        self.pending.push(list);
        assert(self@ =~= old(self)@.push(list@));
    }
}

/// A recorder of one frame's commands. It borrows the pipeline, the
/// framebuffer and whatever is bound to it until it is submitted, so none
/// of them can be changed or dropped while it records.
#[derive(Debug)]
pub struct CommandBuffer<'a> {
    commands: Vec<Command>,
    state: RecorderState,
    bound: PhantomData<&'a Buffer>,
}

impl<'a> View for CommandBuffer<'a> {
    type V = Seq<Command>;

    closed spec fn view(&self) -> Seq<Command> {
        self.commands@
    }
}

impl<'a> CommandBuffer<'a> {
    #[verifier::type_invariant]
    spec fn recording(self) -> bool {
        &&& legal(self.commands@)
        &&& self.state == state_after(self.commands@)
        &&& self.state.phase != Phase::Submitted
    }

    /// Opens a recorder on `device` with nothing recorded.
    #[allow(unused_variables)]
    pub fn begin(device: &Render) -> (recorder: CommandBuffer<'a>)
        ensures
            recorder@ == Seq::<Command>::empty(),
    {
        CommandBuffer {
            commands: Vec::new(),
            state: RecorderState {
                phase: Phase::Begun,
                vertices: false,
                indices: false,
                resources: false,
            },
            bound: PhantomData,
        }
    }

    /// Where the recorder stands. What it has recorded is always a legal
    /// log that is not yet closed.
    pub fn state(&self) -> (state: RecorderState)
        ensures
            state == state_after(self@),
            legal(self@),
            state.phase != Phase::Submitted,
    {
        proof {
            use_type_invariant(self);
        }
        self.state
    }

    /// Opens the render pass on `framebuffer`'s target and binds
    /// `pipeline`. Only a recorder that has recorded nothing takes this.
    pub fn configure_draw(
        self,
        pipeline: &'a Pipeline,
        framebuffer: &'a Framebuffer,
    ) -> (next: Result<CommandBuffer<'a>, RecordError>)
        ensures
            state_after(self@).phase == Phase::Begun ==> next is Ok && next->Ok_0@ == self@.push(
                Command::BeginPass { target: framebuffer.target, pipeline: pipeline.handle() },
            ),
            state_after(self@).phase != Phase::Begun ==> next == Err::<
                CommandBuffer<'a>,
                RecordError,
            >(RecordError::PassAlreadyOpen),
    {
        proof {
            use_type_invariant(&self);
        }
        match self.state.phase {
            Phase::Begun => {
                let command = Command::BeginPass {
                    target: framebuffer.target,
                    pipeline: pipeline.pipeline(),
                };
                Ok(self.record(command))
            },
            _ => Err(RecordError::PassAlreadyOpen),
        }
    }

    /// Binds `buffer` as vertex buffer 0.
    pub fn set_vertices(self, buffer: &'a Buffer) -> (next: Result<CommandBuffer<'a>, RecordError>)
        ensures
            !state_after(self@).pass_open() ==> next == Err::<CommandBuffer<'a>, RecordError>(
                RecordError::PassNotOpen,
            ),
            state_after(self@).pass_open() && buffer.usage() != BufferUsage::Vertex ==> next
                == Err::<CommandBuffer<'a>, RecordError>(RecordError::WrongBufferKind),
            state_after(self@).pass_open() && buffer.usage() == BufferUsage::Vertex ==> next is Ok
                && next->Ok_0@ == self@.push(
                Command::SetVertexBuffer { slot: 0, buffer: buffer.handle() },
            ),
    {
        proof {
            use_type_invariant(&self);
        }
        if !self.is_open() {
            Err(RecordError::PassNotOpen)
        } else {
            match buffer.kind() {
                BufferUsage::Vertex => {
                    let command = Command::SetVertexBuffer { slot: 0, buffer: buffer.get_buf() };
                    Ok(self.record(command))
                },
                _ => Err(RecordError::WrongBufferKind),
            }
        }
    }

    /// Binds `buffer` as the index buffer; draws after it are indexed.
    pub fn set_indices(self, buffer: &'a Buffer) -> (next: Result<CommandBuffer<'a>, RecordError>)
        ensures
            !state_after(self@).pass_open() ==> next == Err::<CommandBuffer<'a>, RecordError>(
                RecordError::PassNotOpen,
            ),
            state_after(self@).pass_open() && buffer.usage() != BufferUsage::Index ==> next
                == Err::<CommandBuffer<'a>, RecordError>(RecordError::WrongBufferKind),
            state_after(self@).pass_open() && buffer.usage() == BufferUsage::Index ==> next is Ok
                && next->Ok_0@ == self@.push(Command::SetIndexBuffer { buffer: buffer.handle() }),
    {
        proof {
            use_type_invariant(&self);
        }
        if !self.is_open() {
            Err(RecordError::PassNotOpen)
        } else {
            match buffer.kind() {
                BufferUsage::Index => {
                    let command = Command::SetIndexBuffer { buffer: buffer.get_buf() };
                    Ok(self.record(command))
                },
                _ => Err(RecordError::WrongBufferKind),
            }
        }
    }

    /// Binds `bind_info` at slot 0.
    pub fn bind_resources(
        self,
        bind_info: &'a BindGroup,
    ) -> (next: Result<CommandBuffer<'a>, RecordError>)
        ensures
            state_after(self@).pass_open() ==> next is Ok && next->Ok_0@ == self@.push(
                Command::SetBindGroup { slot: 0, group: bind_info.id },
            ),
            !state_after(self@).pass_open() ==> next == Err::<CommandBuffer<'a>, RecordError>(
                RecordError::PassNotOpen,
            ),
    {
        proof {
            use_type_invariant(&self);
        }
        if !self.is_open() {
            Err(RecordError::PassNotOpen)
        } else {
            let command = Command::SetBindGroup { slot: 0, group: bind_info.id };
            Ok(self.record(command))
        }
    }

    /// Issues one draw over `range`: of indices where an index buffer is
    /// bound, of vertices where none is.
    pub fn draw(self, range: Range<u32>) -> (next: Result<CommandBuffer<'a>, RecordError>)
        ensures
            self@.len() == 0 ==> next == Err::<CommandBuffer<'a>, RecordError>(
                RecordError::PassNotOpen,
            ),
            !state_after(self@).pass_open() ==> next == Err::<CommandBuffer<'a>, RecordError>(
                RecordError::PassNotOpen,
            ),
            state_after(self@).pass_open() && !state_after(self@).vertices ==> next == Err::<
                CommandBuffer<'a>,
                RecordError,
            >(RecordError::NoVertexBuffer),
            state_after(self@).pass_open() && state_after(self@).vertices ==> next is Ok
                && next->Ok_0@ == self@.push(draw_command(state_after(self@), range)),
    {
        proof {
            use_type_invariant(&self);
        }
        if !self.is_open() {
            Err(RecordError::PassNotOpen)
        } else if !self.state.vertices {
            Err(RecordError::NoVertexBuffer)
        } else {
            let command = if self.state.indices {
                Command::DrawIndexed { first: range.start, end: range.end }
            } else {
                Command::Draw { first: range.start, end: range.end }
            };
            Ok(self.record(command))
        }
    }

    /// Closes the render pass where one is open, finishes the command
    /// buffer and puts it at the end of `queue`: exactly one command
    /// buffer, whatever was recorded.
    pub fn submit(self, queue: &mut Queue)
        ensures
            final(queue)@ == old(queue)@.push(finalized(self@)),
            finished(finalized(self@)),
    {
        proof {
            use_type_invariant(&self);
            lemma_finalized_is_finished(self.commands@);
        }
        let open = self.is_open();
        let mut commands = self.commands;
        if open {
            commands.push(Command::EndPass);
        }
        queue.push(CommandList { commands });
    }

    fn is_open(&self) -> (open: bool)
        ensures
            open == state_after(self@).pass_open(),
    {
        proof {
            use_type_invariant(self);
        }
        match self.state.phase {
            Phase::ConfiguredDraw => true,
            Phase::Drawn => true,
            _ => false,
        }
    }

    fn record(self, command: Command) -> (next: CommandBuffer<'a>)
        requires
            permitted(state_after(self@), command),
            !(command is EndPass),
        ensures
            next@ == self@.push(command),
    {
        proof {
            use_type_invariant(&self);
            lemma_legal_push(self.commands@, command);
        }
        let state = match command {
            Command::BeginPass { .. } => RecorderState {
                phase: Phase::ConfiguredDraw,
                ..self.state
            },
            Command::SetVertexBuffer { .. } => RecorderState { vertices: true, ..self.state },
            Command::SetIndexBuffer { .. } => RecorderState { indices: true, ..self.state },
            Command::SetBindGroup { .. } => RecorderState { resources: true, ..self.state },
            Command::Draw { .. } => RecorderState { phase: Phase::Drawn, ..self.state },
            Command::DrawIndexed { .. } => RecorderState { phase: Phase::Drawn, ..self.state },
            Command::EndPass => self.state,
        };
        let mut commands = self.commands;
        commands.push(command);
        CommandBuffer { commands, state, bound: PhantomData }
    }
}

/// The draw that a recorder in state `s` issues over `range`.
pub open spec fn draw_command(s: RecorderState, range: Range<u32>) -> Command {
    if s.indices {
        Command::DrawIndexed { first: range.start, end: range.end }
    } else {
        Command::Draw { first: range.start, end: range.end }
    }
}

} // verus!
