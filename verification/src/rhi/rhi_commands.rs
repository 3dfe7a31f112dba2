//! Recording commands.
//!
//! A command list is a sequence of commands in the order in which the GPU
//! will run them. Recording appends to that sequence and touches nothing
//! else: the GPU sees a command only when its list is submitted to a
//! queue. Renderpasses nest properly: a list has at most one open at a
//! time, and a draw stands inside one.

use crate::rhi::rhi_enums::{
    MemoryError, NativeStatus, PipelineStageFlags, QueueType, ResourceState,
};
use crate::rhi::rhi_structs::{
    BufferId, CommandAllocatorCreateInfo, CommandListId, DescriptorSetHandle, FramebufferHandle,
    PipelineHandle, PipelineInterfaceHandle, RenderpassHandle, ResourceBarrier, ResourceId,
};
use vstd::prelude::*;

verus! {

/// Where a command list is in its life.
#[derive(Clone, Copy, Debug, PartialEq, Eq, Structural)]
pub enum CommandListState {
    /// Created, nothing recorded yet
    Initial,
    /// Commands have been recorded and more may follow
    Recording,
    /// Recording has stopped and the list can be submitted. No call marks the moment: a
    /// list is in this state as it is handed to a queue
    Executable,
    /// Handed to a queue, waiting for its turn and its semaphores
    Submitted,
    /// The GPU is running it
    Pending,
    /// The GPU is done with it and its fence is signaled
    Completed,
}

/// Why a command was not recorded.
#[derive(Clone, Copy, Debug, PartialEq, Eq, Structural)]
pub enum RecordingError {
    /// A renderpass was begun while another was open
    RenderpassAlreadyOpen,
    /// The command needs an open renderpass and there is none
    NoRenderpassOpen,
}

/// One recorded command.
#[derive(Debug)]
pub enum Command {
    ResourceBarriers {
        stages_before_barrier: PipelineStageFlags,
        stages_after_barrier: PipelineStageFlags,
        barriers: Vec<ResourceBarrier>,
    },
    CopyBuffer {
        destination_buffer: BufferId,
        destination_offset: u64,
        source_buffer: BufferId,
        source_offset: u64,
        num_bytes: u64,
    },
    ExecuteCommandLists { lists: Vec<CommandListId> },
    BeginRenderpass { renderpass: RenderpassHandle, framebuffer: FramebufferHandle },
    EndRenderpass,
    BindPipeline { pipeline: PipelineHandle },
    BindDescriptorSets {
        descriptor_sets: Vec<DescriptorSetHandle>,
        pipeline_interface: PipelineInterfaceHandle,
    },
    BindVertexBuffer { slot: usize, buffer: BufferId },
    BindIndexBuffer { buffer: BufferId },
    DrawIndexedMesh { num_indices: u32, num_instances: u32 },
}

/// Whether a renderpass is open after `commands`.
pub open spec fn renderpass_open(commands: Seq<Command>) -> bool
    decreases commands.len(),
{
    if commands.len() == 0 {
        false
    } else {
        match commands.last() {
            Command::BeginRenderpass { .. } => true,
            Command::EndRenderpass => false,
            _ => renderpass_open(commands.drop_last()),
        }
    }
}

/// Whether the renderpasses in `commands` nest properly: none is begun while another is
/// open, none is ended that was not begun, and every draw stands inside one.
pub open spec fn properly_nested(commands: Seq<Command>) -> bool
    decreases commands.len(),
{
    if commands.len() == 0 {
        true
    } else {
        let before = commands.drop_last();
        properly_nested(before) && match commands.last() {
            Command::BeginRenderpass { .. } => !renderpass_open(before),
            Command::EndRenderpass => renderpass_open(before),
            Command::DrawIndexedMesh { .. } => renderpass_open(before),
            _ => true,
        }
    }
}

/// The state that the last of `barriers` that names `resource` leaves it in.
pub open spec fn last_transition(barriers: Seq<ResourceBarrier>, resource: ResourceId) -> Option<
    ResourceState,
>
    decreases barriers.len(),
{
    if barriers.len() == 0 {
        None
    } else if barriers.last().resource == resource {
        Some(barriers.last().final_state)
    } else {
        last_transition(barriers.drop_last(), resource)
    }
}

/// The state that `commands` last put `resource` into, if they name it at all.
pub open spec fn recorded_state(commands: Seq<Command>, resource: ResourceId) -> Option<
    ResourceState,
>
    decreases commands.len(),
{
    if commands.len() == 0 {
        None
    } else {
        let earlier = recorded_state(commands.drop_last(), resource);
        match commands.last() {
            Command::ResourceBarriers { barriers, .. } => match last_transition(
                barriers@,
                resource,
            ) {
                Some(state) => Some(state),
                None => earlier,
            },
            _ => earlier,
        }
    }
}

/// The state of `resource` after `commands`, where it was in state `before` when they began.
pub open spec fn state_after(commands: Seq<Command>, resource: ResourceId, before: ResourceState)
    -> ResourceState {
    match recorded_state(commands, resource) {
        Some(state) => state,
        None => before,
    }
}

/// The commands that bind `buffers` as vertex buffers: one for each, at slots 0, 1, 2 and so on.
pub open spec fn vertex_bindings(buffers: Seq<BufferId>) -> Seq<Command> {
    Seq::new(
        buffers.len(),
        |i: int| Command::BindVertexBuffer { slot: i as usize, buffer: buffers[i] },
    )
}

/// `commands` followed by one bind of one vertex buffer after another, the first at slot 0.
pub open spec fn bound_one_by_one(commands: Seq<Command>, buffers: Seq<BufferId>) -> Seq<Command>
    decreases buffers.len(),
{
    if buffers.len() == 0 {
        commands
    } else {
        bound_one_by_one(commands, buffers.drop_last()).push(
            Command::BindVertexBuffer {
                slot: (buffers.len() - 1) as usize,
                buffer: buffers.last(),
            },
        )
    }
}

/// A command that neither begins nor ends a renderpass leaves open what was open.
pub proof fn lemma_push_keeps_renderpass(commands: Seq<Command>, command: Command)
    requires
        !(command is BeginRenderpass),
        !(command is EndRenderpass),
    ensures
        renderpass_open(commands.push(command)) == renderpass_open(commands),
{
    assert(commands.push(command).drop_last() == commands);
}

/// A command that is no renderpass command and no draw keeps the nesting proper.
pub proof fn lemma_push_keeps_nesting(commands: Seq<Command>, command: Command)
    requires
        properly_nested(commands),
        !(command is BeginRenderpass),
        !(command is EndRenderpass),
        !(command is DrawIndexedMesh),
    ensures
        properly_nested(commands.push(command)),
{
    assert(commands.push(command).drop_last() == commands);
}

/// In commands whose renderpasses nest properly, every draw stands inside a renderpass: one
/// is open after the commands before it.
pub proof fn lemma_draws_stand_in_renderpasses(commands: Seq<Command>, i: int)
    requires
        properly_nested(commands),
        0 <= i < commands.len(),
        commands[i] is DrawIndexedMesh,
    ensures
        renderpass_open(commands.take(i)),
    decreases commands.len(),
{
    if i == commands.len() - 1 {
        assert(commands.take(i) == commands.drop_last());
    } else {
        lemma_draws_stand_in_renderpasses(commands.drop_last(), i);
        assert(commands.drop_last().take(i) == commands.take(i));
    }
}

/// Binding several vertex buffers in one call records what binding them one by one does, at
/// slots 0, 1, 2 and so on: a draw that follows finds the same commands before it.
pub proof fn lemma_bind_vertex_buffers_one_by_one(commands: Seq<Command>, buffers: Seq<BufferId>)
    ensures
        commands + vertex_bindings(buffers) == bound_one_by_one(commands, buffers),
    decreases buffers.len(),
{
    if buffers.len() == 0 {
        assert(commands + vertex_bindings(buffers) =~= commands);
    } else {
        let front = buffers.drop_last();
        lemma_bind_vertex_buffers_one_by_one(commands, front);
        assert(commands + vertex_bindings(buffers) =~= (commands + vertex_bindings(front)).push(
            Command::BindVertexBuffer {
                slot: (buffers.len() - 1) as usize,
                buffer: buffers.last(),
            },
        ));
    }
}

/// Where some barrier in `barriers` leaves `resource` in a state, one of them names the
/// resource and ends in that state.
proof fn lemma_last_transition_witness(
    barriers: Seq<ResourceBarrier>,
    resource: ResourceId,
    state: ResourceState,
) -> (i: int)
    requires
        last_transition(barriers, resource) == Some(state),
    ensures
        0 <= i < barriers.len(),
        barriers[i].resource == resource,
        barriers[i].final_state == state,
    decreases barriers.len(),
{
    if barriers.last().resource == resource {
        barriers.len() - 1
    } else {
        lemma_last_transition_witness(barriers.drop_last(), resource, state)
    }
}

/// Whether no two of `barriers` name the same resource.
pub open spec fn name_different_resources(barriers: Seq<ResourceBarrier>) -> bool {
    forall|i: int, j: int|
        0 <= i < j < barriers.len() ==> (#[trigger] barriers[i]).resource != (
        #[trigger] barriers[j]).resource
}

/// Where only one of `barriers` names a resource, that barrier decides where they leave it.
proof fn lemma_last_transition_of_only(barriers: Seq<ResourceBarrier>, i: int)
    requires
        0 <= i < barriers.len(),
        forall|j: int|
            0 <= j < barriers.len() && j != i ==> (#[trigger] barriers[j]).resource
                != barriers[i].resource,
    ensures
        last_transition(barriers, barriers[i].resource) == Some(barriers[i].final_state),
    decreases barriers.len(),
{
    if i < barriers.len() - 1 {
        assert(barriers[barriers.len() - 1].resource != barriers[i].resource);
        let front = barriers.drop_last();
        assert(front[i] == barriers[i]);
        assert forall|j: int| 0 <= j < front.len() && j != i implies (#[trigger] front[j]).resource
            != front[i].resource by {
            assert(front[j] == barriers[j]);
        }
        lemma_last_transition_of_only(front, i);
    }
}

/// Where none of `barriers` names a resource, they leave it where it is.
proof fn lemma_last_transition_of_none(barriers: Seq<ResourceBarrier>, resource: ResourceId)
    requires
        forall|j: int| 0 <= j < barriers.len() ==> (#[trigger] barriers[j]).resource != resource,
    ensures
        last_transition(barriers, resource) is None,
    decreases barriers.len(),
{
    if barriers.len() > 0 {
        let front = barriers.drop_last();
        assert(barriers[barriers.len() - 1].resource != resource);
        assert forall|j: int| 0 <= j < front.len() implies (#[trigger] front[j]).resource
            != resource by {
            assert(front[j] == barriers[j]);
        }
        lemma_last_transition_of_none(front, resource);
    }
}

/// After barriers that name different resources, each resource that is named is in the
/// final state of its barrier, and each resource that is not named is where it was.
pub proof fn lemma_barriers_set_final_states(
    commands: Seq<Command>,
    stages_before_barrier: PipelineStageFlags,
    stages_after_barrier: PipelineStageFlags,
    barriers: Vec<ResourceBarrier>,
)
    requires
        name_different_resources(barriers@),
    ensures
        ({
            let recorded = commands.push(
                Command::ResourceBarriers { stages_before_barrier, stages_after_barrier, barriers },
            );
            &&& forall|i: int|
                0 <= i < barriers@.len() ==> recorded_state(
                    recorded,
                    (#[trigger] barriers@[i]).resource,
                ) == Some(barriers@[i].final_state)
            &&& forall|resource: ResourceId|
                (forall|j: int|
                    0 <= j < barriers@.len() ==> (#[trigger] barriers@[j]).resource != resource)
                    ==> #[trigger] recorded_state(recorded, resource) == recorded_state(
                    commands,
                    resource,
                )
        }),
{
    let recorded = commands.push(
        Command::ResourceBarriers { stages_before_barrier, stages_after_barrier, barriers },
    );
    assert(recorded.drop_last() == commands);
    assert forall|i: int| 0 <= i < barriers@.len() implies recorded_state(
        recorded,
        (#[trigger] barriers@[i]).resource,
    ) == Some(barriers@[i].final_state) by {
        lemma_last_transition_of_only(barriers@, i);
    }
    assert forall|resource: ResourceId|
        (forall|j: int| 0 <= j < barriers@.len() ==> (#[trigger] barriers@[j]).resource != resource)
        implies #[trigger] recorded_state(recorded, resource) == recorded_state(
        commands,
        resource,
    ) by {
        lemma_last_transition_of_none(barriers@, resource);
    }
}

/// Among barriers that name different resources, one that ends in the state it begins in
/// leaves its resource in the state it is in, whatever the other barriers do to theirs.
///
/// The barrier has to begin in the state that its resource is in: the state that `commands`
/// last put it into or, where they name it nowhere, the state `before` that it had when
/// they began.
pub proof fn lemma_same_state_barrier_keeps_state(
    commands: Seq<Command>,
    stages_before_barrier: PipelineStageFlags,
    stages_after_barrier: PipelineStageFlags,
    barriers: Vec<ResourceBarrier>,
    i: int,
    before: ResourceState,
)
    requires
        name_different_resources(barriers@),
        0 <= i < barriers@.len(),
        barriers@[i].initial_state == barriers@[i].final_state,
        barriers@[i].initial_state == state_after(commands, barriers@[i].resource, before),
    ensures
        state_after(
            commands.push(
                Command::ResourceBarriers { stages_before_barrier, stages_after_barrier, barriers },
            ),
            barriers@[i].resource,
            before,
        ) == state_after(commands, barriers@[i].resource, before),
{
    lemma_barriers_set_final_states(commands, stages_before_barrier, stages_after_barrier, barriers);
}

/// Barriers that end in the state they begin in change the state of no resource, and are
/// recorded all the same, with the stages that they order: the commands that follow wait
/// for the stages before the barrier as for any other.
///
/// Each barrier has to begin in the state that its resource is in: the state that `commands`
/// last put it into or, where they name it nowhere, the state `before` says it had when they
/// began. What is stated of `resource` holds of every resource.
pub proof fn lemma_same_state_barriers_keep_states(
    commands: Seq<Command>,
    stages_before_barrier: PipelineStageFlags,
    stages_after_barrier: PipelineStageFlags,
    barriers: Vec<ResourceBarrier>,
    before: spec_fn(ResourceId) -> ResourceState,
    resource: ResourceId,
)
    requires
        forall|i: int|
            0 <= i < barriers@.len() ==> (#[trigger] barriers@[i]).initial_state
                == barriers@[i].final_state,
        forall|i: int|
            0 <= i < barriers@.len() ==> (#[trigger] barriers@[i]).initial_state == state_after(
                commands,
                barriers@[i].resource,
                before(barriers@[i].resource),
            ),
    ensures
        ({
            let recorded = commands.push(
                Command::ResourceBarriers { stages_before_barrier, stages_after_barrier, barriers },
            );
            &&& state_after(recorded, resource, before(resource)) == state_after(
                commands,
                resource,
                before(resource),
            )
            &&& recorded.len() == commands.len() + 1
            &&& recorded.last() == (Command::ResourceBarriers {
                stages_before_barrier,
                stages_after_barrier,
                barriers,
            })
        }),
{
    let recorded = commands.push(
        Command::ResourceBarriers { stages_before_barrier, stages_after_barrier, barriers },
    );
    assert(recorded.drop_last() == commands);
    if let Some(state) = last_transition(barriers@, resource) {
        let i = lemma_last_transition_witness(barriers@, resource, state);
        assert(barriers@[i].initial_state == barriers@[i].final_state);
    }
}

/// The mathematical content of a command list while it is recorded.
pub struct ListState {
    /// The token of the list
    pub id: CommandListId,
    /// The type of queue that the list can be submitted to
    pub list_type: QueueType,
    /// The commands recorded so far, in order
    pub commands: Seq<Command>,
}

impl ListState {
    /// Whether a renderpass is open.
    pub open spec fn in_renderpass(self) -> bool {
        renderpass_open(self.commands)
    }

    /// Where the list is in its life: it is `Initial` until the first command is recorded
    /// and `Recording` from then on. The states that follow belong to the queue that the
    /// list is submitted to.
    pub open spec fn state(self) -> CommandListState {
        if self.commands.len() == 0 {
            CommandListState::Initial
        } else {
            CommandListState::Recording
        }
    }

    /// The list with `command` recorded after what it holds.
    pub open spec fn with(self, command: Command) -> ListState {
        ListState { commands: self.commands.push(command), ..self }
    }

    /// The list with `commands` recorded after what it holds.
    pub open spec fn with_all(self, commands: Seq<Command>) -> ListState {
        ListState { commands: self.commands + commands, ..self }
    }

    /// The list after a command that needs an open renderpass: with the command where one
    /// is open, unchanged where none is.
    pub open spec fn with_inside_renderpass(self, command: Command) -> ListState {
        if self.in_renderpass() {
            self.with(command)
        } else {
            self
        }
    }

    /// The list after a command that begins a renderpass: with the command where none is
    /// open, unchanged where one is.
    pub open spec fn with_outside_renderpass(self, command: Command) -> ListState {
        if self.in_renderpass() {
            self
        } else {
            self.with(command)
        }
    }
}

/// What recording a command that needs an open renderpass answers.
pub open spec fn inside_renderpass(list: ListState) -> Result<(), RecordingError> {
    if list.in_renderpass() {
        Ok(())
    } else {
        Err(RecordingError::NoRenderpassOpen)
    }
}

/// What recording a command that begins a renderpass answers.
pub open spec fn outside_renderpass(list: ListState) -> Result<(), RecordingError> {
    if list.in_renderpass() {
        Err(RecordingError::RenderpassAlreadyOpen)
    } else {
        Ok(())
    }
}

/// What a recorder has recorded, and whether that leaves a renderpass open.
struct Recording {
    commands: Vec<Command>,
    in_renderpass: bool,
}

impl Recording {
    fn empty() -> (recording: Recording)
        ensures
            recording.commands@ == Seq::<Command>::empty(),
            !recording.in_renderpass,
    {
        Recording { commands: Vec::new(), in_renderpass: false }
    }
}

/// The recorder of one command list.
pub struct CommandRecorder {
    id: CommandListId,
    list_type: QueueType,
    recording: Recording,
}

impl View for CommandRecorder {
    type V = ListState;

    closed spec fn view(&self) -> ListState {
        ListState { id: self.id, list_type: self.list_type, commands: self.recording.commands@ }
    }
}

impl CommandRecorder {
    #[verifier::type_invariant]
    spec fn nests_properly(self) -> bool {
        &&& properly_nested(self.recording.commands@)
        &&& self.recording.in_renderpass == renderpass_open(self.recording.commands@)
    }

    /// A recorder with nothing recorded.
    pub fn new(id: CommandListId, list_type: QueueType) -> (recorder: CommandRecorder)
        ensures
            recorder@ == (ListState { id, list_type, commands: Seq::empty() }),
    {
        CommandRecorder { id, list_type, recording: Recording::empty() }
    }

    /// The token of the list.
    pub fn list_id(&self) -> (id: CommandListId)
        ensures
            id == self@.id,
    {
        self.id
    }

    /// The type of queue that the list can be submitted to.
    pub fn queue_type(&self) -> (list_type: QueueType)
        ensures
            list_type == self@.list_type,
    {
        self.list_type
    }

    /// The commands recorded so far, in order. Their renderpasses nest properly.
    pub fn recorded(&self) -> (commands: &Vec<Command>)
        ensures
            commands@ == self@.commands,
            properly_nested(commands@),
    {
        proof {
            use_type_invariant(self);
        }
        &self.recording.commands
    }

    /// Whether a renderpass is open.
    pub fn is_in_renderpass(&self) -> (open: bool)
        ensures
            open == self@.in_renderpass(),
    {
        proof {
            use_type_invariant(self);
        }
        self.recording.in_renderpass
    }

    /// Where the list is in its life.
    pub fn current_state(&self) -> (state: CommandListState)
        ensures
            state == self@.state(),
    {
        if self.recording.commands.len() == 0 {
            CommandListState::Initial
        } else {
            CommandListState::Recording
        }
    }

    /// Appends a command that is no renderpass command and no draw.
    fn record(&mut self, command: Command)
        requires
            !(command is BeginRenderpass),
            !(command is EndRenderpass),
            !(command is DrawIndexedMesh),
        ensures
            final(self)@ == old(self)@.with(command),
    {
        proof {
            use_type_invariant(&*self);
            lemma_push_keeps_renderpass(self.recording.commands@, command);
            lemma_push_keeps_nesting(self.recording.commands@, command);
        }
        let mut recording = Recording::empty();
        core::mem::swap(&mut recording, &mut self.recording);
        recording.commands.push(command);
        core::mem::swap(&mut recording, &mut self.recording);
    }

    /// Records resource barriers which happen after all the stages in `stages_before_barrier`
    /// and before all the stages in `stages_after_barrier`.
    ///
    /// Nothing else ever changes the state of a resource or keeps two commands apart. The
    /// barriers are recorded as they are, also where one ends in the state it begins in.
    pub fn resource_barriers(
        &mut self,
        stages_before_barrier: PipelineStageFlags,
        stages_after_barrier: PipelineStageFlags,
        barriers: Vec<ResourceBarrier>,
    )
        ensures
            final(self)@ == old(self)@.with(
                Command::ResourceBarriers { stages_before_barrier, stages_after_barrier, barriers },
            ),
    {
        self.record(
            Command::ResourceBarriers { stages_before_barrier, stages_after_barrier, barriers },
        );
    }

    /// Records a command to copy `num_bytes` bytes from `source_offset` in `source_buffer` to
    /// `destination_offset` in `destination_buffer`.
    pub fn copy_buffer(
        &mut self,
        destination_buffer: BufferId,
        destination_offset: u64,
        source_buffer: BufferId,
        source_offset: u64,
        num_bytes: u64,
    )
        ensures
            final(self)@ == old(self)@.with(
                Command::CopyBuffer {
                    destination_buffer,
                    destination_offset,
                    source_buffer,
                    source_offset,
                    num_bytes,
                },
            ),
    {
        self.record(
            Command::CopyBuffer {
                destination_buffer,
                destination_offset,
                source_buffer,
                source_offset,
                num_bytes,
            },
        );
    }

    /// Records a command to execute the command lists `lists`, in order.
    pub fn execute_command_lists(&mut self, lists: Vec<CommandListId>)
        ensures
            final(self)@ == old(self)@.with(Command::ExecuteCommandLists { lists }),
    {
        self.record(Command::ExecuteCommandLists { lists });
    }

    /// Records a command to begin `renderpass` on `framebuffer`, unless a renderpass is open:
    /// then nothing is recorded.
    pub fn begin_renderpass(&mut self, renderpass: RenderpassHandle, framebuffer: FramebufferHandle)
        -> (result: Result<(), RecordingError>)
        ensures
            result == outside_renderpass(old(self)@),
            final(self)@ == old(self)@.with_outside_renderpass(
                Command::BeginRenderpass { renderpass, framebuffer },
            ),
    {
        proof {
            use_type_invariant(&*self);
        }
        if self.recording.in_renderpass {
            return Err(RecordingError::RenderpassAlreadyOpen);
        }
        let command = Command::BeginRenderpass { renderpass, framebuffer };
        proof {
            assert(self.recording.commands@.push(command).drop_last() == self.recording.commands@);
        }
        let mut recording = Recording::empty();
        core::mem::swap(&mut recording, &mut self.recording);
        recording.commands.push(command);
        recording.in_renderpass = true;
        core::mem::swap(&mut recording, &mut self.recording);
        Ok(())
    }

    /// Records a command to end the open renderpass. Where none is open, nothing is recorded.
    pub fn end_renderpass(&mut self) -> (result: Result<(), RecordingError>)
        ensures
            result == inside_renderpass(old(self)@),
            final(self)@ == old(self)@.with_inside_renderpass(Command::EndRenderpass),
    {
        proof {
            use_type_invariant(&*self);
        }
        if !self.recording.in_renderpass {
            return Err(RecordingError::NoRenderpassOpen);
        }
        proof {
            assert(self.recording.commands@.push(Command::EndRenderpass).drop_last()
                == self.recording.commands@);
        }
        let mut recording = Recording::empty();
        core::mem::swap(&mut recording, &mut self.recording);
        recording.commands.push(Command::EndRenderpass);
        recording.in_renderpass = false;
        core::mem::swap(&mut recording, &mut self.recording);
        Ok(())
    }

    /// Records a command to bind `pipeline`.
    pub fn bind_pipeline(&mut self, pipeline: PipelineHandle)
        ensures
            final(self)@ == old(self)@.with(Command::BindPipeline { pipeline }),
    {
        self.record(Command::BindPipeline { pipeline });
    }

    /// Records a command to bind `descriptor_sets` to `pipeline_interface`.
    pub fn bind_descriptor_sets(
        &mut self,
        descriptor_sets: Vec<DescriptorSetHandle>,
        pipeline_interface: PipelineInterfaceHandle,
    )
        ensures
            final(self)@ == old(self)@.with(
                Command::BindDescriptorSets { descriptor_sets, pipeline_interface },
            ),
    {
        self.record(Command::BindDescriptorSets { descriptor_sets, pipeline_interface });
    }

    /// Records a command to bind `buffer` as the vertex buffer at `slot`.
    pub fn bind_vertex_buffer(&mut self, slot: usize, buffer: BufferId)
        ensures
            final(self)@ == old(self)@.with(Command::BindVertexBuffer { slot, buffer }),
    {
        self.record(Command::BindVertexBuffer { slot, buffer });
    }

    /// Records commands to bind vertex buffers
    ///
    /// Vertex buffers are always bound sequentially starting at binding 0
    pub fn bind_vertex_buffers(&mut self, buffers: Vec<BufferId>)
        ensures
            final(self)@ == old(self)@.with_all(vertex_bindings(buffers@)),
    {
        let ghost before = self@;
        assert(before.with_all(vertex_bindings(buffers@.take(0))).commands =~= before.commands);
        let mut slot: usize = 0;
        while slot < buffers.len()
            invariant
                slot <= buffers.len(),
                self@ == before.with_all(vertex_bindings(buffers@.take(slot as int))),
            decreases buffers.len() - slot,
        {
            self.bind_vertex_buffer(slot, buffers[slot]);
            assert(self@.commands =~= before.with_all(
                vertex_bindings(buffers@.take(slot + 1)),
            ).commands);
            slot += 1;
        }
        assert(buffers@.take(slot as int) == buffers@);
    }

    /// Records a command to bind `buffer` as the index buffer.
    pub fn bind_index_buffer(&mut self, buffer: BufferId)
        ensures
            final(self)@ == old(self)@.with(Command::BindIndexBuffer { buffer }),
    {
        self.record(Command::BindIndexBuffer { buffer });
    }

    /// Records a drawcall to grab `num_indices` indices from the currently bound index buffer
    /// and draw them `num_instances` times. A draw outside a renderpass is refused and
    /// nothing is recorded.
    pub fn draw_indexed_mesh(&mut self, num_indices: u32, num_instances: u32) -> (result: Result<
        (),
        RecordingError,
    >)
        ensures
            result == inside_renderpass(old(self)@),
            final(self)@ == old(self)@.with_inside_renderpass(
                Command::DrawIndexedMesh { num_indices, num_instances },
            ),
    {
        proof {
            use_type_invariant(&*self);
        }
        if !self.recording.in_renderpass {
            return Err(RecordingError::NoRenderpassOpen);
        }
        let command = Command::DrawIndexedMesh { num_indices, num_instances };
        proof {
            assert(self.recording.commands@.push(command).drop_last() == self.recording.commands@);
        }
        let mut recording = Recording::empty();
        core::mem::swap(&mut recording, &mut self.recording);
        recording.commands.push(command);
        core::mem::swap(&mut recording, &mut self.recording);
        Ok(())
    }

    /// The state that the recorded commands last put `resource` into, if they name it at all.
    pub fn resource_state(&self, resource: ResourceId) -> (state: Option<ResourceState>)
        ensures
            state == recorded_state(self@.commands, resource),
    {
        let mut state: Option<ResourceState> = None;
        let mut i: usize = 0;
        while i < self.recording.commands.len()
            invariant
                i <= self.recording.commands.len(),
                state == recorded_state(self.recording.commands@.take(i as int), resource),
            decreases self.recording.commands.len() - i,
        {
            assert(self.recording.commands@.take(i + 1).drop_last()
                == self.recording.commands@.take(i as int));
            assert(self.recording.commands@.take(i + 1).last() == self.recording.commands@[i as int]);
            match &self.recording.commands[i] {
                Command::ResourceBarriers { barriers, .. } => {
                    if let Some(last) = final_state_in(barriers, resource) {
                        state = Some(last);
                    }
                },
                _ => {},
            }
            i += 1;
        }
        assert(self.recording.commands@.take(i as int) == self.recording.commands@);
        state
    }
}

/// A pool that command lists are made from. Its lists go to queues of one type.
#[derive(Clone, Copy, Debug)]
pub struct AllocatorRecord {
    /// The token of the allocator
    pub id: usize,
    /// The type of command lists which are allocated by this command allocator
    pub command_list_type: QueueType,
    /// A bitmask of the GPU that the command allocator allocates commands for
    pub node_mask: u32,
    /// How many command lists have been made from the allocator
    pub lists_created: usize,
}

impl AllocatorRecord {
    /// The token of the list that the next call of [`AllocatorRecord::create_command_list`] makes.
    pub open spec fn next_list(&self) -> CommandListId {
        CommandListId { allocator: self.id, index: self.lists_created }
    }

    /// A fresh allocator.
    pub fn new(id: usize, create_info: CommandAllocatorCreateInfo) -> (allocator: AllocatorRecord)
        ensures
            allocator == (AllocatorRecord {
                id,
                command_list_type: create_info.command_list_type,
                node_mask: create_info.node_mask,
                lists_created: 0,
            }),
    {
        AllocatorRecord {
            id,
            command_list_type: create_info.command_list_type,
            node_mask: create_info.node_mask,
            lists_created: 0,
        }
    }

    /// Makes a command list with nothing recorded, for queues of the allocator's type.
    pub fn create_command_list(&mut self, status: NativeStatus) -> (result: Result<
        CommandRecorder,
        MemoryError,
    >)
        requires
            status.is_memory_outcome(),
        ensures
            result is Ok <==> status == NativeStatus::Success && old(self).lists_created
                < usize::MAX,
            result is Ok ==> {
                &&& result->Ok_0@ == (ListState {
                    id: old(self).next_list(),
                    list_type: old(self).command_list_type,
                    commands: Seq::empty(),
                })
                &&& *final(self) == (AllocatorRecord {
                    lists_created: (old(self).lists_created + 1) as usize,
                    ..*old(self)
                })
            },
            result is Err ==> *final(self) == *old(self),
            result is Err && status != NativeStatus::Success ==> status.memory_error() == Some(
                result->Err_0,
            ),
            result is Err && status == NativeStatus::Success ==> result->Err_0
                == MemoryError::OutOfHostMemory,
    {
        if let Some(error) = status.to_memory_error() {
            return Err(error);
        }
        if self.lists_created == usize::MAX {
            return Err(MemoryError::OutOfHostMemory);
        }
        let id = CommandListId { allocator: self.id, index: self.lists_created };
        self.lists_created = self.lists_created + 1;
        Ok(CommandRecorder::new(id, self.command_list_type))
    }
}

/// The state that the last of `barriers` that names `resource` leaves it in.
fn final_state_in(barriers: &Vec<ResourceBarrier>, resource: ResourceId) -> (state: Option<
    ResourceState,
>)
    ensures
        state == last_transition(barriers@, resource),
{
    let mut state: Option<ResourceState> = None;
    let mut i: usize = 0;
    while i < barriers.len()
        invariant
            i <= barriers.len(),
            state == last_transition(barriers@.take(i as int), resource),
        decreases barriers.len() - i,
    {
        assert(barriers@.take(i + 1).drop_last() == barriers@.take(i as int));
        assert(barriers@.take(i + 1).last() == barriers@[i as int]);
        if barriers[i].resource == resource {
            state = Some(barriers[i].final_state);
        }
        i += 1;
    }
    assert(barriers@.take(i as int) == barriers@);
    state
}

} // verus!
