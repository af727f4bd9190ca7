use vstd::prelude::*;

use crate::components::{EntityComponents, NodeTemplate, NodeType};

verus! {

/// Why a scene instance could not become a node of the requested kind.
#[derive(Clone, Debug, PartialEq)]
pub enum ManageErrs {
    /// The host made no instance of the scene.
    CouldNotMakeInstance,
    /// The instance's root is not of the requested kind; carries its class name.
    RootClassMismatch(String),
}

/// What the host reports of a freshly made scene instance: the class name of
/// its root and whether that class is, or inherits from, each node kind.
#[derive(Clone, Debug)]
pub struct InstanceClass {
    pub name: String,
    pub is_node_2d: bool,
    pub is_spatial: bool,
}

pub open spec fn class_is(c: InstanceClass, t: NodeType) -> bool {
    match t {
        NodeType::Node2D => c.is_node_2d,
        NodeType::Spatial => c.is_spatial,
    }
}

/// The spawn filter: a template and no node handle of either kind.
pub open spec fn needs_spawn_spec(c: EntityComponents) -> bool {
    c.has_template && !c.has_node_2d && !c.has_node_spatial
}

/// Whether the spawn pass must handle an entity with these components.
pub fn needs_spawn(c: &EntityComponents) -> (r: bool)
    ensures
        r == needs_spawn_spec(*c),
{
    c.has_template && !c.has_node_2d && !c.has_node_spatial
}

pub open spec fn add_node_spec(c: EntityComponents, t: NodeType) -> EntityComponents {
    match t {
        NodeType::Node2D => EntityComponents { has_node_2d: true, ..c },
        NodeType::Spatial => EntityComponents { has_node_spatial: true, ..c },
    }
}

/// The components after the deferred command adds a handle of kind `t`.
pub fn add_node(c: EntityComponents, t: NodeType) -> (r: EntityComponents)
    ensures
        r == add_node_spec(c, t),
{
    match t {
        NodeType::Node2D => EntityComponents { has_node_2d: true, ..c },
        NodeType::Spatial => EntityComponents { has_node_spatial: true, ..c },
    }
}

/// Checks an instance against the requested kind: `Ok(node_type)` when its
/// root class is of that kind, else the error that says why not.
pub fn instance_scene(instance: Option<InstanceClass>, node_type: NodeType) -> (r: Result<
    NodeType,
    ManageErrs,
>)
    ensures
        instance is None ==> r == Err::<NodeType, ManageErrs>(ManageErrs::CouldNotMakeInstance),
        instance is Some && class_is(instance->0, node_type) ==> r == Ok::<NodeType, ManageErrs>(
            node_type,
        ),
        instance is Some && !class_is(instance->0, node_type) ==> r == Err::<NodeType, ManageErrs>(
            ManageErrs::RootClassMismatch(instance->0.name),
        ),
{
    match instance {
        None => Err(ManageErrs::CouldNotMakeInstance),
        Some(c) => {
            let fits = match node_type {
                NodeType::Node2D => c.is_node_2d,
                NodeType::Spatial => c.is_spatial,
            };
            if fits {
                Ok(node_type)
            } else {
                Err(ManageErrs::RootClassMismatch(c.name))
            }
        },
    }
}

/// Where a spawn attempt for one entity stands.
#[derive(Copy, Clone, Debug, PartialEq, Eq, Structural)]
pub enum SpawnStage {
    ResolveRoot,
    LoadScene,
    InstanceScene,
    AttachToRoot,
    Finished,
}

/// The host's answer to the last action.
#[derive(Clone, Debug)]
pub enum SpawnEvent {
    /// Whether the configured root node could be resolved.
    RootResolved(bool),
    /// Whether the template's scene file was loaded.
    SceneLoaded(bool),
    /// The instance made from the loaded scene, if any.
    Instanced(Option<InstanceClass>),
    /// The instance was added as a child of the root node.
    Attached,
}

/// Why a spawn attempt ended without a node; each is reported, none is fatal.
#[derive(Clone, Debug, PartialEq)]
pub enum SpawnFailure {
    /// The root node could not be resolved (a warning).
    RootUnavailable,
    /// The scene file at this path could not be loaded.
    SceneNotLoaded(String),
    /// The instance could not be made or has a root of another kind.
    Instance(ManageErrs),
}

/// What the host side must do next.
#[derive(Clone, Debug, PartialEq)]
pub enum SpawnAction {
    ResolveRoot,
    LoadScene(String),
    InstanceScene,
    /// Cast the instance to this kind, share it and add it as a
    /// non-internal child of the configured root node.
    AttachToRoot(NodeType),
    /// Queue the command that adds a handle of this kind to the entity.
    QueueHandle(NodeType),
    /// Report the failure and drop the instance, if one was made.
    Fail(SpawnFailure),
    /// The event did not answer the pending action: nothing to do.
    Ignored,
    /// The attempt is over.
    Done,
}

/// One attempt to turn an entity's template into a host node.
#[derive(Clone, Debug)]
pub struct SpawnTask {
    pub template: NodeTemplate,
    pub stage: SpawnStage,
}

/// The action that the stage waits on.
pub open spec fn request_spec(t: SpawnTask) -> SpawnAction {
    match t.stage {
        SpawnStage::ResolveRoot => SpawnAction::ResolveRoot,
        SpawnStage::LoadScene => SpawnAction::LoadScene(t.template.scene_file),
        SpawnStage::InstanceScene => SpawnAction::InstanceScene,
        SpawnStage::AttachToRoot => SpawnAction::AttachToRoot(t.template.node_type),
        SpawnStage::Finished => SpawnAction::Done,
    }
}

pub open spec fn at(t: SpawnTask, s: SpawnStage) -> SpawnTask {
    SpawnTask { stage: s, ..t }
}

/// One transition: the next task and the action it asks for.
pub open spec fn step_spec(t: SpawnTask, e: SpawnEvent) -> (SpawnTask, SpawnAction) {
    match (t.stage, e) {
        (SpawnStage::ResolveRoot, SpawnEvent::RootResolved(true)) => (
            at(t, SpawnStage::LoadScene),
            SpawnAction::LoadScene(t.template.scene_file),
        ),
        (SpawnStage::ResolveRoot, SpawnEvent::RootResolved(false)) => (
            at(t, SpawnStage::Finished),
            SpawnAction::Fail(SpawnFailure::RootUnavailable),
        ),
        (SpawnStage::LoadScene, SpawnEvent::SceneLoaded(true)) => (
            at(t, SpawnStage::InstanceScene),
            SpawnAction::InstanceScene,
        ),
        (SpawnStage::LoadScene, SpawnEvent::SceneLoaded(false)) => (
            at(t, SpawnStage::Finished),
            SpawnAction::Fail(SpawnFailure::SceneNotLoaded(t.template.scene_file)),
        ),
        (SpawnStage::InstanceScene, SpawnEvent::Instanced(None)) => (
            at(t, SpawnStage::Finished),
            SpawnAction::Fail(SpawnFailure::Instance(ManageErrs::CouldNotMakeInstance)),
        ),
        (SpawnStage::InstanceScene, SpawnEvent::Instanced(Some(c))) => if class_is(
            c,
            t.template.node_type,
        ) {
            (at(t, SpawnStage::AttachToRoot), SpawnAction::AttachToRoot(t.template.node_type))
        } else {
            (
                at(t, SpawnStage::Finished),
                SpawnAction::Fail(SpawnFailure::Instance(ManageErrs::RootClassMismatch(c.name))),
            )
        },
        (SpawnStage::AttachToRoot, SpawnEvent::Attached) => (
            at(t, SpawnStage::Finished),
            SpawnAction::QueueHandle(t.template.node_type),
        ),
        (SpawnStage::Finished, _) => (t, SpawnAction::Done),
        _ => (t, SpawnAction::Ignored),
    }
}

impl SpawnTask {
    /// A fresh attempt for `template`, waiting to resolve the root node.
    pub fn new(template: NodeTemplate) -> (r: SpawnTask)
        ensures
            r.template == template,
            r.stage == SpawnStage::ResolveRoot,
    {
        SpawnTask { template, stage: SpawnStage::ResolveRoot }
    }

    /// The action that the task waits on.
    pub fn request(&self) -> (r: SpawnAction)
        ensures
            r == request_spec(*self),
    {
        match self.stage {
            SpawnStage::ResolveRoot => SpawnAction::ResolveRoot,
            SpawnStage::LoadScene => SpawnAction::LoadScene(self.template.scene_file.clone()),
            SpawnStage::InstanceScene => SpawnAction::InstanceScene,
            SpawnStage::AttachToRoot => SpawnAction::AttachToRoot(self.template.node_type),
            SpawnStage::Finished => SpawnAction::Done,
        }
    }

    /// Takes the host's answer and returns the next action.
    pub fn step(&mut self, event: SpawnEvent) -> (r: SpawnAction)
        ensures
            (*final(self), r) == step_spec(*old(self), event),
    {
        match (self.stage, event) {
            (SpawnStage::ResolveRoot, SpawnEvent::RootResolved(ok)) => {
                if ok {
                    self.stage = SpawnStage::LoadScene;
                    SpawnAction::LoadScene(self.template.scene_file.clone())
                } else {
                    self.stage = SpawnStage::Finished;
                    SpawnAction::Fail(SpawnFailure::RootUnavailable)
                }
            },
            (SpawnStage::LoadScene, SpawnEvent::SceneLoaded(ok)) => {
                if ok {
                    self.stage = SpawnStage::InstanceScene;
                    SpawnAction::InstanceScene
                } else {
                    self.stage = SpawnStage::Finished;
                    SpawnAction::Fail(SpawnFailure::SceneNotLoaded(self.template.scene_file.clone()))
                }
            },
            (SpawnStage::InstanceScene, SpawnEvent::Instanced(instance)) => {
                match instance_scene(instance, self.template.node_type) {
                    Ok(kind) => {
                        self.stage = SpawnStage::AttachToRoot;
                        SpawnAction::AttachToRoot(kind)
                    },
                    Err(err) => {
                        self.stage = SpawnStage::Finished;
                        SpawnAction::Fail(SpawnFailure::Instance(err))
                    },
                }
            },
            (SpawnStage::AttachToRoot, SpawnEvent::Attached) => {
                self.stage = SpawnStage::Finished;
                SpawnAction::QueueHandle(self.template.node_type)
            },
            (SpawnStage::Finished, _) => SpawnAction::Done,
            _ => SpawnAction::Ignored,
        }
    }
}

/// The actions that a task asks for while it takes `events` in turn.
pub open spec fn trace(t: SpawnTask, events: Seq<SpawnEvent>) -> Seq<SpawnAction>
    decreases events.len(),
{
    if events.len() == 0 {
        Seq::empty()
    } else {
        let (n, a) = step_spec(t, events[0]);
        seq![a] + trace(n, events.drop_first())
    }
}

proof fn lemma_trace_len(t: SpawnTask, events: Seq<SpawnEvent>)
    ensures
        trace(t, events).len() == events.len(),
    decreases events.len(),
{
    if events.len() > 0 {
        lemma_trace_len(step_spec(t, events[0]).0, events.drop_first());
    }
}

proof fn lemma_trace_tail(t: SpawnTask, events: Seq<SpawnEvent>, i: int)
    requires
        0 < i < events.len(),
    ensures
        trace(t, events)[i] == trace(step_spec(t, events[0]).0, events.drop_first())[i - 1],
{
    lemma_trace_len(step_spec(t, events[0]).0, events.drop_first());
}

proof fn lemma_finished_is_done(t: SpawnTask, events: Seq<SpawnEvent>)
    requires
        t.stage == SpawnStage::Finished,
    ensures
        forall|i: int| 0 <= i < events.len() ==> trace(t, events)[i] == SpawnAction::Done,
    decreases events.len(),
{
    lemma_trace_len(t, events);
    if events.len() > 0 {
        lemma_finished_is_done(t, events.drop_first());
        assert forall|i: int| 0 <= i < events.len() implies trace(t, events)[i]
            == SpawnAction::Done by {
            if i > 0 {
                lemma_trace_tail(t, events, i);
            }
        }
    }
}

/// Spawn-once: whatever the host answers, an attempt queues a node handle
/// for its entity at most once.
pub proof fn spawn_queues_handle_once(t: SpawnTask, events: Seq<SpawnEvent>)
    ensures
        forall|i: int, j: int|
            0 <= i < events.len() && 0 <= j < events.len() && trace(t, events)[i] is QueueHandle
                && trace(t, events)[j] is QueueHandle ==> i == j,
    decreases events.len(),
{
    lemma_trace_len(t, events);
    if events.len() > 0 {
        let n = step_spec(t, events[0]).0;
        let rest = events.drop_first();
        spawn_queues_handle_once(n, rest);
        if trace(t, events)[0] is QueueHandle {
            lemma_finished_is_done(n, rest);
        }
        assert forall|i: int, j: int|
            0 <= i < events.len() && 0 <= j < events.len() && trace(t, events)[i] is QueueHandle
                && trace(t, events)[j] is QueueHandle implies i == j by {
            if i > 0 {
                lemma_trace_tail(t, events, i);
            }
            if j > 0 {
                lemma_trace_tail(t, events, j);
            }
        }
    }
}

/// Every node that an attempt attaches, and every handle it queues, is of
/// the kind that the template asks for.
pub proof fn spawn_kind_matches_template(t: SpawnTask, events: Seq<SpawnEvent>)
    ensures
        forall|i: int|
            0 <= i < events.len() && trace(t, events)[i] is QueueHandle ==> trace(t, events)[i]
                == SpawnAction::QueueHandle(t.template.node_type),
        forall|i: int|
            0 <= i < events.len() && trace(t, events)[i] is AttachToRoot ==> trace(t, events)[i]
                == SpawnAction::AttachToRoot(t.template.node_type),
    decreases events.len(),
{
    lemma_trace_len(t, events);
    if events.len() > 0 {
        let n = step_spec(t, events[0]).0;
        spawn_kind_matches_template(n, events.drop_first());
        assert forall|i: int| 0 < i < events.len() implies trace(t, events)[i] == trace(
            n,
            events.drop_first(),
        )[i - 1] by {
            lemma_trace_tail(t, events, i);
        }
    }
}

/// A handle is queued only after the node was attached under the configured
/// root: in every trace that does not begin with a node waiting to be
/// attached, each handle follows an attach of the same kind.
pub proof fn spawn_attaches_under_root_first(t: SpawnTask, events: Seq<SpawnEvent>)
    requires
        t.stage != SpawnStage::AttachToRoot,
    ensures
        forall|j: int|
            0 <= j < events.len() && trace(t, events)[j] is QueueHandle ==> exists|i: int|
                0 <= i < j && trace(t, events)[i] == SpawnAction::AttachToRoot(
                    t.template.node_type,
                ),
    decreases events.len(),
{
    lemma_trace_len(t, events);
    if events.len() > 0 {
        let n = step_spec(t, events[0]).0;
        let rest = events.drop_first();
        if n.stage == SpawnStage::AttachToRoot {
            assert(trace(t, events)[0] == SpawnAction::AttachToRoot(t.template.node_type));
        } else {
            spawn_attaches_under_root_first(n, rest);
            assert forall|j: int|
                0 <= j < events.len() && trace(t, events)[j] is QueueHandle implies exists|i: int|
                    0 <= i < j && trace(t, events)[i] == SpawnAction::AttachToRoot(
                        t.template.node_type,
                    ) by {
                if j > 0 {
                    lemma_trace_tail(t, events, j);
                    let i0 = choose|i: int|
                        0 <= i < j - 1 && trace(n, rest)[i] == SpawnAction::AttachToRoot(
                            n.template.node_type,
                        );
                    lemma_trace_tail(t, events, i0 + 1);
                    assert(trace(t, events)[i0 + 1] == SpawnAction::AttachToRoot(
                        t.template.node_type,
                    ));
                }
            }
        }
    }
}

/// Adding the handle that a spawn queues to an entity that the spawn filter
/// selected leaves it with exactly one handle, of the template's kind, and
/// the filter then skips it.
pub proof fn added_node_is_single_and_final(c: EntityComponents, t: NodeType)
    requires
        c.wf(),
        needs_spawn_spec(c),
    ensures
        add_node_spec(c, t).wf(),
        add_node_spec(c, t).holds_node_of(t),
        add_node_spec(c, t).has_template,
        !needs_spawn_spec(add_node_spec(c, t)),
{
}

} // verus!
