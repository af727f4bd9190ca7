use godot_ecs::components::{EntityComponents, NodeTemplate, NodeType};
use godot_ecs::spawn::{
    add_node, instance_scene, needs_spawn, InstanceClass, ManageErrs, SpawnAction, SpawnEvent,
    SpawnFailure, SpawnStage, SpawnTask,
};

fn template(node_type: NodeType, file: &str) -> NodeTemplate {
    NodeTemplate { node_type, scene_file: file.to_string() }
}

fn class(name: &str, is_node_2d: bool, is_spatial: bool) -> InstanceClass {
    InstanceClass { name: name.to_string(), is_node_2d, is_spatial }
}

fn run(task: &mut SpawnTask, events: Vec<SpawnEvent>) -> Vec<SpawnAction> {
    let mut out = Vec::new();
    for e in events {
        out.push(task.step(e));
    }
    out
}

#[test]
fn flat_spawn_attaches_and_queues_a_flat_handle() {
    let mut task = SpawnTask::new(template(NodeType::Node2D, "a.scene"));
    assert_eq!(task.request(), SpawnAction::ResolveRoot);
    let actions = run(
        &mut task,
        vec![
            SpawnEvent::RootResolved(true),
            SpawnEvent::SceneLoaded(true),
            SpawnEvent::Instanced(Some(class("Node2D", true, false))),
            SpawnEvent::Attached,
        ],
    );
    assert_eq!(
        actions,
        vec![
            SpawnAction::LoadScene("a.scene".to_string()),
            SpawnAction::InstanceScene,
            SpawnAction::AttachToRoot(NodeType::Node2D),
            SpawnAction::QueueHandle(NodeType::Node2D),
        ]
    );
    assert_eq!(task.stage, SpawnStage::Finished);
    let c = add_node(
        EntityComponents { has_template: true, has_node_2d: false, has_node_spatial: false },
        NodeType::Node2D,
    );
    assert!(c.has_node_2d && !c.has_node_spatial);
}

#[test]
fn volumetric_spawn_queues_a_volumetric_handle() {
    let mut task = SpawnTask::new(template(NodeType::Spatial, "b.scene"));
    let actions = run(
        &mut task,
        vec![
            SpawnEvent::RootResolved(true),
            SpawnEvent::SceneLoaded(true),
            SpawnEvent::Instanced(Some(class("Spatial", false, true))),
            SpawnEvent::Attached,
        ],
    );
    assert_eq!(actions[0], SpawnAction::LoadScene("b.scene".to_string()));
    assert_eq!(actions[2], SpawnAction::AttachToRoot(NodeType::Spatial));
    assert_eq!(actions[3], SpawnAction::QueueHandle(NodeType::Spatial));
}

#[test]
fn variant_mismatch_reports_the_root_class_and_attaches_nothing() {
    let mut task = SpawnTask::new(template(NodeType::Spatial, "b.scene"));
    let actions = run(
        &mut task,
        vec![
            SpawnEvent::RootResolved(true),
            SpawnEvent::SceneLoaded(true),
            SpawnEvent::Instanced(Some(class("Node2D", true, false))),
            SpawnEvent::Attached,
        ],
    );
    assert_eq!(
        actions[2],
        SpawnAction::Fail(SpawnFailure::Instance(ManageErrs::RootClassMismatch(
            "Node2D".to_string()
        )))
    );
    assert_eq!(actions[3], SpawnAction::Done);
    assert!(!actions.iter().any(|a| matches!(a, SpawnAction::AttachToRoot(_))));
    assert!(!actions.iter().any(|a| matches!(a, SpawnAction::QueueHandle(_))));
}

#[test]
fn missing_scene_fails_again_on_the_next_tick() {
    let entity = EntityComponents { has_template: true, has_node_2d: false, has_node_spatial: false };
    for _tick in 0..2 {
        assert!(needs_spawn(&entity));
        let mut task = SpawnTask::new(template(NodeType::Node2D, "missing.scene"));
        let actions = run(
            &mut task,
            vec![SpawnEvent::RootResolved(true), SpawnEvent::SceneLoaded(false)],
        );
        assert_eq!(
            actions[1],
            SpawnAction::Fail(SpawnFailure::SceneNotLoaded("missing.scene".to_string()))
        );
        assert_eq!(task.stage, SpawnStage::Finished);
    }
}

#[test]
fn unreachable_root_is_reported_and_nothing_loads() {
    let mut task = SpawnTask::new(template(NodeType::Node2D, "a.scene"));
    let actions = run(&mut task, vec![SpawnEvent::RootResolved(false), SpawnEvent::SceneLoaded(true)]);
    assert_eq!(
        actions,
        vec![SpawnAction::Fail(SpawnFailure::RootUnavailable), SpawnAction::Done]
    );
}

#[test]
fn missing_instance_is_reported() {
    let mut task = SpawnTask::new(template(NodeType::Node2D, "a.scene"));
    let actions = run(
        &mut task,
        vec![
            SpawnEvent::RootResolved(true),
            SpawnEvent::SceneLoaded(true),
            SpawnEvent::Instanced(None),
        ],
    );
    assert_eq!(
        actions[2],
        SpawnAction::Fail(SpawnFailure::Instance(ManageErrs::CouldNotMakeInstance))
    );
}

#[test]
fn unexpected_event_is_ignored() {
    let mut task = SpawnTask::new(template(NodeType::Node2D, "a.scene"));
    assert_eq!(task.step(SpawnEvent::Attached), SpawnAction::Ignored);
    assert_eq!(task.stage, SpawnStage::ResolveRoot);
    assert_eq!(task.step(SpawnEvent::RootResolved(true)), SpawnAction::LoadScene("a.scene".to_string()));
    assert_eq!(task.request(), SpawnAction::LoadScene("a.scene".to_string()));
}

#[test]
fn handle_is_queued_once() {
    let mut task = SpawnTask::new(template(NodeType::Node2D, "a.scene"));
    let actions = run(
        &mut task,
        vec![
            SpawnEvent::RootResolved(true),
            SpawnEvent::SceneLoaded(true),
            SpawnEvent::Instanced(Some(class("Sprite", true, false))),
            SpawnEvent::Attached,
            SpawnEvent::Attached,
            SpawnEvent::RootResolved(true),
        ],
    );
    let queued = actions.iter().filter(|a| matches!(a, SpawnAction::QueueHandle(_))).count();
    assert_eq!(queued, 1);
    let attach = actions.iter().position(|a| matches!(a, SpawnAction::AttachToRoot(_))).unwrap();
    let queue = actions.iter().position(|a| matches!(a, SpawnAction::QueueHandle(_))).unwrap();
    assert!(attach < queue);
    assert_eq!(actions[4], SpawnAction::Done);
}

#[test]
fn instance_check_follows_the_requested_kind() {
    assert_eq!(
        instance_scene(Some(class("Node2D", true, false)), NodeType::Node2D),
        Ok(NodeType::Node2D)
    );
    assert_eq!(
        instance_scene(Some(class("Spatial", false, true)), NodeType::Node2D),
        Err(ManageErrs::RootClassMismatch("Spatial".to_string()))
    );
    assert_eq!(instance_scene(None, NodeType::Spatial), Err(ManageErrs::CouldNotMakeInstance));
}
