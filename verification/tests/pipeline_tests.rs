use renderflow::hotreload::HotReloadWatcher;
use renderflow::hotreload::WatcherState;
use renderflow::hotreload::apply_reload;
use renderflow::layout::BindingKind;
use renderflow::layout::PipelineLayoutKind;
use renderflow::layout::ResourceLayoutCatalog;
use renderflow::layout::feedback_groups;
use renderflow::layout::pipeline_groups;
use renderflow::pipeline::CompileError;
use renderflow::pipeline::PipelineObject;
use renderflow::pipeline::PipelineRegistry;
use renderflow::pipeline::ProgramPair;

#[test]
fn catalog_declares_named_layouts() {
    let c = ResourceLayoutCatalog::create();
    assert_eq!(c.image_sample.slots, vec![BindingKind::ImageSampler]);
    assert_eq!(c.time.slots, vec![BindingKind::UniformBlock]);
    assert_eq!(c.params.slots, vec![BindingKind::UniformBlock]);
    assert_eq!(c.resolution.slots, vec![BindingKind::UniformBlock]);
    assert_eq!(c.atomic_storage.slots, vec![BindingKind::StorageBuffer]);
}

#[test]
fn pipeline_group_orders() {
    assert_eq!(
        pipeline_groups(PipelineLayoutKind::Texture),
        vec![
            BindingKind::ImageSampler,
            BindingKind::UniformBlock,
            BindingKind::UniformBlock,
            BindingKind::UniformBlock,
        ]
    );
    assert_eq!(
        pipeline_groups(PipelineLayoutKind::Buffer),
        vec![
            BindingKind::UniformBlock,
            BindingKind::UniformBlock,
            BindingKind::UniformBlock,
            BindingKind::UniformBlock,
        ]
    );
    assert_eq!(
        feedback_groups(),
        vec![
            BindingKind::ImageSampler,
            BindingKind::UniformBlock,
            BindingKind::UniformBlock,
            BindingKind::StorageBuffer,
        ]
    );
}

#[test]
fn build_installs_compatible_program() {
    let mut reg = PipelineRegistry::create();
    let pair = ProgramPair { program_id: 5, wants: pipeline_groups(PipelineLayoutKind::Texture) };
    let p = reg.build(&pair, PipelineLayoutKind::Texture).unwrap();
    assert_eq!(p.program_id, 5);
    assert_eq!(p.layout, PipelineLayoutKind::Texture);
    assert_eq!(reg.active, Some(p));
}

#[test]
fn failed_build_keeps_previous_pipeline_active() {
    let mut reg = PipelineRegistry::create();
    let good = ProgramPair { program_id: 5, wants: pipeline_groups(PipelineLayoutKind::Texture) };
    let installed = reg.build(&good, PipelineLayoutKind::Texture).unwrap();

    // wrong binding count
    let short = ProgramPair { program_id: 6, wants: vec![BindingKind::ImageSampler] };
    let r = reg.build(&short, PipelineLayoutKind::Texture);
    assert_eq!(r.unwrap_err(), CompileError::WrongBindingCount);
    assert_eq!(reg.active, Some(installed));

    // wrong binding type at slot 0
    let wrong = ProgramPair { program_id: 7, wants: pipeline_groups(PipelineLayoutKind::Buffer) };
    let r = reg.build(&wrong, PipelineLayoutKind::Texture);
    assert_eq!(r.unwrap_err(), CompileError::WrongBindingType { slot: 0 });
    assert_eq!(reg.active, Some(installed));
}

#[test]
fn watcher_round_trip_without_changes() {
    let mut w = HotReloadWatcher::create(vec![100, 200]);
    w.begin_check();
    assert_eq!(w.state, WatcherState::Checking);
    w.observe(&vec![100, 200]);
    assert_eq!(w.state, WatcherState::Idle);
    assert_eq!(w.last_seen, vec![100, 200]);
}

#[test]
fn watcher_recompiles_on_advanced_stamp() {
    let mut w = HotReloadWatcher::create(vec![100, 200]);
    w.begin_check();
    w.observe(&vec![100, 201]);
    assert_eq!(w.state, WatcherState::Recompiling);
    assert_eq!(w.last_seen, vec![100, 201]);
    w.finish_recompile(true);
    assert_eq!(w.state, WatcherState::Published);
    w.acknowledge_published();
    assert_eq!(w.state, WatcherState::Idle);
}

#[test]
fn watcher_ignores_stamp_going_backwards() {
    let mut w = HotReloadWatcher::create(vec![100, 200]);
    w.begin_check();
    w.observe(&vec![99, 200]);
    assert_eq!(w.state, WatcherState::Idle);
    assert_eq!(w.last_seen, vec![100, 200]);
}

#[test]
fn watcher_returns_to_idle_on_compile_failure() {
    let mut w = HotReloadWatcher::create(vec![100]);
    w.begin_check();
    w.observe(&vec![101]);
    assert_eq!(w.state, WatcherState::Recompiling);
    w.finish_recompile(false);
    assert_eq!(w.state, WatcherState::Idle);
}

fn pipeline(id: u64, generation: u64) -> PipelineObject {
    PipelineObject { program_id: id, layout: PipelineLayoutKind::Texture, generation }
}

#[test]
fn reload_is_all_or_nothing() {
    let before = vec![pipeline(1, 0), pipeline(2, 1)];

    // one dependent rebuild failed: the entire reload is aborted
    let mut active = before.clone();
    let applied = apply_reload(
        &mut active,
        &vec![Ok(pipeline(10, 2)), Err(CompileError::WrongBindingCount)],
    );
    assert!(!applied);
    assert_eq!(active, before);

    // every rebuild succeeded: all slots are replaced
    let mut active = before.clone();
    let applied = apply_reload(&mut active, &vec![Ok(pipeline(10, 2)), Ok(pipeline(20, 3))]);
    assert!(applied);
    assert_eq!(active, vec![pipeline(10, 2), pipeline(20, 3)]);
}
