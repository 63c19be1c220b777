use slime_mould::registry::KernelKind;
use slime_mould::watcher::{
    file_name, kernel_for_file, reload_target, source_path, watched_dir, ChangeKind, WatchEvent,
    DEBOUNCE_MILLIS,
};

#[test]
fn the_debounce_window() {
    assert_eq!(DEBOUNCE_MILLIS, 200);
}

#[test]
fn kernel_files() {
    assert_eq!(file_name(KernelKind::Move), "move_slimes.wgsl");
    assert_eq!(file_name(KernelKind::Update), "update_world.wgsl");
    assert_eq!(file_name(KernelKind::Convert), "world_to_tex.wgsl");
    assert_eq!(watched_dir(), "src/shaders/");
    assert_eq!(source_path(KernelKind::Move), "src/shaders/move_slimes.wgsl");
    assert_eq!(source_path(KernelKind::Update), "src/shaders/update_world.wgsl");
    assert_eq!(source_path(KernelKind::Convert), "src/shaders/world_to_tex.wgsl");
}

#[test]
fn each_kernel_is_found_by_its_file_name() {
    for kind in [KernelKind::Move, KernelKind::Update, KernelKind::Convert] {
        assert_eq!(kernel_for_file(file_name(kind)), Some(kind));
    }
}

#[test]
fn other_names_belong_to_no_kernel() {
    assert_eq!(kernel_for_file("shader.wgsl"), None);
    assert_eq!(kernel_for_file(""), None);
    assert_eq!(kernel_for_file("move_slimes.wgsl~"), None);
    assert_eq!(kernel_for_file("Move_slimes.wgsl"), None);
    assert_eq!(kernel_for_file("src/shaders/move_slimes.wgsl"), None);
}

fn event(kind: ChangeKind, name: Option<&str>) -> Option<WatchEvent> {
    Some(WatchEvent { kind, file_name: name.map(String::from) })
}

#[test]
fn a_write_to_a_kernel_source_asks_for_a_reload() {
    assert_eq!(
        reload_target(&event(ChangeKind::Write, Some("update_world.wgsl"))),
        Some(KernelKind::Update)
    );
    assert_eq!(
        reload_target(&event(ChangeKind::Write, Some("move_slimes.wgsl"))),
        Some(KernelKind::Move)
    );
    assert_eq!(
        reload_target(&event(ChangeKind::Write, Some("world_to_tex.wgsl"))),
        Some(KernelKind::Convert)
    );
}

#[test]
fn everything_else_asks_for_nothing() {
    assert_eq!(reload_target(&None), None);
    assert_eq!(reload_target(&event(ChangeKind::Write, None)), None);
    assert_eq!(reload_target(&event(ChangeKind::Write, Some("notes.txt"))), None);
    for kind in [
        ChangeKind::NoticeWrite,
        ChangeKind::NoticeRemove,
        ChangeKind::Create,
        ChangeKind::Chmod,
        ChangeKind::Remove,
        ChangeKind::Rename,
        ChangeKind::Rescan,
        ChangeKind::Error,
    ] {
        assert_eq!(reload_target(&event(kind, Some("move_slimes.wgsl"))), None);
    }
}
