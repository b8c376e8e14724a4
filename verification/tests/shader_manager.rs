use plix::shader_manager::shader_name;
use plix::shader_manager::AccessKind;
use plix::shader_manager::AccessMode;
use plix::shader_manager::EventKind;
use plix::shader_manager::FsEvent;
use plix::shader_manager::ShaderManager;
use plix::shader_manager::Signal;

fn listing(names: &[&str]) -> Vec<String> {
    names.iter().map(|n| String::from(*n)).collect()
}

fn written(path: &str) -> FsEvent {
    FsEvent {
        kind: EventKind::Access(AccessKind::Close(AccessMode::Write)),
        paths: vec![String::from(path)],
    }
}

fn catalog() -> ShaderManager {
    ShaderManager::new(listing(&["shaders/a.wgsl", "shaders/b.wgsl", "shaders/c.wgsl"]))
}

#[test]
fn a_new_catalog_selects_the_first_shader() {
    let manager = catalog();
    assert_eq!(manager.selected(), "shaders/a.wgsl");
    assert_eq!(manager.shaders, listing(&["shaders/a.wgsl", "shaders/b.wgsl", "shaders/c.wgsl"]));
}

#[test]
fn a_listing_that_still_has_the_selection_keeps_it() {
    let mut manager = catalog();
    manager.select("shaders/b.wgsl");
    manager.scan(listing(&["shaders/z.wgsl", "shaders/b.wgsl"]));
    assert_eq!(manager.selected(), "shaders/b.wgsl");
    assert_eq!(manager.shaders, listing(&["shaders/z.wgsl", "shaders/b.wgsl"]));
}

#[test]
fn a_listing_without_the_selection_falls_back_to_its_first_entry() {
    let mut manager = catalog();
    manager.select("shaders/b.wgsl");
    manager.scan(listing(&["shaders/z.wgsl", "shaders/a.wgsl"]));
    assert_eq!(manager.selected(), "shaders/z.wgsl");
    assert!(manager.shaders.contains(&manager.selected));
}

#[test]
fn a_listing_of_one_shader_selects_it() {
    let mut manager = catalog();
    manager.scan(listing(&["shaders/only.wgsl"]));
    assert_eq!(manager.selected(), "shaders/only.wgsl");
}

#[test]
fn writing_the_selected_shader_reloads_it() {
    let manager = catalog();
    assert_eq!(
        manager.update(&written("shaders/a.wgsl")),
        Signal::Reload(String::from("shaders/a.wgsl"))
    );
    assert_eq!(
        manager.on_change_notification("shaders/a.wgsl"),
        Signal::Reload(String::from("shaders/a.wgsl"))
    );
}

#[test]
fn writing_any_other_file_lists_the_directory_again() {
    let manager = catalog();
    assert_eq!(manager.update(&written("shaders/b.wgsl")), Signal::Rescan);
    assert_eq!(manager.update(&written("shaders/new.wgsl")), Signal::Rescan);
    assert_eq!(manager.on_change_notification("shaders/a.wgs"), Signal::Rescan);
    assert_eq!(manager.on_change_notification("shaders/a.wgsl2"), Signal::Rescan);
    assert_eq!(manager.on_change_notification(""), Signal::Rescan);
}

#[test]
fn only_the_first_file_of_a_notification_counts() {
    let manager = catalog();
    let event = FsEvent {
        kind: EventKind::Access(AccessKind::Close(AccessMode::Write)),
        paths: listing(&["shaders/b.wgsl", "shaders/a.wgsl"]),
    };
    assert_eq!(manager.update(&event), Signal::Rescan);
}

#[test]
fn notifications_of_other_kinds_mean_nothing() {
    let manager = catalog();
    let kinds = [
        EventKind::Any,
        EventKind::Create,
        EventKind::Modify,
        EventKind::Remove,
        EventKind::Other,
        EventKind::Access(AccessKind::Any),
        EventKind::Access(AccessKind::Read),
        EventKind::Access(AccessKind::Other),
        EventKind::Access(AccessKind::Open(AccessMode::Write)),
        EventKind::Access(AccessKind::Close(AccessMode::Read)),
        EventKind::Access(AccessKind::Close(AccessMode::Any)),
        EventKind::Access(AccessKind::Close(AccessMode::Execute)),
        EventKind::Access(AccessKind::Close(AccessMode::Other)),
    ];
    for kind in kinds {
        let event = FsEvent { kind, paths: listing(&["shaders/a.wgsl"]) };
        assert_eq!(manager.update(&event), Signal::Nothing);
        let empty = FsEvent { kind, paths: Vec::new() };
        assert_eq!(manager.update(&empty), Signal::Nothing);
    }
}

#[test]
fn selecting_b_signals_b_once_and_a_is_no_longer_reloaded() {
    let mut manager = catalog();
    assert_eq!(manager.selected(), "shaders/a.wgsl");
    let signal = manager.select("shaders/b.wgsl");
    assert_eq!(signal, Signal::Reload(String::from("shaders/b.wgsl")));
    assert_eq!(manager.selected(), "shaders/b.wgsl");
    assert_eq!(manager.update(&written("shaders/a.wgsl")), Signal::Rescan);
    assert_eq!(
        manager.update(&written("shaders/b.wgsl")),
        Signal::Reload(String::from("shaders/b.wgsl"))
    );
}

#[test]
fn selecting_what_is_not_listed_changes_nothing() {
    let mut manager = catalog();
    let before = manager.clone();
    assert_eq!(manager.select("shaders/missing.wgsl"), Signal::Nothing);
    assert_eq!(manager, before);
}

#[test]
fn clicking_a_label_selects_that_shader() {
    let mut manager = catalog();
    let (signal, rescan) = manager.render_ui(Some(2), false);
    assert_eq!(signal, Signal::Reload(String::from("shaders/c.wgsl")));
    assert!(!rescan);
    assert_eq!(manager.selected(), "shaders/c.wgsl");
}

#[test]
fn clicking_reload_asks_for_a_listing() {
    let mut manager = catalog();
    let before = manager.clone();
    let (signal, rescan) = manager.render_ui(None, true);
    assert_eq!(signal, Signal::Nothing);
    assert!(rescan);
    assert_eq!(manager, before);
}

#[test]
fn a_frame_without_clicks_does_nothing() {
    let mut manager = catalog();
    let before = manager.clone();
    assert_eq!(manager.render_ui(None, false), (Signal::Nothing, false));
    assert_eq!(manager.render_ui(Some(3), false), (Signal::Nothing, false));
    assert_eq!(manager, before);
}

#[test]
fn a_shader_is_shown_by_the_name_of_its_file() {
    assert_eq!(shader_name("shaders/plasma.wgsl"), Some(String::from("plasma")));
    assert_eq!(shader_name("shaders/a.b.wgsl"), Some(String::from("a")));
    assert_eq!(shader_name("shaders/sub/deep.wgsl"), Some(String::from("sub/deep")));
    assert_eq!(shader_name("my.shaders/x.wgsl"), Some(String::from("x")));
    assert_eq!(shader_name("shaders/.wgsl"), Some(String::new()));
    assert_eq!(shader_name("/."), Some(String::new()));
    assert_eq!(shader_name("shaders/wellen\u{e4}.wgsl"), Some(String::from("wellen\u{e4}")));
}

#[test]
fn a_path_without_slash_or_dot_has_no_name() {
    assert_eq!(shader_name(""), None);
    assert_eq!(shader_name("plasma.wgsl"), None);
    assert_eq!(shader_name("shaders/plasma"), None);
    assert_eq!(shader_name("a.b/plasma"), None);
    assert_eq!(shader_name("shaders/"), None);
}

#[test]
fn only_a_file_closed_after_writing_counts_as_written() {
    assert!(written("shaders/a.wgsl").is_written());
    let opened = FsEvent {
        kind: EventKind::Access(AccessKind::Open(AccessMode::Write)),
        paths: listing(&["shaders/a.wgsl"]),
    };
    assert!(!opened.is_written());
    let modified = FsEvent { kind: EventKind::Modify, paths: listing(&["shaders/a.wgsl"]) };
    assert!(!modified.is_written());
}
