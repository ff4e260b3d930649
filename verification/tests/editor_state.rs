use velocis::commands::Command;
use velocis::persist::{load_recent_projects, save_recent_projects, ProjectEntry, SaveData};
use velocis::state::{AppView, DialogKey, ProjectMeta, Settings, VelocisApp};

fn meta(id: &str, name: &str, secs: Option<u64>) -> ProjectMeta {
    ProjectMeta { id: id.to_string(), name: name.to_string(), path: String::new(), last_opened: secs }
}

fn fresh() -> VelocisApp {
    VelocisApp::new(vec![meta("p1", "Premier", Some(10)), meta("p2", "Second", Some(20))])
}

#[test]
fn default_settings() {
    let s = Settings::default();
    assert_eq!(s.theme, "dark");
    assert!(s.autosave);
}

#[test]
fn starts_home_without_projects() {
    let app = VelocisApp::new(vec![]);
    assert_eq!(app.view, AppView::Home);
    assert_eq!(app.current_project_id, "");
    assert!(!app.command_palette_open && !app.playing && !app.show_new_project_dialog);
    assert!(app.selected_clip_id.is_none());
    assert_eq!(app.current_project_name(), "");
}

#[test]
fn starts_in_editor_on_first_project() {
    let app = fresh();
    assert_eq!(app.view, AppView::Editor);
    assert_eq!(app.current_project_id, "p1");
    assert_eq!(app.current_project_name(), "Premier");
    assert_eq!(app.recent_projects.len(), 2);
}

#[test]
fn palette_toggles_back() {
    let mut app = fresh();
    app.toggle_command_palette();
    assert!(app.command_palette_open);
    app.toggle_command_palette();
    assert!(!app.command_palette_open);
}

#[test]
fn play_toggles_back() {
    let mut app = fresh();
    assert!(app.toggle_play());
    assert!(app.playing);
    assert!(!app.toggle_play());
    assert!(!app.playing);
    app.toggle_play();
    app.stop_playback();
    assert!(!app.playing);
}

#[test]
fn going_home() {
    let mut app = fresh();
    app.toggle_command_palette();
    app.go_home();
    assert_eq!(app.view, AppView::Home);
    assert!(!app.command_palette_open);
    assert_eq!(app.current_project_id, "p1");
}

#[test]
fn opening_projects() {
    let mut app = fresh();
    app.select_clip("c1");
    app.toggle_play();
    app.go_home();
    app.open_project("p2");
    assert_eq!(app.current_project_id, "p2");
    assert_eq!(app.current_project_name(), "Second");
    assert_eq!(app.view, AppView::Editor);
    assert!(app.selected_clip_id.is_none());
    assert!(!app.playing);
    app.open_project("missing");
    assert_eq!(app.current_project_name(), "");
}

#[test]
fn first_project_with_an_id_names_it() {
    let mut app = VelocisApp::new(vec![meta("x", "A", None), meta("x", "B", None)]);
    app.open_project("x");
    assert_eq!(app.current_project_name(), "A");
}

#[test]
fn selecting_clips() {
    let mut app = fresh();
    assert!(!app.is_clip_selected("c1"));
    app.select_clip("c1");
    assert_eq!(app.selected_clip_id.as_deref(), Some("c1"));
    assert!(app.is_clip_selected("c1"));
    assert!(!app.is_clip_selected("c2"));
}

#[test]
fn dialog_typing_and_erasing() {
    let mut app = fresh();
    app.start_new_project();
    assert!(app.show_new_project_dialog);
    assert_eq!(app.new_project_name, "");
    assert_eq!(app.dialog_key("a"), DialogKey::Edited);
    assert_eq!(app.dialog_key("b"), DialogKey::Edited);
    assert_eq!(app.new_project_name, "ab");
    assert_eq!(app.dialog_key("backspace"), DialogKey::Edited);
    assert_eq!(app.new_project_name, "a");
    assert_eq!(app.dialog_key("backspace"), DialogKey::Edited);
    assert_eq!(app.dialog_key("backspace"), DialogKey::Edited);
    assert_eq!(app.new_project_name, "");
    assert_eq!(app.dialog_key("é"), DialogKey::Ignored);
    assert_eq!(app.dialog_key("shift"), DialogKey::Ignored);
    assert_eq!(app.dialog_key(" "), DialogKey::Edited);
    assert_eq!(app.new_project_name, " ");
}

#[test]
fn dialog_escape_and_enter() {
    let mut app = fresh();
    app.start_new_project();
    app.dialog_key("x");
    assert_eq!(app.dialog_key("enter"), DialogKey::Confirm);
    assert_eq!(app.dialog_key("return"), DialogKey::Confirm);
    assert!(app.show_new_project_dialog);
    assert_eq!(app.dialog_key("escape"), DialogKey::Closed);
    assert!(!app.show_new_project_dialog);
    assert_eq!(app.new_project_name, "x");
}

#[test]
fn creating_a_project_with_given_id() {
    let mut app = fresh();
    app.start_new_project();
    app.dialog_key("M");
    app.dialog_key("y");
    app.select_clip("c");
    app.confirm_new_project_with("123".to_string(), Some(99));
    assert_eq!(app.current_project_id, "proj_123");
    assert_eq!(app.recent_projects.len(), 3);
    assert_eq!(app.recent_projects[0].id, "proj_123");
    assert_eq!(app.recent_projects[0].name, "My");
    assert_eq!(app.recent_projects[0].path, "");
    assert_eq!(app.recent_projects[0].last_opened, Some(99));
    assert_eq!(app.recent_projects[1].id, "p1");
    assert_eq!(app.recent_projects[2].id, "p2");
    assert_eq!(app.current_project_name(), "My");
    assert!(!app.show_new_project_dialog);
    assert!(app.selected_clip_id.is_none());
    assert_eq!(app.view, AppView::Editor);
}

#[test]
fn creating_an_untitled_project() {
    let mut app = VelocisApp::new(vec![]);
    app.start_new_project();
    app.confirm_new_project();
    assert!(app.current_project_id.starts_with("proj_"));
    assert!(app.current_project_id["proj_".len()..].chars().all(|c| c.is_ascii_digit()));
    assert_eq!(app.current_project_name(), "Sans titre");
    assert!(app.recent_projects[0].last_opened.unwrap() > 1_600_000_000);
    assert_eq!(app.view, AppView::Editor);
}

#[test]
fn global_commands() {
    let mut app = fresh();
    assert!(!app.apply_command(Command::CommandPalette));
    assert!(app.command_palette_open);
    assert!(app.apply_command(Command::GoHome));
    assert_eq!(app.view, AppView::Home);
    assert!(!app.command_palette_open);
    assert!(!app.apply_command(Command::NewProject));
    assert!(app.show_new_project_dialog);
    assert!(app.apply_command(Command::SaveProject));
    assert!(app.show_new_project_dialog);
}

#[test]
fn saving_recent_projects() {
    let saved = save_recent_projects(&[meta("a", "A", Some(5)), meta("b", "B", None)]);
    assert_eq!(saved.recent_projects.len(), 2);
    assert_eq!(saved.recent_projects[0].id, "a");
    assert_eq!(saved.recent_projects[0].name, "A");
    assert_eq!(saved.recent_projects[0].last_opened_secs, 5);
    assert_eq!(saved.recent_projects[1].last_opened_secs, 0);
}

#[test]
fn loading_recent_projects() {
    assert!(load_recent_projects(None).is_empty());
    let data = SaveData {
        recent_projects: vec![ProjectEntry { id: "a".to_string(), name: "A".to_string(), last_opened_secs: 7 }],
    };
    let ps = load_recent_projects(Some(data));
    assert_eq!(ps.len(), 1);
    assert_eq!(ps[0].id, "a");
    assert_eq!(ps[0].name, "A");
    assert_eq!(ps[0].path, "");
    assert_eq!(ps[0].last_opened, Some(7));
}

#[test]
fn save_then_load_keeps_projects() {
    let ps = vec![meta("a", "A", Some(5)), meta("b", "B", None)];
    let back = load_recent_projects(Some(save_recent_projects(&ps)));
    assert_eq!(back.len(), 2);
    assert_eq!((back[0].id.as_str(), back[0].name.as_str(), back[0].last_opened), ("a", "A", Some(5)));
    assert_eq!((back[1].id.as_str(), back[1].name.as_str(), back[1].last_opened), ("b", "B", Some(0)));
}

#[test]
fn load_then_save_keeps_entries() {
    let data = SaveData {
        recent_projects: vec![
            ProjectEntry { id: "a".to_string(), name: "A".to_string(), last_opened_secs: 1 },
            ProjectEntry { id: "b".to_string(), name: "B".to_string(), last_opened_secs: 2 },
        ],
    };
    let again = save_recent_projects(&load_recent_projects(Some(data)));
    assert_eq!(again.recent_projects.len(), 2);
    assert_eq!(again.recent_projects[1].id, "b");
    assert_eq!(again.recent_projects[1].last_opened_secs, 2);
}
