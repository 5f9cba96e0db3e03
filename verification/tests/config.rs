use turkcode::config::{AppConfig, ConfigManager, EditorConfig};

fn manager() -> ConfigManager {
    ConfigManager::new("/data/config.json".to_string(), None)
}

fn texts(items: &[&str]) -> Vec<String> {
    items.iter().map(|s| s.to_string()).collect()
}

#[test]
fn default_editor_settings() {
    assert_eq!(
        EditorConfig::default(),
        EditorConfig {
            font_family: "JetBrains Mono, monospace".to_string(),
            font_size: 14,
            tab_size: 4,
            insert_spaces: true,
            word_wrap: true,
            auto_save: false,
            theme: "vs-dark".to_string(),
            rulers: vec![80, 100],
            minimap_enabled: true,
        }
    );
}

#[test]
fn default_application_settings() {
    assert_eq!(
        AppConfig::default(),
        AppConfig {
            language: "tr".to_string(),
            show_welcome_page: true,
            recent_projects: Vec::new(),
            editor: EditorConfig::default(),
        }
    );
}

#[test]
fn manager_without_a_file_holds_the_defaults() {
    let manager = manager();
    assert_eq!(manager.get_config(), AppConfig::default());
    assert_eq!(manager.config_path(), "/data/config.json");
}

#[test]
fn manager_holds_what_was_stored() {
    let mut stored = AppConfig::default();
    stored.language = "en".to_string();
    stored.editor.font_size = 18;
    stored.editor.rulers = vec![120];
    let manager = ConfigManager::new("c.json".to_string(), Some(stored.clone()));
    assert_eq!(manager.get_config(), stored);
}

#[test]
fn update_replaces_the_settings() {
    let mut manager = manager();
    let mut next = AppConfig::default();
    next.show_welcome_page = false;
    next.recent_projects = texts(&["/a"]);
    manager.update_config(next.clone());
    assert_eq!(manager.get_config(), next);
    assert_eq!(manager.config_path(), "/data/config.json");
}

#[test]
fn copies_are_equal() {
    let mut config = AppConfig::default();
    config.recent_projects = texts(&["/a", "/b"]);
    assert_eq!(config.duplicate(), config);
    assert_eq!(config.editor.duplicate(), config.editor);
}

#[test]
fn recent_project_goes_to_the_front() {
    let mut manager = manager();
    manager.add_recent_project("/a");
    manager.add_recent_project("/b");
    manager.add_recent_project("/c");
    assert_eq!(manager.get_config().recent_projects, texts(&["/c", "/b", "/a"]));
}

#[test]
fn recent_project_is_listed_once() {
    let mut manager = manager();
    manager.add_recent_project("/a");
    manager.add_recent_project("/b");
    manager.add_recent_project("/a");
    assert_eq!(manager.get_config().recent_projects, texts(&["/a", "/b"]));
    manager.add_recent_project("/a");
    assert_eq!(manager.get_config().recent_projects, texts(&["/a", "/b"]));
}

#[test]
fn repeated_entries_of_a_stored_list_are_all_dropped() {
    let mut stored = AppConfig::default();
    stored.recent_projects = texts(&["/a", "/b", "/a", "/c", "/a"]);
    let mut manager = ConfigManager::new("c.json".to_string(), Some(stored));
    manager.add_recent_project("/a");
    assert_eq!(manager.get_config().recent_projects, texts(&["/a", "/b", "/c"]));
}

#[test]
fn ten_recent_projects_are_remembered() {
    let mut manager = manager();
    for i in 0..10 {
        manager.add_recent_project(&format!("/p{}", i));
    }
    assert_eq!(
        manager.get_config().recent_projects,
        texts(&["/p9", "/p8", "/p7", "/p6", "/p5", "/p4", "/p3", "/p2", "/p1", "/p0"])
    );
    manager.add_recent_project("/p10");
    assert_eq!(
        manager.get_config().recent_projects,
        texts(&["/p10", "/p9", "/p8", "/p7", "/p6", "/p5", "/p4", "/p3", "/p2", "/p1"])
    );
    manager.add_recent_project("/p5");
    assert_eq!(
        manager.get_config().recent_projects,
        texts(&["/p5", "/p10", "/p9", "/p8", "/p7", "/p6", "/p4", "/p3", "/p2", "/p1"])
    );
}

#[test]
fn overlong_stored_list_is_cut() {
    let mut stored = AppConfig::default();
    stored.recent_projects = (0..15).map(|i| format!("/p{}", i)).collect();
    let mut manager = ConfigManager::new("c.json".to_string(), Some(stored));
    manager.add_recent_project("/new");
    let recent = manager.get_config().recent_projects;
    assert_eq!(recent.len(), 10);
    assert_eq!(recent[0], "/new");
    assert_eq!(recent[9], "/p8");
}

#[test]
fn adding_a_project_leaves_the_other_settings() {
    let mut stored = AppConfig::default();
    stored.language = "en".to_string();
    stored.show_welcome_page = false;
    stored.editor.theme = "light".to_string();
    let mut manager = ConfigManager::new("c.json".to_string(), Some(stored.clone()));
    manager.add_recent_project("/a");
    let config = manager.get_config();
    assert_eq!(config.language, "en");
    assert!(!config.show_welcome_page);
    assert_eq!(config.editor, stored.editor);
    assert_eq!(manager.config_path(), "c.json");
}
