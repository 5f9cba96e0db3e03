//! The editor's settings as they are held in memory. Reading and writing
//! the settings file is the caller's part.

use vstd::prelude::*;
use crate::text::{copy_numbers, copy_texts};

verus! {

/// How the editor shows and edits text.
#[derive(Clone, Debug, PartialEq, Eq)]
pub struct EditorConfig {
    pub font_family: String,
    pub font_size: u32,
    pub tab_size: u32,
    pub insert_spaces: bool,
    pub word_wrap: bool,
    pub auto_save: bool,
    pub theme: String,
    pub rulers: Vec<u32>,
    pub minimap_enabled: bool,
}

/// Editor settings with their texts as sequences of characters.
pub struct EditorConfigView {
    pub font_family: Seq<char>,
    pub font_size: u32,
    pub tab_size: u32,
    pub insert_spaces: bool,
    pub word_wrap: bool,
    pub auto_save: bool,
    pub theme: Seq<char>,
    pub rulers: Seq<u32>,
    pub minimap_enabled: bool,
}

impl DeepView for EditorConfig {
    type V = EditorConfigView;

    open spec fn deep_view(&self) -> EditorConfigView {
        EditorConfigView {
            font_family: self.font_family@,
            font_size: self.font_size,
            tab_size: self.tab_size,
            insert_spaces: self.insert_spaces,
            word_wrap: self.word_wrap,
            auto_save: self.auto_save,
            theme: self.theme@,
            rulers: self.rulers@,
            minimap_enabled: self.minimap_enabled,
        }
    }
}

/// The editor settings of a fresh installation.
pub open spec fn default_editor_config() -> EditorConfigView {
    EditorConfigView {
        font_family: "JetBrains Mono, monospace"@,
        font_size: 14,
        tab_size: 4,
        insert_spaces: true,
        word_wrap: true,
        auto_save: false,
        theme: "vs-dark"@,
        rulers: seq![80u32, 100u32],
        minimap_enabled: true,
    }
}

impl Default for EditorConfig {
    fn default() -> (r: Self)
        ensures
            r.deep_view() == default_editor_config(),
    {
        let mut rulers: Vec<u32> = Vec::new();
        rulers.push(80);
        rulers.push(100);
        assert(rulers@ =~= seq![80u32, 100u32]);
        EditorConfig {
            font_family: "JetBrains Mono, monospace".to_owned(),
            font_size: 14,
            tab_size: 4,
            insert_spaces: true,
            word_wrap: true,
            auto_save: false,
            theme: "vs-dark".to_owned(),
            rulers,
            minimap_enabled: true,
        }
    }
}

impl EditorConfig {
    /// A copy of the settings.
    pub fn duplicate(&self) -> (r: Self)
        ensures
            r.deep_view() == self.deep_view(),
    {
        EditorConfig {
            font_family: self.font_family.clone(),
            font_size: self.font_size,
            tab_size: self.tab_size,
            insert_spaces: self.insert_spaces,
            word_wrap: self.word_wrap,
            auto_save: self.auto_save,
            theme: self.theme.clone(),
            rulers: copy_numbers(&self.rulers),
            minimap_enabled: self.minimap_enabled,
        }
    }
}

/// The settings of the application.
#[derive(Clone, Debug, PartialEq, Eq)]
pub struct AppConfig {
    pub language: String,
    pub show_welcome_page: bool,
    pub recent_projects: Vec<String>,
    pub editor: EditorConfig,
}

/// Application settings with their texts as sequences of characters.
pub struct AppConfigView {
    pub language: Seq<char>,
    pub show_welcome_page: bool,
    pub recent_projects: Seq<Seq<char>>,
    pub editor: EditorConfigView,
}

impl DeepView for AppConfig {
    type V = AppConfigView;

    open spec fn deep_view(&self) -> AppConfigView {
        AppConfigView {
            language: self.language@,
            show_welcome_page: self.show_welcome_page,
            recent_projects: self.recent_projects.deep_view(),
            editor: self.editor.deep_view(),
        }
    }
}

/// The application settings of a fresh installation.
pub open spec fn default_app_config() -> AppConfigView {
    AppConfigView {
        language: "tr"@,
        show_welcome_page: true,
        recent_projects: Seq::empty(),
        editor: default_editor_config(),
    }
}

impl Default for AppConfig {
    fn default() -> (r: Self)
        ensures
            r.deep_view() == default_app_config(),
    {
        let recent_projects: Vec<String> = Vec::new();
        assert(recent_projects.deep_view() =~= Seq::<Seq<char>>::empty());
        AppConfig {
            language: "tr".to_owned(),
            show_welcome_page: true,
            recent_projects,
            editor: EditorConfig::default(),
        }
    }
}

impl AppConfig {
    /// A copy of the settings.
    pub fn duplicate(&self) -> (r: Self)
        ensures
            r.deep_view() == self.deep_view(),
    {
        AppConfig {
            language: self.language.clone(),
            show_welcome_page: self.show_welcome_page,
            recent_projects: copy_texts(&self.recent_projects),
            editor: self.editor.duplicate(),
        }
    }
}

/// How many recent projects are remembered.
pub const MAX_RECENT_PROJECTS: usize = 10;

/// `list` without every entry that equals `path`, the order of the others
/// kept.
pub open spec fn without(list: Seq<Seq<char>>, path: Seq<char>) -> Seq<Seq<char>>
    decreases list.len(),
{
    if list.len() == 0 {
        list
    } else if list.last() == path {
        without(list.drop_last(), path)
    } else {
        without(list.drop_last(), path).push(list.last())
    }
}

/// The recent projects after `path` was opened: `path` first, then the
/// others as they were, and no more than the remembered number in all.
pub open spec fn recent_after(list: Seq<Seq<char>>, path: Seq<char>) -> Seq<Seq<char>> {
    let all = seq![path] + without(list, path);
    if all.len() > MAX_RECENT_PROJECTS {
        all.take(MAX_RECENT_PROJECTS as int)
    } else {
        all
    }
}

/// The settings in memory and the place of the file that stores them.
pub struct ConfigManager {
    config_path: String,
    config: AppConfig,
}

impl ConfigManager {
    /// The settings that the manager holds.
    pub closed spec fn view(&self) -> AppConfigView {
        self.config.deep_view()
    }

    /// The path of the settings file.
    pub closed spec fn path(&self) -> Seq<char> {
        self.config_path@
    }

    /// A manager for the settings file at `config_path`, holding what was
    /// read from it, or the settings of a fresh installation where there
    /// was no file.
    pub fn new(config_path: String, stored: Option<AppConfig>) -> (r: Self)
        ensures
            r.path() == config_path@,
            r@ == match stored {
                Some(config) => config.deep_view(),
                None => default_app_config(),
            },
    {
        let config = match stored {
            Some(config) => config,
            None => AppConfig::default(),
        };
        ConfigManager { config_path, config }
    }

    /// The path of the settings file.
    pub fn config_path(&self) -> (r: &String)
        ensures
            r@ == self.path(),
    {
        &self.config_path
    }

    /// A copy of the settings.
    pub fn get_config(&self) -> (r: AppConfig)
        ensures
            r.deep_view() == self@,
    {
        self.config.duplicate()
    }

    /// Replaces the settings.
    pub fn update_config(&mut self, new_config: AppConfig)
        ensures
            final(self)@ == new_config.deep_view(),
            final(self).path() == old(self).path(),
    {
        self.config = new_config;
    }

    /// Puts `path` at the front of the recent projects. An earlier entry
    /// for it is dropped, and so is what no longer fits in the list.
    pub fn add_recent_project(&mut self, path: &str)
        ensures
            final(self)@.recent_projects == recent_after(old(self)@.recent_projects, path@),
            final(self)@.language == old(self)@.language,
            final(self)@.show_welcome_page == old(self)@.show_welcome_page,
            final(self)@.editor == old(self)@.editor,
            final(self).path() == old(self).path(),
    {
        let ghost before = self.config.recent_projects.deep_view();
        let mut next: Vec<String> = Vec::new();
        next.push(path.to_owned());
        assert(next.deep_view() =~= seq![path@] + without(before.take(0), path@));
        let mut i: usize = 0;
        while i < self.config.recent_projects.len()
            invariant
                i <= self.config.recent_projects.len(),
                before == self.config.recent_projects.deep_view(),
                next.deep_view() == seq![path@] + without(before.take(i as int), path@),
            decreases self.config.recent_projects.len() - i,
        {
            let ghost so_far = next.deep_view();
            proof {
                assert(before.take(i + 1).drop_last() =~= before.take(i as int));
                assert(before.take(i + 1).last() == self.config.recent_projects[i as int]@);
            }
            if !self.config.recent_projects[i].as_str().eq(path) {
                next.push(self.config.recent_projects[i].clone());
                assert(next.deep_view() =~= so_far.push(self.config.recent_projects[i as int]@));
                assert(next.deep_view() =~= seq![path@] + without(
                    before.take(i + 1),
                    path@,
                ));
            }
            i += 1;
        }
        proof {
            assert(before.take(i as int) =~= before);
        }
        if next.len() > MAX_RECENT_PROJECTS {
            let ghost all = next.deep_view();
            next.truncate(MAX_RECENT_PROJECTS);
            assert(next.deep_view() =~= all.take(MAX_RECENT_PROJECTS as int));
        }
        self.config.recent_projects = next;
    }
}

} // verus!
