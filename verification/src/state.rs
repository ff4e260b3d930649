use vstd::prelude::*;
use crate::ids::{nanoid, now_unix_secs, is_nano_id};
use crate::text::str_equals;
use crate::commands::Command;

verus! {

/// The screen the editor shows.
#[derive(Clone, Copy, Debug, PartialEq, Eq, Structural)]
pub enum AppView {
    Home,
    Editor,
}

/// An entry of the recent projects list.
pub struct ProjectMeta {
    pub id: String,
    pub name: String,
    pub path: String,
    /// When the project was last opened, in whole seconds since the Unix
    /// epoch; `None` when the clock read before the epoch.
    pub last_opened: Option<u64>,
}

impl Clone for ProjectMeta {
    fn clone(&self) -> (r: Self)
        ensures
            r == *self,
    {
        ProjectMeta {
            id: self.id.clone(),
            name: self.name.clone(),
            path: self.path.clone(),
            last_opened: self.last_opened,
        }
    }
}

/// The editor's settings.
pub struct Settings {
    pub theme: String,
    pub autosave: bool,
}

impl Default for Settings {
    fn default() -> (r: Self)
        ensures
            r.theme@ == "dark"@,
            r.autosave,
    {
        Settings { theme: "dark".to_owned(), autosave: true }
    }
}

/// The editor's state apart from its media, its timeline and its playhead,
/// which are measured in fractional seconds.
pub struct VelocisApp {
    pub view: AppView,
    pub recent_projects: Vec<ProjectMeta>,
    pub settings: Settings,
    pub command_palette_open: bool,
    pub selected_clip_id: Option<String>,
    pub show_new_project_dialog: bool,
    pub new_project_name: String,
    pub playing: bool,
    pub current_project_id: String,
}

/// What a key pressed in the new-project dialog calls for.
#[derive(Clone, Copy, Debug, PartialEq, Eq, Structural)]
pub enum DialogKey {
    /// Enter or Return: the project is to be created.
    Confirm,
    /// Backspace or a one-byte key: the name was edited.
    Edited,
    /// Escape: the dialog was closed.
    Closed,
    /// Any other key: nothing changed.
    Ignored,
}

/// The name of the first of `ps` whose identifier is `id`, or nothing.
pub open spec fn name_of_project(ps: Seq<ProjectMeta>, id: Seq<char>) -> Seq<char>
    decreases ps.len(),
{
    if ps.len() == 0 {
        Seq::empty()
    } else if ps[0].id@ == id {
        ps[0].name@
    } else {
        name_of_project(ps.drop_first(), id)
    }
}

/// The name a new project takes from what was typed: `Sans titre` when nothing was.
pub open spec fn new_project_title(typed: Seq<char>) -> Seq<char> {
    if typed.len() == 0 {
        "Sans titre"@
    } else {
        typed
    }
}

/// The identifier of a project created when `nanoid` gave `nano`.
pub open spec fn project_id_text(nano: Seq<char>) -> Seq<char> {
    "proj_"@ + nano
}

/// The state of a freshly started editor, given the recent projects loaded from disk.
pub open spec fn started(app: VelocisApp, projects: Seq<ProjectMeta>) -> bool {
    &&& app.recent_projects@ == projects
    &&& app.view == (if projects.len() == 0 { AppView::Home } else { AppView::Editor })
    &&& app.current_project_id@ == (if projects.len() == 0 { Seq::empty() } else { projects[0].id@ })
    &&& app.settings.theme@ == "dark"@
    &&& app.settings.autosave
    &&& !app.command_palette_open
    &&& app.selected_clip_id is None
    &&& !app.show_new_project_dialog
    &&& app.new_project_name@.len() == 0
    &&& !app.playing
}


/// The editor with the command palette opened if it was closed, and closed if it was open.
pub open spec fn palette_toggled(a: VelocisApp) -> VelocisApp {
    VelocisApp { command_palette_open: !a.command_palette_open, ..a }
}

/// The editor with playback started if it was stopped, and stopped if it was playing.
pub open spec fn play_toggled(a: VelocisApp) -> VelocisApp {
    VelocisApp { playing: !a.playing, ..a }
}

/// The editor on the home screen with the command palette closed.
pub open spec fn gone_home(a: VelocisApp) -> VelocisApp {
    VelocisApp { command_palette_open: false, view: AppView::Home, ..a }
}

/// `post` is `pre` with the new-project dialog open and an empty name typed.
pub open spec fn dialog_opened(pre: VelocisApp, post: VelocisApp) -> bool {
    &&& post.show_new_project_dialog
    &&& post.new_project_name@.len() == 0
    &&& same_but_dialog(pre, post)
}

/// `post` is `pre` after switching to the project `id`: the editor shows
/// it, with no clip selected and playback stopped.
pub open spec fn opened_project(pre: VelocisApp, post: VelocisApp, id: Seq<char>) -> bool {
    &&& post.current_project_id@ == id
    &&& post.selected_clip_id is None
    &&& !post.playing
    &&& post.view == AppView::Editor
    &&& post.recent_projects == pre.recent_projects
    &&& post.settings == pre.settings
    &&& post.command_palette_open == pre.command_palette_open
    &&& post.show_new_project_dialog == pre.show_new_project_dialog
    &&& post.new_project_name == pre.new_project_name
}

/// `post` is `pre` after creating the project named in the dialog with the
/// identifier suffix `nano`, opened at `opened`: the project comes first
/// among the recent ones and becomes the current one, the dialog closes and
/// the editor shows the project with no clip selected.
pub open spec fn confirmed(pre: VelocisApp, post: VelocisApp, nano: Seq<char>, opened: Option<u64>) -> bool {
    &&& post.recent_projects@.len() == pre.recent_projects@.len() + 1
    &&& post.recent_projects@[0].id@ == project_id_text(nano)
    &&& post.recent_projects@[0].name@ == new_project_title(pre.new_project_name@)
    &&& post.recent_projects@[0].path@.len() == 0
    &&& post.recent_projects@[0].last_opened == opened
    &&& post.recent_projects@.drop_first() == pre.recent_projects@
    &&& post.current_project_id@ == project_id_text(nano)
    &&& post.selected_clip_id is None
    &&& !post.show_new_project_dialog
    &&& post.view == AppView::Editor
    &&& post.new_project_name == pre.new_project_name
    &&& post.settings == pre.settings
    &&& post.command_palette_open == pre.command_palette_open
    &&& post.playing == pre.playing
}

/// Whether two editor states agree on everything but the new-project dialog.
pub open spec fn same_but_dialog(a: VelocisApp, b: VelocisApp) -> bool {
    &&& a.view == b.view
    &&& a.recent_projects == b.recent_projects
    &&& a.settings == b.settings
    &&& a.command_palette_open == b.command_palette_open
    &&& a.selected_clip_id == b.selected_clip_id
    &&& a.playing == b.playing
    &&& a.current_project_id == b.current_project_id
}

/// A name with its last character removed, if it has one.
pub open spec fn without_last(s: Seq<char>) -> Seq<char> {
    if s.len() == 0 {
        s
    } else {
        s.drop_last()
    }
}

/// What the key `key`, whose length in bytes is `key_bytes`, does in the
/// new-project dialog: Enter or Return asks for the project to be created,
/// Backspace removes the last character of the name, Escape closes the
/// dialog, any other one-byte key is appended to the name, and any other key
/// does nothing.
pub open spec fn dialog_key_effect(
    pre: VelocisApp,
    post: VelocisApp,
    key: Seq<char>,
    key_bytes: nat,
    r: DialogKey,
) -> bool {
    &&& same_but_dialog(pre, post)
    &&& if key == "enter"@ || key == "return"@ {
        r == DialogKey::Confirm && post.show_new_project_dialog == pre.show_new_project_dialog
            && post.new_project_name@ == pre.new_project_name@
    } else if key == "backspace"@ {
        r == DialogKey::Edited && post.show_new_project_dialog == pre.show_new_project_dialog
            && post.new_project_name@ == without_last(pre.new_project_name@)
    } else if key == "escape"@ {
        r == DialogKey::Closed && !post.show_new_project_dialog && post.new_project_name@
            == pre.new_project_name@
    } else if key_bytes == 1 {
        r == DialogKey::Edited && post.show_new_project_dialog == pre.show_new_project_dialog
            && post.new_project_name@ == pre.new_project_name@ + key
    } else {
        r == DialogKey::Ignored && post.show_new_project_dialog == pre.show_new_project_dialog
            && post.new_project_name@ == pre.new_project_name@
    }
}

/// Opening the command palette and toggling it again gives back the same editor.
pub proof fn lemma_palette_toggle_twice(a: VelocisApp)
    ensures
        palette_toggled(palette_toggled(a)) == a,
{
}

/// Toggling playback twice gives back the same editor.
pub proof fn lemma_play_toggle_twice(a: VelocisApp)
    ensures
        play_toggled(play_toggled(a)) == a,
{
}

/// The name of the first project with identifier `id` is that of the
/// project at `i` when `i` is the first place where `id` occurs.
pub proof fn lemma_name_of_first(ps: Seq<ProjectMeta>, id: Seq<char>, i: int)
    requires
        0 <= i < ps.len(),
        ps[i].id@ == id,
        forall|j: int| 0 <= j < i ==> (#[trigger] ps[j]).id@ != id,
    ensures
        name_of_project(ps, id) == ps[i].name@,
    decreases i,
{
    if i > 0 {
        let rest = ps.drop_first();
        assert forall|j: int| 0 <= j < i - 1 implies (#[trigger] rest[j]).id@ != id by {
            assert(rest[j] == ps[j + 1]);
        }
        lemma_name_of_first(rest, id, i - 1);
    }
}

/// After a project is created from the dialog, the current project's name
/// is the name typed, or `Sans titre` when none was, and its identifier
/// starts with `proj_`.
pub proof fn lemma_created_project_is_current(
    pre: VelocisApp,
    post: VelocisApp,
    nano: Seq<char>,
    opened: Option<u64>,
)
    requires
        confirmed(pre, post, nano, opened),
    ensures
        name_of_project(post.recent_projects@, post.current_project_id@) == new_project_title(
            pre.new_project_name@,
        ),
        post.current_project_id@.subrange(0, 5) == "proj_"@,
{
    lemma_name_of_first(post.recent_projects@, post.current_project_id@, 0);
    reveal_strlit("proj_");
    assert(post.current_project_id@.subrange(0, 5) =~= "proj_"@);
}

/// After switching to a project listed among the recent ones, the current
/// project's name is that of the first listed project with its identifier.
pub proof fn lemma_opened_project_name(pre: VelocisApp, post: VelocisApp, id: Seq<char>, i: int)
    requires
        opened_project(pre, post, id),
        0 <= i < pre.recent_projects@.len(),
        pre.recent_projects@[i].id@ == id,
        forall|j: int| 0 <= j < i ==> (#[trigger] pre.recent_projects@[j]).id@ != id,
    ensures
        name_of_project(post.recent_projects@, post.current_project_id@)
            == pre.recent_projects@[i].name@,
{
    lemma_name_of_first(post.recent_projects@, id, i);
}

/// Typing a one-character, one-byte key in the new-project dialog and then
/// Backspace leaves the name as it was, and nothing else changes.
pub proof fn lemma_type_then_backspace(
    a: VelocisApp,
    b: VelocisApp,
    c: VelocisApp,
    key: Seq<char>,
    r1: DialogKey,
    backspace_bytes: nat,
    r2: DialogKey,
)
    requires
        key.len() == 1,
        dialog_key_effect(a, b, key, 1, r1),
        dialog_key_effect(b, c, "backspace"@, backspace_bytes, r2),
    ensures
        r1 == DialogKey::Edited,
        r2 == DialogKey::Edited,
        c.new_project_name@ == a.new_project_name@,
        c.show_new_project_dialog == a.show_new_project_dialog,
        same_but_dialog(a, c),
{
    reveal_strlit("enter");
    reveal_strlit("return");
    reveal_strlit("backspace");
    reveal_strlit("escape");
    assert(key != "enter"@ && key != "return"@ && key != "backspace"@ && key != "escape"@);
    assert("backspace"@ != "enter"@ && "backspace"@ != "return"@) by {
        assert("backspace"@.len() != "enter"@.len());
        assert("backspace"@.len() != "return"@.len());
    }
    assert((a.new_project_name@ + key).drop_last() =~= a.new_project_name@);
}

/// Escape in the new-project dialog closes it and keeps the name typed.
pub proof fn lemma_escape_closes(a: VelocisApp, b: VelocisApp, bytes: nat, r: DialogKey)
    requires
        dialog_key_effect(a, b, "escape"@, bytes, r),
    ensures
        r == DialogKey::Closed,
        !b.show_new_project_dialog,
        b.new_project_name@ == a.new_project_name@,
        same_but_dialog(a, b),
{
    reveal_strlit("enter");
    reveal_strlit("return");
    reveal_strlit("backspace");
    reveal_strlit("escape");
    assert("escape"@ != "enter"@ && "escape"@ != "return"@ && "escape"@ != "backspace"@) by {
        assert("escape"@.len() != "enter"@.len());
        assert("escape"@[0] != "return"@[0]);
        assert("escape"@.len() != "backspace"@.len());
    }
}

/// Toggling the command palette always flips whether it is open, on the home
/// screen as in the editor, and changes nothing else.
pub proof fn lemma_palette_toggle_flips(a: VelocisApp)
    ensures
        palette_toggled(a).command_palette_open == !a.command_palette_open,
        palette_toggled(a).view == a.view,
        palette_toggled(a).recent_projects == a.recent_projects,
        palette_toggled(a).selected_clip_id == a.selected_clip_id,
        palette_toggled(a).playing == a.playing,
        palette_toggled(a).show_new_project_dialog == a.show_new_project_dialog,
        palette_toggled(a).new_project_name == a.new_project_name,
        palette_toggled(a).current_project_id == a.current_project_id,
        palette_toggled(a).settings == a.settings,
{
}

/// Toggling playback always flips whether it plays, whether or not a clip
/// is selected, and changes nothing else.
pub proof fn lemma_play_toggle_flips(a: VelocisApp)
    ensures
        play_toggled(a).playing == !a.playing,
        play_toggled(a).selected_clip_id == a.selected_clip_id,
        play_toggled(a).view == a.view,
        play_toggled(a).recent_projects == a.recent_projects,
        play_toggled(a).command_palette_open == a.command_palette_open,
        play_toggled(a).show_new_project_dialog == a.show_new_project_dialog,
        play_toggled(a).new_project_name == a.new_project_name,
        play_toggled(a).current_project_id == a.current_project_id,
        play_toggled(a).settings == a.settings,
{
}

/// Enter or Return in the new-project dialog always asks for the project to
/// be created, whatever name has been typed, the empty one included, and
/// leaves the dialog and the name as they are.
pub proof fn lemma_enter_confirms(
    pre: VelocisApp,
    post: VelocisApp,
    key: Seq<char>,
    key_bytes: nat,
    r: DialogKey,
)
    requires
        key == "enter"@ || key == "return"@,
        dialog_key_effect(pre, post, key, key_bytes, r),
    ensures
        r == DialogKey::Confirm,
        post.new_project_name@ == pre.new_project_name@,
        post.show_new_project_dialog == pre.show_new_project_dialog,
        same_but_dialog(pre, post),
{
}

/// A created project is named by the whole name typed when one was typed,
/// and `Sans titre` when none was; its identifier is `proj_` followed by the
/// identifier suffix, and it is the current project.
pub proof fn lemma_created_project_name(
    pre: VelocisApp,
    post: VelocisApp,
    nano: Seq<char>,
    opened: Option<u64>,
)
    requires
        confirmed(pre, post, nano, opened),
    ensures
        pre.new_project_name@.len() > 0 ==> post.recent_projects@[0].name@ == pre.new_project_name@,
        pre.new_project_name@.len() == 0 ==> post.recent_projects@[0].name@ == "Sans titre"@,
        post.recent_projects@[0].id@ == "proj_"@ + nano,
        post.current_project_id@ == "proj_"@ + nano,
        post.recent_projects@[0].last_opened == opened,
{
}

impl VelocisApp {
    /// The editor as it starts: on the home screen when there is no recent
    /// project, else in the editor on the first of them.
    pub fn new(projects: Vec<ProjectMeta>) -> (r: Self)
        ensures
            started(r, projects@),
    {
        let pid = if projects.len() == 0 {
            String::new()
        } else {
            projects[0].id.clone()
        };
        let view = if projects.len() == 0 {
            AppView::Home
        } else {
            AppView::Editor
        };
        VelocisApp {
            view,
            recent_projects: projects,
            settings: Settings::default(),
            command_palette_open: false,
            selected_clip_id: None,
            show_new_project_dialog: false,
            new_project_name: String::new(),
            playing: false,
            current_project_id: pid,
        }
    }

    pub fn toggle_command_palette(&mut self)
        ensures
            *final(self) == palette_toggled(*old(self)),
    {
        self.command_palette_open = !self.command_palette_open;
    }

    /// Opens the new-project dialog with an empty name.
    pub fn start_new_project(&mut self)
        ensures
            dialog_opened(*old(self), *final(self)),
    {
        self.show_new_project_dialog = true;
        self.new_project_name = String::new();
    }

    /// Leaves the editor for the home screen, closing the command palette.
    pub fn go_home(&mut self)
        ensures
            *final(self) == gone_home(*old(self)),
    {
        self.command_palette_open = false;
        self.view = AppView::Home;
    }

    /// Starts or pauses playback; returns whether it now plays.
    pub fn toggle_play(&mut self) -> (r: bool)
        ensures
            *final(self) == play_toggled(*old(self)),
            r == final(self).playing,
    {
        self.playing = !self.playing;
        self.playing
    }

    /// Stops playback.
    pub fn stop_playback(&mut self)
        ensures
            *final(self) == (VelocisApp { playing: false, ..*old(self) }),
    {
        self.playing = false;
    }

    /// Switches to the project `id` in the editor, with no clip selected and playback stopped.
    pub fn open_project(&mut self, id: &str)
        ensures
            opened_project(*old(self), *final(self), id@),
    {
        self.current_project_id = id.to_owned();
        self.selected_clip_id = None;
        self.playing = false;
        self.view = AppView::Editor;
    }

    /// The name of the current project, or nothing when it is not among the recent ones.
    pub fn current_project_name(&self) -> (r: String)
        ensures
            r@ == name_of_project(self.recent_projects@, self.current_project_id@),
    {
        let ps = &self.recent_projects;
        let mut i: usize = 0;
        assert(ps@.subrange(0, ps@.len() as int) =~= ps@);
        while i < ps.len()
            invariant
                ps@ == self.recent_projects@,
                i <= ps@.len(),
                name_of_project(ps@, self.current_project_id@) == name_of_project(
                    ps@.subrange(i as int, ps@.len() as int),
                    self.current_project_id@,
                ),
            decreases ps@.len() - i,
        {
            let ghost rest = ps@.subrange(i as int, ps@.len() as int);
            assert(rest.drop_first() =~= ps@.subrange(i + 1, ps@.len() as int));
            assert(rest.len() > 0 && rest[0] == ps@[i as int]);
            if str_equals(ps[i].id.as_str(), self.current_project_id.as_str()) {
                return ps[i].name.clone();
            }
            i = i + 1;
        }
        assert(ps@.subrange(i as int, ps@.len() as int).len() == 0);
        String::new()
    }

    /// Selects the clip `clip_id`.
    pub fn select_clip(&mut self, clip_id: &str)
        ensures
            final(self).selected_clip_id matches Some(s) && s@ == clip_id@,
            final(self).view == old(self).view,
            final(self).recent_projects == old(self).recent_projects,
            final(self).settings == old(self).settings,
            final(self).command_palette_open == old(self).command_palette_open,
            final(self).show_new_project_dialog == old(self).show_new_project_dialog,
            final(self).new_project_name == old(self).new_project_name,
            final(self).playing == old(self).playing,
            final(self).current_project_id == old(self).current_project_id,
    {
        self.selected_clip_id = Some(clip_id.to_owned());
    }

    /// Creates the project named in the dialog, given the identifier suffix
    /// `nano` and the opening time `opened`: it becomes the first recent
    /// project and the current one, and the editor shows it.
    pub fn confirm_new_project_with(&mut self, nano: String, opened: Option<u64>)
        ensures
            confirmed(*old(self), *final(self), nano@, opened),
    {
        let name = if self.new_project_name.as_str().unicode_len() == 0 {
            "Sans titre".to_owned()
        } else {
            self.new_project_name.clone()
        };
        let mut id = "proj_".to_owned();
        id.append(nano.as_str());
        self.current_project_id = id.clone();
        let meta = ProjectMeta { id, name, path: String::new(), last_opened: opened };
        self.recent_projects.insert(0, meta);
        self.selected_clip_id = None;
        self.show_new_project_dialog = false;
        self.view = AppView::Editor;
        assert(self.recent_projects@.drop_first() =~= old(self).recent_projects@);
    }

    /// Creates the project named in the dialog with a fresh identifier,
    /// opened now.
    pub fn confirm_new_project(&mut self)
        ensures
            exists|nano: Seq<char>, opened: Option<u64>|
                is_nano_id(nano) && #[trigger] confirmed(*old(self), *final(self), nano, opened),
    {
        let nano = nanoid();
        let opened = now_unix_secs();
        let ghost n = nano@;
        self.confirm_new_project_with(nano, opened);
        assert(confirmed(*old(self), *self, n, opened));
    }
    /// Handles a key pressed in the new-project dialog; `key` is the key's name.
    pub fn dialog_key(&mut self, key: &str) -> (r: DialogKey)
        ensures
            dialog_key_effect(*old(self), *final(self), key@, key.len() as nat, r),
    {
        if str_equals(key, "enter") || str_equals(key, "return") {
            DialogKey::Confirm
        } else if str_equals(key, "backspace") {
            let n = self.new_project_name.as_str().unicode_len();
            if n > 0 {
                let shorter = self.new_project_name.as_str().substring_char(0, n - 1).to_owned();
                self.new_project_name = shorter;
                assert(self.new_project_name@ =~= old(self).new_project_name@.drop_last());
            }
            DialogKey::Edited
        } else if str_equals(key, "escape") {
            self.show_new_project_dialog = false;
            DialogKey::Closed
        } else if key.len() == 1 {
            self.new_project_name.append(key);
            DialogKey::Edited
        } else {
            DialogKey::Ignored
        }
    }
    /// Carries out a global command; returns whether the current project is
    /// to be saved, as going home and saving call for.
    pub fn apply_command(&mut self, c: Command) -> (save: bool)
        ensures
            match c {
                Command::CommandPalette => *final(self) == palette_toggled(*old(self)) && !save,
                Command::GoHome => *final(self) == gone_home(*old(self)) && save,
                Command::NewProject => dialog_opened(*old(self), *final(self)) && !save,
                Command::SaveProject => *final(self) == *old(self) && save,
            },
    {
        match c {
            Command::CommandPalette => {
                self.toggle_command_palette();
                false
            },
            Command::GoHome => {
                self.go_home();
                true
            },
            Command::NewProject => {
                self.start_new_project();
                false
            },
            Command::SaveProject => true,
        }
    }
    /// Whether the clip `clip_id` is the selected one.
    pub fn is_clip_selected(&self, clip_id: &str) -> (r: bool)
        ensures
            r == (self.selected_clip_id matches Some(s) && s@ == clip_id@),
    {
        match &self.selected_clip_id {
            Some(s) => str_equals(s.as_str(), clip_id),
            None => false,
        }
    }
}

} // verus!
