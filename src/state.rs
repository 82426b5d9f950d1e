//! Editor state: the open tabs, the active tab, the popup, the open project
//! and the side panel's entries, with the transitions that UI events cause.
//!
//! A tab's text buffer is of the caller's type `C`: the state decides which
//! tab holds which buffer, and the caller edits, reads and writes buffers.
use vstd::prelude::*;
use vstd::string::StrSliceExecFns;
use crate::config::Settings;
use crate::path::{file_name, file_name_of, has_file_name};

verus! {

/// The kind of modal overlay drawn above the main layout.
#[derive(Debug, Clone, Copy, PartialEq, Eq, Structural)]
pub enum PopupType {
    License,
}

impl Default for PopupType {
    fn default() -> (r: PopupType)
        ensures
            r == PopupType::License,
    {
        PopupType::License
    }
}

/// Messages from the dropdown menus.
#[derive(Debug, Clone)]
pub enum MenuMessage {
    OpenProject(String),
}

/// An open editing session.
#[derive(Debug, Clone)]
pub struct Tab<C> {
    pub title: String,
    pub file_path: Option<String>,
    pub content: C,
}

impl<C> Tab<C> {
    /// A tab on the file at `file_path`, titled with the file's name.
    pub fn from_file(file_path: &str, content: C) -> (r: Tab<C>)
        requires
            has_file_name(file_path@),
        ensures
            r.title@ == file_name_of(file_path@)->0,
            r.file_path matches Some(p) && p@ == file_path@,
            r.content == content,
    {
        let path = file_path.to_owned();
        let title = get_title(&path);
        Tab { title, file_path: Some(path), content }
    }

    /// What the editor shows as the tab's path.
    pub fn path_label(&self) -> (r: &str)
        ensures
            self.file_path matches Some(p) ==> r@ == p@,
            self.file_path is None ==> r@ == "No file path"@,
    {
        match &self.file_path {
            Some(p) => p.as_str(),
            None => "No file path",
        }
    }
}

/// A tab that no file backs, as left when no file was chosen to open.
pub fn fileless_tab<C>(content: C) -> (r: Tab<C>)
    ensures
        r.title@ == "No file"@,
        r.file_path is None,
        r.content == content,
{
    Tab { title: "No file".to_owned(), file_path: None, content }
}

/// The title of a tab on the file at `file_path`: the file's name.
pub fn get_title(file_path: &String) -> (r: String)
    requires
        has_file_name(file_path@),
    ensures
        r@ == file_name_of(file_path@)->0,
{
    match file_name(file_path.as_str()) {
        Some(name) => name,
        None => String::new(),
    }
}

/// Whether a side-panel entry is a plain file or a directory.
#[derive(Debug, Clone, Copy, PartialEq, Eq, Structural)]
pub enum FileDisplayType {
    File,
    Directory,
}

impl Default for FileDisplayType {
    fn default() -> (r: FileDisplayType)
        ensures
            r == FileDisplayType::File,
    {
        FileDisplayType::File
    }
}

/// An entry of the side panel: a button that opens the file it names.
#[derive(Debug, Clone)]
pub struct FileDisplay {
    pub file_type: FileDisplayType,
    pub name: String,
    pub path: String,
}

impl FileDisplay {
    /// The button's text: the entry's name without its leading "./".
    pub fn label(&self) -> (r: String)
        requires
            self.name@.len() >= 2,
        ensures
            r@ == self.name@.subrange(2, self.name@.len() as int),
    {
        let n = self.name.as_str().unicode_len();
        self.name.as_str().substring_char(2, n).to_owned()
    }
}

/// Where the active tab's text goes when it is saved.
#[derive(Debug, Clone)]
pub enum SaveTarget {
    /// The file that backs the tab.
    File(String),
    /// No file backs the tab: the user is to be asked for one.
    AskPath,
}

/// The active index after closing tab `id` while `tab_id` is active: one
/// less where the active tab itself is closed and is not the first.
pub open spec fn tab_id_after_close(tab_id: usize, id: usize) -> usize {
    if tab_id == id && tab_id > 0 {
        (tab_id - 1) as usize
    } else {
        tab_id
    }
}

/// Closing the active tab while it is the first tab leaves the first tab
/// active.
pub proof fn closing_first_active_tab_keeps_index(tab_id: usize, id: usize)
    requires
        tab_id == 0,
        id == tab_id,
    ensures
        tab_id_after_close(tab_id, id) == 0,
{
}

/// Closing the active tab at a nonzero index moves the active index back by
/// exactly one.
pub proof fn closing_active_tab_steps_back(tab_id: usize, id: usize)
    requires
        tab_id > 0,
        id == tab_id,
    ensures
        tab_id_after_close(tab_id, id) == tab_id - 1,
{
}

/// Closing any tab but the active one leaves the active index as it was,
/// also where the closed tab stood before it.
pub proof fn closing_other_tab_keeps_index(tab_id: usize, id: usize)
    requires
        id != tab_id,
    ensures
        tab_id_after_close(tab_id, id) == tab_id,
{
}

/// Closing the active tab keeps the active index on a tab, or at zero where
/// no tab is left.
pub proof fn closing_active_tab_stays_in_bounds(tab_id: usize, id: usize, len: nat)
    requires
        id == tab_id,
        tab_id < len,
    ensures
        len - 1 == 0 || tab_id_after_close(tab_id, id) < len - 1,
        len - 1 == 0 ==> tab_id_after_close(tab_id, id) == 0,
{
}

/// The whole state of the editor.
pub struct State<C> {
    pub config: Settings,
    pub project_name: Option<String>,
    pub tabs: Vec<Tab<C>>,
    pub tab_id: usize,
    pub popup: Option<PopupType>,
    pub file_displays: Vec<FileDisplay>,
}

impl<C> State<C> {
    /// The state at startup: no tab, no popup, no project.
    pub fn new(config: Settings) -> (r: State<C>)
        ensures
            r.config == config,
            r.project_name is None,
            r.tabs@.len() == 0,
            r.tab_id == 0,
            r.popup is None,
            r.file_displays@.len() == 0,
    {
        State {
            config,
            project_name: None,
            tabs: Vec::new(),
            tab_id: 0,
            popup: None,
            file_displays: Vec::new(),
        }
    }

    /// Adds `tab` at the end and makes it the active tab.
    pub fn open_tab(&mut self, tab: Tab<C>)
        ensures
            final(self).tabs@ == old(self).tabs@.push(tab),
            final(self).tab_id == old(self).tabs@.len(),
            final(self).config == old(self).config,
            final(self).project_name == old(self).project_name,
            final(self).popup == old(self).popup,
            final(self).file_displays == old(self).file_displays,
    {
        self.tabs.push(tab);
        self.tab_id = self.tabs.len() - 1;
    }

    /// Makes tab `id` the active tab.
    pub fn change_tab(&mut self, id: usize)
        ensures
            final(self).tab_id == id,
            final(self).tabs == old(self).tabs,
            final(self).config == old(self).config,
            final(self).project_name == old(self).project_name,
            final(self).popup == old(self).popup,
            final(self).file_displays == old(self).file_displays,
    {
        self.tab_id = id;
    }

    /// Removes tab `id`; the tabs after it move one place down.
    pub fn close_tab(&mut self, id: usize)
        requires
            id < old(self).tabs@.len(),
        ensures
            final(self).tabs@ == old(self).tabs@.remove(id as int),
            final(self).tab_id == tab_id_after_close(old(self).tab_id, id),
            final(self).config == old(self).config,
            final(self).project_name == old(self).project_name,
            final(self).popup == old(self).popup,
            final(self).file_displays == old(self).file_displays,
    {
        if self.tab_id == id && self.tab_id > 0 {
            self.tab_id = self.tab_id - 1;
        }
        self.tabs.remove(id);
    }

    /// Shows the license text above the main layout.
    pub fn show_license(&mut self)
        ensures
            final(self).popup == Some(PopupType::License),
            final(self).tabs == old(self).tabs,
            final(self).tab_id == old(self).tab_id,
            final(self).config == old(self).config,
            final(self).project_name == old(self).project_name,
            final(self).file_displays == old(self).file_displays,
    {
        self.popup = Some(PopupType::License);
    }

    /// Takes the popup away.
    pub fn hide_popup(&mut self)
        ensures
            final(self).popup is None,
            final(self).tabs == old(self).tabs,
            final(self).tab_id == old(self).tab_id,
            final(self).config == old(self).config,
            final(self).project_name == old(self).project_name,
            final(self).file_displays == old(self).file_displays,
    {
        self.popup = None;
    }

    /// Where saving the active tab writes: its file, or, where it has none,
    /// a file that the user is to choose.
    pub fn save(&self) -> (r: SaveTarget)
        requires
            self.tab_id < self.tabs@.len(),
        ensures
            self.tabs@[self.tab_id as int].file_path matches Some(p) ==> r matches SaveTarget::File(
                q,
            ) && q@ == p@,
            self.tabs@[self.tab_id as int].file_path is None ==> r is AskPath,
    {
        match &self.tabs[self.tab_id].file_path {
            Some(path) => SaveTarget::File(path.clone()),
            None => SaveTarget::AskPath,
        }
    }

    /// Adds an empty tab titled "New file", backed by no file, and makes it
    /// the active tab.
    pub fn new_file(&mut self, content: C)
        ensures
            final(self).tabs@.len() == old(self).tabs@.len() + 1,
            final(self).tabs@.drop_last() == old(self).tabs@,
            final(self).tabs@.last().title@ == "New file"@,
            final(self).tabs@.last().file_path is None,
            final(self).tabs@.last().content == content,
            final(self).tab_id == old(self).tabs@.len(),
            final(self).config == old(self).config,
            final(self).project_name == old(self).project_name,
            final(self).popup == old(self).popup,
            final(self).file_displays == old(self).file_displays,
    {
        let tab = Tab { title: "New file".to_owned(), file_path: None, content };
        self.open_tab(tab);
        proof {
            assert(self.tabs@.drop_last() =~= old(self).tabs@);
        }
    }

    /// Binds the active tab to the file the user chose to save it as, and
    /// gives back that path, where the text is to be written. Where the user
    /// chose none, nothing changes and nothing is to be written.
    pub fn save_as(&mut self, chosen: Option<String>) -> (r: Option<String>)
        requires
            old(self).tab_id < old(self).tabs@.len(),
            chosen matches Some(p) ==> has_file_name(p@),
        ensures
            r == chosen,
            final(self).tab_id == old(self).tab_id,
            final(self).tabs@.len() == old(self).tabs@.len(),
            forall|i: int|
                0 <= i < old(self).tabs@.len() && i != old(self).tab_id ==> final(self).tabs@[i]
                    == old(self).tabs@[i],
            chosen is None ==> final(self).tabs == old(self).tabs,
            chosen matches Some(p) ==> {
                let t = final(self).tabs@[old(self).tab_id as int];
                let o = old(self).tabs@[old(self).tab_id as int];
                &&& t.file_path matches Some(q) && q@ == p@
                &&& t.title@ == file_name_of(p@)->0
                &&& t.content == o.content
            },
            final(self).config == old(self).config,
            final(self).project_name == old(self).project_name,
            final(self).popup == old(self).popup,
            final(self).file_displays == old(self).file_displays,
    {
        match chosen {
            Some(path) => {
                let title = get_title(&path);
                let tab = &mut self.tabs[self.tab_id];
                tab.file_path = Some(path.clone());
                tab.title = title;
                Some(path)
            },
            None => None,
        }
    }

    /// Whether `project_name` names a registered project.
    pub fn open_project(&self, project_name: String) -> (r: bool)
        requires
            self.config.wf(),
        ensures
            r == (self.config.path_of(project_name@) is Some),
    {
        self.config.contains_project(&project_name)
    }

    /// Acts on a menu message. Opening a registered project makes it the
    /// current project and gives back its directory, whose entries are to
    /// be listed; an unregistered name changes nothing.
    pub fn process_menu_message(&mut self, message: MenuMessage) -> (r: Option<String>)
        requires
            old(self).config.wf(),
        ensures
            final(self).config == old(self).config,
            final(self).tabs == old(self).tabs,
            final(self).tab_id == old(self).tab_id,
            final(self).popup == old(self).popup,
            final(self).file_displays == old(self).file_displays,
            message matches MenuMessage::OpenProject(name) ==> {
                match old(self).config.path_of(name@) {
                    Some(dir) => {
                        &&& r matches Some(d) && d@ == dir
                        &&& final(self).project_name matches Some(n) && n@ == name@
                    },
                    None => {
                        &&& r is None
                        &&& final(self).project_name == old(self).project_name
                    },
                }
            },
    {
        match message {
            MenuMessage::OpenProject(project) => {
                match self.config.project_path(&project) {
                    Some(dir) => {
                        self.project_name = Some(project);
                        Some(dir)
                    },
                    None => None,
                }
            },
        }
    }

    /// Adds one side-panel file entry for each listed path, in order.
    pub fn add_file_displays(&mut self, entries: Vec<String>)
        ensures
            final(self).file_displays@.len() == old(self).file_displays@.len() + entries@.len(),
            forall|i: int|
                0 <= i < old(self).file_displays@.len() ==> final(self).file_displays@[i]
                    == old(self).file_displays@[i],
            forall|i: int|
                0 <= i < entries@.len() ==> {
                    let d = #[trigger] final(self).file_displays@[old(self).file_displays@.len() + i];
                    &&& d.file_type == FileDisplayType::File
                    &&& d.name@ == entries@[i]@
                    &&& d.path@ == entries@[i]@
                },
            final(self).config == old(self).config,
            final(self).project_name == old(self).project_name,
            final(self).tabs == old(self).tabs,
            final(self).tab_id == old(self).tab_id,
            final(self).popup == old(self).popup,
    {
        let ghost start = self.file_displays@.len();
        let mut i: usize = 0;
        while i < entries.len()
            invariant
                i <= entries@.len(),
                start == old(self).file_displays@.len(),
                self.file_displays@.len() == start + i,
                forall|k: int|
                    0 <= k < start ==> self.file_displays@[k] == old(self).file_displays@[k],
                forall|k: int|
                    0 <= k < i ==> {
                        let d = #[trigger] self.file_displays@[start + k];
                        &&& d.file_type == FileDisplayType::File
                        &&& d.name@ == entries@[k]@
                        &&& d.path@ == entries@[k]@
                    },
                self.config == old(self).config,
                self.project_name == old(self).project_name,
                self.tabs == old(self).tabs,
                self.tab_id == old(self).tab_id,
                self.popup == old(self).popup,
            decreases entries@.len() - i,
        {
            let path = entries[i].clone();
            self.file_displays.push(
                FileDisplay { file_type: FileDisplayType::File, name: path.clone(), path },
            );
            i = i + 1;
        }
    }
}

} // verus!
