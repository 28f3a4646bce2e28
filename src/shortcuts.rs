//! Keyboard shortcuts: a built-in set that the user may rebind.
use vstd::prelude::*;
use crate::keyed::{push_new, Keyed, entry_for, keys_unique, lemma_upsert, lookup, upsert, upsert_into};

verus! {

#[derive(Clone, Copy, Debug, PartialEq, Eq, Structural)]
pub enum ShortcutCategory {
    File,
    Edit,
    View,
    Search,
    Git,
    Terminal,
    Debug,
    AI,
    Navigation,
    Custom,
}

#[derive(Debug)]
pub struct KeyboardShortcut {
    pub id: String,
    pub name: String,
    pub description: String,
    /// The key chord, such as `Ctrl+S`.
    pub key: String,
    pub command: String,
    pub category: ShortcutCategory,
    pub enabled: bool,
}

impl Clone for KeyboardShortcut {
    fn clone(&self) -> (r: Self)
        ensures
            r == *self,
    {
        KeyboardShortcut {
            id: self.id.clone(),
            name: self.name.clone(),
            description: self.description.clone(),
            key: self.key.clone(),
            command: self.command.clone(),
            category: self.category,
            enabled: self.enabled,
        }
    }
}

impl Keyed for KeyboardShortcut {
    open spec fn key(&self) -> Seq<char> {
        self.id@
    }

    fn key_text(&self) -> (r: &String) {
        &self.id
    }
}

/// A named set of shortcuts.
#[derive(Debug)]
pub struct ShortcutProfile {
    pub name: String,
    pub shortcuts: Vec<KeyboardShortcut>,
}

pub open spec fn in_category(c: ShortcutCategory) -> spec_fn(KeyboardShortcut) -> bool {
    |s: KeyboardShortcut| s.category == c
}

/// The ids of the built-in shortcuts, in the order they are stored.
pub open spec fn default_shortcut_ids() -> Seq<Seq<char>> {
    seq!["file.new"@, "file.save"@, "file.saveAll"@, "file.close"@, "edit.undo"@, "edit.redo"@, "edit.cut"@, "edit.copy"@, "edit.paste"@, "edit.format"@, "search.find"@, "search.replace"@, "search.findInFiles"@, "view.commandPalette"@, "view.toggleSidebar"@, "view.toggleTerminal"@, "git.commit"@, "git.push"@, "ai.chat"@, "ai.explain"@, "ai.refactor"@, "ai.generate"@, "nav.goToFile"@, "nav.goToLine"@, "nav.nextTab"@, "nav.prevTab"@]
}

/// The key chords of the built-in shortcuts, in the same order.
pub open spec fn default_shortcut_keys() -> Seq<Seq<char>> {
    seq!["Ctrl+N"@, "Ctrl+S"@, "Ctrl+K S"@, "Ctrl+W"@, "Ctrl+Z"@, "Ctrl+Y"@, "Ctrl+X"@, "Ctrl+C"@, "Ctrl+V"@, "Shift+Alt+F"@, "Ctrl+F"@, "Ctrl+H"@, "Ctrl+Shift+F"@, "Ctrl+Shift+P"@, "Ctrl+B"@, "Ctrl+`"@, "Ctrl+Shift+G"@, "Ctrl+Shift+K"@, "Ctrl+Shift+A"@, "Ctrl+Shift+E"@, "Ctrl+Shift+R"@, "Ctrl+Shift+N"@, "Ctrl+P"@, "Ctrl+G"@, "Ctrl+Tab"@, "Ctrl+Shift+Tab"@]
}

/// The categories of the built-in shortcuts, in the same order.
pub open spec fn default_shortcut_categories() -> Seq<ShortcutCategory> {
    seq![ShortcutCategory::File, ShortcutCategory::File, ShortcutCategory::File, ShortcutCategory::File, ShortcutCategory::Edit, ShortcutCategory::Edit, ShortcutCategory::Edit, ShortcutCategory::Edit, ShortcutCategory::Edit, ShortcutCategory::Edit, ShortcutCategory::Search, ShortcutCategory::Search, ShortcutCategory::Search, ShortcutCategory::View, ShortcutCategory::View, ShortcutCategory::View, ShortcutCategory::Git, ShortcutCategory::Git, ShortcutCategory::AI, ShortcutCategory::AI, ShortcutCategory::AI, ShortcutCategory::AI, ShortcutCategory::Navigation, ShortcutCategory::Navigation, ShortcutCategory::Navigation, ShortcutCategory::Navigation]
}

/// The built-in shortcuts: ids, chords and categories in order, all enabled.
pub open spec fn is_default_shortcuts(s: Seq<KeyboardShortcut>) -> bool {
    &&& s.len() == default_shortcut_ids().len()
    &&& forall|i: int| 0 <= i < s.len() ==> (#[trigger] s[i]).id@ == default_shortcut_ids()[i]
        && s[i].key@ == default_shortcut_keys()[i] && s[i].category == default_shortcut_categories()[i] && s[i].enabled
}

fn shortcut(id: &str, name: &str, description: &str, key: &str, command: &str, category: ShortcutCategory) -> (r: KeyboardShortcut)
    ensures
        r.id@ == id@,
        r.key@ == key@,
        r.category == category,
        r.enabled,
{
    KeyboardShortcut {
        id: id.to_owned(),
        name: name.to_owned(),
        description: description.to_owned(),
        key: key.to_owned(),
        command: command.to_owned(),
        category,
        enabled: true,
    }
}

fn default_shortcuts() -> (r: Vec<KeyboardShortcut>)
    ensures
        keys_unique(r@),
        is_default_shortcuts(r@),
{
    let mut v: Vec<KeyboardShortcut> = Vec::new();
    let ghost mut ks: Set<Seq<char>> = Set::empty();
    proof {
        reveal_strlit("file.new");
        reveal_strlit("file.save");
        reveal_strlit("file.saveAll");
        reveal_strlit("file.close");
        reveal_strlit("edit.undo");
        reveal_strlit("edit.redo");
        reveal_strlit("edit.cut");
        reveal_strlit("edit.copy");
        reveal_strlit("edit.paste");
        reveal_strlit("edit.format");
        reveal_strlit("search.find");
        reveal_strlit("search.replace");
        reveal_strlit("search.findInFiles");
        reveal_strlit("view.commandPalette");
        reveal_strlit("view.toggleSidebar");
        reveal_strlit("view.toggleTerminal");
        reveal_strlit("git.commit");
        reveal_strlit("git.push");
        reveal_strlit("ai.chat");
        reveal_strlit("ai.explain");
        reveal_strlit("ai.refactor");
        reveal_strlit("ai.generate");
        reveal_strlit("nav.goToFile");
        reveal_strlit("nav.goToLine");
        reveal_strlit("nav.nextTab");
        reveal_strlit("nav.prevTab");
        assert("file.new"@.len() == 8);
        assert("file.save"@.len() == 9);
        assert("file.saveAll"@.len() == 12);
        assert("file.close"@.len() == 10);
        assert("edit.undo"@.len() == 9);
        assert("edit.redo"@.len() == 9);
        assert("edit.cut"@.len() == 8);
        assert("edit.copy"@.len() == 9);
        assert("edit.paste"@.len() == 10);
        assert("edit.format"@.len() == 11);
        assert("search.find"@.len() == 11);
        assert("search.replace"@.len() == 14);
        assert("search.findInFiles"@.len() == 18);
        assert("view.commandPalette"@.len() == 19);
        assert("view.toggleSidebar"@.len() == 18);
        assert("view.toggleTerminal"@.len() == 19);
        assert("git.commit"@.len() == 10);
        assert("git.push"@.len() == 8);
        assert("ai.chat"@.len() == 7);
        assert("ai.explain"@.len() == 10);
        assert("ai.refactor"@.len() == 11);
        assert("ai.generate"@.len() == 11);
        assert("nav.goToFile"@.len() == 12);
        assert("nav.goToLine"@.len() == 12);
        assert("nav.nextTab"@.len() == 11);
        assert("nav.prevTab"@.len() == 11);
        assert("file.new"@[0] != "edit.cut"@[0]);
        assert("file.new"@[0] != "git.push"@[0]);
        assert("file.save"@[0] != "edit.undo"@[0]);
        assert("file.save"@[0] != "edit.redo"@[0]);
        assert("file.save"@[0] != "edit.copy"@[0]);
        assert("file.saveAll"@[0] != "nav.goToFile"@[0]);
        assert("file.saveAll"@[0] != "nav.goToLine"@[0]);
        assert("file.close"@[0] != "edit.paste"@[0]);
        assert("file.close"@[0] != "git.commit"@[0]);
        assert("file.close"@[0] != "ai.explain"@[0]);
        assert("edit.undo"@[5] != "edit.redo"@[5]);
        assert("edit.undo"@[5] != "edit.copy"@[5]);
        assert("edit.redo"@[5] != "edit.copy"@[5]);
        assert("edit.cut"@[0] != "git.push"@[0]);
        assert("edit.paste"@[0] != "git.commit"@[0]);
        assert("edit.paste"@[0] != "ai.explain"@[0]);
        assert("edit.format"@[0] != "search.find"@[0]);
        assert("edit.format"@[0] != "ai.refactor"@[0]);
        assert("edit.format"@[0] != "ai.generate"@[0]);
        assert("edit.format"@[0] != "nav.nextTab"@[0]);
        assert("edit.format"@[0] != "nav.prevTab"@[0]);
        assert("search.find"@[0] != "ai.refactor"@[0]);
        assert("search.find"@[0] != "ai.generate"@[0]);
        assert("search.find"@[0] != "nav.nextTab"@[0]);
        assert("search.find"@[0] != "nav.prevTab"@[0]);
        assert("search.findInFiles"@[0] != "view.toggleSidebar"@[0]);
        assert("view.commandPalette"@[5] != "view.toggleTerminal"@[5]);
        assert("git.commit"@[0] != "ai.explain"@[0]);
        assert("ai.refactor"@[3] != "ai.generate"@[3]);
        assert("ai.refactor"@[0] != "nav.nextTab"@[0]);
        assert("ai.refactor"@[0] != "nav.prevTab"@[0]);
        assert("ai.generate"@[0] != "nav.nextTab"@[0]);
        assert("ai.generate"@[0] != "nav.prevTab"@[0]);
        assert("nav.goToFile"@[8] != "nav.goToLine"@[8]);
        assert("nav.nextTab"@[4] != "nav.prevTab"@[4]);
    }
    push_new(&mut v, shortcut("file.new", "New File", "Create a new file", "Ctrl+N", "file.new", ShortcutCategory::File), Ghost(ks));
    proof {
        ks = ks.insert("file.new"@);
    }
    push_new(&mut v, shortcut("file.save", "Save File", "Save the current file", "Ctrl+S", "file.save", ShortcutCategory::File), Ghost(ks));
    proof {
        ks = ks.insert("file.save"@);
    }
    push_new(&mut v, shortcut("file.saveAll", "Save All", "Save all open files", "Ctrl+K S", "file.saveAll", ShortcutCategory::File), Ghost(ks));
    proof {
        ks = ks.insert("file.saveAll"@);
    }
    push_new(&mut v, shortcut("file.close", "Close File", "Close the current file", "Ctrl+W", "file.close", ShortcutCategory::File), Ghost(ks));
    proof {
        ks = ks.insert("file.close"@);
    }
    push_new(&mut v, shortcut("edit.undo", "Undo", "Undo the last action", "Ctrl+Z", "edit.undo", ShortcutCategory::Edit), Ghost(ks));
    proof {
        ks = ks.insert("edit.undo"@);
    }
    push_new(&mut v, shortcut("edit.redo", "Redo", "Redo the last undone action", "Ctrl+Y", "edit.redo", ShortcutCategory::Edit), Ghost(ks));
    proof {
        ks = ks.insert("edit.redo"@);
    }
    push_new(&mut v, shortcut("edit.cut", "Cut", "Cut selected text", "Ctrl+X", "edit.cut", ShortcutCategory::Edit), Ghost(ks));
    proof {
        ks = ks.insert("edit.cut"@);
    }
    push_new(&mut v, shortcut("edit.copy", "Copy", "Copy selected text", "Ctrl+C", "edit.copy", ShortcutCategory::Edit), Ghost(ks));
    proof {
        ks = ks.insert("edit.copy"@);
    }
    push_new(&mut v, shortcut("edit.paste", "Paste", "Paste from clipboard", "Ctrl+V", "edit.paste", ShortcutCategory::Edit), Ghost(ks));
    proof {
        ks = ks.insert("edit.paste"@);
    }
    push_new(&mut v, shortcut("edit.format", "Format Document", "Format the current document", "Shift+Alt+F", "edit.format", ShortcutCategory::Edit), Ghost(ks));
    proof {
        ks = ks.insert("edit.format"@);
    }
    push_new(&mut v, shortcut("search.find", "Find", "Find in current file", "Ctrl+F", "search.find", ShortcutCategory::Search), Ghost(ks));
    proof {
        ks = ks.insert("search.find"@);
    }
    push_new(&mut v, shortcut("search.replace", "Replace", "Find and replace", "Ctrl+H", "search.replace", ShortcutCategory::Search), Ghost(ks));
    proof {
        ks = ks.insert("search.replace"@);
    }
    push_new(&mut v, shortcut("search.findInFiles", "Find in Files", "Search across all files", "Ctrl+Shift+F", "search.findInFiles", ShortcutCategory::Search), Ghost(ks));
    proof {
        ks = ks.insert("search.findInFiles"@);
    }
    push_new(&mut v, shortcut("view.commandPalette", "Command Palette", "Open command palette", "Ctrl+Shift+P", "view.commandPalette", ShortcutCategory::View), Ghost(ks));
    proof {
        ks = ks.insert("view.commandPalette"@);
    }
    push_new(&mut v, shortcut("view.toggleSidebar", "Toggle Sidebar", "Show/hide sidebar", "Ctrl+B", "view.toggleSidebar", ShortcutCategory::View), Ghost(ks));
    proof {
        ks = ks.insert("view.toggleSidebar"@);
    }
    push_new(&mut v, shortcut("view.toggleTerminal", "Toggle Terminal", "Show/hide terminal", "Ctrl+`", "view.toggleTerminal", ShortcutCategory::View), Ghost(ks));
    proof {
        ks = ks.insert("view.toggleTerminal"@);
    }
    push_new(&mut v, shortcut("git.commit", "Git Commit", "Commit staged changes", "Ctrl+Shift+G", "git.commit", ShortcutCategory::Git), Ghost(ks));
    proof {
        ks = ks.insert("git.commit"@);
    }
    push_new(&mut v, shortcut("git.push", "Git Push", "Push to remote", "Ctrl+Shift+K", "git.push", ShortcutCategory::Git), Ghost(ks));
    proof {
        ks = ks.insert("git.push"@);
    }
    push_new(&mut v, shortcut("ai.chat", "Open AI Chat", "Open AI assistant chat", "Ctrl+Shift+A", "ai.chat", ShortcutCategory::AI), Ghost(ks));
    proof {
        ks = ks.insert("ai.chat"@);
    }
    push_new(&mut v, shortcut("ai.explain", "Explain Code", "Explain selected code", "Ctrl+Shift+E", "ai.explain", ShortcutCategory::AI), Ghost(ks));
    proof {
        ks = ks.insert("ai.explain"@);
    }
    push_new(&mut v, shortcut("ai.refactor", "Refactor Code", "Refactor selected code", "Ctrl+Shift+R", "ai.refactor", ShortcutCategory::AI), Ghost(ks));
    proof {
        ks = ks.insert("ai.refactor"@);
    }
    push_new(&mut v, shortcut("ai.generate", "Generate Project", "Generate new project", "Ctrl+Shift+N", "ai.generate", ShortcutCategory::AI), Ghost(ks));
    proof {
        ks = ks.insert("ai.generate"@);
    }
    push_new(&mut v, shortcut("nav.goToFile", "Go to File", "Quick file navigation", "Ctrl+P", "nav.goToFile", ShortcutCategory::Navigation), Ghost(ks));
    proof {
        ks = ks.insert("nav.goToFile"@);
    }
    push_new(&mut v, shortcut("nav.goToLine", "Go to Line", "Jump to specific line", "Ctrl+G", "nav.goToLine", ShortcutCategory::Navigation), Ghost(ks));
    proof {
        ks = ks.insert("nav.goToLine"@);
    }
    push_new(&mut v, shortcut("nav.nextTab", "Next Tab", "Switch to next tab", "Ctrl+Tab", "nav.nextTab", ShortcutCategory::Navigation), Ghost(ks));
    proof {
        ks = ks.insert("nav.nextTab"@);
    }
    push_new(&mut v, shortcut("nav.prevTab", "Previous Tab", "Switch to previous tab", "Ctrl+Shift+Tab", "nav.prevTab", ShortcutCategory::Navigation), Ghost(ks));
    proof {
        ks = ks.insert("nav.prevTab"@);
    }
    proof {
        reveal_strlit("Ctrl+N");
        reveal_strlit("Ctrl+S");
        reveal_strlit("Ctrl+K S");
        reveal_strlit("Ctrl+W");
        reveal_strlit("Ctrl+Z");
        reveal_strlit("Ctrl+Y");
        reveal_strlit("Ctrl+X");
        reveal_strlit("Ctrl+C");
        reveal_strlit("Ctrl+V");
        reveal_strlit("Shift+Alt+F");
        reveal_strlit("Ctrl+F");
        reveal_strlit("Ctrl+H");
        reveal_strlit("Ctrl+Shift+F");
        reveal_strlit("Ctrl+Shift+P");
        reveal_strlit("Ctrl+B");
        reveal_strlit("Ctrl+`");
        reveal_strlit("Ctrl+Shift+G");
        reveal_strlit("Ctrl+Shift+K");
        reveal_strlit("Ctrl+Shift+A");
        reveal_strlit("Ctrl+Shift+E");
        reveal_strlit("Ctrl+Shift+R");
        reveal_strlit("Ctrl+Shift+N");
        reveal_strlit("Ctrl+P");
        reveal_strlit("Ctrl+G");
        reveal_strlit("Ctrl+Tab");
        reveal_strlit("Ctrl+Shift+Tab");
    }
    v
}

pub struct ShortcutManager {
    shortcuts: Vec<KeyboardShortcut>,
}

impl ShortcutManager {
    pub closed spec fn shortcuts(&self) -> Seq<KeyboardShortcut> {
        self.shortcuts@
    }

    pub open spec fn wf(&self) -> bool {
        keys_unique(self.shortcuts())
    }

    /// A manager holding the built-in shortcuts.
    pub fn new() -> (r: Self)
        ensures
            r.wf(),
            is_default_shortcuts(r.shortcuts()),
    {
        let mut m = ShortcutManager { shortcuts: Vec::new() };
        m.initialize_default_shortcuts();
        m
    }

    fn initialize_default_shortcuts(&mut self)
        ensures
            final(self).wf(),
            is_default_shortcuts(final(self).shortcuts()),
    {
        self.shortcuts = default_shortcuts();
    }

    pub fn get_all_shortcuts(&self) -> (r: Vec<KeyboardShortcut>)
        ensures
            r@ == self.shortcuts(),
    {
        let r = self.shortcuts.clone();
        proof {
            assert(r@ =~= self.shortcuts@);
        }
        r
    }

    pub fn get_by_category(&self, category: &ShortcutCategory) -> (r: Vec<KeyboardShortcut>)
        ensures
            r@ == self.shortcuts().filter(in_category(*category)),
    {
        let ghost s = self.shortcuts@;
        let mut r: Vec<KeyboardShortcut> = Vec::new();
        let mut i: usize = 0;
        while i < self.shortcuts.len()
            invariant
                i <= s.len(),
                s == self.shortcuts@,
                r@ == s.subrange(0, i as int).filter(in_category(*category)),
            decreases s.len() - i,
        {
            proof {
                assert(s.subrange(0, i + 1).drop_last() =~= s.subrange(0, i as int));
                reveal(Seq::filter);
            }
            if self.shortcuts[i].category == *category {
                r.push(self.shortcuts[i].clone());
            }
            i = i + 1;
        }
        proof {
            assert(s.subrange(0, i as int) =~= s);
        }
        r
    }

    pub fn get_shortcut(&self, id: &str) -> (r: Option<KeyboardShortcut>)
        ensures
            r == entry_for(self.shortcuts(), id@),
    {
        let k = id.to_owned();
        match lookup(&self.shortcuts, &k) {
            Some(s) => Some(s.clone()),
            None => None,
        }
    }

    /// Stores `shortcut` under its id, replacing any shortcut of that id.
    pub fn update_shortcut(&mut self, shortcut: KeyboardShortcut) -> (r: Result<(), String>)
        requires
            old(self).wf(),
        ensures
            r is Ok,
            final(self).wf(),
            final(self).shortcuts() == upsert(old(self).shortcuts(), shortcut),
    {
        proof {
            lemma_upsert(self.shortcuts@, shortcut, shortcut.id@);
        }
        upsert_into(&mut self.shortcuts, shortcut);
        Ok(())
    }

    /// Drops every change and restores the built-in shortcuts.
    pub fn reset_to_defaults(&mut self)
        ensures
            final(self).wf(),
            is_default_shortcuts(final(self).shortcuts()),
    {
        self.shortcuts.clear();
        self.initialize_default_shortcuts();
    }
}

} // verus!
