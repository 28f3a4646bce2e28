//! Editor colour themes: a built-in set plus the user's own.
use vstd::prelude::*;
use crate::keyed::{push_new, Keyed, entry_for, keys_unique, lemma_upsert, lookup, upsert, upsert_into};

verus! {

#[derive(Debug)]
pub struct ThemeColors {
    pub background: String,
    pub foreground: String,
    pub primary: String,
    pub secondary: String,
    pub accent: String,
    pub error: String,
    pub warning: String,
    pub success: String,
    pub info: String,
}

#[derive(Debug)]
pub struct SyntaxColors {
    pub keyword: String,
    pub string: String,
    pub number: String,
    pub comment: String,
    pub function: String,
    pub variable: String,
    /// Colour of type names.
    pub type_color: String,
    pub operator: String,
}

#[derive(Debug)]
pub struct UIColors {
    pub sidebar: String,
    pub editor: String,
    pub terminal: String,
    pub statusbar: String,
    pub border: String,
    pub hover: String,
    pub selection: String,
    pub active: String,
}

#[derive(Debug)]
pub struct Theme {
    pub id: String,
    pub name: String,
    pub description: String,
    pub author: String,
    pub colors: ThemeColors,
    pub syntax: SyntaxColors,
    pub ui: UIColors,
}

impl Keyed for Theme {
    open spec fn key(&self) -> Seq<char> {
        self.id@
    }

    fn key_text(&self) -> (r: &String) {
        &self.id
    }
}

/// `r` refers to exactly the themes of `s`, in order.
pub open spec fn refers_to(r: Seq<&Theme>, s: Seq<Theme>) -> bool {
    &&& r.len() == s.len()
    &&& forall|i: int| 0 <= i < r.len() ==> *(#[trigger] r[i]) == s[i]
}

fn add_theme_entry(v: &mut Vec<Theme>, t: Theme)
    requires
        keys_unique(old(v)@),
    ensures
        keys_unique(final(v)@),
        final(v)@ == upsert(old(v)@, t),
        entry_for(final(v)@, t.id@) == Some(t),
{
    proof {
        lemma_upsert(old(v)@, t, t.id@);
    }
    upsert_into(v, t);
}

/// The ids of the built-in themes, in the order they are stored.
pub open spec fn default_theme_ids() -> Seq<Seq<char>> {
    seq!["dark"@, "dracula"@, "monokai"@, "nord"@, "tokyo-night"@, "light"@, "github-light"@, "solarized-light"@]
}

/// The names of the built-in themes, in the same order.
pub open spec fn default_theme_names() -> Seq<Seq<char>> {
    seq!["Dark"@, "Dracula"@, "Monokai"@, "Nord"@, "Tokyo Night"@, "Light"@, "GitHub Light"@, "Solarized Light"@]
}

/// The built-in themes, by id and name, in order.
pub open spec fn is_default_themes(s: Seq<Theme>) -> bool {
    &&& s.len() == default_theme_ids().len()
    &&& forall|i: int| 0 <= i < s.len() ==> (#[trigger] s[i]).id@ == default_theme_ids()[i] && s[i].name@ == default_theme_names()[i]
}

pub struct ThemeManager {
    themes: Vec<Theme>,
}

impl ThemeManager {
    pub closed spec fn themes(&self) -> Seq<Theme> {
        self.themes@
    }

    pub open spec fn wf(&self) -> bool {
        keys_unique(self.themes())
    }

    /// A manager holding the built-in themes.
    pub fn new() -> (r: Self)
        ensures
            r.wf(),
            is_default_themes(r.themes()),
    {
        let mut manager = ThemeManager { themes: Vec::new() };
        manager.initialize_default_themes();
        manager
    }

    fn initialize_default_themes(&mut self)
        ensures
            final(self).wf(),
            is_default_themes(final(self).themes()),
    {
        let mut v: Vec<Theme> = Vec::new();
        let ghost mut ks: Set<Seq<char>> = Set::empty();
        proof {
            reveal_strlit("dark");
            reveal_strlit("dracula");
            reveal_strlit("monokai");
            reveal_strlit("nord");
            reveal_strlit("tokyo-night");
            reveal_strlit("light");
            reveal_strlit("github-light");
            reveal_strlit("solarized-light");
            assert("dark"@.len() == 4);
            assert("dracula"@.len() == 7);
            assert("monokai"@.len() == 7);
            assert("nord"@.len() == 4);
            assert("tokyo-night"@.len() == 11);
            assert("light"@.len() == 5);
            assert("github-light"@.len() == 12);
            assert("solarized-light"@.len() == 15);
            assert("dark"@[0] != "nord"@[0]);
            assert("dracula"@[0] != "monokai"@[0]);
        }
        push_new(&mut v, Self::create_dark_theme(), Ghost(ks));
        proof {
            ks = ks.insert("dark"@);
        }
        push_new(&mut v, Self::create_dracula_theme(), Ghost(ks));
        proof {
            ks = ks.insert("dracula"@);
        }
        push_new(&mut v, Self::create_monokai_theme(), Ghost(ks));
        proof {
            ks = ks.insert("monokai"@);
        }
        push_new(&mut v, Self::create_nord_theme(), Ghost(ks));
        proof {
            ks = ks.insert("nord"@);
        }
        push_new(&mut v, Self::create_tokyo_night_theme(), Ghost(ks));
        proof {
            ks = ks.insert("tokyo-night"@);
        }
        push_new(&mut v, Self::create_light_theme(), Ghost(ks));
        proof {
            ks = ks.insert("light"@);
        }
        push_new(&mut v, Self::create_github_light_theme(), Ghost(ks));
        proof {
            ks = ks.insert("github-light"@);
        }
        push_new(&mut v, Self::create_solarized_light_theme(), Ghost(ks));
        proof {
            ks = ks.insert("solarized-light"@);
        }
        self.themes = v;
    }

    fn create_dark_theme() -> (r: Theme)
        ensures
            r.id@ == "dark"@,
            r.name@ == "Dark"@,
    {
        Theme {
            id: "dark".to_owned(),
            name: "Dark".to_owned(),
            description: "Default dark theme".to_owned(),
            author: "SAI IDE".to_owned(),
            colors: ThemeColors { background: "#1e1e1e".to_owned(), foreground: "#d4d4d4".to_owned(), primary: "#007acc".to_owned(), secondary: "#3c3c3c".to_owned(), accent: "#0098ff".to_owned(), error: "#f48771".to_owned(), warning: "#cca700".to_owned(), success: "#89d185".to_owned(), info: "#75beff".to_owned() },
            syntax: SyntaxColors { keyword: "#569cd6".to_owned(), string: "#ce9178".to_owned(), number: "#b5cea8".to_owned(), comment: "#6a9955".to_owned(), function: "#dcdcaa".to_owned(), variable: "#9cdcfe".to_owned(), type_color: "#4ec9b0".to_owned(), operator: "#d4d4d4".to_owned() },
            ui: UIColors { sidebar: "#252526".to_owned(), editor: "#1e1e1e".to_owned(), terminal: "#1e1e1e".to_owned(), statusbar: "#007acc".to_owned(), border: "#3c3c3c".to_owned(), hover: "#2a2d2e".to_owned(), selection: "#264f78".to_owned(), active: "#094771".to_owned() },
        }
    }

    fn create_dracula_theme() -> (r: Theme)
        ensures
            r.id@ == "dracula"@,
            r.name@ == "Dracula"@,
    {
        Theme {
            id: "dracula".to_owned(),
            name: "Dracula".to_owned(),
            description: "Dark theme with vibrant colors".to_owned(),
            author: "Dracula Team".to_owned(),
            colors: ThemeColors { background: "#282a36".to_owned(), foreground: "#f8f8f2".to_owned(), primary: "#bd93f9".to_owned(), secondary: "#44475a".to_owned(), accent: "#ff79c6".to_owned(), error: "#ff5555".to_owned(), warning: "#ffb86c".to_owned(), success: "#50fa7b".to_owned(), info: "#8be9fd".to_owned() },
            syntax: SyntaxColors { keyword: "#ff79c6".to_owned(), string: "#f1fa8c".to_owned(), number: "#bd93f9".to_owned(), comment: "#6272a4".to_owned(), function: "#50fa7b".to_owned(), variable: "#f8f8f2".to_owned(), type_color: "#8be9fd".to_owned(), operator: "#ff79c6".to_owned() },
            ui: UIColors { sidebar: "#21222c".to_owned(), editor: "#282a36".to_owned(), terminal: "#282a36".to_owned(), statusbar: "#6272a4".to_owned(), border: "#44475a".to_owned(), hover: "#44475a".to_owned(), selection: "#44475a".to_owned(), active: "#6272a4".to_owned() },
        }
    }

    fn create_monokai_theme() -> (r: Theme)
        ensures
            r.id@ == "monokai"@,
            r.name@ == "Monokai"@,
    {
        Theme {
            id: "monokai".to_owned(),
            name: "Monokai".to_owned(),
            description: "Classic Monokai theme".to_owned(),
            author: "Sublime Text".to_owned(),
            colors: ThemeColors { background: "#272822".to_owned(), foreground: "#f8f8f2".to_owned(), primary: "#f92672".to_owned(), secondary: "#3e3d32".to_owned(), accent: "#fd971f".to_owned(), error: "#f92672".to_owned(), warning: "#e6db74".to_owned(), success: "#a6e22e".to_owned(), info: "#66d9ef".to_owned() },
            syntax: SyntaxColors { keyword: "#f92672".to_owned(), string: "#e6db74".to_owned(), number: "#ae81ff".to_owned(), comment: "#75715e".to_owned(), function: "#a6e22e".to_owned(), variable: "#f8f8f2".to_owned(), type_color: "#66d9ef".to_owned(), operator: "#f92672".to_owned() },
            ui: UIColors { sidebar: "#1e1f1c".to_owned(), editor: "#272822".to_owned(), terminal: "#272822".to_owned(), statusbar: "#3e3d32".to_owned(), border: "#3e3d32".to_owned(), hover: "#3e3d32".to_owned(), selection: "#49483e".to_owned(), active: "#75715e".to_owned() },
        }
    }

    fn create_nord_theme() -> (r: Theme)
        ensures
            r.id@ == "nord"@,
            r.name@ == "Nord"@,
    {
        Theme {
            id: "nord".to_owned(),
            name: "Nord".to_owned(),
            description: "Arctic,
            north-bluish color palette".to_owned(),
            author: "Arctic Ice Studio".to_owned(),
            colors: ThemeColors { background: "#2e3440".to_owned(), foreground: "#d8dee9".to_owned(), primary: "#88c0d0".to_owned(), secondary: "#3b4252".to_owned(), accent: "#81a1c1".to_owned(), error: "#bf616a".to_owned(), warning: "#ebcb8b".to_owned(), success: "#a3be8c".to_owned(), info: "#88c0d0".to_owned() },
            syntax: SyntaxColors { keyword: "#81a1c1".to_owned(), string: "#a3be8c".to_owned(), number: "#b48ead".to_owned(), comment: "#616e88".to_owned(), function: "#88c0d0".to_owned(), variable: "#d8dee9".to_owned(), type_color: "#8fbcbb".to_owned(), operator: "#81a1c1".to_owned() },
            ui: UIColors { sidebar: "#2e3440".to_owned(), editor: "#2e3440".to_owned(), terminal: "#2e3440".to_owned(), statusbar: "#3b4252".to_owned(), border: "#3b4252".to_owned(), hover: "#434c5e".to_owned(), selection: "#434c5e".to_owned(), active: "#4c566a".to_owned() },
        }
    }

    fn create_tokyo_night_theme() -> (r: Theme)
        ensures
            r.id@ == "tokyo-night"@,
            r.name@ == "Tokyo Night"@,
    {
        Theme {
            id: "tokyo-night".to_owned(),
            name: "Tokyo Night".to_owned(),
            description: "A clean,
            dark theme inspired by Tokyo's night".to_owned(),
            author: "Enkia".to_owned(),
            colors: ThemeColors { background: "#1a1b26".to_owned(), foreground: "#a9b1d6".to_owned(), primary: "#7aa2f7".to_owned(), secondary: "#24283b".to_owned(), accent: "#bb9af7".to_owned(), error: "#f7768e".to_owned(), warning: "#e0af68".to_owned(), success: "#9ece6a".to_owned(), info: "#7dcfff".to_owned() },
            syntax: SyntaxColors { keyword: "#bb9af7".to_owned(), string: "#9ece6a".to_owned(), number: "#ff9e64".to_owned(), comment: "#565f89".to_owned(), function: "#7aa2f7".to_owned(), variable: "#a9b1d6".to_owned(), type_color: "#2ac3de".to_owned(), operator: "#bb9af7".to_owned() },
            ui: UIColors { sidebar: "#16161e".to_owned(), editor: "#1a1b26".to_owned(), terminal: "#1a1b26".to_owned(), statusbar: "#24283b".to_owned(), border: "#24283b".to_owned(), hover: "#292e42".to_owned(), selection: "#283457".to_owned(), active: "#3d59a1".to_owned() },
        }
    }

    fn create_light_theme() -> (r: Theme)
        ensures
            r.id@ == "light"@,
            r.name@ == "Light"@,
    {
        Theme {
            id: "light".to_owned(),
            name: "Light".to_owned(),
            description: "Default light theme".to_owned(),
            author: "SAI IDE".to_owned(),
            colors: ThemeColors { background: "#ffffff".to_owned(), foreground: "#000000".to_owned(), primary: "#0066cc".to_owned(), secondary: "#f3f3f3".to_owned(), accent: "#007acc".to_owned(), error: "#e51400".to_owned(), warning: "#bf8803".to_owned(), success: "#09885a".to_owned(), info: "#0068d6".to_owned() },
            syntax: SyntaxColors { keyword: "#0000ff".to_owned(), string: "#a31515".to_owned(), number: "#098658".to_owned(), comment: "#008000".to_owned(), function: "#795e26".to_owned(), variable: "#001080".to_owned(), type_color: "#267f99".to_owned(), operator: "#000000".to_owned() },
            ui: UIColors { sidebar: "#f3f3f3".to_owned(), editor: "#ffffff".to_owned(), terminal: "#ffffff".to_owned(), statusbar: "#007acc".to_owned(), border: "#cccccc".to_owned(), hover: "#e8e8e8".to_owned(), selection: "#add6ff".to_owned(), active: "#0066cc".to_owned() },
        }
    }

    fn create_github_light_theme() -> (r: Theme)
        ensures
            r.id@ == "github-light"@,
            r.name@ == "GitHub Light"@,
    {
        Theme {
            id: "github-light".to_owned(),
            name: "GitHub Light".to_owned(),
            description: "Light theme inspired by GitHub".to_owned(),
            author: "GitHub".to_owned(),
            colors: ThemeColors { background: "#ffffff".to_owned(), foreground: "#24292e".to_owned(), primary: "#0366d6".to_owned(), secondary: "#f6f8fa".to_owned(), accent: "#0366d6".to_owned(), error: "#d73a49".to_owned(), warning: "#ffd33d".to_owned(), success: "#28a745".to_owned(), info: "#0366d6".to_owned() },
            syntax: SyntaxColors { keyword: "#d73a49".to_owned(), string: "#032f62".to_owned(), number: "#005cc5".to_owned(), comment: "#6a737d".to_owned(), function: "#6f42c1".to_owned(), variable: "#24292e".to_owned(), type_color: "#005cc5".to_owned(), operator: "#d73a49".to_owned() },
            ui: UIColors { sidebar: "#f6f8fa".to_owned(), editor: "#ffffff".to_owned(), terminal: "#ffffff".to_owned(), statusbar: "#24292e".to_owned(), border: "#e1e4e8".to_owned(), hover: "#f6f8fa".to_owned(), selection: "#c8e1ff".to_owned(), active: "#0366d6".to_owned() },
        }
    }

    fn create_solarized_light_theme() -> (r: Theme)
        ensures
            r.id@ == "solarized-light"@,
            r.name@ == "Solarized Light"@,
    {
        Theme {
            id: "solarized-light".to_owned(),
            name: "Solarized Light".to_owned(),
            description: "Precision colors for machines and people".to_owned(),
            author: "Ethan Schoonover".to_owned(),
            colors: ThemeColors { background: "#fdf6e3".to_owned(), foreground: "#657b83".to_owned(), primary: "#268bd2".to_owned(), secondary: "#eee8d5".to_owned(), accent: "#2aa198".to_owned(), error: "#dc322f".to_owned(), warning: "#b58900".to_owned(), success: "#859900".to_owned(), info: "#268bd2".to_owned() },
            syntax: SyntaxColors { keyword: "#859900".to_owned(), string: "#2aa198".to_owned(), number: "#d33682".to_owned(), comment: "#93a1a1".to_owned(), function: "#268bd2".to_owned(), variable: "#657b83".to_owned(), type_color: "#b58900".to_owned(), operator: "#859900".to_owned() },
            ui: UIColors { sidebar: "#eee8d5".to_owned(), editor: "#fdf6e3".to_owned(), terminal: "#fdf6e3".to_owned(), statusbar: "#93a1a1".to_owned(), border: "#eee8d5".to_owned(), hover: "#eee8d5".to_owned(), selection: "#eee8d5".to_owned(), active: "#93a1a1".to_owned() },
        }
    }

    pub fn get_theme(&self, id: &str) -> (r: Option<&Theme>)
        ensures
            match r {
                Some(t) => entry_for(self.themes(), id@) == Some(*t),
                None => entry_for(self.themes(), id@) == None::<Theme>,
            },
    {
        let k = id.to_owned();
        lookup(&self.themes, &k)
    }

    pub fn list_themes(&self) -> (r: Vec<&Theme>)
        ensures
            refers_to(r@, self.themes()),
    {
        let mut r: Vec<&Theme> = Vec::new();
        let mut i: usize = 0;
        while i < self.themes.len()
            invariant
                i <= self.themes@.len(),
                refers_to(r@, self.themes@.subrange(0, i as int)),
            decreases self.themes@.len() - i,
        {
            r.push(&self.themes[i]);
            i = i + 1;
        }
        proof {
            assert(self.themes@.subrange(0, i as int) =~= self.themes@);
        }
        r
    }

    /// Stores `theme` under its id, replacing any theme of that id.
    pub fn add_custom_theme(&mut self, theme: Theme)
        requires
            old(self).wf(),
        ensures
            final(self).wf(),
            final(self).themes() == upsert(old(self).themes(), theme),
    {
        add_theme_entry(&mut self.themes, theme);
    }
}

} // verus!
