//! Installed plugins: their records and the ids derived from their names.
use vstd::prelude::*;
use crate::text::{chars_of, lower_of, push_char, to_lower};

verus! {

#[derive(Clone, Copy, Debug, PartialEq, Eq, Structural)]
pub enum Permission {
    FileSystem,
    Network,
    LLM,
    UI,
    Terminal,
    Git,
}

#[derive(Debug)]
pub struct Plugin {
    pub id: String,
    pub name: String,
    pub version: String,
    pub author: String,
    pub description: String,
    pub entry_point: String,
    pub permissions: Vec<Permission>,
    pub enabled: bool,
    pub install_date: String,
    pub last_updated: String,
}

/// The manifest shipped with a plugin; `dependencies` holds name and
/// version-requirement pairs.
#[derive(Debug)]
pub struct PluginManifest {
    pub name: String,
    pub version: String,
    pub author: String,
    pub description: String,
    pub entry: String,
    pub permissions: Vec<Permission>,
    pub dependencies: Vec<(String, String)>,
}

/// Whether a character is alphabetic or numeric, as `char::is_alphanumeric`
/// decides from the Unicode tables.
pub uninterp spec fn alphanumeric(c: char) -> bool;

/// Relies on `char::is_alphanumeric`: Unicode `Alphabetic` or `Numeric`, a
/// function of the character alone.
#[verifier::external_body]
fn is_alphanumeric(c: char) -> (r: bool)
    ensures
        r == alphanumeric(c),
{
    c.is_alphanumeric()
}

/// Spaces become `-`; only alphanumeric characters and `-` are kept.
pub open spec fn id_chars(s: Seq<char>) -> Seq<char>
    decreases s.len(),
{
    if s.len() == 0 {
        Seq::empty()
    } else {
        let c = if s.last() == ' ' {
            '-'
        } else {
            s.last()
        };
        if alphanumeric(c) || c == '-' {
            id_chars(s.drop_last()).push(c)
        } else {
            id_chars(s.drop_last())
        }
    }
}

/// The id derived from a plugin name.
pub open spec fn plugin_id_of(name: Seq<char>) -> Seq<char> {
    id_chars(lower_of(name))
}

pub struct PluginManager {
    plugins_dir: String,
}

impl PluginManager {
    /// A manager of the plugins installed under `plugins_dir`.
    pub fn with_dir(plugins_dir: String) -> (r: Self)
        ensures
            r.dir() == plugins_dir@,
    {
        PluginManager { plugins_dir }
    }

    pub closed spec fn dir(&self) -> Seq<char> {
        self.plugins_dir@
    }

    pub fn plugins_dir(&self) -> (r: &String)
        ensures
            r@ == self.dir(),
    {
        &self.plugins_dir
    }

    /// The id for a plugin called `name`: lower-cased, spaces as `-`, and
    /// only alphanumeric characters and `-` kept.
    pub fn generate_plugin_id(&self, name: &str) -> (r: String)
        ensures
            r@ == plugin_id_of(name@),
    {
        let lower = to_lower(name);
        self.id_from_lowered(lower.as_str())
    }

    /// The id for an already lower-cased name.
    pub fn id_from_lowered(&self, lowered: &str) -> (r: String)
        ensures
            r@ == id_chars(lowered@),
    {
        let cs = chars_of(lowered);
        let mut r = String::new();
        let mut i: usize = 0;
        while i < cs.len()
            invariant
                i <= cs@.len(),
                cs@ == lowered@,
                r@ == id_chars(cs@.subrange(0, i as int)),
            decreases cs@.len() - i,
        {
            proof {
                assert(cs@.subrange(0, i + 1).drop_last() =~= cs@.subrange(0, i as int));
            }
            let c = if cs[i] == ' ' {
                '-'
            } else {
                cs[i]
            };
            if c == '-' || is_alphanumeric(c) {
                push_char(&mut r, c);
            }
            i = i + 1;
        }
        proof {
            assert(cs@.subrange(0, i as int) =~= cs@);
        }
        r
    }
}

} // verus!
