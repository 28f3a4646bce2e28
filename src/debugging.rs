//! Debug sessions, their breakpoints and launch configurations.
use vstd::prelude::*;
use crate::text::same_text;
use crate::keyed::{Keyed, changed_at_key, entry_for, find_key, find_first_key, first_index_of, index_of, keys_unique,
    lemma_update_same_key, lemma_upsert, lookup, remove_key, upsert, upsert_into, without_key};

verus! {

#[derive(Debug)]
pub struct Breakpoint {
    pub id: String,
    pub file_path: String,
    pub line: u32,
    pub condition: Option<String>,
    pub enabled: bool,
    pub hit_count: u32,
}

impl Clone for Breakpoint {
    fn clone(&self) -> (r: Self)
        ensures
            r == *self,
    {
        let condition = match &self.condition {
            Some(c) => Some(c.clone()),
            None => None,
        };
        Breakpoint {
            id: self.id.clone(),
            file_path: self.file_path.clone(),
            line: self.line,
            condition,
            enabled: self.enabled,
            hit_count: self.hit_count,
        }
    }
}

impl Keyed for Breakpoint {
    open spec fn key(&self) -> Seq<char> {
        self.id@
    }

    fn key_text(&self) -> (r: &String) {
        &self.id
    }
}

#[derive(Clone, Copy, Debug, PartialEq, Eq, Structural)]
pub enum DebugStatus {
    Idle,
    Running,
    Paused,
    Stopped,
    Error,
}

#[derive(Debug)]
pub struct StackFrame {
    pub id: u32,
    pub name: String,
    pub file: String,
    pub line: u32,
    pub column: u32,
}

#[derive(Debug)]
pub struct VariableValue {
    pub name: String,
    pub value: String,
    pub type_label: String,
    pub children: Vec<VariableValue>,
}

#[derive(Debug)]
pub struct DebugSession {
    pub id: String,
    pub project_id: String,
    pub language: String,
    pub status: DebugStatus,
    pub breakpoints: Vec<Breakpoint>,
    pub current_frame: Option<StackFrame>,
    pub variables: Vec<VariableValue>,
}

impl Keyed for DebugSession {
    open spec fn key(&self) -> Seq<char> {
        self.id@
    }

    fn key_text(&self) -> (r: &String) {
        &self.id
    }
}

/// A launch configuration; `env` holds name and value pairs.
#[derive(Debug)]
pub struct DebugConfiguration {
    pub name: String,
    pub type_: String,
    pub request: String,
    pub program: String,
    pub args: Vec<String>,
    pub cwd: String,
    pub env: Vec<(String, String)>,
}

fn clone_texts(v: &Vec<String>) -> (r: Vec<String>)
    ensures
        r@ == v@,
{
    let mut r: Vec<String> = Vec::new();
    let mut i: usize = 0;
    while i < v.len()
        invariant
            i <= v@.len(),
            r@ == v@.subrange(0, i as int),
        decreases v@.len() - i,
    {
        r.push(v[i].clone());
        proof {
            assert(r@ =~= v@.subrange(0, i + 1));
        }
        i = i + 1;
    }
    proof {
        assert(r@ =~= v@);
    }
    r
}

fn clone_pairs(v: &Vec<(String, String)>) -> (r: Vec<(String, String)>)
    ensures
        r@ == v@,
{
    let mut r: Vec<(String, String)> = Vec::new();
    let mut i: usize = 0;
    while i < v.len()
        invariant
            i <= v@.len(),
            r@ == v@.subrange(0, i as int),
        decreases v@.len() - i,
    {
        let (a, b) = &v[i];
        r.push((a.clone(), b.clone()));
        proof {
            assert(r@ =~= v@.subrange(0, i + 1));
        }
        i = i + 1;
    }
    proof {
        assert(r@ =~= v@);
    }
    r
}

/// Two configurations with the same content.
pub open spec fn same_configuration(a: DebugConfiguration, b: DebugConfiguration) -> bool {
    &&& a.name == b.name
    &&& a.type_ == b.type_
    &&& a.request == b.request
    &&& a.program == b.program
    &&& a.args@ == b.args@
    &&& a.cwd == b.cwd
    &&& a.env@ == b.env@
}

impl Clone for DebugConfiguration {
    fn clone(&self) -> (r: Self)
        ensures
            same_configuration(r, *self),
    {
        DebugConfiguration {
            name: self.name.clone(),
            type_: self.type_.clone(),
            request: self.request.clone(),
            program: self.program.clone(),
            args: clone_texts(&self.args),
            cwd: self.cwd.clone(),
            env: clone_pairs(&self.env),
        }
    }
}

/// `b` is `a` with the status `st`.
pub open spec fn status_set(st: DebugStatus) -> spec_fn(DebugSession, DebugSession) -> bool {
    |a: DebugSession, b: DebugSession| b == DebugSession { status: st, ..a }
}

/// `b` is `a` with its breakpoints replaced by `bps`.
pub open spec fn same_but_breakpoints(a: DebugSession, b: DebugSession, bps: Seq<Breakpoint>) -> bool {
    &&& b.id == a.id
    &&& b.project_id == a.project_id
    &&& b.language == a.language
    &&& b.status == a.status
    &&& b.current_frame == a.current_frame
    &&& b.variables == a.variables
    &&& b.breakpoints@ == bps
}

/// `bps` with the `enabled` flag of the first breakpoint keyed `k` flipped.
pub open spec fn toggled(bps: Seq<Breakpoint>, k: Seq<char>) -> Seq<Breakpoint> {
    let i = first_index_of(bps, k);
    if i >= 0 {
        bps.update(i, Breakpoint { enabled: !bps[i].enabled, ..bps[i] })
    } else {
        bps
    }
}

pub open spec fn expression_result(expression: Seq<char>) -> Seq<char> {
    "Result of: "@ + expression
}

/// Relies on `uuid::Uuid::new_v4` and its hyphenated `Display`: a random
/// identifier of 36 characters.
#[verifier::external_body]
fn random_id() -> (r: String)
    ensures
        r@.len() == 36,
{
    uuid::Uuid::new_v4().to_string()
}

pub struct DebugManager {
    sessions: Vec<DebugSession>,
    configurations: Vec<DebugConfiguration>,
}

impl DebugManager {
    pub closed spec fn sessions(&self) -> Seq<DebugSession> {
        self.sessions@
    }

    pub closed spec fn configurations(&self) -> Seq<DebugConfiguration> {
        self.configurations@
    }

    /// One session per id.
    pub open spec fn wf(&self) -> bool {
        keys_unique(self.sessions())
    }

    pub fn new() -> (r: Self)
        ensures
            r.wf(),
            r.sessions() == Seq::<DebugSession>::empty(),
            r.configurations() == Seq::<DebugConfiguration>::empty(),
    {
        DebugManager { sessions: Vec::new(), configurations: Vec::new() }
    }

    fn session_index(&self, session_id: &str) -> (r: Option<usize>)
        ensures
            match r {
                Some(i) => i as int == index_of(self.sessions(), session_id@) && i < self.sessions().len(),
                None => index_of(self.sessions(), session_id@) == -1,
            },
    {
        let k = session_id.to_owned();
        find_key(&self.sessions, &k)
    }

    /// Opens an idle session with no breakpoints under `session_id`,
    /// replacing any session of that id.
    pub fn open_session(&mut self, session_id: String, project_id: String, language: String)
        requires
            old(self).wf(),
        ensures
            final(self).wf(),
            final(self).configurations() == old(self).configurations(),
            final(self).sessions().len() >= 1,
            ({
                let s = entry_for(final(self).sessions(), session_id@);
                &&& s is Some
                &&& s.unwrap().id == session_id
                &&& s.unwrap().project_id == project_id
                &&& s.unwrap().language == language
                &&& s.unwrap().status == DebugStatus::Idle
                &&& s.unwrap().breakpoints@.len() == 0
                &&& s.unwrap().current_frame is None
                &&& s.unwrap().variables@.len() == 0
            }),
            forall|k: Seq<char>| k != session_id@ ==> entry_for(final(self).sessions(), k) == entry_for(old(self).sessions(), k),
    {
        let session = DebugSession {
            id: session_id,
            project_id,
            language,
            status: DebugStatus::Idle,
            breakpoints: Vec::new(),
            current_frame: None,
            variables: Vec::new(),
        };
        proof {
            lemma_upsert(self.sessions@, session, session.id@);
            assert forall|k: Seq<char>| k != session.id@ implies entry_for(upsert(self.sessions@, session), k) == entry_for(self.sessions@, k) by {
                lemma_upsert(self.sessions@, session, k);
            }
        }
        upsert_into(&mut self.sessions, session);
    }

    /// Opens an idle session under a fresh random id and returns the id.
    pub fn create_session(&mut self, project_id: String, language: String) -> (r: String)
        requires
            old(self).wf(),
        ensures
            final(self).wf(),
            final(self).configurations() == old(self).configurations(),
            ({
                let s = entry_for(final(self).sessions(), r@);
                &&& s is Some
                &&& s.unwrap().project_id == project_id
                &&& s.unwrap().language == language
                &&& s.unwrap().status == DebugStatus::Idle
            }),
    {
        let id = random_id();
        self.open_session(id.clone(), project_id, language);
        id
    }

    fn set_status(&mut self, session_id: &str, status: DebugStatus)
        requires
            old(self).wf(),
        ensures
            final(self).wf(),
            final(self).configurations() == old(self).configurations(),
            changed_at_key(old(self).sessions(), final(self).sessions(), session_id@, status_set(status)),
    {
        match self.session_index(session_id) {
            Some(i) => {
                let mut s = self.sessions.remove(i);
                let ghost before = s;
                s.status = status;
                proof {
                    lemma_update_same_key(old(self).sessions@, i as int, s);
                    assert(s == DebugSession { status, ..before });
                }
                self.sessions.insert(i, s);
                proof {
                    assert(self.sessions@ =~= old(self).sessions@.update(i as int, s));
                }
            },
            None => {},
        }
    }

    /// Marks the session running.
    pub fn start_debugging(&mut self, session_id: &str) -> (r: Result<(), String>)
        requires
            old(self).wf(),
        ensures
            r is Ok,
            final(self).wf(),
            final(self).configurations() == old(self).configurations(),
            changed_at_key(old(self).sessions(), final(self).sessions(), session_id@, status_set(DebugStatus::Running)),
    {
        self.set_status(session_id, DebugStatus::Running);
        Ok(())
    }

    /// Marks the session paused.
    pub fn pause_debugging(&mut self, session_id: &str) -> (r: Result<(), String>)
        requires
            old(self).wf(),
        ensures
            r is Ok,
            final(self).wf(),
            final(self).configurations() == old(self).configurations(),
            changed_at_key(old(self).sessions(), final(self).sessions(), session_id@, status_set(DebugStatus::Paused)),
    {
        self.set_status(session_id, DebugStatus::Paused);
        Ok(())
    }

    /// Marks the session stopped.
    pub fn stop_debugging(&mut self, session_id: &str) -> (r: Result<(), String>)
        requires
            old(self).wf(),
        ensures
            r is Ok,
            final(self).wf(),
            final(self).configurations() == old(self).configurations(),
            changed_at_key(old(self).sessions(), final(self).sessions(), session_id@, status_set(DebugStatus::Stopped)),
    {
        self.set_status(session_id, DebugStatus::Stopped);
        Ok(())
    }

    /// Marks the session running again.
    pub fn continue_debugging(&mut self, session_id: &str) -> (r: Result<(), String>)
        requires
            old(self).wf(),
        ensures
            r is Ok,
            final(self).wf(),
            final(self).configurations() == old(self).configurations(),
            changed_at_key(old(self).sessions(), final(self).sessions(), session_id@, status_set(DebugStatus::Running)),
    {
        self.set_status(session_id, DebugStatus::Running);
        Ok(())
    }

    /// A step request; no debugger adapter is attached, so nothing changes.
    pub fn step_over(&mut self, session_id: &str) -> (r: Result<(), String>)
        ensures
            r is Ok,
            *final(self) == *old(self),
    {
        Ok(())
    }

    /// A step request; no debugger adapter is attached, so nothing changes.
    pub fn step_into(&mut self, session_id: &str) -> (r: Result<(), String>)
        ensures
            r is Ok,
            *final(self) == *old(self),
    {
        Ok(())
    }

    /// A step request; no debugger adapter is attached, so nothing changes.
    pub fn step_out(&mut self, session_id: &str) -> (r: Result<(), String>)
        ensures
            r is Ok,
            *final(self) == *old(self),
    {
        Ok(())
    }

    /// Appends a breakpoint to the session, if it exists.
    pub fn add_breakpoint(&mut self, session_id: &str, breakpoint: Breakpoint) -> (r: Result<(), String>)
        requires
            old(self).wf(),
        ensures
            r is Ok,
            final(self).wf(),
            final(self).configurations() == old(self).configurations(),
            changed_at_key(old(self).sessions(), final(self).sessions(), session_id@,
                |a: DebugSession, b: DebugSession| same_but_breakpoints(a, b, a.breakpoints@.push(breakpoint))),
    {
        match self.session_index(session_id) {
            Some(i) => {
                let mut s = self.sessions.remove(i);
                s.breakpoints.push(breakpoint);
                proof {
                    lemma_update_same_key(old(self).sessions@, i as int, s);
                }
                self.sessions.insert(i, s);
                proof {
                    assert(self.sessions@ =~= old(self).sessions@.update(i as int, s));
                }
            },
            None => {},
        }
        Ok(())
    }

    /// Drops every breakpoint keyed `breakpoint_id` from the session.
    pub fn remove_breakpoint(&mut self, session_id: &str, breakpoint_id: &str) -> (r: Result<(), String>)
        requires
            old(self).wf(),
        ensures
            r is Ok,
            final(self).wf(),
            final(self).configurations() == old(self).configurations(),
            changed_at_key(old(self).sessions(), final(self).sessions(), session_id@,
                |a: DebugSession, b: DebugSession| same_but_breakpoints(a, b, without_key(a.breakpoints@, breakpoint_id@))),
    {
        match self.session_index(session_id) {
            Some(i) => {
                let mut s = self.sessions.remove(i);
                let k = breakpoint_id.to_owned();
                remove_key(&mut s.breakpoints, &k);
                proof {
                    lemma_update_same_key(old(self).sessions@, i as int, s);
                }
                self.sessions.insert(i, s);
                proof {
                    assert(self.sessions@ =~= old(self).sessions@.update(i as int, s));
                }
            },
            None => {},
        }
        Ok(())
    }

    /// Flips `enabled` on the first breakpoint keyed `breakpoint_id`.
    pub fn toggle_breakpoint(&mut self, session_id: &str, breakpoint_id: &str) -> (r: Result<(), String>)
        requires
            old(self).wf(),
        ensures
            r is Ok,
            final(self).wf(),
            final(self).configurations() == old(self).configurations(),
            changed_at_key(old(self).sessions(), final(self).sessions(), session_id@,
                |a: DebugSession, b: DebugSession| same_but_breakpoints(a, b, toggled(a.breakpoints@, breakpoint_id@))),
    {
        match self.session_index(session_id) {
            Some(i) => {
                let mut s = self.sessions.remove(i);
                let k = breakpoint_id.to_owned();
                match find_first_key(&s.breakpoints, &k) {
                    Some(j) => {
                        let mut bp = s.breakpoints.remove(j);
                        bp.enabled = !bp.enabled;
                        s.breakpoints.insert(j, bp);
                    },
                    None => {},
                }
                proof {
                    let old_s = old(self).sessions@[i as int];
                    assert(s.breakpoints@ =~= toggled(old_s.breakpoints@, breakpoint_id@));
                    lemma_update_same_key(old(self).sessions@, i as int, s);
                }
                self.sessions.insert(i, s);
                proof {
                    assert(self.sessions@ =~= old(self).sessions@.update(i as int, s));
                }
            },
            None => {},
        }
        Ok(())
    }

    /// The breakpoints of the session; none if it does not exist.
    pub fn list_breakpoints(&self, session_id: &str) -> (r: Vec<Breakpoint>)
        ensures
            r@ == match entry_for(self.sessions(), session_id@) {
                Some(s) => s.breakpoints@,
                None => Seq::<Breakpoint>::empty(),
            },
    {
        let k = session_id.to_owned();
        match lookup(&self.sessions, &k) {
            Some(s) => {
                let r = s.breakpoints.clone();
                proof {
                    assert(r@ =~= s.breakpoints@);
                }
                r
            },
            None => Vec::new(),
        }
    }

    /// The variables of the session; none if it does not exist.
    pub fn get_variables(&self, session_id: &str) -> (r: &[VariableValue])
        ensures
            r@ == match entry_for(self.sessions(), session_id@) {
                Some(s) => s.variables@,
                None => Seq::<VariableValue>::empty(),
            },
    {
        let k = session_id.to_owned();
        match lookup(&self.sessions, &k) {
            Some(s) => s.variables.as_slice(),
            None => &[],
        }
    }

    /// Evaluates an expression in the session; without a debugger adapter the
    /// answer only echoes the expression.
    pub fn evaluate_expression(&self, session_id: &str, expression: &str) -> (r: Result<String, String>)
        ensures
            match r {
                Ok(t) => t@ == expression_result(expression@),
                Err(_) => false,
            },
    {
        Ok(crate::text::concat2("Result of: ", expression))
    }

    pub fn add_configuration(&mut self, config: DebugConfiguration)
        ensures
            final(self).sessions() == old(self).sessions(),
            final(self).configurations() == old(self).configurations().push(config),
    {
        self.configurations.push(config);
    }

    pub fn get_configurations(&self) -> (r: Vec<DebugConfiguration>)
        ensures
            r@.len() == self.configurations().len(),
            forall|i: int| 0 <= i < r@.len() ==> same_configuration(#[trigger] r@[i], self.configurations()[i]),
    {
        let mut r: Vec<DebugConfiguration> = Vec::new();
        let mut i: usize = 0;
        while i < self.configurations.len()
            invariant
                i <= self.configurations@.len(),
                r@.len() == i,
                forall|j: int| 0 <= j < i ==> same_configuration(#[trigger] r@[j], self.configurations@[j]),
            decreases self.configurations@.len() - i,
        {
            r.push(self.configurations[i].clone());
            i = i + 1;
        }
        r
    }

    /// The built-in launch configuration for `language`, if there is one.
    pub fn create_default_configurations(&self, language: &str) -> (r: Vec<DebugConfiguration>)
        ensures
            language@ == "rust"@ ==> r@.len() == 1 && r@[0].name@ == "Debug Rust"@ && r@[0].type_@ == "lldb"@,
            language@ == "javascript"@ || language@ == "typescript"@ ==> r@.len() == 1 && r@[0].name@ == "Debug Node"@
                && r@[0].type_@ == "node"@,
            language@ == "python"@ ==> r@.len() == 1 && r@[0].name@ == "Debug Python"@ && r@[0].type_@ == "python"@,
            language@ != "rust"@ && language@ != "javascript"@ && language@ != "typescript"@ && language@ != "python"@
                ==> r@.len() == 0,
            forall|i: int| 0 <= i < r@.len() ==> (#[trigger] r@[i]).request@ == "launch"@ && r@[i].args@.len() == 0
                && r@[i].env@.len() == 0,
    {
        proof {
            reveal_strlit("rust");
            reveal_strlit("javascript");
            reveal_strlit("typescript");
            reveal_strlit("python");
            assert("rust"@.len() == 4);
            assert("python"@.len() == 6);
            assert("javascript"@.len() == 10);
            assert("typescript"@.len() == 10);
            assert("javascript"@[0] != "typescript"@[0]);
        }
        if same_text(language, "rust") {
            vec![launch_config("Debug Rust", "lldb", "${workspaceFolder}/target/debug/${workspaceFolderBasename}")]
        } else if same_text(language, "javascript") || same_text(language, "typescript") {
            vec![launch_config("Debug Node", "node", "${workspaceFolder}/index.js")]
        } else if same_text(language, "python") {
            vec![launch_config("Debug Python", "python", "${file}")]
        } else {
            Vec::new()
        }
    }
}

fn launch_config(name: &str, type_: &str, program: &str) -> (r: DebugConfiguration)
    ensures
        r.name@ == name@,
        r.type_@ == type_@,
        r.request@ == "launch"@,
        r.program@ == program@,
        r.args@.len() == 0,
        r.cwd@ == "${workspaceFolder}"@,
        r.env@.len() == 0,
{
    DebugConfiguration {
        name: name.to_owned(),
        type_: type_.to_owned(),
        request: "launch".to_owned(),
        program: program.to_owned(),
        args: Vec::new(),
        cwd: "${workspaceFolder}".to_owned(),
        env: Vec::new(),
    }
}

} // verus!
