//! Reading the output of the `git` command line.
//!
//! Running `git` is left to the caller; these functions turn its text
//! output into records.
use vstd::prelude::*;
use crate::text::{before_first, first_occurrence, parse_usize, parsed_usize, piece_before, same_text, second_piece, starts_with, trim_from, trimmed,
    chars_of, leading_count, strip_leading, contains_text, lines, lines_of, occurs_in, split_chars, split_on, text_of, words, words_of,
    Separator};

verus! {

#[derive(Debug)]
pub struct GitRepository {
    pub path: String,
    pub current_branch: String,
    pub is_dirty: bool,
    pub remote_url: Option<String>,
}

#[derive(Debug)]
pub struct GitStatus {
    pub branch: String,
    pub ahead: usize,
    pub behind: usize,
    pub staged: Vec<String>,
    pub modified: Vec<String>,
    pub untracked: Vec<String>,
    pub conflicted: Vec<String>,
}

#[derive(Debug)]
pub struct GitCommit {
    pub hash: String,
    pub short_hash: String,
    pub author: String,
    pub date: String,
    pub message: String,
}

#[derive(Debug)]
pub struct GitBranch {
    pub name: String,
    pub is_current: bool,
    pub is_remote: bool,
    pub last_commit: Option<String>,
}

/// The `|`-separated fields of each line of a log.
pub open spec fn log_fields(text: Seq<char>) -> Seq<Seq<Seq<char>>> {
    lines_of(text).map_values(|l: Seq<char>| split_on(l, Separator::Char('|')))
}

pub open spec fn five_fields() -> spec_fn(Seq<Seq<char>>) -> bool {
    |p: Seq<Seq<char>>| p.len() == 5
}

/// The field lists of the log lines that describe a commit: those with
/// exactly five fields.
pub open spec fn commit_records(text: Seq<char>) -> Seq<Seq<Seq<char>>> {
    log_fields(text).filter(five_fields())
}

/// `c` holds the five fields of `p`, in order.
pub open spec fn commit_from(c: GitCommit, p: Seq<Seq<char>>) -> bool {
    &&& c.hash@ == p[0]
    &&& c.short_hash@ == p[1]
    &&& c.author@ == p[2]
    &&& c.date@ == p[3]
    &&& c.message@ == p[4]
}

/// The fields of a line of `git branch -a -v` output: whether it is the
/// current branch, whether it is a remote one, and its words once the
/// leading `*` marks are dropped.
pub open spec fn branch_words(line: Seq<char>) -> Seq<Seq<char>> {
    words_of(line.subrange(leading_count(line, '*') as int, line.len() as int))
}

/// `b` describes the branch line `line`.
pub open spec fn branch_from(b: GitBranch, line: Seq<char>) -> bool {
    let w = branch_words(line);
    &&& b.is_current == (line.len() > 0 && line[0] == '*')
    &&& b.is_remote == occurs_in("remotes/"@, line)
    &&& b.name@ == w[0]
    &&& match b.last_commit {
        Some(c) => w.len() > 1 && c@ == w[1],
        None => w.len() <= 1,
    }
}

pub open spec fn has_words() -> spec_fn(Seq<char>) -> bool {
    |l: Seq<char>| branch_words(l).len() > 0
}

/// The lines of a branch listing that name a branch.
pub open spec fn branch_lines(text: Seq<char>) -> Seq<Seq<char>> {
    lines_of(text).filter(has_words())
}

fn parse_branch_line(line: &str) -> (r: Option<GitBranch>)
    ensures
        match r {
            Some(b) => branch_words(line@).len() > 0 && branch_from(b, line@),
            None => branch_words(line@).len() == 0,
        },
{
    let cs = chars_of(line);
    let is_current = cs.len() > 0 && cs[0] == '*';
    proof {
        reveal_strlit("remotes/");
    }
    let is_remote = contains_text(line, "remotes/");
    let k = strip_leading(&cs, '*');
    let rest = text_of(&cs, k, cs.len());
    let parts = words(rest.as_str());
    if parts.len() == 0 {
        return None;
    }
    let last_commit = if parts.len() > 1 {
        Some(parts[1].clone())
    } else {
        None
    };
    Some(GitBranch { name: parts[0].clone(), is_current, is_remote, last_commit })
}

/// The kinds of change a `git status --porcelain` entry reports.
#[derive(Clone, Copy, Debug, PartialEq, Eq, Structural)]
pub enum ChangeClass {
    Staged,
    Modified,
    Untracked,
    Conflicted,
}

/// The two-letter status codes of each kind.
pub open spec fn in_class(cls: ChangeClass, code: Seq<char>) -> bool {
    match cls {
        ChangeClass::Staged => code == "A "@ || code == "M "@ || code == "D "@,
        ChangeClass::Modified => code == " M"@ || code == " D"@,
        ChangeClass::Untracked => code == "??"@,
        ChangeClass::Conflicted => code == "UU"@ || code == "AA"@,
    }
}

fn class_of(code: &str) -> (r: Option<ChangeClass>)
    ensures
        forall|c: ChangeClass| in_class(c, code@) <==> r == Some(c),
{
    proof {
        reveal_strlit("A ");
        reveal_strlit("M ");
        reveal_strlit("D ");
        reveal_strlit(" M");
        reveal_strlit(" D");
        reveal_strlit("??");
        reveal_strlit("UU");
        reveal_strlit("AA");
        assert("A "@.len() == 2 && "A "@[0] == 'A' && "A "@[1] == ' ');
        assert("M "@.len() == 2 && "M "@[0] == 'M' && "M "@[1] == ' ');
        assert("D "@.len() == 2 && "D "@[0] == 'D' && "D "@[1] == ' ');
        assert(" M"@.len() == 2 && " M"@[0] == ' ' && " M"@[1] == 'M');
        assert(" D"@.len() == 2 && " D"@[0] == ' ' && " D"@[1] == 'D');
        assert("??"@.len() == 2 && "??"@[0] == '?' && "??"@[1] == '?');
        assert("UU"@.len() == 2 && "UU"@[0] == 'U' && "UU"@[1] == 'U');
        assert("AA"@.len() == 2 && "AA"@[0] == 'A' && "AA"@[1] == 'A');
    }
    if same_text(code, "A ") || same_text(code, "M ") || same_text(code, "D ") {
        Some(ChangeClass::Staged)
    } else if same_text(code, " M") || same_text(code, " D") {
        Some(ChangeClass::Modified)
    } else if same_text(code, "??") {
        Some(ChangeClass::Untracked)
    } else if same_text(code, "UU") || same_text(code, "AA") {
        Some(ChangeClass::Conflicted)
    } else {
        None
    }
}

/// The branch line of porcelain status output starts with `##`.
pub open spec fn is_header(l: Seq<char>) -> bool {
    starts_with(l, "##"@)
}

/// A file entry: not a branch line, and longer than two characters.
pub open spec fn is_entry(l: Seq<char>) -> bool {
    !is_header(l) && l.len() > 2
}

pub open spec fn entry_code(l: Seq<char>) -> Seq<char> {
    l.subrange(0, 2)
}

/// The path of an entry: what follows its code and a space, trimmed.
pub open spec fn entry_file(l: Seq<char>) -> Seq<char> {
    trimmed(l.subrange(3, l.len() as int))
}

/// The paths of the entries of `ls` of kind `cls`, in order.
pub open spec fn files_of(ls: Seq<Seq<char>>, cls: ChangeClass) -> Seq<Seq<char>>
    decreases ls.len(),
{
    if ls.len() == 0 {
        Seq::empty()
    } else if is_entry(ls.last()) && in_class(cls, entry_code(ls.last())) {
        files_of(ls.drop_last(), cls).push(entry_file(ls.last()))
    } else {
        files_of(ls.drop_last(), cls)
    }
}

/// The branch named by a branch line: its second word up to any `...`.
pub open spec fn header_branch(l: Seq<char>) -> Option<Seq<char>> {
    if words_of(l).len() > 1 {
        Some(before_first(words_of(l)[1], "..."@))
    } else {
        None
    }
}

/// The count that follows `label` (with `label_sp` being it and a space) on a
/// branch line, read up to the next `]`; 0 when that is not a number.
pub open spec fn header_count(l: Seq<char>, label: Seq<char>, label_sp: Seq<char>) -> Option<usize> {
    if occurs_in(label, l) && second_piece(l, label_sp) is Some {
        Some(
            match parsed_usize(before_first(second_piece(l, label_sp).unwrap(), "]"@)) {
                Some(n) => n,
                None => 0,
            },
        )
    } else {
        None
    }
}

/// The branch that the last branch line of `ls` names; `main` if none does.
pub open spec fn status_branch(ls: Seq<Seq<char>>) -> Seq<char>
    decreases ls.len(),
{
    if ls.len() == 0 {
        "main"@
    } else if is_header(ls.last()) && header_branch(ls.last()) is Some {
        header_branch(ls.last()).unwrap()
    } else {
        status_branch(ls.drop_last())
    }
}

/// The count after `label` on the last branch line of `ls` that has one; 0 if none does.
pub open spec fn status_count(ls: Seq<Seq<char>>, label: Seq<char>, label_sp: Seq<char>) -> usize
    decreases ls.len(),
{
    if ls.len() == 0 {
        0
    } else if is_header(ls.last()) && header_count(ls.last(), label, label_sp) is Some {
        header_count(ls.last(), label, label_sp).unwrap()
    } else {
        status_count(ls.drop_last(), label, label_sp)
    }
}

/// `v` holds exactly the texts of `s`.
pub open spec fn texts_are(v: Seq<String>, s: Seq<Seq<char>>) -> bool {
    &&& v.len() == s.len()
    &&& forall|i: int| 0 <= i < v.len() ==> (#[trigger] v[i])@ == s[i]
}

/// `st` is what porcelain status text `text` says.
pub open spec fn status_from(st: GitStatus, text: Seq<char>) -> bool {
    let ls = lines_of(text);
    &&& st.branch@ == status_branch(ls)
    &&& st.ahead == status_count(ls, "ahead"@, "ahead "@)
    &&& st.behind == status_count(ls, "behind"@, "behind "@)
    &&& texts_are(st.staged@, files_of(ls, ChangeClass::Staged))
    &&& texts_are(st.modified@, files_of(ls, ChangeClass::Modified))
    &&& texts_are(st.untracked@, files_of(ls, ChangeClass::Untracked))
    &&& texts_are(st.conflicted@, files_of(ls, ChangeClass::Conflicted))
}

fn header_branch_exec(line: &str) -> (r: Option<String>)
    ensures
        match r {
            Some(b) => header_branch(line@) == Some(b@),
            None => header_branch(line@) is None,
        },
{
    let w = words(line);
    if w.len() > 1 {
        let cs = chars_of(w[1].as_str());
        let dots = chars_of("...");
        let b = piece_before(&cs, 0, &dots);
        proof {
            assert(cs@.subrange(0, cs@.len() as int) =~= cs@);
        }
        Some(b)
    } else {
        None
    }
}

fn header_count_exec(line: &str, label: &str, label_sp: &str) -> (r: Option<usize>)
    ensures
        r == header_count(line@, label@, label_sp@),
{
    if !contains_text(line, label) {
        return None;
    }
    let cs = chars_of(line);
    let n = cs.len();
    let p = chars_of(label_sp);
    proof {
        assert(cs@.subrange(0, cs@.len() as int) =~= cs@);
        crate::text::lemma_first_occurrence_pub(cs@, p@);
    }
    match crate::text::find_from(&cs, 0, &p) {
        Some(i) => {
            proof {
                assert(first_occurrence(cs@, p@) == i);
                assert(i + p@.len() <= n);
            }
            let piece = piece_before(&cs, i + p.len(), &p);
            let pcs = chars_of(piece.as_str());
            let close = chars_of("]");
            let num = piece_before(&pcs, 0, &close);
            proof {
                assert(pcs@.subrange(0, pcs@.len() as int) =~= pcs@);
            }
            match parse_usize(num.as_str()) {
                Some(n) => Some(n),
                None => Some(0),
            }
        },
        None => None,
    }
}

pub struct GitManager {
    repo_path: String,
}

impl GitManager {
    pub closed spec fn repo(&self) -> Seq<char> {
        self.repo_path@
    }

    pub fn new(repo_path: String) -> (r: Self)
        ensures
            r.repo() == repo_path@,
    {
        GitManager { repo_path }
    }

    pub fn repo_path(&self) -> (r: &String)
        ensures
            r@ == self.repo(),
    {
        &self.repo_path
    }

    /// Reads `git status --porcelain -b` output: the branch (and how far
    /// ahead of or behind its upstream it is) from the `##` line, and the
    /// files of each kind of change.
    pub fn parse_status(&self, status_text: &str) -> (r: Result<GitStatus, String>)
        ensures
            match r {
                Ok(st) => status_from(st, status_text@),
                Err(_) => false,
            },
    {
        let ls = lines(status_text);
        let ghost all = lines_of(status_text@);
        let mut branch = "main".to_owned();
        let mut ahead: usize = 0;
        let mut behind: usize = 0;
        let mut staged: Vec<String> = Vec::new();
        let mut modified: Vec<String> = Vec::new();
        let mut untracked: Vec<String> = Vec::new();
        let mut conflicted: Vec<String> = Vec::new();
        let mut i: usize = 0;
        proof {
            reveal_strlit("main");
            reveal_strlit("##");
            assert("##"@.len() == 2 && "##"@[0] == '#' && "##"@[1] == '#');
        }
        while i < ls.len()
            invariant
                i <= ls@.len(),
                all == lines_of(status_text@),
                ls@.len() == all.len(),
                forall|j: int| 0 <= j < ls@.len() ==> (#[trigger] ls@[j])@ == all[j],
                "##"@.len() == 2 && "##"@[0] == '#' && "##"@[1] == '#',
                "main"@ == "main"@,
                branch@ == status_branch(all.subrange(0, i as int)),
                ahead == status_count(all.subrange(0, i as int), "ahead"@, "ahead "@),
                behind == status_count(all.subrange(0, i as int), "behind"@, "behind "@),
                texts_are(staged@, files_of(all.subrange(0, i as int), ChangeClass::Staged)),
                texts_are(modified@, files_of(all.subrange(0, i as int), ChangeClass::Modified)),
                texts_are(untracked@, files_of(all.subrange(0, i as int), ChangeClass::Untracked)),
                texts_are(conflicted@, files_of(all.subrange(0, i as int), ChangeClass::Conflicted)),
            decreases ls@.len() - i,
        {
            let ghost pre = all.subrange(0, i as int);
            let ghost l = all[i as int];
            proof {
                assert(all.subrange(0, i + 1).drop_last() =~= pre);
                assert(all.subrange(0, i + 1).last() == l);
            }
            let line = ls[i].as_str();
            let cs = chars_of(line);
            let header = cs.len() >= 2 && cs[0] == '#' && cs[1] == '#';
            proof {
                if header {
                    assert(l.subrange(0, 2) =~= "##"@);
                } else if l.len() >= 2 && l.subrange(0, 2) == "##"@ {
                    assert(l[0] == l.subrange(0, 2)[0]);
                    assert(l[1] == l.subrange(0, 2)[1]);
                }
            }
            if header {
                match header_branch_exec(line) {
                    Some(b) => {
                        branch = b;
                    },
                    None => {},
                }
                match header_count_exec(line, "ahead", "ahead ") {
                    Some(n) => {
                        ahead = n;
                    },
                    None => {},
                }
                match header_count_exec(line, "behind", "behind ") {
                    Some(n) => {
                        behind = n;
                    },
                    None => {},
                }
            } else if cs.len() > 2 {
                let code = text_of(&cs, 0, 2);
                let file = trim_from(&cs, 3);
                match class_of(code.as_str()) {
                    Some(ChangeClass::Staged) => staged.push(file),
                    Some(ChangeClass::Modified) => modified.push(file),
                    Some(ChangeClass::Untracked) => untracked.push(file),
                    Some(ChangeClass::Conflicted) => conflicted.push(file),
                    None => {},
                }
            }
            i = i + 1;
        }
        proof {
            assert(all.subrange(0, i as int) =~= all);
        }
        Ok(GitStatus { branch, ahead, behind, staged, modified, untracked, conflicted })
    }

    /// The commits of `git log --pretty=format:%H|%h|%an|%ad|%s` output:
    /// one per line with exactly five `|`-separated fields.
    pub fn parse_log(&self, log_text: &str) -> (r: Result<Vec<GitCommit>, String>)
        ensures
            match r {
                Ok(v) => v@.len() == commit_records(log_text@).len() && forall|i: int|
                    0 <= i < v@.len() ==> commit_from(#[trigger] v@[i], commit_records(log_text@)[i]),
                Err(_) => false,
            },
    {
        let ls = lines(log_text);
        let ghost fields = log_fields(log_text@);
        let mut commits: Vec<GitCommit> = Vec::new();
        let mut i: usize = 0;
        while i < ls.len()
            invariant
                i <= ls@.len(),
                ls@.len() == lines_of(log_text@).len(),
                forall|j: int| 0 <= j < ls@.len() ==> (#[trigger] ls@[j])@ == lines_of(log_text@)[j],
                fields == log_fields(log_text@),
                fields.len() == ls@.len(),
                commits@.len() == fields.subrange(0, i as int).filter(five_fields()).len(),
                forall|j: int| 0 <= j < commits@.len() ==> commit_from(#[trigger] commits@[j],
                    fields.subrange(0, i as int).filter(five_fields())[j]),
            decreases ls@.len() - i,
        {
            proof {
                assert(fields.subrange(0, i + 1).drop_last() =~= fields.subrange(0, i as int));
                reveal(Seq::filter);
            }
            let cs = chars_of(ls[i].as_str());
            let parts = split_chars(&cs, Separator::Char('|'));
            proof {
                assert(fields[i as int] == split_on(ls@[i as int]@, Separator::Char('|')));
            }
            if parts.len() == 5 {
                let c = GitCommit {
                    hash: parts[0].clone(),
                    short_hash: parts[1].clone(),
                    author: parts[2].clone(),
                    date: parts[3].clone(),
                    message: parts[4].clone(),
                };
                commits.push(c);
            }
            i = i + 1;
        }
        proof {
            assert(fields.subrange(0, i as int) =~= fields);
        }
        Ok(commits)
    }

    /// The branches of `git branch -a -v` output: one per line that has
    /// words once its leading `*` marks are dropped.
    pub fn parse_branches(&self, branches_text: &str) -> (r: Result<Vec<GitBranch>, String>)
        ensures
            match r {
                Ok(v) => v@.len() == branch_lines(branches_text@).len() && forall|i: int|
                    0 <= i < v@.len() ==> branch_from(#[trigger] v@[i], branch_lines(branches_text@)[i]),
                Err(_) => false,
            },
    {
        let ls = lines(branches_text);
        let ghost all = lines_of(branches_text@);
        let mut branches: Vec<GitBranch> = Vec::new();
        let mut i: usize = 0;
        while i < ls.len()
            invariant
                i <= ls@.len(),
                all == lines_of(branches_text@),
                ls@.len() == all.len(),
                forall|j: int| 0 <= j < ls@.len() ==> (#[trigger] ls@[j])@ == all[j],
                branches@.len() == all.subrange(0, i as int).filter(has_words()).len(),
                forall|j: int| 0 <= j < branches@.len() ==> branch_from(#[trigger] branches@[j],
                    all.subrange(0, i as int).filter(has_words())[j]),
            decreases ls@.len() - i,
        {
            proof {
                assert(all.subrange(0, i + 1).drop_last() =~= all.subrange(0, i as int));
                reveal(Seq::filter);
            }
            match parse_branch_line(ls[i].as_str()) {
                Some(b) => {
                    branches.push(b);
                },
                None => {},
            }
            i = i + 1;
        }
        proof {
            assert(all.subrange(0, i as int) =~= all);
        }
        Ok(branches)
    }
}

} // verus!
