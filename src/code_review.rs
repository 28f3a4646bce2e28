//! Code review records and the static measures computed on source text.
use vstd::prelude::*;
use crate::text::chars_of;

verus! {

#[derive(Clone, Copy, Debug, PartialEq, Eq, Structural)]
pub enum ReviewStatus {
    InProgress,
    Completed,
    Approved,
    ChangesRequested,
}

#[derive(Clone, Copy, Debug, PartialEq, Eq, Structural)]
pub enum Severity {
    Critical,
    High,
    Medium,
    Low,
    Info,
}

#[derive(Clone, Copy, Debug, PartialEq, Eq, Structural)]
pub enum FindingCategory {
    Security,
    Performance,
    BugRisk,
    CodeStyle,
    BestPractice,
    Documentation,
    Testing,
    Complexity,
}

#[derive(Debug)]
pub struct ReviewFinding {
    pub id: String,
    pub file_path: String,
    pub line_number: Option<u32>,
    pub severity: Severity,
    pub category: FindingCategory,
    pub message: String,
    pub suggestion: Option<String>,
    pub resolved: bool,
}

#[derive(Debug)]
pub struct ReviewComment {
    pub id: String,
    pub review_id: String,
    pub file_path: String,
    pub line_number: u32,
    pub author: String,
    pub content: String,
    pub created_at: String,
    pub resolved: bool,
}

/// Number of non-overlapping occurrences of `pat` in `s`, found from the left.
pub open spec fn count_matches(s: Seq<char>, pat: Seq<char>) -> nat
    decreases s.len(),
{
    if pat.len() == 0 || s.len() < pat.len() {
        0
    } else if s.subrange(0, pat.len() as int) == pat {
        1 + count_matches(s.subrange(pat.len() as int, s.len() as int), pat)
    } else {
        count_matches(s.subrange(1, s.len() as int), pat)
    }
}

/// The decision-point keywords whose occurrences add to the complexity.
pub open spec fn complexity_keywords() -> Seq<Seq<char>> {
    seq!["if"@, "else"@, "for"@, "while"@, "case"@, "catch"@, "&&"@, "||"@, "?"@]
}

pub open spec fn keyword_total(s: Seq<char>, kws: Seq<Seq<char>>) -> nat
    decreases kws.len(),
{
    if kws.len() == 0 {
        0
    } else {
        keyword_total(s, kws.drop_last()) + count_matches(s, kws.last())
    }
}

/// One plus the occurrences of every decision keyword, capped at `u32::MAX`.
pub open spec fn complexity_of(s: Seq<char>) -> u32 {
    let n = 1 + keyword_total(s, complexity_keywords());
    if n > u32::MAX {
        u32::MAX
    } else {
        n as u32
    }
}

proof fn lemma_count_matches_bound(s: Seq<char>, pat: Seq<char>)
    ensures
        count_matches(s, pat) <= s.len(),
    decreases s.len(),
{
    if pat.len() > 0 && s.len() >= pat.len() {
        if s.subrange(0, pat.len() as int) == pat {
            lemma_count_matches_bound(s.subrange(pat.len() as int, s.len() as int), pat);
        } else {
            lemma_count_matches_bound(s.subrange(1, s.len() as int), pat);
        }
    }
}

fn starts_at(cs: &Vec<char>, i: usize, pat: &Vec<char>) -> (r: bool)
    requires
        i <= cs@.len(),
    ensures
        r == (i + pat@.len() <= cs@.len() && cs@.subrange(i as int, i + pat@.len()) == pat@),
{
    let n = cs.len();
    if pat.len() > n - i {
        return false;
    }
    let mut j: usize = 0;
    while j < pat.len()
        invariant
            n == cs@.len(),
            i + pat@.len() <= cs@.len(),
            j <= pat@.len(),
            forall|t: int| 0 <= t < j ==> cs@[i + t] == pat@[t],
        decreases pat@.len() - j,
    {
        if cs[i + j] != pat[j] {
            proof {
                assert(cs@.subrange(i as int, i + pat@.len())[j as int] != pat@[j as int]);
            }
            return false;
        }
        j = j + 1;
    }
    proof {
        assert(cs@.subrange(i as int, i + pat@.len()) =~= pat@);
    }
    true
}

/// Occurrences of `pat` in `cs`, as `count_matches` counts them.
fn count_in(cs: &Vec<char>, pat: &str) -> (r: usize)
    ensures
        r == count_matches(cs@, pat@),
{
    let p = chars_of(pat);
    let n = cs.len();
    let m = p.len();
    if m == 0 {
        return 0;
    }
    let mut count: usize = 0;
    let mut i: usize = 0;
    proof {
        assert(cs@.subrange(0, n as int) =~= cs@);
    }
    while i < n
        invariant
            n == cs@.len(),
            m == p@.len(),
            p@ == pat@,
            m > 0,
            i <= n,
            count + count_matches(cs@.subrange(i as int, n as int), pat@) == count_matches(cs@, pat@),
            count <= i,
        decreases n - i,
    {
        let ghost t = cs@.subrange(i as int, n as int);
        if starts_at(cs, i, &p) {
            proof {
                assert(t.subrange(0, m as int) =~= cs@.subrange(i as int, i + m));
                assert(t.subrange(m as int, t.len() as int) =~= cs@.subrange(i + m, n as int));
            }
            count = count + 1;
            i = i + m;
        } else {
            proof {
                if m <= t.len() {
                    assert(t.subrange(0, m as int) =~= cs@.subrange(i as int, i + m));
                }
                assert(t.subrange(1, t.len() as int) =~= cs@.subrange(i + 1, n as int));
            }
            i = i + 1;
        }
    }
    proof {
        assert(cs@.subrange(i as int, n as int).len() == 0);
    }
    count
}

/// The engine that reviews code; it asks a local language model at
/// `llm_endpoint` for findings.
pub struct CodeReviewEngine {
    llm_endpoint: String,
    llm_model: String,
}

impl CodeReviewEngine {
    pub fn new() -> (r: Self)
        ensures
            r.endpoint() == "http://localhost:11434"@,
    {
        CodeReviewEngine { llm_endpoint: "http://localhost:11434".to_owned(), llm_model: "deepseek-coder-v2:16b".to_owned() }
    }

    pub closed spec fn endpoint(&self) -> Seq<char> {
        self.llm_endpoint@
    }

    pub fn llm_endpoint(&self) -> &String {
        &self.llm_endpoint
    }

    pub fn llm_model(&self) -> &String {
        &self.llm_model
    }

    /// Cyclomatic-style complexity: one plus the occurrences of the decision
    /// keywords `if`, `else`, `for`, `while`, `case`, `catch`, `&&`, `||`, `?`.
    pub fn calculate_complexity(&self, content: &str) -> (r: u32)
        ensures
            r == complexity_of(content@),
    {
        let cs = chars_of(content);
        let len = cs.len();
        let keywords: [&str; 9] = ["if", "else", "for", "while", "case", "catch", "&&", "||", "?"];
        let ghost kws = complexity_keywords();
        proof {
            reveal_strlit("if");
            reveal_strlit("else");
            reveal_strlit("for");
            reveal_strlit("while");
            reveal_strlit("case");
            reveal_strlit("catch");
            reveal_strlit("&&");
            reveal_strlit("||");
            reveal_strlit("?");
            assert(forall|j: int| 0 <= j < 9 ==> (#[trigger] keywords@[j])@ == kws[j]);
        }
        let mut total: u128 = 1;
        let mut k: usize = 0;
        while k < 9
            invariant
                k <= 9,
                kws == complexity_keywords(),
                kws.len() == 9,
                forall|j: int| 0 <= j < 9 ==> (#[trigger] keywords@[j])@ == kws[j],
                total == 1 + keyword_total(cs@, kws.subrange(0, k as int)),
                total <= 1 + k * cs@.len(),
                cs@ == content@,
                len == cs@.len(),
            decreases 9 - k,
        {
            proof {
                assert(kws.subrange(0, k + 1).drop_last() =~= kws.subrange(0, k as int));
                lemma_count_matches_bound(cs@, kws[k as int]);
                assert((k + 1) * cs@.len() == k * cs@.len() + cs@.len()) by (nonlinear_arith);
                assert(1 + (k + 1) * cs@.len() <= 1 + 9 * usize::MAX) by (nonlinear_arith)
                    requires
                        k < 9,
                        cs@.len() <= usize::MAX,
                ;
            }
            let c = count_in(&cs, keywords[k]);
            total = total + c as u128;
            k = k + 1;
        }
        proof {
            assert(kws.subrange(0, 9) =~= kws);
        }
        if total > u32::MAX as u128 {
            u32::MAX
        } else {
            total as u32
        }
    }
}

} // verus!
