//! Code snippets: reusable pieces of code with a trigger prefix and tags.
//!
//! The manager works on the loaded collection; reading and writing the
//! collection file is left to the caller.
use vstd::prelude::*;
use crate::keyed::{Keyed, find_first_key, first_index_of, remove_key, without_key};
use crate::text::{contains_text, eq_ignore_ascii_case, eq_ignoring_ascii_case, lower_of, occurs_in, to_lower};

verus! {

#[derive(Clone, Copy, Debug, PartialEq, Eq, Structural)]
pub enum SnippetCategory {
    React,
    TypeScript,
    JavaScript,
    Python,
    Rust,
    HTML,
    CSS,
    Node,
    Testing,
    Utility,
    Custom,
}

#[derive(Debug)]
pub struct CodeSnippet {
    pub id: String,
    pub name: String,
    pub description: String,
    pub language: String,
    pub code: String,
    /// The text that triggers completion.
    pub prefix: String,
    pub tags: Vec<String>,
    pub category: SnippetCategory,
    pub created_at: String,
    pub updated_at: String,
    pub usage_count: u32,
}

/// Two snippets with the same content.
pub open spec fn same_snippet(a: CodeSnippet, b: CodeSnippet) -> bool {
    &&& a.id == b.id
    &&& a.name == b.name
    &&& a.description == b.description
    &&& a.language == b.language
    &&& a.code == b.code
    &&& a.prefix == b.prefix
    &&& a.tags@ == b.tags@
    &&& a.category == b.category
    &&& a.created_at == b.created_at
    &&& a.updated_at == b.updated_at
    &&& a.usage_count == b.usage_count
}

pub open spec fn same_snippets(a: Seq<CodeSnippet>, b: Seq<CodeSnippet>) -> bool {
    &&& a.len() == b.len()
    &&& forall|i: int| 0 <= i < a.len() ==> same_snippet(#[trigger] a[i], b[i])
}

impl Clone for CodeSnippet {
    fn clone(&self) -> (r: Self)
        ensures
            same_snippet(r, *self),
    {
        let tags = self.tags.clone();
        proof {
            assert(tags@ =~= self.tags@);
        }
        CodeSnippet {
            id: self.id.clone(),
            name: self.name.clone(),
            description: self.description.clone(),
            language: self.language.clone(),
            code: self.code.clone(),
            prefix: self.prefix.clone(),
            tags,
            category: self.category,
            created_at: self.created_at.clone(),
            updated_at: self.updated_at.clone(),
            usage_count: self.usage_count,
        }
    }
}

impl Keyed for CodeSnippet {
    open spec fn key(&self) -> Seq<char> {
        self.id@
    }

    fn key_text(&self) -> (r: &String) {
        &self.id
    }
}

/// A named group of snippets.
#[derive(Debug)]
pub struct SnippetCollection {
    pub name: String,
    pub description: String,
    pub snippets: Vec<CodeSnippet>,
}

/// A snippet matches a lower-cased query when the query occurs in its
/// lower-cased name, description, a tag or its code.
pub open spec fn snippet_matches(query_lower: Seq<char>, s: CodeSnippet) -> bool {
    occurs_in(query_lower, lower_of(s.name@)) || occurs_in(query_lower, lower_of(s.description@))
        || (exists|i: int| 0 <= i < s.tags@.len() && occurs_in(query_lower, lower_of(#[trigger] s.tags@[i]@)))
        || occurs_in(query_lower, lower_of(s.code@))
}

pub open spec fn matching(query_lower: Seq<char>) -> spec_fn(CodeSnippet) -> bool {
    |s: CodeSnippet| snippet_matches(query_lower, s)
}

pub open spec fn in_category(c: SnippetCategory) -> spec_fn(CodeSnippet) -> bool {
    |s: CodeSnippet| s.category == c
}

pub open spec fn in_language(language: Seq<char>) -> spec_fn(CodeSnippet) -> bool {
    |s: CodeSnippet| eq_ignoring_ascii_case(s.language@, language)
}

/// The usage count after one more use; it stays at its maximum.
pub open spec fn bumped(n: u32) -> u32 {
    if n == u32::MAX {
        n
    } else {
        (n + 1) as u32
    }
}

/// Relies on `chrono::Utc::now` and `DateTime::to_rfc3339`: the current time
/// as RFC 3339 text.
#[verifier::external_body]
fn now_rfc3339() -> (r: String) {
    chrono::Utc::now().to_rfc3339()
}

/// Position of the first snippet with the highest usage count.
pub open spec fn first_max_index(s: Seq<CodeSnippet>) -> int
    decreases s.len(),
{
    if s.len() <= 1 {
        0
    } else if s.last().usage_count > s[first_max_index(s.drop_last())].usage_count {
        s.len() - 1
    } else {
        first_max_index(s.drop_last())
    }
}

proof fn lemma_first_max_index(s: Seq<CodeSnippet>)
    requires
        s.len() > 0,
    ensures
        0 <= first_max_index(s) < s.len(),
    decreases s.len(),
{
    if s.len() > 1 {
        lemma_first_max_index(s.drop_last());
    }
}

/// The `k` most used snippets, most used first and, among equals, in their
/// stored order: what a stable sort by decreasing usage keeps at its front.
pub open spec fn most_used(s: Seq<CodeSnippet>, k: nat) -> Seq<CodeSnippet>
    decreases k,
{
    if k == 0 || s.len() == 0 {
        Seq::empty()
    } else {
        seq![s[first_max_index(s)]] + most_used(s.remove(first_max_index(s)), (k - 1) as nat)
    }
}

pub open spec fn picked(s: Seq<CodeSnippet>, idx: Seq<usize>) -> Seq<CodeSnippet> {
    idx.map_values(|i: usize| s[i as int])
}

pub struct SnippetManager {
    snippets: Vec<CodeSnippet>,
}

impl SnippetManager {
    pub closed spec fn snippets(&self) -> Seq<CodeSnippet> {
        self.snippets@
    }

    /// A manager over a loaded collection.
    pub fn new(snippets: Vec<CodeSnippet>) -> (r: Self)
        ensures
            r.snippets() == snippets@,
    {
        SnippetManager { snippets }
    }

    /// The collection as it is to be persisted.
    pub fn into_snippets(self) -> (r: Vec<CodeSnippet>)
        ensures
            r@ == self.snippets(),
    {
        self.snippets
    }

    /// Stores `snippet`: any snippet of its id is dropped and it is appended.
    pub fn save_snippet(&mut self, snippet: CodeSnippet)
        ensures
            final(self).snippets() == without_key(old(self).snippets(), snippet.id@).push(snippet),
    {
        let k = snippet.id.clone();
        remove_key(&mut self.snippets, &k);
        self.snippets.push(snippet);
    }

    /// Drops every snippet keyed `snippet_id`.
    pub fn delete_snippet(&mut self, snippet_id: &str)
        ensures
            final(self).snippets() == without_key(old(self).snippets(), snippet_id@),
    {
        let k = snippet_id.to_owned();
        remove_key(&mut self.snippets, &k);
    }

    /// The first snippet keyed `snippet_id`.
    pub fn get_snippet(&self, snippet_id: &str) -> (r: Option<CodeSnippet>)
        ensures
            ({
                let i = first_index_of(self.snippets(), snippet_id@);
                match r {
                    Some(s) => i >= 0 && same_snippet(s, self.snippets()[i]),
                    None => i < 0,
                }
            }),
    {
        let k = snippet_id.to_owned();
        match find_first_key(&self.snippets, &k) {
            Some(i) => Some(self.snippets[i].clone()),
            None => None,
        }
    }

    pub fn list_snippets(&self) -> (r: Vec<CodeSnippet>)
        ensures
            same_snippets(r@, self.snippets()),
    {
        let mut r: Vec<CodeSnippet> = Vec::new();
        let mut i: usize = 0;
        while i < self.snippets.len()
            invariant
                i <= self.snippets@.len(),
                same_snippets(r@, self.snippets@.subrange(0, i as int)),
            decreases self.snippets@.len() - i,
        {
            r.push(self.snippets[i].clone());
            i = i + 1;
        }
        proof {
            assert(self.snippets@.subrange(0, i as int) =~= self.snippets@);
        }
        r
    }

    /// The snippets whose name, description, a tag or code contains the
    /// query, ignoring case.
    pub fn search_snippets(&self, query: &str) -> (r: Vec<CodeSnippet>)
        ensures
            same_snippets(r@, self.snippets().filter(matching(lower_of(query@)))),
    {
        let q = to_lower(query);
        self.search_lowered(q.as_str())
    }

    /// The snippets matching an already lower-cased query.
    pub fn search_lowered(&self, query_lower: &str) -> (r: Vec<CodeSnippet>)
        ensures
            same_snippets(r@, self.snippets().filter(matching(query_lower@))),
    {
        let ghost s = self.snippets@;
        let mut r: Vec<CodeSnippet> = Vec::new();
        let mut i: usize = 0;
        while i < self.snippets.len()
            invariant
                i <= s.len(),
                s == self.snippets@,
                same_snippets(r@, s.subrange(0, i as int).filter(matching(query_lower@))),
            decreases s.len() - i,
        {
            proof {
                assert(s.subrange(0, i + 1).drop_last() =~= s.subrange(0, i as int));
                reveal(Seq::filter);
            }
            if matches_lowered(&self.snippets[i], query_lower) {
                r.push(self.snippets[i].clone());
            }
            i = i + 1;
        }
        proof {
            assert(s.subrange(0, i as int) =~= s);
        }
        r
    }

    pub fn filter_by_category(&self, category: &SnippetCategory) -> (r: Vec<CodeSnippet>)
        ensures
            same_snippets(r@, self.snippets().filter(in_category(*category))),
    {
        let ghost s = self.snippets@;
        let mut r: Vec<CodeSnippet> = Vec::new();
        let mut i: usize = 0;
        while i < self.snippets.len()
            invariant
                i <= s.len(),
                s == self.snippets@,
                same_snippets(r@, s.subrange(0, i as int).filter(in_category(*category))),
            decreases s.len() - i,
        {
            proof {
                assert(s.subrange(0, i + 1).drop_last() =~= s.subrange(0, i as int));
                reveal(Seq::filter);
            }
            if self.snippets[i].category == *category {
                r.push(self.snippets[i].clone());
            }
            i = i + 1;
        }
        proof {
            assert(s.subrange(0, i as int) =~= s);
        }
        r
    }

    /// The snippets of `language`, compared without regard to ASCII case.
    pub fn filter_by_language(&self, language: &str) -> (r: Vec<CodeSnippet>)
        ensures
            same_snippets(r@, self.snippets().filter(in_language(language@))),
    {
        let ghost s = self.snippets@;
        let mut r: Vec<CodeSnippet> = Vec::new();
        let mut i: usize = 0;
        while i < self.snippets.len()
            invariant
                i <= s.len(),
                s == self.snippets@,
                same_snippets(r@, s.subrange(0, i as int).filter(in_language(language@))),
            decreases s.len() - i,
        {
            proof {
                assert(s.subrange(0, i + 1).drop_last() =~= s.subrange(0, i as int));
                reveal(Seq::filter);
            }
            if eq_ignore_ascii_case(self.snippets[i].language.as_str(), language) {
                r.push(self.snippets[i].clone());
            }
            i = i + 1;
        }
        proof {
            assert(s.subrange(0, i as int) =~= s);
        }
        r
    }

    /// The `limit` most used snippets (see `most_used`).
    pub fn get_most_used(&self, limit: usize) -> (r: Vec<CodeSnippet>)
        ensures
            same_snippets(r@, most_used(self.snippets(), limit as nat)),
    {
        let ghost s = self.snippets@;
        let n = self.snippets.len();
        let mut rest: Vec<usize> = Vec::new();
        let mut i: usize = 0;
        while i < n
            invariant
                n == s.len(),
                i <= n,
                rest@.len() == i,
                forall|j: int| 0 <= j < i ==> rest@[j] == j,
            decreases n - i,
        {
            rest.push(i);
            i = i + 1;
        }
        proof {
            assert(picked(s, rest@) =~= s);
        }
        let ghost mut taken: Seq<CodeSnippet> = Seq::empty();
        let mut r: Vec<CodeSnippet> = Vec::new();
        let mut left = limit;
        while left > 0 && rest.len() > 0
            invariant
                s == self.snippets@,
                n == s.len(),
                forall|j: int| 0 <= j < rest@.len() ==> (#[trigger] rest@[j]) < n,
                most_used(s, limit as nat) == taken + most_used(picked(s, rest@), left as nat),
                same_snippets(r@, taken),
            decreases left,
        {
            let ghost view = picked(s, rest@);
            let mut best: usize = 0;
            let mut j: usize = 1;
            proof {
                assert(view.subrange(0, 1).len() == 1);
            }
            while j < rest.len()
                invariant
                    s == self.snippets@,
                    n == s.len(),
                    view == picked(s, rest@),
                    forall|t: int| 0 <= t < rest@.len() ==> (#[trigger] rest@[t]) < n,
                    1 <= j <= rest@.len(),
                    best < j,
                    best as int == first_max_index(view.subrange(0, j as int)),
                decreases rest@.len() - j,
            {
                proof {
                    assert(view.subrange(0, j + 1).drop_last() =~= view.subrange(0, j as int));
                    lemma_first_max_index(view.subrange(0, j as int));
                }
                if self.snippets[rest[j]].usage_count > self.snippets[rest[best]].usage_count {
                    best = j;
                }
                j = j + 1;
            }
            proof {
                assert(view.subrange(0, j as int) =~= view);
            }
            let chosen = rest.remove(best);
            r.push(self.snippets[chosen].clone());
            proof {
                assert(picked(s, rest@) =~= view.remove(best as int));
                assert(most_used(view, left as nat) == seq![view[best as int]] + most_used(view.remove(best as int), (left - 1) as nat));
                assert(taken + (seq![view[best as int]] + most_used(view.remove(best as int), (left - 1) as nat))
                    =~= taken.push(view[best as int]) + most_used(view.remove(best as int), (left - 1) as nat));
                taken = taken.push(view[best as int]);
            }
            left = left - 1;
        }
        proof {
            assert(most_used(picked(s, rest@), left as nat) =~= Seq::<CodeSnippet>::empty());
            assert(taken + Seq::<CodeSnippet>::empty() =~= taken);
        }
        r
    }

    /// Counts one more use of the first snippet keyed `snippet_id`, stamped
    /// `updated_at`; it is saved again, so it moves to the end.
    pub fn record_usage(&mut self, snippet_id: &str, updated_at: String)
        ensures
            ({
                let s = old(self).snippets();
                let i = first_index_of(s, snippet_id@);
                if i >= 0 {
                    let t = final(self).snippets().last();
                    &&& final(self).snippets().drop_last() == without_key(s, s[i].id@)
                    &&& t.id == s[i].id
                    &&& t.name == s[i].name
                    &&& t.code == s[i].code
                    &&& t.tags@ == s[i].tags@
                    &&& t.usage_count == bumped(s[i].usage_count)
                    &&& t.updated_at == updated_at
                } else {
                    final(self).snippets() == s
                }
            }),
    {
        match self.get_snippet(snippet_id) {
            Some(mut s) => {
                s.usage_count = if s.usage_count == u32::MAX {
                    s.usage_count
                } else {
                    s.usage_count + 1
                };
                s.updated_at = updated_at;
                self.save_snippet(s);
            },
            None => {},
        }
    }

    /// Counts one more use of the snippet, stamped with the current time.
    pub fn increment_usage(&mut self, snippet_id: &str)
        ensures
            ({
                let s = old(self).snippets();
                let i = first_index_of(s, snippet_id@);
                if i >= 0 {
                    let t = final(self).snippets().last();
                    &&& final(self).snippets().drop_last() == without_key(s, s[i].id@)
                    &&& t.id == s[i].id
                    &&& t.usage_count == bumped(s[i].usage_count)
                } else {
                    final(self).snippets() == s
                }
            }),
    {
        let now = now_rfc3339();
        self.record_usage(snippet_id, now);
    }
}

fn matches_lowered(s: &CodeSnippet, query_lower: &str) -> (r: bool)
    ensures
        r == snippet_matches(query_lower@, *s),
{
    let name = to_lower(s.name.as_str());
    if contains_text(name.as_str(), query_lower) {
        return true;
    }
    let description = to_lower(s.description.as_str());
    if contains_text(description.as_str(), query_lower) {
        return true;
    }
    let mut i: usize = 0;
    while i < s.tags.len()
        invariant
            i <= s.tags@.len(),
            forall|j: int| 0 <= j < i ==> !occurs_in(query_lower@, lower_of(#[trigger] s.tags@[j]@)),
        decreases s.tags@.len() - i,
    {
        let tag = to_lower(s.tags[i].as_str());
        if contains_text(tag.as_str(), query_lower) {
            return true;
        }
        i = i + 1;
    }
    let code = to_lower(s.code.as_str());
    contains_text(code.as_str(), query_lower)
}

} // verus!
