//! The catalogue of project templates offered to the user.
use vstd::prelude::*;
use crate::keyed::{push_new, Keyed, entry_for, keys_unique, lemma_upsert, lookup, upsert, upsert_into};
use crate::text::{contains_text, lower_of, occurs_in, to_lower};

verus! {

#[derive(Clone, Copy, Debug, PartialEq, Eq, Structural)]
pub enum TemplateCategory {
    Web,
    Mobile,
    Desktop,
    CLI,
    API,
    FullStack,
    DataScience,
    GameDev,
    Blockchain,
}

#[derive(Clone, Copy, Debug, PartialEq, Eq, Structural)]
pub enum Difficulty {
    Beginner,
    Intermediate,
    Advanced,
}

#[derive(Debug)]
pub struct ProjectTemplate {
    pub id: String,
    pub name: String,
    pub description: String,
    pub category: TemplateCategory,
    pub tech_stack: Vec<String>,
    pub features: Vec<String>,
    pub difficulty: Difficulty,
    pub estimated_files: usize,
    pub thumbnail: Option<String>,
    /// The prompt pre-filled when the template is chosen.
    pub prompt: String,
}

impl Keyed for ProjectTemplate {
    open spec fn key(&self) -> Seq<char> {
        self.id@
    }

    fn key_text(&self) -> (r: &String) {
        &self.id
    }
}

/// A template matches a lower-cased query when the query occurs in its
/// lower-cased name, description or one of its technologies.
pub open spec fn template_matches(query_lower: Seq<char>, t: ProjectTemplate) -> bool {
    occurs_in(query_lower, lower_of(t.name@)) || occurs_in(query_lower, lower_of(t.description@))
        || exists|i: int| 0 <= i < t.tech_stack@.len() && occurs_in(query_lower, lower_of(#[trigger] t.tech_stack@[i]@))
}

pub open spec fn matching(query_lower: Seq<char>) -> spec_fn(ProjectTemplate) -> bool {
    |t: ProjectTemplate| template_matches(query_lower, t)
}

pub open spec fn in_category(c: TemplateCategory) -> spec_fn(ProjectTemplate) -> bool {
    |t: ProjectTemplate| t.category == c
}

pub open spec fn at_difficulty(d: Difficulty) -> spec_fn(ProjectTemplate) -> bool {
    |t: ProjectTemplate| t.difficulty == d
}

/// `r` refers to exactly the templates of `s`, in order.
pub open spec fn refers_to(r: Seq<&ProjectTemplate>, s: Seq<ProjectTemplate>) -> bool {
    &&& r.len() == s.len()
    &&& forall|i: int| 0 <= i < r.len() ==> *(#[trigger] r[i]) == s[i]
}

/// The ids of the built-in templates, in the order they are stored.
pub open spec fn default_template_ids() -> Seq<Seq<char>> {
    seq!["react-todo-app"@, "react-dashboard"@, "ecommerce-store"@, "rest-api-basic"@, "graphql-api"@, "cli-tool-basic"@, "react-native-app"@, "flask-api"@, "data-analysis-notebook"@, "electron-app"@, "next-js-blog"@, "vue-admin-panel"@]
}

/// The categories of the built-in templates, in the same order.
pub open spec fn default_template_categories() -> Seq<TemplateCategory> {
    seq![TemplateCategory::Web, TemplateCategory::Web, TemplateCategory::FullStack, TemplateCategory::API, TemplateCategory::API, TemplateCategory::CLI, TemplateCategory::Mobile, TemplateCategory::API, TemplateCategory::DataScience, TemplateCategory::Desktop, TemplateCategory::Web, TemplateCategory::Web]
}

/// The difficulties of the built-in templates, in the same order.
pub open spec fn default_template_difficulties() -> Seq<Difficulty> {
    seq![Difficulty::Beginner, Difficulty::Intermediate, Difficulty::Advanced, Difficulty::Beginner, Difficulty::Intermediate, Difficulty::Beginner, Difficulty::Intermediate, Difficulty::Beginner, Difficulty::Intermediate, Difficulty::Advanced, Difficulty::Intermediate, Difficulty::Intermediate]
}

/// The built-in templates: their ids, categories and difficulties, in order.
pub open spec fn is_default_catalogue(s: Seq<ProjectTemplate>) -> bool {
    &&& s.len() == default_template_ids().len()
    &&& forall|i: int| 0 <= i < s.len() ==> (#[trigger] s[i]).id@ == default_template_ids()[i]
        && s[i].category == default_template_categories()[i] && s[i].difficulty == default_template_difficulties()[i]
}

fn texts(items: &[&str]) -> (r: Vec<String>)
    ensures
        r@.len() == items@.len(),
{
    let mut v: Vec<String> = Vec::new();
    let mut i: usize = 0;
    while i < items.len()
        invariant
            i <= items@.len(),
            v@.len() == i,
        decreases items@.len() - i,
    {
        v.push(items[i].to_owned());
        i = i + 1;
    }
    v
}

fn project_template(id: &str, name: &str, description: &str, category: TemplateCategory, tech_stack: &[&str],
    features: &[&str], difficulty: Difficulty, estimated_files: usize, prompt: &str) -> (r: ProjectTemplate)
    ensures
        r.id@ == id@,
        r.category == category,
        r.difficulty == difficulty,
{
    ProjectTemplate {
        id: id.to_owned(),
        name: name.to_owned(),
        description: description.to_owned(),
        category,
        tech_stack: texts(tech_stack),
        features: texts(features),
        difficulty,
        estimated_files,
        thumbnail: None,
        prompt: prompt.to_owned(),
    }
}

pub struct TemplateLibrary {
    templates: Vec<ProjectTemplate>,
}

impl TemplateLibrary {
    pub closed spec fn templates(&self) -> Seq<ProjectTemplate> {
        self.templates@
    }

    pub open spec fn wf(&self) -> bool {
        keys_unique(self.templates())
    }

    /// A library holding the built-in templates.
    pub fn new() -> (r: Self)
        ensures
            r.wf(),
            is_default_catalogue(r.templates()),
    {
        let mut library = TemplateLibrary { templates: Vec::new() };
        library.initialize_default_templates();
        library
    }

    fn initialize_default_templates(&mut self)
        ensures
            final(self).wf(),
            is_default_catalogue(final(self).templates()),
    {
        let mut v: Vec<ProjectTemplate> = Vec::new();
        let ghost mut ks: Set<Seq<char>> = Set::empty();
        proof {
            reveal_strlit("react-todo-app");
            reveal_strlit("react-dashboard");
            reveal_strlit("ecommerce-store");
            reveal_strlit("rest-api-basic");
            reveal_strlit("graphql-api");
            reveal_strlit("cli-tool-basic");
            reveal_strlit("react-native-app");
            reveal_strlit("flask-api");
            reveal_strlit("data-analysis-notebook");
            reveal_strlit("electron-app");
            reveal_strlit("next-js-blog");
            reveal_strlit("vue-admin-panel");
            assert("react-todo-app"@.len() == 14);
            assert("react-dashboard"@.len() == 15);
            assert("ecommerce-store"@.len() == 15);
            assert("rest-api-basic"@.len() == 14);
            assert("graphql-api"@.len() == 11);
            assert("cli-tool-basic"@.len() == 14);
            assert("react-native-app"@.len() == 16);
            assert("flask-api"@.len() == 9);
            assert("data-analysis-notebook"@.len() == 22);
            assert("electron-app"@.len() == 12);
            assert("next-js-blog"@.len() == 12);
            assert("vue-admin-panel"@.len() == 15);
            assert("react-todo-app"@[2] != "rest-api-basic"@[2]);
            assert("react-todo-app"@[0] != "cli-tool-basic"@[0]);
            assert("react-dashboard"@[0] != "ecommerce-store"@[0]);
            assert("react-dashboard"@[0] != "vue-admin-panel"@[0]);
            assert("ecommerce-store"@[0] != "vue-admin-panel"@[0]);
            assert("rest-api-basic"@[0] != "cli-tool-basic"@[0]);
            assert("electron-app"@[0] != "next-js-blog"@[0]);
        }
        push_new(&mut v, project_template("react-todo-app", "React Todo App", "A simple todo list application with local storage", TemplateCategory::Web, &["React", "TypeScript", "Tailwind CSS"], &["Add/remove todos", "Mark as complete", "Filter by status", "Persist with localStorage"], Difficulty::Beginner, 8, "Create a todo list app with React and TypeScript. Include add, remove, and complete functionality. Use Tailwind for styling and localStorage for persistence."), Ghost(ks));
        proof {
            ks = ks.insert("react-todo-app"@);
        }
        push_new(&mut v, project_template("react-dashboard", "React Dashboard", "Analytics dashboard with charts and data tables", TemplateCategory::Web, &["React", "TypeScript", "Chart.js", "Tailwind CSS"], &["Data visualization with charts", "Responsive data tables", "Filter and search", "Export to CSV"], Difficulty::Intermediate, 15, "Create an analytics dashboard with React and TypeScript. Include charts using Chart.js, data tables, filters, and CSV export functionality."), Ghost(ks));
        proof {
            ks = ks.insert("react-dashboard"@);
        }
        push_new(&mut v, project_template("ecommerce-store", "E-Commerce Store", "Full-featured online store with cart and checkout", TemplateCategory::FullStack, &["React", "Node.js", "Express", "MongoDB", "Stripe"], &["Product catalog", "Shopping cart", "User authentication", "Payment processing", "Order management"], Difficulty::Advanced, 35, "Create a full-stack e-commerce store with React frontend and Node.js/Express backend. Include product catalog, shopping cart, user auth, and Stripe payment integration."), Ghost(ks));
        proof {
            ks = ks.insert("ecommerce-store"@);
        }
        push_new(&mut v, project_template("rest-api-basic", "REST API (Basic)", "Simple REST API with CRUD operations", TemplateCategory::API, &["Node.js", "Express", "SQLite"], &["CRUD endpoints", "Input validation", "Error handling", "Basic authentication"], Difficulty::Beginner, 10, "Create a REST API with Node.js and Express. Include CRUD endpoints for a resource, input validation, error handling, and basic authentication."), Ghost(ks));
        proof {
            ks = ks.insert("rest-api-basic"@);
        }
        push_new(&mut v, project_template("graphql-api", "GraphQL API", "GraphQL API with Apollo Server", TemplateCategory::API, &["Node.js", "Apollo Server", "MongoDB"], &["GraphQL schema", "Queries and mutations", "Authentication with JWT", "Data loaders"], Difficulty::Intermediate, 15, "Create a GraphQL API using Apollo Server and Node.js. Include schema definition, queries, mutations, JWT authentication, and data loaders for efficiency."), Ghost(ks));
        proof {
            ks = ks.insert("graphql-api"@);
        }
        push_new(&mut v, project_template("cli-tool-basic", "CLI Tool (Basic)", "Command-line utility with argument parsing", TemplateCategory::CLI, &["Node.js", "Commander.js"], &["Command parsing", "Help documentation", "Colorized output", "Configuration file support"], Difficulty::Beginner, 6, "Create a CLI tool with Node.js using Commander.js. Include command parsing, help docs, colored output, and config file support."), Ghost(ks));
        proof {
            ks = ks.insert("cli-tool-basic"@);
        }
        push_new(&mut v, project_template("react-native-app", "React Native App", "Cross-platform mobile app", TemplateCategory::Mobile, &["React Native", "TypeScript", "React Navigation"], &["Navigation between screens", "Local data persistence", "API integration", "Push notifications"], Difficulty::Intermediate, 20, "Create a React Native mobile app with TypeScript. Include navigation, local storage, API calls, and push notification support."), Ghost(ks));
        proof {
            ks = ks.insert("react-native-app"@);
        }
        push_new(&mut v, project_template("flask-api", "Flask REST API", "Python REST API with Flask", TemplateCategory::API, &["Python", "Flask", "SQLAlchemy"], &["RESTful endpoints", "Database ORM", "Input validation", "JWT authentication"], Difficulty::Beginner, 12, "Create a REST API with Flask and Python. Include RESTful endpoints, SQLAlchemy ORM, input validation, and JWT authentication."), Ghost(ks));
        proof {
            ks = ks.insert("flask-api"@);
        }
        push_new(&mut v, project_template("data-analysis-notebook", "Data Analysis Project", "Data analysis with Pandas and visualization", TemplateCategory::DataScience, &["Python", "Pandas", "Matplotlib", "Jupyter"], &["Data loading and cleaning", "Statistical analysis", "Data visualization", "Report generation"], Difficulty::Intermediate, 8, "Create a data analysis project with Python, Pandas, and Matplotlib. Include data loading, cleaning, statistical analysis, and visualizations."), Ghost(ks));
        proof {
            ks = ks.insert("data-analysis-notebook"@);
        }
        push_new(&mut v, project_template("electron-app", "Electron Desktop App", "Cross-platform desktop application", TemplateCategory::Desktop, &["Electron", "React", "TypeScript"], &["Native menus", "File system access", "System tray integration", "Auto-updates"], Difficulty::Advanced, 25, "Create an Electron desktop app with React and TypeScript. Include native menus, file system access, system tray, and auto-update functionality."), Ghost(ks));
        proof {
            ks = ks.insert("electron-app"@);
        }
        push_new(&mut v, project_template("next-js-blog", "Next.js Blog", "Static blog with Next.js and MDX", TemplateCategory::Web, &["Next.js", "React", "MDX", "Tailwind CSS"], &["Static site generation", "MDX blog posts", "SEO optimization", "RSS feed"], Difficulty::Intermediate, 18, "Create a blog with Next.js using MDX for posts. Include SSG, SEO optimization, Tailwind styling, and RSS feed generation."), Ghost(ks));
        proof {
            ks = ks.insert("next-js-blog"@);
        }
        push_new(&mut v, project_template("vue-admin-panel", "Vue.js Admin Panel", "Admin dashboard with Vue.js", TemplateCategory::Web, &["Vue.js", "TypeScript", "Vuetify"], &["User management", "Role-based access", "Data tables", "Charts and analytics"], Difficulty::Intermediate, 22, "Create an admin panel with Vue.js and Vuetify. Include user management, role-based access control, data tables, and analytics charts."), Ghost(ks));
        proof {
            ks = ks.insert("vue-admin-panel"@);
        }
        self.templates = v;
    }

    /// Stores `template` under its id, replacing any template of that id.
    pub fn add_template(&mut self, template: ProjectTemplate)
        requires
            old(self).wf(),
        ensures
            final(self).wf(),
            final(self).templates() == upsert(old(self).templates(), template),
    {
        proof {
            lemma_upsert(self.templates@, template, template.id@);
        }
        upsert_into(&mut self.templates, template);
    }

    pub fn get_template(&self, id: &str) -> (r: Option<&ProjectTemplate>)
        ensures
            match r {
                Some(t) => entry_for(self.templates(), id@) == Some(*t),
                None => entry_for(self.templates(), id@) == None::<ProjectTemplate>,
            },
    {
        let k = id.to_owned();
        lookup(&self.templates, &k)
    }

    pub fn list_templates(&self) -> (r: Vec<&ProjectTemplate>)
        ensures
            refers_to(r@, self.templates()),
    {
        let mut r: Vec<&ProjectTemplate> = Vec::new();
        let mut i: usize = 0;
        while i < self.templates.len()
            invariant
                i <= self.templates@.len(),
                refers_to(r@, self.templates@.subrange(0, i as int)),
            decreases self.templates@.len() - i,
        {
            r.push(&self.templates[i]);
            i = i + 1;
        }
        proof {
            assert(self.templates@.subrange(0, i as int) =~= self.templates@);
        }
        r
    }

    pub fn list_by_category(&self, category: &TemplateCategory) -> (r: Vec<&ProjectTemplate>)
        ensures
            refers_to(r@, self.templates().filter(in_category(*category))),
    {
        let ghost s = self.templates@;
        let mut r: Vec<&ProjectTemplate> = Vec::new();
        let mut i: usize = 0;
        while i < self.templates.len()
            invariant
                i <= s.len(),
                s == self.templates@,
                refers_to(r@, s.subrange(0, i as int).filter(in_category(*category))),
            decreases s.len() - i,
        {
            proof {
                assert(s.subrange(0, i + 1).drop_last() =~= s.subrange(0, i as int));
                reveal(Seq::filter);
            }
            if self.templates[i].category == *category {
                r.push(&self.templates[i]);
            }
            i = i + 1;
        }
        proof {
            assert(s.subrange(0, i as int) =~= s);
        }
        r
    }

    pub fn list_by_difficulty(&self, difficulty: &Difficulty) -> (r: Vec<&ProjectTemplate>)
        ensures
            refers_to(r@, self.templates().filter(at_difficulty(*difficulty))),
    {
        let ghost s = self.templates@;
        let mut r: Vec<&ProjectTemplate> = Vec::new();
        let mut i: usize = 0;
        while i < self.templates.len()
            invariant
                i <= s.len(),
                s == self.templates@,
                refers_to(r@, s.subrange(0, i as int).filter(at_difficulty(*difficulty))),
            decreases s.len() - i,
        {
            proof {
                assert(s.subrange(0, i + 1).drop_last() =~= s.subrange(0, i as int));
                reveal(Seq::filter);
            }
            if self.templates[i].difficulty == *difficulty {
                r.push(&self.templates[i]);
            }
            i = i + 1;
        }
        proof {
            assert(s.subrange(0, i as int) =~= s);
        }
        r
    }

    /// The templates whose name, description or a technology contains the
    /// query, ignoring case.
    pub fn search(&self, query: &str) -> (r: Vec<&ProjectTemplate>)
        ensures
            refers_to(r@, self.templates().filter(matching(lower_of(query@)))),
    {
        let q = to_lower(query);
        self.search_lowered(q.as_str())
    }

    /// The templates matching an already lower-cased query.
    pub fn search_lowered(&self, query_lower: &str) -> (r: Vec<&ProjectTemplate>)
        ensures
            refers_to(r@, self.templates().filter(matching(query_lower@))),
    {
        let ghost s = self.templates@;
        let mut r: Vec<&ProjectTemplate> = Vec::new();
        let mut i: usize = 0;
        while i < self.templates.len()
            invariant
                i <= s.len(),
                s == self.templates@,
                refers_to(r@, s.subrange(0, i as int).filter(matching(query_lower@))),
            decreases s.len() - i,
        {
            proof {
                assert(s.subrange(0, i + 1).drop_last() =~= s.subrange(0, i as int));
                reveal(Seq::filter);
            }
            if matches_lowered(&self.templates[i], query_lower) {
                r.push(&self.templates[i]);
            }
            i = i + 1;
        }
        proof {
            assert(s.subrange(0, i as int) =~= s);
        }
        r
    }
}

fn matches_lowered(t: &ProjectTemplate, query_lower: &str) -> (r: bool)
    ensures
        r == template_matches(query_lower@, *t),
{
    let name = to_lower(t.name.as_str());
    if contains_text(name.as_str(), query_lower) {
        return true;
    }
    let description = to_lower(t.description.as_str());
    if contains_text(description.as_str(), query_lower) {
        return true;
    }
    let mut i: usize = 0;
    while i < t.tech_stack.len()
        invariant
            i <= t.tech_stack@.len(),
            forall|j: int| 0 <= j < i ==> !occurs_in(query_lower@, lower_of(#[trigger] t.tech_stack@[j]@)),
        decreases t.tech_stack@.len() - i,
    {
        let tech = to_lower(t.tech_stack[i].as_str());
        if contains_text(tech.as_str(), query_lower) {
            return true;
        }
        i = i + 1;
    }
    false
}

} // verus!
