//! Repository analysis: which files count, what build files and dependencies
//! they declare, and which language and framework the repository uses.
use vstd::prelude::*;
use crate::text::{
    chars_of, ends_with, find_from, has_prefix, has_sub, has_suffix, join_first_lines,
    join_lines, lemma_find_from_bounds, lines_of, same_text, split_lines, starts_with,
    string_from_chars, trim_chars, trim_of, contains,
};

verus! {

/// What the analysis found in a repository.
#[derive(Debug)]
pub struct Analysis {
    pub language: String,
    pub framework: Option<String>,
    pub has_readme: bool,
    pub readme_summary: String,
    pub file_count: u32,
    pub build_files: Vec<String>,
    pub dependencies: Vec<String>,
    pub languages_detected: Vec<String>,
}

/// What has been gathered while walking a repository.
#[derive(Debug)]
pub struct ScanState {
    pub file_count: u32,
    pub build_files: Vec<String>,
    pub dependencies: Vec<String>,
    pub languages: Vec<String>,
    pub has_readme: bool,
    pub readme_summary: String,
}

impl ScanState {
    /// Nothing gathered yet.
    pub fn new() -> (r: Self)
        ensures
            r.file_count == 0,
            r.build_files@.len() == 0,
            r.dependencies@.len() == 0,
            r.languages@.len() == 0,
            !r.has_readme,
            r.readme_summary@ == Seq::<char>::empty(),
    {
        ScanState {
            file_count: 0,
            build_files: Vec::new(),
            dependencies: Vec::new(),
            languages: Vec::new(),
            has_readme: false,
            readme_summary: String::new(),
        }
    }
}

pub struct RepoAnalyzer;

// ---------------------------------------------------------------------------
// Which entries are walked
// ---------------------------------------------------------------------------

/// Entries that the walk skips: hidden names (but `.env`, `.gitignore` and
/// `*.csproj`) and dependency, build and VCS directories.
pub open spec fn skipped_entry(name: Seq<char>) -> bool {
    (has_prefix(name, "."@) && name != ".env"@ && name != ".gitignore"@ && !has_suffix(
        name,
        ".csproj"@,
    )) || name == "node_modules"@ || name == "target"@ || name == ".git"@ || name
        == "__pycache__"@ || name == "vendor"@
}

// ---------------------------------------------------------------------------
// Per-file contributions
// ---------------------------------------------------------------------------

/// Whether the file is a README.
pub open spec fn is_readme(name: Seq<char>) -> bool {
    name == "README.md"@ || name == "README"@
}

/// The build file the name declares, if it is one.
pub open spec fn build_of(name: Seq<char>) -> Seq<Seq<char>> {
    if name == "Cargo.toml"@ || name == "package.json"@ || name == "requirements.txt"@ || name
        == "pyproject.toml"@ || name == "go.mod"@ || name == "Gemfile"@ {
        seq![name]
    } else if is_readme(name) {
        Seq::empty()
    } else if has_suffix(name, ".rs"@) || has_suffix(name, ".py"@) || has_suffix(name, ".js"@)
        || has_suffix(name, ".jsx"@) || has_suffix(name, ".ts"@) || has_suffix(name, ".tsx"@)
        || has_suffix(name, ".go"@) || has_suffix(name, ".rb"@) || has_suffix(name, ".cs"@) {
        Seq::empty()
    } else if has_suffix(name, ".csproj"@) || has_suffix(name, ".sln"@) {
        seq![name]
    } else {
        Seq::empty()
    }
}

/// The language the file name points to, if any.
pub open spec fn lang_of(name: Seq<char>) -> Seq<Seq<char>> {
    if name == "Cargo.toml"@ {
        seq!["Rust"@]
    } else if name == "package.json"@ {
        seq!["JavaScript/TypeScript"@]
    } else if name == "requirements.txt"@ || name == "pyproject.toml"@ {
        seq!["Python"@]
    } else if name == "go.mod"@ {
        seq!["Go"@]
    } else if name == "Gemfile"@ {
        seq!["Ruby"@]
    } else if is_readme(name) {
        Seq::empty()
    } else if has_suffix(name, ".rs"@) {
        seq!["Rust"@]
    } else if has_suffix(name, ".py"@) {
        seq!["Python"@]
    } else if has_suffix(name, ".js"@) || has_suffix(name, ".jsx"@) {
        seq!["JavaScript"@]
    } else if has_suffix(name, ".ts"@) || has_suffix(name, ".tsx"@) {
        seq!["TypeScript"@]
    } else if has_suffix(name, ".go"@) {
        seq!["Go"@]
    } else if has_suffix(name, ".rb"@) {
        seq!["Ruby"@]
    } else if has_suffix(name, ".cs"@) || has_suffix(name, ".csproj"@) || has_suffix(
        name,
        ".sln"@,
    ) {
        seq!["C#"@]
    } else {
        Seq::empty()
    }
}

/// The keys of the JSON object under `field` of the JSON text, in
/// `serde_json`'s map order; `None` when the text is not JSON or the field is
/// not an object.
pub uninterp spec fn json_keys_of(text: Seq<char>, field: Seq<char>) -> Option<Seq<Seq<char>>>;

/// Parses `text` with `serde_json::from_str` into a `serde_json::Value` and
/// returns the keys of the object under `field` (`Value::as_object`), named
/// `json_keys_of`.
#[verifier::external_body]
fn json_object_keys(text: &str, field: &str) -> (r: Option<Vec<String>>)
    ensures
        r.deep_view() == json_keys_of(text@, field@),
{
    serde_json::from_str::<serde_json::Value>(text).ok().and_then(
        |v| v[field].as_object().map(|m| m.keys().cloned().collect()),
    )
}

/// `=` ends a dependency name in `Cargo.toml`.
pub open spec fn is_eq_sign(c: char) -> bool {
    c == '='
}

/// Version specifiers and markers end a package name in `requirements.txt`.
pub open spec fn is_req_separator(c: char) -> bool {
    c == '=' || c == '>' || c == '<' || c == '~' || c == ';'
}

/// The dependency names of the `[dependencies]` table of `Cargo.toml` lines:
/// the key before `=` on each line of the table, trimmed, unless empty or a
/// comment; a line starting `[dependencies]` opens the table and any other
/// `[...]` line closes it.
pub open spec fn cargo_deps_from(ls: Seq<Seq<char>>, in_deps: bool) -> Seq<Seq<char>>
    decreases ls.len(),
{
    if ls.len() == 0 {
        Seq::empty()
    } else {
        let t = trim_of(ls[0]);
        let rest = ls.drop_first();
        if has_prefix(t, "[dependencies]"@) {
            cargo_deps_from(rest, true)
        } else if has_prefix(t, "["@) && has_suffix(t, "]"@) && in_deps {
            cargo_deps_from(rest, false)
        } else if in_deps && find_from(t, |c: char| is_eq_sign(c), 0) < t.len() {
            let dep = trim_of(t.take(find_from(t, |c: char| is_eq_sign(c), 0)));
            (if dep.len() > 0 && !has_prefix(dep, "#"@) {
                seq![dep]
            } else {
                Seq::empty()
            }) + cargo_deps_from(rest, in_deps)
        } else {
            cargo_deps_from(rest, in_deps)
        }
    }
}

/// The package names of `requirements.txt` lines: each non-empty,
/// non-comment line up to its first version separator, trimmed.
pub open spec fn req_deps_from(ls: Seq<Seq<char>>) -> Seq<Seq<char>>
    decreases ls.len(),
{
    if ls.len() == 0 {
        Seq::empty()
    } else {
        let t = trim_of(ls[0]);
        (if t.len() > 0 && !has_prefix(t, "#"@) {
            seq![trim_of(t.take(find_from(t, |c: char| is_req_separator(c), 0)))]
        } else {
            Seq::empty()
        }) + req_deps_from(ls.drop_first())
    }
}

/// The dependencies a file declares, given its text when it could be read.
pub open spec fn deps_of(name: Seq<char>, content: Option<Seq<char>>) -> Seq<Seq<char>> {
    match content {
        None => Seq::empty(),
        Some(c) => if name == "Cargo.toml"@ {
            cargo_deps_from(lines_of(c), false)
        } else if name == "package.json"@ {
            match json_keys_of(c, "dependencies"@) {
                Some(keys) => keys,
                None => Seq::empty(),
            }
        } else if name == "requirements.txt"@ {
            req_deps_from(lines_of(c))
        } else {
            Seq::empty()
        },
    }
}

/// The README summary: its first twenty lines.
pub open spec fn summary_of(c: Seq<char>) -> Seq<char> {
    join_lines(lines_of(c).take(if lines_of(c).len() < 20 { lines_of(c).len() as int } else { 20 }))
}

pub open spec fn opt_view(o: Option<&str>) -> Option<Seq<char>> {
    match o {
        Some(s) => Some(s@),
        None => None,
    }
}

// ---------------------------------------------------------------------------
// Language and framework
// ---------------------------------------------------------------------------

/// The repository language: build files decide first (Rust, JS/TS, Python,
/// Go, Ruby, C#), then the languages seen in source files; "unknown" if none.
pub open spec fn language_of(build: Seq<Seq<char>>, langs: Seq<Seq<char>>) -> Seq<char> {
    if build.contains("Cargo.toml"@) {
        "Rust"@
    } else if build.contains("package.json"@) {
        "JavaScript/TypeScript"@
    } else if build.contains("requirements.txt"@) || build.contains("pyproject.toml"@) {
        "Python"@
    } else if build.contains("go.mod"@) {
        "Go"@
    } else if build.contains("Gemfile"@) {
        "Ruby"@
    } else if langs.contains("C#"@) || (exists|i: int|
        0 <= i < build.len() && has_suffix(#[trigger] build[i], ".csproj"@)) {
        "C#"@
    } else if langs.contains("Rust"@) {
        "Rust"@
    } else if langs.contains("Python"@) {
        "Python"@
    } else if langs.contains("JavaScript"@) || langs.contains("TypeScript"@) {
        "JavaScript/TypeScript"@
    } else if langs.contains("Go"@) {
        "Go"@
    } else if langs.contains("Ruby"@) {
        "Ruby"@
    } else {
        "unknown"@
    }
}

/// The framework a package dependency name points to.
pub open spec fn js_framework_of_key(k: Seq<char>) -> Option<Seq<char>> {
    if k == "react"@ || k == "next"@ {
        Some("React/Next.js"@)
    } else if k == "vue"@ || k == "nuxt"@ {
        Some("Vue/Nuxt"@)
    } else if k == "express"@ || k == "fastify"@ {
        Some("Express/Fastify"@)
    } else if k == "django"@ || k == "flask"@ {
        Some("Django/Flask"@)
    } else {
        None
    }
}

/// The framework of the last key that names one.
pub open spec fn js_framework_of(keys: Seq<Seq<char>>) -> Option<Seq<char>>
    decreases keys.len(),
{
    if keys.len() == 0 {
        None
    } else {
        match js_framework_of_key(keys.last()) {
            Some(f) => Some(f),
            None => js_framework_of(keys.drop_last()),
        }
    }
}

/// The dependency keys of a root `package.json`: `dependencies`, or
/// `devDependencies` when that is not an object.
pub open spec fn package_keys_of(text: Seq<char>) -> Option<Seq<Seq<char>>> {
    match json_keys_of(text, "dependencies"@) {
        Some(k) => Some(k),
        None => json_keys_of(text, "devDependencies"@),
    }
}

/// The Python framework a root `requirements.txt` mentions.
pub open spec fn python_framework_of(text: Seq<char>) -> Option<Seq<char>> {
    if has_sub(text, "django"@) {
        Some("Django"@)
    } else if has_sub(text, "flask"@) {
        Some("Flask"@)
    } else if has_sub(text, "fastapi"@) {
        Some("FastAPI"@)
    } else {
        None
    }
}

/// The framework, read from the root `package.json` or `requirements.txt`
/// when the build files point to JS/TS or Python.
pub open spec fn framework_of(
    build: Seq<Seq<char>>,
    root_package_json: Option<Seq<char>>,
    root_requirements: Option<Seq<char>>,
) -> Option<Seq<char>> {
    if build.contains("Cargo.toml"@) {
        None
    } else if build.contains("package.json"@) {
        match root_package_json {
            Some(t) => match package_keys_of(t) {
                Some(keys) => js_framework_of(keys),
                None => None,
            },
            None => None,
        }
    } else if build.contains("requirements.txt"@) || build.contains("pyproject.toml"@) {
        match root_requirements {
            Some(t) => python_framework_of(t),
            None => None,
        }
    } else {
        None
    }
}

// ---------------------------------------------------------------------------
// Implementation
// ---------------------------------------------------------------------------

fn push_text(v: &mut Vec<String>, s: &str)
    ensures
        final(v).deep_view() == old(v).deep_view().push(s@),
{
    let ghost before = v.deep_view();
    v.push(s.to_string());
    assert(v.deep_view() =~= before.push(s@));
}

fn push_chars(v: &mut Vec<String>, c: &Vec<char>)
    ensures
        final(v).deep_view() == old(v).deep_view().push(c@),
{
    let ghost before = v.deep_view();
    v.push(string_from_chars(c));
    assert(v.deep_view() =~= before.push(c@));
}

fn append_all(v: &mut Vec<String>, more: Vec<String>)
    ensures
        final(v).deep_view() == old(v).deep_view() + more.deep_view(),
{
    let ghost before = v.deep_view();
    let ghost mv = more.deep_view();
    let mut i: usize = 0;
    while i < more.len()
        invariant
            i <= more.len(),
            mv == more.deep_view(),
            v.deep_view() == before + mv.take(i as int),
        decreases more.len() - i,
    {
        let ghost cur = v.deep_view();
        v.push(more[i].clone());
        assert(v.deep_view() =~= cur.push(mv[i as int]));
        assert(mv.take(i as int + 1) =~= mv.take(i as int).push(mv[i as int]));
        i += 1;
    }
    assert(mv.take(more.len() as int) =~= mv);
}

fn index_of_eq(t: &Vec<char>) -> (r: usize)
    ensures
        r as int == find_from(t@, |c: char| is_eq_sign(c), 0),
{
    let mut i: usize = 0;
    while i < t.len() && t[i] != '='
        invariant
            i <= t.len(),
            find_from(t@, |c: char| is_eq_sign(c), 0) == find_from(
                t@,
                |c: char| is_eq_sign(c),
                i as int,
            ),
        decreases t.len() - i,
    {
        i += 1;
    }
    i
}

fn index_of_req_separator(t: &Vec<char>) -> (r: usize)
    ensures
        r as int == find_from(t@, |c: char| is_req_separator(c), 0),
{
    let mut i: usize = 0;
    while i < t.len() && !(t[i] == '=' || t[i] == '>' || t[i] == '<' || t[i] == '~' || t[i] == ';')
        invariant
            i <= t.len(),
            find_from(t@, |c: char| is_req_separator(c), 0) == find_from(
                t@,
                |c: char| is_req_separator(c),
                i as int,
            ),
        decreases t.len() - i,
    {
        i += 1;
    }
    i
}

fn prefix_chars(t: &Vec<char>, n: usize) -> (r: Vec<char>)
    requires
        n <= t.len(),
    ensures
        r@ == t@.take(n as int),
{
    let mut out: Vec<char> = Vec::new();
    let mut i: usize = 0;
    while i < n
        invariant
            i <= n <= t.len(),
            out@ == t@.take(i as int),
        decreases n - i,
    {
        out.push(t[i]);
        i += 1;
    }
    out
}

fn chars_start_with(t: &Vec<char>, p: &str) -> (r: bool)
    ensures
        r == has_prefix(t@, p@),
{
    let pv = chars_of(p);
    crate::text::vec_matches_at(t, &pv, 0)
}

fn chars_end_with(t: &Vec<char>, p: &str) -> (r: bool)
    ensures
        r == has_suffix(t@, p@),
{
    let pv = chars_of(p);
    if pv.len() > t.len() {
        return false;
    }
    crate::text::vec_matches_at(t, &pv, t.len() - pv.len())
}

/// The dependency names of `Cargo.toml` text.
pub fn cargo_dependencies(content: &str) -> (r: Vec<String>)
    ensures
        r.deep_view() == cargo_deps_from(lines_of(content@), false),
{
    let cv = chars_of(content);
    let ls = split_lines(&cv);
    let ghost lv = ls.deep_view();
    let mut out: Vec<String> = Vec::new();
    let mut in_deps = false;
    let mut i: usize = 0;
    assert(lv.skip(0) =~= lv);
    while i < ls.len()
        invariant
            i <= ls.len(),
            lv == ls.deep_view(),
            lv == lines_of(content@),
            out.deep_view() + cargo_deps_from(lv.skip(i as int), in_deps) == cargo_deps_from(
                lv,
                false,
            ),
        decreases ls.len() - i,
    {
        let ghost rest = lv.skip(i as int);
        assert(rest[0] == lv[i as int]);
        assert(lv[i as int] == ls[i as int]@);
        assert(rest.drop_first() =~= lv.skip(i as int + 1));
        let t = trim_chars(&ls[i]);
        if chars_start_with(&t, "[dependencies]") {
            in_deps = true;
        } else if chars_start_with(&t, "[") && chars_end_with(&t, "]") && in_deps {
            in_deps = false;
        } else {
            let eq = index_of_eq(&t);
            if in_deps && eq < t.len() {
                let d0 = prefix_chars(&t, eq);
                let dep = trim_chars(&d0);
                if dep.len() > 0 && !chars_start_with(&dep, "#") {
                    let ghost before = out.deep_view();
                    push_chars(&mut out, &dep);
                    assert(before.push(dep@) + cargo_deps_from(lv.skip(i as int + 1), in_deps)
                        =~= before + (seq![dep@] + cargo_deps_from(
                        lv.skip(i as int + 1),
                        in_deps,
                    )));
                } else {
                    assert(Seq::<Seq<char>>::empty() + cargo_deps_from(
                        lv.skip(i as int + 1),
                        in_deps,
                    ) =~= cargo_deps_from(lv.skip(i as int + 1), in_deps));
                }
            }
        }
        i += 1;
    }
    assert(lv.skip(i as int) =~= Seq::<Seq<char>>::empty());
    assert(out.deep_view() + Seq::<Seq<char>>::empty() =~= out.deep_view());
    out
}

/// The package names of `requirements.txt` text.
pub fn requirement_names(content: &str) -> (r: Vec<String>)
    ensures
        r.deep_view() == req_deps_from(lines_of(content@)),
{
    let cv = chars_of(content);
    let ls = split_lines(&cv);
    let ghost lv = ls.deep_view();
    let mut out: Vec<String> = Vec::new();
    let mut i: usize = 0;
    assert(lv.skip(0) =~= lv);
    while i < ls.len()
        invariant
            i <= ls.len(),
            lv == ls.deep_view(),
            lv == lines_of(content@),
            out.deep_view() + req_deps_from(lv.skip(i as int)) == req_deps_from(lv),
        decreases ls.len() - i,
    {
        let ghost rest = lv.skip(i as int);
        assert(rest[0] == lv[i as int]);
        assert(lv[i as int] == ls[i as int]@);
        assert(rest.drop_first() =~= lv.skip(i as int + 1));
        let t = trim_chars(&ls[i]);
        if t.len() > 0 && !chars_start_with(&t, "#") {
            let cut = index_of_req_separator(&t);
            proof {
                lemma_find_from_bounds(t@, |c: char| is_req_separator(c), 0);
            }
            let head = prefix_chars(&t, cut);
            let name = trim_chars(&head);
            let ghost before = out.deep_view();
            push_chars(&mut out, &name);
            assert(before.push(name@) + req_deps_from(lv.skip(i as int + 1)) =~= before + (seq![
                name@,
            ] + req_deps_from(lv.skip(i as int + 1))));
        } else {
            assert(Seq::<Seq<char>>::empty() + req_deps_from(lv.skip(i as int + 1)) =~= req_deps_from(
                lv.skip(i as int + 1),
            ));
        }
        i += 1;
    }
    assert(lv.skip(i as int) =~= Seq::<Seq<char>>::empty());
    assert(out.deep_view() + Seq::<Seq<char>>::empty() =~= out.deep_view());
    out
}

fn contains_text(v: &Vec<String>, s: &str) -> (r: bool)
    ensures
        r == v.deep_view().contains(s@),
{
    let ghost dv = v.deep_view();
    let mut i: usize = 0;
    while i < v.len()
        invariant
            i <= v.len(),
            dv == v.deep_view(),
            forall|k: int| 0 <= k < i ==> dv[k] != s@,
        decreases v.len() - i,
    {
        assert(dv[i as int] == v[i as int]@);
        if same_text(v[i].as_str(), s) {
            assert(dv[i as int] == s@);
            return true;
        }
        i += 1;
    }
    false
}

fn any_ends_with(v: &Vec<String>, suffix: &str) -> (r: bool)
    ensures
        r == exists|i: int| 0 <= i < v.deep_view().len() && has_suffix(
            #[trigger] v.deep_view()[i],
            suffix@,
        ),
{
    let ghost dv = v.deep_view();
    let mut i: usize = 0;
    while i < v.len()
        invariant
            i <= v.len(),
            dv == v.deep_view(),
            forall|k: int| 0 <= k < i ==> !has_suffix(#[trigger] dv[k], suffix@),
        decreases v.len() - i,
    {
        assert(dv[i as int] == v[i as int]@);
        if ends_with(v[i].as_str(), suffix) {
            return true;
        }
        i += 1;
    }
    false
}

/// The framework of the last key that names one.
pub fn js_framework(keys: &Vec<String>) -> (r: Option<String>)
    ensures
        opt_string_view(r) == js_framework_of(keys.deep_view()),
{
    let ghost kv = keys.deep_view();
    let mut found: Option<String> = None;
    let mut i: usize = 0;
    while i < keys.len()
        invariant
            i <= keys.len(),
            kv == keys.deep_view(),
            opt_string_view(found) == js_framework_of(kv.take(i as int)),
        decreases keys.len() - i,
    {
        assert(kv.take(i as int + 1).drop_last() =~= kv.take(i as int));
        assert(kv[i as int] == keys[i as int]@);
        let k = keys[i].as_str();
        if same_text(k, "react") || same_text(k, "next") {
            found = Some("React/Next.js".to_string());
        } else if same_text(k, "vue") || same_text(k, "nuxt") {
            found = Some("Vue/Nuxt".to_string());
        } else if same_text(k, "express") || same_text(k, "fastify") {
            found = Some("Express/Fastify".to_string());
        } else if same_text(k, "django") || same_text(k, "flask") {
            found = Some("Django/Flask".to_string());
        }
        i += 1;
    }
    assert(kv.take(keys.len() as int) =~= kv);
    found
}

pub open spec fn opt_string_view(o: Option<String>) -> Option<Seq<char>> {
    match o {
        Some(s) => Some(s@),
        None => None,
    }
}

impl RepoAnalyzer {
    pub fn new() -> (r: Self) {
        RepoAnalyzer
    }

    /// Whether the walk skips the entry `name`.
    pub fn is_skipped(&self, name: &str) -> (r: bool)
        ensures
            r == skipped_entry(name@),
    {
        (starts_with(name, ".") && !same_text(name, ".env") && !same_text(name, ".gitignore")
            && !ends_with(name, ".csproj")) || same_text(name, "node_modules") || same_text(
            name,
            "target",
        ) || same_text(name, ".git") || same_text(name, "__pycache__") || same_text(name, "vendor")
    }

    /// Records one file: it is counted, and its name and (when readable) text
    /// add build files, dependencies, languages and the README summary.
    pub fn scan_file(&self, state: &mut ScanState, name: &str, content: Option<&str>)
        requires
            old(state).file_count < u32::MAX,
        ensures
            final(state).file_count == old(state).file_count + 1,
            final(state).build_files.deep_view() == old(state).build_files.deep_view() + build_of(
                name@,
            ),
            final(state).languages.deep_view() == old(state).languages.deep_view() + lang_of(
                name@,
            ),
            final(state).dependencies.deep_view() == old(state).dependencies.deep_view()
                + deps_of(name@, opt_view(content)),
            final(state).has_readme == (old(state).has_readme || is_readme(name@)),
            final(state).readme_summary@ == match opt_view(content) {
                Some(c) => if is_readme(name@) {
                    summary_of(c)
                } else {
                    old(state).readme_summary@
                },
                None => old(state).readme_summary@,
            },
    {
        proof {
            reveal_strlit("Cargo.toml");
            reveal_strlit("package.json");
            reveal_strlit("requirements.txt");
            reveal_strlit("README.md");
            reveal_strlit("README");
        }
        state.file_count = state.file_count + 1;
        let ghost b0 = state.build_files.deep_view();
        let ghost l0 = state.languages.deep_view();
        let ghost d0 = state.dependencies.deep_view();
        if same_text(name, "Cargo.toml") {
            push_text(&mut state.build_files, name);
            if let Some(c) = content {
                append_all(&mut state.dependencies, cargo_dependencies(c));
            } else {
                assert(d0 + Seq::<Seq<char>>::empty() =~= d0);
            }
            push_text(&mut state.languages, "Rust");
            assert("Cargo.toml"@.len() == 10 && "README.md"@.len() == 9 && "README"@.len() == 6);
            assert(!is_readme(name@));
        } else if same_text(name, "package.json") {
            push_text(&mut state.build_files, name);
            let keys = match content {
                Some(c) => json_object_keys(c, "dependencies"),
                None => None,
            };
            match keys {
                Some(k) => append_all(&mut state.dependencies, k),
                None => {
                    assert(d0 + Seq::<Seq<char>>::empty() =~= d0);
                },
            }
            push_text(&mut state.languages, "JavaScript/TypeScript");
            assert("package.json"@.len() == 12 && "README.md"@.len() == 9 && "README"@.len() == 6);
            assert(!is_readme(name@));
        } else if same_text(name, "requirements.txt") {
            push_text(&mut state.build_files, name);
            if let Some(c) = content {
                append_all(&mut state.dependencies, requirement_names(c));
            } else {
                assert(d0 + Seq::<Seq<char>>::empty() =~= d0);
            }
            push_text(&mut state.languages, "Python");
            assert("requirements.txt"@.len() == 16 && "README.md"@.len() == 9 && "README"@.len()
                == 6);
            assert(!is_readme(name@));
        } else {
            assert(d0 + deps_of(name@, opt_view(content)) =~= d0);
            if same_text(name, "pyproject.toml") {
                push_text(&mut state.build_files, name);
                push_text(&mut state.languages, "Python");
                proof {
                    reveal_strlit("pyproject.toml");
                }
                assert("pyproject.toml"@.len() == 14 && "README.md"@.len() == 9 && "README"@.len()
                    == 6);
                assert(!is_readme(name@));
            } else if same_text(name, "go.mod") {
                push_text(&mut state.build_files, name);
                push_text(&mut state.languages, "Go");
                proof {
                    reveal_strlit("go.mod");
                }
                assert("go.mod"@[0] == 'g' && "README"@[0] == 'R' && "README.md"@.len() == 9);
                assert(!is_readme(name@));
            } else if same_text(name, "Gemfile") {
                push_text(&mut state.build_files, name);
                push_text(&mut state.languages, "Ruby");
                proof {
                    reveal_strlit("Gemfile");
                }
                assert("Gemfile"@.len() == 7 && "README.md"@.len() == 9 && "README"@.len() == 6);
                assert(!is_readme(name@));
            } else if same_text(name, "README.md") || same_text(name, "README") {
                state.has_readme = true;
                if let Some(c) = content {
                    let cv = chars_of(c);
                    let ls = split_lines(&cv);
                    let joined = join_first_lines(&ls, 20);
                    state.readme_summary = string_from_chars(&joined);
                }
                assert(b0 + Seq::<Seq<char>>::empty() =~= b0);
                assert(l0 + Seq::<Seq<char>>::empty() =~= l0);
            } else {
                let lang: Option<&str> = if ends_with(name, ".rs") {
                    Some("Rust")
                } else if ends_with(name, ".py") {
                    Some("Python")
                } else if ends_with(name, ".js") || ends_with(name, ".jsx") {
                    Some("JavaScript")
                } else if ends_with(name, ".ts") || ends_with(name, ".tsx") {
                    Some("TypeScript")
                } else if ends_with(name, ".go") {
                    Some("Go")
                } else if ends_with(name, ".rb") {
                    Some("Ruby")
                } else if ends_with(name, ".cs") {
                    Some("C#")
                } else if ends_with(name, ".csproj") || ends_with(name, ".sln") {
                    push_text(&mut state.build_files, name);
                    Some("C#")
                } else {
                    None
                };
                match lang {
                    Some(l) => push_text(&mut state.languages, l),
                    None => {
                        assert(l0 + Seq::<Seq<char>>::empty() =~= l0);
                    },
                }
                assert(b0 + Seq::<Seq<char>>::empty() =~= b0);
            }
        }
    }

    /// The repository language from the build files and languages seen.
    pub fn detect_language(&self, build_files: &Vec<String>, languages: &Vec<String>) -> (r:
        String)
        ensures
            r@ == language_of(build_files.deep_view(), languages.deep_view()),
    {
        if contains_text(build_files, "Cargo.toml") {
            "Rust".to_string()
        } else if contains_text(build_files, "package.json") {
            "JavaScript/TypeScript".to_string()
        } else if contains_text(build_files, "requirements.txt") || contains_text(
            build_files,
            "pyproject.toml",
        ) {
            "Python".to_string()
        } else if contains_text(build_files, "go.mod") {
            "Go".to_string()
        } else if contains_text(build_files, "Gemfile") {
            "Ruby".to_string()
        } else if contains_text(languages, "C#") || any_ends_with(build_files, ".csproj") {
            "C#".to_string()
        } else if contains_text(languages, "Rust") {
            "Rust".to_string()
        } else if contains_text(languages, "Python") {
            "Python".to_string()
        } else if contains_text(languages, "JavaScript") || contains_text(languages, "TypeScript") {
            "JavaScript/TypeScript".to_string()
        } else if contains_text(languages, "Go") {
            "Go".to_string()
        } else if contains_text(languages, "Ruby") {
            "Ruby".to_string()
        } else {
            "unknown".to_string()
        }
    }

    /// The framework, from the root `package.json` or `requirements.txt` text.
    pub fn detect_framework(
        &self,
        build_files: &Vec<String>,
        root_package_json: Option<&str>,
        root_requirements: Option<&str>,
    ) -> (r: Option<String>)
        ensures
            opt_string_view(r) == framework_of(
                build_files.deep_view(),
                opt_view(root_package_json),
                opt_view(root_requirements),
            ),
    {
        if contains_text(build_files, "Cargo.toml") {
            None
        } else if contains_text(build_files, "package.json") {
            match root_package_json {
                Some(t) => {
                    let keys = match json_object_keys(t, "dependencies") {
                        Some(k) => Some(k),
                        None => json_object_keys(t, "devDependencies"),
                    };
                    match keys {
                        Some(k) => js_framework(&k),
                        None => None,
                    }
                },
                None => None,
            }
        } else if contains_text(build_files, "requirements.txt") || contains_text(
            build_files,
            "pyproject.toml",
        ) {
            match root_requirements {
                Some(t) => if contains(t, "django") {
                    Some("Django".to_string())
                } else if contains(t, "flask") {
                    Some("Flask".to_string())
                } else if contains(t, "fastapi") {
                    Some("FastAPI".to_string())
                } else {
                    None
                },
                None => None,
            }
        } else {
            None
        }
    }

    /// The analysis from everything gathered and the root manifests' text.
    pub fn finish(
        &self,
        state: ScanState,
        root_package_json: Option<&str>,
        root_requirements: Option<&str>,
    ) -> (r: Analysis)
        ensures
            r.language@ == language_of(state.build_files.deep_view(), state.languages.deep_view()),
            opt_string_view(r.framework) == framework_of(
                state.build_files.deep_view(),
                opt_view(root_package_json),
                opt_view(root_requirements),
            ),
            r.has_readme == state.has_readme,
            r.readme_summary == state.readme_summary,
            r.file_count == state.file_count,
            r.build_files == state.build_files,
            r.dependencies == state.dependencies,
            r.languages_detected == state.languages,
    {
        let language = self.detect_language(&state.build_files, &state.languages);
        let framework = self.detect_framework(
            &state.build_files,
            root_package_json,
            root_requirements,
        );
        Analysis {
            language,
            framework,
            has_readme: state.has_readme,
            readme_summary: state.readme_summary,
            file_count: state.file_count,
            build_files: state.build_files,
            dependencies: state.dependencies,
            languages_detected: state.languages,
        }
    }
}

/// In a Python repository (requirements.txt or pyproject.toml, and neither
/// Cargo.toml nor package.json) the framework comes from the root
/// requirements text by substring, Django before Flask before FastAPI: a text
/// naming flask but not django gives Flask.
pub proof fn lemma_python_framework(build: Seq<Seq<char>>, root_package_json: Option<Seq<char>>, t: Seq<char>)
    requires
        build.contains("requirements.txt"@) || build.contains("pyproject.toml"@),
        !build.contains("Cargo.toml"@),
        !build.contains("package.json"@),
    ensures
        has_sub(t, "django"@) ==> framework_of(build, root_package_json, Some(t)) == Some("Django"@),
        !has_sub(t, "django"@) && has_sub(t, "flask"@) ==> framework_of(
            build,
            root_package_json,
            Some(t),
        ) == Some("Flask"@),
        !has_sub(t, "django"@) && !has_sub(t, "flask"@) && has_sub(t, "fastapi"@) ==> framework_of(
            build,
            root_package_json,
            Some(t),
        ) == Some("FastAPI"@),
        !has_sub(t, "django"@) && !has_sub(t, "flask"@) && !has_sub(t, "fastapi"@) ==> framework_of(
            build,
            root_package_json,
            Some(t),
        ) is None,
        framework_of(build, root_package_json, None) is None,
{
}

} // verus!
