//! Static analysis results and the reading of `cargo check` output.
use vstd::prelude::*;
use crate::text::{chars_of, has_sub, lines_of, same_text, split_lines, string_from_chars, vec_has_sub};

verus! {

#[derive(Debug)]
pub struct AnalysisResult {
    pub language: String,
    pub errors: Vec<String>,
    pub warnings: Vec<String>,
    pub file_count: u32,
    pub has_cargo_check: bool,
}

pub struct StaticAnalyzer;

/// The lines that report a compiler error (they hold "error["), at most `n`
/// of them, in order.
pub open spec fn error_lines(ls: Seq<Seq<char>>, n: nat) -> Seq<Seq<char>>
    decreases ls.len(),
{
    if ls.len() == 0 || n == 0 {
        Seq::empty()
    } else if has_sub(ls[0], "error["@) {
        seq![ls[0]] + error_lines(ls.drop_first(), (n - 1) as nat)
    } else {
        error_lines(ls.drop_first(), n)
    }
}

/// Which checks a language gets.
#[derive(Debug, Clone, Copy, PartialEq, Eq, Structural)]
pub enum CheckKind {
    /// Count `.rs` files and run `cargo check` when there is a `Cargo.toml`.
    Rust,
    /// Count `.ts`, `.tsx`, `.js` and `.jsx` files.
    Script,
    /// No checks.
    Unsupported,
}

/// What `cargo check` gave.
#[derive(Debug)]
pub enum CargoCheck {
    /// There is no `Cargo.toml`, so it was not run.
    NotRun,
    /// The program could not be started.
    Failed(String),
    /// It ran: whether it succeeded, and its diagnostics.
    Ran { success: bool, stderr: String },
}

/// The checks for a language.
pub open spec fn check_kind_of(language: Seq<char>) -> CheckKind {
    if language == "Rust"@ {
        CheckKind::Rust
    } else if language == "TypeScript"@ || language == "JavaScript"@ {
        CheckKind::Script
    } else {
        CheckKind::Unsupported
    }
}

impl StaticAnalyzer {
    /// The checks `language` gets.
    pub fn check_kind(language: &str) -> (r: CheckKind)
        ensures
            r == check_kind_of(language@),
    {
        if same_text(language, "Rust") {
            CheckKind::Rust
        } else if same_text(language, "TypeScript") || same_text(language, "JavaScript") {
            CheckKind::Script
        } else {
            CheckKind::Unsupported
        }
    }

    /// The result for a Rust repository with `file_count` source files: the
    /// error lines of a failed `cargo check` (or why it could not start), and
    /// whether it passed.
    pub fn rust_result(file_count: u32, check: CargoCheck) -> (r: AnalysisResult)
        ensures
            r.language@ == "Rust"@,
            r.warnings@.len() == 0,
            r.file_count == file_count,
            match check {
                CargoCheck::NotRun => !r.has_cargo_check && r.errors@.len() == 0,
                CargoCheck::Failed(e) => {
                    &&& !r.has_cargo_check
                    &&& r.errors@.len() == 1
                    &&& r.errors@[0]@ == "cargo check calistirilamadi: "@ + e@
                },
                CargoCheck::Ran { success, stderr } => {
                    &&& r.has_cargo_check == success
                    &&& r.errors@.map_values(|s: String| s@) == if success {
                        Seq::<Seq<char>>::empty()
                    } else {
                        error_lines(lines_of(stderr@), 5)
                    }
                },
            },
    {
        let (errors, has_cargo_check) = match check {
            CargoCheck::NotRun => (Vec::new(), false),
            CargoCheck::Failed(e) => {
                let mut errors: Vec<String> = Vec::new();
                errors.push("cargo check calistirilamadi: ".to_string().concat(e.as_str()));
                (errors, false)
            },
            CargoCheck::Ran { success, stderr } => {
                if success {
                    let errors: Vec<String> = Vec::new();
                    assert(errors@.map_values(|s: String| s@) =~= Seq::<Seq<char>>::empty());
                    (errors, true)
                } else {
                    (Self::cargo_check_errors(stderr.as_str()), false)
                }
            },
        };
        AnalysisResult {
            language: "Rust".to_string(),
            errors,
            warnings: Vec::new(),
            file_count,
            has_cargo_check,
        }
    }

    /// The result for a JavaScript or TypeScript repository.
    pub fn script_result(file_count: u32) -> (r: AnalysisResult)
        ensures
            r.language@ == "TypeScript"@,
            r.errors@.len() == 0,
            r.warnings@.len() == 0,
            r.file_count == file_count,
            !r.has_cargo_check,
    {
        AnalysisResult {
            language: "TypeScript".to_string(),
            errors: Vec::new(),
            warnings: Vec::new(),
            file_count,
            has_cargo_check: false,
        }
    }

    /// The first five error lines of `cargo check` diagnostics.
    pub fn cargo_check_errors(stderr: &str) -> (r: Vec<String>)
        ensures
            r@.map_values(|s: String| s@) == error_lines(lines_of(stderr@), 5),
    {
        let cv = chars_of(stderr);
        let ls = split_lines(&cv);
        let pat = chars_of("error[");
        let ghost lv = ls.deep_view();
        let mut out: Vec<String> = Vec::new();
        let mut i: usize = 0;
        let mut left: usize = 5;
        assert(lv.skip(0) =~= lv);
        while i < ls.len() && left > 0
            invariant
                i <= ls.len(),
                left <= 5,
                lv == ls.deep_view(),
                lv == lines_of(stderr@),
                pat@ == "error["@,
                out@.map_values(|s: String| s@) + error_lines(lv.skip(i as int), left as nat)
                    == error_lines(lv, 5),
            decreases ls.len() - i,
        {
            let ghost rest = lv.skip(i as int);
            assert(rest[0] == lv[i as int]);
            assert(lv[i as int] == ls[i as int]@);
            assert(rest.drop_first() =~= lv.skip(i as int + 1));
            if vec_has_sub(&ls[i], &pat) {
                let ghost before = out@.map_values(|s: String| s@);
                let line = string_from_chars(&ls[i]);
                let ghost lvv = line@;
                out.push(line);
                assert(out@.map_values(|s: String| s@) =~= before.push(lvv));
                assert(before.push(lvv) + error_lines(lv.skip(i as int + 1), (left - 1) as nat)
                    =~= before + (seq![lvv] + error_lines(
                    lv.skip(i as int + 1),
                    (left - 1) as nat,
                )));
                left -= 1;
            }
            i += 1;
        }
        if i < ls.len() {
            assert(error_lines(lv.skip(i as int), 0) =~= Seq::<Seq<char>>::empty());
        } else {
            assert(lv.skip(i as int) =~= Seq::<Seq<char>>::empty());
        }
        assert(out@.map_values(|s: String| s@) + Seq::<Seq<char>>::empty() =~= out@.map_values(
            |s: String| s@,
        ));
        out
    }

    /// The result for a language without checks: one warning, nothing counted.
    pub fn unsupported(language: &str) -> (r: AnalysisResult)
        ensures
            r.language@ == language@,
            r.errors@.len() == 0,
            r.warnings@.len() == 1,
            r.warnings@[0]@ == "Static analysis not supported for this language"@,
            r.file_count == 0,
            !r.has_cargo_check,
    {
        let mut warnings: Vec<String> = Vec::new();
        warnings.push("Static analysis not supported for this language".to_string());
        AnalysisResult {
            language: language.to_string(),
            errors: Vec::new(),
            warnings,
            file_count: 0,
            has_cargo_check: false,
        }
    }
}

} // verus!
