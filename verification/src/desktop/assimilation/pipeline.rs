//! The assimilation pipeline as a state machine: the caller performs each
//! step (clone, analyse, split, adapt, test, finalize, register) and reports
//! its outcome; the run records progress and builds the final report.
use vstd::prelude::*;
use crate::desktop::assimilation::analyzer::RepoAnalyzer;
use crate::desktop::assimilation::cloner::RepoCloner;
use crate::text::{
    after_last, after_last_chars, chars_of, dec_of, dec_string, same_text, string_from_chars,
    strip_suffixes, strip_suffixes_chars,
};

verus! {

/// The steps of an assimilation.
#[derive(Debug, Clone, Copy, PartialEq, Eq, Structural)]
pub enum PipelineStep {
    Clone,
    Analyze,
    Split,
    Adapt,
    Test,
    Register,
}

/// How an assimilation ended.
#[derive(Debug)]
pub struct PipelineReport {
    pub success: bool,
    pub name: String,
    pub steps_completed: Vec<String>,
    pub module_dir: Option<String>,
    pub summary: String,
    pub errors: Vec<String>,
}

/// The module name of a repository URL: the last path segment after any
/// trailing ".git" suffixes are removed.
pub open spec fn repo_name_of(url: Seq<char>) -> Seq<char> {
    after_last(strip_suffixes(url, ".git"@), '/')
}

/// The module name of a repository URL.
pub fn repo_safe_name(url: &str) -> (r: String)
    ensures
        r@ == repo_name_of(url@),
{
    proof {
        reveal_strlit(".git");
    }
    let v = chars_of(url);
    let p = chars_of(".git");
    let n = strip_suffixes_chars(&v, &p);
    let tail = after_last_chars(&v, n, '/');
    string_from_chars(&tail)
}

/// The pipeline and the components it uses.
pub struct AssimilationPipeline {
    pub cloner: RepoCloner,
    pub analyzer: RepoAnalyzer,
}

/// What to do after finalizing the module directory.
#[derive(Debug)]
pub enum FinalizeStep {
    /// The module lives at this path.
    Done(String),
    /// Try finalizing once more.
    Retry,
}

/// An assimilation in progress.
pub struct PipelineRun {
    name: String,
    steps: Vec<String>,
    errors: Vec<String>,
    module_dir: Option<String>,
    stage: u8,
}

/// The completed-step names as text.
pub open spec fn texts(v: Seq<String>) -> Seq<Seq<char>> {
    v.map_values(|s: String| s@)
}

/// The report of a run that stopped at a failing step.
pub open spec fn failed_report(
    r: PipelineReport,
    name: Seq<char>,
    steps: Seq<Seq<char>>,
    errors: Seq<Seq<char>>,
    summary: Seq<char>,
) -> bool {
    &&& !r.success
    &&& r.name@ == name
    &&& texts(r.steps_completed@) == steps
    &&& r.module_dir is None
    &&& r.summary@ == summary
    &&& texts(r.errors@) == errors
}

/// Stage numbers: 0 cloning, 1 analysing, 2 splitting, 3 adapting,
/// 4 testing, 5 finalizing, 6 finalize retry, 7 registering.
impl PipelineRun {
    pub closed spec fn name_view(&self) -> Seq<char> {
        self.name@
    }

    pub closed spec fn steps_view(&self) -> Seq<Seq<char>> {
        texts(self.steps@)
    }

    pub closed spec fn errors_view(&self) -> Seq<Seq<char>> {
        texts(self.errors@)
    }

    pub closed spec fn module_dir_view(&self) -> Option<Seq<char>> {
        match self.module_dir {
            Some(p) => Some(p@),
            None => None,
        }
    }

    pub closed spec fn stage(&self) -> u8 {
        self.stage
    }

    fn add_step(&mut self, step: &str)
        ensures
            final(self).steps_view() == old(self).steps_view().push(step@),
            final(self).errors_view() == old(self).errors_view(),
            final(self).name_view() == old(self).name_view(),
            final(self).module_dir_view() == old(self).module_dir_view(),
            final(self).stage() == old(self).stage(),
    {
        let ghost before = self.steps@;
        self.steps.push(step.to_string());
        assert(texts(self.steps@) =~= texts(before).push(step@));
    }

    fn add_error(&mut self, e: String)
        ensures
            final(self).errors_view() == old(self).errors_view().push(e@),
            final(self).steps_view() == old(self).steps_view(),
            final(self).name_view() == old(self).name_view(),
            final(self).module_dir_view() == old(self).module_dir_view(),
            final(self).stage() == old(self).stage(),
    {
        let ghost before = self.errors@;
        let ghost ev = e@;
        self.errors.push(e);
        assert(texts(self.errors@) =~= texts(before).push(ev));
    }

    fn stopped(self, summary: String) -> (r: PipelineReport)
        ensures
            failed_report(r, self.name_view(), self.steps_view(), self.errors_view(), summary@),
    {
        PipelineReport {
            success: false,
            name: self.name,
            steps_completed: self.steps,
            module_dir: None,
            summary,
            errors: self.errors,
        }
    }

    /// Cloning failed: the run stops.
    pub fn clone_failed(self, e: &str) -> (r: PipelineReport)
        requires
            self.stage() == 0,
        ensures
            failed_report(
                r,
                self.name_view(),
                self.steps_view(),
                self.errors_view().push("Klonlama başarısız: "@ + e@),
                "Asimilasyon başarısız (adım 1/6: Klonlama) — "@ + e@,
            ),
    {
        let mut run = self;
        run.add_error("Klonlama başarısız: ".to_string().concat(e));
        run.stopped("Asimilasyon başarısız (adım 1/6: Klonlama) — ".to_string().concat(e))
    }

    /// The repository was cloned.
    pub fn clone_succeeded(&mut self)
        requires
            old(self).stage() == 0,
        ensures
            final(self).stage() == 1,
            final(self).steps_view() == old(self).steps_view().push("Klonlama"@),
            final(self).errors_view() == old(self).errors_view(),
            final(self).name_view() == old(self).name_view(),
            final(self).module_dir_view() == old(self).module_dir_view(),
    {
        self.add_step("Klonlama");
        self.stage = 1;
    }

    /// Analysis failed: the run stops (the caller rolls back with the last error).
    pub fn analysis_failed(self, e: &str) -> (r: PipelineReport)
        requires
            self.stage() == 1,
        ensures
            failed_report(
                r,
                self.name_view(),
                self.steps_view(),
                self.errors_view().push("Analiz başarısız: "@ + e@),
                "Asimilasyon başarısız (adım 2/6: Analiz) — "@ + e@,
            ),
    {
        let mut run = self;
        run.add_error("Analiz başarısız: ".to_string().concat(e));
        run.stopped("Asimilasyon başarısız (adım 2/6: Analiz) — ".to_string().concat(e))
    }

    /// The repository was analysed.
    pub fn analysis_succeeded(&mut self)
        requires
            old(self).stage() == 1,
        ensures
            final(self).stage() == 2,
            final(self).steps_view() == old(self).steps_view().push("Analiz"@),
            final(self).errors_view() == old(self).errors_view(),
            final(self).name_view() == old(self).name_view(),
            final(self).module_dir_view() == old(self).module_dir_view(),
    {
        self.add_step("Analiz");
        self.stage = 2;
    }

    /// The code was split.
    pub fn split_done(&mut self)
        requires
            old(self).stage() == 2,
        ensures
            final(self).stage() == 3,
            final(self).steps_view() == old(self).steps_view().push("Parçalama"@),
            final(self).errors_view() == old(self).errors_view(),
            final(self).name_view() == old(self).name_view(),
            final(self).module_dir_view() == old(self).module_dir_view(),
    {
        self.add_step("Parçalama");
        self.stage = 3;
    }

    /// The code was adapted.
    pub fn adapt_done(&mut self)
        requires
            old(self).stage() == 3,
        ensures
            final(self).stage() == 4,
            final(self).steps_view() == old(self).steps_view().push("Adaptasyon"@),
            final(self).errors_view() == old(self).errors_view(),
            final(self).name_view() == old(self).name_view(),
            final(self).module_dir_view() == old(self).module_dir_view(),
    {
        self.add_step("Adaptasyon");
        self.stage = 4;
    }

    /// The sandbox test ran; a failure is only a warning.
    pub fn test_finished(&mut self, result: Result<String, String>)
        requires
            old(self).stage() == 4,
        ensures
            final(self).stage() == 5,
            final(self).name_view() == old(self).name_view(),
            final(self).module_dir_view() == old(self).module_dir_view(),
            match result {
                Ok(_) => {
                    &&& final(self).steps_view() == old(self).steps_view().push("Test"@)
                    &&& final(self).errors_view() == old(self).errors_view()
                },
                Err(e) => {
                    &&& final(self).steps_view() == old(self).steps_view().push(
                        "Test (atlandı)"@,
                    )
                    &&& final(self).errors_view() == old(self).errors_view().push(
                        "Test uyarısı: "@ + e@,
                    )
                },
            },
    {
        match result {
            Ok(_) => {
                self.add_step("Test");
            },
            Err(e) => {
                self.add_error("Test uyarısı: ".to_string().concat(e.as_str()));
                self.add_step("Test (atlandı)");
            },
        }
        self.stage = 5;
    }

    /// The first attempt to move the module into place returned `result`.
    /// On failure a warning is kept and, when the temporary directory still
    /// exists, the move is retried; otherwise `<modules_base>/<name>` is used.
    pub fn on_finalize(
        &mut self,
        result: Result<String, String>,
        temp_exists: bool,
        modules_base: &str,
    ) -> (step: FinalizeStep)
        requires
            old(self).stage() == 5,
        ensures
            final(self).name_view() == old(self).name_view(),
            final(self).steps_view() == old(self).steps_view(),
            match result {
                Ok(p) => {
                    &&& step matches FinalizeStep::Done(q) && q@ == p@
                    &&& final(self).module_dir_view() == Some(p@)
                    &&& final(self).errors_view() == old(self).errors_view()
                    &&& final(self).stage() == 7
                },
                Err(e) => {
                    &&& final(self).errors_view() == old(self).errors_view().push(
                        "Finalize uyarisi: "@ + e@ + " — fallback path kullaniliyor"@,
                    )
                    &&& if temp_exists {
                        &&& step is Retry
                        &&& final(self).stage() == 6
                        &&& final(self).module_dir_view() == old(self).module_dir_view()
                    } else {
                        &&& step matches FinalizeStep::Done(q) && q@ == modules_base@ + "/"@
                            + old(self).name_view()
                        &&& final(self).module_dir_view() == Some(
                            modules_base@ + "/"@ + old(self).name_view(),
                        )
                        &&& final(self).stage() == 7
                    }
                },
            },
    {
        match result {
            Ok(p) => {
                self.module_dir = Some(p.clone());
                self.stage = 7;
                FinalizeStep::Done(p)
            },
            Err(e) => {
                self.add_error(
                    "Finalize uyarisi: ".to_string().concat(e.as_str()).concat(
                        " — fallback path kullaniliyor",
                    ),
                );
                if temp_exists {
                    self.stage = 6;
                    FinalizeStep::Retry
                } else {
                    let fallback = modules_base.to_string().concat("/").concat(self.name.as_str());
                    self.module_dir = Some(fallback.clone());
                    self.stage = 7;
                    FinalizeStep::Done(fallback)
                }
            },
        }
    }

    /// The retried move returned `result`; when it fails the module stays in
    /// the temporary directory.
    pub fn on_finalize_retry(&mut self, result: Result<String, String>, temp_path: &str) -> (r:
        String)
        requires
            old(self).stage() == 6,
        ensures
            final(self).stage() == 7,
            final(self).name_view() == old(self).name_view(),
            final(self).steps_view() == old(self).steps_view(),
            final(self).errors_view() == old(self).errors_view(),
            r@ == match result {
                Ok(p) => p@,
                Err(_) => temp_path@,
            },
            final(self).module_dir_view() == Some(r@),
    {
        let path = match result {
            Ok(p) => p,
            Err(_) => temp_path.to_string(),
        };
        self.module_dir = Some(path.clone());
        self.stage = 7;
        path
    }

    /// Registration failed: the run stops (the caller rolls back with `e`).
    pub fn register_failed(self, e: &str) -> (r: PipelineReport)
        requires
            self.stage() == 7,
        ensures
            failed_report(
                r,
                self.name_view(),
                self.steps_view(),
                self.errors_view().push("Kayıt başarısız: "@ + e@),
                "Asimilasyon başarısız (adım 6/6: Kayıt) — "@ + e@,
            ),
    {
        let mut run = self;
        run.add_error("Kayıt başarısız: ".to_string().concat(e));
        run.stopped("Asimilasyon başarısız (adım 6/6: Kayıt) — ".to_string().concat(e))
    }

    /// The module was registered: the run succeeds.
    pub fn finish(self, adapted_count: u64, language: &str, dependency_count: u64, final_path: &str) -> (r:
        PipelineReport)
        requires
            self.stage() == 7,
        ensures
            r.success,
            r.name@ == self.name_view(),
            texts(r.steps_completed@) == self.steps_view().push("Kayıt"@),
            match r.module_dir {
                Some(p) => self.module_dir_view() == Some(p@),
                None => self.module_dir_view() is None,
            },
            texts(r.errors@) == self.errors_view(),
            r.summary@ == "Asimilasyon tamamlandi: '"@ + self.name_view() + "' — "@ + dec_of(
                self.steps_view().len() + 1,
            ) + " adim, "@ + dec_of(adapted_count as nat) + " dosya adapte edildi"@ + (if adapted_count
                > 0 && language@ == "Rust"@ {
                " (Rust->Rust: dosyalar aynen kopyalandi)"@
            } else {
                Seq::<char>::empty()
            }) + ", "@ + dec_of(dependency_count as nat) + " bagimlilik, konum: "@ + final_path@,
    {
        let mut run = self;
        run.add_step("Kayıt");
        assert(run.steps@.len() == run.steps_view().len());
        assert(run.steps_view().len() == self.steps_view().len() + 1);
        let warn = if adapted_count > 0 && same_text(language, "Rust") {
            " (Rust->Rust: dosyalar aynen kopyalandi)"
        } else {
            ""
        };
        proof {
            reveal_strlit("");
            assert(""@ =~= Seq::<char>::empty());
        }
        let steps_n = dec_string(run.steps.len() as u64);
        let adapted_n = dec_string(adapted_count);
        let deps_n = dec_string(dependency_count);
        let summary = "Asimilasyon tamamlandi: '".to_string().concat(run.name.as_str()).concat(
            "' — ",
        ).concat(steps_n.as_str()).concat(" adim, ").concat(adapted_n.as_str()).concat(
            " dosya adapte edildi",
        ).concat(warn).concat(", ").concat(deps_n.as_str()).concat(" bagimlilik, konum: ").concat(
            final_path,
        );
        PipelineReport {
            success: true,
            name: run.name,
            steps_completed: run.steps,
            module_dir: run.module_dir,
            summary,
            errors: run.errors,
        }
    }
}

impl AssimilationPipeline {
    pub fn new() -> (r: Self) {
        AssimilationPipeline { cloner: RepoCloner::new(), analyzer: RepoAnalyzer::new() }
    }

    /// Starts assimilating the repository at `repo_url`.
    pub fn start(&self, repo_url: &str) -> (r: PipelineRun)
        ensures
            r.name_view() == repo_name_of(repo_url@),
            r.steps_view() == Seq::<Seq<char>>::empty(),
            r.errors_view() == Seq::<Seq<char>>::empty(),
            r.module_dir_view() is None,
            r.stage() == 0,
    {
        let name = repo_safe_name(repo_url);
        let r = PipelineRun {
            name,
            steps: Vec::new(),
            errors: Vec::new(),
            module_dir: None,
            stage: 0,
        };
        assert(texts(r.steps@) =~= Seq::<Seq<char>>::empty());
        assert(texts(r.errors@) =~= Seq::<Seq<char>>::empty());
        r
    }
}

/// A run that reaches registration has completed, in order, cloning,
/// analysis, splitting, adaptation and testing (run or skipped) before it
/// adds registration.
pub open spec fn successful_steps(test_ok: bool) -> Seq<Seq<char>> {
    seq![
        "Klonlama"@,
        "Analiz"@,
        "Parçalama"@,
        "Adaptasyon"@,
        if test_ok {
            "Test"@
        } else {
            "Test (atlandı)"@
        },
        "Kayıt"@,
    ]
}

/// The step sequence of a successful assimilation.
pub proof fn lemma_successful_run_steps(test_ok: bool)
    ensures
        Seq::<Seq<char>>::empty().push("Klonlama"@).push("Analiz"@).push("Parçalama"@).push(
            "Adaptasyon"@,
        ).push(
            if test_ok {
                "Test"@
            } else {
                "Test (atlandı)"@
            },
        ).push("Kayıt"@) == successful_steps(test_ok),
        successful_steps(test_ok).len() == 6,
{
    assert(Seq::<Seq<char>>::empty().push("Klonlama"@).push("Analiz"@).push("Parçalama"@).push(
        "Adaptasyon"@,
    ).push(
        if test_ok {
            "Test"@
        } else {
            "Test (atlandı)"@
        },
    ).push("Kayıt"@) =~= successful_steps(test_ok));
}

} // verus!
