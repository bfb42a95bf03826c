//! Integration planning: the steps, impact and risk of bringing in a repository.
use vstd::prelude::*;
use crate::desktop::assimilation::analyzer::Analysis;
use crate::text::same_text;

verus! {

#[derive(Debug)]
pub struct IntegrationPlan {
    pub steps: Vec<IntegrationStep>,
    pub estimated_impact: String,
    pub risk_level: String,
}

#[derive(Debug)]
pub struct IntegrationStep {
    pub order: u32,
    pub description: String,
    pub module: String,
    pub estimated_effort: String,
}

pub struct IntegrationPlanner;

/// A step as (order, description, module, effort).
pub open spec fn step_view(s: IntegrationStep) -> (u32, Seq<char>, Seq<char>, Seq<char>) {
    (s.order, s.description@, s.module@, s.estimated_effort@)
}

/// The steps for a repository in `language` named `name`.
pub open spec fn plan_steps_of(language: Seq<char>, name: Seq<char>) -> Seq<
    (u32, Seq<char>, Seq<char>, Seq<char>),
> {
    if language == "Rust"@ {
        seq![
            (1u32, name + " kaynak kodunu ADLER Rust çekirdeğine entegre et"@, "core"@, "medium"@),
            (2u32, "Tauri bridge komutlarini tanimla"@, "bridge"@, "low"@),
        ]
    } else if language == "TypeScript"@ || language == "JavaScript"@ {
        seq![
            (1u32, name + " UI bilesenlerini React'e uyarla"@, "ui"@, "medium"@),
            (2u32, "Tauri invoke wrapper'lari olustur"@, "bridge"@, "low"@),
        ]
    } else if language == "Python"@ {
        seq![
            (1u32, "Python kodunu Wasm sandbox'ta calistir"@, "sandbox"@, "high"@),
            (2u32, "Python-Rust FFI koprusu kur"@, "bridge"@, "high"@),
        ]
    } else {
        seq![(1u32, name + " icin ozel entegrasyon plani"@, "custom"@, "unknown"@)]
    }
}

/// Impact grows with the number of files: up to 5, up to 20, more.
pub open spec fn impact_of(file_count: u32) -> Seq<char> {
    if file_count <= 5 {
        "dusuk"@
    } else if file_count <= 20 {
        "orta"@
    } else {
        "yuksek"@
    }
}

/// Rust and TypeScript are low risk, Python medium, anything else high.
pub open spec fn risk_of(language: Seq<char>) -> Seq<char> {
    if language == "Rust"@ || language == "TypeScript"@ {
        "dusuk"@
    } else if language == "Python"@ {
        "orta"@
    } else {
        "yuksek"@
    }
}

fn step(order: u32, description: String, module: &str, effort: &str) -> (r: IntegrationStep)
    ensures
        step_view(r) == (order, description@, module@, effort@),
{
    IntegrationStep {
        order,
        description,
        module: module.to_string(),
        estimated_effort: effort.to_string(),
    }
}

impl IntegrationPlanner {
    /// The integration plan for the analysed repository `name`.
    pub fn plan(analysis: &Analysis, name: &str) -> (r: IntegrationPlan)
        ensures
            r.steps@.map_values(|s: IntegrationStep| step_view(s)) == plan_steps_of(
                analysis.language@,
                name@,
            ),
            r.estimated_impact@ == impact_of(analysis.file_count),
            r.risk_level@ == risk_of(analysis.language@),
    {
        let lang = analysis.language.as_str();
        let mut steps: Vec<IntegrationStep> = Vec::new();
        if same_text(lang, "Rust") {
            steps.push(
                step(
                    1,
                    name.to_string().concat(" kaynak kodunu ADLER Rust çekirdeğine entegre et"),
                    "core",
                    "medium",
                ),
            );
            steps.push(step(2, "Tauri bridge komutlarini tanimla".to_string(), "bridge", "low"));
        } else if same_text(lang, "TypeScript") || same_text(lang, "JavaScript") {
            steps.push(
                step(1, name.to_string().concat(" UI bilesenlerini React'e uyarla"), "ui", "medium"),
            );
            steps.push(step(2, "Tauri invoke wrapper'lari olustur".to_string(), "bridge", "low"));
        } else if same_text(lang, "Python") {
            steps.push(
                step(1, "Python kodunu Wasm sandbox'ta calistir".to_string(), "sandbox", "high"),
            );
            steps.push(step(2, "Python-Rust FFI koprusu kur".to_string(), "bridge", "high"));
        } else {
            steps.push(
                step(1, name.to_string().concat(" icin ozel entegrasyon plani"), "custom", "unknown"),
            );
        }
        assert(steps@.map_values(|s: IntegrationStep| step_view(s)) =~= plan_steps_of(
            analysis.language@,
            name@,
        ));
        let estimated_impact = if analysis.file_count <= 5 {
            "dusuk".to_string()
        } else if analysis.file_count <= 20 {
            "orta".to_string()
        } else {
            "yuksek".to_string()
        };
        let risk_level = if same_text(lang, "Rust") || same_text(lang, "TypeScript") {
            "dusuk".to_string()
        } else if same_text(lang, "Python") {
            "orta".to_string()
        } else {
            "yuksek".to_string()
        };
        IntegrationPlan { steps, estimated_impact, risk_level }
    }
}

} // verus!
