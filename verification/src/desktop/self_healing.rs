//! Self-healing: suggestions and severities for classified errors, and the
//! count of fixes applied.
use vstd::prelude::*;
use crate::text::same_text;
use crate::desktop::assimilation::pipeline::texts;
use crate::desktop::cli::{join, join_with};

verus! {

pub struct SelfHealingEngine {
    fix_count: u32,
}

/// The advice for an error class, if the class is known.
pub open spec fn suggestion_of(analysis: Seq<char>) -> Option<Seq<char>> {
    if analysis == "module_not_found"@ {
        Some("Eksik modul import edilmis. Modul adini kontrol edin veya Cargo.toml'a ekleyin."@)
    } else if analysis == "syntax_error"@ {
        Some("Yazim hatasi tespit edildi. Sozdizimini kontrol edin."@)
    } else if analysis == "memory_error"@ {
        Some("Bellek sorunu. Daha fazla RAM ayirin veya veri yapisini kucultun."@)
    } else if analysis == "type_mismatch"@ {
        Some("Tip uyusmazligi. Degisken tiplerini kontrol edin."@)
    } else if analysis == "connection_error"@ {
        Some("Baglanti hatasi. Ag baglantisi veya API erisilebilirligini kontrol edin."@)
    } else if analysis == "permission_error"@ {
        Some("Yetki hatasi. Dosya veya klasor izinlerini kontrol edin."@)
    } else if analysis == "not_found"@ {
        Some("Kaynak bulunamadi. Dosya yolunu veya URL'yi kontrol edin."@)
    } else if analysis == "panic"@ {
        Some("Panik olustu. unwrap() veya expect() kullanimini gozden gecirin."@)
    } else {
        None
    }
}

/// How serious an error class is.
pub open spec fn severity_of(analysis: Seq<char>) -> Seq<char> {
    if analysis == "panic"@ || analysis == "memory_error"@ {
        "KRITIK"@
    } else if analysis == "module_not_found"@ || analysis == "type_mismatch"@ {
        "YUKSEK"@
    } else if analysis == "connection_error"@ || analysis == "permission_error"@ {
        "ORTA"@
    } else {
        "DUSUK"@
    }
}

impl SelfHealingEngine {
    pub closed spec fn fixes(&self) -> u32 {
        self.fix_count
    }

    /// An engine that has applied no fix.
    pub fn new() -> (r: Self)
        ensures
            r.fixes() == 0,
    {
        SelfHealingEngine { fix_count: 0 }
    }

    /// The number of fixes applied.
    pub fn fix_count(&self) -> (r: u32)
        ensures
            r == self.fixes(),
    {
        self.fix_count
    }

    /// Counts one more applied fix.
    pub fn record_fix(&mut self)
        requires
            old(self).fixes() < u32::MAX,
        ensures
            final(self).fixes() == old(self).fixes() + 1,
    {
        self.fix_count = self.fix_count + 1;
    }

    /// The advice for an error class.
    pub fn suggestion(&self, analysis: &str) -> (r: Option<String>)
        ensures
            match r {
                Some(s) => suggestion_of(analysis@) == Some(s@),
                None => suggestion_of(analysis@) is None,
            },
    {
        if same_text(analysis, "module_not_found") {
            Some("Eksik modul import edilmis. Modul adini kontrol edin veya Cargo.toml'a ekleyin.".to_string())
        } else if same_text(analysis, "syntax_error") {
            Some("Yazim hatasi tespit edildi. Sozdizimini kontrol edin.".to_string())
        } else if same_text(analysis, "memory_error") {
            Some("Bellek sorunu. Daha fazla RAM ayirin veya veri yapisini kucultun.".to_string())
        } else if same_text(analysis, "type_mismatch") {
            Some("Tip uyusmazligi. Degisken tiplerini kontrol edin.".to_string())
        } else if same_text(analysis, "connection_error") {
            Some("Baglanti hatasi. Ag baglantisi veya API erisilebilirligini kontrol edin.".to_string())
        } else if same_text(analysis, "permission_error") {
            Some("Yetki hatasi. Dosya veya klasor izinlerini kontrol edin.".to_string())
        } else if same_text(analysis, "not_found") {
            Some("Kaynak bulunamadi. Dosya yolunu veya URL'yi kontrol edin.".to_string())
        } else if same_text(analysis, "panic") {
            Some("Panik olustu. unwrap() veya expect() kullanimini gozden gecirin.".to_string())
        } else {
            None
        }
    }

    /// How serious an error class is.
    pub fn severity(&self, analysis: &str) -> (r: &'static str)
        ensures
            r@ == severity_of(analysis@),
    {
        if same_text(analysis, "panic") || same_text(analysis, "memory_error") {
            "KRITIK"
        } else if same_text(analysis, "module_not_found") || same_text(analysis, "type_mismatch") {
            "YUKSEK"
        } else if same_text(analysis, "connection_error") || same_text(analysis, "permission_error") {
            "ORTA"
        } else {
            "DUSUK"
        }
    }
}

/// The label of a changed file in the repository status: staged new, staged
/// change, unstaged new, unstaged change, in that order of precedence.
pub open spec fn status_label_of(
    index_new: bool,
    index_modified: bool,
    wt_new: bool,
    wt_modified: bool,
) -> Seq<char> {
    if index_new {
        "YENI"@
    } else if index_modified {
        "DEGISTI"@
    } else if wt_new {
        "YENI(WD)"@
    } else if wt_modified {
        "DEGISTI(WD)"@
    } else {
        "?"@
    }
}

/// The label of a changed file, from its status flags.
pub fn status_label(index_new: bool, index_modified: bool, wt_new: bool, wt_modified: bool) -> (r:
    &'static str)
    ensures
        r@ == status_label_of(index_new, index_modified, wt_new, wt_modified),
{
    if index_new {
        "YENI"
    } else if index_modified {
        "DEGISTI"
    } else if wt_new {
        "YENI(WD)"
    } else if wt_modified {
        "DEGISTI(WD)"
    } else {
        "?"
    }
}

/// The repository status text: one line per changed file, or a note that the
/// working directory is clean.
pub open spec fn status_report_of(lines: Seq<Seq<char>>) -> Seq<char> {
    if lines.len() == 0 {
        "Temiz calisma dizini"@
    } else {
        join_with(lines, "\n"@)
    }
}

/// The repository status text for the given lines.
pub fn status_report(lines: &Vec<String>) -> (r: String)
    ensures
        r@ == status_report_of(texts(lines@)),
{
    if lines.len() == 0 {
        "Temiz calisma dizini".to_string()
    } else {
        join(lines, "\n")
    }
}

} // verus!
