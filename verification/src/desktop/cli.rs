//! The headless command line: its commands, the chat session and the text
//! of its answers.
use vstd::prelude::*;
use crate::desktop::assimilation::pipeline::{texts, PipelineReport};
use crate::text::{ends_with, has_suffix, same_text, trim, trim_of};

verus! {

/// The parsed command line.
#[derive(Debug)]
pub struct Cli {
    pub command: Option<Commands>,
}

/// The commands of the command line.
#[derive(Debug)]
pub enum Commands {
    Assimilate { repo_url: String },
    SkillAdd { file_path: String },
    Diagnostic,
    Status,
    SkillList,
    SkillDeactivate { name: String },
    SkillActivate { name: String },
    SkillRun { name: String, task: String },
    SkillRemove { name: String },
    SecurityAudit,
    Chat,
}

/// What the chat loop does with one input line.
#[derive(Debug)]
pub enum ChatAction {
    /// Ignore the empty line.
    Skip,
    /// Say goodbye and stop.
    Exit,
    /// Show the command list.
    Help,
    /// The conversation memory was cleared.
    Cleared,
    /// Send this prompt to the model.
    Ask(String),
}

/// The lines joined with `sep` between them.
pub open spec fn join_with(ls: Seq<Seq<char>>, sep: Seq<char>) -> Seq<char>
    decreases ls.len(),
{
    if ls.len() == 0 {
        Seq::empty()
    } else if ls.len() == 1 {
        ls[0]
    } else {
        join_with(ls.drop_last(), sep) + sep + ls.last()
    }
}

/// Joins strings with a separator.
pub fn join(parts: &Vec<String>, sep: &str) -> (r: String)
    ensures
        r@ == join_with(texts(parts@), sep@),
{
    let ghost pv = texts(parts@);
    let mut out = String::new();
    let mut i: usize = 0;
    while i < parts.len()
        invariant
            i <= parts.len(),
            pv == texts(parts@),
            out@ == join_with(pv.take(i as int), sep@),
        decreases parts.len() - i,
    {
        assert(pv.take(i as int + 1).drop_last() =~= pv.take(i as int));
        assert(pv[i as int] == parts@[i as int]@);
        if i == 0 {
            out = parts[0].clone();
            assert(pv.take(1) =~= seq![pv[0]]);
        } else {
            out = out.concat(sep).concat(parts[i].as_str());
        }
        i += 1;
    }
    assert(pv.take(parts.len() as int) =~= pv);
    out
}

/// The conversation memory of the chat loop: alternating user and assistant
/// lines, at most twenty.
pub struct ChatSession {
    context: Vec<String>,
}

/// Whether a trimmed input line is a chat command: "/exit", "/quit", "/help"
/// or "/clear".
pub open spec fn is_chat_command(t: Seq<char>) -> bool {
    t == "/exit"@ || t == "/quit"@ || t == "/help"@ || t == "/clear"@
}

/// The prompt for a new user line: the line alone, or the memory followed by it.
pub open spec fn chat_prompt_of(context: Seq<Seq<char>>, t: Seq<char>) -> Seq<char> {
    if context.len() == 0 {
        t
    } else {
        join_with(context, "\n"@) + "\nKullanici: "@ + t
    }
}

/// The memory after an exchange: both lines added, and the oldest exchange
/// dropped once more than twenty lines are kept.
pub open spec fn memory_after(context: Seq<Seq<char>>, t: Seq<char>, reply: Seq<char>) -> Seq<
    Seq<char>,
> {
    let grown = context.push("Kullanici: "@ + t).push("Adler: "@ + reply);
    if grown.len() > 20 {
        grown.skip(2)
    } else {
        grown
    }
}

impl ChatSession {
    pub closed spec fn memory(&self) -> Seq<Seq<char>> {
        texts(self.context@)
    }

    /// The memory never holds more than twenty lines.
    #[verifier::type_invariant]
    spec fn bounded(&self) -> bool {
        self.context@.len() <= 20
    }

    /// A session with empty memory.
    pub fn new() -> (r: Self)
        ensures
            r.memory() == Seq::<Seq<char>>::empty(),
    {
        let r = ChatSession { context: Vec::new() };
        assert(texts(r.context@) =~= Seq::<Seq<char>>::empty());
        r
    }

    /// Handles one input line: blank lines are skipped, "/exit" and "/quit"
    /// stop, "/help" shows help, "/clear" empties the memory, and anything
    /// else becomes a prompt.
    pub fn handle_line(&mut self, line: &str) -> (r: ChatAction)
        ensures
            trim_of(line@).len() == 0 ==> r is Skip,
            trim_of(line@) == "/exit"@ || trim_of(line@) == "/quit"@ ==> r is Exit,
            trim_of(line@) == "/help"@ ==> r is Help,
            trim_of(line@) == "/clear"@ ==> r is Cleared && final(self).memory() == Seq::<
                Seq<char>,
            >::empty(),
            trim_of(line@).len() != 0 && !is_chat_command(trim_of(line@)) ==> (r matches ChatAction::Ask(p)
                && p@ == chat_prompt_of(old(self).memory(), trim_of(line@))),
            trim_of(line@) != "/clear"@ ==> final(self).memory() == old(self).memory(),
    {
        proof {
            reveal_strlit("/exit");
            reveal_strlit("/quit");
            reveal_strlit("/help");
            reveal_strlit("/clear");
            assert("/help"@[1] != "/exit"@[1] && "/help"@[1] != "/quit"@[1]);
        }
        let t = trim(line);
        let ts = t.as_str();
        if ts.unicode_len() == 0 {
            ChatAction::Skip
        } else if same_text(ts, "/exit") || same_text(ts, "/quit") {
            ChatAction::Exit
        } else if same_text(ts, "/help") {
            ChatAction::Help
        } else if same_text(ts, "/clear") {
            self.context = Vec::new();
            assert(texts(self.context@) =~= Seq::<Seq<char>>::empty());
            ChatAction::Cleared
        } else {
            if self.context.len() == 0 {
                ChatAction::Ask(t)
            } else {
                let mem = join(&self.context, "\n");
                ChatAction::Ask(mem.concat("\nKullanici: ").concat(ts))
            }
        }
    }

    /// Remembers an exchange of the user line `line` (trimmed) and the reply.
    pub fn record_exchange(&mut self, line: &str, reply: &str)
        ensures
            final(self).memory() == memory_after(old(self).memory(), trim_of(line@), reply@),
            final(self).memory().len() <= 20,
    {
        proof {
            use_type_invariant(&*self);
        }
        let t = trim(line);
        let ghost before = texts(self.context@);
        let u = "Kullanici: ".to_string().concat(t.as_str());
        let a = "Adler: ".to_string().concat(reply);
        let ghost uv = u@;
        let ghost av = a@;
        let mut context: Vec<String> = Vec::new();
        std::mem::swap(&mut context, &mut self.context);
        context.push(u);
        context.push(a);
        assert(texts(context@) =~= before.push(uv).push(av));
        if context.len() > 20 {
            let ghost grown = context@;
            context.remove(0);
            context.remove(0);
            assert(context@ =~= grown.skip(2));
            assert(texts(context@) =~= texts(grown).skip(2));
        }
        self.context = context;
        proof {
            use_type_invariant(&*self);
        }
    }
}

/// The memory never holds more than twenty lines.
pub proof fn lemma_memory_bounded(context: Seq<Seq<char>>, t: Seq<char>, reply: Seq<char>)
    requires
        context.len() <= 20,
    ensures
        memory_after(context, t, reply).len() <= 20,
        memory_after(context, t, reply).last() == "Adler: "@ + reply,
{
}

/// The answer for a finished assimilation.
pub open spec fn assimilate_output_of(
    success: bool,
    summary: Seq<char>,
    steps: Seq<Seq<char>>,
    module_dir: Option<Seq<char>>,
    errors: Seq<Seq<char>>,
) -> Result<Seq<char>, Seq<char>> {
    if success {
        Ok(
            summary + "\n  Adımlar: "@ + join_with(steps, " → "@) + "\n  Modül yolu: "@
                + match module_dir {
                Some(p) => p,
                None => Seq::empty(),
            },
        )
    } else {
        Err(
            summary + "\n  Tamamlanan adımlar: "@ + join_with(steps, ", "@) + "\n  Hatalar: "@
                + join_with(errors, "; "@),
        )
    }
}

/// The text the command line shows for an assimilation report.
pub fn assimilate_output(report: &PipelineReport) -> (r: Result<String, String>)
    ensures
        match r {
            Ok(t) => assimilate_output_of(
                report.success,
                report.summary@,
                texts(report.steps_completed@),
                match report.module_dir {
                    Some(p) => Some(p@),
                    None => None,
                },
                texts(report.errors@),
            ) == Ok::<Seq<char>, Seq<char>>(t@),
            Err(e) => assimilate_output_of(
                report.success,
                report.summary@,
                texts(report.steps_completed@),
                match report.module_dir {
                    Some(p) => Some(p@),
                    None => None,
                },
                texts(report.errors@),
            ) == Err::<Seq<char>, Seq<char>>(e@),
        },
{
    if report.success {
        let place = match &report.module_dir {
            Some(p) => p.clone(),
            None => String::new(),
        };
        let steps = join(&report.steps_completed, " → ");
        Ok(
            report.summary.clone().concat("\n  Adımlar: ").concat(steps.as_str()).concat(
                "\n  Modül yolu: ",
            ).concat(place.as_str()),
        )
    } else {
        let steps = join(&report.steps_completed, ", ");
        let errs = join(&report.errors, "; ");
        Err(
            report.summary.clone().concat("\n  Tamamlanan adımlar: ").concat(steps.as_str()).concat(
                "\n  Hatalar: ",
            ).concat(errs.as_str()),
        )
    }
}

/// Whether the security audit warns that the database file is unencrypted.
pub fn unencrypted_db_warning(db_path: &str) -> (r: bool)
    ensures
        r == (has_suffix(db_path@, ".db"@) || has_suffix(db_path@, ".sqlite"@)),
{
    ends_with(db_path, ".db") || ends_with(db_path, ".sqlite")
}

} // verus!
