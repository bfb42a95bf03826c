//! Speech-to-text: engines are tried in order until one recognises speech.
use vstd::prelude::*;

verus! {

/// A speech recogniser.
pub trait SttEngine {
    /// The text heard in `samples`, if any.
    fn transcribe(&self, samples: &[i16]) -> Option<String>;
}

/// The text of a transcription, if there is one.
pub open spec fn heard_text(t: Option<String>) -> Option<Seq<char>> {
    match t {
        Some(s) => Some(s@),
        None => None,
    }
}

/// The answers of a chain of engines, as texts.
pub open spec fn answer_texts(answers: Seq<Option<String>>) -> Seq<Option<Seq<char>>> {
    answers.map_values(|a: Option<String>| heard_text(a))
}

/// Whether `r` is the first text among `answers`: the earliest answer that is
/// `Some`, or `None` when every answer is `None`.
pub open spec fn first_answer(answers: Seq<Option<Seq<char>>>, r: Option<Seq<char>>) -> bool {
    match r {
        Some(t) => exists|k: int|
            0 <= k < answers.len() && answers[k] == Some(t) && forall|j: int|
                0 <= j < k ==> (#[trigger] answers[j]) is None,
        None => forall|j: int| 0 <= j < answers.len() ==> (#[trigger] answers[j]) is None,
    }
}

/// The first text among the engines' answers, taken in order.
pub fn first_heard(answers: Vec<Option<String>>) -> (r: Option<String>)
    ensures
        first_answer(answer_texts(answers@), heard_text(r)),
{
    let ghost a = answer_texts(answers@);
    let mut i: usize = 0;
    while i < answers.len()
        invariant
            a == answer_texts(answers@),
            i <= answers.len(),
            forall|j: int| 0 <= j < i ==> (#[trigger] a[j]) is None,
        decreases answers.len() - i,
    {
        match &answers[i] {
            Some(t) => {
                let found = t.clone();
                assert(a[i as int] == Some(found@));
                assert(first_answer(a, Some(found@)));
                return Some(found);
            },
            None => {
                assert(a[i as int] is None);
            },
        }
        i += 1;
    }
    None
}

/// Tries each engine in turn.
pub struct SttFallback {
    engines: Vec<Box<dyn SttEngine>>,
}

impl SttFallback {
    /// The engines, first tried first.
    pub closed spec fn engines_view(&self) -> Seq<Box<dyn SttEngine>> {
        self.engines@
    }

    pub open spec fn engine_count(&self) -> nat {
        self.engines_view().len()
    }

    /// A fallback chain over `engines`, first engine first.
    pub fn new(engines: Vec<Box<dyn SttEngine>>) -> (r: Self)
        ensures
            r.engines_view() == engines@,
    {
        SttFallback { engines }
    }

    /// Hands `samples` to each engine in order, stopping at the first that
    /// hears something, and returns that text (`first_heard` of the answers
    /// gathered); `None` when every engine, or the empty chain, hears nothing.
    pub fn transcribe(&self, samples: &[i16]) -> (r: Option<String>)
        ensures
            exists|answers: Seq<Option<Seq<char>>>|
                {
                    &&& answers.len() <= self.engine_count()
                    &&& first_answer(answers, heard_text(r))
                    &&& answers.len() < self.engine_count() ==> r is Some
                },
            r is Some ==> self.engine_count() > 0,
    {
        let mut answers: Vec<Option<String>> = Vec::new();
        let mut i: usize = 0;
        while i < self.engines.len()
            invariant_except_break
                i <= self.engines.len(),
                answers@.len() == i,
            ensures
                answers@.len() <= self.engines@.len(),
                answers@.len() < self.engines@.len() ==> answers@.len() > 0 && answers@[answers@.len()
                    - 1] is Some,
            decreases self.engines.len() - i,
        {
            let t = self.engines[i].transcribe(samples);
            let heard = t.is_some();
            answers.push(t);
            if heard {
                break;
            }
            i += 1;
        }
        let ghost seen = answer_texts(answers@);
        let r = first_heard(answers);
        proof {
            if seen.len() < self.engine_count() {
                assert(seen[seen.len() - 1] is Some);
            }
        }
        r
    }
}

} // verus!
