//! The market analyst's verified parts: the tasks it handles, the symbol a
//! task names, trade sides and timestamps (its indicators work on floating
//! point).
use vstd::prelude::*;
use vstd::utf8::encode_utf8;
use crate::text::{chars_of, contains, has_sub, split_words, string_from_chars, words_of};

pub mod paper;

verus! {

/// Tasks about crypto markets, exchanges, analyses or signals.
pub open spec fn market_task(task: Seq<char>) -> bool {
    has_sub(task, "kripto"@) || has_sub(task, "borsa"@) || has_sub(task, "piyasa"@) || has_sub(
        task,
        "analiz"@,
    ) || has_sub(task, "sinyal"@)
}

/// Whether the market analyst handles `task`.
pub fn is_market_task(task: &str) -> (r: bool)
    ensures
        r == market_task(task@),
{
    contains(task, "kripto") || contains(task, "borsa") || contains(task, "piyasa") || contains(
        task,
        "analiz",
    ) || contains(task, "sinyal")
}

/// The result of `char::is_uppercase`.
pub uninterp spec fn upper_char(c: char) -> bool;

/// The result of `char::is_alphanumeric`.
pub uninterp spec fn alnum_char(c: char) -> bool;

/// The result of `str::to_uppercase` on the given characters.
pub uninterp spec fn uppercase_of(s: Seq<char>) -> Seq<char>;

/// Calls `char::is_uppercase` (the Unicode `Uppercase` property), named
/// `upper_char`.
#[verifier::external_body]
fn is_upper(c: char) -> (r: bool)
    ensures
        r == upper_char(c),
{
    c.is_uppercase()
}

/// Calls `char::is_alphanumeric` (Unicode `Alphabetic` or `Numeric`), named
/// `alnum_char`.
#[verifier::external_body]
fn is_alnum(c: char) -> (r: bool)
    ensures
        r == alnum_char(c),
{
    c.is_alphanumeric()
}

/// Calls `str::to_uppercase`; its Unicode case mapping is named `uppercase_of`.
#[verifier::external_body]
fn to_uppercase(s: &str) -> (r: String)
    ensures
        r@ == uppercase_of(s@),
{
    s.to_uppercase()
}

/// A word that can be a ticker: at most ten bytes, every character an
/// upper-case letter or digit by both Unicode properties.
pub open spec fn ticker_word(w: Seq<char>) -> bool {
    encode_utf8(w).len() <= 10 && forall|i: int|
        0 <= i < w.len() ==> alnum_char(#[trigger] w[i]) && upper_char(w[i])
}

/// The first ticker word, if any.
pub open spec fn first_ticker(ws: Seq<Seq<char>>) -> Option<Seq<char>>
    decreases ws.len(),
{
    if ws.len() == 0 {
        None
    } else if ticker_word(ws[0]) {
        Some(ws[0])
    } else {
        first_ticker(ws.drop_first())
    }
}

/// The symbol a task asks about: its first ticker word, "BTC" when there is
/// none, upper-cased.
pub open spec fn market_symbol_of(task: Seq<char>) -> Seq<char> {
    uppercase_of(
        match first_ticker(words_of(task)) {
            Some(w) => w,
            None => "BTC"@,
        },
    )
}

fn is_ticker(w: &Vec<char>) -> (r: bool)
    ensures
        r == ticker_word(w@),
{
    let s = string_from_chars(w);
    if s.as_str().as_bytes().len() > 10 {
        return false;
    }
    let mut i: usize = 0;
    while i < w.len()
        invariant
            i <= w.len(),
            forall|k: int| 0 <= k < i ==> alnum_char(#[trigger] w@[k]) && upper_char(w@[k]),
        decreases w.len() - i,
    {
        if !(is_alnum(w[i]) && is_upper(w[i])) {
            return false;
        }
        i += 1;
    }
    true
}

/// The symbol `task` asks about.
pub fn market_symbol(task: &str) -> (r: String)
    ensures
        r@ == market_symbol_of(task@),
{
    let v = chars_of(task);
    let ws = split_words(&v);
    let ghost wv = ws.deep_view();
    let mut i: usize = 0;
    assert(wv.skip(0) =~= wv);
    while i < ws.len()
        invariant
            i <= ws.len(),
            wv == ws.deep_view(),
            wv == words_of(task@),
            first_ticker(wv) == first_ticker(wv.skip(i as int)),
        decreases ws.len() - i,
    {
        assert(wv[i as int] == ws[i as int]@);
        assert(wv.skip(i as int)[0] == wv[i as int]);
        if is_ticker(&ws[i]) {
            let w = string_from_chars(&ws[i]);
            return to_uppercase(w.as_str());
        }
        assert(wv.skip(i as int).drop_first() =~= wv.skip(i as int + 1));
        i += 1;
    }
    assert(wv.skip(i as int) =~= Seq::<Seq<char>>::empty());
    to_uppercase("BTC")
}

} // verus!
