//! Retrieval answers: the report of what semantic and keyword search found,
//! with each excerpt shortened for display.
use vstd::prelude::*;
use vstd::string::StringSliceAdditionalSpecFns;
use vstd::utf8::{
    decode_utf8, decode_utf8_encode_utf8, encode_utf8, encode_utf8_decode_utf8,
    encode_utf8_valid_utf8, is_ascii_chars, is_ascii_chars_encode_utf8, is_char_boundary,
    valid_utf8_split,
};
use crate::text::same_text;

verus! {

/// `s` cut to its first `max` bytes with "..." appended when it is longer.
pub open spec fn truncated_of(s: Seq<char>, max: nat) -> Seq<char> {
    if encode_utf8(s).len() <= max {
        s
    } else {
        decode_utf8(encode_utf8(s).subrange(0, max as int)) + "..."@
    }
}

/// Whether `s` can be cut after `max` bytes: it is short enough, or byte
/// `max` starts a character.
pub open spec fn cuttable(s: Seq<char>, max: nat) -> bool {
    encode_utf8(s).len() > max ==> is_char_boundary(encode_utf8(s), max as int)
}

/// At most `max` bytes of `s`; a longer text is cut at byte `max` and "..."
/// is appended. The cut must fall on a character boundary.
pub fn truncate(s: &str, max: usize) -> (r: String)
    requires
        s.spec_bytes().len() > max ==> is_char_boundary(s.spec_bytes(), max as int),
    ensures
        r@ == truncated_of(s@, max as nat),
{
    if s.as_bytes().len() <= max {
        s.to_string()
    } else {
        let (head, _) = s.split_at(max);
        let r = head.to_string().concat("...");
        proof {
            encode_utf8_decode_utf8(head@);
        }
        r
    }
}

/// The encoding of joined texts is the joined encodings.
proof fn lemma_encode_concat(a: Seq<char>, b: Seq<char>)
    ensures
        encode_utf8(a + b) == encode_utf8(a) + encode_utf8(b),
    decreases a.len(),
{
    if a.len() == 0 {
        assert(a + b =~= b);
        assert(encode_utf8(a) + encode_utf8(b) =~= encode_utf8(b));
    } else {
        assert((a + b).drop_first() =~= a.drop_first() + b);
        assert((a + b)[0] == a[0]);
        lemma_encode_concat(a.drop_first(), b);
        assert(encode_utf8(a + b) =~= encode_utf8(a) + encode_utf8(b));
    }
}

/// A text longer than `max` bytes is shortened to exactly `max` bytes plus the
/// three bytes of "..."; a shorter one is kept as it is.
pub proof fn lemma_truncated_len(s: Seq<char>, max: nat)
    requires
        cuttable(s, max),
    ensures
        encode_utf8(truncated_of(s, max)).len() <= max + 3,
        encode_utf8(s).len() > max ==> encode_utf8(truncated_of(s, max)).len() == max + 3,
        encode_utf8(s).len() <= max ==> truncated_of(s, max) == s,
{
    let bytes = encode_utf8(s);
    if bytes.len() > max {
        let prefix = bytes.subrange(0, max as int);
        encode_utf8_valid_utf8(s);
        valid_utf8_split(bytes, max as int);
        decode_utf8_encode_utf8(prefix);
        let head = decode_utf8(prefix);
        lemma_encode_concat(head, "..."@);
        reveal_strlit("...");
        assert(is_ascii_chars("..."@));
        is_ascii_chars_encode_utf8("..."@);
    }
}

/// A semantic search hit: category, score already written as a percentage,
/// source and text.
#[derive(Debug)]
pub struct SemanticHit {
    pub category: String,
    pub percent: String,
    pub source: String,
    pub content: String,
}

/// A keyword search hit: category, source and text.
#[derive(Debug)]
pub struct KeywordHit {
    pub category: String,
    pub source: String,
    pub content: String,
}

/// Excerpts show at most this many bytes.
pub const EXCERPT_BYTES: usize = 300;

pub open spec fn semantic_entry(h: SemanticHit) -> Seq<char> {
    "  ["@ + h.category@ + " | "@ + h.percent@ + "%] Kaynak: "@ + h.source@ + "\n  "@
        + truncated_of(h.content@, EXCERPT_BYTES as nat) + "\n\n"@
}

pub open spec fn keyword_entry(h: KeywordHit) -> Seq<char> {
    "  ["@ + h.category@ + "] Kaynak: "@ + h.source@ + "\n  "@ + truncated_of(
        h.content@,
        EXCERPT_BYTES as nat,
    ) + "\n\n"@
}

/// The semantic hits, one entry each.
pub open spec fn semantic_entries(hits: Seq<SemanticHit>) -> Seq<char>
    decreases hits.len(),
{
    if hits.len() == 0 {
        Seq::empty()
    } else {
        semantic_entries(hits.drop_last()) + semantic_entry(hits.last())
    }
}

/// Whether a semantic hit already showed `source`.
pub open spec fn seen_source(seen: Seq<SemanticHit>, source: Seq<char>) -> bool {
    exists|i: int| 0 <= i < seen.len() && (#[trigger] seen[i]).source@ == source
}

/// The keyword hits whose source no semantic hit showed, one entry each.
pub open spec fn keyword_entries(hits: Seq<KeywordHit>, seen: Seq<SemanticHit>) -> Seq<char>
    decreases hits.len(),
{
    if hits.len() == 0 {
        Seq::empty()
    } else {
        keyword_entries(hits.drop_last(), seen) + if seen_source(seen, hits.last().source@) {
            Seq::empty()
        } else {
            keyword_entry(hits.last())
        }
    }
}

/// The report: a section for semantic matches and one for keyword matches
/// (each present when its search found something), or a notice that nothing
/// matched.
pub open spec fn sources_report_of(semantic: Seq<SemanticHit>, keyword: Seq<KeywordHit>) -> Seq<
    char,
> {
    let body = (if semantic.len() > 0 {
        "=== Semantik Eslesmeler ===\n"@ + semantic_entries(semantic)
    } else {
        Seq::empty()
    }) + (if keyword.len() > 0 {
        "=== Anahtar Kelime Eslesmeleri ===\n"@ + keyword_entries(keyword, semantic)
    } else {
        Seq::empty()
    });
    if body.len() == 0 {
        "Eslesen dokuman bulunamadi.\n"@
    } else {
        body
    }
}

fn already_seen(seen: &Vec<SemanticHit>, source: &str) -> (r: bool)
    ensures
        r == seen_source(seen@, source@),
{
    let mut i: usize = 0;
    while i < seen.len()
        invariant
            i <= seen.len(),
            forall|k: int| 0 <= k < i ==> (#[trigger] seen@[k]).source@ != source@,
        decreases seen.len() - i,
    {
        if same_text(seen[i].source.as_str(), source) {
            assert(seen@[i as int].source@ == source@);
            return true;
        }
        i += 1;
    }
    false
}

/// The report on what the searches found for a query.
pub fn sources_report(semantic: &Vec<SemanticHit>, keyword: &Vec<KeywordHit>) -> (r: String)
    requires
        forall|i: int| 0 <= i < semantic@.len() ==> cuttable(#[trigger] semantic@[i].content@, 300),
        forall|i: int| 0 <= i < keyword@.len() ==> cuttable(#[trigger] keyword@[i].content@, 300),
    ensures
        r@ == sources_report_of(semantic@, keyword@),
{
    let mut sem = String::new();
    let mut i: usize = 0;
    while i < semantic.len()
        invariant
            i <= semantic.len(),
            forall|k: int| 0 <= k < semantic@.len() ==> cuttable(#[trigger] semantic@[k].content@, 300),
            sem@ == semantic_entries(semantic@.take(i as int)),
        decreases semantic.len() - i,
    {
        let h = &semantic[i];
        assert(semantic@.take(i as int + 1).drop_last() =~= semantic@.take(i as int));
        assert(cuttable(semantic@[i as int].content@, 300));
        let shown = truncate(h.content.as_str(), EXCERPT_BYTES);
        sem = sem.concat("  [").concat(h.category.as_str()).concat(" | ").concat(h.percent.as_str()).concat(
            "%] Kaynak: ",
        ).concat(h.source.as_str()).concat("\n  ").concat(shown.as_str()).concat("\n\n");
        i += 1;
    }
    assert(semantic@.take(semantic@.len() as int) =~= semantic@);
    let mut kw = String::new();
    let mut j: usize = 0;
    while j < keyword.len()
        invariant
            j <= keyword.len(),
            forall|k: int| 0 <= k < keyword@.len() ==> cuttable(#[trigger] keyword@[k].content@, 300),
            kw@ == keyword_entries(keyword@.take(j as int), semantic@),
        decreases keyword.len() - j,
    {
        let h = &keyword[j];
        assert(keyword@.take(j as int + 1).drop_last() =~= keyword@.take(j as int));
        if !already_seen(semantic, h.source.as_str()) {
            assert(cuttable(keyword@[j as int].content@, 300));
            let shown = truncate(h.content.as_str(), EXCERPT_BYTES);
            kw = kw.concat("  [").concat(h.category.as_str()).concat("] Kaynak: ").concat(
                h.source.as_str(),
            ).concat("\n  ").concat(shown.as_str()).concat("\n\n");
        } else {
            assert(kw@ + Seq::<char>::empty() =~= kw@);
        }
        j += 1;
    }
    assert(keyword@.take(keyword@.len() as int) =~= keyword@);
    let mut report = String::new();
    if semantic.len() > 0 {
        report = report.concat("=== Semantik Eslesmeler ===\n").concat(sem.as_str());
    }
    if keyword.len() > 0 {
        report = report.concat("=== Anahtar Kelime Eslesmeleri ===\n").concat(kw.as_str());
    }
    if report.unicode_len() == 0 {
        report = "Eslesen dokuman bulunamadi.\n".to_string();
    }
    report
}

} // verus!
