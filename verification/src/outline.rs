//! The outline of a report: which sections a job of a given depth has, and
//! in what order.

use vstd::prelude::*;
use crate::decimal::{decimal, i32_to_string, lemma_decimal_nat_injective};

verus! {

/// Largest number of numbered chapters an outline may hold.
pub const MAX_CHAPTERS: i32 = 12;

/// Number of numbered chapters for a research depth: six at depth one, two
/// more for each further unit of depth, never more than twelve. A depth so
/// low that the formula turns negative gives no chapters.
pub open spec fn chapter_count(depth: int) -> int {
    let wanted = 6 + 2 * (depth - 1);
    if wanted > 12 {
        12
    } else if wanted < 0 {
        0
    } else {
        wanted
    }
}

/// Key of the `i`-th numbered chapter.
pub open spec fn chapter_key(i: int) -> Seq<char> {
    "topic_chapter_"@ + decimal(i)
}

/// Title of the `i`-th numbered chapter.
pub open spec fn chapter_title(i: int) -> Seq<char> {
    "Topic-Specific Chapter "@ + decimal(i)
}

/// The `n` numbered chapters, counted from one.
pub open spec fn chapters(n: int) -> Seq<(Seq<char>, Seq<char>)> {
    Seq::new(n as nat, |i: int| (chapter_key(i + 1), chapter_title(i + 1)))
}

/// The two sections that open every report.
pub open spec fn leading_sections() -> Seq<(Seq<char>, Seq<char>)> {
    seq![("executive_summary"@, "Executive Summary"@), ("introduction"@, "Introduction"@)]
}

/// The two sections that close every report.
pub open spec fn trailing_sections() -> Seq<(Seq<char>, Seq<char>)> {
    seq![("annexures"@, "Annexures"@), ("references"@, "References"@)]
}

/// The outline of a report of the given depth: pairs of key and title, in
/// the order of the report.
pub open spec fn outline(depth: int) -> Seq<(Seq<char>, Seq<char>)> {
    leading_sections() + chapters(chapter_count(depth)) + trailing_sections()
}

/// The views of a vector of outline entries.
pub open spec fn entry_views(v: Seq<(String, String)>) -> Seq<(Seq<char>, Seq<char>)> {
    Seq::new(v.len(), |i: int| (v[i].0@, v[i].1@))
}

/// A report of depth one or more has its four fixed sections and
/// min(6 + 2 (depth - 1), 12) numbered chapters.
pub proof fn lemma_section_count(depth: int)
    requires
        depth >= 1,
    ensures
        outline(depth).len() == 4 + if 6 + 2 * (depth - 1) < 12 {
            6 + 2 * (depth - 1)
        } else {
            12
        },
        10 <= outline(depth).len() <= 16,
{
}

/// Different chapter numbers give different chapter keys.
pub proof fn lemma_chapter_keys_differ(a: int, b: int)
    requires
        0 <= a,
        0 <= b,
        a != b,
    ensures
        chapter_key(a) != chapter_key(b),
{
    if chapter_key(a) == chapter_key(b) {
        let prefix = "topic_chapter_"@;
        assert(chapter_key(a).skip(prefix.len() as int) == decimal(a));
        assert(chapter_key(b).skip(prefix.len() as int) == decimal(b));
        lemma_decimal_nat_injective(a as nat, b as nat);
    }
}

/// No two sections of an outline share a key.
pub proof fn lemma_outline_keys_distinct(depth: int, i: int, j: int)
    requires
        0 <= i < j < outline(depth).len(),
    ensures
        outline(depth)[i].0 != outline(depth)[j].0,
{
    reveal_strlit("executive_summary");
    reveal_strlit("introduction");
    reveal_strlit("annexures");
    reveal_strlit("references");
    reveal_strlit("topic_chapter_");
    let n = chapter_count(depth);
    let o = outline(depth);
    assert(o[0].0 == "executive_summary"@);
    assert(o[1].0 == "introduction"@);
    assert(o[2 + n].0 == "annexures"@);
    assert(o[3 + n].0 == "references"@);
    assert(o[0].0[0] == 'e');
    assert(o[1].0[0] == 'i');
    assert(o[2 + n].0[0] == 'a');
    assert(o[3 + n].0[0] == 'r');
    if 2 <= i < 2 + n {
        assert(o[i].0 == chapter_key(i - 1));
        assert(o[i].0[0] == 't');
    }
    if 2 <= j < 2 + n {
        assert(o[j].0 == chapter_key(j - 1));
        assert(o[j].0[0] == 't');
    }
    if 2 <= i && j < 2 + n {
        lemma_chapter_keys_differ(i - 1, j - 1);
    }
}

/// Computes [`chapter_count`] without overflow for every `i32` depth.
pub fn num_chapters(depth: i32) -> (n: i32)
    ensures
        n == chapter_count(depth as int),
        0 <= n <= MAX_CHAPTERS,
{
    if depth >= 4 {
        12
    } else if depth <= -2 {
        0
    } else {
        6 + 2 * (depth - 1)
    }
}

/// Computes the outline of a report of the given depth. The topic has no
/// part in it.
pub fn generate_outline(depth: i32) -> (entries: Vec<(String, String)>)
    ensures
        entry_views(entries@) == outline(depth as int),
        entries.len() == 4 + chapter_count(depth as int),
{
    let n = num_chapters(depth);
    let mut entries: Vec<(String, String)> = Vec::new();
    entries.push(("executive_summary".to_string(), "Executive Summary".to_string()));
    entries.push(("introduction".to_string(), "Introduction".to_string()));
    assert(entry_views(entries@) == leading_sections());
    let mut i: i32 = 1;
    while i <= n
        invariant
            1 <= i <= n + 1,
            n <= MAX_CHAPTERS,
            entries.len() == 2 + (i - 1),
            entry_views(entries@) == leading_sections() + chapters(i - 1),
        decreases n + 1 - i,
    {
        let number = i32_to_string(i);
        let mut key = "topic_chapter_".to_string();
        key.append(number.as_str());
        let mut title = "Topic-Specific Chapter ".to_string();
        title.append(number.as_str());
        let ghost before = entries@;
        entries.push((key, title));
        assert(entry_views(entries@) == leading_sections() + chapters(i as int)) by {
            let entry = (chapter_key(i as int), chapter_title(i as int));
            assert(entry_views(entries@) == entry_views(before).push(entry));
            assert(chapters(i as int) == chapters(i - 1).push(entry));
            assert((leading_sections() + chapters(i - 1)).push(entry) == leading_sections()
                + chapters(i - 1).push(entry));
        }
        i += 1;
    }
    entries.push(("annexures".to_string(), "Annexures".to_string()));
    entries.push(("references".to_string(), "References".to_string()));
    assert(entry_views(entries@) == outline(depth as int));
    entries
}

} // verus!
