use research_jobs::outline::{generate_outline, num_chapters};

fn keys(depth: i32) -> Vec<String> {
    generate_outline(depth).into_iter().map(|(key, _)| key).collect()
}

#[test]
fn section_count_follows_depth() {
    assert_eq!(generate_outline(1).len(), 10);
    assert_eq!(generate_outline(2).len(), 12);
    assert_eq!(generate_outline(3).len(), 14);
    assert_eq!(generate_outline(4).len(), 16);
    assert_eq!(generate_outline(5).len(), 16);
}

#[test]
fn section_count_is_capped_beyond_the_intended_range() {
    assert_eq!(generate_outline(6).len(), 16);
    assert_eq!(generate_outline(1000).len(), 16);
    assert_eq!(generate_outline(i32::MAX).len(), 16);
}

#[test]
fn low_depths_give_few_or_no_chapters() {
    assert_eq!(num_chapters(0), 4);
    assert_eq!(num_chapters(-1), 2);
    assert_eq!(num_chapters(-2), 0);
    assert_eq!(num_chapters(-3), 0);
    assert_eq!(num_chapters(i32::MIN), 0);
    assert_eq!(generate_outline(0).len(), 8);
    assert_eq!(generate_outline(-2).len(), 4);
    assert_eq!(generate_outline(i32::MIN).len(), 4);
    assert_eq!(keys(-5), vec!["executive_summary", "introduction", "annexures", "references"]);
}

#[test]
fn chapter_count_formula() {
    for depth in 1..=5 {
        let expected = std::cmp::min(6 + (depth - 1) * 2, 12);
        assert_eq!(num_chapters(depth), expected);
        assert_eq!(generate_outline(depth).len() as i32, 4 + expected);
    }
}

#[test]
fn outline_of_depth_one_in_full() {
    let outline = generate_outline(1);
    let expected = vec![
        ("executive_summary", "Executive Summary"),
        ("introduction", "Introduction"),
        ("topic_chapter_1", "Topic-Specific Chapter 1"),
        ("topic_chapter_2", "Topic-Specific Chapter 2"),
        ("topic_chapter_3", "Topic-Specific Chapter 3"),
        ("topic_chapter_4", "Topic-Specific Chapter 4"),
        ("topic_chapter_5", "Topic-Specific Chapter 5"),
        ("topic_chapter_6", "Topic-Specific Chapter 6"),
        ("annexures", "Annexures"),
        ("references", "References"),
    ];
    assert_eq!(outline.len(), expected.len());
    for (got, want) in outline.iter().zip(expected.iter()) {
        assert_eq!(got.0, want.0);
        assert_eq!(got.1, want.1);
    }
}

#[test]
fn outline_of_the_deepest_report_has_twelve_chapters() {
    let outline = generate_outline(5);
    assert_eq!(outline[13].0, "topic_chapter_12");
    assert_eq!(outline[13].1, "Topic-Specific Chapter 12");
    assert_eq!(outline[14].0, "annexures");
    assert_eq!(outline[15].0, "references");
}

#[test]
fn outline_keys_are_distinct() {
    for depth in -3..8 {
        let mut k = keys(depth);
        let n = k.len();
        k.sort();
        k.dedup();
        assert_eq!(k.len(), n);
    }
}
