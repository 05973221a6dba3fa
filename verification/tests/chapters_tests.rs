use cookbook_generator::chapters::{
    combine, is_markdown, select_chapters, ChapterEntry, ChapterRule,
};

fn file(name: &str) -> ChapterEntry {
    ChapterEntry { name: name.to_string(), is_file: true }
}

fn directory(name: &str) -> ChapterEntry {
    ChapterEntry { name: name.to_string(), is_file: false }
}

fn three_chapters() -> Vec<ChapterEntry> {
    vec![file("02_body.md"), file("00_preface.md"), file("01_intro.md")]
}

#[test]
fn all_rule_takes_the_three_chapters_in_order() {
    assert_eq!(
        select_chapters(&three_chapters(), ChapterRule::All),
        vec!["00_preface.md", "01_intro.md", "02_body.md"]
    );
}

#[test]
fn sample_rule_takes_the_first_two_chapters() {
    assert_eq!(
        select_chapters(&three_chapters(), ChapterRule::Sample),
        vec!["00_preface.md", "01_intro.md"]
    );
}

#[test]
fn pdf_rule_leaves_the_preface_out() {
    assert_eq!(
        select_chapters(&three_chapters(), ChapterRule::WithoutPreface),
        vec!["01_intro.md", "02_body.md"]
    );
}

#[test]
fn markdown_extension_is_what_follows_the_last_dot() {
    assert!(is_markdown("a.md"));
    assert!(is_markdown("a.b.md"));
    assert!(is_markdown("..md"));
    assert!(!is_markdown(".md"));
    assert!(!is_markdown("md"));
    assert!(!is_markdown("a.MD"));
    assert!(!is_markdown("a.md.bak"));
    assert!(!is_markdown("a.mdx"));
    assert!(!is_markdown("amd"));
    assert!(!is_markdown(""));
}

#[test]
fn sample_rule_asks_for_prefix_and_extension() {
    assert!(ChapterRule::Sample.accepts("00_preface.md"));
    assert!(ChapterRule::Sample.accepts("01.md"));
    assert!(ChapterRule::Sample.accepts("012_late.md"));
    assert!(!ChapterRule::Sample.accepts("02_body.md"));
    assert!(!ChapterRule::Sample.accepts("10_x.md"));
    assert!(!ChapterRule::Sample.accepts("00_preface.txt"));
    assert!(!ChapterRule::Sample.accepts("a00.md"));
}

#[test]
fn pdf_rule_leaves_out_exactly_the_preface() {
    assert!(!ChapterRule::WithoutPreface.accepts("00_preface.md"));
    assert!(ChapterRule::WithoutPreface.accepts("00_preface2.md"));
    assert!(ChapterRule::WithoutPreface.accepts("00_Preface.md"));
    assert!(ChapterRule::WithoutPreface.accepts("01_intro.md"));
    assert!(!ChapterRule::WithoutPreface.accepts("01_intro.txt"));
    assert!(ChapterRule::All.accepts("00_preface.md"));
    assert!(!ChapterRule::All.accepts("notes.txt"));
}

#[test]
fn only_regular_files_are_chapters() {
    let entries = vec![directory("03_dir.md"), file("01_a.md"), directory("images"), file("x.png")];
    assert_eq!(select_chapters(&entries, ChapterRule::All), vec!["01_a.md"]);
    assert_eq!(select_chapters(&Vec::new(), ChapterRule::All), Vec::<String>::new());
}

#[test]
fn listing_order_plays_no_part() {
    let forward = vec![file("a.md"), file("b.md"), file("c.md"), file("10.md"), file("9.md")];
    let mut backward = forward.clone();
    backward.reverse();
    let expected = vec!["10.md", "9.md", "a.md", "b.md", "c.md"];
    assert_eq!(select_chapters(&forward, ChapterRule::All), expected);
    assert_eq!(select_chapters(&backward, ChapterRule::All), expected);
}

#[test]
fn order_is_by_code_point() {
    let entries = vec![file("b.md"), file("B.md"), file("a.md"), file("\u{0e01}.md"), file("_.md")];
    assert_eq!(
        select_chapters(&entries, ChapterRule::All),
        vec!["B.md", "_.md", "a.md", "b.md", "\u{0e01}.md"]
    );
}

#[test]
fn a_name_listed_twice_is_read_twice() {
    let entries = vec![file("b.md"), file("a.md"), file("b.md")];
    assert_eq!(select_chapters(&entries, ChapterRule::All), vec!["a.md", "b.md", "b.md"]);
}

#[test]
fn combine_frames_each_text_with_empty_lines() {
    let texts = vec!["# One".to_string(), "# Two\n".to_string()];
    assert_eq!(combine(&texts), "\n# One\n\n\n# Two\n\n\n");
    assert_eq!(combine(&vec!["x".to_string()]), "\nx\n\n");
    assert_eq!(combine(&vec!["".to_string()]), "\n\n\n");
    assert_eq!(combine(&Vec::new()), "");
}

#[test]
fn same_sources_give_the_same_book() {
    let texts = vec!["a".to_string(), "b".to_string()];
    assert_eq!(combine(&texts), combine(&texts.clone()));
    assert_eq!(
        select_chapters(&three_chapters(), ChapterRule::All),
        select_chapters(&three_chapters(), ChapterRule::All)
    );
}
