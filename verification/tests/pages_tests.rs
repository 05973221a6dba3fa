use cookbook_generator::cleanup::{is_result, stale_files};
use cookbook_generator::error::BuildError;
use cookbook_generator::pages::{
    extract_page_count, page_count_from, parse_page_number, sample_size,
};

#[test]
fn sample_sizes_are_a_tenth_rounded_up() {
    assert_eq!(sample_size(1), 1);
    assert_eq!(sample_size(5), 1);
    assert_eq!(sample_size(10), 1);
    assert_eq!(sample_size(11), 2);
    assert_eq!(sample_size(100), 10);
}

#[test]
fn sample_size_at_the_edges() {
    assert_eq!(sample_size(0), 1);
    assert_eq!(sample_size(-5), 1);
    assert_eq!(sample_size(i32::MIN), 1);
    assert_eq!(sample_size(20), 2);
    assert_eq!(sample_size(21), 3);
    assert_eq!(sample_size(99), 10);
    assert_eq!(sample_size(101), 11);
    assert_eq!(sample_size(i32::MAX), 214748365);
}

#[test]
fn page_count_is_read_from_the_report() {
    let report = "build/output.pdf:\n         PDF version: 1.4\n          Page count: 123\n           Page size: 595.00 x 842.00 points\n";
    assert_eq!(extract_page_count(report), Ok(123));
    assert_eq!(extract_page_count("Page count:7"), Ok(7));
    assert_eq!(extract_page_count("Page count: \t\n 42 pages"), Ok(42));
    assert_eq!(extract_page_count("Page count: 0012x"), Ok(12));
}

#[test]
fn first_page_count_with_a_number_counts() {
    assert_eq!(extract_page_count("Page count: none\nPage count: 5\nPage count: 9"), Ok(5));
}

#[test]
fn report_without_page_count_is_an_error() {
    assert_eq!(extract_page_count(""), Err(BuildError::PageCountNotFound));
    assert_eq!(extract_page_count("Pages: 12"), Err(BuildError::PageCountNotFound));
    assert_eq!(extract_page_count("page count: 12"), Err(BuildError::PageCountNotFound));
    assert_eq!(extract_page_count("Page count: -3"), Err(BuildError::PageCountNotFound));
    assert_eq!(extract_page_count("Page count: twelve"), Err(BuildError::PageCountNotFound));
}

#[test]
fn page_count_that_does_not_fit_is_an_error() {
    assert_eq!(extract_page_count("Page count: 2147483647"), Ok(i32::MAX));
    assert_eq!(extract_page_count("Page count: 2147483648"), Err(BuildError::PageCountNotFound));
    assert_eq!(
        extract_page_count("Page count: \u{0661}\u{0662}"),
        Err(BuildError::PageCountNotFound)
    );
}

#[test]
fn page_count_from_captured_digits() {
    assert_eq!(page_count_from(Some("310")), Ok(310));
    assert_eq!(page_count_from(Some("")), Err(BuildError::PageCountNotFound));
    assert_eq!(page_count_from(Some("3x")), Err(BuildError::PageCountNotFound));
    assert_eq!(page_count_from(None), Err(BuildError::PageCountNotFound));
    assert_eq!(
        BuildError::PageCountNotFound.message(),
        "Could not find page count"
    );
}

#[test]
fn typed_page_number_is_trimmed_and_read() {
    assert_eq!(parse_page_number("12\n"), Ok(12));
    assert_eq!(parse_page_number("  7  \r\n"), Ok(7));
    assert_eq!(parse_page_number("-3"), Ok(-3));
    assert_eq!(parse_page_number("+4"), Ok(4));
}

#[test]
fn typed_text_that_is_no_number_is_an_error() {
    assert_eq!(parse_page_number("\n"), Err(BuildError::InvalidNumber("".to_string())));
    assert_eq!(
        parse_page_number(" twelve \n"),
        Err(BuildError::InvalidNumber("twelve".to_string()))
    );
    assert_eq!(parse_page_number("1 2"), Err(BuildError::InvalidNumber("1 2".to_string())));
    assert_eq!(
        BuildError::InvalidNumber("x".to_string()).message(),
        "Invalid page number: x"
    );
}

#[test]
fn the_four_results_are_known_by_name() {
    assert!(is_result("ebook.pdf"));
    assert!(is_result("sample_ebook.pdf"));
    assert!(is_result("ebook_epub3.epub"));
    assert!(is_result("sample_ebook_epub3.epub"));
    assert!(!is_result("ebook.epub"));
    assert!(!is_result("sample_ebook.epub"));
    assert!(!is_result("output.pdf"));
    assert!(!is_result("preface.pdf"));
    assert!(!is_result("Ebook.pdf"));
    assert!(!is_result(""));
}

#[test]
fn cleanup_leaves_exactly_the_four_results() {
    let names: Vec<String> = vec![
        "epub_input.md", "ebook.epub", "ebook_epub3.epub", "sample_epub_input.md",
        "sample_ebook.epub", "sample_ebook_epub3.epub", "pdf_input.md", "preface.epub",
        "output.epub", "preface.pdf", "output.pdf", "output_1-0.pdf", "output_1-12.pdf",
        "output_stamp_1-0.pdf", "ebook.pdf", "sample_ebook.pdf",
    ]
    .into_iter()
    .map(String::from)
    .collect();
    let stale = stale_files(&names);
    assert_eq!(stale, vec![0, 1, 3, 4, 6, 7, 8, 9, 10, 11, 12, 13]);
    let mut left: Vec<String> = Vec::new();
    for (position, name) in names.iter().enumerate() {
        if !stale.contains(&position) {
            left.push(name.clone());
        }
    }
    left.sort();
    assert_eq!(
        left,
        vec!["ebook.pdf", "ebook_epub3.epub", "sample_ebook.pdf", "sample_ebook_epub3.epub"]
    );
}

#[test]
fn cleanup_of_few_or_no_files() {
    assert_eq!(stale_files(&Vec::new()), Vec::<usize>::new());
    assert_eq!(stale_files(&vec!["ebook.pdf".to_string()]), Vec::<usize>::new());
    assert_eq!(stale_files(&vec!["".to_string(), "x".to_string()]), vec![0, 1]);
}
