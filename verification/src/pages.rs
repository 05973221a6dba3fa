//! Page numbers: the book's page count, as the PDF tool reports it, the size of
//! the sample, and the numbers typed at the prompts.

use crate::error::{BuildError, BuildErrorView};
use crate::number::{parse_i32, parsed_i32};
use crate::text::{trim, trimmed};
use vstd::prelude::*;

verus! {

/// `regex::Error`, why a pattern did not compile. Nothing is read from it.
#[verifier::external_type_specification]
#[verifier::external_body]
pub struct ExPatternError(regex::Error);

/// What the first capture group of the regular expression `pattern` holds in the
/// leftmost match in `haystack`: `None` where nothing in `haystack` matches, or
/// where the match goes without that group.
pub uninterp spec fn first_group(pattern: Seq<char>, haystack: Seq<char>) -> Option<Seq<char>>;

/// Whether the regular expression `pattern` compiles under the regex crate's
/// default limits, on a machine whose words have `word_bits` bits. The width is
/// an argument because the size limit counts bytes, and a compiled state takes
/// more of them where a pointer is wider.
pub uninterp spec fn pattern_compiles(pattern: Seq<char>, word_bits: nat) -> bool;

/// Compiles `pattern` with `regex::Regex::new`, searches `haystack` with
/// `Regex::captures` and hands out the text of group 1 (`Captures::get`,
/// `Match::as_str`). The call fails exactly where the pattern does not compile
/// on this machine, and where it compiles the result is `first_group` of the two
/// texts. Neither call panics, whatever the texts.
#[verifier::external_body]
fn capture_first_group(pattern: &str, haystack: &str) -> (r: Result<Option<String>, regex::Error>)
    ensures
        r is Ok <==> pattern_compiles(pattern@, usize::BITS as nat),
        r matches Ok(found) ==> match found {
            Some(text) => first_group(pattern@, haystack@) == Some(text@),
            None => first_group(pattern@, haystack@) is None,
        },
{
    let re = regex::Regex::new(pattern)?;
    Ok(re.captures(haystack).and_then(|caps| caps.get(1)).map(|m| m.as_str().to_string()))
}

/// The regular expression that finds the page count in the PDF tool's report:
/// the words `Page count:`, any white space, and the digits, which are group 1.
pub open spec fn page_count_pattern() -> Seq<char> {
    "Page count:\\s*(\\d+)"@
}

/// The page count that the captured digits stand for, or the error where nothing
/// was captured or the digits are no 32-bit number.
pub open spec fn page_count_of(found: Option<Seq<char>>) -> Result<i32, BuildErrorView> {
    match found {
        Some(digits) => match parsed_i32(digits) {
            Some(n) => Ok(n),
            None => Err(BuildErrorView::PageCountNotFound),
        },
        None => Err(BuildErrorView::PageCountNotFound),
    }
}

/// The page count that `report` names, as the build finds it on this machine: the
/// count that the pattern captures, or `InvalidPattern` where the pattern itself
/// does not compile.
pub open spec fn page_count_in(report: Seq<char>) -> Result<i32, BuildErrorView> {
    if pattern_compiles(page_count_pattern(), usize::BITS as nat) {
        page_count_of(first_group(page_count_pattern(), report))
    } else {
        Err(BuildErrorView::InvalidPattern)
    }
}

/// The view of a page count or the error in its place.
pub open spec fn outcome_view(r: Result<i32, BuildError>) -> Result<i32, BuildErrorView> {
    match r {
        Ok(n) => Ok(n),
        Err(e) => Err(e@),
    }
}

/// The size of the sample for a book of `page_count` pages: a tenth of the pages,
/// rounded up, and one page at least.
pub open spec fn sample_pages(page_count: int) -> int {
    let tenth = (page_count + 9) / 10;
    if tenth < 1 {
        1
    } else {
        tenth
    }
}

/// The page count that the captured digits stand for. `found` is what the page
/// count pattern captured in the tool's report, `None` where it did not match.
pub fn page_count_from(found: Option<&str>) -> (r: Result<i32, BuildError>)
    ensures
        outcome_view(r) == page_count_of(
            match found {
                Some(digits) => Some(digits@),
                None => None,
            },
        ),
{
    match found {
        Some(digits) => match parse_i32(digits) {
            Some(n) => Ok(n),
            None => Err(BuildError::PageCountNotFound),
        },
        None => Err(BuildError::PageCountNotFound),
    }
}

/// The page count named in `report`, the PDF tool's description of the book:
/// the number after the first `Page count:` that a number follows. Where the
/// pattern compiles, a count is owed whenever the pattern captures digits that
/// are a 32-bit number, and `PageCountNotFound` otherwise; where it does not
/// compile, the result is `InvalidPattern` for every report.
pub fn extract_page_count(report: &str) -> (r: Result<i32, BuildError>)
    ensures
        outcome_view(r) == page_count_in(report@),
{
    match capture_first_group("Page count:\\s*(\\d+)", report) {
        Ok(Some(digits)) => page_count_from(Some(digits.as_str())),
        Ok(None) => page_count_from(None),
        Err(_) => Err(BuildError::InvalidPattern),
    }
}

/// The size of the sample for a book of `page_count` pages: a tenth of the pages,
/// rounded up, and one page at least. It is the least number of pages, from one
/// up, that ten times over covers the book.
pub fn sample_size(page_count: i32) -> (r: i32)
    ensures
        r == sample_pages(page_count as int),
        r >= 1,
        10 * r >= page_count,
        r == 1 || 10 * (r - 1) < page_count,
{
    if page_count <= 10 {
        1
    } else {
        ((page_count as i64 + 9) / 10) as i32
    }
}

/// The page number typed at a prompt: the line without the white space around
/// it, read as a 32-bit integer. The error holds the text that is no such number.
pub fn parse_page_number(line: &str) -> (r: Result<i32, BuildError>)
    ensures
        match r {
            Ok(n) => parsed_i32(trimmed(line@)) == Some(n),
            Err(e) => parsed_i32(trimmed(line@)) is None && e@ == BuildErrorView::InvalidNumber(
                trimmed(line@),
            ),
        },
{
    let text = trim(line);
    match parse_i32(text.as_str()) {
        Some(n) => Ok(n),
        None => Err(BuildError::InvalidNumber(text)),
    }
}

} // verus!
