//! The command lines of the build: each call of the three outside tools, word
//! for word.
//!
//! `pandoc` turns markdown into EPUB, `ebook-convert` turns EPUB into EPUB 3 and
//! into PDF, and `pdfcpu` counts, splits, stamps, merges and trims PDF files.

use crate::command::{Command, CommandView};
use crate::config::Config;
use crate::error::{BuildError, BuildErrorView};
use crate::number::{decimal, format_int};
use crate::pages::{sample_pages, sample_size};
use vstd::prelude::*;

verus! {

/// How the PDF files are rendered: fonts, margins and paper, and the title of the
/// table of contents.
#[derive(Debug, Clone, PartialEq, Eq)]
pub struct PdfSettings {
    pub sans_family: String,
    pub mono_family: String,
    pub standard_font: String,
    pub default_font_size: String,
    pub mono_font_size: String,
    pub margin_left: String,
    pub margin_right: String,
    pub margin_top: String,
    pub margin_bottom: String,
    pub paper_size: String,
    pub toc_title: String,
}

/// `PdfSettings` with its texts as character sequences.
pub struct PdfSettingsView {
    pub sans_family: Seq<char>,
    pub mono_family: Seq<char>,
    pub standard_font: Seq<char>,
    pub default_font_size: Seq<char>,
    pub mono_font_size: Seq<char>,
    pub margin_left: Seq<char>,
    pub margin_right: Seq<char>,
    pub margin_top: Seq<char>,
    pub margin_bottom: Seq<char>,
    pub paper_size: Seq<char>,
    pub toc_title: Seq<char>,
}

impl View for PdfSettings {
    type V = PdfSettingsView;

    open spec fn view(&self) -> PdfSettingsView {
        PdfSettingsView {
            sans_family: self.sans_family@,
            mono_family: self.mono_family@,
            standard_font: self.standard_font@,
            default_font_size: self.default_font_size@,
            mono_font_size: self.mono_font_size@,
            margin_left: self.margin_left@,
            margin_right: self.margin_right@,
            margin_top: self.margin_top@,
            margin_bottom: self.margin_bottom@,
            paper_size: self.paper_size@,
            toc_title: self.toc_title@,
        }
    }
}

/// The keys that a configuration must have, in the order in which they are
/// looked up.
pub open spec fn required_keys() -> Seq<Seq<char>> {
    seq![
        "pdf_sans_family"@,
        "pdf_mono_family"@,
        "pdf_standard_font"@,
        "pdf_default_font_size"@,
        "pdf_mono_font_size"@,
        "pdf_page_margin_left"@,
        "pdf_page_margin_right"@,
        "pdf_page_margin_top"@,
        "pdf_page_margin_bottom"@,
        "paper_size"@,
        "pdf_toc_title"@,
    ]
}

/// The first of `keys` that `config` has no entry for.
pub open spec fn first_missing(config: Map<Seq<char>, Seq<char>>, keys: Seq<Seq<char>>) -> Option<
    Seq<char>,
>
    decreases keys.len(),
{
    if keys.len() == 0 {
        None
    } else if !config.contains_key(keys[0]) {
        Some(keys[0])
    } else {
        first_missing(config, keys.drop_first())
    }
}

/// The required key that `config` lacks, the first of them in the order of
/// lookup; `None` where it has them all.
pub open spec fn missing_key(config: Map<Seq<char>, Seq<char>>) -> Option<Seq<char>> {
    first_missing(config, required_keys())
}

/// The settings that `config` holds, for a `config` with every required key.
pub open spec fn settings_of(config: Map<Seq<char>, Seq<char>>) -> PdfSettingsView {
    PdfSettingsView {
        sans_family: config["pdf_sans_family"@],
        mono_family: config["pdf_mono_family"@],
        standard_font: config["pdf_standard_font"@],
        default_font_size: config["pdf_default_font_size"@],
        mono_font_size: config["pdf_mono_font_size"@],
        margin_left: config["pdf_page_margin_left"@],
        margin_right: config["pdf_page_margin_right"@],
        margin_top: config["pdf_page_margin_top"@],
        margin_bottom: config["pdf_page_margin_bottom"@],
        paper_size: config["paper_size"@],
        toc_title: config["pdf_toc_title"@],
    }
}

/// The settings that `config` holds, or the error for the required key that it
/// lacks.
pub open spec fn settings_or_error(config: Map<Seq<char>, Seq<char>>) -> Result<
    PdfSettingsView,
    BuildErrorView,
> {
    match missing_key(config) {
        Some(key) => Err(BuildErrorView::MissingKey(key)),
        None => Ok(settings_of(config)),
    }
}

/// A call of `program` with `args`.
pub open spec fn call(program: Seq<char>, args: Seq<Seq<char>>) -> CommandView {
    CommandView { program, args }
}

/// Markdown to EPUB, for the whole book.
pub open spec fn epub_book() -> CommandView {
    call(
        "pandoc"@,
        seq![
            "-o"@,
            "build/ebook.epub"@,
            "--top-level-division=chapter"@,
            "--epub-cover-image=images/cover.png"@,
            "--css=epub.css"@,
            "-i"@,
            "epub.yaml"@,
            "build/epub_input.md"@,
        ],
    )
}

/// EPUB to EPUB 3, for the whole book.
pub open spec fn epub3_book() -> CommandView {
    call(
        "ebook-convert"@,
        seq![
            "build/ebook.epub"@,
            "build/ebook_epub3.epub"@,
            "--epub-version"@,
            "3"@,
            "--embed-all-fonts"@,
        ],
    )
}

/// Markdown to EPUB, for the sample.
pub open spec fn epub_sample() -> CommandView {
    call(
        "pandoc"@,
        seq![
            "-o"@,
            "build/sample_ebook.epub"@,
            "--top-level-division=chapter"@,
            "--epub-cover-image=images/cover.png"@,
            "--css=epub.css"@,
            "-i"@,
            "epub.yaml"@,
            "build/sample_epub_input.md"@,
        ],
    )
}

/// EPUB to EPUB 3, for the sample.
pub open spec fn epub3_sample() -> CommandView {
    call(
        "ebook-convert"@,
        seq![
            "build/sample_ebook.epub"@,
            "build/sample_ebook_epub3.epub"@,
            "--epub-version"@,
            "3"@,
            "--embed-all-fonts"@,
        ],
    )
}

/// Markdown to EPUB, for the preface alone.
pub open spec fn epub_preface() -> CommandView {
    call(
        "pandoc"@,
        seq![
            "-o"@,
            "build/preface.epub"@,
            "--top-level-division=chapter"@,
            "--css=epub.css"@,
            "-i"@,
            "epub.yaml"@,
            "chapters/00_preface.md"@,
        ],
    )
}

/// Markdown to EPUB, for the chapters after the preface.
pub open spec fn epub_body() -> CommandView {
    call(
        "pandoc"@,
        seq![
            "-o"@,
            "build/output.epub"@,
            "--top-level-division=chapter"@,
            "--css=epub.css"@,
            "build/pdf_input.md"@,
        ],
    )
}

/// The options that every conversion to PDF ends with: paper, fonts and margins.
pub open spec fn pdf_options(s: PdfSettingsView) -> Seq<Seq<char>> {
    seq![
        "--paper-size"@,
        s.paper_size,
        "--embed-all-fonts"@,
        "--pdf-sans-family"@,
        s.sans_family,
        "--pdf-mono-family"@,
        s.mono_family,
        "--pdf-standard-font"@,
        s.standard_font,
        "--pdf-default-font-size"@,
        s.default_font_size,
        "--pdf-mono-font-size"@,
        s.mono_font_size,
        "--pdf-page-margin-left"@,
        s.margin_left,
        "--pdf-page-margin-right"@,
        s.margin_right,
        "--pdf-page-margin-top"@,
        s.margin_top,
        "--pdf-page-margin-bottom"@,
        s.margin_bottom,
    ]
}

/// EPUB to PDF, for the preface.
pub open spec fn pdf_preface(s: PdfSettingsView) -> CommandView {
    call(
        "ebook-convert"@,
        seq![
            "build/preface.epub"@,
            "build/preface.pdf"@,
            "--extra-css"@,
            "calibre_extra_css.css"@,
            "--filter-css"@,
            "--insert-blank-line"@,
        ] + pdf_options(s),
    )
}

/// EPUB to PDF, for the chapters after the preface, with a table of contents.
pub open spec fn pdf_body(s: PdfSettingsView) -> CommandView {
    call(
        "ebook-convert"@,
        seq![
            "build/output.epub"@,
            "build/output.pdf"@,
            "--extra-css"@,
            "calibre_extra_css.css"@,
            "--filter-css"@,
            "--insert-blank-line"@,
            "--pdf-add-toc"@,
            "--toc-title"@,
            s.toc_title,
        ] + pdf_options(s),
    )
}

/// The PDF tool's report on the chapters' PDF, which names its page count.
pub open spec fn page_report() -> CommandView {
    call("pdfcpu"@, seq!["info"@, "build/output.pdf"@])
}

/// Splits the chapters' PDF in two before page `split_page`.
pub open spec fn split(split_page: int) -> CommandView {
    call(
        "pdfcpu"@,
        seq!["split"@, "-m"@, "page"@, "build/output.pdf"@, "build/"@, decimal(split_page)],
    )
}

/// The first part of the split: pages 1 to `split_page - 1`.
pub open spec fn first_part(split_page: int) -> Seq<char> {
    "build/output_1-"@ + decimal(split_page - 1) + ".pdf"@
}

/// The first part of the split with its page numbers stamped on.
pub open spec fn stamped_part(split_page: int) -> Seq<char> {
    "build/output_stamp_1-"@ + decimal(split_page - 1) + ".pdf"@
}

/// The second part of the split: pages `split_page` to `page_count`.
pub open spec fn second_part(split_page: int, page_count: int) -> Seq<char> {
    "build/output_"@ + decimal(split_page) + "-"@ + decimal(page_count) + ".pdf"@
}

/// Stamps each page of the first part with its number, at the bottom right.
pub open spec fn stamp(split_page: int) -> CommandView {
    call(
        "pdfcpu"@,
        seq![
            "stamp"@,
            "add"@,
            "-mode"@,
            "text"@,
            "--"@,
            "%p"@,
            "points:14,scale:1.0 abs,pos:br,rot:0,ma:60"@,
            first_part(split_page),
            stamped_part(split_page),
        ],
    )
}

/// Merges the book: cover, preface, second part, stamped first part, back cover.
pub open spec fn merge(split_page: int, page_count: int) -> CommandView {
    call(
        "pdfcpu"@,
        seq![
            "merge"@,
            "build/ebook.pdf"@,
            "images/cover.pdf"@,
            "build/preface.pdf"@,
            second_part(split_page, page_count),
            stamped_part(split_page),
            "images/back_cover.pdf"@,
        ],
    )
}

/// Takes page `page` out of the merged book, in place.
pub open spec fn remove_page(page: int) -> CommandView {
    call("pdfcpu"@, seq!["pages"@, "rem"@, "-pages"@, decimal(page), "build/ebook.pdf"@])
}

/// The pages of the sample, as a range from page 1.
pub open spec fn sample_range(page_count: int) -> Seq<char> {
    "1-"@ + decimal(sample_pages(page_count))
}

/// Cuts the sample out of the merged book: its first pages.
pub open spec fn trim_sample(page_count: int) -> CommandView {
    call(
        "pdfcpu"@,
        seq![
            "trim"@,
            "-pages"@,
            sample_range(page_count),
            "build/ebook.pdf"@,
            "build/sample_ebook.pdf"@,
        ],
    )
}

/// Appends `word` to `args`.
fn push_word(args: &mut Vec<String>, word: &str)
    ensures
        final(args).deep_view() == old(args).deep_view().push(word@),
{
    let ghost before = args.deep_view();
    args.push(String::from_str(word));
    assert(args.deep_view() =~= before.push(word@));
}

/// The value under `key`, copied out.
fn lookup(config: &Config, key: &str) -> (r: Result<String, BuildError>)
    ensures
        match r {
            Ok(value) => config@.contains_key(key@) && value@ == config@[key@],
            Err(e) => !config@.contains_key(key@) && e@ == BuildErrorView::MissingKey(key@),
        },
{
    match config.get(key) {
        Ok(value) => Ok(value.clone()),
        Err(e) => Err(e),
    }
}

impl PdfSettings {
    /// The settings that `config` holds. Every required key is looked up, in the
    /// order of `required_keys`; the first that is missing gives the error.
    pub fn from_config(config: &Config) -> (r: Result<PdfSettings, BuildError>)
        ensures
            match r {
                Ok(settings) => settings_or_error(config@) == Ok::<
                    PdfSettingsView,
                    BuildErrorView,
                >(settings@),
                Err(e) => settings_or_error(config@) == Err::<PdfSettingsView, BuildErrorView>(
                    e@,
                ),
            },
    {
        proof {
            reveal_with_fuel(first_missing, 12);
        }
        let sans_family = match lookup(config, "pdf_sans_family") {
            Ok(value) => value,
            Err(e) => {
                return Err(e);
            },
        };
        let mono_family = match lookup(config, "pdf_mono_family") {
            Ok(value) => value,
            Err(e) => {
                return Err(e);
            },
        };
        let standard_font = match lookup(config, "pdf_standard_font") {
            Ok(value) => value,
            Err(e) => {
                return Err(e);
            },
        };
        let default_font_size = match lookup(config, "pdf_default_font_size") {
            Ok(value) => value,
            Err(e) => {
                return Err(e);
            },
        };
        let mono_font_size = match lookup(config, "pdf_mono_font_size") {
            Ok(value) => value,
            Err(e) => {
                return Err(e);
            },
        };
        let margin_left = match lookup(config, "pdf_page_margin_left") {
            Ok(value) => value,
            Err(e) => {
                return Err(e);
            },
        };
        let margin_right = match lookup(config, "pdf_page_margin_right") {
            Ok(value) => value,
            Err(e) => {
                return Err(e);
            },
        };
        let margin_top = match lookup(config, "pdf_page_margin_top") {
            Ok(value) => value,
            Err(e) => {
                return Err(e);
            },
        };
        let margin_bottom = match lookup(config, "pdf_page_margin_bottom") {
            Ok(value) => value,
            Err(e) => {
                return Err(e);
            },
        };
        let paper_size = match lookup(config, "paper_size") {
            Ok(value) => value,
            Err(e) => {
                return Err(e);
            },
        };
        let toc_title = match lookup(config, "pdf_toc_title") {
            Ok(value) => value,
            Err(e) => {
                return Err(e);
            },
        };
        Ok(
            PdfSettings {
                sans_family,
                mono_family,
                standard_font,
                default_font_size,
                mono_font_size,
                margin_left,
                margin_right,
                margin_top,
                margin_bottom,
                paper_size,
                toc_title,
            },
        )
    }
}

/// Markdown to EPUB with `pandoc`: `input` to `output`, with the cover image and
/// the metadata file where asked for.
fn pandoc(output: &str, input: &str, cover: bool, metadata: bool) -> (c: Command)
    ensures
        c@.program == "pandoc"@,
        c@.args == seq!["-o"@, output@, "--top-level-division=chapter"@] + (if cover {
            seq!["--epub-cover-image=images/cover.png"@]
        } else {
            Seq::<Seq<char>>::empty()
        }) + seq!["--css=epub.css"@] + (if metadata {
            seq!["-i"@, "epub.yaml"@]
        } else {
            Seq::<Seq<char>>::empty()
        }) + seq![input@],
{
    let mut args: Vec<String> = Vec::new();
    push_word(&mut args, "-o");
    push_word(&mut args, output);
    push_word(&mut args, "--top-level-division=chapter");
    if cover {
        push_word(&mut args, "--epub-cover-image=images/cover.png");
    }
    push_word(&mut args, "--css=epub.css");
    if metadata {
        push_word(&mut args, "-i");
        push_word(&mut args, "epub.yaml");
    }
    push_word(&mut args, input);
    let c = Command { program: String::from_str("pandoc"), args };
    assert(c@.args =~= seq!["-o"@, output@, "--top-level-division=chapter"@] + (if cover {
        seq!["--epub-cover-image=images/cover.png"@]
    } else {
        Seq::<Seq<char>>::empty()
    }) + seq!["--css=epub.css"@] + (if metadata {
        seq!["-i"@, "epub.yaml"@]
    } else {
        Seq::<Seq<char>>::empty()
    }) + seq![input@]);
    c
}

/// EPUB to EPUB 3 with `ebook-convert`.
fn to_epub3(input: &str, output: &str) -> (c: Command)
    ensures
        c@ == call(
            "ebook-convert"@,
            seq![input@, output@, "--epub-version"@, "3"@, "--embed-all-fonts"@],
        ),
{
    let mut args: Vec<String> = Vec::new();
    push_word(&mut args, input);
    push_word(&mut args, output);
    push_word(&mut args, "--epub-version");
    push_word(&mut args, "3");
    push_word(&mut args, "--embed-all-fonts");
    let c = Command { program: String::from_str("ebook-convert"), args };
    assert(c@.args =~= seq![input@, output@, "--epub-version"@, "3"@, "--embed-all-fonts"@]);
    c
}

/// Markdown to EPUB, for the whole book.
pub fn epub_book_command() -> (c: Command)
    ensures
        c@ == epub_book(),
{
    let c = pandoc("build/ebook.epub", "build/epub_input.md", true, true);
    assert(c@.args =~= epub_book().args);
    c
}

/// EPUB to EPUB 3, for the whole book.
pub fn epub3_book_command() -> (c: Command)
    ensures
        c@ == epub3_book(),
{
    to_epub3("build/ebook.epub", "build/ebook_epub3.epub")
}

/// Markdown to EPUB, for the sample.
pub fn epub_sample_command() -> (c: Command)
    ensures
        c@ == epub_sample(),
{
    let c = pandoc("build/sample_ebook.epub", "build/sample_epub_input.md", true, true);
    assert(c@.args =~= epub_sample().args);
    c
}

/// EPUB to EPUB 3, for the sample.
pub fn epub3_sample_command() -> (c: Command)
    ensures
        c@ == epub3_sample(),
{
    to_epub3("build/sample_ebook.epub", "build/sample_ebook_epub3.epub")
}

/// Markdown to EPUB, for the preface alone.
pub fn epub_preface_command() -> (c: Command)
    ensures
        c@ == epub_preface(),
{
    let c = pandoc("build/preface.epub", "chapters/00_preface.md", false, true);
    assert(c@.args =~= epub_preface().args);
    c
}

/// Markdown to EPUB, for the chapters after the preface.
pub fn epub_body_command() -> (c: Command)
    ensures
        c@ == epub_body(),
{
    let c = pandoc("build/output.epub", "build/pdf_input.md", false, false);
    assert(c@.args =~= epub_body().args);
    c
}

/// Appends to `args` the options that every conversion to PDF ends with.
fn push_pdf_options(args: &mut Vec<String>, settings: &PdfSettings)
    ensures
        final(args).deep_view() == old(args).deep_view() + pdf_options(settings@),
{
    let ghost before = args.deep_view();
    push_word(args, "--paper-size");
    push_word(args, settings.paper_size.as_str());
    push_word(args, "--embed-all-fonts");
    push_word(args, "--pdf-sans-family");
    push_word(args, settings.sans_family.as_str());
    push_word(args, "--pdf-mono-family");
    push_word(args, settings.mono_family.as_str());
    push_word(args, "--pdf-standard-font");
    push_word(args, settings.standard_font.as_str());
    push_word(args, "--pdf-default-font-size");
    push_word(args, settings.default_font_size.as_str());
    push_word(args, "--pdf-mono-font-size");
    push_word(args, settings.mono_font_size.as_str());
    push_word(args, "--pdf-page-margin-left");
    push_word(args, settings.margin_left.as_str());
    push_word(args, "--pdf-page-margin-right");
    push_word(args, settings.margin_right.as_str());
    push_word(args, "--pdf-page-margin-top");
    push_word(args, settings.margin_top.as_str());
    push_word(args, "--pdf-page-margin-bottom");
    push_word(args, settings.margin_bottom.as_str());
    assert(args.deep_view() =~= before + pdf_options(settings@));
}

/// EPUB to PDF, for the preface.
pub fn pdf_preface_command(settings: &PdfSettings) -> (c: Command)
    ensures
        c@ == pdf_preface(settings@),
{
    let mut args: Vec<String> = Vec::new();
    push_word(&mut args, "build/preface.epub");
    push_word(&mut args, "build/preface.pdf");
    push_word(&mut args, "--extra-css");
    push_word(&mut args, "calibre_extra_css.css");
    push_word(&mut args, "--filter-css");
    push_word(&mut args, "--insert-blank-line");
    let ghost head = args.deep_view();
    assert(head =~= seq![
        "build/preface.epub"@,
        "build/preface.pdf"@,
        "--extra-css"@,
        "calibre_extra_css.css"@,
        "--filter-css"@,
        "--insert-blank-line"@,
    ]);
    push_pdf_options(&mut args, settings);
    Command { program: String::from_str("ebook-convert"), args }
}

/// EPUB to PDF, for the chapters after the preface, with a table of contents.
pub fn pdf_body_command(settings: &PdfSettings) -> (c: Command)
    ensures
        c@ == pdf_body(settings@),
{
    let mut args: Vec<String> = Vec::new();
    push_word(&mut args, "build/output.epub");
    push_word(&mut args, "build/output.pdf");
    push_word(&mut args, "--extra-css");
    push_word(&mut args, "calibre_extra_css.css");
    push_word(&mut args, "--filter-css");
    push_word(&mut args, "--insert-blank-line");
    push_word(&mut args, "--pdf-add-toc");
    push_word(&mut args, "--toc-title");
    push_word(&mut args, settings.toc_title.as_str());
    let ghost head = args.deep_view();
    assert(head =~= seq![
        "build/output.epub"@,
        "build/output.pdf"@,
        "--extra-css"@,
        "calibre_extra_css.css"@,
        "--filter-css"@,
        "--insert-blank-line"@,
        "--pdf-add-toc"@,
        "--toc-title"@,
        settings@.toc_title,
    ]);
    push_pdf_options(&mut args, settings);
    Command { program: String::from_str("ebook-convert"), args }
}

/// The PDF tool's report on the chapters' PDF, which names its page count.
pub fn page_report_command() -> (c: Command)
    ensures
        c@ == page_report(),
{
    let mut args: Vec<String> = Vec::new();
    push_word(&mut args, "info");
    push_word(&mut args, "build/output.pdf");
    assert(args.deep_view() =~= seq!["info"@, "build/output.pdf"@]);
    Command { program: String::from_str("pdfcpu"), args }
}

/// Splits the chapters' PDF in two before page `split_page`.
pub fn split_command(split_page: i32) -> (c: Command)
    ensures
        c@ == split(split_page as int),
{
    let mut args: Vec<String> = Vec::new();
    push_word(&mut args, "split");
    push_word(&mut args, "-m");
    push_word(&mut args, "page");
    push_word(&mut args, "build/output.pdf");
    push_word(&mut args, "build/");
    push_word(&mut args, format_int(split_page as i64).as_str());
    assert(args.deep_view() =~= split(split_page as int).args);
    Command { program: String::from_str("pdfcpu"), args }
}

/// The name of the first part of the split.
fn first_part_name(split_page: i32) -> (name: String)
    ensures
        name@ == first_part(split_page as int),
{
    String::from_str("build/output_1-").concat(
        format_int(split_page as i64 - 1).as_str(),
    ).concat(".pdf")
}

/// The name of the stamped first part.
fn stamped_part_name(split_page: i32) -> (name: String)
    ensures
        name@ == stamped_part(split_page as int),
{
    String::from_str("build/output_stamp_1-").concat(
        format_int(split_page as i64 - 1).as_str(),
    ).concat(".pdf")
}

/// The name of the second part of the split.
fn second_part_name(split_page: i32, page_count: i32) -> (name: String)
    ensures
        name@ == second_part(split_page as int, page_count as int),
{
    String::from_str("build/output_").concat(format_int(split_page as i64).as_str()).concat(
        "-",
    ).concat(format_int(page_count as i64).as_str()).concat(".pdf")
}

/// Stamps each page of the first part with its number, at the bottom right.
pub fn stamp_command(split_page: i32) -> (c: Command)
    ensures
        c@ == stamp(split_page as int),
{
    let mut args: Vec<String> = Vec::new();
    push_word(&mut args, "stamp");
    push_word(&mut args, "add");
    push_word(&mut args, "-mode");
    push_word(&mut args, "text");
    push_word(&mut args, "--");
    push_word(&mut args, "%p");
    push_word(&mut args, "points:14,scale:1.0 abs,pos:br,rot:0,ma:60");
    push_word(&mut args, first_part_name(split_page).as_str());
    push_word(&mut args, stamped_part_name(split_page).as_str());
    assert(args.deep_view() =~= stamp(split_page as int).args);
    Command { program: String::from_str("pdfcpu"), args }
}

/// Merges the book: cover, preface, second part, stamped first part, back cover.
pub fn merge_command(split_page: i32, page_count: i32) -> (c: Command)
    ensures
        c@ == merge(split_page as int, page_count as int),
{
    let mut args: Vec<String> = Vec::new();
    push_word(&mut args, "merge");
    push_word(&mut args, "build/ebook.pdf");
    push_word(&mut args, "images/cover.pdf");
    push_word(&mut args, "build/preface.pdf");
    push_word(&mut args, second_part_name(split_page, page_count).as_str());
    push_word(&mut args, stamped_part_name(split_page).as_str());
    push_word(&mut args, "images/back_cover.pdf");
    assert(args.deep_view() =~= merge(split_page as int, page_count as int).args);
    Command { program: String::from_str("pdfcpu"), args }
}

/// Takes page `page` out of the merged book, in place.
pub fn remove_page_command(page: i32) -> (c: Command)
    ensures
        c@ == remove_page(page as int),
{
    let mut args: Vec<String> = Vec::new();
    push_word(&mut args, "pages");
    push_word(&mut args, "rem");
    push_word(&mut args, "-pages");
    push_word(&mut args, format_int(page as i64).as_str());
    push_word(&mut args, "build/ebook.pdf");
    assert(args.deep_view() =~= remove_page(page as int).args);
    Command { program: String::from_str("pdfcpu"), args }
}

/// Cuts the sample out of the merged book: its first pages, a tenth of the
/// book, rounded up, and one page at least.
pub fn trim_sample_command(page_count: i32) -> (c: Command)
    ensures
        c@ == trim_sample(page_count as int),
{
    let range = String::from_str("1-").concat(
        format_int(sample_size(page_count) as i64).as_str(),
    );
    let mut args: Vec<String> = Vec::new();
    push_word(&mut args, "trim");
    push_word(&mut args, "-pages");
    push_word(&mut args, range.as_str());
    push_word(&mut args, "build/ebook.pdf");
    push_word(&mut args, "build/sample_ebook.pdf");
    assert(args.deep_view() =~= trim_sample(page_count as int).args);
    Command { program: String::from_str("pdfcpu"), args }
}

} // verus!
