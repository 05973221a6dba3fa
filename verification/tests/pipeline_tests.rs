use cookbook_generator::chapters::{ChapterEntry, ChapterRule};
use cookbook_generator::config::Config;
use cookbook_generator::error::BuildError;
use cookbook_generator::init::default_config;
use cookbook_generator::pipeline::{Action, Event, Notice, Pipeline, Stage, Tool};
use cookbook_generator::tools::{
    epub_book_command, merge_command, page_report_command, remove_page_command, split_command,
    stamp_command, trim_sample_command,
};

fn chapter(name: &str) -> ChapterEntry {
    ChapterEntry { name: name.to_string(), is_file: true }
}

fn at_stage(stage: Stage, skip_prompts: bool) -> Pipeline {
    Pipeline {
        stage,
        skip_prompts,
        config: Config::parse(&default_config()),
        page_count: 310,
        split_page: 1,
        removal_page: 1,
    }
}

/// Answers each action as a build without mishap would, and returns the actions
/// in order, the last one the action that ends the build.
fn drive(skip_prompts: bool, config: &str, report: &str, typed: &str) -> Vec<Action> {
    let (mut pipeline, first) = Pipeline::start(skip_prompts);
    let mut actions: Vec<Action> = vec![first];
    loop {
        let event = match actions.last().unwrap() {
            Action::ReadConfig => Event::Text(config.to_string()),
            Action::ListChapters => Event::Entries(vec![
                chapter("02_body.md"),
                chapter("00_preface.md"),
                chapter("01_intro.md"),
            ]),
            Action::ReadChapters(names) => {
                Event::Contents(names.iter().map(|name| format!("# {}", name)).collect())
            }
            Action::Capture(_) => Event::Text(report.to_string()),
            Action::Ask(_) => Event::Text(typed.to_string()),
            Action::ListBuildFiles => Event::Files(vec![
                "ebook.pdf".to_string(),
                "output.pdf".to_string(),
                "ebook_epub3.epub".to_string(),
            ]),
            Action::Finish | Action::Fail(_) => return actions,
            _ => Event::Done,
        };
        let next = pipeline.advance(event);
        assert_eq!(pipeline.is_over(), matches!(next, Action::Finish | Action::Fail(_)));
        actions.push(next);
        assert!(actions.len() < 100);
    }
}

#[test]
fn unattended_build_never_asks_and_uses_page_one() {
    let actions = drive(true, &default_config(), "Page count: 25\n", "unused");
    assert_eq!(actions.last(), Some(&Action::Finish));
    assert!(!actions.iter().any(|action| matches!(action, Action::Ask(_))));
    assert!(actions.contains(&Action::Run(split_command(1))));
    assert!(actions.contains(&Action::Run(stamp_command(1))));
    assert!(actions.contains(&Action::Run(merge_command(1, 25))));
    assert!(actions.contains(&Action::Run(remove_page_command(1))));
    assert!(actions.contains(&Action::Run(trim_sample_command(25))));
}

#[test]
fn attended_build_asks_twice_and_uses_what_was_typed() {
    let actions = drive(false, &default_config(), "Page count: 25\n", " 7 \n");
    assert_eq!(actions.last(), Some(&Action::Finish));
    let prompts: Vec<&Action> =
        actions.iter().filter(|action| matches!(action, Action::Ask(_))).collect();
    assert_eq!(
        prompts,
        vec![
            &Action::Ask("Enter the page number to split at: ".to_string()),
            &Action::Ask("Enter the page number to remove: ".to_string()),
        ]
    );
    assert!(actions.contains(&Action::Run(split_command(7))));
    assert!(actions.contains(&Action::Run(stamp_command(7))));
    assert!(actions.contains(&Action::Run(merge_command(7, 25))));
    assert!(actions.contains(&Action::Run(remove_page_command(7))));
}

#[test]
fn build_runs_its_steps_in_order() {
    let actions = drive(true, &default_config(), "Page count: 25\n", "");
    let kinds: Vec<String> = actions
        .iter()
        .map(|action| match action {
            Action::Run(command) => format!("run {} {}", command.program, command.args[0]),
            Action::Capture(command) => format!("capture {}", command.command_line()),
            Action::Say(line) => format!("say {}", line),
            Action::WriteFile { path, .. } => format!("write {}", path),
            Action::ReadChapters(names) => format!("read {}", names.join(",")),
            Action::RemoveFiles(positions) => format!("remove {:?}", positions),
            other => format!("{:?}", other),
        })
        .collect();
    assert_eq!(
        kinds,
        vec![
            "ReadConfig",
            "ResetBuildDir",
            "ListChapters",
            "read 00_preface.md,01_intro.md,02_body.md",
            "write build/epub_input.md",
            "ListChapters",
            "read 00_preface.md,01_intro.md",
            "write build/sample_epub_input.md",
            "ListChapters",
            "read 01_intro.md,02_body.md",
            "write build/pdf_input.md",
            "run pandoc -o",
            "run ebook-convert build/ebook.epub",
            "run pandoc -o",
            "run ebook-convert build/sample_ebook.epub",
            "run pandoc -o",
            "run pandoc -o",
            "run ebook-convert build/preface.epub",
            "run ebook-convert build/output.epub",
            "capture pdfcpu info build/output.pdf",
            "say Total number of pages: 25",
            "run pdfcpu split",
            "run pdfcpu stamp",
            "run pdfcpu merge",
            "run pdfcpu pages",
            "say Optimize PDFs...",
            "say Total pages   : 25",
            "say Sample pages  : 3 (1-3)",
            "run pdfcpu trim",
            "ListBuildFiles",
            "remove [1]",
            "say All done!",
            "say Build completed successfully!",
            "say You can find the output files in the build directory.",
            "Finish",
        ]
    );
}

#[test]
fn sources_are_written_as_combined() {
    let actions = drive(true, &default_config(), "Page count: 25\n", "");
    assert!(actions.contains(&Action::WriteFile {
        path: "build/sample_epub_input.md".to_string(),
        content: "\n# 00_preface.md\n\n\n# 01_intro.md\n\n".to_string(),
    }));
    assert!(actions.contains(&Action::WriteFile {
        path: "build/pdf_input.md".to_string(),
        content: "\n# 01_intro.md\n\n\n# 02_body.md\n\n".to_string(),
    }));
}

#[test]
fn missing_key_ends_the_build_before_the_first_pdf() {
    let actions = drive(true, "pdf_sans_family = x\n", "Page count: 25\n", "");
    assert_eq!(
        actions.last(),
        Some(&Action::Fail(BuildError::MissingKey("pdf_mono_family".to_string())))
    );
    let runs: usize = actions.iter().filter(|action| matches!(action, Action::Run(_))).count();
    assert_eq!(runs, 6);
}

#[test]
fn report_without_page_count_ends_the_build() {
    let actions = drive(true, &default_config(), "no count here", "");
    assert_eq!(actions.last(), Some(&Action::Fail(BuildError::PageCountNotFound)));
    assert!(!actions.contains(&Action::Run(split_command(1))));
}

#[test]
fn typed_text_that_is_no_number_ends_the_build() {
    let actions = drive(false, &default_config(), "Page count: 25\n", " seven \n");
    assert_eq!(
        actions.last(),
        Some(&Action::Fail(BuildError::InvalidNumber("seven".to_string())))
    );
    assert!(!actions.iter().any(|action| matches!(
        action,
        Action::Run(command) if command.args[0] == "split"
    )));
}

#[test]
fn failed_command_ends_the_build_and_is_named() {
    let mut pipeline = at_stage(Stage::Running(Tool::EpubBook), true);
    let action = pipeline.advance(Event::CommandFailed);
    assert_eq!(action, Action::Fail(epub_book_command().failure()));
    assert_eq!(pipeline.stage, Stage::Failed);
    assert!(pipeline.is_over());
    let mut splitting = at_stage(Stage::Running(Tool::Split), false);
    splitting.split_page = 9;
    assert_eq!(
        splitting.advance(Event::CommandFailed),
        Action::Fail(BuildError::CommandFailed(
            "pdfcpu split -m page build/output.pdf build/ 9".to_string()
        ))
    );
}

#[test]
fn unexpected_event_ends_the_build() {
    let mut pipeline = at_stage(Stage::ResettingBuildDir, true);
    assert_eq!(
        pipeline.advance(Event::Text("surprise".to_string())),
        Action::Fail(BuildError::UnexpectedEvent)
    );
    assert_eq!(pipeline.stage, Stage::Failed);
    assert_eq!(BuildError::UnexpectedEvent.message(), "Unexpected event");
    let mut listing = at_stage(Stage::ListingChapters(ChapterRule::All), true);
    assert_eq!(listing.advance(Event::Done), Action::Fail(BuildError::UnexpectedEvent));
}

#[test]
fn a_build_that_is_over_stays_over() {
    let mut failed = at_stage(Stage::Failed, true);
    assert_eq!(failed.advance(Event::Done), Action::Fail(BuildError::UnexpectedEvent));
    assert_eq!(failed.stage, Stage::Failed);
    let mut finished = at_stage(Stage::Finished, true);
    assert_eq!(finished.advance(Event::Done), Action::Finish);
    assert_eq!(finished.advance(Event::CommandFailed), Action::Finish);
    assert_eq!(finished.stage, Stage::Finished);
}

#[test]
fn start_asks_for_the_configuration() {
    let (pipeline, action) = Pipeline::start(false);
    assert_eq!(action, Action::ReadConfig);
    assert_eq!(pipeline.stage, Stage::ReadingConfig);
    assert!(!pipeline.skip_prompts);
    assert!(!pipeline.is_over());
    assert_eq!(pipeline.split_page, 1);
    assert_eq!(pipeline.removal_page, 1);
}

#[test]
fn page_count_is_kept_and_announced() {
    let mut pipeline = at_stage(Stage::ReadingPageCount, true);
    let action = pipeline.record_page_count(Ok(42));
    assert_eq!(action, Action::Say("Total number of pages: 42".to_string()));
    assert_eq!(pipeline.page_count, 42);
    assert_eq!(pipeline.stage, Stage::Announcing(Notice::PageCount));
    let mut other = at_stage(Stage::ReadingPageCount, true);
    assert_eq!(
        other.record_page_count(Err(BuildError::InvalidPattern)),
        Action::Fail(BuildError::InvalidPattern)
    );
    assert_eq!(other.stage, Stage::Failed);
    assert_eq!(BuildError::InvalidPattern.message(), "Invalid page count pattern");
}

#[test]
fn notices_and_commands_follow_the_state() {
    let pipeline = at_stage(Stage::Announcing(Notice::Optimizing), true);
    assert_eq!(pipeline.notice(Notice::SamplePages), "Sample pages  : 31 (1-31)");
    assert_eq!(pipeline.notice(Notice::TotalPages), "Total pages   : 310");
    assert_eq!(pipeline.command_for(Tool::TrimSample), Ok(trim_sample_command(310)));
    assert_eq!(pipeline.command_for(Tool::Merge), Ok(merge_command(1, 310)));
    let capture = at_stage(Stage::Running(Tool::PdfBody), true).advance(Event::Done);
    assert_eq!(capture, Action::Capture(page_report_command()));
}
