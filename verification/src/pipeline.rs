//! The build, step by step.
//!
//! A build is a fixed line of steps. The `Pipeline` decides them and does none of
//! them itself: it hands out one `Action` at a time, and is told by an `Event` how
//! the action went. Whoever drives it reads the files, runs the tools and asks at
//! the prompts. `step` says, for every state and every event, what the next state
//! and the next action are; `Pipeline::advance` computes them.

use crate::chapters::{combine, combined, select_chapters, selected, ChapterEntry, ChapterRule,
    EntryView};
use crate::cleanup::{stale_files, stale_positions};
use crate::command::{command_line_text, Command, CommandView};
use crate::config::{config_of_text, Config};
use crate::error::{BuildError, BuildErrorView};
use crate::number::{decimal, format_int, parsed_i32};
use crate::pages::{extract_page_count, outcome_view, page_count_in, parse_page_number,
    sample_pages, sample_size};
use crate::text::trimmed;
use crate::tools::{epub3_book, epub3_book_command, epub3_sample, epub3_sample_command, epub_body,
    epub_body_command, epub_book, epub_book_command, epub_preface, epub_preface_command,
    epub_sample, epub_sample_command, merge, merge_command, page_report, page_report_command,
    pdf_body, pdf_body_command, pdf_preface, pdf_preface_command, remove_page,
    remove_page_command, sample_range, settings_or_error, split, split_command, stamp,
    stamp_command, trim_sample, trim_sample_command, PdfSettings};
use vstd::prelude::*;

verus! {

/// The runs of the outside tools, in the order of the build.
#[derive(Debug, Clone, Copy, PartialEq, Eq, Structural)]
pub enum Tool {
    EpubBook,
    Epub3Book,
    EpubSample,
    Epub3Sample,
    EpubPreface,
    EpubBody,
    PdfPreface,
    PdfBody,
    Split,
    Stamp,
    Merge,
    RemovePage,
    TrimSample,
}

/// The lines that the build prints on its way.
#[derive(Debug, Clone, Copy, PartialEq, Eq, Structural)]
pub enum Notice {
    PageCount,
    Optimizing,
    TotalPages,
    SamplePages,
    AllDone,
    Completed,
    WhereToFind,
}

/// Where a build stands: what it has asked for and is waiting to hear of.
#[derive(Debug, Clone, Copy, PartialEq, Eq, Structural)]
pub enum Stage {
    /// Waiting for the configuration's text.
    ReadingConfig,
    /// Waiting for the build directory to be emptied and made anew.
    ResettingBuildDir,
    /// Waiting for the listing of the chapters' directory.
    ListingChapters(ChapterRule),
    /// Waiting for the texts of the chapters chosen.
    ReadingChapters(ChapterRule),
    /// Waiting for a book's source to be written.
    WritingSource(ChapterRule),
    /// Waiting for a tool to end.
    Running(Tool),
    /// Waiting for the PDF tool's report.
    ReadingPageCount,
    /// Waiting for a line to be printed.
    Announcing(Notice),
    /// Waiting for the page to split at to be typed.
    AskingSplitPage,
    /// Waiting for the page to remove to be typed.
    AskingRemovalPage,
    /// Waiting for the names of the files in the build directory.
    ListingBuildFiles,
    /// Waiting for the stale files to be deleted.
    RemovingStaleFiles,
    /// The build is done.
    Finished,
    /// The build was given up.
    Failed,
}

/// What the build asks for next.
#[derive(Debug, Clone, PartialEq, Eq)]
pub enum Action {
    /// Read the configuration file; answer with `Event::Text`.
    ReadConfig,
    /// Delete the build directory, if there is one, and make it anew.
    ResetBuildDir,
    /// List the chapters' directory; answer with `Event::Entries`.
    ListChapters,
    /// Read these files of the chapters' directory, in this order; answer with
    /// `Event::Contents`.
    ReadChapters(Vec<String>),
    /// Write `content` to the file `path`, in place of what it held.
    WriteFile { path: String, content: String },
    /// Run the command and let its output through; answer with `Event::Done`, or
    /// with `Event::CommandFailed` where it ends with a failure status.
    Run(Command),
    /// Run the command and keep its output; answer with `Event::Text`.
    Capture(Command),
    /// Print the prompt and read one line; answer with `Event::Text`.
    Ask(String),
    /// Print the line.
    Say(String),
    /// Find the regular files in the build directory and below it; answer with
    /// `Event::Files`, the file name of each.
    ListBuildFiles,
    /// Delete the files at these positions of the list last given.
    RemoveFiles(Vec<usize>),
    /// Nothing more: the build is done.
    Finish,
    /// Nothing more: the build is given up, for this reason.
    Fail(BuildError),
}

/// An `Action` with its texts as character sequences.
pub enum ActionView {
    ReadConfig,
    ResetBuildDir,
    ListChapters,
    ReadChapters(Seq<Seq<char>>),
    WriteFile { path: Seq<char>, content: Seq<char> },
    Run(CommandView),
    Capture(CommandView),
    Ask(Seq<char>),
    Say(Seq<char>),
    ListBuildFiles,
    RemoveFiles(Seq<usize>),
    Finish,
    Fail(BuildErrorView),
}

impl View for Action {
    type V = ActionView;

    open spec fn view(&self) -> ActionView {
        match self {
            Action::ReadConfig => ActionView::ReadConfig,
            Action::ResetBuildDir => ActionView::ResetBuildDir,
            Action::ListChapters => ActionView::ListChapters,
            Action::ReadChapters(names) => ActionView::ReadChapters(names.deep_view()),
            Action::WriteFile { path, content } => ActionView::WriteFile {
                path: path@,
                content: content@,
            },
            Action::Run(command) => ActionView::Run(command@),
            Action::Capture(command) => ActionView::Capture(command@),
            Action::Ask(prompt) => ActionView::Ask(prompt@),
            Action::Say(line) => ActionView::Say(line@),
            Action::ListBuildFiles => ActionView::ListBuildFiles,
            Action::RemoveFiles(positions) => ActionView::RemoveFiles(positions@),
            Action::Finish => ActionView::Finish,
            Action::Fail(e) => ActionView::Fail(e@),
        }
    }
}

/// How the last action went.
#[derive(Debug, Clone, PartialEq, Eq)]
pub enum Event {
    /// The action was done.
    Done,
    /// The command ran and ended with a failure status.
    CommandFailed,
    /// The text read: a file's, a command's output, or a line typed.
    Text(String),
    /// The entries of the chapters' directory, in any order.
    Entries(Vec<ChapterEntry>),
    /// The texts of the chapters, in the order asked for.
    Contents(Vec<String>),
    /// The file name of each regular file in the build directory.
    Files(Vec<String>),
}

/// An `Event` with its texts as character sequences.
pub enum EventView {
    Done,
    CommandFailed,
    Text(Seq<char>),
    Entries(Seq<EntryView>),
    Contents(Seq<Seq<char>>),
    Files(Seq<Seq<char>>),
}

impl View for Event {
    type V = EventView;

    open spec fn view(&self) -> EventView {
        match self {
            Event::Done => EventView::Done,
            Event::CommandFailed => EventView::CommandFailed,
            Event::Text(text) => EventView::Text(text@),
            Event::Entries(entries) => EventView::Entries(entries.deep_view()),
            Event::Contents(contents) => EventView::Contents(contents.deep_view()),
            Event::Files(names) => EventView::Files(names.deep_view()),
        }
    }
}

/// One build: where it stands and what it has learnt so far.
#[derive(Debug, Clone, PartialEq, Eq)]
pub struct Pipeline {
    /// What the build is waiting for.
    pub stage: Stage,
    /// Whether the build runs unattended: nothing is asked, and both page numbers
    /// are 1.
    pub skip_prompts: bool,
    /// The settings, once read.
    pub config: Config,
    /// The page count of the chapters' PDF, once known.
    pub page_count: i32,
    /// The page before which the chapters' PDF is split.
    pub split_page: i32,
    /// The page that is taken out of the merged book.
    pub removal_page: i32,
}

/// A `Pipeline` with its settings as a mapping.
pub struct PipelineView {
    pub stage: Stage,
    pub skip_prompts: bool,
    pub config: Map<Seq<char>, Seq<char>>,
    pub page_count: i32,
    pub split_page: i32,
    pub removal_page: i32,
}

impl View for Pipeline {
    type V = PipelineView;

    open spec fn view(&self) -> PipelineView {
        PipelineView {
            stage: self.stage,
            skip_prompts: self.skip_prompts,
            config: self.config@,
            page_count: self.page_count,
            split_page: self.split_page,
            removal_page: self.removal_page,
        }
    }
}

/// The file that the source of the book under `rule` is written to.
pub open spec fn source_path(rule: ChapterRule) -> Seq<char> {
    match rule {
        ChapterRule::All => "build/epub_input.md"@,
        ChapterRule::Sample => "build/sample_epub_input.md"@,
        ChapterRule::WithoutPreface => "build/pdf_input.md"@,
    }
}

/// The command line of `tool` in state `s`, or the error for the required key
/// that the settings lack.
pub open spec fn tool_command(s: PipelineView, tool: Tool) -> Result<CommandView, BuildErrorView> {
    match tool {
        Tool::EpubBook => Ok(epub_book()),
        Tool::Epub3Book => Ok(epub3_book()),
        Tool::EpubSample => Ok(epub_sample()),
        Tool::Epub3Sample => Ok(epub3_sample()),
        Tool::EpubPreface => Ok(epub_preface()),
        Tool::EpubBody => Ok(epub_body()),
        Tool::PdfPreface => match settings_or_error(s.config) {
            Ok(settings) => Ok(pdf_preface(settings)),
            Err(e) => Err(e),
        },
        Tool::PdfBody => match settings_or_error(s.config) {
            Ok(settings) => Ok(pdf_body(settings)),
            Err(e) => Err(e),
        },
        Tool::Split => Ok(split(s.split_page as int)),
        Tool::Stamp => Ok(stamp(s.split_page as int)),
        Tool::Merge => Ok(merge(s.split_page as int, s.page_count as int)),
        Tool::RemovePage => Ok(remove_page(s.removal_page as int)),
        Tool::TrimSample => Ok(trim_sample(s.page_count as int)),
    }
}

/// The line that `notice` stands for in state `s`.
pub open spec fn notice_text(s: PipelineView, notice: Notice) -> Seq<char> {
    match notice {
        Notice::PageCount => "Total number of pages: "@ + decimal(s.page_count as int),
        Notice::Optimizing => "Optimize PDFs..."@,
        Notice::TotalPages => "Total pages   : "@ + decimal(s.page_count as int),
        Notice::SamplePages => "Sample pages  : "@ + decimal(sample_pages(s.page_count as int))
            + " ("@ + sample_range(s.page_count as int) + ")"@,
        Notice::AllDone => "All done!"@,
        Notice::Completed => "Build completed successfully!"@,
        Notice::WhereToFind => "You can find the output files in the build directory."@,
    }
}

/// The build moves to `stage` and asks for `action`.
pub open spec fn go(s: PipelineView, stage: Stage, action: ActionView) -> (
    PipelineView,
    ActionView,
) {
    (PipelineView { stage, ..s }, action)
}

/// The build is given up.
pub open spec fn fail(s: PipelineView, e: BuildErrorView) -> (PipelineView, ActionView) {
    go(s, Stage::Failed, ActionView::Fail(e))
}

/// The build runs `tool` next, or is given up where the tool's command line
/// cannot be made.
pub open spec fn run(s: PipelineView, tool: Tool) -> (PipelineView, ActionView) {
    match tool_command(s, tool) {
        Ok(command) => go(s, Stage::Running(tool), ActionView::Run(command)),
        Err(e) => fail(s, e),
    }
}

/// The build prints `notice` next.
pub open spec fn say(s: PipelineView, notice: Notice) -> (PipelineView, ActionView) {
    go(s, Stage::Announcing(notice), ActionView::Say(notice_text(s, notice)))
}

/// What follows once the source of the book under `rule` is written.
pub open spec fn after_source(s: PipelineView, rule: ChapterRule) -> (PipelineView, ActionView) {
    match rule {
        ChapterRule::All => go(
            s,
            Stage::ListingChapters(ChapterRule::Sample),
            ActionView::ListChapters,
        ),
        ChapterRule::Sample => go(
            s,
            Stage::ListingChapters(ChapterRule::WithoutPreface),
            ActionView::ListChapters,
        ),
        ChapterRule::WithoutPreface => run(s, Tool::EpubBook),
    }
}

/// What follows once `tool` has ended well.
pub open spec fn after_tool(s: PipelineView, tool: Tool) -> (PipelineView, ActionView) {
    match tool {
        Tool::EpubBook => run(s, Tool::Epub3Book),
        Tool::Epub3Book => run(s, Tool::EpubSample),
        Tool::EpubSample => run(s, Tool::Epub3Sample),
        Tool::Epub3Sample => run(s, Tool::EpubPreface),
        Tool::EpubPreface => run(s, Tool::EpubBody),
        Tool::EpubBody => run(s, Tool::PdfPreface),
        Tool::PdfPreface => run(s, Tool::PdfBody),
        Tool::PdfBody => go(s, Stage::ReadingPageCount, ActionView::Capture(page_report())),
        Tool::Split => run(s, Tool::Stamp),
        Tool::Stamp => run(s, Tool::Merge),
        Tool::Merge => if s.skip_prompts {
            run(PipelineView { removal_page: 1, ..s }, Tool::RemovePage)
        } else {
            go(s, Stage::AskingRemovalPage, ActionView::Ask("Enter the page number to remove: "@))
        },
        Tool::RemovePage => say(s, Notice::Optimizing),
        Tool::TrimSample => go(s, Stage::ListingBuildFiles, ActionView::ListBuildFiles),
    }
}

/// What follows once `notice` is printed.
pub open spec fn after_notice(s: PipelineView, notice: Notice) -> (PipelineView, ActionView) {
    match notice {
        Notice::PageCount => if s.skip_prompts {
            run(PipelineView { split_page: 1, ..s }, Tool::Split)
        } else {
            go(s, Stage::AskingSplitPage, ActionView::Ask("Enter the page number to split at: "@))
        },
        Notice::Optimizing => say(s, Notice::TotalPages),
        Notice::TotalPages => say(s, Notice::SamplePages),
        Notice::SamplePages => run(s, Tool::TrimSample),
        Notice::AllDone => say(s, Notice::Completed),
        Notice::Completed => say(s, Notice::WhereToFind),
        Notice::WhereToFind => go(s, Stage::Finished, ActionView::Finish),
    }
}

/// What follows once the page count was looked for: the count is kept and
/// printed, or the build is given up.
pub open spec fn after_page_count(s: PipelineView, outcome: Result<i32, BuildErrorView>) -> (
    PipelineView,
    ActionView,
) {
    match outcome {
        Ok(n) => say(PipelineView { page_count: n, ..s }, Notice::PageCount),
        Err(e) => fail(s, e),
    }
}

/// What follows once the page to split at was typed.
pub open spec fn after_split_page(s: PipelineView, typed: Seq<char>) -> (PipelineView, ActionView) {
    match parsed_i32(trimmed(typed)) {
        Some(n) => run(PipelineView { split_page: n, ..s }, Tool::Split),
        None => fail(s, BuildErrorView::InvalidNumber(trimmed(typed))),
    }
}

/// What follows once the page to remove was typed.
pub open spec fn after_removal_page(s: PipelineView, typed: Seq<char>) -> (
    PipelineView,
    ActionView,
) {
    match parsed_i32(trimmed(typed)) {
        Some(n) => run(PipelineView { removal_page: n, ..s }, Tool::RemovePage),
        None => fail(s, BuildErrorView::InvalidNumber(trimmed(typed))),
    }
}

/// What follows where a run of `tool` ended with a failure status.
pub open spec fn after_failure(s: PipelineView, tool: Tool) -> (PipelineView, ActionView) {
    match tool_command(s, tool) {
        Ok(command) => fail(s, BuildErrorView::CommandFailed(command_line_text(command))),
        Err(e) => fail(s, e),
    }
}

/// The build's one rule: the state and the action that follow on event `e` in
/// state `s`. An event that the state was not waiting for ends the build.
pub open spec fn step(s: PipelineView, e: EventView) -> (PipelineView, ActionView) {
    match (s.stage, e) {
        (Stage::ReadingConfig, EventView::Text(text)) => go(
            PipelineView { config: config_of_text(text), ..s },
            Stage::ResettingBuildDir,
            ActionView::ResetBuildDir,
        ),
        (Stage::ResettingBuildDir, EventView::Done) => go(
            s,
            Stage::ListingChapters(ChapterRule::All),
            ActionView::ListChapters,
        ),
        (Stage::ListingChapters(rule), EventView::Entries(entries)) => go(
            s,
            Stage::ReadingChapters(rule),
            ActionView::ReadChapters(selected(entries, rule)),
        ),
        (Stage::ReadingChapters(rule), EventView::Contents(contents)) => go(
            s,
            Stage::WritingSource(rule),
            ActionView::WriteFile { path: source_path(rule), content: combined(contents) },
        ),
        (Stage::WritingSource(rule), EventView::Done) => after_source(s, rule),
        (Stage::Running(tool), EventView::Done) => after_tool(s, tool),
        (Stage::Running(tool), EventView::CommandFailed) => after_failure(s, tool),
        (Stage::ReadingPageCount, EventView::Text(report)) => after_page_count(
            s,
            page_count_in(report),
        ),
        (Stage::Announcing(notice), EventView::Done) => after_notice(s, notice),
        (Stage::AskingSplitPage, EventView::Text(typed)) => after_split_page(s, typed),
        (Stage::AskingRemovalPage, EventView::Text(typed)) => after_removal_page(s, typed),
        (Stage::ListingBuildFiles, EventView::Files(names)) => go(
            s,
            Stage::RemovingStaleFiles,
            ActionView::RemoveFiles(stale_positions(names)),
        ),
        (Stage::RemovingStaleFiles, EventView::Done) => say(s, Notice::AllDone),
        (Stage::Finished, _) => go(s, Stage::Finished, ActionView::Finish),
        _ => fail(s, BuildErrorView::UnexpectedEvent),
    }
}

/// The state in which every build begins.
pub open spec fn initial(skip_prompts: bool) -> PipelineView {
    PipelineView {
        stage: Stage::ReadingConfig,
        skip_prompts,
        config: Map::empty(),
        page_count: 0,
        split_page: 1,
        removal_page: 1,
    }
}

/// Whether `s` is a state of an unattended build: nothing is being asked, and
/// where a page number is in use, it is 1.
pub open spec fn unattended(s: PipelineView) -> bool {
    &&& s.skip_prompts
    &&& s.stage != Stage::AskingSplitPage
    &&& s.stage != Stage::AskingRemovalPage
    &&& (s.stage == Stage::Running(Tool::Split) || s.stage == Stage::Running(Tool::Stamp)
        || s.stage == Stage::Running(Tool::Merge)) ==> s.split_page == 1
    &&& s.stage == Stage::Running(Tool::RemovePage) ==> s.removal_page == 1
}

/// A build that is told to skip the prompts begins unattended.
pub proof fn lemma_starts_unattended()
    ensures
        unattended(initial(true)),
{
}

/// An unattended build stays unattended and never asks: whatever it is told, its
/// next action is no prompt, and the tools that take a page number are run with
/// page 1.
pub proof fn lemma_unattended_never_asks(s: PipelineView, e: EventView)
    requires
        unattended(s),
    ensures
        unattended(step(s, e).0),
        !(step(s, e).1 is Ask),
        step(s, e).0.stage == Stage::Running(Tool::Split) ==> step(s, e).1 == ActionView::Run(
            split(1),
        ),
        step(s, e).0.stage == Stage::Running(Tool::Stamp) ==> step(s, e).1 == ActionView::Run(
            stamp(1),
        ),
        step(s, e).0.stage == Stage::Running(Tool::Merge) ==> step(s, e).1 == ActionView::Run(
            merge(1, s.page_count as int),
        ),
        step(s, e).0.stage == Stage::Running(Tool::RemovePage) ==> step(s, e).1
            == ActionView::Run(remove_page(1)),
{
}

/// A build that is over stays over, and a build is given up exactly when it
/// says so: the stage is `Failed` if and only if the action is `Fail`, and
/// `Finished` if and only if the action is `Finish`.
pub proof fn lemma_over_is_over(s: PipelineView, e: EventView)
    ensures
        s.stage == Stage::Failed ==> step(s, e).0.stage == Stage::Failed,
        s.stage == Stage::Finished ==> step(s, e).0.stage == Stage::Finished,
        step(s, e).0.stage == Stage::Failed <==> step(s, e).1 is Fail,
        step(s, e).0.stage == Stage::Finished <==> step(s, e).1 is Finish,
{
}

/// The settings are read once: after the configuration has come, no step
/// changes them, and no step at all changes whether the build is unattended.
pub proof fn lemma_settings_stay(s: PipelineView, e: EventView)
    ensures
        step(s, e).0.skip_prompts == s.skip_prompts,
        s.stage != Stage::ReadingConfig ==> step(s, e).0.config == s.config,
{
}

impl Pipeline {
    /// Begins a build: the state it starts in, and its first action, which is to
    /// read the configuration.
    pub fn start(skip_prompts: bool) -> (r: (Pipeline, Action))
        ensures
            r.0@ == initial(skip_prompts),
            r.1@ == ActionView::ReadConfig,
    {
        let pipeline = Pipeline {
            stage: Stage::ReadingConfig,
            skip_prompts,
            config: Config::new(),
            page_count: 0,
            split_page: 1,
            removal_page: 1,
        };
        (pipeline, Action::ReadConfig)
    }

    /// Whether the build has ended, well or not: nothing is waited for.
    pub fn is_over(&self) -> (r: bool)
        ensures
            r == (self.stage == Stage::Finished || self.stage == Stage::Failed),
    {
        self.stage == Stage::Finished || self.stage == Stage::Failed
    }

    fn go(&mut self, stage: Stage, action: Action) -> (r: Action)
        ensures
            (final(self)@, r@) == go(old(self)@, stage, action@),
    {
        self.stage = stage;
        action
    }

    fn fail(&mut self, e: BuildError) -> (r: Action)
        ensures
            (final(self)@, r@) == fail(old(self)@, e@),
    {
        self.go(Stage::Failed, Action::Fail(e))
    }

    /// The command line of `tool` as the build stands.
    pub fn command_for(&self, tool: Tool) -> (r: Result<Command, BuildError>)
        ensures
            match r {
                Ok(command) => tool_command(self@, tool) == Ok::<CommandView, BuildErrorView>(
                    command@,
                ),
                Err(e) => tool_command(self@, tool) == Err::<CommandView, BuildErrorView>(e@),
            },
    {
        match tool {
            Tool::EpubBook => Ok(epub_book_command()),
            Tool::Epub3Book => Ok(epub3_book_command()),
            Tool::EpubSample => Ok(epub_sample_command()),
            Tool::Epub3Sample => Ok(epub3_sample_command()),
            Tool::EpubPreface => Ok(epub_preface_command()),
            Tool::EpubBody => Ok(epub_body_command()),
            Tool::PdfPreface => match PdfSettings::from_config(&self.config) {
                Ok(settings) => Ok(pdf_preface_command(&settings)),
                Err(e) => Err(e),
            },
            Tool::PdfBody => match PdfSettings::from_config(&self.config) {
                Ok(settings) => Ok(pdf_body_command(&settings)),
                Err(e) => Err(e),
            },
            Tool::Split => Ok(split_command(self.split_page)),
            Tool::Stamp => Ok(stamp_command(self.split_page)),
            Tool::Merge => Ok(merge_command(self.split_page, self.page_count)),
            Tool::RemovePage => Ok(remove_page_command(self.removal_page)),
            Tool::TrimSample => Ok(trim_sample_command(self.page_count)),
        }
    }

    /// The line that `notice` stands for as the build stands.
    pub fn notice(&self, notice: Notice) -> (line: String)
        ensures
            line@ == notice_text(self@, notice),
    {
        match notice {
            Notice::PageCount => String::from_str("Total number of pages: ").concat(
                format_int(self.page_count as i64).as_str(),
            ),
            Notice::Optimizing => String::from_str("Optimize PDFs..."),
            Notice::TotalPages => String::from_str("Total pages   : ").concat(
                format_int(self.page_count as i64).as_str(),
            ),
            Notice::SamplePages => {
                let pages = format_int(sample_size(self.page_count) as i64);
                String::from_str("Sample pages  : ").concat(pages.as_str()).concat(" (").concat(
                    "1-",
                ).concat(pages.as_str()).concat(")")
            },
            Notice::AllDone => String::from_str("All done!"),
            Notice::Completed => String::from_str("Build completed successfully!"),
            Notice::WhereToFind => String::from_str(
                "You can find the output files in the build directory.",
            ),
        }
    }

    fn run(&mut self, tool: Tool) -> (r: Action)
        ensures
            (final(self)@, r@) == run(old(self)@, tool),
    {
        match self.command_for(tool) {
            Ok(command) => self.go(Stage::Running(tool), Action::Run(command)),
            Err(e) => self.fail(e),
        }
    }

    fn say(&mut self, notice: Notice) -> (r: Action)
        ensures
            (final(self)@, r@) == say(old(self)@, notice),
    {
        let line = self.notice(notice);
        self.go(Stage::Announcing(notice), Action::Say(line))
    }

    fn after_source(&mut self, rule: ChapterRule) -> (r: Action)
        ensures
            (final(self)@, r@) == after_source(old(self)@, rule),
    {
        match rule {
            ChapterRule::All => self.go(
                Stage::ListingChapters(ChapterRule::Sample),
                Action::ListChapters,
            ),
            ChapterRule::Sample => self.go(
                Stage::ListingChapters(ChapterRule::WithoutPreface),
                Action::ListChapters,
            ),
            ChapterRule::WithoutPreface => self.run(Tool::EpubBook),
        }
    }

    fn after_tool(&mut self, tool: Tool) -> (r: Action)
        ensures
            (final(self)@, r@) == after_tool(old(self)@, tool),
    {
        match tool {
            Tool::EpubBook => self.run(Tool::Epub3Book),
            Tool::Epub3Book => self.run(Tool::EpubSample),
            Tool::EpubSample => self.run(Tool::Epub3Sample),
            Tool::Epub3Sample => self.run(Tool::EpubPreface),
            Tool::EpubPreface => self.run(Tool::EpubBody),
            Tool::EpubBody => self.run(Tool::PdfPreface),
            Tool::PdfPreface => self.run(Tool::PdfBody),
            Tool::PdfBody => self.go(
                Stage::ReadingPageCount,
                Action::Capture(page_report_command()),
            ),
            Tool::Split => self.run(Tool::Stamp),
            Tool::Stamp => self.run(Tool::Merge),
            Tool::Merge => if self.skip_prompts {
                self.removal_page = 1;
                self.run(Tool::RemovePage)
            } else {
                self.go(
                    Stage::AskingRemovalPage,
                    Action::Ask(String::from_str("Enter the page number to remove: ")),
                )
            },
            Tool::RemovePage => self.say(Notice::Optimizing),
            Tool::TrimSample => self.go(Stage::ListingBuildFiles, Action::ListBuildFiles),
        }
    }

    fn after_notice(&mut self, notice: Notice) -> (r: Action)
        ensures
            (final(self)@, r@) == after_notice(old(self)@, notice),
    {
        match notice {
            Notice::PageCount => if self.skip_prompts {
                self.split_page = 1;
                self.run(Tool::Split)
            } else {
                self.go(
                    Stage::AskingSplitPage,
                    Action::Ask(String::from_str("Enter the page number to split at: ")),
                )
            },
            Notice::Optimizing => self.say(Notice::TotalPages),
            Notice::TotalPages => self.say(Notice::SamplePages),
            Notice::SamplePages => self.run(Tool::TrimSample),
            Notice::AllDone => self.say(Notice::Completed),
            Notice::Completed => self.say(Notice::WhereToFind),
            Notice::WhereToFind => self.go(Stage::Finished, Action::Finish),
        }
    }

    fn after_failure(&mut self, tool: Tool) -> (r: Action)
        ensures
            (final(self)@, r@) == after_failure(old(self)@, tool),
    {
        match self.command_for(tool) {
            Ok(command) => self.fail(command.failure()),
            Err(e) => self.fail(e),
        }
    }

    /// Takes note of how the search for the page count ended: the count is kept
    /// and printed next, or the build is given up with the error.
    pub fn record_page_count(&mut self, outcome: Result<i32, BuildError>) -> (r: Action)
        ensures
            (final(self)@, r@) == after_page_count(old(self)@, outcome_view(outcome)),
    {
        match outcome {
            Ok(n) => {
                self.page_count = n;
                self.say(Notice::PageCount)
            },
            Err(e) => self.fail(e),
        }
    }

    fn after_split_page(&mut self, typed: &str) -> (r: Action)
        ensures
            (final(self)@, r@) == after_split_page(old(self)@, typed@),
    {
        match parse_page_number(typed) {
            Ok(n) => {
                self.split_page = n;
                self.run(Tool::Split)
            },
            Err(e) => self.fail(e),
        }
    }

    fn after_removal_page(&mut self, typed: &str) -> (r: Action)
        ensures
            (final(self)@, r@) == after_removal_page(old(self)@, typed@),
    {
        match parse_page_number(typed) {
            Ok(n) => {
                self.removal_page = n;
                self.run(Tool::RemovePage)
            },
            Err(e) => self.fail(e),
        }
    }

    /// Takes the build one step on: told how the last action went, it says what
    /// to do next. The new state and the action are those of `step`, for every
    /// state and every event.
    pub fn advance(&mut self, event: Event) -> (action: Action)
        ensures
            (final(self)@, action@) == step(old(self)@, event@),
    {
        match self.stage {
            Stage::ReadingConfig => match event {
                Event::Text(text) => {
                    self.config = Config::parse(text.as_str());
                    self.go(Stage::ResettingBuildDir, Action::ResetBuildDir)
                },
                _ => self.fail(BuildError::UnexpectedEvent),
            },
            Stage::ResettingBuildDir => match event {
                Event::Done => self.go(
                    Stage::ListingChapters(ChapterRule::All),
                    Action::ListChapters,
                ),
                _ => self.fail(BuildError::UnexpectedEvent),
            },
            Stage::ListingChapters(rule) => match event {
                Event::Entries(entries) => {
                    let names = select_chapters(&entries, rule);
                    self.go(Stage::ReadingChapters(rule), Action::ReadChapters(names))
                },
                _ => self.fail(BuildError::UnexpectedEvent),
            },
            Stage::ReadingChapters(rule) => match event {
                Event::Contents(contents) => {
                    let path = match rule {
                        ChapterRule::All => String::from_str("build/epub_input.md"),
                        ChapterRule::Sample => String::from_str("build/sample_epub_input.md"),
                        ChapterRule::WithoutPreface => String::from_str("build/pdf_input.md"),
                    };
                    let content = combine(&contents);
                    self.go(Stage::WritingSource(rule), Action::WriteFile { path, content })
                },
                _ => self.fail(BuildError::UnexpectedEvent),
            },
            Stage::WritingSource(rule) => match event {
                Event::Done => self.after_source(rule),
                _ => self.fail(BuildError::UnexpectedEvent),
            },
            Stage::Running(tool) => match event {
                Event::Done => self.after_tool(tool),
                Event::CommandFailed => self.after_failure(tool),
                _ => self.fail(BuildError::UnexpectedEvent),
            },
            Stage::ReadingPageCount => match event {
                Event::Text(report) => {
                    let outcome = extract_page_count(report.as_str());
                    self.record_page_count(outcome)
                },
                _ => self.fail(BuildError::UnexpectedEvent),
            },
            Stage::Announcing(notice) => match event {
                Event::Done => self.after_notice(notice),
                _ => self.fail(BuildError::UnexpectedEvent),
            },
            Stage::AskingSplitPage => match event {
                Event::Text(typed) => self.after_split_page(typed.as_str()),
                _ => self.fail(BuildError::UnexpectedEvent),
            },
            Stage::AskingRemovalPage => match event {
                Event::Text(typed) => self.after_removal_page(typed.as_str()),
                _ => self.fail(BuildError::UnexpectedEvent),
            },
            Stage::ListingBuildFiles => match event {
                Event::Files(names) => {
                    let stale = stale_files(&names);
                    self.go(Stage::RemovingStaleFiles, Action::RemoveFiles(stale))
                },
                _ => self.fail(BuildError::UnexpectedEvent),
            },
            Stage::RemovingStaleFiles => match event {
                Event::Done => self.say(Notice::AllDone),
                _ => self.fail(BuildError::UnexpectedEvent),
            },
            Stage::Finished => self.go(Stage::Finished, Action::Finish),
            Stage::Failed => self.fail(BuildError::UnexpectedEvent),
        }
    }
}

} // verus!
