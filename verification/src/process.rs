//! Post-processing of a scanned document: contrast correction of every page,
//! combination into one image, conversion to PDF and text recognition.
//!
//! The pipeline is a state machine. [`process_document`] takes the state and
//! what the caller last observed, and answers with the next state and what
//! to do next. It starts no program and touches no file itself.

use vstd::prelude::*;
use vstd::string::*;
use crate::fs_utils::DirectoryError;
use crate::scan::page_file_name;
use crate::text::{decimal, decimal_string, ends_with, has_char, has_suffix, is_digit, join_path,
    joined, lemma_decimal_is_digits, lemma_replaced_at_end, lemma_replaced_holds_replacement,
    replace_all, replaced};
use crate::tool::{check_exit, ToolCommand, ToolCommandView, ToolFailure, ToolFailureView,
    ToolOutput, ToolOutputView};

verus! {

/// `name` is the name of a page as the scanner wrote it: it ends in `.tif`
/// and holds no `_`, the mark of every file that processing derives.
pub open spec fn is_scanned_page(name: Seq<char>) -> bool {
    ends_with(name, ".tif"@) && !name.contains('_')
}

/// The pages among the names of a directory listing, in the listing's order.
pub open spec fn scanned_pages(entries: Seq<Seq<char>>) -> Seq<Seq<char>> {
    entries.filter(|name: Seq<char>| is_scanned_page(name))
}

/// The name of the contrast-corrected sibling of the page `page`.
pub open spec fn processed_name(page: Seq<char>) -> Seq<char> {
    replaced(page, ".tif"@, "_processed.tif"@)
}

/// The stages of the pipeline that run an external tool.
#[derive(Debug, Clone, Copy, PartialEq, Eq, Structural)]
pub enum Stage {
    /// Contrast correction of the page with this index
    Contrast { page: usize },
    /// Combination of all corrected pages into one image
    Combine,
    /// Conversion of the combined image to PDF
    Convert,
    /// Text recognition and PDF/A normalisation
    Ocr,
}

impl Stage {
    /// The stage that follows this one in a document of `pages` pages, if any.
    pub open spec fn successor(self, pages: nat) -> Option<Stage> {
        match self {
            Stage::Contrast { page } => if page + 1 < pages {
                Some(Stage::Contrast { page: (page + 1) as usize })
            } else {
                Some(Stage::Combine)
            },
            Stage::Combine => Some(Stage::Convert),
            Stage::Convert => Some(Stage::Ocr),
            Stage::Ocr => None,
        }
    }

    /// Where the progress counter stands while this stage runs.
    pub open spec fn position(self, pages: nat) -> nat {
        match self {
            Stage::Contrast { page } => page as nat + 1,
            Stage::Combine => pages + 1,
            Stage::Convert => pages + 2,
            Stage::Ocr => pages + 3,
        }
    }

    /// The name under which a failure of this stage's tool is reported.
    pub open spec fn tool(self) -> Seq<char> {
        match self {
            Stage::Contrast { .. } => "magick"@,
            Stage::Combine => "tiffcp"@,
            Stage::Convert => "magick"@,
            Stage::Ocr => "ocrmypdf"@,
        }
    }

    /// The status message shown while this stage runs.
    pub open spec fn message(self, pages: nat) -> Seq<char> {
        match self {
            Stage::Contrast { page } => "Improving contrast ("@ + decimal(page as nat + 1) + "/"@
                + decimal(pages) + ")"@,
            Stage::Combine => "Combining TIFs"@,
            Stage::Convert => "Converting to PDF"@,
            Stage::Ocr => "Running OCR and generate PDF/A"@,
        }
    }
}

/// Where the progress counter ends: one tick per page, one for the end of
/// the page loop, and one each for combination, conversion and recognition.
pub open spec fn progress_length(pages: nat) -> nat {
    pages + 4
}

/// The call that corrects the contrast of `page` in the directory `dir`.
pub open spec fn contrast_command(dir: Seq<char>, page: Seq<char>) -> ToolCommandView {
    ToolCommandView {
        program: "magick"@,
        args: seq![
            joined(dir, page),
            "-auto-level"@,
            "-level"@,
            "10%,90%"@,
            joined(dir, processed_name(page)),
        ],
    }
}

/// The corrected siblings of `pages` in the directory `dir`, as paths.
pub open spec fn processed_paths(dir: Seq<char>, pages: Seq<Seq<char>>) -> Seq<Seq<char>> {
    pages.map_values(|page: Seq<char>| joined(dir, processed_name(page)))
}

/// The call that combines the corrected pages into one image.
pub open spec fn combine_command(dir: Seq<char>, pages: Seq<Seq<char>>) -> ToolCommandView {
    ToolCommandView {
        program: "tiffcp"@,
        args: seq!["-c"@, "lzw"@] + processed_paths(dir, pages) + seq![
            joined(dir, "_combined.tif"@),
        ],
    }
}

/// The call that converts the combined image to PDF.
pub open spec fn convert_command(dir: Seq<char>) -> ToolCommandView {
    ToolCommandView {
        program: "magick"@,
        args: seq![
            joined(dir, "_combined.tif"@),
            "-compress"@,
            "JPEG"@,
            joined(dir, "_combined.pdf"@),
        ],
    }
}

/// The call that runs text recognition in a container that sees the
/// directory `dir` as `/document`.
pub open spec fn ocr_command(dir: Seq<char>) -> ToolCommandView {
    ToolCommandView {
        program: "docker"@,
        args: seq![
            "run"@,
            "--rm"@,
            "-v"@,
            dir + ":/document"@,
            "docker.io/jbarlow83/ocrmypdf:v16.10.0"@,
            "/document/_combined.pdf"@,
            "/document/_final.pdf"@,
        ],
    }
}

/// The call that the stage `stage` makes.
pub open spec fn stage_command(
    dir: Seq<char>,
    pages: Seq<Seq<char>>,
    stage: Stage,
) -> ToolCommandView {
    match stage {
        Stage::Contrast { page } => contrast_command(dir, pages[page as int]),
        Stage::Combine => combine_command(dir, pages),
        Stage::Convert => convert_command(dir),
        Stage::Ocr => ocr_command(dir),
    }
}

/// One tool run of the pipeline, with what to show while it runs.
#[derive(Debug, PartialEq, Eq)]
pub struct PipelineStep {
    /// The stage this run belongs to
    pub stage: Stage,
    /// The status message to show
    pub message: String,
    /// Where the progress counter stands during the run
    pub position: u128,
    /// Where the progress counter ends
    pub length: u128,
    /// The program to run
    pub command: ToolCommand,
}

/// What a [`PipelineStep`] holds, as mathematical values.
pub struct PipelineStepView {
    pub stage: Stage,
    pub message: Seq<char>,
    pub position: nat,
    pub length: nat,
    pub command: ToolCommandView,
}

impl View for PipelineStep {
    type V = PipelineStepView;

    open spec fn view(&self) -> PipelineStepView {
        PipelineStepView {
            stage: self.stage,
            message: self.message@,
            position: self.position as nat,
            length: self.length as nat,
            command: self.command@,
        }
    }
}

/// The run of the stage `stage` for the pages `pages` in the directory `dir`.
pub open spec fn pipeline_step(
    dir: Seq<char>,
    pages: Seq<Seq<char>>,
    stage: Stage,
) -> PipelineStepView {
    PipelineStepView {
        stage,
        message: stage.message(pages.len()),
        position: stage.position(pages.len()),
        length: progress_length(pages.len()),
        command: stage_command(dir, pages, stage),
    }
}

/// Why processing ended without a document.
#[derive(Debug, PartialEq, Eq)]
pub enum ProcessError {
    /// The directory held no scanned page
    NoScannedPages,
    /// A tool of the pipeline ended in failure
    ToolFailed(ToolFailure),
    /// The directory without pages could not be removed
    Directory(DirectoryError),
    /// The caller reported something that the pipeline was not waiting for
    UnexpectedEvent,
}

/// What a [`ProcessError`] holds, as mathematical values.
pub enum ProcessErrorView {
    NoScannedPages,
    ToolFailed(ToolFailureView),
    Directory(DirectoryError),
    UnexpectedEvent,
}

impl View for ProcessError {
    type V = ProcessErrorView;

    open spec fn view(&self) -> ProcessErrorView {
        match self {
            ProcessError::NoScannedPages => ProcessErrorView::NoScannedPages,
            ProcessError::ToolFailed(failure) => ProcessErrorView::ToolFailed(failure@),
            ProcessError::Directory(error) => ProcessErrorView::Directory(*error),
            ProcessError::UnexpectedEvent => ProcessErrorView::UnexpectedEvent,
        }
    }
}

/// What the pipeline is waiting for.
#[derive(Debug, Clone, Copy, PartialEq, Eq, Structural)]
pub enum Phase {
    /// Nothing has been asked for yet
    Start,
    /// The directory's listing
    Listing,
    /// The end of the tool that this stage runs
    Running(Stage),
    /// The removal of the directory
    Discarding,
    /// Nothing: the pipeline has ended
    Finished,
}

/// The state of the pipeline: what it waits for, and the pages it found.
#[derive(Debug, PartialEq, Eq)]
pub struct ProcessState {
    /// What the pipeline is waiting for
    pub phase: Phase,
    /// The scanned pages, in the order of the listing
    pub pages: Vec<String>,
}

/// What a [`ProcessState`] holds, as mathematical values.
pub struct ProcessStateView {
    pub phase: Phase,
    pub pages: Seq<Seq<char>>,
}

impl View for ProcessState {
    type V = ProcessStateView;

    open spec fn view(&self) -> ProcessStateView {
        ProcessStateView { phase: self.phase, pages: self.pages.deep_view() }
    }
}

impl ProcessState {
    /// The state of a pipeline that has not begun.
    pub fn new() -> (state: ProcessState)
        ensures
            state@ == (ProcessStateView { phase: Phase::Start, pages: Seq::empty() }),
    {
        let state = ProcessState { phase: Phase::Start, pages: Vec::new() };
        assert(state.pages.deep_view() =~= Seq::<Seq<char>>::empty());
        state
    }
}

/// What the caller observed since the pipeline last answered.
#[derive(Debug, PartialEq, Eq)]
pub enum ProcessEvent {
    /// Processing is to begin
    Begin,
    /// The names of the entries of the document directory
    Listed(Vec<String>),
    /// The tool that was to run has ended
    Exited(ToolOutput),
    /// The document directory has been removed
    Removed,
    /// The document directory could not be removed
    RemovalFailed,
}

/// What a [`ProcessEvent`] holds, as mathematical values.
pub enum ProcessEventView {
    Begin,
    Listed(Seq<Seq<char>>),
    Exited(ToolOutputView),
    Removed,
    RemovalFailed,
}

impl View for ProcessEvent {
    type V = ProcessEventView;

    open spec fn view(&self) -> ProcessEventView {
        match self {
            ProcessEvent::Begin => ProcessEventView::Begin,
            ProcessEvent::Listed(entries) => ProcessEventView::Listed(entries.deep_view()),
            ProcessEvent::Exited(output) => ProcessEventView::Exited(output@),
            ProcessEvent::Removed => ProcessEventView::Removed,
            ProcessEvent::RemovalFailed => ProcessEventView::RemovalFailed,
        }
    }
}

/// What the caller is to do next.
#[derive(Debug, PartialEq, Eq)]
pub enum ProcessAction {
    /// List the document directory and report the names of its entries
    List,
    /// Show the step's message and position, run its command and report
    /// how it ended
    Run(PipelineStep),
    /// Remove the document directory with all it holds and report that
    RemoveDirectory,
    /// Stop with this result; on success the progress counter is at its end
    Finish(Result<(), ProcessError>),
}

/// What a [`ProcessAction`] holds, as mathematical values.
pub enum ProcessActionView {
    List,
    Run(PipelineStepView),
    RemoveDirectory,
    Finish(Result<(), ProcessErrorView>),
}

impl View for ProcessAction {
    type V = ProcessActionView;

    open spec fn view(&self) -> ProcessActionView {
        match self {
            ProcessAction::List => ProcessActionView::List,
            ProcessAction::Run(step) => ProcessActionView::Run(step@),
            ProcessAction::RemoveDirectory => ProcessActionView::RemoveDirectory,
            ProcessAction::Finish(result) => ProcessActionView::Finish(
                match result {
                    Ok(_) => Ok(()),
                    Err(error) => Err(error@),
                },
            ),
        }
    }
}

/// The state in which the pipeline has ended.
pub open spec fn finished(pages: Seq<Seq<char>>) -> ProcessStateView {
    ProcessStateView { phase: Phase::Finished, pages }
}

/// The pipeline's answer when the stage `stage` is to run.
pub open spec fn enter_stage(
    dir: Seq<char>,
    pages: Seq<Seq<char>>,
    stage: Stage,
) -> (ProcessStateView, ProcessActionView) {
    (
        ProcessStateView { phase: Phase::Running(stage), pages },
        ProcessActionView::Run(pipeline_step(dir, pages, stage)),
    )
}

/// The pipeline's rules: the state and the action that follow when `event`
/// arrives in `state`, for the document directory `dir`.
///
/// * At the start the listing is asked for.
/// * A listing without a scanned page has the directory removed, and once
///   it is gone the pipeline ends with `NoScannedPages`; where it cannot be
///   removed, with `RemovalFailed`.
/// * Otherwise the stages run one after the other, each only after the
///   one before it ended in success. The first failure ends the pipeline
///   with `ToolFailed` and nothing further is run or removed.
/// * After the last stage the pipeline ends in success.
/// * An event that the state does not wait for ends the pipeline with
///   `UnexpectedEvent`.
pub open spec fn process_step(
    dir: Seq<char>,
    state: ProcessStateView,
    event: ProcessEventView,
) -> (ProcessStateView, ProcessActionView) {
    match (state.phase, event) {
        (Phase::Start, ProcessEventView::Begin) => (
            ProcessStateView { phase: Phase::Listing, pages: state.pages },
            ProcessActionView::List,
        ),
        (Phase::Listing, ProcessEventView::Listed(entries)) => {
            let pages = scanned_pages(entries);
            if pages.len() == 0 {
                (
                    ProcessStateView { phase: Phase::Discarding, pages },
                    ProcessActionView::RemoveDirectory,
                )
            } else {
                enter_stage(dir, pages, Stage::Contrast { page: 0 })
            }
        },
        (Phase::Discarding, ProcessEventView::Removed) => (
            finished(state.pages),
            ProcessActionView::Finish(Err(ProcessErrorView::NoScannedPages)),
        ),
        (Phase::Discarding, ProcessEventView::RemovalFailed) => (
            finished(state.pages),
            ProcessActionView::Finish(
                Err(ProcessErrorView::Directory(DirectoryError::RemovalFailed)),
            ),
        ),
        (Phase::Running(stage), ProcessEventView::Exited(output)) => {
            if !output.succeeded() {
                (
                    finished(state.pages),
                    ProcessActionView::Finish(
                        Err(ProcessErrorView::ToolFailed(output.failure(stage.tool()))),
                    ),
                )
            } else {
                match stage.successor(state.pages.len()) {
                    Some(next) => enter_stage(dir, state.pages, next),
                    None => (finished(state.pages), ProcessActionView::Finish(Ok(()))),
                }
            }
        },
        _ => (
            finished(state.pages),
            ProcessActionView::Finish(Err(ProcessErrorView::UnexpectedEvent)),
        ),
    }
}

/// Whether `name` is the name of a page as the scanner wrote it.
pub fn is_page_name(name: &str) -> (page: bool)
    ensures
        page == is_scanned_page(name@),
{
    has_suffix(name, ".tif") && !has_char(name, '_')
}

/// Picks the scanned pages out of the names of a directory listing.
pub fn discover_pages(entries: &Vec<String>) -> (pages: Vec<String>)
    ensures
        pages.deep_view() == scanned_pages(entries.deep_view()),
{
    let ghost all = entries.deep_view();
    let ghost qualifies = |name: Seq<char>| is_scanned_page(name);
    let mut pages: Vec<String> = Vec::new();
    let mut i: usize = 0;
    proof {
        reveal(Seq::filter);
    }
    while i < entries.len()
        invariant
            i <= entries.len(),
            all == entries.deep_view(),
            qualifies == |name: Seq<char>| is_scanned_page(name),
            pages.deep_view() == all.take(i as int).filter(qualifies),
        decreases entries.len() - i,
    {
        proof {
            reveal(Seq::filter);
            assert(all.take(i + 1).drop_last() =~= all.take(i as int));
        }
        if is_page_name(entries[i].as_str()) {
            pages.push(entries[i].clone());
        }
        i += 1;
    }
    assert(all.take(entries.len() as int) =~= all);
    pages
}

/// The path of the contrast-corrected sibling of `page` in `directory`.
fn processed_path(directory: &str, page: &str) -> (path: String)
    ensures
        path@ == joined(directory@, processed_name(page@)),
{
    let name = replace_all(page, ".tif", "_processed.tif");
    join_path(directory, name.as_str())
}

fn make_contrast_command(directory: &str, page: &str) -> (command: ToolCommand)
    ensures
        command@ == contrast_command(directory@, page@),
{
    let mut args: Vec<String> = Vec::new();
    args.push(join_path(directory, page));
    args.push(String::from_str("-auto-level"));
    args.push(String::from_str("-level"));
    args.push(String::from_str("10%,90%"));
    args.push(processed_path(directory, page));
    assert(args.deep_view() =~= contrast_command(directory@, page@).args);
    ToolCommand { program: String::from_str("magick"), args }
}

fn make_combine_command(directory: &str, pages: &Vec<String>) -> (command: ToolCommand)
    ensures
        command@ == combine_command(directory@, pages.deep_view()),
{
    let ghost dir = directory@;
    let ghost all = pages.deep_view();
    let mut args: Vec<String> = Vec::new();
    args.push(String::from_str("-c"));
    args.push(String::from_str("lzw"));
    let mut i: usize = 0;
    while i < pages.len()
        invariant
            i <= pages.len(),
            dir == directory@,
            all == pages.deep_view(),
            args.deep_view() == seq!["-c"@, "lzw"@] + processed_paths(dir, all.take(i as int)),
        decreases pages.len() - i,
    {
        let ghost before = args.deep_view();
        args.push(processed_path(directory, pages[i].as_str()));
        assert(before.push(joined(dir, processed_name(all[i as int]))) =~= seq!["-c"@, "lzw"@]
            + processed_paths(dir, all.take(i + 1)));
        i += 1;
    }
    let ghost before = args.deep_view();
    args.push(join_path(directory, "_combined.tif"));
    assert(args.deep_view() =~= before.push(joined(dir, "_combined.tif"@)));
    assert(args.deep_view() =~= combine_command(dir, all).args);
    ToolCommand { program: String::from_str("tiffcp"), args }
}

fn make_convert_command(directory: &str) -> (command: ToolCommand)
    ensures
        command@ == convert_command(directory@),
{
    let mut args: Vec<String> = Vec::new();
    args.push(join_path(directory, "_combined.tif"));
    args.push(String::from_str("-compress"));
    args.push(String::from_str("JPEG"));
    args.push(join_path(directory, "_combined.pdf"));
    assert(args.deep_view() =~= convert_command(directory@).args);
    ToolCommand { program: String::from_str("magick"), args }
}

fn make_ocr_command(directory: &str) -> (command: ToolCommand)
    ensures
        command@ == ocr_command(directory@),
{
    let mut mount = String::from_str(directory);
    mount.append(":/document");
    let mut args: Vec<String> = Vec::new();
    args.push(String::from_str("run"));
    args.push(String::from_str("--rm"));
    args.push(String::from_str("-v"));
    args.push(mount);
    args.push(String::from_str("docker.io/jbarlow83/ocrmypdf:v16.10.0"));
    args.push(String::from_str("/document/_combined.pdf"));
    args.push(String::from_str("/document/_final.pdf"));
    assert(args.deep_view() =~= ocr_command(directory@).args);
    ToolCommand { program: String::from_str("docker"), args }
}

impl Stage {
    /// The name under which a failure of this stage's tool is reported.
    pub fn tool_name(&self) -> (name: &'static str)
        ensures
            name@ == self.tool(),
    {
        match self {
            Stage::Contrast { .. } => "magick",
            Stage::Combine => "tiffcp",
            Stage::Convert => "magick",
            Stage::Ocr => "ocrmypdf",
        }
    }

    /// The status message shown while this stage runs on a document of
    /// `pages` pages.
    pub fn status_message(&self, pages: usize) -> (message: String)
        ensures
            message@ == self.message(pages as nat),
    {
        match self {
            Stage::Contrast { page } => {
                let mut message = String::from_str("Improving contrast (");
                let number = decimal_string(*page as u128 + 1);
                message.append(number.as_str());
                message.append("/");
                let count = decimal_string(pages as u128);
                message.append(count.as_str());
                message.append(")");
                message
            },
            Stage::Combine => String::from_str("Combining TIFs"),
            Stage::Convert => String::from_str("Converting to PDF"),
            Stage::Ocr => String::from_str("Running OCR and generate PDF/A"),
        }
    }

    /// The stage that follows this one in a document of `pages` pages.
    pub fn next(&self, pages: usize) -> (next: Option<Stage>)
        ensures
            next == self.successor(pages as nat),
    {
        match self {
            Stage::Contrast { page } => if *page < pages && *page + 1 < pages {
                Some(Stage::Contrast { page: *page + 1 })
            } else {
                Some(Stage::Combine)
            },
            Stage::Combine => Some(Stage::Convert),
            Stage::Convert => Some(Stage::Ocr),
            Stage::Ocr => None,
        }
    }

    /// Where the progress counter stands while this stage runs.
    pub fn progress(&self, pages: usize) -> (position: u128)
        ensures
            position == self.position(pages as nat),
    {
        match self {
            Stage::Contrast { page } => *page as u128 + 1,
            Stage::Combine => pages as u128 + 1,
            Stage::Convert => pages as u128 + 2,
            Stage::Ocr => pages as u128 + 3,
        }
    }
}

/// Builds the run of `stage`. A contrast stage has to name one of `pages`.
fn make_step(directory: &str, pages: &Vec<String>, stage: Stage) -> (step: PipelineStep)
    requires
        stage matches Stage::Contrast { page } ==> page < pages.len(),
    ensures
        step@ == pipeline_step(directory@, pages.deep_view(), stage),
{
    let command = match stage {
        Stage::Contrast { page } => make_contrast_command(directory, pages[page].as_str()),
        Stage::Combine => make_combine_command(directory, pages),
        Stage::Convert => make_convert_command(directory),
        Stage::Ocr => make_ocr_command(directory),
    };
    PipelineStep {
        stage,
        message: stage.status_message(pages.len()),
        position: stage.progress(pages.len()),
        length: pages.len() as u128 + 4,
        command,
    }
}

fn finish(pages: Vec<String>, result: Result<(), ProcessError>) -> (next: (
    ProcessState,
    ProcessAction,
))
    ensures
        next.0@ == finished(pages.deep_view()),
        next.1@ == ProcessActionView::Finish(
            match result {
                Ok(_) => Ok(()),
                Err(error) => Err(error@),
            },
        ),
{
    (ProcessState { phase: Phase::Finished, pages }, ProcessAction::Finish(result))
}

/// Advances the processing of the document in `directory` by one step:
/// given the state and what the caller observed, answers with the next
/// state and what the caller is to do, exactly as [`process_step`] says.
pub fn process_document(directory: &str, state: ProcessState, event: ProcessEvent) -> (next: (
    ProcessState,
    ProcessAction,
))
    ensures
        (next.0@, next.1@) == process_step(directory@, state@, event@),
{
    let ProcessState { phase, pages } = state;
    match (phase, event) {
        (Phase::Start, ProcessEvent::Begin) => (
            ProcessState { phase: Phase::Listing, pages },
            ProcessAction::List,
        ),
        (Phase::Listing, ProcessEvent::Listed(entries)) => {
            let found = discover_pages(&entries);
            if found.len() == 0 {
                (
                    ProcessState { phase: Phase::Discarding, pages: found },
                    ProcessAction::RemoveDirectory,
                )
            } else {
                let stage = Stage::Contrast { page: 0 };
                let step = make_step(directory, &found, stage);
                (
                    ProcessState { phase: Phase::Running(stage), pages: found },
                    ProcessAction::Run(step),
                )
            }
        },
        (Phase::Discarding, ProcessEvent::Removed) => finish(
            pages,
            Err(ProcessError::NoScannedPages),
        ),
        (Phase::Discarding, ProcessEvent::RemovalFailed) => finish(
            pages,
            Err(ProcessError::Directory(DirectoryError::RemovalFailed)),
        ),
        (Phase::Running(stage), ProcessEvent::Exited(output)) => {
            match check_exit(stage.tool_name(), &output) {
                Err(failure) => finish(pages, Err(ProcessError::ToolFailed(failure))),
                Ok(_) => match stage.next(pages.len()) {
                    Some(following) => {
                        let step = make_step(directory, &pages, following);
                        (
                            ProcessState { phase: Phase::Running(following), pages },
                            ProcessAction::Run(step),
                        )
                    },
                    None => finish(pages, Ok(())),
                },
            }
        },
        (_, _) => finish(pages, Err(ProcessError::UnexpectedEvent)),
    }
}

/// A name is taken for a page if and only if the listing holds it and it
/// is the name of a scanned page.
pub proof fn lemma_discovered_iff_listed_page(entries: Seq<Seq<char>>, name: Seq<char>)
    ensures
        scanned_pages(entries).contains(name) <==> (entries.contains(name) && is_scanned_page(
            name,
        )),
{
    let qualifies = |name: Seq<char>| is_scanned_page(name);
    let pages = scanned_pages(entries);
    if pages.contains(name) {
        let i = choose|i: int| 0 <= i < pages.len() && pages[i] == name;
        entries.lemma_filter_pred(qualifies, i);
        entries.lemma_filter_contains_rev(qualifies, name);
    }
    if entries.contains(name) && is_scanned_page(name) {
        let j = choose|j: int| 0 <= j < entries.len() && entries[j] == name;
        entries.lemma_filter_contains(qualifies, j);
    }
}

/// The stage that runs after `done` stages have ended in success, in a
/// document of `pages` pages: the pages' contrast correction in their
/// order, then combination, conversion and recognition.
pub open spec fn stage_at(done: nat, pages: nat) -> Stage {
    if done < pages {
        Stage::Contrast { page: done as usize }
    } else if done == pages {
        Stage::Combine
    } else if done == pages + 1 {
        Stage::Convert
    } else {
        Stage::Ocr
    }
}

/// The stages follow each other in one fixed order, and the progress
/// counter stands one higher in each: at 1 while the first page is
/// corrected, and one short of its end while the text is recognised.
pub proof fn lemma_stage_order(done: nat, pages: nat)
    requires
        pages <= usize::MAX,
        done <= pages + 2,
    ensures
        stage_at(done, pages).position(pages) == done + 1,
        stage_at(done, pages).position(pages) < progress_length(pages),
        done < pages + 2 ==> stage_at(done, pages).successor(pages) == Some(
            stage_at(done + 1, pages),
        ),
        done == pages + 2 ==> stage_at(done, pages).successor(pages).is_none(),
        done == pages + 2 ==> stage_at(done, pages).position(pages) + 1 == progress_length(pages),
{
}

/// A stage that ends in success is followed by the next stage in the
/// order, and the last one by the end of the pipeline in success.
pub proof fn lemma_success_runs_next_stage(
    dir: Seq<char>,
    pages: Seq<Seq<char>>,
    done: nat,
    output: ToolOutputView,
)
    requires
        pages.len() <= usize::MAX,
        done <= pages.len() + 2,
        output.succeeded(),
    ensures
        process_step(
            dir,
            ProcessStateView { phase: Phase::Running(stage_at(done, pages.len())), pages },
            ProcessEventView::Exited(output),
        ) == (if done < pages.len() + 2 {
            enter_stage(dir, pages, stage_at(done + 1, pages.len()))
        } else {
            (finished(pages), ProcessActionView::Finish(Ok(())))
        }),
{
    lemma_stage_order(done, pages.len());
}

/// A directory whose listing holds no scanned page is removed, and once it
/// is gone the pipeline ends with `NoScannedPages`.
pub proof fn lemma_no_pages_discards_directory(
    dir: Seq<char>,
    state: ProcessStateView,
    entries: Seq<Seq<char>>,
)
    requires
        state.phase == Phase::Listing,
        scanned_pages(entries).len() == 0,
    ensures
        ({
            let listed = process_step(dir, state, ProcessEventView::Listed(entries));
            let removed = process_step(dir, listed.0, ProcessEventView::Removed);
            &&& listed.1 == ProcessActionView::RemoveDirectory
            &&& removed.1 == ProcessActionView::Finish(Err(ProcessErrorView::NoScannedPages))
            &&& removed.0.phase == Phase::Finished
        }),
{
}

/// A directory with at least one scanned page is never removed: the first
/// page's contrast correction is run.
pub proof fn lemma_pages_start_pipeline(
    dir: Seq<char>,
    state: ProcessStateView,
    entries: Seq<Seq<char>>,
)
    requires
        state.phase == Phase::Listing,
        scanned_pages(entries).len() > 0,
    ensures
        process_step(dir, state, ProcessEventView::Listed(entries)) == enter_stage(
            dir,
            scanned_pages(entries),
            Stage::Contrast { page: 0 },
        ),
{
}

/// The directory is removed for one reason only: its listing held no
/// scanned page.
pub proof fn lemma_only_empty_listing_removes(
    dir: Seq<char>,
    state: ProcessStateView,
    event: ProcessEventView,
)
    requires
        process_step(dir, state, event).1 == ProcessActionView::RemoveDirectory,
    ensures
        state.phase == Phase::Listing,
        event matches ProcessEventView::Listed(entries) && scanned_pages(entries).len() == 0,
{
}

/// A tool that ends in failure ends the pipeline with `ToolFailed` for that
/// tool, whatever stage it was.
pub proof fn lemma_failure_ends_pipeline(
    dir: Seq<char>,
    state: ProcessStateView,
    stage: Stage,
    output: ToolOutputView,
)
    requires
        state.phase == Phase::Running(stage),
        !output.succeeded(),
    ensures
        process_step(dir, state, ProcessEventView::Exited(output)) == (
            finished(state.pages),
            ProcessActionView::Finish(
                Err(ProcessErrorView::ToolFailed(output.failure(stage.tool()))),
            ),
        ),
{
}

/// Once the pipeline has ended it stays ended: whatever is reported, no
/// tool is run and nothing is removed.
pub proof fn lemma_finished_pipeline_stays(
    dir: Seq<char>,
    state: ProcessStateView,
    event: ProcessEventView,
)
    requires
        state.phase == Phase::Finished,
    ensures
        process_step(dir, state, event).0.phase == Phase::Finished,
        process_step(dir, state, event).1 is Finish,
{
}

/// What processing derives is never taken for a page itself: neither the
/// corrected sibling of a page, nor the combined image, nor either PDF. So
/// no stage writes over a page, and a second listing of the directory finds
/// the same pages as the first.
pub proof fn lemma_derived_files_are_no_pages(page: Seq<char>)
    requires
        is_scanned_page(page),
    ensures
        !is_scanned_page(processed_name(page)),
        !is_scanned_page("_combined.tif"@),
        !is_scanned_page("_combined.pdf"@),
        !is_scanned_page("_final.pdf"@),
{
    reveal_strlit(".tif");
    reveal_strlit("_processed.tif");
    reveal_strlit("_combined.tif");
    reveal_strlit("_combined.pdf");
    reveal_strlit("_final.pdf");
    let at = page.len() - 4;
    lemma_replaced_holds_replacement(page, ".tif"@, "_processed.tif"@, at);
    assert("_combined.tif"@[0] == '_');
    assert("_combined.pdf"@[0] == '_');
    assert("_final.pdf"@[0] == '_');
}

/// Each stage reads what the stage before it wrote: the combination takes
/// the corrected pages in the order in which they were corrected, the
/// conversion takes the combined image, and the recognition takes the PDF
/// of the conversion, which the container sees below `/document`.
pub proof fn lemma_stages_read_what_was_written(dir: Seq<char>, pages: Seq<Seq<char>>)
    ensures
        combine_command(dir, pages).args.len() == pages.len() + 3,
        forall|i: int|
            0 <= i < pages.len() ==> combine_command(dir, pages).args[2 + i] == (
            #[trigger] contrast_command(dir, pages[i])).args[4],
        combine_command(dir, pages).args.last() == convert_command(dir).args[0],
        convert_command(dir).args[3] == joined(dir, "_combined.pdf"@),
        ocr_command(dir).args[3] == dir + ":/document"@,
        ocr_command(dir).args[5] == "/document/"@ + "_combined.pdf"@,
        ocr_command(dir).args[6] == "/document/"@ + "_final.pdf"@,
{
    reveal_strlit("/document/_combined.pdf");
    reveal_strlit("/document/_final.pdf");
    reveal_strlit("/document/");
    reveal_strlit("_combined.pdf");
    reveal_strlit("_final.pdf");
}

/// The actions that the pipeline answers with when `events` arrive one
/// after the other, the first of them in `state`.
pub open spec fn process_actions(
    dir: Seq<char>,
    state: ProcessStateView,
    events: Seq<ProcessEventView>,
) -> Seq<ProcessActionView>
    decreases events.len(),
{
    if events.len() == 0 {
        Seq::empty()
    } else {
        let step = process_step(dir, state, events[0]);
        seq![step.1] + process_actions(dir, step.0, events.skip(1))
    }
}

/// What is reported while a directory with the listing `entries` is
/// processed and every tool ends with `output`.
pub open spec fn smooth_events(entries: Seq<Seq<char>>, output: ToolOutputView) -> Seq<
    ProcessEventView,
> {
    Seq::new(
        scanned_pages(entries).len() + 5,
        |k: int|
            if k == 0 {
                ProcessEventView::Begin
            } else if k == 1 {
                ProcessEventView::Listed(entries)
            } else {
                ProcessEventView::Exited(output)
            },
    )
}

/// What the processing of the pages `pages` is made of: the listing, one
/// run for each stage in its order, and the end in success.
pub open spec fn smooth_actions(dir: Seq<char>, pages: Seq<Seq<char>>) -> Seq<ProcessActionView> {
    Seq::new(
        pages.len() + 5,
        |k: int|
            if k == 0 {
                ProcessActionView::List
            } else if k < pages.len() + 4 {
                ProcessActionView::Run(
                    pipeline_step(dir, pages, stage_at((k - 1) as nat, pages.len())),
                )
            } else {
                ProcessActionView::Finish(Ok(()))
            },
    )
}

proof fn lemma_smooth_run_from(
    dir: Seq<char>,
    entries: Seq<Seq<char>>,
    output: ToolOutputView,
    k: nat,
)
    requires
        0 < scanned_pages(entries).len() <= usize::MAX,
        output.succeeded(),
        2 <= k <= scanned_pages(entries).len() + 4,
    ensures
        process_actions(
            dir,
            ProcessStateView {
                phase: Phase::Running(stage_at((k - 2) as nat, scanned_pages(entries).len())),
                pages: scanned_pages(entries),
            },
            smooth_events(entries, output).skip(k as int),
        ) == smooth_actions(dir, scanned_pages(entries)).skip(k as int),
    decreases scanned_pages(entries).len() + 4 - k,
{
    let pages = scanned_pages(entries);
    let events = smooth_events(entries, output);
    let actions = smooth_actions(dir, pages);
    let state = ProcessStateView {
        phase: Phase::Running(stage_at((k - 2) as nat, pages.len())),
        pages,
    };
    let step = process_step(dir, state, events[k as int]);
    assert(events.skip(k as int).skip(1) =~= events.skip(k + 1 as int));
    lemma_success_runs_next_stage(dir, pages, (k - 2) as nat, output);
    assert(step.1 == actions[k as int]);
    if k < pages.len() + 4 {
        lemma_smooth_run_from(dir, entries, output, k + 1);
    } else {
        assert(process_actions(dir, step.0, events.skip(k + 1 as int)) =~= actions.skip(
            k + 1 as int,
        ));
    }
    assert(seq![actions[k as int]] + actions.skip(k + 1 as int) =~= actions.skip(k as int));
}

/// A directory that holds scanned pages, processed with every tool ending
/// in success, is listed once; then every page's contrast is corrected,
/// in the order of the listing, the corrected pages are combined, the
/// combination is converted and its text recognised; then the pipeline ends
/// in success. Nothing else is run and nothing is removed.
pub proof fn lemma_smooth_run(
    dir: Seq<char>,
    start: ProcessStateView,
    entries: Seq<Seq<char>>,
    output: ToolOutputView,
)
    requires
        start.phase == Phase::Start,
        0 < scanned_pages(entries).len() <= usize::MAX,
        output.succeeded(),
    ensures
        process_actions(dir, start, smooth_events(entries, output)) == smooth_actions(
            dir,
            scanned_pages(entries),
        ),
{
    let pages = scanned_pages(entries);
    let events = smooth_events(entries, output);
    let actions = smooth_actions(dir, pages);
    let begun = process_step(dir, start, events[0]);
    let listed = process_step(dir, begun.0, events[1]);
    assert(events.skip(1).skip(1) =~= events.skip(2));
    lemma_smooth_run_from(dir, entries, output, 2);
    reveal_with_fuel(process_actions, 3);
    assert(process_actions(dir, start, events) =~= seq![begun.1, listed.1] + actions.skip(2));
    assert(seq![actions[0], actions[1]] + actions.skip(2) =~= actions);
}

/// Every file that the scanning tool writes is found as a page, and its
/// corrected sibling carries the same number followed by `_processed`.
pub proof fn lemma_scanner_files_are_pages(number: nat)
    ensures
        is_scanned_page(page_file_name(number)),
        processed_name(page_file_name(number)) == decimal(number) + "_processed.tif"@,
{
    reveal_strlit(".tif");
    let digits = decimal(number);
    let name = page_file_name(number);
    lemma_decimal_is_digits(number);
    assert(name.skip(name.len() - 4) =~= ".tif"@);
    assert forall|i: int| 0 <= i < digits.len() implies digits[i] != '_' && digits[i] != '.' by {
        assert(is_digit(digits[i]));
    }
    assert forall|i: int| 0 <= i < name.len() implies name[i] != '_' by {
        if i < digits.len() {
            assert(name[i] == digits[i]);
        } else {
            assert(name[i] == ".tif"@[i - digits.len()]);
        }
    }
    lemma_replaced_at_end(digits, ".tif"@, "_processed.tif"@);
}

} // verus!
