//! Scanning: how the scanning tool is called, and the order of everything
//! that happens between the operator's first choice and the committed
//! directory.
//!
//! Both [`run_scanimage`] and [`scan_document`] are state machines. They
//! take the state and what the caller last observed, and answer with the
//! next state and what to do next. They ask no question, start no program
//! and touch no file themselves.

use vstd::prelude::*;
use vstd::string::*;
use crate::config::{Scanner, ScannerView};
use crate::fs_utils::{emptying_steps, ensure_empty_dir_exists, DirStep, DirectoryError, PathKind};
use crate::source::{mode_options, resolution_for, resolve_source, resolved_source, Resolution,
    ScanError, ScanErrorView, ScanMode};
use crate::text::{decimal, decimal_string, join_path, joined};
use crate::tool::{check_exit, ToolCommand, ToolCommandView, ToolOutput, ToolOutputView};

verus! {

/// The arguments of one call of the scanning tool: TIFF output into
/// `scans_dir` under numbered names that start at `1000 + start`, at most
/// `count` pages where a count is given, at `dpi` dots per inch, on an A4
/// page, from `source`, followed by the scanner's own arguments as they are.
pub open spec fn scanimage_arguments(
    scans_dir: Seq<char>,
    additional: Seq<Seq<char>>,
    source: Seq<char>,
    start: nat,
    count: Option<nat>,
    dpi: nat,
) -> Seq<Seq<char>> {
    seq![
        "--format=tiff"@,
        "--batch="@ + joined(scans_dir, "%d.tif"@),
        "--batch-start="@ + decimal(1000 + start),
    ] + (match count {
        Some(pages) => seq!["--batch-count="@ + decimal(pages)],
        None => Seq::empty(),
    }) + seq![
        "--resolution="@ + decimal(dpi),
        "-x"@,
        "210"@,
        "-y"@,
        "297"@,
        "--source="@ + source,
    ] + additional
}

/// One call of the scanning tool.
pub open spec fn scanimage_call(
    scans_dir: Seq<char>,
    scanner: ScannerView,
    source: Seq<char>,
    start: nat,
    count: Option<nat>,
    resolution: Resolution,
) -> ToolCommandView {
    ToolCommandView {
        program: "scanimage"@,
        args: scanimage_arguments(
            scans_dir,
            scanner.additional_args,
            source,
            start,
            count,
            resolution.dpi(),
        ),
    }
}

/// The name of the file that the scanning tool writes for the page with
/// the number `number`.
pub open spec fn page_file_name(number: nat) -> Seq<char> {
    decimal(number) + ".tif"@
}

/// The name of the file that holds page `index` of a batch that was started
/// with the offset `start`: the first page of a batch without offset is
/// `1000.tif`, and every page and every step of the offset counts one up.
pub fn batch_file_name(start: usize, index: usize) -> (name: String)
    ensures
        name@ == page_file_name(1000 + start as nat + index as nat),
{
    let mut name = decimal_string(1000 + start as u128 + index as u128);
    name.append(".tif");
    name
}

/// The call of the scanning tool for the batch `batch` of `mode` from the
/// source `source`: the feeder is read in one batch without a limit, the
/// glass one page per batch, each page numbered after the one before.
pub open spec fn batch_call(
    scans_dir: Seq<char>,
    scanner: ScannerView,
    source: Seq<char>,
    mode: ScanMode,
    resolution: Resolution,
    batch: nat,
) -> ToolCommandView {
    match mode {
        ScanMode::Flatbed { .. } => scanimage_call(
            scans_dir,
            scanner,
            source,
            batch,
            Some(1nat),
            resolution,
        ),
        _ => scanimage_call(scans_dir, scanner, source, 0, None, resolution),
    }
}

/// Builds one call of the scanning tool.
pub fn scanimage_command(
    scans_dir: &str,
    scanner: &Scanner,
    source: &str,
    start: usize,
    count: Option<usize>,
    resolution: &Resolution,
) -> (command: ToolCommand)
    ensures
        command@ == scanimage_call(
            scans_dir@,
            scanner@,
            source@,
            start as nat,
            match count {
                Some(pages) => Some(pages as nat),
                None => None,
            },
            *resolution,
        ),
{
    let ghost wanted = scanimage_call(
        scans_dir@,
        scanner@,
        source@,
        start as nat,
        match count {
            Some(pages) => Some(pages as nat),
            None => None,
        },
        *resolution,
    ).args;
    let mut args: Vec<String> = Vec::new();
    args.push(String::from_str("--format=tiff"));
    let mut batch = String::from_str("--batch=");
    let template = join_path(scans_dir, "%d.tif");
    batch.append(template.as_str());
    args.push(batch);
    let mut batch_start = String::from_str("--batch-start=");
    let first = decimal_string(start as u128 + 1000);
    batch_start.append(first.as_str());
    args.push(batch_start);
    match count {
        Some(pages) => {
            let mut batch_count = String::from_str("--batch-count=");
            let limit = decimal_string(pages as u128);
            batch_count.append(limit.as_str());
            args.push(batch_count);
        },
        None => {},
    }
    let mut dots = String::from_str("--resolution=");
    let dpi = decimal_string(resolution.as_dpi() as u128);
    dots.append(dpi.as_str());
    args.push(dots);
    args.push(String::from_str("-x"));
    args.push(String::from_str("210"));
    args.push(String::from_str("-y"));
    args.push(String::from_str("297"));
    let mut from = String::from_str("--source=");
    from.append(source);
    args.push(from);
    let ghost fixed = args.deep_view();
    assert(fixed + scanner@.additional_args =~= wanted);
    let mut i: usize = 0;
    while i < scanner.additional_args.len()
        invariant
            i <= scanner.additional_args.len(),
            args.deep_view() == fixed + scanner@.additional_args.take(i as int),
        decreases scanner.additional_args.len() - i,
    {
        let ghost before = args.deep_view();
        args.push(scanner.additional_args[i].clone());
        assert(args.deep_view() =~= before.push(scanner@.additional_args[i as int]));
        i += 1;
    }
    assert(scanner@.additional_args.take(scanner.additional_args.len() as int)
        =~= scanner@.additional_args);
    ToolCommand { program: String::from_str("scanimage"), args }
}

/// What one scan needs to know of its surroundings.
#[derive(Debug, PartialEq, Eq)]
pub struct ScanContext<'a> {
    /// The scanner to use for scanning
    pub scanner: &'a Scanner,
    /// Whether to copy prepared pages in place of calling the device
    pub fake_scan: bool,
}

/// What a [`ScanContext`] holds, as mathematical values.
pub struct ScanContextView {
    pub scanner: ScannerView,
    pub fake_scan: bool,
}

impl<'a> View for ScanContext<'a> {
    type V = ScanContextView;

    open spec fn view(&self) -> ScanContextView {
        ScanContextView { scanner: self.scanner@, fake_scan: self.fake_scan }
    }
}

/// What the caller observed since the scan last answered.
#[derive(Debug, PartialEq, Eq)]
pub enum ScanEvent {
    /// The scan is to begin
    Begin,
    /// What is at the path that was to be looked at
    Found(PathKind),
    /// The directory was reset, the files were copied, or the directory
    /// was renamed, whichever was asked for
    Done,
    /// This step of a reset could not be carried out
    StepFailed(DirStep),
    /// The operator chose the mode with this index in the offered list
    Selected(usize),
    /// The operator gave this number of pages
    Counted(usize),
    /// The operator chose these options
    Options { high_resolution: bool },
    /// The operator answered a confirmation
    Confirmed(bool),
    /// The operator left a question unanswered
    Cancelled,
    /// The scanning tool has ended
    Exited(ToolOutput),
}

/// What a [`ScanEvent`] holds, as mathematical values.
pub enum ScanEventView {
    Begin,
    Found(PathKind),
    Done,
    StepFailed(DirStep),
    Selected(usize),
    Counted(usize),
    Options { high_resolution: bool },
    Confirmed(bool),
    Cancelled,
    Exited(ToolOutputView),
}

impl View for ScanEvent {
    type V = ScanEventView;

    open spec fn view(&self) -> ScanEventView {
        match self {
            ScanEvent::Begin => ScanEventView::Begin,
            ScanEvent::Found(kind) => ScanEventView::Found(*kind),
            ScanEvent::Done => ScanEventView::Done,
            ScanEvent::StepFailed(step) => ScanEventView::StepFailed(*step),
            ScanEvent::Selected(index) => ScanEventView::Selected(*index),
            ScanEvent::Counted(pages) => ScanEventView::Counted(*pages),
            ScanEvent::Options { high_resolution } => ScanEventView::Options {
                high_resolution: *high_resolution,
            },
            ScanEvent::Confirmed(answer) => ScanEventView::Confirmed(*answer),
            ScanEvent::Cancelled => ScanEventView::Cancelled,
            ScanEvent::Exited(output) => ScanEventView::Exited(output@),
        }
    }
}

/// What the caller is to do next.
#[derive(Debug, PartialEq, Eq)]
pub enum ScanAction {
    /// Look what is at the path and report it
    Probe { path: String },
    /// Carry out the steps at the path, in order, and report when done
    Reset { path: String, steps: Vec<DirStep> },
    /// Let the operator choose one of the modes, without a default, and
    /// report its index
    ChooseMode { options: Vec<ScanMode> },
    /// Ask the operator for the number of pages, at least 1, and report it
    AskPageCount,
    /// Let the operator choose the options and report them
    ChooseOptions,
    /// Ask the operator whether to scan this page of that many, and report
    /// the answer
    Confirm { page: usize, total: usize },
    /// Run the command with a busy indication and report how it ended
    Invoke { command: ToolCommand },
    /// Wait for the delay, copy the regular files of one directory into
    /// the other, and report when done
    CopyFixture { from: String, to: String, delay_secs: u64 },
    /// Rename the directory and report when done
    Commit { from: String, to: String },
    /// Stop with this result
    Finish(Result<(), ScanError>),
}

/// What a [`ScanAction`] holds, as mathematical values.
pub enum ScanActionView {
    Probe { path: Seq<char> },
    Reset { path: Seq<char>, steps: Seq<DirStep> },
    ChooseMode { options: Seq<ScanMode> },
    AskPageCount,
    ChooseOptions,
    Confirm { page: nat, total: nat },
    Invoke { command: ToolCommandView },
    CopyFixture { from: Seq<char>, to: Seq<char>, delay_secs: nat },
    Commit { from: Seq<char>, to: Seq<char> },
    Finish(Result<(), ScanErrorView>),
}

impl View for ScanAction {
    type V = ScanActionView;

    open spec fn view(&self) -> ScanActionView {
        match self {
            ScanAction::Probe { path } => ScanActionView::Probe { path: path@ },
            ScanAction::Reset { path, steps } => ScanActionView::Reset {
                path: path@,
                steps: steps@,
            },
            ScanAction::ChooseMode { options } => ScanActionView::ChooseMode { options: options@ },
            ScanAction::AskPageCount => ScanActionView::AskPageCount,
            ScanAction::ChooseOptions => ScanActionView::ChooseOptions,
            ScanAction::Confirm { page, total } => ScanActionView::Confirm {
                page: *page as nat,
                total: *total as nat,
            },
            ScanAction::Invoke { command } => ScanActionView::Invoke { command: command@ },
            ScanAction::CopyFixture { from, to, delay_secs } => ScanActionView::CopyFixture {
                from: from@,
                to: to@,
                delay_secs: *delay_secs as nat,
            },
            ScanAction::Commit { from, to } => ScanActionView::Commit { from: from@, to: to@ },
            ScanAction::Finish(result) => ScanActionView::Finish(
                match result {
                    Ok(_) => Ok(()),
                    Err(error) => Err(error@),
                },
            ),
        }
    }
}

/// What the scanning of the batches is waiting for.
#[derive(Debug, PartialEq, Eq, Clone, Copy, Structural)]
pub enum ScanState {
    /// Nothing has been asked for yet
    Ready,
    /// The operator's word on whether to scan the batch with this index
    Confirming { page: usize },
    /// What is at the place of the prepared pages, for the batch with this
    /// index
    Probing { page: usize },
    /// The end of the tool, or of the copy that stands for it, for the
    /// batch with this index
    Running { page: usize },
    /// Nothing: the scanning has ended
    Finished,
}

/// The directory that holds the prepared pages of a simulated scan.
pub open spec fn fixture_dir() -> Seq<char> {
    "testdata"@
}

/// The seconds that a simulated scan waits in place of the device.
pub open spec fn fixture_delay() -> nat {
    2
}

/// The scanning ends with `error`.
pub open spec fn scan_fails(error: ScanErrorView) -> (ScanState, ScanActionView) {
    (ScanState::Finished, ScanActionView::Finish(Err(error)))
}

/// The scanning's answer when the batch `batch` is to be read: the tool is
/// called, or for a simulated scan the place of the prepared pages is
/// looked at. A scanner that lacks the mode's source ends the scanning.
pub open spec fn start_batch(
    scans_dir: Seq<char>,
    context: ScanContextView,
    mode: ScanMode,
    resolution: Resolution,
    batch: usize,
) -> (ScanState, ScanActionView) {
    match resolved_source(mode, context.scanner) {
        Err(error) => scan_fails(error),
        Ok(source) => if context.fake_scan {
            (ScanState::Probing { page: batch }, ScanActionView::Probe { path: fixture_dir() })
        } else {
            (
                ScanState::Running { page: batch },
                ScanActionView::Invoke {
                    command: batch_call(
                        scans_dir,
                        context.scanner,
                        source,
                        mode,
                        resolution,
                        batch as nat,
                    ),
                },
            )
        },
    }
}

/// The scanning's answer when `done` batches have been read: success when
/// that is all of them; else the next batch, on the glass after the
/// operator's confirmation.
pub open spec fn next_batch(
    scans_dir: Seq<char>,
    context: ScanContextView,
    mode: ScanMode,
    resolution: Resolution,
    done: nat,
) -> (ScanState, ScanActionView) {
    if done >= mode.batches() {
        (ScanState::Finished, ScanActionView::Finish(Ok(())))
    } else {
        match mode {
            ScanMode::Flatbed { page_count } => (
                ScanState::Confirming { page: done as usize },
                ScanActionView::Confirm { page: done + 1, total: page_count as nat },
            ),
            _ => start_batch(scans_dir, context, mode, resolution, done as usize),
        }
    }
}

/// The scanning's rules: the state and the action that follow when `event`
/// arrives in `state`.
///
/// * At the start the source is resolved; a scanner that lacks it ends the
///   scanning with `SourceUnavailable`.
/// * The feeder is read in one batch. The glass is read page by page, and
///   before each page the operator is asked; a refusal or a missing answer
///   ends the scanning with `UserAborted`.
/// * A batch is one call of the scanning tool. A call that ends in failure
///   ends the scanning with `ToolFailed`; nothing is tried again.
/// * In a simulated scan a batch is a copy of the prepared pages; where
///   their directory is not there the scanning ends with `FixtureMissing`.
/// * After the last batch the scanning ends in success.
/// * An event that the state does not wait for ends the scanning with
///   `UnexpectedEvent`.
pub open spec fn scan_step(
    scans_dir: Seq<char>,
    context: ScanContextView,
    mode: ScanMode,
    resolution: Resolution,
    state: ScanState,
    event: ScanEventView,
) -> (ScanState, ScanActionView) {
    match (state, event) {
        (ScanState::Ready, ScanEventView::Begin) => match resolved_source(mode, context.scanner) {
            Err(error) => scan_fails(error),
            Ok(_) => next_batch(scans_dir, context, mode, resolution, 0),
        },
        (ScanState::Confirming { page }, ScanEventView::Confirmed(true)) => start_batch(
            scans_dir,
            context,
            mode,
            resolution,
            page,
        ),
        (ScanState::Confirming { .. }, ScanEventView::Confirmed(false)) => scan_fails(
            ScanErrorView::UserAborted,
        ),
        (ScanState::Confirming { .. }, ScanEventView::Cancelled) => scan_fails(
            ScanErrorView::UserAborted,
        ),
        (ScanState::Probing { page }, ScanEventView::Found(found)) => if context.fake_scan && found
            == PathKind::Directory {
            (
                ScanState::Running { page },
                ScanActionView::CopyFixture {
                    from: fixture_dir(),
                    to: scans_dir,
                    delay_secs: fixture_delay(),
                },
            )
        } else if context.fake_scan {
            scan_fails(ScanErrorView::FixtureMissing)
        } else {
            scan_fails(ScanErrorView::UnexpectedEvent)
        },
        (ScanState::Running { page }, ScanEventView::Exited(output)) => if context.fake_scan {
            scan_fails(ScanErrorView::UnexpectedEvent)
        } else if output.succeeded() {
            next_batch(scans_dir, context, mode, resolution, page as nat + 1)
        } else {
            scan_fails(ScanErrorView::ToolFailed(output.failure("scanimage"@)))
        },
        (ScanState::Running { page }, ScanEventView::Done) => if context.fake_scan {
            next_batch(scans_dir, context, mode, resolution, page as nat + 1)
        } else {
            scan_fails(ScanErrorView::UnexpectedEvent)
        },
        _ => scan_fails(ScanErrorView::UnexpectedEvent),
    }
}

fn fail(error: ScanError) -> (next: (ScanState, ScanAction))
    ensures
        (next.0, next.1@) == scan_fails(error@),
{
    (ScanState::Finished, ScanAction::Finish(Err(error)))
}

fn begin_batch(
    scans_dir: &str,
    context: &ScanContext,
    mode: &ScanMode,
    resolution: &Resolution,
    batch: usize,
) -> (next: (ScanState, ScanAction))
    ensures
        (next.0, next.1@) == start_batch(scans_dir@, context@, *mode, *resolution, batch),
{
    match resolve_source(mode, context.scanner) {
        Err(error) => fail(error),
        Ok(source) => {
            if context.fake_scan {
                (
                    ScanState::Probing { page: batch },
                    ScanAction::Probe { path: String::from_str("testdata") },
                )
            } else {
                let command = match mode {
                    ScanMode::Flatbed { .. } => scanimage_command(
                        scans_dir,
                        context.scanner,
                        source,
                        batch,
                        Some(1),
                        resolution,
                    ),
                    _ => scanimage_command(scans_dir, context.scanner, source, 0, None, resolution),
                };
                (ScanState::Running { page: batch }, ScanAction::Invoke { command })
            }
        },
    }
}

fn continue_with(
    scans_dir: &str,
    context: &ScanContext,
    mode: &ScanMode,
    resolution: &Resolution,
    done: usize,
) -> (next: (ScanState, ScanAction))
    ensures
        (next.0, next.1@) == next_batch(scans_dir@, context@, *mode, *resolution, done as nat),
{
    if done >= mode.batch_count() {
        (ScanState::Finished, ScanAction::Finish(Ok(())))
    } else {
        match mode {
            ScanMode::Flatbed { page_count } => (
                ScanState::Confirming { page: done },
                ScanAction::Confirm { page: done + 1, total: *page_count },
            ),
            _ => begin_batch(scans_dir, context, mode, resolution, done),
        }
    }
}

fn after_batch(
    scans_dir: &str,
    context: &ScanContext,
    mode: &ScanMode,
    resolution: &Resolution,
    page: usize,
) -> (next: (ScanState, ScanAction))
    ensures
        (next.0, next.1@) == next_batch(scans_dir@, context@, *mode, *resolution, page as nat + 1),
{
    if page >= mode.batch_count() {
        (ScanState::Finished, ScanAction::Finish(Ok(())))
    } else {
        continue_with(scans_dir, context, mode, resolution, page + 1)
    }
}

/// Advances the scanning of the batches into `scans_dir` by one step: given
/// the state and what the caller observed, answers with the next state and
/// what the caller is to do, exactly as [`scan_step`] says.
///
/// On the glass the number of pages has to be known: at least 1.
pub fn run_scanimage(
    scans_dir: &str,
    context: &ScanContext,
    mode: &ScanMode,
    resolution: &Resolution,
    state: ScanState,
    event: ScanEvent,
) -> (next: (ScanState, ScanAction))
    requires
        mode.runnable(),
    ensures
        (next.0, next.1@) == scan_step(
            scans_dir@,
            context@,
            *mode,
            *resolution,
            state,
            event@,
        ),
{
    match (state, event) {
        (ScanState::Ready, ScanEvent::Begin) => match resolve_source(mode, context.scanner) {
            Err(error) => fail(error),
            Ok(_) => continue_with(scans_dir, context, mode, resolution, 0),
        },
        (ScanState::Confirming { page }, ScanEvent::Confirmed(true)) => begin_batch(
            scans_dir,
            context,
            mode,
            resolution,
            page,
        ),
        (ScanState::Confirming { .. }, ScanEvent::Confirmed(false)) => fail(ScanError::UserAborted),
        (ScanState::Confirming { .. }, ScanEvent::Cancelled) => fail(ScanError::UserAborted),
        (ScanState::Probing { page }, ScanEvent::Found(found)) => {
            if !context.fake_scan {
                fail(ScanError::UnexpectedEvent)
            } else {
                match found {
                    PathKind::Directory => (
                        ScanState::Running { page },
                        ScanAction::CopyFixture {
                            from: String::from_str("testdata"),
                            to: String::from_str(scans_dir),
                            delay_secs: 2,
                        },
                    ),
                    _ => fail(ScanError::FixtureMissing),
                }
            }
        },
        (ScanState::Running { page }, ScanEvent::Exited(output)) => {
            if context.fake_scan {
                fail(ScanError::UnexpectedEvent)
            } else {
                match check_exit("scanimage", &output) {
                    Ok(_) => after_batch(scans_dir, context, mode, resolution, page),
                    Err(failure) => fail(ScanError::ToolFailed(failure)),
                }
            }
        },
        (ScanState::Running { page }, ScanEvent::Done) => {
            if context.fake_scan {
                after_batch(scans_dir, context, mode, resolution, page)
            } else {
                fail(ScanError::UnexpectedEvent)
            }
        },
        (_, _) => fail(ScanError::UnexpectedEvent),
    }
}

/// What a scan session is waiting for.
#[derive(Debug, PartialEq, Eq, Clone, Copy, Structural)]
pub enum SessionState {
    /// Nothing has been asked for yet
    Start,
    /// What is at the staging path
    ProbingWorkspace,
    /// The staging directory, reset
    PreparingWorkspace,
    /// The operator's choice of a mode
    ChoosingMode,
    /// The operator's number of pages
    CountingPages,
    /// The operator's options, for this mode
    ChoosingOptions { mode: ScanMode },
    /// Whatever the scanning of the batches is waiting for
    Scanning { mode: ScanMode, resolution: Resolution, run: ScanState },
    /// The staging directory, renamed
    Committing,
    /// Nothing: the session has ended
    Finished,
}

/// The staging directory below `scans_dir`: the one named `current`.
pub open spec fn staging_dir(scans_dir: Seq<char>) -> Seq<char> {
    joined(scans_dir, "current"@)
}

/// The session ends with `error`.
pub open spec fn session_fails(error: ScanErrorView) -> (SessionState, ScanActionView) {
    (SessionState::Finished, ScanActionView::Finish(Err(error)))
}

/// The session's answer to an answer of the scanning: when the scanning
/// has ended in success the staging directory is committed under the name
/// `stamp`; when it has ended in failure so does the session, and the
/// staging directory stays; else the scanning goes on.
pub open spec fn session_follows(
    scans_dir: Seq<char>,
    mode: ScanMode,
    resolution: Resolution,
    step: (ScanState, ScanActionView),
    stamp: Seq<char>,
) -> (SessionState, ScanActionView) {
    match step.1 {
        ScanActionView::Finish(Ok(_)) => (
            SessionState::Committing,
            ScanActionView::Commit { from: staging_dir(scans_dir), to: joined(scans_dir, stamp) },
        ),
        ScanActionView::Finish(Err(error)) => session_fails(error),
        action => (SessionState::Scanning { mode, resolution, run: step.0 }, action),
    }
}

/// The session's rules: the state and the action that follow when `event`
/// arrives in `state`. `stamp` is the name that a commit in this step
/// gives to the directory.
///
/// * First the staging directory is emptied: what is at its path is
///   looked at, something that is no directory ends the session with
///   `NotADirectory`, and else the directory is removed if it is there and
///   created. A step of that which cannot be carried out ends the session
///   with `RemovalFailed` or `CreationFailed`.
/// * Then the operator chooses among the modes that the scanner offers,
///   gives the number of pages if the mode is flatbed (a number below 1 is
///   asked for again), and chooses the options.
/// * Then the batches are scanned as [`scan_step`] says.
/// * Only when all batches have been scanned is the staging directory
///   renamed, and after that the session ends in success.
/// * A question left unanswered ends the session with `UserAborted`, and
///   an event that the state does not wait for with `UnexpectedEvent`.
pub open spec fn session_step(
    scans_dir: Seq<char>,
    context: ScanContextView,
    state: SessionState,
    event: ScanEventView,
    stamp: Seq<char>,
) -> (SessionState, ScanActionView) {
    match (state, event) {
        (SessionState::Start, ScanEventView::Begin) => (
            SessionState::ProbingWorkspace,
            ScanActionView::Probe { path: staging_dir(scans_dir) },
        ),
        (SessionState::ProbingWorkspace, ScanEventView::Found(found)) => if found
            == PathKind::Other {
            session_fails(ScanErrorView::Directory(DirectoryError::NotADirectory))
        } else {
            (
                SessionState::PreparingWorkspace,
                ScanActionView::Reset {
                    path: staging_dir(scans_dir),
                    steps: emptying_steps(found),
                },
            )
        },
        (SessionState::PreparingWorkspace, ScanEventView::Done) => (
            SessionState::ChoosingMode,
            ScanActionView::ChooseMode { options: mode_options(context.scanner.sources) },
        ),
        (SessionState::PreparingWorkspace, ScanEventView::StepFailed(step)) => session_fails(
            ScanErrorView::Directory(step.failure()),
        ),
        (SessionState::ChoosingMode, ScanEventView::Selected(index)) => {
            let options = mode_options(context.scanner.sources);
            if index >= options.len() {
                session_fails(ScanErrorView::UnexpectedEvent)
            } else if options[index as int] is Flatbed {
                (SessionState::CountingPages, ScanActionView::AskPageCount)
            } else {
                (
                    SessionState::ChoosingOptions { mode: options[index as int] },
                    ScanActionView::ChooseOptions,
                )
            }
        },
        (SessionState::CountingPages, ScanEventView::Counted(pages)) => if pages >= 1 {
            (
                SessionState::ChoosingOptions { mode: ScanMode::Flatbed { page_count: pages } },
                ScanActionView::ChooseOptions,
            )
        } else {
            (SessionState::CountingPages, ScanActionView::AskPageCount)
        },
        (
            SessionState::ChoosingOptions { mode },
            ScanEventView::Options { high_resolution },
        ) => if mode.runnable() {
            let resolution = resolution_for(high_resolution);
            session_follows(
                scans_dir,
                mode,
                resolution,
                scan_step(
                    staging_dir(scans_dir),
                    context,
                    mode,
                    resolution,
                    ScanState::Ready,
                    ScanEventView::Begin,
                ),
                stamp,
            )
        } else {
            session_fails(ScanErrorView::UnexpectedEvent)
        },
        (SessionState::Scanning { mode, resolution, run }, event) => if mode.runnable() {
            session_follows(
                scans_dir,
                mode,
                resolution,
                scan_step(staging_dir(scans_dir), context, mode, resolution, run, event),
                stamp,
            )
        } else {
            session_fails(ScanErrorView::UnexpectedEvent)
        },
        (SessionState::Committing, ScanEventView::Done) => (
            SessionState::Finished,
            ScanActionView::Finish(Ok(())),
        ),
        (SessionState::ChoosingMode, ScanEventView::Cancelled) => session_fails(
            ScanErrorView::UserAborted,
        ),
        (SessionState::CountingPages, ScanEventView::Cancelled) => session_fails(
            ScanErrorView::UserAborted,
        ),
        (SessionState::ChoosingOptions { .. }, ScanEventView::Cancelled) => session_fails(
            ScanErrorView::UserAborted,
        ),
        _ => session_fails(ScanErrorView::UnexpectedEvent),
    }
}

/// The local date and time of this moment, as `chrono` writes it for the
/// pattern `%Y%m%d-%H%M%S`: `chrono::Local::now`, then `DateTime::format`,
/// then the text of what that gives.
///
/// Nothing is claimed of the text: it changes with the clock and the time
/// zone of the machine. With a year of four digits it is eight digits, a
/// hyphen and six digits; `chrono` writes other years with a sign and more
/// digits. Where the clock of the machine stands before 1970 `chrono`
/// panics.
#[verifier::external_body]
fn local_timestamp() -> (stamp: String) {
    chrono::Local::now().format("%Y%m%d-%H%M%S").to_string()
}

fn stop(error: ScanError) -> (next: (SessionState, ScanAction))
    ensures
        (next.0, next.1@) == session_fails(error@),
{
    (SessionState::Finished, ScanAction::Finish(Err(error)))
}

/// Continues the session after the scanning has answered with `step`. The
/// name of a commit is `given` where there is one, else the local time; it
/// comes back as the second part of the result.
fn follow(
    scans_dir: &str,
    mode: ScanMode,
    resolution: Resolution,
    step: (ScanState, ScanAction),
    given: Option<&str>,
) -> (next: ((SessionState, ScanAction), Ghost<Seq<char>>))
    ensures
        given matches Some(name) ==> next.1@ == name@,
        (next.0.0, next.0.1@) == session_follows(
            scans_dir@,
            mode,
            resolution,
            (step.0, step.1@),
            next.1@,
        ),
{
    let ghost spare = match given {
        Some(name) => name@,
        None => Seq::<char>::empty(),
    };
    let (run, action) = step;
    match action {
        ScanAction::Finish(Ok(_)) => {
            let stamp = match given {
                Some(name) => String::from_str(name),
                None => local_timestamp(),
            };
            (
                (
                    SessionState::Committing,
                    ScanAction::Commit {
                        from: join_path(scans_dir, "current"),
                        to: join_path(scans_dir, stamp.as_str()),
                    },
                ),
                Ghost(stamp@),
            )
        },
        ScanAction::Finish(Err(error)) => (stop(error), Ghost(spare)),
        other => ((SessionState::Scanning { mode, resolution, run }, other), Ghost(spare)),
    }
}

/// Advances the session by one step; the name of a commit is `given` where
/// there is one, else the local time, and comes back as the second part of
/// the result.
fn advance(
    scans_dir: &str,
    context: &ScanContext,
    state: SessionState,
    event: ScanEvent,
    given: Option<&str>,
) -> (next: ((SessionState, ScanAction), Ghost<Seq<char>>))
    ensures
        given matches Some(name) ==> next.1@ == name@,
        (next.0.0, next.0.1@) == session_step(scans_dir@, context@, state, event@, next.1@),
{
    let ghost spare = match given {
        Some(name) => name@,
        None => Seq::<char>::empty(),
    };
    let next = match (state, event) {
        (SessionState::Start, ScanEvent::Begin) => (
            SessionState::ProbingWorkspace,
            ScanAction::Probe { path: join_path(scans_dir, "current") },
        ),
        (SessionState::ProbingWorkspace, ScanEvent::Found(found)) => {
            match ensure_empty_dir_exists(found) {
                Err(error) => stop(ScanError::Directory(error)),
                Ok(steps) => (
                    SessionState::PreparingWorkspace,
                    ScanAction::Reset { path: join_path(scans_dir, "current"), steps },
                ),
            }
        },
        (SessionState::PreparingWorkspace, ScanEvent::Done) => (
            SessionState::ChoosingMode,
            ScanAction::ChooseMode { options: ScanMode::options(&context.scanner.sources) },
        ),
        (SessionState::PreparingWorkspace, ScanEvent::StepFailed(step)) => stop(
            ScanError::Directory(step.failed()),
        ),
        (SessionState::ChoosingMode, ScanEvent::Selected(index)) => {
            let options = ScanMode::options(&context.scanner.sources);
            if index >= options.len() {
                stop(ScanError::UnexpectedEvent)
            } else {
                match options[index] {
                    ScanMode::Flatbed { .. } => (
                        SessionState::CountingPages,
                        ScanAction::AskPageCount,
                    ),
                    mode => (SessionState::ChoosingOptions { mode }, ScanAction::ChooseOptions),
                }
            }
        },
        (SessionState::CountingPages, ScanEvent::Counted(pages)) => {
            if pages >= 1 {
                (
                    SessionState::ChoosingOptions { mode: ScanMode::Flatbed { page_count: pages } },
                    ScanAction::ChooseOptions,
                )
            } else {
                (SessionState::CountingPages, ScanAction::AskPageCount)
            }
        },
        (SessionState::ChoosingOptions { mode }, ScanEvent::Options { high_resolution }) => {
            if mode.is_runnable() {
                let resolution = Resolution::from_options(high_resolution);
                let staging = join_path(scans_dir, "current");
                let step = run_scanimage(
                    staging.as_str(),
                    context,
                    &mode,
                    &resolution,
                    ScanState::Ready,
                    ScanEvent::Begin,
                );
                return follow(scans_dir, mode, resolution, step, given);
            } else {
                stop(ScanError::UnexpectedEvent)
            }
        },
        (SessionState::Scanning { mode, resolution, run }, event) => {
            if mode.is_runnable() {
                let staging = join_path(scans_dir, "current");
                let step = run_scanimage(staging.as_str(), context, &mode, &resolution, run, event);
                return follow(scans_dir, mode, resolution, step, given);
            } else {
                stop(ScanError::UnexpectedEvent)
            }
        },
        (SessionState::Committing, ScanEvent::Done) => (
            SessionState::Finished,
            ScanAction::Finish(Ok(())),
        ),
        (SessionState::ChoosingMode, ScanEvent::Cancelled) => stop(ScanError::UserAborted),
        (SessionState::CountingPages, ScanEvent::Cancelled) => stop(ScanError::UserAborted),
        (SessionState::ChoosingOptions { .. }, ScanEvent::Cancelled) => stop(
            ScanError::UserAborted,
        ),
        (_, _) => stop(ScanError::UnexpectedEvent),
    };
    (next, Ghost(spare))
}

/// Advances a scan session below `scans_dir` by one step, with `stamp` as
/// the name that a commit gives to the directory: given the state and what
/// the caller observed, answers with the next state and what the caller is
/// to do, exactly as [`session_step`] says.
pub fn scan_document_at(
    scans_dir: &str,
    context: &ScanContext,
    state: SessionState,
    event: ScanEvent,
    stamp: &str,
) -> (next: (SessionState, ScanAction))
    ensures
        (next.0, next.1@) == session_step(scans_dir@, context@, state, event@, stamp@),
{
    advance(scans_dir, context, state, event, Some(stamp)).0
}

/// Advances a scan session below `scans_dir` by one step. A commit in this
/// step names the directory after the local date and time; everything else
/// is as [`session_step`] says.
pub fn scan_document(
    scans_dir: &str,
    context: &ScanContext,
    state: SessionState,
    event: ScanEvent,
) -> (next: (SessionState, ScanAction))
    ensures
        exists|stamp: Seq<char>|
            (next.0, next.1@) == #[trigger] session_step(
                scans_dir@,
                context@,
                state,
                event@,
                stamp,
            ),
{
    advance(scans_dir, context, state, event, None).0
}

/// How the scanner of a session is arrived at.
#[derive(Debug, PartialEq, Eq)]
pub enum DeviceChoice {
    /// There is one scanner, and this is it
    Only(Scanner),
    /// There are several: the operator has to choose, without a default
    AskOperator,
}

/// What a [`DeviceChoice`] holds, as mathematical values.
pub enum DeviceChoiceView {
    Only(ScannerView),
    AskOperator,
}

impl View for DeviceChoice {
    type V = DeviceChoiceView;

    open spec fn view(&self) -> DeviceChoiceView {
        match self {
            DeviceChoice::Only(scanner) => DeviceChoiceView::Only(scanner@),
            DeviceChoice::AskOperator => DeviceChoiceView::AskOperator,
        }
    }
}

/// Decides how the scanner is arrived at: a single configured scanner is
/// taken without a question, several are put before the operator, and an
/// empty list is refused before anybody is asked.
pub fn select_scanner(scanners: &[Scanner]) -> (choice: Result<DeviceChoice, ScanError>)
    ensures
        scanners.len() == 0 <==> choice is Err,
        choice is Err ==> choice->Err_0@ == ScanErrorView::NoScannersConfigured,
        scanners.len() == 1 ==> choice is Ok && choice->Ok_0@ == DeviceChoiceView::Only(
            scanners@[0]@,
        ),
        scanners.len() > 1 ==> choice is Ok && choice->Ok_0@ == DeviceChoiceView::AskOperator,
{
    if scanners.len() == 0 {
        Err(ScanError::NoScannersConfigured)
    } else if scanners.len() == 1 {
        Ok(DeviceChoice::Only(scanners[0].clone()))
    } else {
        Ok(DeviceChoice::AskOperator)
    }
}

/// The scanner that the operator chose by its place in the list, or
/// nothing where the list has no such place.
pub fn chosen_scanner(scanners: &[Scanner], index: usize) -> (scanner: Option<Scanner>)
    ensures
        index < scanners.len() <==> scanner is Some,
        scanner is Some ==> scanner->Some_0@ == scanners@[index as int]@,
{
    if index < scanners.len() {
        Some(scanners[index].clone())
    } else {
        None
    }
}


/// The actions that the scanning answers with when `events` arrive one
/// after the other, the first of them in `state`.
pub open spec fn scan_actions(
    scans_dir: Seq<char>,
    context: ScanContextView,
    mode: ScanMode,
    resolution: Resolution,
    state: ScanState,
    events: Seq<ScanEventView>,
) -> Seq<ScanActionView>
    decreases events.len(),
{
    if events.len() == 0 {
        Seq::empty()
    } else {
        let step = scan_step(scans_dir, context, mode, resolution, state, events[0]);
        seq![step.1] + scan_actions(
            scans_dir,
            context,
            mode,
            resolution,
            step.0,
            events.skip(1),
        )
    }
}

/// What is reported during a flatbed scan of `pages` pages in which the
/// operator confirms every page and the tool ends every time with `output`.
pub open spec fn confirmed_flatbed_events(pages: nat, output: ToolOutputView) -> Seq<
    ScanEventView,
> {
    Seq::new(
        2 * pages + 1,
        |k: int|
            if k == 0 {
                ScanEventView::Begin
            } else if k % 2 == 1 {
                ScanEventView::Confirmed(true)
            } else {
                ScanEventView::Exited(output)
            },
    )
}

/// What a flatbed scan of `pages` pages is made of: for each page in turn
/// the question whether to scan it and one call of the tool for that one
/// page, numbered after the page before; then the end in success.
pub open spec fn confirmed_flatbed_actions(
    scans_dir: Seq<char>,
    scanner: ScannerView,
    source: Seq<char>,
    pages: nat,
    resolution: Resolution,
) -> Seq<ScanActionView> {
    Seq::new(
        2 * pages + 1,
        |k: int|
            if k % 2 == 1 {
                ScanActionView::Invoke {
                    command: scanimage_call(
                        scans_dir,
                        scanner,
                        source,
                        (k / 2) as nat,
                        Some(1nat),
                        resolution,
                    ),
                }
            } else if k / 2 < pages {
                ScanActionView::Confirm { page: (k / 2 + 1) as nat, total: pages }
            } else {
                ScanActionView::Finish(Ok(()))
            },
    )
}

/// The state in which a confirmed flatbed scan receives its event `k`.
spec fn confirmed_flatbed_state(k: nat) -> ScanState {
    if k == 0 {
        ScanState::Ready
    } else if k % 2 == 1 {
        ScanState::Confirming { page: (k / 2) as usize }
    } else {
        ScanState::Running { page: (k / 2 - 1) as usize }
    }
}

proof fn lemma_flatbed_scan_from(
    scans_dir: Seq<char>,
    context: ScanContextView,
    page_count: usize,
    resolution: Resolution,
    output: ToolOutputView,
    k: nat,
)
    requires
        page_count >= 1,
        !context.fake_scan,
        context.scanner.sources.flatbed is Some,
        output.succeeded(),
        k <= 2 * page_count,
    ensures
        scan_actions(
            scans_dir,
            context,
            ScanMode::Flatbed { page_count },
            resolution,
            confirmed_flatbed_state(k),
            confirmed_flatbed_events(page_count as nat, output).skip(k as int),
        ) == confirmed_flatbed_actions(
            scans_dir,
            context.scanner,
            context.scanner.sources.flatbed->Some_0,
            page_count as nat,
            resolution,
        ).skip(k as int),
    decreases 2 * page_count - k,
{
    let mode = ScanMode::Flatbed { page_count };
    let events = confirmed_flatbed_events(page_count as nat, output);
    let actions = confirmed_flatbed_actions(
        scans_dir,
        context.scanner,
        context.scanner.sources.flatbed->Some_0,
        page_count as nat,
        resolution,
    );
    let state = confirmed_flatbed_state(k);
    let step = scan_step(scans_dir, context, mode, resolution, state, events[k as int]);
    assert(events.skip(k as int).skip(1) =~= events.skip(k + 1 as int));
    assert(step.1 == actions[k as int]);
    if k < 2 * page_count {
        assert(step.0 == confirmed_flatbed_state(k + 1));
        lemma_flatbed_scan_from(scans_dir, context, page_count, resolution, output, k + 1);
    } else {
        assert(scan_actions(scans_dir, context, mode, resolution, step.0, events.skip(k + 1 as int))
            =~= actions.skip(k + 1 as int));
    }
    assert(seq![actions[k as int]] + actions.skip(k + 1 as int) =~= actions.skip(k as int));
}

/// A flatbed scan of any number of pages, every page confirmed and every
/// call of the tool ended in success, is exactly one call of the tool per
/// page: each for one page, the first numbered 1000 and each following one
/// higher, each after the operator was asked, and nothing after the last
/// but the end in success.
pub proof fn lemma_flatbed_scan(
    scans_dir: Seq<char>,
    context: ScanContextView,
    page_count: usize,
    resolution: Resolution,
    output: ToolOutputView,
)
    requires
        page_count >= 1,
        !context.fake_scan,
        context.scanner.sources.flatbed is Some,
        output.succeeded(),
    ensures
        scan_actions(
            scans_dir,
            context,
            ScanMode::Flatbed { page_count },
            resolution,
            ScanState::Ready,
            confirmed_flatbed_events(page_count as nat, output),
        ) == confirmed_flatbed_actions(
            scans_dir,
            context.scanner,
            context.scanner.sources.flatbed->Some_0,
            page_count as nat,
            resolution,
        ),
{
    let events = confirmed_flatbed_events(page_count as nat, output);
    let actions = confirmed_flatbed_actions(
        scans_dir,
        context.scanner,
        context.scanner.sources.flatbed->Some_0,
        page_count as nat,
        resolution,
    );
    lemma_flatbed_scan_from(scans_dir, context, page_count, resolution, output, 0);
    assert(events.skip(0) =~= events);
    assert(actions.skip(0) =~= actions);
}

/// A scan from the feeder is one call of the tool, without a limit on the
/// pages and numbered from 1000, and after its success the end in success.
pub proof fn lemma_feeder_scan(
    scans_dir: Seq<char>,
    context: ScanContextView,
    mode: ScanMode,
    resolution: Resolution,
    output: ToolOutputView,
)
    requires
        !(mode is Flatbed),
        !context.fake_scan,
        mode.source(context.scanner.sources) is Some,
        output.succeeded(),
    ensures
        scan_actions(
            scans_dir,
            context,
            mode,
            resolution,
            ScanState::Ready,
            seq![ScanEventView::Begin, ScanEventView::Exited(output)],
        ) == seq![
            ScanActionView::Invoke {
                command: scanimage_call(
                    scans_dir,
                    context.scanner,
                    mode.source(context.scanner.sources)->Some_0,
                    0,
                    None,
                    resolution,
                ),
            },
            ScanActionView::Finish(Ok(())),
        ],
{
    let events = seq![ScanEventView::Begin, ScanEventView::Exited(output)];
    let first = scan_step(scans_dir, context, mode, resolution, ScanState::Ready, events[0]);
    let second = scan_step(scans_dir, context, mode, resolution, first.0, events[1]);
    reveal_with_fuel(scan_actions, 3);
    assert(scan_actions(scans_dir, context, mode, resolution, ScanState::Ready, events) =~= seq![
        first.1,
        second.1,
    ]);
}

/// A simulated scan never calls the scanning tool, and a real one never
/// touches the prepared pages.
pub proof fn lemma_simulation_calls_no_device(
    scans_dir: Seq<char>,
    context: ScanContextView,
    mode: ScanMode,
    resolution: Resolution,
    state: ScanState,
    event: ScanEventView,
)
    ensures
        context.fake_scan ==> !(scan_step(scans_dir, context, mode, resolution, state, event).1
            is Invoke),
        !context.fake_scan ==> !(scan_step(scans_dir, context, mode, resolution, state, event).1
            is CopyFixture) && !(scan_step(scans_dir, context, mode, resolution, state, event).1
            is Probe),
{
}

/// A call of the tool that ends in failure ends the scanning with
/// `ToolFailed`, whichever batch it was; nothing is tried again.
pub proof fn lemma_failed_call_ends_scan(
    scans_dir: Seq<char>,
    context: ScanContextView,
    mode: ScanMode,
    resolution: Resolution,
    page: usize,
    output: ToolOutputView,
)
    requires
        !context.fake_scan,
        !output.succeeded(),
    ensures
        scan_step(
            scans_dir,
            context,
            mode,
            resolution,
            ScanState::Running { page },
            ScanEventView::Exited(output),
        ) == scan_fails(ScanErrorView::ToolFailed(output.failure("scanimage"@))),
{
}

/// The batch that the session is about, while it is scanning.
pub open spec fn current_batch(state: SessionState) -> Option<nat> {
    match state {
        SessionState::Scanning { run: ScanState::Confirming { page }, .. } => Some(page as nat),
        SessionState::Scanning { run: ScanState::Probing { page }, .. } => Some(page as nat),
        SessionState::Scanning { run: ScanState::Running { page }, .. } => Some(page as nat),
        _ => None,
    }
}

/// `event` reports the success of the batch that `context` was running.
pub open spec fn batch_succeeded(context: ScanContextView, event: ScanEventView) -> bool {
    if context.fake_scan {
        event == ScanEventView::Done
    } else {
        event matches ScanEventView::Exited(output) && output.succeeded()
    }
}

/// Batches are scanned in their order and none is passed over: the session
/// comes to its first batch from the operator's options, and to any other
/// batch only by the success of the batch before it.
pub proof fn lemma_batches_in_order(
    scans_dir: Seq<char>,
    context: ScanContextView,
    state: SessionState,
    event: ScanEventView,
    stamp: Seq<char>,
)
    requires
        current_batch(session_step(scans_dir, context, state, event, stamp).0) is Some,
    ensures
        ({
            let after = session_step(scans_dir, context, state, event, stamp).0;
            let next = current_batch(after)->Some_0;
            match current_batch(state) {
                Some(page) => next == page || (next == page + 1 && batch_succeeded(context, event)
                    && state matches SessionState::Scanning { run: ScanState::Running { .. }, .. }),
                None => next == 0 && (state is ChoosingOptions || state
                    matches SessionState::Scanning { run: ScanState::Ready, .. }),
            }
        }),
{
}

/// The staging directory is renamed in one situation only: the last batch
/// of a scan that can be carried out has just ended in success. It is then
/// renamed from `current` to the name of the commit, both below the same
/// directory.
pub proof fn lemma_commit_only_after_last_batch(
    scans_dir: Seq<char>,
    context: ScanContextView,
    state: SessionState,
    event: ScanEventView,
    stamp: Seq<char>,
)
    requires
        session_step(scans_dir, context, state, event, stamp).1 is Commit,
    ensures
        ({
            &&& state matches SessionState::Scanning { mode, run, .. }
            &&& mode.runnable()
            &&& run matches ScanState::Running { page }
            &&& page + 1 >= mode.batches()
            &&& batch_succeeded(context, event)
        }),
        session_step(scans_dir, context, state, event, stamp) == (
            SessionState::Committing,
            ScanActionView::Commit { from: staging_dir(scans_dir), to: joined(scans_dir, stamp) },
        ),
{
}

/// Whatever the session has removed, created, looked at for its workspace
/// or renamed is the directory `current` below the scans directory.
pub proof fn lemma_workspace_is_current(
    scans_dir: Seq<char>,
    context: ScanContextView,
    state: SessionState,
    event: ScanEventView,
    stamp: Seq<char>,
)
    ensures
        ({
            let action = session_step(scans_dir, context, state, event, stamp).1;
            &&& action matches ScanActionView::Reset { path, .. } ==> path == staging_dir(scans_dir)
            &&& action matches ScanActionView::Commit { from, .. } ==> from == staging_dir(
                scans_dir,
            )
            &&& action matches ScanActionView::CopyFixture { to, .. } ==> to == staging_dir(
                scans_dir,
            )
        }),
{
}

/// Once the session has ended it stays ended: whatever is reported,
/// nothing is scanned, reset or renamed. A scan that failed therefore
/// leaves its staging directory as it was.
pub proof fn lemma_finished_session_stays(
    scans_dir: Seq<char>,
    context: ScanContextView,
    event: ScanEventView,
    stamp: Seq<char>,
)
    ensures
        session_step(scans_dir, context, SessionState::Finished, event, stamp).0
            == SessionState::Finished,
        session_step(scans_dir, context, SessionState::Finished, event, stamp).1 is Finish,
{
}

} // verus!
