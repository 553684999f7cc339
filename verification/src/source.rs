//! Which modes a scanner offers, and which of its sources a mode scans from.

use vstd::prelude::*;
use vstd::string::*;
use crate::config::{Scanner, ScannerSources, ScannerSourcesView, ScannerView};
use crate::fs_utils::DirectoryError;
use crate::tool::{ToolFailure, ToolFailureView};

verus! {

/// How the paper reaches the scanner.
#[derive(Debug, PartialEq, Eq, Clone, Copy, Structural)]
pub enum ScanMode {
    /// From the feeder, one side per sheet
    AdfSingleSided,
    /// From the feeder, both sides per sheet
    AdfDuplex,
    /// From the feeder, one side per sheet, for a stack that is fed once
    /// more for its backs. The scan reads the feeder once and asks for no
    /// second feeding: that is left to the operator.
    AdfManualDuplex,
    /// From the glass, page by page; the count is 0 until the operator
    /// has given it
    Flatbed { page_count: usize },
}

/// Scan resolution offered to the operator.
#[derive(Debug, PartialEq, Eq, Clone, Copy, Structural)]
pub enum Resolution {
    /// 300 DPI
    Normal,
    /// 600 DPI
    High,
}

impl Resolution {
    /// The dots per inch that this resolution stands for.
    pub open spec fn dpi(self) -> nat {
        match self {
            Resolution::Normal => 300,
            Resolution::High => 600,
        }
    }

    /// The dots per inch that this resolution stands for.
    pub fn as_dpi(&self) -> (dpi: u32)
        ensures
            dpi == self.dpi(),
    {
        match self {
            Resolution::Normal => 300,
            Resolution::High => 600,
        }
    }

    /// The resolution that the operator's options ask for.
    pub fn from_options(high_resolution: bool) -> (resolution: Resolution)
        ensures
            resolution == resolution_for(high_resolution),
    {
        if high_resolution {
            Resolution::High
        } else {
            Resolution::Normal
        }
    }
}

impl Default for Resolution {
    fn default() -> (resolution: Self)
        ensures
            resolution == Resolution::Normal,
    {
        Resolution::Normal
    }
}

/// The resolution that the operator's options ask for.
pub open spec fn resolution_for(high_resolution: bool) -> Resolution {
    if high_resolution {
        Resolution::High
    } else {
        Resolution::Normal
    }
}

impl ScanMode {
    /// The name of the source that this mode scans from, where the scanner
    /// has it. Manual duplex scans from the same source as single-sided
    /// feeding.
    pub open spec fn source(self, sources: ScannerSourcesView) -> Option<Seq<char>> {
        match self {
            ScanMode::AdfSingleSided => sources.adf_single,
            ScanMode::AdfDuplex => sources.adf_duplex,
            ScanMode::AdfManualDuplex => sources.adf_single,
            ScanMode::Flatbed { .. } => sources.flatbed,
        }
    }

    /// How often the scanning tool is called: once per page on the glass,
    /// once in all for the feeder, which takes whatever sheets it holds.
    pub open spec fn batches(self) -> nat {
        match self {
            ScanMode::Flatbed { page_count } => page_count as nat,
            _ => 1,
        }
    }

    /// The mode can be carried out: on the glass at least one page is asked
    /// for.
    pub open spec fn runnable(self) -> bool {
        self matches ScanMode::Flatbed { page_count } ==> page_count >= 1
    }

    /// The text that names this mode to the operator.
    pub open spec fn label_text(self) -> Seq<char> {
        match self {
            ScanMode::AdfSingleSided => "ADF single sided"@,
            ScanMode::AdfDuplex => "ADF duplex"@,
            ScanMode::AdfManualDuplex => "ADF manual duplex"@,
            ScanMode::Flatbed { .. } => "Flatbed"@,
        }
    }

    /// The text that names this mode to the operator.
    pub fn to_string(&self) -> (text: String)
        ensures
            text@ == self.label_text(),
    {
        match self {
            ScanMode::AdfSingleSided => String::from_str("ADF single sided"),
            ScanMode::AdfDuplex => String::from_str("ADF duplex"),
            ScanMode::AdfManualDuplex => String::from_str("ADF manual duplex"),
            ScanMode::Flatbed { .. } => String::from_str("Flatbed"),
        }
    }

    /// The modes that a scanner with these sources offers.
    pub fn options(available_sources: &ScannerSources) -> (options: Vec<ScanMode>)
        ensures
            options@ == mode_options(available_sources@),
    {
        let mut options: Vec<ScanMode> = Vec::new();
        if available_sources.adf_single.is_some() {
            options.push(ScanMode::AdfSingleSided);
        }
        if available_sources.adf_duplex.is_some() {
            options.push(ScanMode::AdfDuplex);
        }
        if available_sources.adf_single.is_some() {
            options.push(ScanMode::AdfManualDuplex);
        }
        if available_sources.flatbed.is_some() {
            options.push(ScanMode::Flatbed { page_count: 0 });
        }
        options
    }

    /// Whether the mode can be carried out.
    pub fn is_runnable(&self) -> (runnable: bool)
        ensures
            runnable == self.runnable(),
    {
        match self {
            ScanMode::Flatbed { page_count } => *page_count >= 1,
            _ => true,
        }
    }

    /// How often the scanning tool is called.
    pub fn batch_count(&self) -> (count: usize)
        ensures
            count == self.batches(),
    {
        match self {
            ScanMode::Flatbed { page_count } => *page_count,
            _ => 1,
        }
    }
}

/// `mode` alone if `offered`, else nothing.
pub open spec fn offer(offered: bool, mode: ScanMode) -> Seq<ScanMode> {
    if offered {
        seq![mode]
    } else {
        Seq::empty()
    }
}

/// The modes that a scanner with the sources `sources` offers, in the order
/// in which the operator sees them: single-sided, duplex, manual duplex,
/// flatbed, each only where its source is there.
pub open spec fn mode_options(sources: ScannerSourcesView) -> Seq<ScanMode> {
    offer(sources.adf_single is Some, ScanMode::AdfSingleSided) + offer(
        sources.adf_duplex is Some,
        ScanMode::AdfDuplex,
    ) + offer(sources.adf_single is Some, ScanMode::AdfManualDuplex) + offer(
        sources.flatbed is Some,
        ScanMode::Flatbed { page_count: 0 },
    )
}

/// A mode is offered if and only if the scanner has the source it scans
/// from; flatbed is offered with its page count still open.
pub proof fn lemma_offered_iff_source_present(sources: ScannerSourcesView, mode: ScanMode)
    ensures
        mode_options(sources).contains(mode) <==> (mode.source(sources) is Some && (mode
            matches ScanMode::Flatbed { page_count } ==> page_count == 0)),
{
    let options = mode_options(sources);
    let single = offer(sources.adf_single is Some, ScanMode::AdfSingleSided);
    let duplex = offer(sources.adf_duplex is Some, ScanMode::AdfDuplex);
    let manual = offer(sources.adf_single is Some, ScanMode::AdfManualDuplex);
    if mode.source(sources) is Some && (mode matches ScanMode::Flatbed { page_count }
        ==> page_count == 0) {
        match mode {
            ScanMode::AdfSingleSided => {
                assert(options[0] == mode);
            },
            ScanMode::AdfDuplex => {
                assert(options[single.len() as int] == mode);
            },
            ScanMode::AdfManualDuplex => {
                assert(options[(single.len() + duplex.len()) as int] == mode);
            },
            ScanMode::Flatbed { .. } => {
                assert(options[(single.len() + duplex.len() + manual.len()) as int] == mode);
            },
        }
    }
    if options.contains(mode) {
        let i = choose|i: int| 0 <= i < options.len() && options[i] == mode;
        assert(options[i] == mode);
    }
}

/// A scanner without any source offers no mode.
pub proof fn lemma_no_source_no_mode(sources: ScannerSourcesView)
    requires
        sources.adf_single is None,
        sources.adf_duplex is None,
        sources.flatbed is None,
    ensures
        mode_options(sources) == Seq::<ScanMode>::empty(),
{
}

/// A scanner whose only source is the single-sided feeder offers
/// single-sided and manual duplex scanning, and nothing else.
pub proof fn lemma_single_feeder_modes(sources: ScannerSourcesView)
    requires
        sources.adf_single is Some,
        sources.adf_duplex is None,
        sources.flatbed is None,
    ensures
        mode_options(sources) == seq![ScanMode::AdfSingleSided, ScanMode::AdfManualDuplex],
{
}

/// Why a scan ended without a committed directory.
#[derive(Debug, PartialEq, Eq)]
pub enum ScanError {
    /// The configuration names no scanner
    NoScannersConfigured,
    /// The scanner has no source for the mode
    SourceUnavailable { mode: ScanMode, scanner: String },
    /// The staging directory could not be made ready
    Directory(DirectoryError),
    /// The scanning tool ended in failure
    ToolFailed(ToolFailure),
    /// The directory of prepared pages is not there
    FixtureMissing,
    /// The operator declined a confirmation or left a question unanswered
    UserAborted,
    /// The caller reported something that the scan was not waiting for
    UnexpectedEvent,
}

/// What a [`ScanError`] holds, as mathematical values.
pub enum ScanErrorView {
    NoScannersConfigured,
    SourceUnavailable { mode: ScanMode, scanner: Seq<char> },
    Directory(DirectoryError),
    ToolFailed(ToolFailureView),
    FixtureMissing,
    UserAborted,
    UnexpectedEvent,
}

impl View for ScanError {
    type V = ScanErrorView;

    open spec fn view(&self) -> ScanErrorView {
        match self {
            ScanError::NoScannersConfigured => ScanErrorView::NoScannersConfigured,
            ScanError::SourceUnavailable { mode, scanner } => ScanErrorView::SourceUnavailable {
                mode: *mode,
                scanner: scanner@,
            },
            ScanError::Directory(error) => ScanErrorView::Directory(*error),
            ScanError::ToolFailed(failure) => ScanErrorView::ToolFailed(failure@),
            ScanError::FixtureMissing => ScanErrorView::FixtureMissing,
            ScanError::UserAborted => ScanErrorView::UserAborted,
            ScanError::UnexpectedEvent => ScanErrorView::UnexpectedEvent,
        }
    }
}

/// The source that `mode` scans from on `scanner`, or why there is none.
pub open spec fn resolved_source(mode: ScanMode, scanner: ScannerView) -> Result<
    Seq<char>,
    ScanErrorView,
> {
    match mode.source(scanner.sources) {
        Some(source) => Ok(source),
        None => Err(ScanErrorView::SourceUnavailable { mode, scanner: scanner.id }),
    }
}

/// Finds the name under which `scanner` knows the source that `mode` scans
/// from. A scanner that lacks the source is refused with
/// `SourceUnavailable`, whatever the list of offered modes said earlier.
pub fn resolve_source<'a>(mode: &ScanMode, scanner: &'a Scanner) -> (source: Result<
    &'a str,
    ScanError,
>)
    ensures
        match source {
            Ok(name) => resolved_source(*mode, scanner@) == Ok::<Seq<char>, ScanErrorView>(name@),
            Err(error) => resolved_source(*mode, scanner@) == Err::<Seq<char>, ScanErrorView>(
                error@,
            ),
        },
{
    let configured = match mode {
        ScanMode::AdfSingleSided => &scanner.sources.adf_single,
        ScanMode::AdfDuplex => &scanner.sources.adf_duplex,
        ScanMode::AdfManualDuplex => &scanner.sources.adf_single,
        ScanMode::Flatbed { .. } => &scanner.sources.flatbed,
    };
    match configured {
        Some(name) => Ok(name.as_str()),
        None => Err(ScanError::SourceUnavailable { mode: *mode, scanner: scanner.id.clone() }),
    }
}

} // verus!
