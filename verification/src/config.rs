//! The scanners an installation knows about.

use vstd::prelude::*;
use vstd::string::*;

verus! {

/// Copies a list of texts, element by element.
fn clone_texts(texts: &Vec<String>) -> (copy: Vec<String>)
    ensures
        copy.deep_view() == texts.deep_view(),
{
    let mut copy: Vec<String> = Vec::new();
    let mut i: usize = 0;
    while i < texts.len()
        invariant
            i <= texts.len(),
            copy.len() == i,
            forall|k: int| 0 <= k < i ==> copy@[k]@ == texts@[k]@,
        decreases texts.len() - i,
    {
        copy.push(texts[i].clone());
        i += 1;
    }
    copy
}

/// Copies an optional text.
fn clone_optional_text(text: &Option<String>) -> (copy: Option<String>)
    ensures
        copy.deep_view() == text.deep_view(),
{
    match text {
        Some(t) => Some(t.clone()),
        None => None,
    }
}

/// The names under which a scanner's driver knows its paper sources. One
/// scanner may call its feeder "ADF", another "Automatic Document Feeder".
#[derive(Debug, PartialEq, Eq)]
pub struct ScannerSources {
    /// Feeder, one side per sheet
    pub adf_single: Option<String>,
    /// Feeder, both sides per sheet
    pub adf_duplex: Option<String>,
    /// Flatbed glass
    pub flatbed: Option<String>,
}

/// What a [`ScannerSources`] holds, as mathematical values.
pub struct ScannerSourcesView {
    pub adf_single: Option<Seq<char>>,
    pub adf_duplex: Option<Seq<char>>,
    pub flatbed: Option<Seq<char>>,
}

impl View for ScannerSources {
    type V = ScannerSourcesView;

    open spec fn view(&self) -> ScannerSourcesView {
        ScannerSourcesView {
            adf_single: self.adf_single.deep_view(),
            adf_duplex: self.adf_duplex.deep_view(),
            flatbed: self.flatbed.deep_view(),
        }
    }
}

impl DeepView for ScannerSources {
    type V = ScannerSourcesView;

    open spec fn deep_view(&self) -> ScannerSourcesView {
        self@
    }
}

impl Clone for ScannerSources {
    fn clone(&self) -> (copy: Self)
        ensures
            copy@ == self@,
    {
        ScannerSources {
            adf_single: clone_optional_text(&self.adf_single),
            adf_duplex: clone_optional_text(&self.adf_duplex),
            flatbed: clone_optional_text(&self.flatbed),
        }
    }
}

/// One configured scanning device.
#[derive(Debug, PartialEq, Eq)]
pub struct Scanner {
    /// Identifier
    pub id: String,
    /// Name of the device as its driver reports it
    pub device_name: String,
    /// Arguments appended verbatim to every call of the scanning tool
    pub additional_args: Vec<String>,
    /// The paper sources the device has
    pub sources: ScannerSources,
}

/// What a [`Scanner`] holds, as mathematical values.
pub struct ScannerView {
    pub id: Seq<char>,
    pub device_name: Seq<char>,
    pub additional_args: Seq<Seq<char>>,
    pub sources: ScannerSourcesView,
}

impl View for Scanner {
    type V = ScannerView;

    open spec fn view(&self) -> ScannerView {
        ScannerView {
            id: self.id@,
            device_name: self.device_name@,
            additional_args: self.additional_args.deep_view(),
            sources: self.sources@,
        }
    }
}

impl DeepView for Scanner {
    type V = ScannerView;

    open spec fn deep_view(&self) -> ScannerView {
        self@
    }
}

impl Clone for Scanner {
    fn clone(&self) -> (copy: Self)
        ensures
            copy@ == self@,
    {
        Scanner {
            id: self.id.clone(),
            device_name: self.device_name.clone(),
            additional_args: clone_texts(&self.additional_args),
            sources: self.sources.clone(),
        }
    }
}

/// The text that names a scanner to the operator: its identifier, then the
/// device name in parentheses.
pub open spec fn scanner_label(scanner: ScannerView) -> Seq<char> {
    scanner.id + " ("@ + scanner.device_name + ")"@
}

impl Scanner {
    /// The text that names this scanner to the operator.
    pub fn to_string(&self) -> (text: String)
        ensures
            text@ == scanner_label(self@),
    {
        let mut text = self.id.clone();
        text.append(" (");
        text.append(self.device_name.as_str());
        text.append(")");
        text
    }
}

/// The settings of an installation.
#[derive(Debug, PartialEq, Eq)]
pub struct Config {
    /// Output directory for finished documents
    pub outdir: String,
    /// The scanners that can be chosen from, in the order they were configured
    pub scanners: Vec<Scanner>,
}

/// What a [`Config`] holds, as mathematical values.
pub struct ConfigView {
    pub outdir: Seq<char>,
    pub scanners: Seq<ScannerView>,
}

impl View for Config {
    type V = ConfigView;

    open spec fn view(&self) -> ConfigView {
        ConfigView { outdir: self.outdir@, scanners: self.scanners.deep_view() }
    }
}

/// Copies a list of scanners, element by element.
fn clone_scanners(scanners: &Vec<Scanner>) -> (copy: Vec<Scanner>)
    ensures
        copy.deep_view() == scanners.deep_view(),
{
    let mut copy: Vec<Scanner> = Vec::new();
    let mut i: usize = 0;
    while i < scanners.len()
        invariant
            i <= scanners.len(),
            copy.len() == i,
            forall|k: int| 0 <= k < i ==> copy@[k]@ == scanners@[k]@,
        decreases scanners.len() - i,
    {
        copy.push(scanners[i].clone());
        i += 1;
    }
    copy
}

impl Clone for Config {
    fn clone(&self) -> (copy: Self)
        ensures
            copy@ == self@,
    {
        Config { outdir: self.outdir.clone(), scanners: clone_scanners(&self.scanners) }
    }
}

} // verus!
