use arkivisto::config::{Config, Scanner, ScannerSources};
use arkivisto::source::{resolve_source, Resolution, ScanError, ScanMode};

fn sources(single: Option<&str>, duplex: Option<&str>, flatbed: Option<&str>) -> ScannerSources {
    ScannerSources {
        adf_single: single.map(|s| s.to_string()),
        adf_duplex: duplex.map(|s| s.to_string()),
        flatbed: flatbed.map(|s| s.to_string()),
    }
}

fn scanner_with(sources: ScannerSources) -> Scanner {
    Scanner {
        id: "office".to_string(),
        device_name: "airscan:e1:HP ScanJet".to_string(),
        additional_args: vec![],
        sources,
    }
}

#[test]
fn no_sources_offer_no_mode() {
    assert_eq!(ScanMode::options(&sources(None, None, None)), vec![]);
}

#[test]
fn single_feeder_offers_single_and_manual_duplex() {
    assert_eq!(
        ScanMode::options(&sources(Some("ADF"), None, None)),
        vec![ScanMode::AdfSingleSided, ScanMode::AdfManualDuplex]
    );
}

#[test]
fn flatbed_alone_offers_flatbed_without_a_count() {
    assert_eq!(
        ScanMode::options(&sources(None, None, Some("Flatbed"))),
        vec![ScanMode::Flatbed { page_count: 0 }]
    );
}

#[test]
fn duplex_alone_offers_duplex() {
    assert_eq!(
        ScanMode::options(&sources(None, Some("ADF Duplex"), None)),
        vec![ScanMode::AdfDuplex]
    );
}

#[test]
fn all_sources_offer_all_modes_in_order() {
    assert_eq!(
        ScanMode::options(&sources(Some("ADF"), Some("ADF Duplex"), Some("Flatbed"))),
        vec![
            ScanMode::AdfSingleSided,
            ScanMode::AdfDuplex,
            ScanMode::AdfManualDuplex,
            ScanMode::Flatbed { page_count: 0 },
        ]
    );
}

#[test]
fn resolution_maps_to_dpi() {
    assert_eq!(Resolution::Normal.as_dpi(), 300);
    assert_eq!(Resolution::High.as_dpi(), 600);
}

#[test]
fn default_resolution_is_normal() {
    assert_eq!(Resolution::default(), Resolution::Normal);
}

#[test]
fn options_choose_the_resolution() {
    assert_eq!(Resolution::from_options(true), Resolution::High);
    assert_eq!(Resolution::from_options(false), Resolution::Normal);
}

#[test]
fn modes_resolve_to_their_sources() {
    let scanner = scanner_with(sources(Some("ADF"), Some("ADF Duplex"), Some("Flatbed")));
    assert_eq!(resolve_source(&ScanMode::AdfSingleSided, &scanner), Ok("ADF"));
    assert_eq!(resolve_source(&ScanMode::AdfDuplex, &scanner), Ok("ADF Duplex"));
    assert_eq!(resolve_source(&ScanMode::AdfManualDuplex, &scanner), Ok("ADF"));
    assert_eq!(resolve_source(&ScanMode::Flatbed { page_count: 3 }, &scanner), Ok("Flatbed"));
}

#[test]
fn missing_source_is_unavailable() {
    let scanner = scanner_with(sources(Some("ADF"), None, None));
    assert_eq!(
        resolve_source(&ScanMode::AdfDuplex, &scanner),
        Err(ScanError::SourceUnavailable {
            mode: ScanMode::AdfDuplex,
            scanner: "office".to_string()
        })
    );
    assert_eq!(
        resolve_source(&ScanMode::Flatbed { page_count: 1 }, &scanner),
        Err(ScanError::SourceUnavailable {
            mode: ScanMode::Flatbed { page_count: 1 },
            scanner: "office".to_string()
        })
    );
}

#[test]
fn manual_duplex_needs_the_single_feeder() {
    let scanner = scanner_with(sources(None, Some("ADF Duplex"), Some("Flatbed")));
    assert!(resolve_source(&ScanMode::AdfManualDuplex, &scanner).is_err());
    assert!(resolve_source(&ScanMode::AdfSingleSided, &scanner).is_err());
}

#[test]
fn runnable_modes() {
    assert!(ScanMode::AdfSingleSided.is_runnable());
    assert!(ScanMode::Flatbed { page_count: 1 }.is_runnable());
    assert!(!ScanMode::Flatbed { page_count: 0 }.is_runnable());
    assert_eq!(ScanMode::Flatbed { page_count: 7 }.batch_count(), 7);
    assert_eq!(ScanMode::AdfDuplex.batch_count(), 1);
}

#[test]
fn mode_labels() {
    assert_eq!(ScanMode::AdfSingleSided.to_string(), "ADF single sided");
    assert_eq!(ScanMode::AdfDuplex.to_string(), "ADF duplex");
    assert_eq!(ScanMode::AdfManualDuplex.to_string(), "ADF manual duplex");
    assert_eq!(ScanMode::Flatbed { page_count: 4 }.to_string(), "Flatbed");
}

#[test]
fn scanner_label_and_copy() {
    let scanner = scanner_with(sources(Some("ADF"), None, None));
    assert_eq!(scanner.to_string(), "office (airscan:e1:HP ScanJet)");
    let copy = scanner.clone();
    assert_eq!(copy, scanner);
    let config = Config { outdir: "/home/me/documents".to_string(), scanners: vec![scanner] };
    assert_eq!(config.clone(), config);
}
