use arkivisto::config::{Scanner, ScannerSources};
use arkivisto::fs_utils::{DirStep, DirectoryError, PathKind};
use arkivisto::scan::{
    batch_file_name, chosen_scanner, run_scanimage, scan_document, scan_document_at,
    scanimage_command, select_scanner, DeviceChoice, ScanAction, ScanContext, ScanEvent,
    ScanState, SessionState,
};
use arkivisto::source::{Resolution, ScanError, ScanMode};
use arkivisto::tool::{ToolCommand, ToolFailure, ToolOutput};

fn words(list: &[&str]) -> Vec<String> {
    list.iter().map(|s| s.to_string()).collect()
}

fn device(id: &str, single: Option<&str>, duplex: Option<&str>, flatbed: Option<&str>) -> Scanner {
    Scanner {
        id: id.to_string(),
        device_name: "HP ScanJet".to_string(),
        additional_args: vec![],
        sources: ScannerSources {
            adf_single: single.map(|s| s.to_string()),
            adf_duplex: duplex.map(|s| s.to_string()),
            flatbed: flatbed.map(|s| s.to_string()),
        },
    }
}

fn exit(code: i32, stderr: &str) -> ScanEvent {
    ScanEvent::Exited(ToolOutput { exit_code: Some(code), stderr: stderr.to_string() })
}

fn invocation(action: ScanAction) -> ToolCommand {
    match action {
        ScanAction::Invoke { command } => command,
        other => panic!("expected a call of the tool, got {:?}", other),
    }
}

/// Takes a session from its start to the question for the mode.
fn until_mode_choice(scans_dir: &str, context: &ScanContext) -> (SessionState, ScanAction) {
    let (state, action) = scan_document(scans_dir, context, SessionState::Start, ScanEvent::Begin);
    assert_eq!(action, ScanAction::Probe { path: format!("{}/current", scans_dir) });
    let (state, action) =
        scan_document(scans_dir, context, state, ScanEvent::Found(PathKind::Missing));
    assert_eq!(
        action,
        ScanAction::Reset {
            path: format!("{}/current", scans_dir),
            steps: vec![DirStep::Create]
        }
    );
    scan_document(scans_dir, context, state, ScanEvent::Done)
}

#[test]
fn batch_numbering_starts_at_1000() {
    assert_eq!(batch_file_name(0, 0), "1000.tif");
    assert_eq!(batch_file_name(4, 0), "1004.tif");
    assert_eq!(batch_file_name(0, 1), "1001.tif");
    assert_eq!(batch_file_name(4, 3), "1007.tif");
}

#[test]
fn scanimage_arguments_without_count() {
    let mut scanner = device("office", Some("ADF"), None, None);
    scanner.additional_args = words(&["--device-name=airscan:e1", "--mode", "Color"]);
    let command =
        scanimage_command("/cache/scans/current", &scanner, "ADF", 0, None, &Resolution::Normal);
    assert_eq!(command.program, "scanimage");
    assert_eq!(
        command.args,
        words(&[
            "--format=tiff",
            "--batch=/cache/scans/current/%d.tif",
            "--batch-start=1000",
            "--resolution=300",
            "-x",
            "210",
            "-y",
            "297",
            "--source=ADF",
            "--device-name=airscan:e1",
            "--mode",
            "Color",
        ])
    );
}

#[test]
fn scanimage_arguments_with_offset_and_count() {
    let scanner = device("office", None, None, Some("Flatbed"));
    let command = scanimage_command(
        "/cache/scans/current",
        &scanner,
        "Flatbed",
        4,
        Some(1),
        &Resolution::High,
    );
    assert_eq!(
        command.args,
        words(&[
            "--format=tiff",
            "--batch=/cache/scans/current/%d.tif",
            "--batch-start=1004",
            "--batch-count=1",
            "--resolution=600",
            "-x",
            "210",
            "-y",
            "297",
            "--source=Flatbed",
        ])
    );
}

#[test]
fn scanimage_arguments_at_the_largest_offset() {
    let scanner = device("office", Some("ADF"), None, None);
    let command =
        scanimage_command("d", &scanner, "ADF", usize::MAX, Some(usize::MAX), &Resolution::Normal);
    assert_eq!(command.args[2], format!("--batch-start={}", usize::MAX as u128 + 1000));
    assert_eq!(command.args[3], format!("--batch-count={}", usize::MAX));
}

#[test]
fn feeder_scan_is_one_call_without_count() {
    let scanner = device("office", Some("ADF"), Some("ADF Duplex"), None);
    let context = ScanContext { scanner: &scanner, fake_scan: false };
    for (mode, source) in [
        (ScanMode::AdfSingleSided, "--source=ADF"),
        (ScanMode::AdfDuplex, "--source=ADF Duplex"),
        (ScanMode::AdfManualDuplex, "--source=ADF"),
    ] {
        let (state, action) = run_scanimage(
            "/s/current",
            &context,
            &mode,
            &Resolution::Normal,
            ScanState::Ready,
            ScanEvent::Begin,
        );
        assert_eq!(state, ScanState::Running { page: 0 });
        let command = invocation(action);
        assert_eq!(
            command.args,
            words(&[
                "--format=tiff",
                "--batch=/s/current/%d.tif",
                "--batch-start=1000",
                "--resolution=300",
                "-x",
                "210",
                "-y",
                "297",
                source,
            ])
        );
        let (state, action) =
            run_scanimage("/s/current", &context, &mode, &Resolution::Normal, state, exit(0, ""));
        assert_eq!(action, ScanAction::Finish(Ok(())));
        assert_eq!(state, ScanState::Finished);
    }
}

#[test]
fn flatbed_scan_of_two_confirmed_pages() {
    let scanner = device("glass", None, None, Some("Flatbed"));
    let context = ScanContext { scanner: &scanner, fake_scan: false };
    let scans_dir = "/cache/scans";

    let (state, action) = until_mode_choice(scans_dir, &context);
    assert_eq!(
        action,
        ScanAction::ChooseMode { options: vec![ScanMode::Flatbed { page_count: 0 }] }
    );
    let (state, action) = scan_document(scans_dir, &context, state, ScanEvent::Selected(0));
    assert_eq!(action, ScanAction::AskPageCount);
    let (state, action) = scan_document(scans_dir, &context, state, ScanEvent::Counted(2));
    assert_eq!(action, ScanAction::ChooseOptions);
    let (mut state, mut action) =
        scan_document(scans_dir, &context, state, ScanEvent::Options { high_resolution: false });

    let mut calls: Vec<ToolCommand> = Vec::new();
    let mut questions: Vec<(usize, usize)> = Vec::new();
    loop {
        let event = match action {
            ScanAction::Confirm { page, total } => {
                questions.push((page, total));
                ScanEvent::Confirmed(true)
            }
            ScanAction::Invoke { command } => {
                calls.push(command);
                exit(0, "")
            }
            other => {
                action = other;
                break;
            }
        };
        let (next, answer) =
            scan_document_at(scans_dir, &context, state, event, "20240102-030405");
        state = next;
        action = answer;
    }

    assert_eq!(questions, vec![(1, 2), (2, 2)]);
    assert_eq!(calls.len(), 2);
    for (index, call) in calls.iter().enumerate() {
        assert_eq!(call.program, "scanimage");
        assert_eq!(
            call.args,
            words(&[
                "--format=tiff",
                "--batch=/cache/scans/current/%d.tif",
                &format!("--batch-start={}", 1000 + index),
                "--batch-count=1",
                "--resolution=300",
                "-x",
                "210",
                "-y",
                "297",
                "--source=Flatbed",
            ])
        );
    }
    assert_eq!(
        action,
        ScanAction::Commit {
            from: "/cache/scans/current".to_string(),
            to: "/cache/scans/20240102-030405".to_string()
        }
    );
    assert_eq!(state, SessionState::Committing);
    let (state, action) = scan_document(scans_dir, &context, state, ScanEvent::Done);
    assert_eq!(action, ScanAction::Finish(Ok(())));
    assert_eq!(state, SessionState::Finished);
}

#[test]
fn declined_page_aborts_the_scan() {
    let scanner = device("glass", None, None, Some("Flatbed"));
    let context = ScanContext { scanner: &scanner, fake_scan: false };
    let mode = ScanMode::Flatbed { page_count: 3 };
    let resolution = Resolution::Normal;
    let (state, action) =
        run_scanimage("c", &context, &mode, &resolution, ScanState::Ready, ScanEvent::Begin);
    assert_eq!(action, ScanAction::Confirm { page: 1, total: 3 });
    let (state, action) =
        run_scanimage("c", &context, &mode, &resolution, state, ScanEvent::Confirmed(true));
    invocation(action);
    let (state, action) = run_scanimage("c", &context, &mode, &resolution, state, exit(0, ""));
    assert_eq!(action, ScanAction::Confirm { page: 2, total: 3 });
    assert_eq!(state, ScanState::Confirming { page: 1 });
    let (state, action) =
        run_scanimage("c", &context, &mode, &resolution, state, ScanEvent::Confirmed(false));
    assert_eq!(action, ScanAction::Finish(Err(ScanError::UserAborted)));
    assert_eq!(state, ScanState::Finished);
}

#[test]
fn cancelled_confirmation_aborts_the_scan() {
    let scanner = device("glass", None, None, Some("Flatbed"));
    let context = ScanContext { scanner: &scanner, fake_scan: false };
    let mode = ScanMode::Flatbed { page_count: 1 };
    let (_, action) = run_scanimage(
        "c",
        &context,
        &mode,
        &Resolution::High,
        ScanState::Confirming { page: 0 },
        ScanEvent::Cancelled,
    );
    assert_eq!(action, ScanAction::Finish(Err(ScanError::UserAborted)));
}

#[test]
fn failing_tool_ends_the_scan() {
    let scanner = device("office", Some("ADF"), None, None);
    let context = ScanContext { scanner: &scanner, fake_scan: false };
    let (state, action) = run_scanimage(
        "c",
        &context,
        &ScanMode::AdfSingleSided,
        &Resolution::Normal,
        ScanState::Running { page: 0 },
        exit(7, "scanimage: no SANE devices found"),
    );
    assert_eq!(
        action,
        ScanAction::Finish(Err(ScanError::ToolFailed(ToolFailure {
            tool: "scanimage".to_string(),
            exit_code: 7,
            stderr_excerpt: "scanimage: no SANE devices found".to_string(),
        })))
    );
    assert_eq!(state, ScanState::Finished);
}

#[test]
fn missing_source_ends_the_scan_before_any_call() {
    let scanner = device("office", Some("ADF"), None, None);
    let context = ScanContext { scanner: &scanner, fake_scan: false };
    let (state, action) = run_scanimage(
        "c",
        &context,
        &ScanMode::AdfDuplex,
        &Resolution::Normal,
        ScanState::Ready,
        ScanEvent::Begin,
    );
    assert_eq!(
        action,
        ScanAction::Finish(Err(ScanError::SourceUnavailable {
            mode: ScanMode::AdfDuplex,
            scanner: "office".to_string()
        }))
    );
    assert_eq!(state, ScanState::Finished);
}

#[test]
fn simulated_scan_copies_the_prepared_pages() {
    let scanner = device("office", Some("ADF"), None, None);
    let context = ScanContext { scanner: &scanner, fake_scan: true };
    let mode = ScanMode::AdfSingleSided;
    let resolution = Resolution::Normal;
    let (state, action) = run_scanimage(
        "/s/current",
        &context,
        &mode,
        &resolution,
        ScanState::Ready,
        ScanEvent::Begin,
    );
    assert_eq!(action, ScanAction::Probe { path: "testdata".to_string() });
    assert_eq!(state, ScanState::Probing { page: 0 });
    let (state, action) = run_scanimage(
        "/s/current",
        &context,
        &mode,
        &resolution,
        state,
        ScanEvent::Found(PathKind::Directory),
    );
    assert_eq!(
        action,
        ScanAction::CopyFixture {
            from: "testdata".to_string(),
            to: "/s/current".to_string(),
            delay_secs: 2
        }
    );
    let (state, action) =
        run_scanimage("/s/current", &context, &mode, &resolution, state, ScanEvent::Done);
    assert_eq!(action, ScanAction::Finish(Ok(())));
    assert_eq!(state, ScanState::Finished);
}

#[test]
fn simulated_scan_without_prepared_pages_fails() {
    let scanner = device("office", Some("ADF"), None, None);
    let context = ScanContext { scanner: &scanner, fake_scan: true };
    for found in [PathKind::Missing, PathKind::Other] {
        let (state, action) = run_scanimage(
            "/s/current",
            &context,
            &ScanMode::AdfSingleSided,
            &Resolution::Normal,
            ScanState::Probing { page: 0 },
            ScanEvent::Found(found),
        );
        assert_eq!(action, ScanAction::Finish(Err(ScanError::FixtureMissing)));
        assert_eq!(state, ScanState::Finished);
    }
}

#[test]
fn events_out_of_turn_end_the_scan() {
    let scanner = device("office", Some("ADF"), None, None);
    let real = ScanContext { scanner: &scanner, fake_scan: false };
    let fake = ScanContext { scanner: &scanner, fake_scan: true };
    let mode = ScanMode::AdfSingleSided;
    let resolution = Resolution::Normal;
    let unexpected = ScanAction::Finish(Err(ScanError::UnexpectedEvent));
    let (_, action) =
        run_scanimage("c", &real, &mode, &resolution, ScanState::Ready, ScanEvent::Done);
    assert_eq!(action, unexpected);
    let (_, action) = run_scanimage(
        "c",
        &real,
        &mode,
        &resolution,
        ScanState::Running { page: 0 },
        ScanEvent::Done,
    );
    assert_eq!(action, unexpected);
    let (_, action) =
        run_scanimage("c", &fake, &mode, &resolution, ScanState::Running { page: 0 }, exit(0, ""));
    assert_eq!(action, unexpected);
    let (_, action) = run_scanimage(
        "c",
        &real,
        &mode,
        &resolution,
        ScanState::Probing { page: 0 },
        ScanEvent::Found(PathKind::Directory),
    );
    assert_eq!(action, unexpected);
    let (_, action) =
        run_scanimage("c", &real, &mode, &resolution, ScanState::Finished, ScanEvent::Begin);
    assert_eq!(action, unexpected);
}

#[test]
fn staging_path_that_is_a_file_ends_the_session() {
    let scanner = device("office", Some("ADF"), None, None);
    let context = ScanContext { scanner: &scanner, fake_scan: false };
    let (state, _) = scan_document("/c", &context, SessionState::Start, ScanEvent::Begin);
    let (state, action) = scan_document("/c", &context, state, ScanEvent::Found(PathKind::Other));
    assert_eq!(
        action,
        ScanAction::Finish(Err(ScanError::Directory(DirectoryError::NotADirectory)))
    );
    assert_eq!(state, SessionState::Finished);
}

#[test]
fn old_staging_directory_is_removed_first() {
    let scanner = device("office", Some("ADF"), None, None);
    let context = ScanContext { scanner: &scanner, fake_scan: false };
    let (state, _) = scan_document("/c", &context, SessionState::Start, ScanEvent::Begin);
    let (state, action) =
        scan_document("/c", &context, state, ScanEvent::Found(PathKind::Directory));
    assert_eq!(
        action,
        ScanAction::Reset {
            path: "/c/current".to_string(),
            steps: vec![DirStep::RemoveAll, DirStep::Create]
        }
    );
    assert_eq!(state, SessionState::PreparingWorkspace);
}

#[test]
fn failed_reset_ends_the_session() {
    let scanner = device("office", Some("ADF"), None, None);
    let context = ScanContext { scanner: &scanner, fake_scan: false };
    for (step, error) in [
        (DirStep::RemoveAll, DirectoryError::RemovalFailed),
        (DirStep::Create, DirectoryError::CreationFailed),
    ] {
        let (state, action) = scan_document(
            "/c",
            &context,
            SessionState::PreparingWorkspace,
            ScanEvent::StepFailed(step),
        );
        assert_eq!(action, ScanAction::Finish(Err(ScanError::Directory(error))));
        assert_eq!(state, SessionState::Finished);
    }
}

#[test]
fn feeder_session_commits_after_the_batch() {
    let scanner = device("office", Some("ADF"), Some("ADF Duplex"), None);
    let context = ScanContext { scanner: &scanner, fake_scan: false };
    let (state, action) = until_mode_choice("/c", &context);
    assert_eq!(
        action,
        ScanAction::ChooseMode {
            options: vec![
                ScanMode::AdfSingleSided,
                ScanMode::AdfDuplex,
                ScanMode::AdfManualDuplex
            ]
        }
    );
    let (state, action) = scan_document("/c", &context, state, ScanEvent::Selected(1));
    assert_eq!(action, ScanAction::ChooseOptions);
    assert_eq!(state, SessionState::ChoosingOptions { mode: ScanMode::AdfDuplex });
    let (state, action) =
        scan_document("/c", &context, state, ScanEvent::Options { high_resolution: true });
    let command = invocation(action);
    assert_eq!(command.args[3], "--resolution=600");
    assert_eq!(command.args[8], "--source=ADF Duplex");
    let (state, action) = scan_document_at("/c", &context, state, exit(0, ""), "20251231-235959");
    assert_eq!(
        action,
        ScanAction::Commit {
            from: "/c/current".to_string(),
            to: "/c/20251231-235959".to_string()
        }
    );
    assert_eq!(state, SessionState::Committing);
}

#[test]
fn failed_scan_is_not_committed() {
    let scanner = device("office", Some("ADF"), None, None);
    let context = ScanContext { scanner: &scanner, fake_scan: false };
    let state = SessionState::Scanning {
        mode: ScanMode::AdfSingleSided,
        resolution: Resolution::Normal,
        run: ScanState::Running { page: 0 },
    };
    let (state, action) = scan_document("/c", &context, state, exit(1, "jammed"));
    assert_eq!(
        action,
        ScanAction::Finish(Err(ScanError::ToolFailed(ToolFailure {
            tool: "scanimage".to_string(),
            exit_code: 1,
            stderr_excerpt: "jammed".to_string(),
        })))
    );
    assert_eq!(state, SessionState::Finished);
    let (state, action) = scan_document("/c", &context, state, ScanEvent::Done);
    assert_eq!(action, ScanAction::Finish(Err(ScanError::UnexpectedEvent)));
    assert_eq!(state, SessionState::Finished);
}

#[test]
fn commit_is_named_after_the_local_time() {
    let scanner = device("office", Some("ADF"), None, None);
    let context = ScanContext { scanner: &scanner, fake_scan: false };
    let state = SessionState::Scanning {
        mode: ScanMode::AdfSingleSided,
        resolution: Resolution::Normal,
        run: ScanState::Running { page: 0 },
    };
    let (state, action) = scan_document("/c", &context, state, exit(0, ""));
    assert_eq!(state, SessionState::Committing);
    match action {
        ScanAction::Commit { from, to } => {
            assert_eq!(from, "/c/current");
            let name = to.strip_prefix("/c/").expect("the commit stays below the scans directory");
            let stamp: Vec<char> = name.chars().collect();
            assert_eq!(stamp.len(), 15);
            for (i, c) in stamp.iter().enumerate() {
                if i == 8 {
                    assert_eq!(*c, '-');
                } else {
                    assert!(c.is_ascii_digit());
                }
            }
        }
        other => panic!("expected a commit, got {:?}", other),
    }
}

#[test]
fn page_count_below_one_is_asked_for_again() {
    let scanner = device("glass", None, None, Some("Flatbed"));
    let context = ScanContext { scanner: &scanner, fake_scan: false };
    let (state, action) =
        scan_document("/c", &context, SessionState::CountingPages, ScanEvent::Counted(0));
    assert_eq!(action, ScanAction::AskPageCount);
    assert_eq!(state, SessionState::CountingPages);
    let (state, action) = scan_document("/c", &context, state, ScanEvent::Counted(1));
    assert_eq!(action, ScanAction::ChooseOptions);
    assert_eq!(
        state,
        SessionState::ChoosingOptions { mode: ScanMode::Flatbed { page_count: 1 } }
    );
}

#[test]
fn unanswered_questions_abort_the_session() {
    let scanner = device("office", Some("ADF"), None, Some("Flatbed"));
    let context = ScanContext { scanner: &scanner, fake_scan: false };
    for state in [
        SessionState::ChoosingMode,
        SessionState::CountingPages,
        SessionState::ChoosingOptions { mode: ScanMode::AdfSingleSided },
    ] {
        let (state, action) = scan_document("/c", &context, state, ScanEvent::Cancelled);
        assert_eq!(action, ScanAction::Finish(Err(ScanError::UserAborted)));
        assert_eq!(state, SessionState::Finished);
    }
}

#[test]
fn choice_outside_the_offered_modes_is_refused() {
    let scanner = device("office", Some("ADF"), None, None);
    let context = ScanContext { scanner: &scanner, fake_scan: false };
    let (state, action) =
        scan_document("/c", &context, SessionState::ChoosingMode, ScanEvent::Selected(2));
    assert_eq!(action, ScanAction::Finish(Err(ScanError::UnexpectedEvent)));
    assert_eq!(state, SessionState::Finished);
}

#[test]
fn flatbed_without_a_count_is_never_scanned() {
    let scanner = device("glass", None, None, Some("Flatbed"));
    let context = ScanContext { scanner: &scanner, fake_scan: false };
    let state = SessionState::ChoosingOptions { mode: ScanMode::Flatbed { page_count: 0 } };
    let (state, action) =
        scan_document("/c", &context, state, ScanEvent::Options { high_resolution: false });
    assert_eq!(action, ScanAction::Finish(Err(ScanError::UnexpectedEvent)));
    assert_eq!(state, SessionState::Finished);
}

#[test]
fn single_scanner_is_selected_without_asking() {
    let scanners = vec![device("only", Some("ADF"), None, None)];
    assert_eq!(select_scanner(&scanners), Ok(DeviceChoice::Only(scanners[0].clone())));
}

#[test]
fn several_scanners_are_put_before_the_operator() {
    let scanners =
        vec![device("first", Some("ADF"), None, None), device("second", None, None, Some("Glass"))];
    assert_eq!(select_scanner(&scanners), Ok(DeviceChoice::AskOperator));
    assert_eq!(chosen_scanner(&scanners, 1), Some(scanners[1].clone()));
    assert_eq!(chosen_scanner(&scanners, 0), Some(scanners[0].clone()));
    assert_eq!(chosen_scanner(&scanners, 2), None);
}

#[test]
fn no_scanner_is_refused() {
    assert_eq!(select_scanner(&Vec::new()), Err(ScanError::NoScannersConfigured));
    assert_eq!(chosen_scanner(&Vec::new(), 0), None);
}
