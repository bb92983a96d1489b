use paladin_gtk::account::AccountId;
use paladin_gtk::account::AccountKindSummary;
use paladin_gtk::account::AccountSummary;
use paladin_gtk::export_dialog;
use paladin_gtk::export_dialog::ExportDialogMsg;
use paladin_gtk::export_dialog::ExportDialogOutput;
use paladin_gtk::export_dialog::ExportDialogState;
use paladin_gtk::export_dialog::ExportFormatChoice;
use paladin_gtk::export_dialog::ExportOutcome;
use paladin_gtk::export_dialog::ExportWorkerInput;
use paladin_gtk::export_qr_dialog;
use paladin_gtk::export_qr_dialog::ExportQrDialogMsg;
use paladin_gtk::export_qr_dialog::ExportQrDialogOutput;
use paladin_gtk::export_qr_dialog::ExportQrDialogState;
use paladin_gtk::import_dialog;
use paladin_gtk::import_dialog::ConflictChoice;
use paladin_gtk::import_dialog::FormatChoice;
use paladin_gtk::import_dialog::ImportDialogMsg;
use paladin_gtk::import_dialog::ImportDialogOutput;
use paladin_gtk::import_dialog::ImportDialogState;
use paladin_gtk::import_dialog::MergeOutcome;
use paladin_gtk::inline::PassphraseRefusals;
use paladin_gtk::otpauth_uri_paste;
use paladin_gtk::otpauth_uri_paste::UriAddErrorOutcome;
use paladin_gtk::otpauth_uri_paste::UriSubmitOutcome;
use paladin_gtk::paths::FilePath;
use paladin_gtk::vault::ErrorKind;
use paladin_gtk::vault::ImportConflict;
use paladin_gtk::vault::ImportFormat;
use paladin_gtk::vault::ImportReport;
use paladin_gtk::vault::PaladinError;
use paladin_gtk::vault::PaladinImportPrecheck;
use paladin_gtk::wiping::Passphrase;
use paladin_gtk::wiping::WipedBytes;

fn path(text: &str) -> FilePath {
    FilePath { bytes: text.as_bytes().to_vec() }
}

fn error(kind: ErrorKind) -> PaladinError {
    PaladinError { kind, rendered: "engine text".to_string() }
}

fn refusals() -> PassphraseRefusals {
    PassphraseRefusals {
        confirmation_mismatch: "they differ".to_string(),
        zero_length: "it is empty".to_string(),
    }
}

fn export(state: &mut ExportDialogState, msg: ExportDialogMsg) -> Option<ExportDialogOutput> {
    export_dialog::apply_msg(state, msg, &refusals())
}

fn encrypted_export() -> ExportDialogState {
    let mut state = ExportDialogState::new();
    export(&mut state, ExportDialogMsg::FormatChanged(ExportFormatChoice::EncryptedPaladin));
    export(&mut state, ExportDialogMsg::DestinationPicked { path: path("/x"), exists: false });
    export(&mut state, ExportDialogMsg::PassphraseChanged("pw".to_string()));
    export(&mut state, ExportDialogMsg::ConfirmPassphraseChanged("pw".to_string()));
    state
}

#[test]
fn plaintext_export_needs_both_acknowledgements() {
    let mut state = ExportDialogState::new();
    assert!(!export_dialog::compose_submit_button_sensitive(&state));
    export(&mut state, ExportDialogMsg::DestinationPicked { path: path("/x"), exists: true });
    export(&mut state, ExportDialogMsg::PlaintextWarningAcknowledged(true));
    assert!(!export_dialog::compose_submit_button_sensitive(&state));
    assert!(export(&mut state, ExportDialogMsg::SubmitClicked).is_none());
    export(&mut state, ExportDialogMsg::OverwriteAcknowledged(true));
    assert!(export_dialog::compose_submit_button_sensitive(&state));
    match export(&mut state, ExportDialogMsg::SubmitClicked) {
        Some(ExportDialogOutput::Submit(payload)) => {
            assert_eq!(payload.destination.display(), "/x");
            assert!(payload.encryption_options.is_none());
        }
        _ => panic!("nothing is exported"),
    }
}

#[test]
fn encrypted_export_takes_a_passphrase() {
    let mut state = encrypted_export();
    assert!(export_dialog::compose_submit_button_sensitive(&state));
    match export(&mut state, ExportDialogMsg::SubmitClicked) {
        Some(ExportDialogOutput::Submit(payload)) => {
            assert_eq!(payload.encryption_options.unwrap().passphrase(), "pw");
        }
        _ => panic!("nothing is exported"),
    }
    assert_eq!(state.passphrase_text(), "");
    assert_eq!(state.confirm_passphrase_text(), "");
}

#[test]
fn refused_export_says_why() {
    let mut state = encrypted_export();
    export(&mut state, ExportDialogMsg::ConfirmPassphraseChanged("px".to_string()));
    assert!(export(&mut state, ExportDialogMsg::SubmitClicked).is_none());
    assert_eq!(export_dialog::compose_inline_error_body(&state), Some("they differ"));
    export(&mut state, ExportDialogMsg::PassphraseChanged(String::new()));
    export(&mut state, ExportDialogMsg::ConfirmPassphraseChanged(String::new()));
    assert!(export(&mut state, ExportDialogMsg::SubmitClicked).is_none());
    assert_eq!(export_dialog::compose_inline_error_body(&state), Some("it is empty"));
}

#[test]
fn another_export_target_closes_the_gates() {
    let mut state = encrypted_export();
    export(&mut state, ExportDialogMsg::DestinationPicked { path: path("/x/"), exists: true });
    assert_eq!(state.passphrase_text(), "pw");
    export(&mut state, ExportDialogMsg::OverwriteAcknowledged(true));
    export(&mut state, ExportDialogMsg::DestinationPicked { path: path("/y"), exists: true });
    assert_eq!(state.passphrase_text(), "");
    assert!(!state.is_overwrite_acknowledged());
    export(&mut state, ExportDialogMsg::OverwriteAcknowledged(true));
    export(&mut state, ExportDialogMsg::FormatChanged(ExportFormatChoice::PlaintextOtpauth));
    assert!(!state.is_overwrite_acknowledged());
    assert!(export_dialog::compose_plaintext_warning_visible(&state));
    assert!(!export_dialog::compose_passphrase_rows_visible(&state));
}

#[test]
fn export_results_are_shown() {
    let mut state = encrypted_export();
    export(&mut state, ExportDialogMsg::SetBusy(true));
    assert!(export(&mut state, ExportDialogMsg::SubmitClicked).is_none());
    let warning = export_dialog::classify_export_result(Err(error(ErrorKind::SaveDurabilityUnconfirmed)));
    assert!(export(&mut state, ExportDialogMsg::WorkerCompleted(warning)).is_none());
    assert!(!state.is_busy());
    assert_eq!(export_dialog::compose_inline_warning_body(&state), Some("engine text"));
    export(&mut state, ExportDialogMsg::SubmitClicked);
    assert!(!export_dialog::compose_inline_warning_revealed(&state));
    let failed = export_dialog::classify_export_result(Err(error(ErrorKind::IoError)));
    export(&mut state, ExportDialogMsg::WorkerCompleted(failed));
    assert!(export_dialog::compose_inline_error_revealed(&state));
    assert!(matches!(
        export(&mut state, ExportDialogMsg::WorkerCompleted(ExportOutcome::Success)),
        Some(ExportDialogOutput::Close)
    ));
    assert!(export_dialog::wipes_secret_widgets(&ExportDialogMsg::Cancel));
    assert!(!export_dialog::wipes_secret_widgets(&ExportDialogMsg::SetBusy(true)));
    assert_eq!(export_dialog::format_export_success_toast(&path("/x")), "Exported to /x");
}

#[test]
fn export_worker_writes_what_was_rendered() {
    let input = |format| ExportWorkerInput {
        vault: "vault",
        store: 1,
        destination: path("/x"),
        format,
        encryption_options: export_dialog::prepare_encrypted_export("pw", "pw").ok(),
    };
    let plain = export_dialog::run_export_worker(
        input(ExportFormatChoice::PlaintextOtpauth),
        |v| v.as_bytes().to_vec(),
        |_, _| panic!("nothing is encrypted"),
        |p, bytes| {
            assert_eq!((p.display().as_str(), bytes.as_slice()), ("/x", b"vault".as_slice()));
            Ok(())
        },
    );
    assert!(matches!(plain.outcome, ExportOutcome::Success));
    assert_eq!((plain.vault, plain.store), ("vault", 1));
    let encrypted = export_dialog::run_export_worker(
        input(ExportFormatChoice::EncryptedPaladin),
        |_| panic!("nothing is plaintext"),
        |_, options| {
            assert_eq!(options.passphrase(), "pw");
            Err(error(ErrorKind::IoError))
        },
        |_, _| panic!("nothing is written"),
    );
    assert!(matches!(encrypted.outcome, ExportOutcome::Inline(_)));
    assert_eq!(encrypted.destination.display(), "/x");
}

#[test]
fn export_selector_positions_round_trip() {
    for format in [ExportFormatChoice::PlaintextOtpauth, ExportFormatChoice::EncryptedPaladin] {
        assert_eq!(export_dialog::format_choice_from_index(format.index()), Some(format));
    }
    assert_eq!(export_dialog::format_choice_from_index(2), None);
}

fn picked(precheck: PaladinImportPrecheck) -> ImportDialogState {
    let mut state = ImportDialogState::new();
    import_dialog::apply_msg(
        &mut state,
        ImportDialogMsg::SourcePathPicked { path: path("/in"), precheck },
    );
    state
}

#[test]
fn import_needs_a_source() {
    let mut state = ImportDialogState::new();
    assert!(!import_dialog::compose_submit_button_sensitive(&state));
    assert!(import_dialog::apply_msg(&mut state, ImportDialogMsg::SubmitClicked).is_none());
    assert!(matches!(
        import_dialog::compose_submit_outcome(&state),
        import_dialog::SubmitOutcome::NeedsSourcePath
    ));
}

#[test]
fn import_row_shows_the_file_name() {
    let mut state = ImportDialogState::new();
    assert_eq!(import_dialog::compose_source_row_subtitle(&state), "No file selected");
    for (source, shown) in [
        ("/tmp/backup.json", "backup.json"),
        ("backup.json", "backup.json"),
        ("/tmp/dir/", "dir"),
        ("/", "/"),
        ("/tmp/..", "/tmp/.."),
    ] {
        state.set_source_path(path(source), PaladinImportPrecheck::NoPrompt);
        assert_eq!(import_dialog::compose_source_row_subtitle(&state), shown);
    }
}

#[test]
fn import_submits_its_choices() {
    let mut state = picked(PaladinImportPrecheck::NoPrompt);
    import_dialog::apply_msg(&mut state, ImportDialogMsg::ConflictChanged(ConflictChoice::Replace));
    match import_dialog::apply_msg(&mut state, ImportDialogMsg::SubmitClicked) {
        Some(ImportDialogOutput::Submit(payload)) => {
            assert_eq!(payload.source_path.display(), "/in");
            assert_eq!(payload.conflict, ImportConflict::Replace);
            assert!(payload.options.format.is_none());
            assert!(payload.options.paladin_passphrase.is_none());
        }
        _ => panic!("nothing is imported"),
    }
    assert!(state.is_busy());
}

#[test]
fn import_bundle_needs_its_passphrase() {
    let mut state = picked(PaladinImportPrecheck::PromptForPassphrase);
    assert!(import_dialog::compose_passphrase_row_visible(&state));
    assert!(!import_dialog::compose_submit_button_sensitive(&state));
    import_dialog::apply_msg(&mut state, ImportDialogMsg::PassphraseChanged("pw".to_string()));
    match import_dialog::apply_msg(&mut state, ImportDialogMsg::SubmitClicked) {
        Some(ImportDialogOutput::Submit(payload)) => {
            assert_eq!(payload.options.paladin_passphrase.unwrap().expose(), "pw");
        }
        _ => panic!("nothing is imported"),
    }
    import_dialog::apply_msg(
        &mut state,
        ImportDialogMsg::SourcePathPicked {
            path: path("/other"),
            precheck: PaladinImportPrecheck::PromptForPassphrase,
        },
    );
    assert_eq!(state.passphrase_text(), "");
}

#[test]
fn refused_import_source_is_shown_and_dismissed() {
    let mut state = picked(PaladinImportPrecheck::Reject(error(ErrorKind::InvalidHeader)));
    assert_eq!(import_dialog::compose_inline_error_body(&state), Some("engine text"));
    assert!(import_dialog::apply_msg(&mut state, ImportDialogMsg::SubmitClicked).is_none());
    import_dialog::apply_msg(
        &mut state,
        ImportDialogMsg::FormatChanged {
            format: FormatChoice::Otpauth,
            precheck: PaladinImportPrecheck::NoPrompt,
        },
    );
    assert!(!import_dialog::compose_inline_error_revealed(&state));
    let mut moved = picked(PaladinImportPrecheck::Reject(error(ErrorKind::InvalidHeader)));
    import_dialog::apply_msg(
        &mut moved,
        ImportDialogMsg::SourcePathPicked {
            path: path("/other"),
            precheck: PaladinImportPrecheck::NoPrompt,
        },
    );
    assert!(!import_dialog::compose_inline_error_revealed(&moved));
}

#[test]
fn import_shows_one_result_at_a_time() {
    let mut state = picked(PaladinImportPrecheck::NoPrompt);
    import_dialog::apply_msg(&mut state, ImportDialogMsg::SubmitClicked);
    let report = ImportReport {
        imported: 3,
        skipped: 1,
        replaced: 2,
        appended: 4,
        warnings: vec!["w".to_string()],
    };
    let done = import_dialog::classify_merge_result(Ok(report));
    import_dialog::apply_msg(&mut state, ImportDialogMsg::WorkerCompleted(done));
    assert!(!state.is_busy());
    assert_eq!(
        import_dialog::compose_counts_panel_imported_label(&state).as_deref(),
        Some("Imported: 3")
    );
    assert_eq!(
        import_dialog::compose_counts_panel_warnings_label(&state).as_deref(),
        Some("Warnings: 1")
    );
    let warning = import_dialog::classify_merge_result(Err(error(ErrorKind::SaveDurabilityUnconfirmed)));
    import_dialog::apply_msg(&mut state, ImportDialogMsg::WorkerCompleted(warning));
    assert!(!import_dialog::compose_counts_panel_visible(&state));
    assert!(import_dialog::compose_inline_warning_revealed(&state));
    assert!(matches!(
        import_dialog::classify_merge_result(Err(error(ErrorKind::SaveNotCommitted))),
        MergeOutcome::NotCommitted(_)
    ));
    assert!(matches!(
        import_dialog::classify_merge_result(Err(error(ErrorKind::IoError))),
        MergeOutcome::Inline(_)
    ));
    assert!(matches!(
        import_dialog::apply_msg(&mut state, ImportDialogMsg::DismissCounts),
        Some(ImportDialogOutput::Close)
    ));
}

#[test]
fn import_worker_returns_the_vault() {
    let input = import_dialog::ImportWorkerInput {
        vault: 1,
        store: "store",
        source_path: path("/in"),
        options: import_dialog::build_import_options(
            FormatChoice::Paladin,
            Some(Passphrase::new("pw")),
        ),
        conflict: ImportConflict::Append,
        import_time: 7,
    };
    let done = import_dialog::run_import_worker(input, |vault, store, source, options, conflict, time| {
        assert_eq!((*store, source.display().as_str()), ("store", "/in"));
        assert_eq!(options.format, Some(ImportFormat::Paladin));
        assert_eq!((conflict, time), (ImportConflict::Append, 7));
        (vault + 1, Err(error(ErrorKind::SaveNotCommitted)))
    });
    assert_eq!((done.vault, done.store), (2, "store"));
    assert!(matches!(done.outcome, MergeOutcome::NotCommitted(_)));
}

#[test]
fn import_selector_positions_round_trip() {
    for i in 0..5u32 {
        assert_eq!(import_dialog::format_choice_from_index(i).unwrap().index(), i);
    }
    assert!(import_dialog::format_choice_from_index(5).is_none());
    for i in 0..3u32 {
        assert_eq!(import_dialog::conflict_choice_from_index(i).unwrap().index(), i);
    }
    assert!(import_dialog::conflict_choice_from_index(3).is_none());
    assert_eq!(FormatChoice::Qr.forced_format(), Some(ImportFormat::QrImage));
    assert_eq!(FormatChoice::AutoDetect.forced_format(), None);
}

fn open_qr() -> ExportQrDialogState {
    let summary = AccountSummary {
        id: AccountId { bits: 4 },
        label: "bob".to_string(),
        issuer: Some("Acme".to_string()),
        icon_hint: None,
        kind: AccountKindSummary::Hotp,
    };
    let init = export_qr_dialog::decide_export_qr_target(&[summary], AccountId { bits: 4 }).unwrap();
    ExportQrDialogState::new(init)
}

#[test]
fn qr_is_shown_on_request() {
    let mut state = open_qr();
    assert!(!export_qr_dialog::compose_show_qr_button_sensitive(&state));
    assert!(export_qr_dialog::update(&mut state, ExportQrDialogMsg::AckToggled(true)).is_none());
    assert!(export_qr_dialog::compose_show_qr_button_sensitive(&state));
    assert_eq!(export_qr_dialog::compose_visible_child_name(&state), "warning");
    assert!(matches!(
        export_qr_dialog::update(&mut state, ExportQrDialogMsg::ShowQr),
        Some(ExportQrDialogOutput::ShowQrRequested(AccountId { bits: 4 }))
    ));
    export_qr_dialog::apply_msg_show_qr(&mut state, Ok(WipedBytes::new(vec![1, 2])));
    assert_eq!(export_qr_dialog::compose_visible_child_name(&state), "qr");
    assert_eq!(state.staged_png.as_ref().unwrap().as_slice(), &[1, 2]);
    assert_eq!(export_qr_dialog::compose_export_qr_caption_text(&state), "Acme:bob");
}

#[test]
fn qr_goes_with_the_acknowledgement() {
    for msg in [
        ExportQrDialogMsg::AckToggled(false),
        ExportQrDialogMsg::CancelPressed,
        ExportQrDialogMsg::Close,
    ] {
        let mut state = open_qr();
        export_qr_dialog::apply_msg_show_qr_succeeded(&mut state, WipedBytes::new(vec![1]));
        export_qr_dialog::update(&mut state, msg);
        assert!(state.staged_png.is_none());
        assert_eq!(export_qr_dialog::compose_visible_child_name(&state), "warning");
    }
    let mut state = open_qr();
    export_qr_dialog::apply_msg_show_qr_succeeded(&mut state, WipedBytes::new(vec![1]));
    export_qr_dialog::clear_for_lock(&mut state);
    assert!(state.staged_png.is_none());
}

#[test]
fn qr_failure_is_shown_on_the_warning_page() {
    let mut state = open_qr();
    export_qr_dialog::apply_msg_show_qr(&mut state, Err(error(ErrorKind::InvalidState)));
    assert_eq!(state.show_qr_error.as_deref(), Some("engine text"));
    assert_eq!(export_qr_dialog::compose_visible_child_name(&state), "warning");
    export_qr_dialog::apply_msg_show_qr(&mut state, Ok(WipedBytes::new(vec![])));
    assert!(state.show_qr_error.is_none());
    assert_eq!(
        export_qr_dialog::format_export_qr_dialog_ack_row_title(),
        "I understand \u{2014} show the QR"
    );
    assert_eq!(export_qr_dialog::format_export_qr_dialog_copy_image_label(), "Copy image");
}

#[test]
fn pasted_uri_is_handed_to_the_engine() {
    let parsed = otpauth_uri_paste::classify_uri_submit("otpauth://x", |uri| Ok(uri.len()));
    assert!(matches!(parsed, UriSubmitOutcome::Proceed(11)));
    let refused = otpauth_uri_paste::classify_uri_submit::<(), _>("https://x", |_| {
        Err(error(ErrorKind::ValidationError))
    });
    assert!(matches!(refused, UriSubmitOutcome::InlineError(e) if e.rendered == "engine text"));
    assert!(matches!(
        otpauth_uri_paste::classify_uri_add_error(&error(ErrorKind::SaveDurabilityUnconfirmed)),
        UriAddErrorOutcome::KeepWithWarning(_)
    ));
    assert!(matches!(
        otpauth_uri_paste::classify_uri_add_error(&error(ErrorKind::SaveNotCommitted)),
        UriAddErrorOutcome::Inline(_)
    ));
}
