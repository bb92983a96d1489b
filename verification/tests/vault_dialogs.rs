use paladin_gtk::destroy_dialog;
use paladin_gtk::destroy_dialog::DestroyDialogInit;
use paladin_gtk::destroy_dialog::DestroyDialogMsg;
use paladin_gtk::destroy_dialog::DestroyDialogOutput;
use paladin_gtk::destroy_dialog::DestroyDialogState;
use paladin_gtk::destroy_dialog::DestroyWorkerEffect;
use paladin_gtk::init_dialog;
use paladin_gtk::init_dialog::InitDialogMsg;
use paladin_gtk::init_dialog::InitDialogOutput;
use paladin_gtk::init_dialog::InitDialogState;
use paladin_gtk::init_dialog::InitMode;
use paladin_gtk::init_dialog::InitWorkerEffect;
use paladin_gtk::init_dialog::InitWorkerInput;
use paladin_gtk::init_dialog::InitWorkerMode;
use paladin_gtk::inline::PassphraseRefusals;
use paladin_gtk::passphrase_dialog;
use paladin_gtk::passphrase_dialog::SubFlow;
use paladin_gtk::paths::FilePath;
use paladin_gtk::secret_fields::ClearReason;
use paladin_gtk::vault::CreateError;
use paladin_gtk::vault::DestroyReport;
use paladin_gtk::vault::ErrorKind;
use paladin_gtk::vault::InitPrecheck;
use paladin_gtk::vault::PaladinError;
use paladin_gtk::vault::VaultInit;

fn path(text: &str) -> FilePath {
    FilePath { bytes: text.as_bytes().to_vec() }
}

fn error(kind: ErrorKind) -> PaladinError {
    PaladinError { kind, rendered: "engine text".to_string() }
}

fn create_error(kind: ErrorKind) -> CreateError {
    CreateError {
        error: error(kind),
        permissions_text: None,
        create_dir_text: None,
        backup_path: Some(path("/v/vault.bin.bak")),
    }
}

fn refusals() -> PassphraseRefusals {
    PassphraseRefusals {
        confirmation_mismatch: "they differ".to_string(),
        zero_length: "it is empty".to_string(),
    }
}

fn typed(passphrase: &str, confirm: &str, acknowledged: bool) -> InitDialogState {
    let mut state = InitDialogState::new();
    state.set_passphrase(passphrase);
    state.set_confirm(confirm);
    state.set_plaintext_warning(acknowledged);
    state
}

#[test]
fn init_mode_follows_the_entries() {
    assert!(init_dialog::classify_mode("", "") == InitMode::Plaintext);
    assert!(init_dialog::classify_mode("a", "") == InitMode::Encrypted);
    assert!(init_dialog::classify_mode("", "a") == InitMode::Encrypted);
}

#[test]
fn init_button_is_on_when_submission_succeeds() {
    for (passphrase, confirm, acknowledged, ok) in [
        ("", "", false, false),
        ("", "", true, true),
        ("pw", "pw", false, true),
        ("pw", "", true, false),
        ("pw", "px", true, false),
    ] {
        let mut state = typed(passphrase, confirm, acknowledged);
        assert_eq!(state.submit_button_sensitive(), ok);
        assert_eq!(state.submit(&refusals()).is_ok(), ok);
    }
}

#[test]
fn init_refusals_are_shown() {
    let mut state = typed("a", "b", false);
    assert!(init_dialog::apply_msg(&mut state, InitDialogMsg::SubmitClicked, &refusals()).is_none());
    assert_eq!(state.inline_error().unwrap().rendered, "they differ");
    let rejection = init_dialog::SubmitRejection::ConfirmationMismatch;
    assert_eq!(rejection.reason(), Some("confirmation_mismatch"));
    assert_eq!(rejection.error_kind(), Some(ErrorKind::InvalidPassphrase));
    let warning = init_dialog::SubmitRejection::PlaintextWarningRequired;
    assert_eq!((warning.reason(), warning.error_kind()), (None, None));
    let mut plain = typed("", "", false);
    init_dialog::apply_msg(&mut plain, InitDialogMsg::SubmitClicked, &refusals());
    assert!(plain.inline_error().is_none());
}

#[test]
fn init_replacement_uses_what_was_submitted() {
    let mut state = typed("pw", "pw", false);
    assert!(matches!(
        init_dialog::apply_msg(&mut state, InitDialogMsg::SubmitClicked, &refusals()),
        Some(InitDialogOutput::SubmitCreate(_))
    ));
    init_dialog::apply_msg(&mut state, InitDialogMsg::WorkerCompletedDestructive, &refusals());
    assert!(init_dialog::presents_destructive_alert(true, &state));
    assert!(!init_dialog::presents_destructive_alert(false, &state));
    match init_dialog::apply_msg(&mut state, InitDialogMsg::ForceConfirmClicked, &refusals()) {
        Some(InitDialogOutput::SubmitForceCreate(VaultInit::Encrypted(options))) => {
            assert_eq!(options.passphrase(), "pw");
        }
        _ => panic!("the vault is not replaced"),
    }
    assert_eq!(state.passphrase_text(), "");
    assert_eq!(state.confirm_text(), "");
    assert!(init_dialog::apply_msg(&mut state, InitDialogMsg::ForceConfirmClicked, &refusals()).is_none());
}

#[test]
fn init_decline_leaves_nothing() {
    let mut state = typed("pw", "pw", false);
    init_dialog::apply_msg(&mut state, InitDialogMsg::WorkerCompletedDestructive, &refusals());
    init_dialog::apply_msg(&mut state, InitDialogMsg::ForceCancelClicked, &refusals());
    assert!(!state.has_pending_force());
    assert_eq!(state.passphrase_text(), "");
    let mut staged = typed("", "", true);
    assert!(staged.stage_pending_for_force().unwrap().is_none());
    assert!(staged.clear_for(ClearReason::AutoLock).is_some());
    assert!(staged.consume_pending().is_none());
}

#[test]
fn init_prechecks_are_routed() {
    assert!(matches!(
        init_dialog::classify_precheck(&InitPrecheck::Clear),
        init_dialog::PrecheckOutcome::Proceed
    ));
    assert!(matches!(
        init_dialog::classify_precheck(&InitPrecheck::Existing),
        init_dialog::PrecheckOutcome::DestructiveGate
    ));
    let mut unsafe_file = create_error(ErrorKind::UnsafePermissions);
    unsafe_file.permissions_text = Some("mode 0644".to_string());
    match init_dialog::classify_precheck(&InitPrecheck::Propagate(unsafe_file)) {
        init_dialog::PrecheckOutcome::InlineError(e) => {
            assert_eq!(e.rendered, "mode 0644");
            assert!(e.backup_path.is_none());
        }
        _ => panic!("the error is not shown"),
    }
}

#[test]
fn init_worker_calls_what_its_mode_asks_for() {
    let input = |mode| InitWorkerInput { init: VaultInit::Plaintext, vault_path: path("/v"), mode };
    let created = init_dialog::run_init_worker(
        input(InitWorkerMode::Create),
        |p, _| {
            assert_eq!(p.display(), "/v");
            Ok("vault")
        },
        |vault| {
            assert_eq!(*vault, "vault");
            Ok(())
        },
        |_, _| panic!("nothing is replaced"),
    );
    assert!(matches!(created.effect, InitWorkerEffect::Success("vault")));
    let gate = init_dialog::run_init_worker::<(), _, _, _>(
        input(InitWorkerMode::Create),
        |_, _| Err(create_error(ErrorKind::VaultExists)),
        |_| panic!("nothing is saved"),
        |_, _| panic!("nothing is replaced"),
    );
    assert!(matches!(gate.effect, InitWorkerEffect::DestructiveGate));
    let failed = init_dialog::run_init_worker::<(), _, _, _>(
        input(InitWorkerMode::CreateForce),
        |_, _| panic!("nothing is created"),
        |_| panic!("nothing is saved"),
        |_, _| Err(create_error(ErrorKind::SaveNotCommitted)),
    );
    match failed.effect {
        InitWorkerEffect::InlineError(e) => {
            assert_eq!(e.backup_path.unwrap().display(), "/v/vault.bin.bak");
        }
        _ => panic!("the error is not shown"),
    }
    let mut no_dir = create_error(ErrorKind::IoError);
    no_dir.create_dir_text = Some("cannot create /v".to_string());
    assert_eq!(init_dialog::classify_create_force_error(&no_dir).rendered, "cannot create /v");
    assert!(matches!(
        init_dialog::classify_create_error(&create_error(ErrorKind::VaultExists)),
        init_dialog::CreateOutcome::DestructiveGate
    ));
}

#[test]
fn new_vault_is_saved_before_it_is_handed_back() {
    let unsaved = init_dialog::create_and_save(
        &path("/v"),
        VaultInit::Plaintext,
        |_, _| Ok("vault"),
        |_| Err(create_error(ErrorKind::IoError)),
    );
    assert!(matches!(unsaved, Err(e) if e.error.kind == ErrorKind::IoError));
    let uncreated: Result<&str, _> = init_dialog::create_and_save(
        &path("/v"),
        VaultInit::Plaintext,
        |_, _| Err(create_error(ErrorKind::VaultExists)),
        |_| panic!("nothing is saved"),
    );
    assert!(matches!(uncreated, Err(e) if e.error.kind == ErrorKind::VaultExists));
    let failed = init_dialog::run_init_worker(
        InitWorkerInput {
            init: VaultInit::Plaintext,
            vault_path: path("/v"),
            mode: InitWorkerMode::Create,
        },
        |_, _| Ok("vault"),
        |_| Err(create_error(ErrorKind::SaveNotCommitted)),
        |_, _| panic!("nothing is replaced"),
    );
    assert!(matches!(failed.effect, InitWorkerEffect::InlineError(e) if e.kind == ErrorKind::SaveNotCommitted));
}

#[test]
fn attempted_directory_is_the_parent() {
    for (vault, directory) in [("/a/b/vault.bin", "/a/b"), ("/vault.bin", "/"), ("vault.bin", ""), ("/", "."), ("", ".")] {
        assert_eq!(init_dialog::attempted_directory(&path(vault)).display(), directory);
    }
}

#[test]
fn destroy_needs_the_word_yes() {
    let init = DestroyDialogInit { path: path("/v/vault.bin"), backup_present: true };
    let mut state = DestroyDialogState::new(&init);
    for (text, on) in [("", false), ("ye", false), ("yes", true), ("  yes\n", true), ("YES", false), ("yes yes", false)] {
        destroy_dialog::apply_msg(
            &mut state,
            DestroyDialogMsg::ConfirmationChanged(text.to_string()),
        );
        assert_eq!(
            destroy_dialog::format_destroy_dialog_destructive_response_enabled(&state),
            on,
            "{text:?}"
        );
    }
}

#[test]
fn destroy_targets_its_own_path() {
    let init = DestroyDialogInit { path: path("/v/vault.bin"), backup_present: false };
    let mut state = DestroyDialogState::new(&init);
    match destroy_dialog::apply_msg(&mut state, DestroyDialogMsg::Confirm) {
        Some(DestroyDialogOutput::SubmitConfirm { path }) => {
            assert_eq!(path.display(), "/v/vault.bin");
        }
        _ => panic!("nothing is deleted"),
    }
    assert!(matches!(
        destroy_dialog::apply_msg(&mut state, DestroyDialogMsg::Cancel),
        Some(DestroyDialogOutput::Cancel)
    ));
    let body = destroy_dialog::format_destroy_dialog_body(&state, |p, backup| {
        format!("{} {}", p.display(), backup)
    });
    assert_eq!(body, "/v/vault.bin false");
}

#[test]
fn destroy_failure_can_be_retried() {
    let init = DestroyDialogInit { path: path("/v"), backup_present: false };
    let mut state = DestroyDialogState::new(&init);
    destroy_dialog::apply_msg(&mut state, DestroyDialogMsg::ConfirmationChanged("yes".to_string()));
    destroy_dialog::apply_msg(&mut state, DestroyDialogMsg::SetBusy(true));
    assert!(!destroy_dialog::format_destroy_dialog_destructive_response_enabled(&state));
    destroy_dialog::apply_msg(&mut state, DestroyDialogMsg::SetBusy(false));
    let outcome = destroy_dialog::classify_destroy_error(&error(ErrorKind::IoError));
    destroy_dialog::apply_msg(&mut state, DestroyDialogMsg::WorkerFailed(outcome));
    assert!(destroy_dialog::format_destroy_dialog_inline_error_visible(&state));
    assert_eq!(destroy_dialog::format_destroy_dialog_inline_error_text(&state), "engine text");
    assert!(destroy_dialog::format_destroy_dialog_destructive_response_enabled(&state));
    destroy_dialog::clear_for_lock(&mut state);
    assert_eq!(state.confirmation(), "");
    assert!(!destroy_dialog::format_destroy_dialog_inline_error_visible(&state));
    assert_eq!(destroy_dialog::format_destroy_dialog_inline_error_text(&state), "");
    assert!(!destroy_dialog::format_destroy_dialog_destructive_response_enabled(&state));
}

#[test]
fn destroy_of_a_missing_vault_is_no_failure() {
    let report = DestroyReport { backup_deleted: true };
    assert!(matches!(
        destroy_dialog::run_destroy_worker(path("/v"), |p| {
            assert_eq!(p.display(), "/v");
            Ok(report)
        }),
        DestroyWorkerEffect::Success(DestroyReport { backup_deleted: true })
    ));
    assert!(matches!(
        destroy_dialog::destroy_worker_effect(&Err(error(ErrorKind::VaultMissing))),
        DestroyWorkerEffect::VaultMissing
    ));
    assert!(matches!(
        destroy_dialog::destroy_worker_effect(&Err(error(ErrorKind::IoError))),
        DestroyWorkerEffect::Failure(_)
    ));
    assert_eq!(destroy_dialog::format_destroy_dialog_success_toast(true), "Vault deleted.");
    assert_eq!(
        destroy_dialog::format_destroy_dialog_success_toast(false),
        "Vault deleted (backup remained on disk)."
    );
}

#[test]
fn backup_is_claimed_only_when_found() {
    let vault = path("/v/vault.bin");
    assert_eq!(destroy_dialog::backup_path_for(&vault).display(), "/v/vault.bin.bak");
    assert!(destroy_dialog::probe_backup_present(&vault, |p| {
        assert_eq!(p.display(), "/v/vault.bin.bak");
        Some(true)
    }));
    assert!(!destroy_dialog::probe_backup_present(&vault, |_| Some(false)));
    assert!(!destroy_dialog::probe_backup_present(&vault, |_| None));
    assert_eq!(
        destroy_dialog::format_destroy_dialog_marker(&vault, true),
        "paladin-gtk: destroy_dialog_path=/v/vault.bin backup_present=true"
    );
}

#[test]
fn passphrase_flows_fit_the_vault() {
    assert_eq!(passphrase_dialog::available_sub_flows(false), &[SubFlow::SetPassphrase]);
    assert_eq!(
        passphrase_dialog::available_sub_flows(true),
        &[SubFlow::Change, SubFlow::Remove]
    );
    for encrypted in [false, true] {
        for flow in [SubFlow::SetPassphrase, SubFlow::Change, SubFlow::Remove] {
            assert_eq!(
                flow.is_available(encrypted),
                passphrase_dialog::available_sub_flows(encrypted).contains(&flow)
            );
        }
    }
}

#[test]
fn new_passphrase_is_entered_twice() {
    let options = passphrase_dialog::prepare_new_passphrase("pw", "pw").unwrap();
    assert_eq!(options.passphrase(), "pw");
    let differ = passphrase_dialog::prepare_new_passphrase("pw", "").unwrap_err();
    assert_eq!(differ.reason(), "confirmation_mismatch");
    let empty = passphrase_dialog::prepare_new_passphrase("", "").unwrap_err();
    assert_eq!(empty.reason(), "zero_length");
    assert_eq!(empty.error_kind(), ErrorKind::InvalidPassphrase);
}
