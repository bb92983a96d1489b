use paladin_gtk::account::AccountId;
use paladin_gtk::account::AccountKindSummary;
use paladin_gtk::account::AccountSummary;
use paladin_gtk::edit_dialog;
use paladin_gtk::edit_dialog::EditDialogMsg;
use paladin_gtk::edit_dialog::EditDialogOutput;
use paladin_gtk::edit_dialog::EditDialogState;
use paladin_gtk::edit_dialog::EngineAnswers;
use paladin_gtk::remove_dialog;
use paladin_gtk::remove_dialog::RemoveDialogMsg;
use paladin_gtk::remove_dialog::RemoveDialogOutput;
use paladin_gtk::remove_dialog::RemoveDialogState;
use paladin_gtk::rename_dialog;
use paladin_gtk::rename_dialog::RenameDialogMsg;
use paladin_gtk::rename_dialog::RenameDialogOutput;
use paladin_gtk::rename_dialog::RenameDialogState;
use paladin_gtk::rename_dialog::RenameErrorOutcome;
use paladin_gtk::vault::ErrorKind;
use paladin_gtk::vault::IconHintInput;
use paladin_gtk::vault::PaladinError;

fn error(kind: ErrorKind) -> PaladinError {
    PaladinError { kind, rendered: "engine text".to_string() }
}

fn summaries() -> Vec<AccountSummary> {
    vec![
        AccountSummary {
            id: AccountId { bits: 1 },
            label: "alice".to_string(),
            issuer: Some("Acme".to_string()),
            icon_hint: Some("acme".to_string()),
            kind: AccountKindSummary::Totp,
        },
        AccountSummary {
            id: AccountId { bits: 2 },
            label: "bob".to_string(),
            issuer: None,
            icon_hint: None,
            kind: AccountKindSummary::Hotp,
        },
    ]
}

fn engine_label(text: &str) -> Result<String, PaladinError> {
    let label = text.trim();
    if label.is_empty() {
        Err(error(ErrorKind::ValidationError))
    } else {
        Ok(label.to_string())
    }
}

fn answers(label: &str, icon: &str) -> EngineAnswers {
    EngineAnswers {
        label: engine_label(label),
        icon_hint: if icon.contains(' ') {
            Err(error(ErrorKind::ValidationError))
        } else {
            Ok(IconHintInput::Slug(icon.to_lowercase()))
        },
        edit: Ok(()),
    }
}

fn send(state: &mut EditDialogState, msg: EditDialogMsg) -> Option<EditDialogOutput> {
    let given = answers(
        edit_dialog::label_to_check(state, &msg),
        edit_dialog::icon_hint_to_check(state, &msg),
    );
    edit_dialog::apply_msg(state, msg, &given)
}

fn open_edit(bits: u128) -> EditDialogState {
    let init = edit_dialog::decide_edit_target(&summaries(), AccountId { bits }).unwrap();
    EditDialogState::new(&init)
}

fn sensitive(state: &EditDialogState) -> bool {
    edit_dialog::format_edit_dialog_save_button_sensitive(
        state,
        &answers(state.label_buf(), state.icon_hint_buf()),
    )
}

#[test]
fn edit_opens_with_what_is_stored() {
    let state = open_edit(1);
    assert_eq!(state.label_buf(), "alice");
    assert_eq!(state.issuer_buf(), "Acme");
    assert_eq!(state.icon_hint_buf(), "acme");
    assert_eq!(state.prior().display_label, "Acme:alice");
    assert!(!sensitive(&state));
    assert!(edit_dialog::decide_edit_target(&summaries(), AccountId { bits: 9 }).is_none());
}

#[test]
fn edit_saves_what_the_rows_show() {
    let mut state = open_edit(1);
    send(&mut state, EditDialogMsg::LabelChanged("  carol ".to_string()));
    send(&mut state, EditDialogMsg::IssuerChanged(" Bank ".to_string()));
    send(&mut state, EditDialogMsg::IconHintChanged("NONE".to_string()));
    assert!(sensitive(&state));
    match send(&mut state, EditDialogMsg::SubmitClicked) {
        Some(EditDialogOutput::Submit { account_id, edit }) => {
            assert_eq!(account_id.bits, 1);
            assert_eq!(edit.label.as_deref(), Some("carol"));
            assert_eq!(edit.issuer, Some(Some("Bank".to_string())));
            assert!(matches!(edit.icon_hint, Some(IconHintInput::Clear)));
        }
        _ => panic!("nothing was submitted"),
    }
}

#[test]
fn edit_white_space_changes_nothing() {
    let mut state = open_edit(1);
    send(&mut state, EditDialogMsg::LabelChanged(" alice\t".to_string()));
    assert!(!sensitive(&state));
    assert!(send(&mut state, EditDialogMsg::SubmitClicked).is_none());
}

#[test]
fn edit_empty_issuer_clears_it() {
    let mut state = open_edit(1);
    send(&mut state, EditDialogMsg::IssuerClearClicked);
    let projection = edit_dialog::classify_edit_draft(&state, &answers("alice", "acme"));
    assert_eq!(projection.edit.issuer, Some(None));
    let mut none = open_edit(2);
    send(&mut none, EditDialogMsg::IssuerClearClicked);
    assert!(!sensitive(&none));
}

#[test]
fn edit_rows_report_their_errors() {
    let mut state = open_edit(1);
    send(&mut state, EditDialogMsg::LabelChanged("   ".to_string()));
    assert_eq!(state.label_error().unwrap().rendered, "engine text");
    send(&mut state, EditDialogMsg::IssuerChanged("  ".to_string()));
    assert_eq!(
        state.issuer_error().unwrap().rendered,
        "validation_error: issuer must not be empty"
    );
    send(&mut state, EditDialogMsg::IssuerChanged("x".repeat(129)));
    assert_eq!(
        state.issuer_error().unwrap().rendered,
        "validation_error: issuer exceeds 128 bytes"
    );
    send(&mut state, EditDialogMsg::IssuerChanged("\u{e9}".repeat(64)));
    assert!(state.issuer_error().is_none());
    send(&mut state, EditDialogMsg::IssuerChanged("\u{e9}".repeat(65)));
    assert!(state.issuer_error().is_some());
    send(&mut state, EditDialogMsg::IconHintChanged("a b".to_string()));
    assert!(state.icon_hint_error().is_some());
    assert!(send(&mut state, EditDialogMsg::SubmitClicked).is_none());
}

#[test]
fn edit_empty_icon_means_default() {
    let mut state = open_edit(1);
    send(&mut state, EditDialogMsg::IconHintChanged(String::new()));
    let projection = edit_dialog::classify_edit_draft(&state, &answers("alice", ""));
    assert!(matches!(projection.edit.icon_hint, Some(IconHintInput::Default)));
    assert!(projection.save_sensitive());
}

#[test]
fn edit_collision_waits_for_valid_changes() {
    let marker = || edit_dialog::duplicate_marker_from_account(&summaries()[0]);
    let mut state = open_edit(2);
    send(&mut state, EditDialogMsg::LabelChanged("dave".to_string()));
    let outcome = edit_dialog::classify_submit(&state, &answers("dave", ""));
    assert!(matches!(
        edit_dialog::classify_submit_with_duplicate(outcome, Some(marker())),
        edit_dialog::SubmitDispatch::DuplicateDetected(m) if m.display_label == "Acme:alice"
    ));
    let outcome = edit_dialog::classify_submit(&state, &answers("dave", ""));
    assert!(matches!(
        edit_dialog::classify_submit_with_duplicate(outcome, None),
        edit_dialog::SubmitDispatch::DispatchEffect(_)
    ));
    let mut refused = answers("dave", "");
    refused.edit = Err(error(ErrorKind::ValidationError));
    let outcome = edit_dialog::classify_submit(&state, &refused);
    assert!(matches!(
        edit_dialog::classify_submit_with_duplicate(outcome, Some(marker())),
        edit_dialog::SubmitDispatch::InvalidEdit(_)
    ));
    let outcome = edit_dialog::classify_submit(&open_edit(2), &answers("bob", ""));
    assert!(matches!(
        edit_dialog::classify_submit_with_duplicate(outcome, Some(marker())),
        edit_dialog::SubmitDispatch::EmptyEditReject
    ));
}

#[test]
fn edit_banner_goes_with_the_next_keystroke() {
    let mut state = open_edit(2);
    let marker = edit_dialog::duplicate_marker_from_account(&summaries()[0]);
    send(&mut state, EditDialogMsg::DuplicateDetected(marker));
    assert_eq!(
        edit_dialog::compose_duplicate_banner(&state),
        "duplicate_account: collides with Acme:alice."
    );
    send(&mut state, EditDialogMsg::IconHintChanged("x".to_string()));
    assert!(state.duplicate().is_some());
    send(&mut state, EditDialogMsg::LabelChanged("x".to_string()));
    assert!(state.duplicate().is_none());
    assert_eq!(edit_dialog::compose_duplicate_banner(&state), "");
}

#[test]
fn edit_lock_leaves_nothing() {
    let mut state = open_edit(1);
    send(&mut state, EditDialogMsg::LabelChanged("carol".to_string()));
    edit_dialog::clear_for_lock(&mut state);
    assert_eq!(state.label_buf(), "");
    assert_eq!(state.issuer_buf(), "");
    assert_eq!(state.icon_hint_buf(), "");
    assert_eq!(state.prior().label, "");
    assert!(state.prior().issuer.is_none());
    assert_eq!(state.account_id().bits, 1);
    assert!(!sensitive(&state));
    let mut busy = open_edit(1);
    send(&mut busy, EditDialogMsg::LabelChanged("carol".to_string()));
    send(&mut busy, EditDialogMsg::SetBusy(true));
    assert!(!sensitive(&busy));
    assert!(matches!(send(&mut busy, EditDialogMsg::Cancel), Some(EditDialogOutput::Cancel)));
}

#[test]
fn edit_texts_are_fixed() {
    assert_eq!(edit_dialog::format_edit_dialog_subtitle("Acme:a"), "Editing Acme:a.");
    let list = summaries();
    assert_eq!(
        edit_dialog::format_edit_dialog_success_toast(Some(&list[0])),
        "Edited Acme:alice."
    );
    assert_eq!(edit_dialog::format_edit_dialog_success_toast(None), "Edited.");
    assert_eq!(
        edit_dialog::format_edit_dialog_marker("7", "Acme:a"),
        "paladin-gtk: edit_dialog_account=7 label=Acme:a"
    );
    assert!(matches!(
        edit_dialog::classify_post_effect_error(&error(ErrorKind::SaveDurabilityUnconfirmed)),
        edit_dialog::PostEffectOutcome::StayOpenWithWarning(_)
    ));
    assert!(matches!(
        edit_dialog::classify_post_effect_error(&error(ErrorKind::DuplicateAccount)),
        edit_dialog::PostEffectOutcome::StayOpenWithError(_)
    ));
}

fn open_rename() -> RenameDialogState {
    let init = rename_dialog::decide_rename_target(&summaries(), AccountId { bits: 1 }).unwrap();
    RenameDialogState::new(&init, &engine_label(&init.current_label))
}

fn rename(state: &mut RenameDialogState, msg: RenameDialogMsg) -> Option<RenameDialogOutput> {
    let answer = engine_label(rename_dialog::label_to_check(state, &msg));
    rename_dialog::apply_msg(state, msg, &answer)
}

#[test]
fn rename_submits_the_stored_form() {
    let mut state = open_rename();
    rename(&mut state, RenameDialogMsg::DraftChanged(" carol ".to_string()));
    assert_eq!(state.draft(), " carol ");
    match rename(&mut state, RenameDialogMsg::SubmitClicked) {
        Some(RenameDialogOutput::SubmitLabel { account_id, label }) => {
            assert_eq!(account_id.bits, 1);
            assert_eq!(label, "carol");
        }
        _ => panic!("nothing was submitted"),
    }
}

#[test]
fn rename_submits_an_unchanged_label() {
    let mut state = open_rename();
    assert!(matches!(
        rename(&mut state, RenameDialogMsg::SubmitClicked),
        Some(RenameDialogOutput::SubmitLabel { ref label, .. }) if label == "alice"
    ));
}

#[test]
fn rename_refuses_an_empty_label() {
    let mut state = open_rename();
    rename(&mut state, RenameDialogMsg::DraftChanged("  ".to_string()));
    assert_eq!(state.inline_error().unwrap().rendered, "engine text");
    assert!(rename(&mut state, RenameDialogMsg::SubmitClicked).is_none());
    assert!(matches!(
        rename(&mut state, RenameDialogMsg::Cancel),
        Some(RenameDialogOutput::Cancel)
    ));
}

#[test]
fn rename_rollback_restores_the_label() {
    let mut state = open_rename();
    rename(&mut state, RenameDialogMsg::DraftChanged("carol".to_string()));
    let kept = rename_dialog::classify_rename_error(&error(ErrorKind::SaveDurabilityUnconfirmed));
    assert!(matches!(kept, RenameErrorOutcome::KeepNewWithWarning(_)));
    rename(&mut state, RenameDialogMsg::WorkerFailed(kept));
    assert_eq!(state.draft(), "carol");
    rename(&mut state, RenameDialogMsg::DraftChanged("  ".to_string()));
    assert!(state.worker_outcome().is_none());
    let rolled = rename_dialog::classify_rename_error(&error(ErrorKind::SaveNotCommitted));
    rename(&mut state, RenameDialogMsg::WorkerFailed(rolled));
    assert_eq!(state.draft(), "alice");
    assert!(state.inline_error().is_none());
    assert!(matches!(state.worker_outcome(), Some(RenameErrorOutcome::RestorePrior(_))));
    assert!(matches!(
        rename_dialog::classify_rename_error(&error(ErrorKind::InvalidState)),
        RenameErrorOutcome::InlineError(_)
    ));
    assert_eq!(rename_dialog::format_rename_dialog_subtitle("x"), "Renaming x.");
    assert_eq!(
        rename_dialog::format_rename_dialog_marker("7", "x"),
        "paladin-gtk: rename_dialog_account=7 label=x"
    );
}

#[test]
fn rename_worker_returns_the_vault() {
    let input = rename_dialog::RenameWorkerInput {
        vault: vec![1],
        store: "store",
        account_id: AccountId { bits: 1 },
        label: "carol".to_string(),
        now: 5,
    };
    let done = rename_dialog::run_rename_worker(input, |mut vault, store, id, label, now| {
        assert_eq!((*store, id.bits, label.as_str(), now), ("store", 1, "carol", 5));
        vault.push(2);
        (vault, Err(error(ErrorKind::SaveNotCommitted)))
    });
    assert_eq!(done.vault, vec![1, 2]);
    assert_eq!(done.store, "store");
    assert!(matches!(
        done.effect,
        rename_dialog::RenameWorkerEffect::Failure(RenameErrorOutcome::RestorePrior(_))
    ));
    assert!(matches!(
        rename_dialog::rename_worker_effect(&Ok(())),
        rename_dialog::RenameWorkerEffect::Success
    ));
}

#[test]
fn remove_needs_a_confirmation() {
    let init = remove_dialog::decide_remove_target(&summaries(), AccountId { bits: 2 }).unwrap();
    let mut state = RemoveDialogState::new(&init);
    assert_eq!(state.display_label(), "bob");
    assert!(matches!(
        remove_dialog::apply_msg(&mut state, RemoveDialogMsg::Cancel),
        Some(RemoveDialogOutput::Cancel)
    ));
    assert!(matches!(
        remove_dialog::apply_msg(&mut state, RemoveDialogMsg::Confirm),
        Some(RemoveDialogOutput::SubmitConfirm { account_id: AccountId { bits: 2 } })
    ));
    assert!(remove_dialog::decide_remove_target(&summaries(), AccountId { bits: 3 }).is_none());
}

#[test]
fn remove_shows_what_failed() {
    let init = remove_dialog::decide_remove_target(&summaries(), AccountId { bits: 2 }).unwrap();
    let mut state = RemoveDialogState::new(&init);
    for (kind, is_error) in [
        (ErrorKind::SaveNotCommitted, true),
        (ErrorKind::SaveDurabilityUnconfirmed, false),
        (ErrorKind::IoError, true),
    ] {
        let outcome = remove_dialog::classify_remove_error(&error(kind));
        assert!(remove_dialog::apply_msg(&mut state, RemoveDialogMsg::WorkerFailed(outcome)).is_none());
        assert_eq!(state.inline_error().is_some(), is_error);
        assert_eq!(state.inline_warning().is_some(), !is_error);
    }
    remove_dialog::apply_msg(&mut state, RemoveDialogMsg::Confirm);
    assert!(state.worker_outcome().is_none());
}

#[test]
fn remove_worker_returns_the_vault() {
    let input = remove_dialog::RemoveWorkerInput {
        vault: "vault",
        store: 3,
        account_id: AccountId { bits: 2 },
    };
    let done = remove_dialog::run_remove_worker(input, |vault, _, id| {
        assert_eq!(id.bits, 2);
        (vault, Ok(()))
    });
    assert_eq!((done.vault, done.store), ("vault", 3));
    assert!(matches!(done.effect, remove_dialog::RemoveWorkerEffect::Success));
    assert!(remove_dialog::removal_result(&Some(1)).is_ok());
    let missing = remove_dialog::removal_result::<u8>(&None).unwrap_err();
    assert_eq!((missing.operation, missing.state), ("remove", "account_not_found"));
    assert_eq!(remove_dialog::format_remove_dialog_subtitle("x"), "Removing x.");
    assert_eq!(
        remove_dialog::format_remove_dialog_marker("7", "x"),
        "paladin-gtk: remove_dialog_account=7 label=x"
    );
}
