use paladin_gtk::effect_ownership::AppState;
use paladin_gtk::effect_ownership::CompleteOutcome;
use paladin_gtk::effect_ownership::ControlGating;
use paladin_gtk::effect_ownership::EffectKind;
use paladin_gtk::effect_ownership::EffectOwnership;
use paladin_gtk::effect_ownership::EffectStart;
use paladin_gtk::effect_ownership::LockDecision;
use paladin_gtk::effect_ownership::QuitDecision;
use paladin_gtk::settings::SettingsField;

#[test]
fn one_worker_holds_the_vault() {
    let mut machine = EffectOwnership::unlocked();
    assert_eq!(machine.start_effect(EffectKind::Import), EffectStart::Accepted);
    assert_eq!(machine.state(), AppState::UnlockedBusy(EffectKind::Import));
    assert_eq!(machine.start_effect(EffectKind::Export), EffectStart::Rejected);
    assert_eq!(machine.current_effect(), Some(EffectKind::Import));
    assert_eq!(machine.control_gating(), ControlGating::all_disabled_for_busy());
    assert_eq!(machine.complete_effect(true), CompleteOutcome::Ready);
    assert_eq!(machine.state(), AppState::Unlocked);
    assert_eq!(machine.control_gating(), ControlGating::all_enabled());
}

#[test]
fn quit_waits_for_the_worker() {
    let mut machine = EffectOwnership::unlocked();
    assert_eq!(machine.request_quit(), QuitDecision::Now);
    machine.start_effect(EffectKind::Settings);
    assert_eq!(machine.request_quit(), QuitDecision::Deferred);
    assert!(machine.pending_quit());
    assert_eq!(machine.auto_lock_expired(true), LockDecision::Deferred);
    assert_eq!(machine.complete_effect(true), CompleteOutcome::QuitNow);
    assert!(!machine.pending_quit());
    assert!(!machine.pending_lock());
}

#[test]
fn deferred_lock_looks_at_the_vault_again() {
    let mut machine = EffectOwnership::unlocked();
    machine.start_effect(EffectKind::PassphraseRemove);
    assert_eq!(machine.auto_lock_expired(true), LockDecision::Deferred);
    assert_eq!(machine.complete_effect(false), CompleteOutcome::LockDiscarded);
    machine.start_effect(EffectKind::RenameAccount);
    machine.auto_lock_expired(true);
    assert_eq!(machine.complete_effect(true), CompleteOutcome::LockNow);
}

#[test]
fn plaintext_vault_never_locks() {
    let mut machine = EffectOwnership::unlocked();
    assert_eq!(machine.auto_lock_expired(false), LockDecision::Ignored);
    assert_eq!(machine.auto_lock_expired(true), LockDecision::Now);
    machine.worker_lost();
    assert_eq!(machine.auto_lock_expired(true), LockDecision::Ignored);
    assert_eq!(machine.auto_lock_expired(false), LockDecision::Ignored);
    assert_eq!(machine.state(), AppState::StartupError);
    assert!(!machine.pending_lock());
}

#[test]
fn lost_worker_ends_in_an_error() {
    let mut machine = EffectOwnership::unlocked();
    machine.start_effect(EffectKind::HotpAdvance);
    machine.request_quit();
    machine.worker_lost();
    assert_eq!(machine.state(), AppState::StartupError);
    assert!(!machine.pending_quit());
    assert_eq!(machine.start_effect(EffectKind::Import), EffectStart::Rejected);
    assert_eq!(machine.complete_effect(true), CompleteOutcome::Ready);
    assert_eq!(machine.state(), AppState::StartupError);
}

#[test]
fn effects_have_names() {
    assert_eq!(EffectKind::HotpAdvance.user_name(), "HOTP advance");
    assert_eq!(EffectKind::Settings.user_name(), "settings save");
    assert!(ControlGating::all_disabled_for_busy()
        .settings_field_disabled(SettingsField::AutoLockSeconds));
}
