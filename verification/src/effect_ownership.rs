//! Ownership of the vault while a blocking effect runs.
//!
//! At most one worker touches the vault at a time. While it does, every
//! mutating control is off, and quit requests and auto-lock expiries wait for
//! its return.

use crate::settings::SettingsField;
use vstd::prelude::*;

verus! {

/// The vault-touching effect in flight.
#[derive(Clone, Copy, Debug, PartialEq, Eq, Structural)]
pub enum EffectKind {
    /// Advance of a counter.
    HotpAdvance,
    /// Addition of an account.
    AddAccount,
    /// Removal of an account.
    RemoveAccount,
    /// Renaming of an account.
    RenameAccount,
    /// Import.
    Import,
    /// Export.
    Export,
    /// Change of a setting.
    Settings,
    /// Encryption of a plaintext vault.
    PassphraseSet,
    /// Re-encryption under a new passphrase.
    PassphraseChange,
    /// Removal of the encryption.
    PassphraseRemove,
}

/// Short user-facing name of an effect.
pub open spec fn effect_name(kind: EffectKind) -> Seq<char> {
    match kind {
        EffectKind::HotpAdvance => "HOTP advance"@,
        EffectKind::AddAccount => "add account"@,
        EffectKind::RemoveAccount => "remove account"@,
        EffectKind::RenameAccount => "rename account"@,
        EffectKind::Import => "import"@,
        EffectKind::Export => "export"@,
        EffectKind::Settings => "settings save"@,
        EffectKind::PassphraseSet => "passphrase set"@,
        EffectKind::PassphraseChange => "passphrase change"@,
        EffectKind::PassphraseRemove => "passphrase remove"@,
    }
}

impl EffectKind {
    /// Short user-facing name of the effect.
    pub fn user_name(&self) -> (r: &'static str)
        ensures
            r@ == effect_name(*self),
    {
        match self {
            EffectKind::HotpAdvance => "HOTP advance",
            EffectKind::AddAccount => "add account",
            EffectKind::RemoveAccount => "remove account",
            EffectKind::RenameAccount => "rename account",
            EffectKind::Import => "import",
            EffectKind::Export => "export",
            EffectKind::Settings => "settings save",
            EffectKind::PassphraseSet => "passphrase set",
            EffectKind::PassphraseChange => "passphrase change",
            EffectKind::PassphraseRemove => "passphrase remove",
        }
    }
}

/// State of the unlocked application.
#[derive(Clone, Copy, Debug, PartialEq, Eq, Structural)]
pub enum AppState {
    /// The vault is at hand; controls are on.
    Unlocked,
    /// A worker holds the vault; controls are off.
    UnlockedBusy(EffectKind),
    /// A worker lost the vault.
    StartupError,
}

/// Which mutating surfaces are disabled: `true` means greyed out.
#[derive(Clone, Copy, Debug, PartialEq, Eq, Structural)]
pub struct ControlGating {
    /// "Next" buttons of the rows.
    pub row_next: bool,
    /// Submit buttons of the dialogs.
    pub dialog_submit: bool,
    /// Passphrase actions.
    pub passphrase_actions: bool,
    /// Import and export entries.
    pub import_export: bool,
    /// Settings controls.
    pub settings: bool,
}

impl ControlGating {
    /// Whether every surface is enabled.
    pub open spec fn nothing_disabled(self) -> bool {
        !self.row_next && !self.dialog_submit && !self.passphrase_actions && !self.import_export
            && !self.settings
    }

    /// Whether every surface is disabled.
    pub open spec fn everything_disabled(self) -> bool {
        self.row_next && self.dialog_submit && self.passphrase_actions && self.import_export
            && self.settings
    }

    /// Every surface enabled.
    pub fn all_enabled() -> (r: Self)
        ensures
            r.nothing_disabled(),
    {
        ControlGating {
            row_next: false,
            dialog_submit: false,
            passphrase_actions: false,
            import_export: false,
            settings: false,
        }
    }

    /// Every surface disabled.
    pub fn all_disabled_for_busy() -> (r: Self)
        ensures
            r.everything_disabled(),
    {
        ControlGating {
            row_next: true,
            dialog_submit: true,
            passphrase_actions: true,
            import_export: true,
            settings: true,
        }
    }

    /// Whether the control of a setting is disabled. One flag covers all of
    /// them.
    pub fn settings_field_disabled(&self, _field: SettingsField) -> (r: bool)
        ensures
            r == self.settings,
    {
        self.settings
    }
}

/// Answer to an attempt to start an effect.
#[derive(Clone, Copy, Debug, PartialEq, Eq, Structural)]
pub enum EffectStart {
    /// The worker may take the vault.
    Accepted,
    /// No worker may be started.
    Rejected,
}

/// What to do once a worker has returned the vault.
#[derive(Clone, Copy, Debug, PartialEq, Eq, Structural)]
pub enum CompleteOutcome {
    /// Nothing was deferred.
    Ready,
    /// A deferred lock fires.
    LockNow,
    /// A deferred lock is dropped: the vault is plaintext now.
    LockDiscarded,
    /// A deferred quit fires.
    QuitNow,
}

/// Answer to a quit request.
#[derive(Clone, Copy, Debug, PartialEq, Eq, Structural)]
pub enum QuitDecision {
    /// Quit at once.
    Now,
    /// Quit once the worker returns.
    Deferred,
}

/// Answer to an auto-lock expiry.
#[derive(Clone, Copy, Debug, PartialEq, Eq, Structural)]
pub enum LockDecision {
    /// Lock at once: the vault is at hand and encrypted.
    Now,
    /// Decide once the worker returns.
    Deferred,
    /// Nothing to do: plaintext vaults do not lock, and a lost vault is out of
    /// reach.
    Ignored,
}

/// The machine in mathematical terms.
pub struct Ownership {
    /// Application state.
    pub state: AppState,
    /// Whether an auto-lock expiry waits.
    pub pending_lock: bool,
    /// Whether a quit request waits.
    pub pending_quit: bool,
}

impl Ownership {
    /// Requests wait only while a worker runs.
    pub open spec fn well_formed(self) -> bool {
        self.pending_lock || self.pending_quit ==> self.state is UnlockedBusy
    }

    /// After an attempt to start `effect`.
    pub open spec fn started(self, effect: EffectKind) -> (Self, EffectStart) {
        if self.state == AppState::Unlocked {
            (
                Ownership { state: AppState::UnlockedBusy(effect), ..self },
                EffectStart::Accepted,
            )
        } else {
            (self, EffectStart::Rejected)
        }
    }

    /// After the return of a worker.
    pub open spec fn completed(self, vault_still_encrypted: bool) -> (Self, CompleteOutcome) {
        let lost = self.state == AppState::StartupError;
        (
            Ownership {
                state: if lost {
                    AppState::StartupError
                } else {
                    AppState::Unlocked
                },
                pending_lock: false,
                pending_quit: false,
            },
            if lost {
                CompleteOutcome::Ready
            } else if self.pending_quit {
                CompleteOutcome::QuitNow
            } else if self.pending_lock && vault_still_encrypted {
                CompleteOutcome::LockNow
            } else if self.pending_lock {
                CompleteOutcome::LockDiscarded
            } else {
                CompleteOutcome::Ready
            },
        )
    }

    /// After the loss of a worker.
    pub open spec fn lost(self) -> Self {
        Ownership { state: AppState::StartupError, pending_lock: false, pending_quit: false }
    }

    /// After a quit request.
    pub open spec fn quit_requested(self) -> (Self, QuitDecision) {
        if self.state is UnlockedBusy {
            (Ownership { pending_quit: true, ..self }, QuitDecision::Deferred)
        } else {
            (self, QuitDecision::Now)
        }
    }

    /// After an auto-lock expiry.
    pub open spec fn lock_expired(self, vault_is_encrypted: bool) -> (Self, LockDecision) {
        if self.state is UnlockedBusy {
            (Ownership { pending_lock: true, ..self }, LockDecision::Deferred)
        } else if self.state == AppState::Unlocked && vault_is_encrypted {
            (self, LockDecision::Now)
        } else {
            (self, LockDecision::Ignored)
        }
    }
}

/// The effect-ownership machine.
#[derive(Debug)]
pub struct EffectOwnership {
    state: AppState,
    pending_lock: bool,
    pending_quit: bool,
}

impl View for EffectOwnership {
    type V = Ownership;

    closed spec fn view(&self) -> Ownership {
        Ownership {
            state: self.state,
            pending_lock: self.pending_lock,
            pending_quit: self.pending_quit,
        }
    }
}

impl Clone for EffectOwnership {
    fn clone(&self) -> (r: Self)
        ensures
            r@ == self@,
    {
        proof {
            use_type_invariant(self);
        }
        EffectOwnership {
            state: self.state,
            pending_lock: self.pending_lock,
            pending_quit: self.pending_quit,
        }
    }
}

impl EffectOwnership {
    #[verifier::type_invariant]
    spec fn holds_invariant(self) -> bool {
        self@.well_formed()
    }

    /// A fresh machine: the vault is at hand, nothing waits.
    pub fn unlocked() -> (r: Self)
        ensures
            r@ == (Ownership {
                state: AppState::Unlocked,
                pending_lock: false,
                pending_quit: false,
            }),
    {
        EffectOwnership { state: AppState::Unlocked, pending_lock: false, pending_quit: false }
    }

    /// Application state.
    pub fn state(&self) -> (r: AppState)
        ensures
            r == self@.state,
            self@.well_formed(),
    {
        proof {
            use_type_invariant(self);
        }
        self.state
    }

    /// Whether a worker runs.
    pub fn is_busy(&self) -> (r: bool)
        ensures
            r == (self@.state is UnlockedBusy),
    {
        match self.state {
            AppState::UnlockedBusy(_) => true,
            _ => false,
        }
    }

    /// The effect in flight.
    pub fn current_effect(&self) -> (r: Option<EffectKind>)
        ensures
            r == (match self@.state {
                AppState::UnlockedBusy(kind) => Some(kind),
                _ => None,
            }),
    {
        match self.state {
            AppState::UnlockedBusy(kind) => Some(kind),
            _ => None,
        }
    }

    /// Whether an auto-lock expiry waits.
    pub fn pending_lock(&self) -> (r: bool)
        ensures
            r == self@.pending_lock,
            r ==> self@.state is UnlockedBusy,
    {
        proof {
            use_type_invariant(self);
        }
        self.pending_lock
    }

    /// Whether a quit request waits.
    pub fn pending_quit(&self) -> (r: bool)
        ensures
            r == self@.pending_quit,
            r ==> self@.state is UnlockedBusy,
    {
        proof {
            use_type_invariant(self);
        }
        self.pending_quit
    }

    /// Which surfaces are disabled: none while the vault is at hand, all
    /// otherwise.
    pub fn control_gating(&self) -> (r: ControlGating)
        ensures
            self@.state == AppState::Unlocked ==> r.nothing_disabled(),
            self@.state != AppState::Unlocked ==> r.everything_disabled(),
    {
        match self.state {
            AppState::Unlocked => ControlGating::all_enabled(),
            AppState::UnlockedBusy(_) | AppState::StartupError => {
                ControlGating::all_disabled_for_busy()
            },
        }
    }

    /// Tries to start a worker.
    pub fn start_effect(&mut self, effect: EffectKind) -> (r: EffectStart)
        ensures
            (final(self)@, r) == old(self)@.started(effect),
    {
        proof {
            use_type_invariant(&*self);
        }
        if self.state == AppState::Unlocked {
            self.state = AppState::UnlockedBusy(effect);
            EffectStart::Accepted
        } else {
            EffectStart::Rejected
        }
    }

    /// Takes the vault back from a worker and resolves what waited. A return
    /// that comes after the loss of the vault changes nothing but the flags.
    pub fn complete_effect(&mut self, vault_still_encrypted: bool) -> (r: CompleteOutcome)
        ensures
            (final(self)@, r) == old(self)@.completed(vault_still_encrypted),
    {
        if self.state == AppState::StartupError {
            *self = EffectOwnership {
                state: AppState::StartupError,
                pending_lock: false,
                pending_quit: false,
            };
            return CompleteOutcome::Ready;
        }
        let quit = self.pending_quit;
        let lock = self.pending_lock;
        *self = EffectOwnership {
            state: AppState::Unlocked,
            pending_lock: false,
            pending_quit: false,
        };
        if quit {
            return CompleteOutcome::QuitNow;
        }
        if lock {
            return if vault_still_encrypted {
                CompleteOutcome::LockNow
            } else {
                CompleteOutcome::LockDiscarded
            };
        }
        CompleteOutcome::Ready
    }

    /// Notes that a worker failed to return the vault.
    pub fn worker_lost(&mut self)
        ensures
            final(self)@ == old(self)@.lost(),
    {
        *self = EffectOwnership {
            state: AppState::StartupError,
            pending_lock: false,
            pending_quit: false,
        };
    }

    /// Handles a quit or window-close request.
    pub fn request_quit(&mut self) -> (r: QuitDecision)
        ensures
            (final(self)@, r) == old(self)@.quit_requested(),
    {
        if self.is_busy() {
            self.pending_quit = true;
            QuitDecision::Deferred
        } else {
            QuitDecision::Now
        }
    }

    /// Handles an auto-lock expiry.
    pub fn auto_lock_expired(&mut self, vault_is_encrypted: bool) -> (r: LockDecision)
        ensures
            (final(self)@, r) == old(self)@.lock_expired(vault_is_encrypted),
    {
        if self.is_busy() {
            self.pending_lock = true;
            LockDecision::Deferred
        } else if self.state == AppState::Unlocked && vault_is_encrypted {
            LockDecision::Now
        } else {
            LockDecision::Ignored
        }
    }
}

/// Requests wait only while a worker runs: every transition keeps it so.
pub proof fn requests_wait_only_while_busy(
    m: Ownership,
    effect: EffectKind,
    encrypted: bool,
)
    requires
        m.well_formed(),
    ensures
        m.started(effect).0.well_formed(),
        m.completed(encrypted).0.well_formed(),
        m.lost().well_formed(),
        m.quit_requested().0.well_formed(),
        m.lock_expired(encrypted).0.well_formed(),
{
}

/// While a worker runs no second one starts, and the machine stays as it is.
pub proof fn one_worker_at_a_time(m: Ownership, first: EffectKind, second: EffectKind)
    ensures
        m.started(first).0.started(second) == (m.started(first).0, EffectStart::Rejected),
{
}

/// A quit requested while a worker runs fires when it returns, whatever the
/// lock state, and fires once.
pub proof fn deferred_quit_fires_once(m: Ownership, encrypted: bool, later: bool)
    requires
        m.state is UnlockedBusy,
    ensures
        m.quit_requested().1 == QuitDecision::Deferred,
        m.quit_requested().0.completed(encrypted).1 == CompleteOutcome::QuitNow,
        m.quit_requested().0.completed(encrypted).0.completed(later).1 == CompleteOutcome::Ready,
{
}

/// An expiry that comes while a worker runs locks the vault on return if and
/// only if the vault is encrypted then; a waiting quit comes first.
pub proof fn deferred_lock_follows_the_vault(m: Ownership, before: bool, after: bool)
    requires
        m.state is UnlockedBusy,
    ensures
        m.lock_expired(before).1 == LockDecision::Deferred,
        !m.pending_quit ==> (m.lock_expired(before).0.completed(after).1
            == CompleteOutcome::LockNow <==> after),
        !m.pending_quit ==> (m.lock_expired(before).0.completed(after).1
            == CompleteOutcome::LockDiscarded <==> !after),
        m.pending_quit ==> m.lock_expired(before).0.completed(after).1 == CompleteOutcome::QuitNow,
{
}

/// A plaintext vault never locks.
pub proof fn plaintext_never_locks(m: Ownership)
    ensures
        m.lock_expired(false).1 != LockDecision::Now,
        m.completed(false).1 != CompleteOutcome::LockNow,
{
}

/// An expiry locks at once if and only if the vault is at hand and encrypted.
pub proof fn only_a_vault_at_hand_locks(m: Ownership, encrypted: bool)
    ensures
        m.lock_expired(encrypted).1 == LockDecision::Now <==> m.state == AppState::Unlocked
            && encrypted,
{
}

/// Once the vault is lost, nothing brings it back, nothing is deferred and
/// nothing locks.
pub proof fn lost_vault_stays_lost(m: Ownership, effect: EffectKind, encrypted: bool)
    requires
        m.state == AppState::StartupError,
        m.well_formed(),
    ensures
        m.started(effect) == (m, EffectStart::Rejected),
        m.completed(encrypted) == (m, CompleteOutcome::Ready),
        m.quit_requested() == (m, QuitDecision::Now),
        m.lock_expired(encrypted) == (m, LockDecision::Ignored),
        m.lost() == m,
{
}

/// A start and its return leave an idle machine as it was.
pub proof fn effect_round_trip(m: Ownership, effect: EffectKind, encrypted: bool)
    requires
        m.state == AppState::Unlocked,
        m.well_formed(),
    ensures
        m.started(effect).1 == EffectStart::Accepted,
        m.started(effect).0.completed(encrypted) == (m, CompleteOutcome::Ready),
{
}

/// A worker starts exactly where the vault is at hand, and holds it for the effect
/// that was asked for.
pub proof fn idle_machine_starts_what_is_asked(m: Ownership, effect: EffectKind)
    ensures
        m.started(effect).1 == EffectStart::Accepted <==> m.state == AppState::Unlocked,
        m.state == AppState::Unlocked ==> m.started(effect).0.state == AppState::UnlockedBusy(
            effect,
        ),
        m.started(effect).0.pending_lock == m.pending_lock,
        m.started(effect).0.pending_quit == m.pending_quit,
        m.state != AppState::Unlocked ==> m.started(effect).0 == m,
{
}

/// A worker that returns puts the vault back, whatever waited, and nothing waits
/// any longer; where nothing had waited, nothing fires. One that is lost takes the
/// vault with it.
pub proof fn return_puts_the_vault_back(m: Ownership, encrypted: bool)
    ensures
        ({
            let (next, outcome) = m.completed(encrypted);
            &&& !next.pending_lock && !next.pending_quit
            &&& m.state != AppState::StartupError ==> next.state == AppState::Unlocked
            &&& m.state == AppState::StartupError ==> next.state == AppState::StartupError
                && outcome == CompleteOutcome::Ready
            &&& m.state is UnlockedBusy ==> (outcome == CompleteOutcome::QuitNow
                <==> m.pending_quit)
            &&& !m.pending_quit && !m.pending_lock ==> outcome == CompleteOutcome::Ready
            &&& m.state is UnlockedBusy && m.pending_lock && !m.pending_quit ==> outcome == (
            if encrypted {
                CompleteOutcome::LockNow
            } else {
                CompleteOutcome::LockDiscarded
            })
        }),
        m.lost().state == AppState::StartupError,
        !m.lost().pending_lock && !m.lost().pending_quit,
{
}

/// A quit request and an expiry wait while a worker runs, without touching each
/// other or the worker; otherwise they are answered at once and leave the machine
/// as it is.
pub proof fn requests_wait_for_the_worker(m: Ownership, encrypted: bool)
    ensures
        ({
            let (next, answer) = m.quit_requested();
            &&& answer == QuitDecision::Deferred <==> m.state is UnlockedBusy
            &&& next.state == m.state && next.pending_lock == m.pending_lock
            &&& next.pending_quit == (m.pending_quit || m.state is UnlockedBusy)
        }),
        ({
            let (next, answer) = m.lock_expired(encrypted);
            &&& answer == LockDecision::Deferred <==> m.state is UnlockedBusy
            &&& next.state == m.state && next.pending_quit == m.pending_quit
            &&& next.pending_lock == (m.pending_lock || m.state is UnlockedBusy)
        }),
{
}

/// Controls are all off or all on where the words say so, and a machine is sound
/// where nothing waits for a worker that does not run.
pub proof fn gating_covers_every_surface(gating: ControlGating, m: Ownership)
    ensures
        gating.everything_disabled() <==> gating == (ControlGating {
            row_next: true,
            dialog_submit: true,
            passphrase_actions: true,
            import_export: true,
            settings: true,
        }),
        gating.nothing_disabled() <==> gating == (ControlGating {
            row_next: false,
            dialog_submit: false,
            passphrase_actions: false,
            import_export: false,
            settings: false,
        }),
        m.well_formed() <==> m.state is UnlockedBusy || (!m.pending_lock && !m.pending_quit),
{
}

/// Every effect has its own name.
pub proof fn effects_are_named()
    ensures
        effect_name(EffectKind::HotpAdvance) == "HOTP advance"@,
        effect_name(EffectKind::AddAccount) == "add account"@,
        effect_name(EffectKind::RemoveAccount) == "remove account"@,
        effect_name(EffectKind::RenameAccount) == "rename account"@,
        effect_name(EffectKind::Import) == "import"@,
        effect_name(EffectKind::Export) == "export"@,
        effect_name(EffectKind::Settings) == "settings save"@,
        effect_name(EffectKind::PassphraseSet) == "passphrase set"@,
        effect_name(EffectKind::PassphraseChange) == "passphrase change"@,
        effect_name(EffectKind::PassphraseRemove) == "passphrase remove"@,
{
}

} // verus!
