//! The edit dialog: label, issuer and icon of an account. What the rows show
//! is what is saved: one projection of the rows drives both the sensitivity
//! of the save button and the submitted changes.

pub use crate::inline::InlineError;
pub use crate::inline::InlineWarning;

use crate::account::copy_optional;
use crate::account::find_summary;
use crate::account::summary_position;
use crate::account::AccountId;
use crate::account::AccountSummary;
use crate::account_row::display_label;
use crate::account_row::labelled;
use crate::account_row::summary_display_label;
use crate::inline::inline_error;
use crate::inline::inline_warning;
use crate::inline::optional_error;
use crate::inline::InlineErrorView;
use crate::text::byte_len;
use crate::text::eq_ignore_ascii_case;
use crate::text::equal_ignoring_ascii_case;
use crate::text::joined3;
use crate::text::optional_text;
use crate::text::same_text;
use crate::text::trim;
use crate::text::trimmed;
use crate::text::white_space_trims_to_nothing;
use crate::vault::AccountEdit;
use crate::vault::AccountEditView;
use crate::vault::ErrorKind;
use crate::vault::IconHintInput;
use crate::vault::IconHintView;
use crate::vault::PaladinError;
use vstd::prelude::*;
use vstd::string::StringExecFns;

verus! {

/// Largest number of bytes of an issuer.
pub const ISSUER_MAX_BYTES: usize = 128;

/// The account as it was when the dialog opened.
#[derive(Debug, PartialEq, Eq)]
pub struct EditPriorSnapshot {
    /// Stable identity.
    pub account_id: AccountId,
    /// Label as stored.
    pub label: String,
    /// Issuer as stored.
    pub issuer: Option<String>,
    /// Icon slug as stored.
    pub icon_hint: Option<String>,
    /// `<issuer>:<label>` text.
    pub display_label: String,
}

/// The account as it was, in mathematical terms.
pub struct PriorView {
    /// Stable identity.
    pub account_id: AccountId,
    /// Label.
    pub label: Seq<char>,
    /// Issuer.
    pub issuer: Option<Seq<char>>,
    /// Icon slug.
    pub icon_hint: Option<Seq<char>>,
    /// `<issuer>:<label>` text.
    pub display: Seq<char>,
}

impl View for EditPriorSnapshot {
    type V = PriorView;

    open spec fn view(&self) -> PriorView {
        PriorView {
            account_id: self.account_id,
            label: self.label@,
            issuer: optional_text(self.issuer),
            icon_hint: optional_text(self.icon_hint),
            display: self.display_label@,
        }
    }
}

impl Clone for EditPriorSnapshot {
    fn clone(&self) -> (r: Self)
        ensures
            r == *self,
    {
        EditPriorSnapshot {
            account_id: self.account_id,
            label: self.label.clone(),
            issuer: copy_optional(&self.issuer),
            icon_hint: copy_optional(&self.icon_hint),
            display_label: self.display_label.clone(),
        }
    }
}

/// The snapshot of a summary.
pub open spec fn prior_of(summary: AccountSummary) -> PriorView {
    PriorView {
        account_id: summary.id,
        label: summary.label@,
        issuer: optional_text(summary.issuer),
        icon_hint: optional_text(summary.icon_hint),
        display: labelled(optional_text(summary.issuer), summary.label@),
    }
}

impl EditPriorSnapshot {
    /// The snapshot of a summary.
    pub fn from_summary(summary: &AccountSummary) -> (r: Self)
        ensures
            r@ == prior_of(*summary),
    {
        EditPriorSnapshot {
            account_id: summary.id,
            label: summary.label.clone(),
            issuer: copy_optional(&summary.issuer),
            icon_hint: copy_optional(&summary.icon_hint),
            display_label: summary_display_label(summary),
        }
    }
}

/// What the dialog is opened with.
#[derive(Clone, Debug, PartialEq, Eq)]
pub struct EditDialogInit {
    /// The account as it is.
    pub prior: EditPriorSnapshot,
}

/// What to open the dialog with for an account; nothing where the account is
/// gone.
pub fn decide_edit_target(summaries: &[AccountSummary], id: AccountId) -> (r: Option<EditDialogInit>)
    ensures
        match summary_position(summaries@, id) {
            Some(k) => r is Some && r->0.prior@ == prior_of(summaries@[k]) && r->0.prior.account_id
                == id,
            None => r is None,
        },
{
    match find_summary(summaries, id) {
        Some(summary) => Some(EditDialogInit { prior: EditPriorSnapshot::from_summary(summary) }),
        None => None,
    }
}

/// What the engine says of the rows: of the label and of the icon hint as
/// they stand, and of the changes that the rows amount to.
#[derive(Debug)]
pub struct EngineAnswers {
    /// The label in stored form, or why it is refused.
    pub label: Result<String, PaladinError>,
    /// The icon hint, or why it is refused.
    pub icon_hint: Result<IconHintInput, PaladinError>,
    /// Whether the changes as a whole are accepted.
    pub edit: Result<(), PaladinError>,
}

/// An account that the edited one would collide with.
#[derive(Clone, Debug, PartialEq, Eq)]
pub struct DuplicateMarker {
    /// Its identity.
    pub other_id: AccountId,
    /// Its `<issuer>:<label>` text.
    pub display_label: String,
}

/// The marker of an account.
pub fn duplicate_marker_from_account(other: &AccountSummary) -> (r: DuplicateMarker)
    ensures
        r.other_id == other.id,
        r.display_label@ == labelled(optional_text(other.issuer), other.label@),
{
    DuplicateMarker {
        other_id: other.id,
        display_label: display_label(&other.issuer, &other.label),
    }
}

/// What a save means for the dialog.
#[derive(Clone, Debug, PartialEq, Eq)]
pub enum PostEffectOutcome {
    /// The change is saved.
    Close {
        /// The account afterwards; nothing where it is gone.
        post_summary: Option<AccountSummary>,
    },
    /// The change is saved, but its durability is not certain.
    StayOpenWithWarning(InlineWarning),
    /// The change is not saved.
    StayOpenWithError(InlineError),
}

/// What a failed save means for the dialog.
pub open spec fn post_effect(err: PaladinError) -> PostEffectOutcome {
    if err.kind == ErrorKind::SaveDurabilityUnconfirmed {
        PostEffectOutcome::StayOpenWithWarning(inline_warning(err))
    } else {
        PostEffectOutcome::StayOpenWithError(inline_error(err))
    }
}

/// Decides what a failed save means for the dialog.
pub fn classify_post_effect_error(err: &PaladinError) -> (r: PostEffectOutcome)
    ensures
        r == post_effect(*err),
{
    match err.kind() {
        ErrorKind::SaveDurabilityUnconfirmed => {
            PostEffectOutcome::StayOpenWithWarning(InlineWarning::from_error(err))
        },
        _ => PostEffectOutcome::StayOpenWithError(InlineError::from_error(err)),
    }
}

/// State of the dialog in mathematical terms.
pub struct EditView {
    /// The account as it was.
    pub prior: PriorView,
    /// Text of the label row.
    pub label: Seq<char>,
    /// Text of the issuer row.
    pub issuer: Seq<char>,
    /// Text of the icon row.
    pub icon_hint: Seq<char>,
    /// Error of the label row.
    pub label_error: Option<InlineErrorView>,
    /// Error of the issuer row.
    pub issuer_error: Option<InlineErrorView>,
    /// Error of the icon row.
    pub icon_hint_error: Option<InlineErrorView>,
    /// Collision found before the last attempt.
    pub duplicate: Option<DuplicateMarker>,
    /// Result of the last attempt.
    pub outcome: Option<PostEffectOutcome>,
    /// Whether a worker runs.
    pub busy: bool,
}

/// The rows as changes, with the error of each row, in mathematical terms.
pub struct ProjectionView {
    /// The changes.
    pub edit: AccountEditView,
    /// Error of the label row.
    pub label_error: Option<InlineErrorView>,
    /// Error of the issuer row.
    pub issuer_error: Option<InlineErrorView>,
    /// Error of the icon row.
    pub icon_hint_error: Option<InlineErrorView>,
}

/// The text of an optional value, empty where there is none.
pub open spec fn or_empty(t: Option<Seq<char>>) -> Seq<char> {
    match t {
        Some(s) => s,
        None => Seq::empty(),
    }
}

/// A validation error with the given text.
pub open spec fn validation(text: Seq<char>) -> Option<InlineErrorView> {
    Some(InlineErrorView { kind: ErrorKind::ValidationError, rendered: text })
}

/// The label row as a change: none where only surrounding white space
/// differs; the stored form where the engine accepts the label; the raw text
/// and the error where it does not.
pub open spec fn label_change(
    prior: Seq<char>,
    row: Seq<char>,
    answer: Result<String, PaladinError>,
) -> (Option<Seq<char>>, Option<InlineErrorView>) {
    if trimmed(row) == trimmed(prior) {
        (None, None)
    } else {
        match answer {
            Ok(label) => (Some(label@), None),
            Err(err) => (Some(row), Some(inline_error(err)@)),
        }
    }
}

/// The issuer row as a change: an empty row clears an issuer; a row that
/// trims to the issuer changes nothing; otherwise the trimmed text, which may
/// be neither empty nor longer than the limit.
pub open spec fn issuer_change(prior: Option<Seq<char>>, row: Seq<char>) -> (
    Option<Option<Seq<char>>>,
    Option<InlineErrorView>,
) {
    if row.len() == 0 {
        (
            if prior is Some {
                Some(None)
            } else {
                None
            },
            None,
        )
    } else if trimmed(row) == or_empty(prior) {
        (None, None)
    } else if trimmed(row).len() == 0 {
        (Some(Some(row)), validation("validation_error: issuer must not be empty"@))
    } else if byte_len(trimmed(row)) > ISSUER_MAX_BYTES {
        (Some(Some(row)), validation("validation_error: issuer exceeds 128 bytes"@))
    } else {
        (Some(Some(trimmed(row))), None)
    }
}

/// The icon row as a change: none where the text is as it was; an empty row
/// derives the icon from the issuer; the word `none` clears it; anything else
/// is a slug, if the engine accepts it.
pub open spec fn icon_change(
    prior: Option<Seq<char>>,
    row: Seq<char>,
    answer: Result<IconHintInput, PaladinError>,
) -> (Option<IconHintView>, Option<InlineErrorView>) {
    if row == or_empty(prior) {
        (None, None)
    } else if row.len() == 0 {
        (Some(IconHintView::Default), None)
    } else if equal_ignoring_ascii_case(row, "none"@) {
        (Some(IconHintView::Clear), None)
    } else {
        match answer {
            Ok(input) => (Some(input@), None),
            Err(err) => (Some(IconHintView::Slug(row)), Some(inline_error(err)@)),
        }
    }
}

/// Whether changes change nothing.
pub open spec fn edit_is_empty(edit: AccountEditView) -> bool {
    edit.label is None && edit.issuer is None && edit.icon_hint is None
}

impl ProjectionView {
    /// The first error of the rows.
    pub open spec fn first_error(self) -> Option<InlineErrorView> {
        if self.label_error is Some {
            self.label_error
        } else if self.issuer_error is Some {
            self.issuer_error
        } else {
            self.icon_hint_error
        }
    }

    /// Whether the rows can be saved: something changed, and no row has an
    /// error.
    pub open spec fn savable(self) -> bool {
        self.first_error() is None && !edit_is_empty(self.edit)
    }
}

impl EditView {
    /// A dialog that was just opened.
    pub open spec fn opened(prior: PriorView) -> Self {
        EditView {
            prior,
            label: prior.label,
            issuer: or_empty(prior.issuer),
            icon_hint: or_empty(prior.icon_hint),
            label_error: None,
            issuer_error: None,
            icon_hint_error: None,
            duplicate: None,
            outcome: None,
            busy: false,
        }
    }

    /// The rows as changes.
    pub open spec fn projection(self, answers: EngineAnswers) -> ProjectionView {
        let label = label_change(self.prior.label, self.label, answers.label);
        let issuer = issuer_change(self.prior.issuer, self.issuer);
        let icon = icon_change(self.prior.icon_hint, self.icon_hint, answers.icon_hint);
        ProjectionView {
            edit: AccountEditView { label: label.0, issuer: issuer.0, icon_hint: icon.0 },
            label_error: label.1,
            issuer_error: issuer.1,
            icon_hint_error: icon.1,
        }
    }

    /// With the errors of the rows as they stand.
    pub open spec fn refreshed(self, answers: EngineAnswers) -> Self {
        let projection = self.projection(answers);
        EditView {
            label_error: projection.label_error,
            issuer_error: projection.issuer_error,
            icon_hint_error: projection.icon_hint_error,
            ..self
        }
    }

    /// Without texts, errors, collision and result. The account's texts go
    /// too; its identity stays.
    pub open spec fn cleared(self) -> Self {
        EditView {
            prior: PriorView {
                account_id: self.prior.account_id,
                label: Seq::empty(),
                issuer: None,
                icon_hint: None,
                display: Seq::empty(),
            },
            label: Seq::empty(),
            issuer: Seq::empty(),
            icon_hint: Seq::empty(),
            label_error: None,
            issuer_error: None,
            icon_hint_error: None,
            duplicate: None,
            outcome: None,
            busy: self.busy,
        }
    }
}

/// State of the dialog.
#[derive(Clone, Debug, PartialEq, Eq)]
pub struct EditDialogState {
    prior: EditPriorSnapshot,
    label_buf: String,
    issuer_buf: String,
    icon_hint_buf: String,
    label_error: Option<InlineError>,
    issuer_error: Option<InlineError>,
    icon_hint_error: Option<InlineError>,
    duplicate: Option<DuplicateMarker>,
    worker_outcome: Option<PostEffectOutcome>,
    busy: bool,
}

impl View for EditDialogState {
    type V = EditView;

    closed spec fn view(&self) -> EditView {
        EditView {
            prior: self.prior@,
            label: self.label_buf@,
            issuer: self.issuer_buf@,
            icon_hint: self.icon_hint_buf@,
            label_error: optional_error(self.label_error),
            issuer_error: optional_error(self.issuer_error),
            icon_hint_error: optional_error(self.icon_hint_error),
            duplicate: self.duplicate,
            outcome: self.worker_outcome,
            busy: self.busy,
        }
    }
}

/// The text of an optional value, empty where there is none.
fn text_or_empty(t: &Option<String>) -> (r: String)
    ensures
        r@ == or_empty(optional_text(*t)),
{
    match t {
        Some(s) => s.clone(),
        None => String::new(),
    }
}

impl EditDialogState {
    /// A dialog that was just opened: every row shows what is stored.
    pub fn new(init: &EditDialogInit) -> (r: Self)
        ensures
            r@ == EditView::opened(init.prior@),
    {
        EditDialogState {
            label_buf: init.prior.label.clone(),
            issuer_buf: text_or_empty(&init.prior.issuer),
            icon_hint_buf: text_or_empty(&init.prior.icon_hint),
            prior: init.prior.clone(),
            label_error: None,
            issuer_error: None,
            icon_hint_error: None,
            duplicate: None,
            worker_outcome: None,
            busy: false,
        }
    }

    /// The edited account.
    pub fn account_id(&self) -> (r: AccountId)
        ensures
            r == self@.prior.account_id,
    {
        self.prior.account_id
    }

    /// The account as it was.
    pub fn prior(&self) -> (r: &EditPriorSnapshot)
        ensures
            r@ == self@.prior,
    {
        &self.prior
    }

    /// Text of the label row.
    pub fn label_buf(&self) -> (r: &str)
        ensures
            r@ == self@.label,
    {
        self.label_buf.as_str()
    }

    /// Text of the issuer row.
    pub fn issuer_buf(&self) -> (r: &str)
        ensures
            r@ == self@.issuer,
    {
        self.issuer_buf.as_str()
    }

    /// Text of the icon row.
    pub fn icon_hint_buf(&self) -> (r: &str)
        ensures
            r@ == self@.icon_hint,
    {
        self.icon_hint_buf.as_str()
    }

    /// Error of the label row.
    pub fn label_error(&self) -> (r: Option<&InlineError>)
        ensures
            r is Some == self@.label_error is Some,
            r is Some ==> r->0@ == self@.label_error->0,
    {
        match &self.label_error {
            Some(err) => Some(err),
            None => None,
        }
    }

    /// Error of the issuer row.
    pub fn issuer_error(&self) -> (r: Option<&InlineError>)
        ensures
            r is Some == self@.issuer_error is Some,
            r is Some ==> r->0@ == self@.issuer_error->0,
    {
        match &self.issuer_error {
            Some(err) => Some(err),
            None => None,
        }
    }

    /// Error of the icon row.
    pub fn icon_hint_error(&self) -> (r: Option<&InlineError>)
        ensures
            r is Some == self@.icon_hint_error is Some,
            r is Some ==> r->0@ == self@.icon_hint_error->0,
    {
        match &self.icon_hint_error {
            Some(err) => Some(err),
            None => None,
        }
    }

    /// Collision found before the last attempt.
    pub fn duplicate(&self) -> (r: Option<&DuplicateMarker>)
        ensures
            r is Some == self@.duplicate is Some,
            r is Some ==> *r->0 == self@.duplicate->0,
    {
        match &self.duplicate {
            Some(marker) => Some(marker),
            None => None,
        }
    }

    /// Result of the last attempt.
    pub fn worker_outcome(&self) -> (r: Option<&PostEffectOutcome>)
        ensures
            r is Some == self@.outcome is Some,
            r is Some ==> *r->0 == self@.outcome->0,
    {
        match &self.worker_outcome {
            Some(outcome) => Some(outcome),
            None => None,
        }
    }

    /// Whether a worker runs.
    pub fn is_busy(&self) -> (r: bool)
        ensures
            r == self@.busy,
    {
        self.busy
    }

    /// Notes whether a worker runs.
    pub fn set_busy(&mut self, busy: bool)
        ensures
            final(self)@ == (EditView { busy, ..old(self)@ }),
    {
        self.busy = busy;
    }

    /// Replaces the label. The collision and the last result no longer apply.
    pub fn set_label_buf(&mut self, buf: String, answers: &EngineAnswers)
        ensures
            final(self)@ == (EditView {
                duplicate: None,
                outcome: None,
                ..EditView { label: buf@, ..old(self)@ }.refreshed(*answers)
            }),
    {
        self.label_buf = buf;
        self.refresh_inline_errors(answers);
        self.duplicate = None;
        self.worker_outcome = None;
    }

    /// Replaces the issuer. The collision and the last result no longer
    /// apply.
    pub fn set_issuer_buf(&mut self, buf: String, answers: &EngineAnswers)
        ensures
            final(self)@ == (EditView {
                duplicate: None,
                outcome: None,
                ..EditView { issuer: buf@, ..old(self)@ }.refreshed(*answers)
            }),
    {
        self.issuer_buf = buf;
        self.refresh_inline_errors(answers);
        self.duplicate = None;
        self.worker_outcome = None;
    }

    /// Replaces the icon hint. It plays no part in a collision, which stays.
    pub fn set_icon_hint_buf(&mut self, buf: String, answers: &EngineAnswers)
        ensures
            final(self)@ == (EditView {
                outcome: None,
                ..EditView { icon_hint: buf@, ..old(self)@ }.refreshed(*answers)
            }),
    {
        self.icon_hint_buf = buf;
        self.refresh_inline_errors(answers);
        self.worker_outcome = None;
    }

    /// Drops texts, errors, collision and result.
    pub fn clear(&mut self)
        ensures
            final(self)@ == old(self)@.cleared(),
    {
        self.prior = EditPriorSnapshot {
            account_id: self.prior.account_id,
            label: String::new(),
            issuer: None,
            icon_hint: None,
            display_label: String::new(),
        };
        self.label_buf = String::new();
        self.issuer_buf = String::new();
        self.icon_hint_buf = String::new();
        self.label_error = None;
        self.issuer_error = None;
        self.icon_hint_error = None;
        self.duplicate = None;
        self.worker_outcome = None;
    }

    fn refresh_inline_errors(&mut self, answers: &EngineAnswers)
        ensures
            final(self)@ == old(self)@.refreshed(*answers),
    {
        let projection = classify_edit_draft(self, answers);
        self.label_error = projection.label_error;
        self.issuer_error = projection.issuer_error;
        self.icon_hint_error = projection.icon_hint_error;
    }
}

/// The rows as changes, with the error of each row.
#[derive(Clone, Debug)]
pub struct EditDraftProjection {
    /// The changes.
    pub edit: AccountEdit,
    /// Error of the label row.
    pub label_error: Option<InlineError>,
    /// Error of the issuer row.
    pub issuer_error: Option<InlineError>,
    /// Error of the icon row.
    pub icon_hint_error: Option<InlineError>,
}

impl View for EditDraftProjection {
    type V = ProjectionView;

    open spec fn view(&self) -> ProjectionView {
        ProjectionView {
            edit: self.edit@,
            label_error: optional_error(self.label_error),
            issuer_error: optional_error(self.issuer_error),
            icon_hint_error: optional_error(self.icon_hint_error),
        }
    }
}

impl EditDraftProjection {
    /// Whether the rows can be saved.
    pub fn save_sensitive(&self) -> (r: bool)
        ensures
            r == self@.savable(),
    {
        self.label_error.is_none() && self.issuer_error.is_none() && self.icon_hint_error.is_none()
            && !is_account_edit_empty(&self.edit)
    }
}

/// Projects the rows onto changes.
pub fn classify_edit_draft(state: &EditDialogState, answers: &EngineAnswers) -> (r:
    EditDraftProjection)
    ensures
        r@ == state@.projection(*answers),
{
    let mut label_error: Option<InlineError> = None;
    let mut issuer_error: Option<InlineError> = None;
    let mut icon_hint_error: Option<InlineError> = None;

    let label_trimmed: &str = trim(state.label_buf.as_str());
    let label: Option<String> = if same_text(label_trimmed, trim(state.prior.label.as_str())) {
        None
    } else {
        match &answers.label {
            Ok(label) => Some(label.clone()),
            Err(err) => {
                label_error = Some(InlineError::from_error(err));
                Some(state.label_buf.clone())
            },
        }
    };

    let issuer_row: &str = state.issuer_buf.as_str();
    let issuer_trimmed: &str = trim(issuer_row);
    let prior_issuer: String = text_or_empty(&state.prior.issuer);
    let issuer: Option<Option<String>> = if issuer_row.is_empty() {
        if state.prior.issuer.is_some() {
            Some(None)
        } else {
            None
        }
    } else if same_text(issuer_trimmed, prior_issuer.as_str()) {
        None
    } else if issuer_trimmed.is_empty() {
        issuer_error = Some(make_validation_error("validation_error: issuer must not be empty"));
        Some(Some(issuer_row.to_owned()))
    } else if issuer_trimmed.len() > ISSUER_MAX_BYTES {
        issuer_error = Some(make_validation_error("validation_error: issuer exceeds 128 bytes"));
        Some(Some(issuer_row.to_owned()))
    } else {
        Some(Some(issuer_trimmed.to_owned()))
    };

    let icon_row: &str = state.icon_hint_buf.as_str();
    let prior_icon: String = text_or_empty(&state.prior.icon_hint);
    let icon_hint: Option<IconHintInput> = if same_text(icon_row, prior_icon.as_str()) {
        None
    } else if icon_row.is_empty() {
        Some(IconHintInput::Default)
    } else if eq_ignore_ascii_case(icon_row, "none") {
        Some(IconHintInput::Clear)
    } else {
        match &answers.icon_hint {
            Ok(input) => Some(input.clone()),
            Err(err) => {
                icon_hint_error = Some(InlineError::from_error(err));
                Some(IconHintInput::Slug(icon_row.to_owned()))
            },
        }
    };

    EditDraftProjection {
        edit: AccountEdit { label, issuer, icon_hint },
        label_error,
        issuer_error,
        icon_hint_error,
    }
}

fn make_validation_error(text: &str) -> (r: InlineError)
    ensures
        Some(r@) == validation(text@),
{
    InlineError { kind: ErrorKind::ValidationError, rendered: text.to_owned() }
}

/// Whether changes change nothing.
pub fn is_account_edit_empty(edit: &AccountEdit) -> (r: bool)
    ensures
        r == edit_is_empty(edit@),
{
    edit.label.is_none() && edit.issuer.is_none() && edit.icon_hint.is_none()
}

/// What a press of the save button leads to, before collisions are looked
/// for.
#[derive(Clone, Debug)]
pub enum SubmitOutcome {
    /// Nothing changed.
    EmptyEditReject,
    /// The changes are valid.
    Validated(AccountEdit),
    /// The changes are not valid.
    InvalidEdit(InlineError),
}

/// What a press of the save button leads to, in mathematical terms.
pub enum Submission {
    /// Nothing changed.
    EmptyEditReject,
    /// The changes are valid.
    Validated(AccountEditView),
    /// The changes are not valid.
    InvalidEdit(InlineErrorView),
}

impl View for SubmitOutcome {
    type V = Submission;

    open spec fn view(&self) -> Submission {
        match self {
            SubmitOutcome::EmptyEditReject => Submission::EmptyEditReject,
            SubmitOutcome::Validated(edit) => Submission::Validated(edit@),
            SubmitOutcome::InvalidEdit(err) => Submission::InvalidEdit(err@),
        }
    }
}

/// What a press of the save button leads to: nothing without a change; the
/// first error of the rows where there is one; otherwise what the engine says
/// of the changes.
pub open spec fn submission(s: EditView, answers: EngineAnswers) -> Submission {
    let projection = s.projection(answers);
    if edit_is_empty(projection.edit) {
        Submission::EmptyEditReject
    } else {
        match projection.first_error() {
            Some(err) => Submission::InvalidEdit(err),
            None => match answers.edit {
                Ok(_) => Submission::Validated(projection.edit),
                Err(err) => Submission::InvalidEdit(inline_error(err)@),
            },
        }
    }
}

/// Decides what a press of the save button leads to.
pub fn classify_submit(state: &EditDialogState, answers: &EngineAnswers) -> (r: SubmitOutcome)
    ensures
        r@ == submission(state@, *answers),
{
    let projection = classify_edit_draft(state, answers);
    if is_account_edit_empty(&projection.edit) {
        return SubmitOutcome::EmptyEditReject;
    }
    if let Some(err) = projection.label_error {
        return SubmitOutcome::InvalidEdit(err);
    }
    if let Some(err) = projection.issuer_error {
        return SubmitOutcome::InvalidEdit(err);
    }
    if let Some(err) = projection.icon_hint_error {
        return SubmitOutcome::InvalidEdit(err);
    }
    match &answers.edit {
        Ok(()) => SubmitOutcome::Validated(projection.edit),
        Err(err) => SubmitOutcome::InvalidEdit(InlineError::from_error(err)),
    }
}

/// What a press of the save button leads to, once collisions are looked for.
#[derive(Clone, Debug)]
pub enum SubmitDispatch {
    /// Nothing changed.
    EmptyEditReject,
    /// The changes are not valid.
    InvalidEdit(InlineError),
    /// The changes collide with another account.
    DuplicateDetected(DuplicateMarker),
    /// The changes are saved.
    DispatchEffect(AccountEdit),
}

/// A collision counts only for changes that are valid.
pub open spec fn dispatched(outcome: SubmitOutcome, duplicate: Option<DuplicateMarker>) -> SubmitDispatch {
    match outcome {
        SubmitOutcome::EmptyEditReject => SubmitDispatch::EmptyEditReject,
        SubmitOutcome::InvalidEdit(err) => SubmitDispatch::InvalidEdit(err),
        SubmitOutcome::Validated(edit) => match duplicate {
            Some(marker) => SubmitDispatch::DuplicateDetected(marker),
            None => SubmitDispatch::DispatchEffect(edit),
        },
    }
}

/// Takes a collision into account; it counts only for changes that are valid.
pub fn classify_submit_with_duplicate(
    outcome: SubmitOutcome,
    duplicate: Option<DuplicateMarker>,
) -> (r: SubmitDispatch)
    ensures
        r == dispatched(outcome, duplicate),
{
    match outcome {
        SubmitOutcome::EmptyEditReject => SubmitDispatch::EmptyEditReject,
        SubmitOutcome::InvalidEdit(err) => SubmitDispatch::InvalidEdit(err),
        SubmitOutcome::Validated(edit) => match duplicate {
            Some(marker) => SubmitDispatch::DuplicateDetected(marker),
            None => SubmitDispatch::DispatchEffect(edit),
        },
    }
}

/// Drops what the dialog holds when the vault locks.
pub fn clear_for_lock(state: &mut EditDialogState)
    ensures
        final(state)@ == old(state)@.cleared(),
{
    state.clear();
}

/// Prefix of the line that reports the mounted dialog.
pub const EDIT_DIALOG_MARKER_PREFIX: &'static str = "paladin-gtk: edit_dialog_account=";

/// The line that reports the mounted dialog. `account_id` is the identity in
/// text form.
pub fn format_edit_dialog_marker(account_id: &str, display_label: &str) -> (r: String)
    ensures
        r@ == "paladin-gtk: edit_dialog_account="@ + account_id@ + " label="@ + display_label@,
{
    let mut text = joined3(EDIT_DIALOG_MARKER_PREFIX, account_id, " label=");
    text.append(display_label);
    text
}

/// Title of the dialog.
pub fn format_edit_dialog_title() -> (r: &'static str)
    ensures
        r@ == "Edit account"@,
{
    "Edit account"
}

/// Title of the label row.
pub fn format_edit_dialog_label_title() -> (r: &'static str)
    ensures
        r@ == "Label"@,
{
    "Label"
}

/// Title of the issuer row.
pub fn format_edit_dialog_issuer_title() -> (r: &'static str)
    ensures
        r@ == "Issuer"@,
{
    "Issuer"
}

/// Title of the icon row.
pub fn format_edit_dialog_icon_hint_title() -> (r: &'static str)
    ensures
        r@ == "Icon hint"@,
{
    "Icon hint"
}

/// Caption of the cancel button.
pub fn format_edit_dialog_cancel_label() -> (r: &'static str)
    ensures
        r@ == "Cancel"@,
{
    "Cancel"
}

/// Caption of the save button.
pub fn format_edit_dialog_save_label() -> (r: &'static str)
    ensures
        r@ == "Save"@,
{
    "Save"
}

/// Subtitle that names the edited account.
pub fn format_edit_dialog_subtitle(display_label: &str) -> (r: String)
    ensures
        r@ == "Editing "@ + display_label@ + "."@,
{
    joined3("Editing ", display_label, ".")
}

/// Text of the toast after a save.
pub fn format_edit_dialog_success_toast(post_summary: Option<&AccountSummary>) -> (r: String)
    ensures
        r@ == (match post_summary {
            Some(summary) => "Edited "@ + labelled(optional_text(summary.issuer), summary.label@)
                + "."@,
            None => "Edited."@,
        }),
{
    match post_summary {
        Some(summary) => joined3("Edited ", summary_display_label(summary).as_str(), "."),
        None => "Edited.".to_owned(),
    }
}

/// Text of the banner about a collision; empty where there is none.
pub fn compose_duplicate_banner(state: &EditDialogState) -> (r: String)
    ensures
        r@ == (match state@.duplicate {
            Some(marker) => "duplicate_account: collides with "@ + marker.display_label@ + "."@,
            None => Seq::empty(),
        }),
{
    match state.duplicate() {
        Some(marker) => joined3(
            "duplicate_account: collides with ",
            marker.display_label.as_str(),
            ".",
        ),
        None => String::new(),
    }
}

/// What happens in the dialog.
#[derive(Clone, Debug)]
pub enum EditDialogMsg {
    /// The label was edited.
    LabelChanged(String),
    /// The issuer was edited.
    IssuerChanged(String),
    /// The icon hint was edited.
    IconHintChanged(String),
    /// The issuer was cleared.
    IssuerClearClicked,
    /// The cancel button was pressed.
    Cancel,
    /// The save button was pressed.
    SubmitClicked,
    /// A collision was found.
    DuplicateDetected(DuplicateMarker),
    /// The worker returned.
    WorkerCompleted(PostEffectOutcome),
    /// A worker started or ended.
    SetBusy(bool),
}

/// What the dialog asks for.
#[derive(Clone, Debug)]
pub enum EditDialogOutput {
    /// Drop the dialog.
    Cancel,
    /// Save the changes.
    Submit {
        /// The edited account.
        account_id: AccountId,
        /// The changes.
        edit: AccountEdit,
    },
}

/// What the dialog asks for, in mathematical terms.
pub enum EditRequest {
    /// Drop the dialog.
    Cancel,
    /// Save the changes.
    Submit { account_id: AccountId, edit: AccountEditView },
}

/// What the dialog asks for, in mathematical terms.
pub open spec fn request_of(output: Option<EditDialogOutput>) -> Option<EditRequest> {
    match output {
        Some(EditDialogOutput::Cancel) => Some(EditRequest::Cancel),
        Some(EditDialogOutput::Submit { account_id, edit }) => Some(
            EditRequest::Submit { account_id, edit: edit@ },
        ),
        None => None,
    }
}

/// Whether the save button is sensitive.
pub open spec fn save_enabled(s: EditView, answers: EngineAnswers) -> bool {
    !s.busy && s.projection(answers).savable()
}

/// Whether the save button is sensitive.
pub fn format_edit_dialog_save_button_sensitive(
    state: &EditDialogState,
    answers: &EngineAnswers,
) -> (r: bool)
    ensures
        r == save_enabled(state@, *answers),
{
    if state.is_busy() {
        return false;
    }
    classify_edit_draft(state, answers).save_sensitive()
}

/// The dialog after a message, and what it asks for.
pub open spec fn edit_step(s: EditView, msg: EditDialogMsg, answers: EngineAnswers) -> (
    EditView,
    Option<EditRequest>,
) {
    match msg {
        EditDialogMsg::LabelChanged(text) => (
            EditView {
                duplicate: None,
                outcome: None,
                ..EditView { label: text@, ..s }.refreshed(answers)
            },
            None,
        ),
        EditDialogMsg::IssuerChanged(text) => (
            EditView {
                duplicate: None,
                outcome: None,
                ..EditView { issuer: text@, ..s }.refreshed(answers)
            },
            None,
        ),
        EditDialogMsg::IconHintChanged(text) => (
            EditView { outcome: None, ..EditView { icon_hint: text@, ..s }.refreshed(answers) },
            None,
        ),
        EditDialogMsg::IssuerClearClicked => (
            EditView {
                duplicate: None,
                outcome: None,
                ..EditView { issuer: Seq::empty(), ..s }.refreshed(answers)
            },
            None,
        ),
        EditDialogMsg::Cancel => (s.cleared(), Some(EditRequest::Cancel)),
        EditDialogMsg::SubmitClicked => (
            s,
            match submission(s, answers) {
                Submission::Validated(edit) => Some(
                    EditRequest::Submit { account_id: s.prior.account_id, edit },
                ),
                _ => None,
            },
        ),
        EditDialogMsg::DuplicateDetected(marker) => (
            EditView { duplicate: Some(marker), ..s },
            None,
        ),
        EditDialogMsg::WorkerCompleted(outcome) => (EditView { outcome: Some(outcome), ..s }, None),
        EditDialogMsg::SetBusy(busy) => (EditView { busy, ..s }, None),
    }
}

/// The label that the engine is asked about: the text of the label row as the
/// message leaves it.
pub fn label_to_check<'a>(state: &'a EditDialogState, msg: &'a EditDialogMsg) -> (r: &'a str)
    ensures
        forall|answers: EngineAnswers| #[trigger]
            edit_step(state@, *msg, answers).0.label == r@,
{
    match msg {
        EditDialogMsg::LabelChanged(text) => text.as_str(),
        EditDialogMsg::Cancel => {
            proof {
                reveal_strlit("");
                assert(""@ =~= Seq::<char>::empty());
            }
            ""
        },
        _ => state.label_buf(),
    }
}

/// The icon hint that the engine is asked about: the text of the icon row as
/// the message leaves it.
pub fn icon_hint_to_check<'a>(state: &'a EditDialogState, msg: &'a EditDialogMsg) -> (r: &'a str)
    ensures
        forall|answers: EngineAnswers| #[trigger]
            edit_step(state@, *msg, answers).0.icon_hint == r@,
{
    match msg {
        EditDialogMsg::IconHintChanged(text) => text.as_str(),
        EditDialogMsg::Cancel => {
            proof {
                reveal_strlit("");
                assert(""@ =~= Seq::<char>::empty());
            }
            ""
        },
        _ => state.icon_hint_buf(),
    }
}

/// Applies a message to the dialog and returns what it asks for. `answers`
/// are the engine's answers on the rows as the message leaves them.
pub fn apply_msg(state: &mut EditDialogState, msg: EditDialogMsg, answers: &EngineAnswers) -> (r:
    Option<EditDialogOutput>)
    ensures
        (final(state)@, request_of(r)) == edit_step(old(state)@, msg, *answers),
{
    match msg {
        EditDialogMsg::LabelChanged(text) => {
            state.set_label_buf(text, answers);
            None
        },
        EditDialogMsg::IssuerChanged(text) => {
            state.set_issuer_buf(text, answers);
            None
        },
        EditDialogMsg::IconHintChanged(text) => {
            state.set_icon_hint_buf(text, answers);
            None
        },
        EditDialogMsg::IssuerClearClicked => {
            state.set_issuer_buf(String::new(), answers);
            None
        },
        EditDialogMsg::Cancel => {
            state.clear();
            Some(EditDialogOutput::Cancel)
        },
        EditDialogMsg::SubmitClicked => match classify_submit(state, answers) {
            SubmitOutcome::Validated(edit) => Some(
                EditDialogOutput::Submit { account_id: state.account_id(), edit },
            ),
            SubmitOutcome::EmptyEditReject | SubmitOutcome::InvalidEdit(_) => None,
        },
        EditDialogMsg::DuplicateDetected(marker) => {
            state.duplicate = Some(marker);
            None
        },
        EditDialogMsg::WorkerCompleted(outcome) => {
            state.worker_outcome = Some(outcome);
            None
        },
        EditDialogMsg::SetBusy(busy) => {
            state.set_busy(busy);
            None
        },
    }
}

/// A dialog that was just opened changes nothing, so that its save button is
/// off: an issuer that is stored is neither empty nor surrounded by white
/// space.
pub proof fn opened_dialog_changes_nothing(prior: PriorView, answers: EngineAnswers)
    requires
        prior.issuer matches Some(issuer) ==> issuer.len() > 0 && trimmed(issuer) == issuer,
    ensures
        edit_is_empty(EditView::opened(prior).projection(answers).edit),
        EditView::opened(prior).projection(answers).first_error() is None,
        !save_enabled(EditView::opened(prior), answers),
        submission(EditView::opened(prior), answers) is EmptyEditReject,
{
}

/// White space around the label alone never makes a change.
pub proof fn label_white_space_changes_nothing(
    s: EditView,
    text: String,
    answers: EngineAnswers,
)
    requires
        trimmed(text@) == trimmed(s.prior.label),
    ensures
        ({
            let typed = edit_step(s, EditDialogMsg::LabelChanged(text), answers).0;
            &&& typed.projection(answers).edit.label is None
            &&& typed.label_error is None
        }),
{
}

/// The save button is sensitive exactly when the dialog is idle and a press
/// submits the very changes that the rows show, provided that the engine
/// accepts them; a press never submits anything else.
pub proof fn what_is_shown_is_saved(s: EditView, answers: EngineAnswers)
    ensures
        ({
            let pressed = edit_step(s, EditDialogMsg::SubmitClicked, answers);
            &&& pressed.0 == s
            &&& save_enabled(s, answers) && answers.edit is Ok <==> !s.busy && pressed.1 is Some
            &&& pressed.1 is Some ==> pressed.1 == Some(
                EditRequest::Submit {
                    account_id: s.prior.account_id,
                    edit: s.projection(answers).edit,
                },
            )
        }),
{
}

/// A collision is reported only for changes that are valid.
pub proof fn validity_comes_before_collision(
    outcome: SubmitOutcome,
    duplicate: Option<DuplicateMarker>,
)
    ensures
        dispatched(outcome, duplicate) is DuplicateDetected ==> outcome is Validated,
        outcome is InvalidEdit ==> dispatched(outcome, duplicate) is InvalidEdit,
        dispatched(outcome, duplicate) is DispatchEffect ==> duplicate is None,
{
}

/// No message turns the dialog to another account.
pub proof fn target_never_changes(s: EditView, msg: EditDialogMsg, answers: EngineAnswers)
    ensures
        edit_step(s, msg, answers).0.prior.account_id == s.prior.account_id,
{
}

/// A lock leaves no text of the account behind, and a second one changes
/// nothing.
pub proof fn lock_leaves_nothing(s: EditView, answers: EngineAnswers)
    ensures
        s.cleared().cleared() == s.cleared(),
        edit_is_empty(s.cleared().projection(answers).edit),
        !save_enabled(s.cleared(), answers),
{
}

/// What is saved is what was typed. The label is saved as the engine accepted it,
/// where more than white space around it changed. The issuer is saved without
/// the white space around it, and an emptied row takes it away. The icon is saved
/// as the engine understood it; an emptied row asks for the one that follows
/// from the issuer, and the word `none` for none. A row that was left alone
/// changes nothing.
pub proof fn what_was_typed_is_saved(s: EditView, answers: EngineAnswers)
    requires
        edit_step(s, EditDialogMsg::SubmitClicked, answers).1 is Some,
        vstd::utf8::encode_utf8(trimmed(s.issuer)).len() <= usize::MAX,
    ensures
        ({
            let request = edit_step(s, EditDialogMsg::SubmitClicked, answers).1->0;
            let edit = request->edit;
            let stored_icon = match s.prior.icon_hint {
                Some(slug) => slug,
                None => Seq::<char>::empty(),
            };
            let stored_issuer = match s.prior.issuer {
                Some(issuer) => issuer,
                None => Seq::<char>::empty(),
            };
            &&& request is Submit
            &&& request->account_id == s.prior.account_id
            &&& answers.edit is Ok
            &&& trimmed(s.label) == trimmed(s.prior.label) ==> edit.label is None
            &&& trimmed(s.label) != trimmed(s.prior.label) ==> answers.label is Ok && edit.label
                == Some(answers.label->Ok_0@)
            &&& s.icon_hint == stored_icon ==> edit.icon_hint is None
            &&& s.icon_hint != stored_icon && s.icon_hint.len() == 0 ==> edit.icon_hint == Some(
                IconHintView::Default,
            )
            &&& s.icon_hint != stored_icon && equal_ignoring_ascii_case(s.icon_hint, "none"@)
                && s.icon_hint.len() > 0 ==> edit.icon_hint == Some(IconHintView::Clear)
            &&& s.icon_hint != stored_icon && s.icon_hint.len() > 0 && !equal_ignoring_ascii_case(
                s.icon_hint,
                "none"@,
            ) ==> answers.icon_hint is Ok && edit.icon_hint is Some && match answers.icon_hint->Ok_0 {
                IconHintInput::Default => edit.icon_hint->0 == IconHintView::Default,
                IconHintInput::Clear => edit.icon_hint->0 == IconHintView::Clear,
                IconHintInput::Slug(slug) => edit.icon_hint->0 == IconHintView::Slug(slug@),
            }
            &&& s.issuer.len() == 0 && s.prior.issuer is Some ==> edit.issuer == Some(
                None::<Seq<char>>,
            )
            &&& s.issuer.len() == 0 && s.prior.issuer is None ==> edit.issuer is None
            &&& s.issuer.len() > 0 && trimmed(s.issuer) == stored_issuer ==> edit.issuer is None
            &&& s.issuer.len() > 0 && trimmed(s.issuer) != stored_issuer ==> {
                &&& edit.issuer == Some(Some(trimmed(s.issuer)))
                &&& trimmed(s.issuer).len() > 0
                &&& vstd::utf8::encode_utf8(trimmed(s.issuer)).len() <= 128
            }
        }),
{
}

/// A press of the save button saves wherever something was changed and nothing
/// is wrong: the engine accepts the label, the icon and the changes as a whole
/// as far as they changed, and a new issuer is neither blank nor too long.
pub proof fn sound_changes_are_saved(s: EditView, answers: EngineAnswers)
    requires
        vstd::utf8::encode_utf8(trimmed(s.issuer)).len() <= 128,
        answers.label is Ok,
        answers.icon_hint is Ok,
        answers.edit is Ok,
        s.issuer.len() > 0 ==> trimmed(s.issuer).len() > 0,
        ({
            ||| trimmed(s.label) != trimmed(s.prior.label)
            ||| s.prior.icon_hint is Some && s.icon_hint != s.prior.icon_hint->0
            ||| s.prior.icon_hint is None && s.icon_hint.len() > 0
            ||| s.prior.issuer is Some && trimmed(s.issuer) != s.prior.issuer->0
            ||| s.prior.issuer is None && s.issuer.len() > 0
        }),
    ensures
        edit_step(s, EditDialogMsg::SubmitClicked, answers).1 is Some,
{
    if s.issuer.len() == 0 {
        white_space_trims_to_nothing(s.issuer);
    }
}

/// Where nothing was changed, nothing is submitted; nor is anything where the
/// engine refuses a label or an icon that was changed, or the changes.
pub proof fn unsound_changes_are_not_saved(s: EditView, answers: EngineAnswers)
    ensures
        ({
            let request = edit_step(s, EditDialogMsg::SubmitClicked, answers).1;
            &&& answers.edit is Err ==> request is None
            &&& trimmed(s.label) != trimmed(s.prior.label) && answers.label is Err
                ==> request is None
            &&& s.icon_hint != (match s.prior.icon_hint {
                Some(slug) => slug,
                None => Seq::<char>::empty(),
            }) && s.icon_hint.len() > 0 && !equal_ignoring_ascii_case(s.icon_hint, "none"@)
                && answers.icon_hint is Err ==> request is None
            &&& s.issuer.len() > 0 && trimmed(s.issuer).len() == 0 && s.prior.issuer is Some
                && s.prior.issuer->0.len() > 0 ==> request is None
        }),
{
}

/// What is typed into a row is what the row holds, and no other row changes. A
/// row says at once what is wrong with it, in the engine's words; a new label or
/// issuer drops the collision that was reported.
pub proof fn typing_changes_one_row(s: EditView, text: String, answers: EngineAnswers)
    requires
        vstd::utf8::encode_utf8(trimmed(text@)).len() <= usize::MAX,
    ensures
        ({
            let (typed, request) = edit_step(s, EditDialogMsg::LabelChanged(text), answers);
            &&& request is None
            &&& typed.label == text@
            &&& typed.issuer == s.issuer
            &&& typed.icon_hint == s.icon_hint
            &&& typed.prior == s.prior
            &&& typed.busy == s.busy
            &&& typed.duplicate is None
            &&& typed.outcome is None
            &&& typed.label_error is Some <==> trimmed(text@) != trimmed(s.prior.label)
                && answers.label is Err
            &&& typed.label_error is Some ==> typed.label_error->0.rendered
                == answers.label->Err_0.rendered@ && typed.label_error->0.kind
                == answers.label->Err_0.kind
        }),
        ({
            let (typed, request) = edit_step(s, EditDialogMsg::IssuerChanged(text), answers);
            let stored = match s.prior.issuer {
                Some(issuer) => issuer,
                None => Seq::<char>::empty(),
            };
            let changed = text@.len() > 0 && trimmed(text@) != stored;
            let blank = trimmed(text@).len() == 0;
            let long = vstd::utf8::encode_utf8(trimmed(text@)).len() > 128;
            &&& request is None
            &&& typed.issuer == text@
            &&& typed.label == s.label
            &&& typed.icon_hint == s.icon_hint
            &&& typed.prior == s.prior
            &&& typed.busy == s.busy
            &&& typed.duplicate is None
            &&& typed.outcome is None
            &&& typed.issuer_error is Some <==> changed && (blank || long)
            &&& typed.issuer_error is Some ==> typed.issuer_error->0.kind
                == ErrorKind::ValidationError
            &&& changed && blank ==> typed.issuer_error->0.rendered
                == "validation_error: issuer must not be empty"@
            &&& changed && !blank && long ==> typed.issuer_error->0.rendered
                == "validation_error: issuer exceeds 128 bytes"@
        }),
        ({
            let (typed, request) = edit_step(s, EditDialogMsg::IconHintChanged(text), answers);
            &&& request is None
            &&& typed.icon_hint == text@
            &&& typed.label == s.label
            &&& typed.issuer == s.issuer
            &&& typed.prior == s.prior
            &&& typed.busy == s.busy
            &&& typed.duplicate == s.duplicate
            &&& typed.outcome is None
            &&& typed.icon_hint_error is Some <==> answers.icon_hint is Err && text@.len() > 0
                && !equal_ignoring_ascii_case(text@, "none"@) && text@ != (
            match s.prior.icon_hint {
                Some(slug) => slug,
                None => Seq::<char>::empty(),
            })
            &&& typed.icon_hint_error is Some ==> typed.icon_hint_error->0.rendered
                == answers.icon_hint->Err_0.rendered@ && typed.icon_hint_error->0.kind
                == answers.icon_hint->Err_0.kind
        }),
        ({
            let (emptied, request) = edit_step(s, EditDialogMsg::IssuerClearClicked, answers);
            &&& request is None
            &&& emptied.issuer.len() == 0
            &&& emptied.issuer_error is None
            &&& emptied.label == s.label
            &&& emptied.icon_hint == s.icon_hint
            &&& emptied.prior == s.prior
            &&& emptied.busy == s.busy
            &&& emptied.duplicate is None
            &&& emptied.outcome is None
        }),
{
}

/// The dialog opens on what is stored of the account.
pub proof fn dialog_opens_on_the_account(summary: AccountSummary)
    ensures
        ({
            let s = EditView::opened(prior_of(summary));
            &&& s.prior.account_id == summary.id
            &&& s.label == summary.label@
            &&& s.prior.label == summary.label@
            &&& summary.issuer is Some ==> s.issuer == summary.issuer->0@ && s.prior.issuer == Some(
                summary.issuer->0@,
            )
            &&& summary.issuer is None ==> s.issuer.len() == 0 && s.prior.issuer is None
            &&& summary.icon_hint is Some ==> s.icon_hint == summary.icon_hint->0@
                && s.prior.icon_hint == Some(summary.icon_hint->0@)
            &&& summary.icon_hint is None ==> s.icon_hint.len() == 0 && s.prior.icon_hint is None
            &&& summary.issuer is Some && summary.issuer->0@.len() > 0 ==> s.prior.display
                == summary.issuer->0@ + seq![':'] + summary.label@
            &&& summary.issuer is None ==> s.prior.display == summary.label@
            &&& !s.busy
            &&& s.duplicate is None
            &&& s.outcome is None
        }),
{
}

/// What is reported to the dialog is what it shows, and nothing else changes; a
/// dismissal leaves no text behind.
pub proof fn reports_are_shown(
    s: EditView,
    marker: DuplicateMarker,
    outcome: PostEffectOutcome,
    busy: bool,
    answers: EngineAnswers,
)
    ensures
        edit_step(s, EditDialogMsg::DuplicateDetected(marker), answers) == (
            EditView { duplicate: Some(marker), ..s },
            None::<EditRequest>,
        ),
        edit_step(s, EditDialogMsg::WorkerCompleted(outcome), answers) == (
            EditView { outcome: Some(outcome), ..s },
            None::<EditRequest>,
        ),
        edit_step(s, EditDialogMsg::SetBusy(busy), answers) == (
            EditView { busy, ..s },
            None::<EditRequest>,
        ),
        ({
            let (left, request) = edit_step(s, EditDialogMsg::Cancel, answers);
            &&& request == Some(EditRequest::Cancel)
            &&& left.label.len() == 0 && left.issuer.len() == 0 && left.icon_hint.len() == 0
            &&& left.prior.label.len() == 0 && left.prior.issuer is None
            &&& left.prior.icon_hint is None && left.prior.display.len() == 0
            &&& left.label_error is None && left.issuer_error is None
            &&& left.icon_hint_error is None && left.duplicate is None && left.outcome is None
        }),
{
}

/// A save that reached the disk without certainty is a warning; any other failed
/// save is an error. Both are in the engine's words.
pub proof fn failed_save_is_reported(err: PaladinError)
    ensures
        err.kind == ErrorKind::SaveDurabilityUnconfirmed ==> (post_effect(
            err,
        ) matches PostEffectOutcome::StayOpenWithWarning(w) && w.rendered == err.rendered && w.kind
            == err.kind),
        err.kind != ErrorKind::SaveDurabilityUnconfirmed ==> (post_effect(
            err,
        ) matches PostEffectOutcome::StayOpenWithError(e) && e.rendered == err.rendered && e.kind
            == err.kind),
{
}

/// Valid changes are carried out where no other account collides, and refused
/// with that account where one does.
pub proof fn collision_decides_valid_changes(edit: AccountEdit, marker: DuplicateMarker)
    ensures
        dispatched(SubmitOutcome::Validated(edit), None) == SubmitDispatch::DispatchEffect(edit),
        dispatched(SubmitOutcome::Validated(edit), Some(marker))
            == SubmitDispatch::DuplicateDetected(marker),
        dispatched(SubmitOutcome::EmptyEditReject, Some(marker)) is EmptyEditReject,
{
}

/// A request names the account and carries the very edit that is handed on.
pub proof fn request_is_faithful(account_id: AccountId, edit: AccountEdit)
    ensures
        request_of(Some(EditDialogOutput::Submit { account_id, edit })) == Some(
            EditRequest::Submit { account_id, edit: edit@ },
        ),
        request_of(Some(EditDialogOutput::Cancel)) == Some(EditRequest::Cancel),
        request_of(None) is None,
{
}

/// What a press of the save button comes to: nothing where nothing was changed,
/// else the first refusal from the top of the dialog, else that of the changes as a
/// whole, else the changes. The save button is on where something was changed and
/// no row is refused, while no worker runs.
pub proof fn first_refusal_is_reported(s: EditView, answers: EngineAnswers)
    requires
        vstd::utf8::encode_utf8(trimmed(s.issuer)).len() <= usize::MAX,
    ensures
        ({
            let stored_icon = match s.prior.icon_hint {
                Some(slug) => slug,
                None => Seq::<char>::empty(),
            };
            let stored_issuer = match s.prior.issuer {
                Some(issuer) => issuer,
                None => Seq::<char>::empty(),
            };
            let label_changed = trimmed(s.label) != trimmed(s.prior.label);
            let issuer_typed = s.issuer.len() > 0 && trimmed(s.issuer) != stored_issuer;
            let issuer_changed = issuer_typed || (s.issuer.len() == 0 && s.prior.issuer is Some);
            let icon_changed = s.icon_hint != stored_icon;
            let blank = issuer_typed && trimmed(s.issuer).len() == 0;
            let long = issuer_typed && vstd::utf8::encode_utf8(trimmed(s.issuer)).len() > 128;
            let label_refused = label_changed && answers.label is Err;
            let icon_refused = icon_changed && s.icon_hint.len() > 0 && !equal_ignoring_ascii_case(
                s.icon_hint,
                "none"@,
            ) && answers.icon_hint is Err;
            let outcome = submission(s, answers);
            &&& outcome is EmptyEditReject <==> !label_changed && !issuer_changed && !icon_changed
            &&& label_refused ==> outcome == Submission::InvalidEdit(
                InlineErrorView {
                    kind: answers.label->Err_0.kind,
                    rendered: answers.label->Err_0.rendered@,
                },
            )
            &&& !label_refused && blank ==> outcome == Submission::InvalidEdit(
                InlineErrorView {
                    kind: ErrorKind::ValidationError,
                    rendered: "validation_error: issuer must not be empty"@,
                },
            )
            &&& !label_refused && !blank && long ==> outcome == Submission::InvalidEdit(
                InlineErrorView {
                    kind: ErrorKind::ValidationError,
                    rendered: "validation_error: issuer exceeds 128 bytes"@,
                },
            )
            &&& !label_refused && !blank && !long && icon_refused ==> outcome
                == Submission::InvalidEdit(
                InlineErrorView {
                    kind: answers.icon_hint->Err_0.kind,
                    rendered: answers.icon_hint->Err_0.rendered@,
                },
            )
            &&& (label_changed || issuer_changed || icon_changed) && !label_refused && !blank
                && !long && !icon_refused && answers.edit is Err ==> outcome
                == Submission::InvalidEdit(
                InlineErrorView {
                    kind: answers.edit->Err_0.kind,
                    rendered: answers.edit->Err_0.rendered@,
                },
            )
            &&& outcome is Validated <==> edit_step(
                s,
                EditDialogMsg::SubmitClicked,
                answers,
            ).1 is Some
            &&& outcome matches Submission::Validated(edit) ==> edit_step(
                s,
                EditDialogMsg::SubmitClicked,
                answers,
            ).1 == Some(EditRequest::Submit { account_id: s.prior.account_id, edit })
            &&& save_enabled(s, answers) <==> {
                &&& !s.busy
                &&& label_changed || issuer_changed || icon_changed
                &&& !label_refused && !blank && !long && !icon_refused
            }
        }),
        edit_step(s, EditDialogMsg::SubmitClicked, answers).0 == s,
{
}

/// What a press comes to is told as it is.
pub proof fn outcomes_are_faithful(edit: AccountEdit, err: InlineError)
    ensures
        (SubmitOutcome::EmptyEditReject)@ is EmptyEditReject,
        SubmitOutcome::Validated(edit)@ == Submission::Validated(edit@),
        SubmitOutcome::InvalidEdit(err)@ == Submission::InvalidEdit(
            InlineErrorView { kind: err.kind, rendered: err.rendered@ },
        ),
        dispatched(SubmitOutcome::EmptyEditReject, None) is EmptyEditReject,
        dispatched(SubmitOutcome::InvalidEdit(err), None) == SubmitDispatch::InvalidEdit(err),
{
}

} // verus!
