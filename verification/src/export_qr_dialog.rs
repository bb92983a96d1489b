//! The QR export dialog: a warning page with an acknowledgement, and a page
//! with the code of an account. The code is rendered on request alone, and no
//! copy of it outlives the acknowledgement or the dialog.

use crate::account::find_summary;
use crate::account::summary_position;
use crate::account::AccountId;
use crate::account::AccountSummary;
use crate::account_row::labelled;
use crate::account_row::summary_display_label;
use crate::paths::FilePath;
use crate::text::optional_text;
use crate::vault::PaladinError;
use crate::wiping::WipedBytes;
use crate::wiping::WipedText;
use vstd::prelude::*;

verus! {

/// Name of the warning page.
pub const VIEW_STACK_WARNING_PAGE_NAME: &'static str = "warning";

/// Name of the page that shows the code.
pub const VIEW_STACK_QR_PAGE_NAME: &'static str = "qr";

/// Style class of the caption.
pub const CAPTION_STYLE_CLASS: &'static str = "title-3";

/// Format of a save.
#[derive(Clone, Copy, Debug, PartialEq, Eq, Hash, Structural)]
pub enum SaveKind {
    /// PNG image.
    Png,
    /// SVG document.
    Svg,
}

/// Where the code is saved, and in which format.
#[derive(Clone, Debug, PartialEq, Eq)]
pub struct SaveTarget {
    /// Format.
    pub kind: SaveKind,
    /// Destination.
    pub path: FilePath,
}

/// What the dialog is opened with.
#[derive(Clone, Debug)]
pub struct ExportQrDialogInit {
    /// Stable identity of the account.
    pub account_id: AccountId,
    /// The account when the dialog opened.
    pub account_summary: AccountSummary,
}

/// What happens in the dialog.
#[derive(Clone, Debug, PartialEq, Eq)]
pub enum ExportQrDialogMsg {
    /// The acknowledgement was switched.
    AckToggled(bool),
    /// The button that shows the code was pressed.
    ShowQr,
    /// The code was rendered.
    ShowQrSucceeded(WipedBytes),
    /// The code was not rendered.
    ShowQrFailed(String),
    /// The cancel button was pressed.
    CancelPressed,
    /// The dialog was closed.
    Close,
}

/// What the dialog asks for.
#[derive(Clone, Copy, Debug, PartialEq, Eq)]
pub enum ExportQrDialogOutput {
    /// Drop the dialog: it was cancelled.
    Cancel,
    /// Drop the dialog: it was closed.
    Close,
    /// Render the code of the account.
    ShowQrRequested(AccountId),
}

/// State of the dialog.
#[derive(Debug)]
pub struct ExportQrDialogState {
    /// The account.
    pub account_id: AccountId,
    /// The account when the dialog opened.
    pub account_summary: AccountSummary,
    /// Whether the warning is acknowledged.
    pub ack_revealed: bool,
    /// The code as a PNG image.
    pub staged_png: Option<WipedBytes>,
    /// The code as an SVG document.
    pub staged_svg: Option<WipedText>,
    /// Where the code is saved.
    pub save_target: Option<SaveTarget>,
    /// Whether there is a file at the destination.
    pub destination_exists: bool,
    /// Whether overwriting that file is acknowledged.
    pub overwrite_acknowledged: bool,
    /// Where the code was last saved.
    pub last_save_path: Option<FilePath>,
    /// Why the code was not rendered.
    pub show_qr_error: Option<String>,
}

impl ExportQrDialogState {
    /// A dialog that was just opened: nothing is acknowledged, nothing is
    /// rendered.
    pub fn new(init: ExportQrDialogInit) -> (r: Self)
        ensures
            r == (ExportQrDialogState {
                account_id: init.account_id,
                account_summary: init.account_summary,
                ack_revealed: false,
                staged_png: None,
                staged_svg: None,
                save_target: None,
                destination_exists: false,
                overwrite_acknowledged: false,
                last_save_path: None,
                show_qr_error: None,
            }),
    {
        ExportQrDialogState {
            account_id: init.account_id,
            account_summary: init.account_summary,
            ack_revealed: false,
            staged_png: None,
            staged_svg: None,
            save_target: None,
            destination_exists: false,
            overwrite_acknowledged: false,
            last_save_path: None,
            show_qr_error: None,
        }
    }

    /// Without the rendered code and what was picked for it.
    pub open spec fn without_code(self) -> Self {
        ExportQrDialogState {
            staged_png: None,
            staged_svg: None,
            save_target: None,
            destination_exists: false,
            overwrite_acknowledged: false,
            show_qr_error: None,
            ..self
        }
    }

    /// Whether no copy of the code is held.
    pub open spec fn holds_no_code(self) -> bool {
        self.staged_png is None && self.staged_svg is None
    }
}

/// Whether the button that shows the code is sensitive.
pub fn compose_show_qr_button_sensitive(state: &ExportQrDialogState) -> (r: bool)
    ensures
        r == state.ack_revealed,
{
    state.ack_revealed
}

/// Name of the page shown: the code's once it is rendered.
pub open spec fn visible_page(s: ExportQrDialogState) -> Seq<char> {
    if s.staged_png is Some {
        VIEW_STACK_QR_PAGE_NAME@
    } else {
        VIEW_STACK_WARNING_PAGE_NAME@
    }
}

/// Name of the page shown.
pub fn compose_visible_child_name(state: &ExportQrDialogState) -> (r: &'static str)
    ensures
        r@ == visible_page(*state),
{
    if state.staged_png.is_some() {
        VIEW_STACK_QR_PAGE_NAME
    } else {
        VIEW_STACK_WARNING_PAGE_NAME
    }
}

/// Caption of the code.
pub fn compose_export_qr_caption_text(state: &ExportQrDialogState) -> (r: String)
    ensures
        r@ == labelled(optional_text(state.account_summary.issuer), state.account_summary.label@),
{
    summary_display_label(&state.account_summary)
}

/// Style class of the caption.
pub fn compose_export_qr_caption_style_class() -> (r: &'static str)
    ensures
        r@ == "title-3"@,
{
    CAPTION_STYLE_CLASS
}

/// Switches the acknowledgement. Switching it off drops the code.
pub fn apply_msg_ack_toggled(state: &mut ExportQrDialogState, active: bool)
    ensures
        *final(state) == qr_step(*old(state), ExportQrDialogMsg::AckToggled(active)).0,
{
    state.ack_revealed = active;
    if !active {
        drop_staged_buffers(state);
    }
}

/// Takes the result of rendering the code.
pub fn apply_msg_show_qr(
    state: &mut ExportQrDialogState,
    result: Result<WipedBytes, PaladinError>,
)
    ensures
        *final(state) == (match result {
            Ok(bytes) => qr_step(*old(state), ExportQrDialogMsg::ShowQrSucceeded(bytes)).0,
            Err(err) => qr_step(*old(state), ExportQrDialogMsg::ShowQrFailed(err.rendered)).0,
        }),
{
    match result {
        Ok(bytes) => apply_msg_show_qr_succeeded(state, bytes),
        Err(err) => apply_msg_show_qr_failed(state, render_show_qr_error_message(&err)),
    }
}

/// Takes the rendered code.
pub fn apply_msg_show_qr_succeeded(state: &mut ExportQrDialogState, bytes: WipedBytes)
    ensures
        *final(state) == qr_step(*old(state), ExportQrDialogMsg::ShowQrSucceeded(bytes)).0,
{
    state.staged_png = Some(bytes);
    state.show_qr_error = None;
}

/// Takes the reason why the code was not rendered.
pub fn apply_msg_show_qr_failed(state: &mut ExportQrDialogState, message: String)
    ensures
        *final(state) == qr_step(*old(state), ExportQrDialogMsg::ShowQrFailed(message)).0,
{
    state.show_qr_error = Some(message);
}

/// The reason why the code was not rendered, as text.
pub fn render_show_qr_error_message(error: &PaladinError) -> (r: String)
    ensures
        r == error.rendered,
{
    error.rendered.clone()
}

/// Title of the dialog.
pub fn format_export_qr_dialog_title() -> (r: &'static str)
    ensures
        r@ == "Show QR code"@,
{
    "Show QR code"
}

/// Caption of the button that shows the code.
pub fn format_export_qr_dialog_show_qr_button_label() -> (r: &'static str)
    ensures
        r@ == "Show QR"@,
{
    "Show QR"
}

/// Caption of the button that saves a PNG image.
pub fn format_export_qr_dialog_save_as_png_label() -> (r: &'static str)
    ensures
        r@ == "Save as PNG\u{2026}"@,
{
    "Save as PNG\u{2026}"
}

/// Caption of the button that saves an SVG document.
pub fn format_export_qr_dialog_save_as_svg_label() -> (r: &'static str)
    ensures
        r@ == "Save as SVG\u{2026}"@,
{
    "Save as SVG\u{2026}"
}

/// Caption of the copy button.
pub fn format_export_qr_dialog_copy_image_label() -> (r: &'static str)
    ensures
        r@ == "Copy image"@,
{
    "Copy image"
}

/// Caption of the button that closes the dialog.
pub fn format_export_qr_dialog_done_label() -> (r: &'static str)
    ensures
        r@ == "Done"@,
{
    "Done"
}

/// Text of the toast after a save; the path follows it.
pub fn format_export_qr_dialog_save_success_toast() -> (r: &'static str)
    ensures
        r@ == "QR saved to"@,
{
    "QR saved to"
}

/// Title of the acknowledgement row.
pub fn format_export_qr_dialog_ack_row_title() -> (r: &'static str)
    ensures
        r@ == "I understand \u{2014} show the QR"@,
{
    "I understand \u{2014} show the QR"
}

/// Subtitle of the acknowledgement row.
pub fn format_export_qr_dialog_ack_row_subtitle() -> (r: &'static str)
    ensures
        r@ == "Reveal the QR code only after reading the warning above."@,
{
    "Reveal the QR code only after reading the warning above."
}

/// Caption of the cancel button.
pub fn format_export_qr_dialog_cancel_label() -> (r: &'static str)
    ensures
        r@ == "Cancel"@,
{
    "Cancel"
}

fn drop_staged_buffers(state: &mut ExportQrDialogState)
    ensures
        *final(state) == old(state).without_code(),
{
    state.staged_png = None;
    state.staged_svg = None;
    state.save_target = None;
    state.destination_exists = false;
    state.overwrite_acknowledged = false;
    state.show_qr_error = None;
}

/// Drops the code when the vault locks.
pub fn clear_for_lock(state: &mut ExportQrDialogState)
    ensures
        *final(state) == old(state).without_code(),
{
    drop_staged_buffers(state);
}

/// The dialog after a message, and what it asks for.
pub open spec fn qr_step(s: ExportQrDialogState, msg: ExportQrDialogMsg) -> (
    ExportQrDialogState,
    Option<ExportQrDialogOutput>,
) {
    match msg {
        ExportQrDialogMsg::AckToggled(active) => (
            if active {
                ExportQrDialogState { ack_revealed: true, ..s }
            } else {
                ExportQrDialogState { ack_revealed: false, ..s.without_code() }
            },
            None,
        ),
        ExportQrDialogMsg::ShowQr => (s, None),
        ExportQrDialogMsg::ShowQrSucceeded(bytes) => (
            ExportQrDialogState { staged_png: Some(bytes), show_qr_error: None, ..s },
            None,
        ),
        ExportQrDialogMsg::ShowQrFailed(message) => (
            ExportQrDialogState { show_qr_error: Some(message), ..s },
            None,
        ),
        ExportQrDialogMsg::CancelPressed => (s.without_code(), Some(ExportQrDialogOutput::Cancel)),
        ExportQrDialogMsg::Close => (s.without_code(), Some(ExportQrDialogOutput::Close)),
    }
}

/// Applies a message to the dialog and returns what it asks for. A request to
/// show the code is left to `update`.
pub fn apply_msg(state: &mut ExportQrDialogState, msg: ExportQrDialogMsg) -> (r: Option<
    ExportQrDialogOutput,
>)
    ensures
        (*final(state), r) == qr_step(*old(state), msg),
{
    match msg {
        ExportQrDialogMsg::AckToggled(active) => {
            apply_msg_ack_toggled(state, active);
            None
        },
        ExportQrDialogMsg::ShowQr => None,
        ExportQrDialogMsg::ShowQrSucceeded(bytes) => {
            apply_msg_show_qr_succeeded(state, bytes);
            None
        },
        ExportQrDialogMsg::ShowQrFailed(message) => {
            apply_msg_show_qr_failed(state, message);
            None
        },
        ExportQrDialogMsg::CancelPressed => {
            drop_staged_buffers(state);
            Some(ExportQrDialogOutput::Cancel)
        },
        ExportQrDialogMsg::Close => {
            drop_staged_buffers(state);
            Some(ExportQrDialogOutput::Close)
        },
    }
}

/// What the dialog asks for after a message.
pub open spec fn qr_request(s: ExportQrDialogState, msg: ExportQrDialogMsg) -> Option<
    ExportQrDialogOutput,
> {
    if msg is ShowQr {
        Some(ExportQrDialogOutput::ShowQrRequested(s.account_id))
    } else {
        qr_step(s, msg).1
    }
}

/// Applies a message to the dialog and returns what it asks for, a request to
/// show the code among them.
pub fn update(state: &mut ExportQrDialogState, msg: ExportQrDialogMsg) -> (r: Option<
    ExportQrDialogOutput,
>)
    ensures
        *final(state) == qr_step(*old(state), msg).0,
        r == qr_request(*old(state), msg),
{
    let request = if matches!(msg, ExportQrDialogMsg::ShowQr) {
        Some(ExportQrDialogOutput::ShowQrRequested(state.account_id))
    } else {
        None
    };
    match apply_msg(state, msg) {
        Some(output) => Some(output),
        None => request,
    }
}

/// What to open the dialog with for an account; nothing where the account is
/// gone.
pub fn decide_export_qr_target(summaries: &[AccountSummary], id: AccountId) -> (r: Option<
    ExportQrDialogInit,
>)
    ensures
        match summary_position(summaries@, id) {
            Some(k) => r == Some(
                ExportQrDialogInit { account_id: id, account_summary: summaries@[k] },
            ),
            None => r is None,
        },
{
    match find_summary(summaries, id) {
        Some(summary) => Some(
            ExportQrDialogInit { account_id: summary.id, account_summary: summary.clone() },
        ),
        None => None,
    }
}

/// Switching the acknowledgement on renders nothing and asks for nothing; a
/// code is asked for by a press of the button alone.
pub proof fn code_is_shown_on_request_alone(s: ExportQrDialogState, msg: ExportQrDialogMsg)
    ensures
        qr_request(s, ExportQrDialogMsg::AckToggled(true)) is None,
        qr_step(s, ExportQrDialogMsg::AckToggled(true)).0.staged_png == s.staged_png,
        qr_request(s, msg) is Some && qr_request(s, msg)->0 is ShowQrRequested ==> msg is ShowQr,
        s.holds_no_code() && !qr_step(s, msg).0.holds_no_code() ==> msg is ShowQrSucceeded,
{
}

/// Taking the acknowledgement back, cancelling, closing and locking leave no
/// copy of the code and show the warning page.
pub proof fn dismissal_leaves_no_code(s: ExportQrDialogState)
    ensures
        ({
            let off = qr_step(s, ExportQrDialogMsg::AckToggled(false)).0;
            off.holds_no_code() && visible_page(off) == VIEW_STACK_WARNING_PAGE_NAME@
        }),
        ({
            let cancelled = qr_step(s, ExportQrDialogMsg::CancelPressed).0;
            cancelled.holds_no_code() && visible_page(cancelled) == VIEW_STACK_WARNING_PAGE_NAME@
        }),
        ({
            let closed = qr_step(s, ExportQrDialogMsg::Close).0;
            closed.holds_no_code() && visible_page(closed) == VIEW_STACK_WARNING_PAGE_NAME@
        }),
        s.without_code().holds_no_code(),
        s.without_code().without_code() == s.without_code(),
{
}

/// A code that could not be rendered keeps the page that is shown and says
/// why; one that was rendered is shown, without an old reason.
pub proof fn render_result_is_shown(
    s: ExportQrDialogState,
    bytes: WipedBytes,
    message: String,
)
    ensures
        ({
            let failed = qr_step(s, ExportQrDialogMsg::ShowQrFailed(message)).0;
            visible_page(failed) == visible_page(s) && failed.show_qr_error == Some(message)
        }),
        ({
            let shown = qr_step(s, ExportQrDialogMsg::ShowQrSucceeded(bytes)).0;
            &&& visible_page(shown) == VIEW_STACK_QR_PAGE_NAME@
            &&& shown.show_qr_error is None
            &&& shown.staged_png == Some(bytes)
        }),
{
}

/// No message turns the dialog to another account.
pub proof fn target_never_changes(s: ExportQrDialogState, msg: ExportQrDialogMsg)
    ensures
        qr_step(s, msg).0.account_id == s.account_id,
        qr_step(s, msg).0.account_summary == s.account_summary,
{
}

/// A press of the button asks for the code of the account that the dialog was
/// opened for. The acknowledgement is what it was last switched to. Both leave
/// everything else as it is, unless the acknowledgement is taken back.
pub proof fn press_asks_for_the_account(s: ExportQrDialogState, active: bool)
    ensures
        qr_request(s, ExportQrDialogMsg::ShowQr) == Some(
            ExportQrDialogOutput::ShowQrRequested(s.account_id),
        ),
        qr_step(s, ExportQrDialogMsg::ShowQr).0 == s,
        qr_step(s, ExportQrDialogMsg::AckToggled(active)).0.ack_revealed == active,
        qr_step(s, ExportQrDialogMsg::AckToggled(true)).0 == (ExportQrDialogState {
            ack_revealed: true,
            ..s
        }),
        qr_request(s, ExportQrDialogMsg::AckToggled(active)) is None,
        qr_request(s, ExportQrDialogMsg::CancelPressed) == Some(ExportQrDialogOutput::Cancel),
        qr_request(s, ExportQrDialogMsg::Close) == Some(ExportQrDialogOutput::Close),
{
}

/// The page with the code is shown once there is a code, and the warning page
/// until then.
pub proof fn page_follows_the_code(s: ExportQrDialogState)
    ensures
        s.staged_png is Some ==> visible_page(s) == "qr"@,
        s.staged_png is None ==> visible_page(s) == "warning"@,
{
}

/// A rendered code and a reason why there is none change nothing but what they
/// speak of, and ask for nothing.
pub proof fn render_result_touches_nothing_else(
    s: ExportQrDialogState,
    bytes: WipedBytes,
    message: String,
)
    ensures
        qr_step(s, ExportQrDialogMsg::ShowQrSucceeded(bytes)).0 == (ExportQrDialogState {
            staged_png: Some(bytes),
            show_qr_error: None,
            ..s
        }),
        qr_step(s, ExportQrDialogMsg::ShowQrFailed(message)).0 == (ExportQrDialogState {
            show_qr_error: Some(message),
            ..s
        }),
        qr_request(s, ExportQrDialogMsg::ShowQrSucceeded(bytes)) is None,
        qr_request(s, ExportQrDialogMsg::ShowQrFailed(message)) is None,
{
}

/// Dropping the code drops every copy of it, what was picked for it and the
/// reason why there is none; the acknowledgement and the last save stay.
pub proof fn dropped_code_leaves_the_rest(s: ExportQrDialogState)
    ensures
        ({
            let dropped = s.without_code();
            &&& s.holds_no_code() <==> s.staged_png is None && s.staged_svg is None
            &&& dropped.staged_png is None && dropped.staged_svg is None
            &&& dropped.save_target is None && dropped.show_qr_error is None
            &&& !dropped.destination_exists && !dropped.overwrite_acknowledged
            &&& dropped.ack_revealed == s.ack_revealed
            &&& dropped.last_save_path == s.last_save_path
            &&& dropped.account_id == s.account_id
            &&& dropped.account_summary == s.account_summary
            &&& qr_step(s, ExportQrDialogMsg::CancelPressed).0 == dropped
            &&& qr_step(s, ExportQrDialogMsg::Close).0 == dropped
            &&& qr_step(s, ExportQrDialogMsg::AckToggled(false)).0 == (ExportQrDialogState {
                ack_revealed: false,
                ..dropped
            })
        }),
{
}

} // verus!
