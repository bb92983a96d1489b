//! Verified logic of the Paladin desktop front end.
//!
//! Every dialog, list and menu of the application is driven by the plain
//! state machines and projections in this crate. The widget layer hands
//! them plain values and applies what they return.

pub mod account;
pub mod account_row;
pub mod cells;
pub mod column_view;
pub mod destroy_dialog;
pub mod edit_dialog;
pub mod effect_ownership;
pub mod export_dialog;
pub mod export_qr_dialog;
pub mod gsettings;
pub mod hotp_reveal;
pub mod icon_resolution;
pub mod import_dialog;
pub mod init_dialog;
pub mod inline;
pub mod otpauth_uri_paste;
pub mod passphrase_dialog;
pub mod paths;
pub mod qr_clipboard;
pub mod remove_dialog;
pub mod rename_dialog;
pub mod row_context_menu;
pub mod row_item;
pub mod secret_fields;
pub mod settings;
pub mod text;
pub mod vault;
pub mod wiping;

use vstd::prelude::*;

verus! {

/// Stable application identifier.
pub const APP_ID: &'static str = "org.tamx.Paladin.Gui";

} // verus!
