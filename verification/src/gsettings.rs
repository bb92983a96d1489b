//! Names of the per-user display preferences.

use vstd::prelude::*;

verus! {

/// Identifier of the settings schema.
pub const SCHEMA_ID: &'static str = "org.tamx.Paladin.Gui";

/// Whether rows are grouped by issuer under headings.
pub const SHOW_SECTION_HEADERS_KEY: &'static str = "show-section-headers";

/// Whether the list shows its column headers.
pub const SHOW_COLUMN_HEADERS_KEY: &'static str = "show-column-headers";

/// Whether the list shows the column of upcoming codes.
pub const SHOW_NEXT_CODE_COLUMN_KEY: &'static str = "show-next-code-column";

} // verus!
