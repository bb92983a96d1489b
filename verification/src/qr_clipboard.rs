//! Reading a QR code from a clipboard image: the layout of the pixel buffer,
//! checks before and after the download, and the counts shown afterwards.

use crate::text::decimal;
use crate::text::decimal_text;
use crate::vault::ImportConflict;
use crate::vault::ImportReport;
use crate::vault::PaladinError;
use vstd::prelude::*;
use vstd::std_specs::cmp::PartialEqSpec;
use vstd::string::StringExecFns;

verus! {

/// Clipboard additions keep an account that exists already.
pub const CLIPBOARD_QR_CONFLICT_POLICY: ImportConflict = ImportConflict::Skip;

/// Why a layout is refused before anything is allocated.
#[derive(Clone, Copy, Debug, PartialEq, Eq, Structural)]
pub enum QrLayoutError {
    /// Width or height is zero.
    ZeroDimensions,
    /// The number of bytes does not fit in a `usize`.
    DimensionsOverflow,
    /// The buffer would be too large.
    ImageTooLarge {
        /// Bytes that the buffer would take.
        requested_bytes: usize,
        /// Bytes that it may take.
        max_bytes: usize,
    },
}

/// The text of a layout error.
pub open spec fn layout_error_text(e: QrLayoutError) -> Seq<char> {
    match e {
        QrLayoutError::ZeroDimensions => "clipboard texture has zero width or height"@,
        QrLayoutError::DimensionsOverflow => "clipboard texture dimensions overflow usize"@,
        QrLayoutError::ImageTooLarge { requested_bytes, max_bytes } => {
            "clipboard texture is too large ("@ + decimal(requested_bytes as nat) + " > "@ + decimal(
                max_bytes as nat,
            ) + " bytes)"@
        },
    }
}

impl QrLayoutError {
    /// The text shown for the error.
    pub fn message(&self) -> (r: String)
        ensures
            r@ == layout_error_text(*self),
    {
        match self {
            QrLayoutError::ZeroDimensions => {
                "clipboard texture has zero width or height".to_owned()
            },
            QrLayoutError::DimensionsOverflow => {
                "clipboard texture dimensions overflow usize".to_owned()
            },
            QrLayoutError::ImageTooLarge { requested_bytes, max_bytes } => {
                let mut text = "clipboard texture is too large (".to_owned();
                text.append(decimal_text(*requested_bytes as u64).as_str());
                text.append(" > ");
                text.append(decimal_text(*max_bytes as u64).as_str());
                text.append(" bytes)");
                text
            },
        }
    }
}

/// Layout of a pixel buffer with four bytes for each pixel. A value of this
/// type has passed the size check: its buffer keeps within the limit.
#[derive(Clone, Copy, Debug, Eq)]
pub struct RgbaLayout {
    width: u32,
    height: u32,
    row_stride: usize,
    buffer_bytes: usize,
    max_bytes: usize,
}

impl PartialEq for RgbaLayout {
    fn eq(&self, other: &Self) -> (r: bool) {
        self.width == other.width && self.height == other.height
    }
}

impl vstd::std_specs::cmp::PartialEqSpecImpl for RgbaLayout {
    open spec fn obeys_eq_spec() -> bool {
        true
    }

    open spec fn eq_spec(&self, other: &Self) -> bool {
        self.pixel_width() == other.pixel_width() && self.pixel_height() == other.pixel_height()
    }
}

impl RgbaLayout {
    /// Width in pixels.
    pub closed spec fn pixel_width(self) -> u32 {
        self.width
    }

    /// Height in pixels.
    pub closed spec fn pixel_height(self) -> u32 {
        self.height
    }

    /// Number of bytes of a row.
    pub open spec fn bytes_per_row(self) -> int {
        self.pixel_width() * 4
    }

    /// Number of bytes of the buffer.
    pub open spec fn bytes(self) -> int {
        self.pixel_width() * self.pixel_height() * 4
    }

    /// Largest number of bytes that the buffer may have.
    pub closed spec fn limit(self) -> usize {
        self.max_bytes
    }

    #[verifier::type_invariant]
    spec fn is_exact(self) -> bool {
        &&& self.width > 0
        &&& self.height > 0
        &&& self.row_stride == self.bytes_per_row()
        &&& self.buffer_bytes == self.bytes()
        &&& self.bytes() <= self.limit()
    }

    /// Width in pixels.
    pub fn width(&self) -> (r: u32)
        ensures
            r == self.pixel_width(),
            r > 0,
    {
        proof {
            use_type_invariant(self);
        }
        self.width
    }

    /// Height in pixels.
    pub fn height(&self) -> (r: u32)
        ensures
            r == self.pixel_height(),
            r > 0,
    {
        proof {
            use_type_invariant(self);
        }
        self.height
    }

    /// Number of bytes of a row.
    pub fn row_stride(&self) -> (r: usize)
        ensures
            r == self.bytes_per_row(),
    {
        proof {
            use_type_invariant(self);
        }
        self.row_stride
    }

    /// Number of bytes of the buffer.
    pub fn buffer_bytes(&self) -> (r: usize)
        ensures
            r == self.bytes(),
            r <= self.limit(),
    {
        proof {
            use_type_invariant(self);
        }
        self.buffer_bytes
    }

    /// Largest number of bytes that the buffer may have.
    pub fn max_bytes(&self) -> (r: usize)
        ensures
            r == self.limit(),
            self.bytes() <= r,
    {
        proof {
            use_type_invariant(self);
        }
        self.max_bytes
    }
}

/// Computes the layout of a clipboard texture, refusing sizes that are zero,
/// do not fit, or exceed `max_bytes`.
pub fn prepare_rgba_layout(width: u32, height: u32, max_bytes: usize) -> (r: Result<
    RgbaLayout,
    QrLayoutError,
>)
    ensures
        match r {
            Ok(layout) => {
                &&& layout.pixel_width() == width
                &&& layout.pixel_height() == height
                &&& layout.limit() == max_bytes
                &&& width > 0
                &&& height > 0
                &&& width * height * 4 <= max_bytes
            },
            Err(QrLayoutError::ZeroDimensions) => width == 0 || height == 0,
            Err(QrLayoutError::DimensionsOverflow) => width > 0 && height > 0 && width * height * 4
                > usize::MAX,
            Err(QrLayoutError::ImageTooLarge { requested_bytes, max_bytes: limit }) => {
                &&& width > 0
                &&& height > 0
                &&& requested_bytes == width * height * 4
                &&& limit == max_bytes
                &&& requested_bytes > max_bytes
            },
        },
{
    if width == 0 || height == 0 {
        return Err(QrLayoutError::ZeroDimensions);
    }
    assert(width <= width * height) by (nonlinear_arith)
        requires
            height >= 1,
    ;
    let pixels: usize = match (width as usize).checked_mul(height as usize) {
        Some(pixels) => pixels,
        None => return Err(QrLayoutError::DimensionsOverflow),
    };
    let buffer_bytes: usize = match pixels.checked_mul(4) {
        Some(bytes) => bytes,
        None => return Err(QrLayoutError::DimensionsOverflow),
    };
    if buffer_bytes > max_bytes {
        return Err(QrLayoutError::ImageTooLarge { requested_bytes: buffer_bytes, max_bytes });
    }
    let row_stride: usize = (width as usize) * 4;
    Ok(RgbaLayout { width, height, row_stride, buffer_bytes, max_bytes })
}

/// Why a downloaded buffer does not fit the layout.
#[derive(Clone, Copy, Debug, PartialEq, Eq, Structural)]
pub enum DownloadMismatch {
    /// The buffer has another length.
    BufferLength {
        /// Length of the buffer.
        actual_bytes: usize,
        /// Length that the layout asks for.
        expected_bytes: usize,
    },
    /// The rows have another stride.
    RowStride {
        /// Stride of the rows.
        actual_stride: usize,
        /// Stride that the layout asks for.
        expected_stride: usize,
    },
}

/// The text of a mismatch.
pub open spec fn mismatch_text(m: DownloadMismatch) -> Seq<char> {
    match m {
        DownloadMismatch::BufferLength { actual_bytes, expected_bytes } => {
            "clipboard texture download returned "@ + decimal(actual_bytes as nat)
                + " bytes, expected "@ + decimal(expected_bytes as nat)
        },
        DownloadMismatch::RowStride { actual_stride, expected_stride } => {
            "clipboard texture download returned row stride "@ + decimal(actual_stride as nat)
                + ", expected "@ + decimal(expected_stride as nat)
        },
    }
}

impl DownloadMismatch {
    /// The text shown for the mismatch.
    pub fn message(&self) -> (r: String)
        ensures
            r@ == mismatch_text(*self),
    {
        match self {
            DownloadMismatch::BufferLength { actual_bytes, expected_bytes } => {
                let mut text = "clipboard texture download returned ".to_owned();
                text.append(decimal_text(*actual_bytes as u64).as_str());
                text.append(" bytes, expected ");
                text.append(decimal_text(*expected_bytes as u64).as_str());
                text
            },
            DownloadMismatch::RowStride { actual_stride, expected_stride } => {
                let mut text = "clipboard texture download returned row stride ".to_owned();
                text.append(decimal_text(*actual_stride as u64).as_str());
                text.append(", expected ");
                text.append(decimal_text(*expected_stride as u64).as_str());
                text
            },
        }
    }
}

/// What is wrong with a download, if anything; the stride is looked at first.
pub open spec fn download_mismatch(layout: RgbaLayout, bytes: int, stride: int) -> Option<
    DownloadMismatch,
> {
    if stride != layout.bytes_per_row() {
        Some(
            DownloadMismatch::RowStride {
                actual_stride: stride as usize,
                expected_stride: layout.bytes_per_row() as usize,
            },
        )
    } else if bytes != layout.bytes() {
        Some(
            DownloadMismatch::BufferLength {
                actual_bytes: bytes as usize,
                expected_bytes: layout.bytes() as usize,
            },
        )
    } else {
        None
    }
}

/// Checks the length and stride of a downloaded buffer.
pub fn verify_download_layout(
    layout: &RgbaLayout,
    downloaded_bytes: usize,
    downloaded_stride: usize,
) -> (r: Result<(), DownloadMismatch>)
    ensures
        match download_mismatch(*layout, downloaded_bytes as int, downloaded_stride as int) {
            Some(mismatch) => r == Err::<(), DownloadMismatch>(mismatch),
            None => r is Ok,
        },
{
    if downloaded_stride != layout.row_stride() {
        return Err(
            DownloadMismatch::RowStride {
                actual_stride: downloaded_stride,
                expected_stride: layout.row_stride(),
            },
        );
    }
    if downloaded_bytes != layout.buffer_bytes() {
        return Err(
            DownloadMismatch::BufferLength {
                actual_bytes: downloaded_bytes,
                expected_bytes: layout.buffer_bytes(),
            },
        );
    }
    Ok(())
}

/// A zeroed buffer of the layout's size.
pub fn allocate_rgba_buffer(layout: &RgbaLayout) -> (r: Vec<u8>)
    ensures
        r@ == Seq::new(layout.bytes() as nat, |i: int| 0u8),
        r@.len() <= layout.limit(),
{
    let n: usize = layout.buffer_bytes();
    let r: Vec<u8> = vec![0u8; n];
    assert(r@ =~= Seq::new(layout.bytes() as nat, |i: int| 0u8));
    r
}

/// Hands a buffer to the decoder together with the width and height of the
/// layout it was checked against.
pub fn decode_clipboard_qr<A, F: FnOnce(u32, u32, &[u8]) -> Result<Vec<A>, PaladinError>>(
    layout: &RgbaLayout,
    rgba: &[u8],
    decode: F,
) -> (r: Result<Vec<A>, PaladinError>)
    requires
        call_requires(decode, (layout.pixel_width(), layout.pixel_height(), rgba)),
    ensures
        call_ensures(decode, (layout.pixel_width(), layout.pixel_height(), rgba), r),
{
    decode(layout.width, layout.height, rgba)
}

/// Outcome of a clipboard QR read.
#[derive(Debug)]
pub enum QrDecodeOutcome<A> {
    /// The decoded accounts.
    Decoded(Vec<A>),
    /// The buffer did not fit the layout; the decoder was not asked.
    DownloadMismatch(DownloadMismatch),
    /// The decoder refused the buffer.
    DecodeError(PaladinError),
}

/// The outcome of a decoder's answer.
pub fn decoded_outcome<A>(answer: Result<Vec<A>, PaladinError>) -> (r: QrDecodeOutcome<A>)
    ensures
        r == (match answer {
            Ok(accounts) => QrDecodeOutcome::Decoded(accounts),
            Err(err) => QrDecodeOutcome::DecodeError(err),
        }),
{
    match answer {
        Ok(accounts) => QrDecodeOutcome::Decoded(accounts),
        Err(err) => QrDecodeOutcome::DecodeError(err),
    }
}

/// Checks a downloaded buffer and, where it fits the layout, decodes it. A
/// buffer that does not fit never reaches the decoder.
pub fn compose_qr_decode_outcome<
    A,
    F: FnOnce(u32, u32, &[u8]) -> Result<Vec<A>, PaladinError>,
>(layout: &RgbaLayout, rgba: &[u8], downloaded_stride: usize, decode: F) -> (r: QrDecodeOutcome<A>)
    requires
        download_mismatch(*layout, rgba@.len() as int, downloaded_stride as int) is None
            ==> call_requires(decode, (layout.pixel_width(), layout.pixel_height(), rgba)),
    ensures
        match download_mismatch(*layout, rgba@.len() as int, downloaded_stride as int) {
            Some(mismatch) => r == QrDecodeOutcome::<A>::DownloadMismatch(mismatch),
            None => exists|answer: Result<Vec<A>, PaladinError>|
                #[trigger] call_ensures(
                    decode,
                    (layout.pixel_width(), layout.pixel_height(), rgba),
                    answer,
                ) && r == (match answer {
                    Ok(accounts) => QrDecodeOutcome::Decoded(accounts),
                    Err(err) => QrDecodeOutcome::DecodeError(err),
                }),
        },
{
    match verify_download_layout(layout, rgba.len(), downloaded_stride) {
        Err(mismatch) => QrDecodeOutcome::DownloadMismatch(mismatch),
        Ok(()) => decoded_outcome(decode_clipboard_qr(layout, rgba, decode)),
    }
}

/// Counts shown after a clipboard addition.
#[derive(Clone, Copy, Debug, PartialEq, Eq, Structural)]
pub struct QrImportSummary {
    /// Accounts added.
    pub imported: usize,
    /// Accounts skipped.
    pub skipped: usize,
    /// Warnings.
    pub warnings: usize,
}

impl Default for QrImportSummary {
    fn default() -> (r: Self)
        ensures
            r == (QrImportSummary { imported: 0, skipped: 0, warnings: 0 }),
    {
        QrImportSummary { imported: 0, skipped: 0, warnings: 0 }
    }
}

impl QrImportSummary {
    /// The counts of a report.
    pub fn from_report(report: &ImportReport) -> (r: Self)
        ensures
            r.imported == report.imported,
            r.skipped == report.skipped,
            r.warnings == report.warnings@.len(),
    {
        QrImportSummary {
            imported: report.imported,
            skipped: report.skipped,
            warnings: report.warnings.len(),
        }
    }
}

/// A layout that was accepted fits a buffer of its own size and stride, and
/// only that.
pub proof fn accepted_layout_fits_itself(layout: RgbaLayout, bytes: int, stride: int)
    ensures
        download_mismatch(layout, bytes, stride) is None <==> (bytes == layout.bytes() && stride
            == layout.bytes_per_row()),
{
}

/// A pixel takes four bytes, and rows follow each other without a gap.
pub proof fn pixels_take_four_bytes(layout: RgbaLayout)
    ensures
        layout.bytes_per_row() == 4 * layout.pixel_width(),
        layout.bytes() == layout.bytes_per_row() * layout.pixel_height(),
{
    assert(layout.pixel_width() * layout.pixel_height() * 4 == layout.pixel_width() * 4
        * layout.pixel_height()) by (nonlinear_arith);
}

/// A refused download names what came and what was expected: the length of the
/// rows where that differs, else the length of the whole.
pub proof fn mismatch_names_both_sizes(layout: RgbaLayout, bytes: usize, stride: usize)
    requires
        layout.pixel_width() * layout.pixel_height() * 4 <= usize::MAX,
        layout.pixel_width() * 4 <= usize::MAX,
    ensures
        ({
            let width = layout.pixel_width();
            let found = download_mismatch(layout, bytes as int, stride as int);
            &&& stride != width * 4 ==> (found matches Some(
                DownloadMismatch::RowStride { actual_stride, expected_stride },
            ) && actual_stride == stride && expected_stride == width * 4)
            &&& stride == width * 4 && bytes != width * layout.pixel_height() * 4 ==> (
            found matches Some(DownloadMismatch::BufferLength { actual_bytes, expected_bytes })
                && actual_bytes == bytes && expected_bytes == width * layout.pixel_height() * 4)
            &&& stride == width * 4 && bytes == width * layout.pixel_height() * 4 ==> found is None
        }),
{
}

/// The words of each refusal, with its numbers.
pub proof fn refusals_have_their_words(a: usize, b: usize)
    ensures
        layout_error_text(QrLayoutError::ZeroDimensions)
            == "clipboard texture has zero width or height"@,
        layout_error_text(QrLayoutError::DimensionsOverflow)
            == "clipboard texture dimensions overflow usize"@,
        layout_error_text(QrLayoutError::ImageTooLarge { requested_bytes: a, max_bytes: b })
            == "clipboard texture is too large ("@ + decimal(a as nat) + " > "@ + decimal(b as nat)
            + " bytes)"@,
        mismatch_text(DownloadMismatch::BufferLength { actual_bytes: a, expected_bytes: b })
            == "clipboard texture download returned "@ + decimal(a as nat) + " bytes, expected "@
            + decimal(b as nat),
        mismatch_text(DownloadMismatch::RowStride { actual_stride: a, expected_stride: b })
            == "clipboard texture download returned row stride "@ + decimal(a as nat)
            + ", expected "@ + decimal(b as nat),
        CLIPBOARD_QR_CONFLICT_POLICY == ImportConflict::Skip,
{
}

/// Layouts are equal where width and height are.
pub proof fn equal_layouts_have_equal_sizes(a: RgbaLayout, b: RgbaLayout)
    ensures
        a.eq_spec(&b) <==> a.pixel_width() == b.pixel_width() && a.pixel_height()
            == b.pixel_height(),
{
}

} // verus!
