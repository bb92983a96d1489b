use paladin_gtk::qr_clipboard::allocate_rgba_buffer;
use paladin_gtk::qr_clipboard::compose_qr_decode_outcome;
use paladin_gtk::qr_clipboard::decode_clipboard_qr;
use paladin_gtk::qr_clipboard::prepare_rgba_layout;
use paladin_gtk::qr_clipboard::verify_download_layout;
use paladin_gtk::qr_clipboard::DownloadMismatch;
use paladin_gtk::qr_clipboard::QrDecodeOutcome;
use paladin_gtk::qr_clipboard::QrImportSummary;
use paladin_gtk::qr_clipboard::QrLayoutError;
use paladin_gtk::qr_clipboard::CLIPBOARD_QR_CONFLICT_POLICY;
use paladin_gtk::vault::ErrorKind;
use paladin_gtk::vault::ImportConflict;
use paladin_gtk::vault::ImportReport;
use paladin_gtk::vault::PaladinError;

#[test]
fn layout_has_four_bytes_per_pixel() {
    let layout = prepare_rgba_layout(3, 2, 1000).unwrap();
    assert_eq!((layout.width(), layout.height()), (3, 2));
    assert_eq!(layout.row_stride(), 12);
    assert_eq!(layout.buffer_bytes(), 24);
    assert_eq!(allocate_rgba_buffer(&layout), vec![0u8; 24]);
    assert_eq!(layout.max_bytes(), 1000);
    assert!(prepare_rgba_layout(3, 2, 24).is_ok());
    assert_eq!(prepare_rgba_layout(3, 2, 24), Ok(layout));
    assert_ne!(prepare_rgba_layout(2, 3, 24), Ok(layout));
}

#[test]
fn bad_layouts_are_refused() {
    assert_eq!(prepare_rgba_layout(0, 2, 1000), Err(QrLayoutError::ZeroDimensions));
    assert_eq!(prepare_rgba_layout(2, 0, 1000), Err(QrLayoutError::ZeroDimensions));
    assert_eq!(
        prepare_rgba_layout(3, 2, 23),
        Err(QrLayoutError::ImageTooLarge { requested_bytes: 24, max_bytes: 23 })
    );
    assert_eq!(
        prepare_rgba_layout(u32::MAX, u32::MAX, usize::MAX),
        Err(QrLayoutError::DimensionsOverflow)
    );
    assert_eq!(
        QrLayoutError::ImageTooLarge { requested_bytes: 24, max_bytes: 23 }.message(),
        "clipboard texture is too large (24 > 23 bytes)"
    );
}

#[test]
fn download_must_fit_the_layout() {
    let layout = prepare_rgba_layout(3, 2, 1000).unwrap();
    assert!(verify_download_layout(&layout, 24, 12).is_ok());
    let stride = verify_download_layout(&layout, 23, 16).unwrap_err();
    assert_eq!(stride, DownloadMismatch::RowStride { actual_stride: 16, expected_stride: 12 });
    assert_eq!(
        stride.message(),
        "clipboard texture download returned row stride 16, expected 12"
    );
    let length = verify_download_layout(&layout, 23, 12).unwrap_err();
    assert_eq!(length, DownloadMismatch::BufferLength { actual_bytes: 23, expected_bytes: 24 });
    assert_eq!(
        length.message(),
        "clipboard texture download returned 23 bytes, expected 24"
    );
}

#[test]
fn decoder_is_asked_for_fitting_buffers_alone() {
    let layout = prepare_rgba_layout(1, 1, 1000).unwrap();
    let seen = decode_clipboard_qr(&layout, &[1, 2, 3, 4], |w, h, px| {
        Ok(vec![(w, h, px.to_vec())])
    });
    assert_eq!(seen.unwrap(), vec![(1, 1, vec![1, 2, 3, 4])]);
    let decoded = compose_qr_decode_outcome(&layout, &[0; 4], 4, |_, _, _| Ok(vec!["x"]));
    assert!(matches!(decoded, QrDecodeOutcome::Decoded(ref v) if v == &vec!["x"]));
    let wrong = compose_qr_decode_outcome::<u8, _>(&layout, &[0; 3], 4, |_, _, _| {
        panic!("the buffer does not fit")
    });
    assert!(matches!(wrong, QrDecodeOutcome::DownloadMismatch(_)));
    let refused = compose_qr_decode_outcome::<u8, _>(&layout, &[0; 4], 4, |_, _, _| {
        Err(PaladinError { kind: ErrorKind::NoEntriesToImport, rendered: "none".to_string() })
    });
    assert!(matches!(refused, QrDecodeOutcome::DecodeError(ref e) if e.rendered == "none"));
}

#[test]
fn clipboard_summary_counts() {
    let report = ImportReport {
        imported: 2,
        skipped: 1,
        replaced: 0,
        appended: 0,
        warnings: vec!["w".to_string()],
    };
    assert_eq!(
        QrImportSummary::from_report(&report),
        QrImportSummary { imported: 2, skipped: 1, warnings: 1 }
    );
    assert_eq!(CLIPBOARD_QR_CONFLICT_POLICY, ImportConflict::Skip);
}
