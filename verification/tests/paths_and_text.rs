use paladin_gtk::account::AccountId;
use paladin_gtk::account::AccountKindSummary;
use paladin_gtk::account::AccountSummary;
use paladin_gtk::account::find_summary;
use paladin_gtk::account_row::summary_display_label;
use paladin_gtk::icon_resolution::resolve_display_icon;
use paladin_gtk::icon_resolution::PLACEHOLDER_ICON_NAME;
use paladin_gtk::paths::FilePath;
use paladin_gtk::text::compare_text;
use paladin_gtk::text::decimal_text;
use paladin_gtk::text::eq_ignore_ascii_case;
use paladin_gtk::text::trim;
use paladin_gtk::wiping::Passphrase;
use paladin_gtk::wiping::WipedBytes;
use paladin_gtk::wiping::WipedText;
use std::cmp::Ordering;

fn path(text: &str) -> FilePath {
    FilePath { bytes: text.as_bytes().to_vec() }
}

#[test]
fn paths_compare_by_components() {
    assert!(path("/a/b").same_as(&path("/a//b/")));
    assert!(path("/a/./b").same_as(&path("/a/b")));
    assert!(!path("a/b").same_as(&path("/a/b")));
    assert!(!path("/a/b").same_as(&path("/a/c")));
    assert!(!path("a/../b").same_as(&path("b")));
    assert_eq!(path("/a/b"), path("/a//b/"));
    assert_ne!(path("/a/b"), path("a/b"));
}

#[test]
fn paths_agree_with_std() {
    let samples = ["", ".", "./a", "a", "a/", "a//b", "a/./b", "/", "//", "/.", "/a/.", "..", "a/.."];
    for x in samples {
        for y in samples {
            assert_eq!(
                path(x).same_as(&path(y)),
                std::path::Path::new(x) == std::path::Path::new(y),
                "{x:?} {y:?}"
            );
        }
    }
}

#[test]
fn file_names_and_parents_agree_with_std() {
    let samples = [
        "", ".", "./", "./.", "./a", "a", "a/", "a//b", "a/./b", "/", "//", "/.", "/a", "//a", "/a/.",
        "..", "a/..", "../a", "/tmp/backup.json", "/tmp//x/", "ab/c", "/./a", ".hidden", "a/.b", "/a//b//c/",
    ];
    for x in samples {
        let std_path = std::path::Path::new(x);
        assert_eq!(
            path(x).file_name().map(|p| p.display()),
            std_path.file_name().map(|p| p.to_string_lossy().into_owned()),
            "{x:?}"
        );
        assert_eq!(
            path(x).parent().map(|p| p.display()),
            std_path.parent().map(|p| p.display().to_string()),
            "{x:?}"
        );
    }
}

#[test]
fn paths_are_shown_as_text() {
    assert_eq!(path("/a/\u{e9}").display(), "/a/\u{e9}");
    assert_eq!(FilePath { bytes: vec![b'a', 0xff, b'b'] }.display(), "a\u{fffd}b");
    assert_eq!(path("vault.bin").with_suffix(".bak").display(), "vault.bin.bak");
}

#[test]
fn wiped_values_hold_what_they_were_given() {
    let mut text = WipedText::new("secret".to_string());
    assert_eq!(text.as_str(), "secret");
    text.wipe();
    assert_eq!(text.as_str(), "");
    assert_eq!(WipedBytes::new(vec![1, 2]).as_slice(), &[1, 2]);
    assert_eq!(WipedBytes::new(vec![1, 2]).clone(), WipedBytes::new(vec![1, 2]));
    assert!(!format!("{:?}", WipedText::new("hunter2".to_string())).contains("hunter2"));
    assert_eq!(Passphrase::new("pw").expose(), "pw");
    assert!(!format!("{:?}", Passphrase::new("hunter2")).contains("hunter2"));
}

#[test]
fn text_helpers_agree_with_std() {
    let samples = ["", " a ", "\u{2003}x\u{a0}", "\t\n", "a b", "\u{200b}z"];
    for s in samples {
        assert_eq!(trim(s), s.trim());
    }
    for n in [0u64, 7, 10, 4096, u64::MAX] {
        assert_eq!(decimal_text(n), n.to_string());
    }
    assert!(eq_ignore_ascii_case("None", "nONE"));
    assert!(!eq_ignore_ascii_case("\u{c9}", "\u{e9}"));
    let words = ["", "a", "ab", "b", "\u{e9}", "\u{1f600}", "Z"];
    for x in words {
        for y in words {
            assert_eq!(compare_text(x, y), x.cmp(y));
        }
    }
    assert_eq!(compare_text("a", "b"), Ordering::Less);
}

#[test]
fn empty_issuer_leaves_no_colon() {
    let mut summary = AccountSummary {
        id: AccountId { bits: 1 },
        label: "bob".to_string(),
        issuer: Some("Acme".to_string()),
        icon_hint: None,
        kind: AccountKindSummary::Totp,
    };
    assert_eq!(summary_display_label(&summary), "Acme:bob");
    summary.issuer = Some(String::new());
    assert_eq!(summary_display_label(&summary), "bob");
    summary.issuer = None;
    assert_eq!(summary_display_label(&summary), "bob");
    let list = [summary];
    assert!(find_summary(&list, AccountId { bits: 1 }).is_some());
    assert!(find_summary(&list, AccountId { bits: 2 }).is_none());
}

#[test]
fn theme_is_asked_for_named_icons_alone() {
    assert_eq!(resolve_display_icon(Some("acme"), |_| true), "acme");
    assert_eq!(resolve_display_icon(Some("acme"), |_| false), PLACEHOLDER_ICON_NAME);
    assert_eq!(
        resolve_display_icon(Some(" \t"), |_| panic!("no icon is named")),
        PLACEHOLDER_ICON_NAME
    );
    assert_eq!(
        resolve_display_icon(None, |_| panic!("no icon is named")),
        PLACEHOLDER_ICON_NAME
    );
}
