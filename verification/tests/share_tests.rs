use package_report::decode::decode;
use package_report::format::format_main;
use package_report::model::{
    AudioPart, FilePart, GameEntry, PackageDocument, ReleaseSection, VersionBundle,
};
use package_report::report::{build_reports, clipboard_text, extract_current_version};
use package_report::share::derive_share_message;

const HINT: &str = "You will also need the audio pack for your region.\n";

fn round_trip_document() -> PackageDocument {
    let major = VersionBundle {
        version: "5.0".to_string(),
        game_pkgs: vec![FilePart {
            url: "http://x/a".to_string(),
            checksum: "aa".to_string(),
            size: "1073741824".to_string(),
            decompressed_size: "2147483648".to_string(),
        }],
        audio_pkgs: vec![AudioPart {
            language: "en-us".to_string(),
            url: "http://x/b".to_string(),
            checksum: "bb".to_string(),
            size: "536870912".to_string(),
            decompressed_size: "536870912".to_string(),
        }],
    };
    PackageDocument {
        entries: vec![GameEntry {
            id: "g1".to_string(),
            biz: "hk4e".to_string(),
            main: ReleaseSection { major: Some(major), patches: Vec::new(), res_list_url: None },
            pre_download: None,
        }],
    }
}

#[test]
fn round_trip_share_message() {
    let doc = round_trip_document();
    let report = format_main(&doc);
    let message = derive_share_message(&report);
    assert!(message.contains("Part 1 (1.00GB):\nhttp://x/a"));
    assert!(message.contains("English - If anything else (0.50GB):\nhttp://x/b"));
}

#[test]
fn share_message_language_wording() {
    let text = "Game Packages (Version 5.0):\n\
     Audio Packages:\n\
     [Language] Chinese\n[URL] http://x/zh\n[Size] 9.00GB\n\n\
     [Language] fr-fr\n[URL] http://x/fr\n[Size] 1.00GB\n\n\
     [Language] Korean\n[URL] http://x/ko\n[Size] 2.00GB\n\n";
    let message = derive_share_message(text);
    assert!(message.contains("China (9.00GB):\nhttp://x/zh"));
    assert!(message.contains("fr-fr (1.00GB):\nhttp://x/fr"));
    assert!(message.contains("Korean (2.00GB):\nhttp://x/ko"));
}

#[test]
fn share_message_without_markers_is_hint_only() {
    assert_eq!(derive_share_message(""), HINT);
    assert_eq!(derive_share_message("No major version data available.\n"), HINT);
}

#[test]
fn share_message_ignores_part_lines_outside_game_region() {
    let text = "[Part 1]\n[URL] http://early\n[Size] 1.00GB\n\
     Audio Packages:\n\
     [Part 2]\n[URL] http://wrong-region\n[Size] 2.00GB\n";
    let message = derive_share_message(text);
    assert_eq!(message, HINT);
}

#[test]
fn share_message_group_keeps_first_url_and_size() {
    let text = "Game Packages (Version 1):\n\
     [Part 7]\n[URL] http://first\n[URL] http://second\n[Size] 3.00GB\n[Size] 4.00GB\n";
    let message = derive_share_message(text);
    assert_eq!(message, format!("Part 7 (3.00GB):\nhttp://first\n{}", HINT));
}

#[test]
fn build_reports_round_trip() {
    let doc = round_trip_document();
    let reports = build_reports(&doc);
    assert!(reports.main.starts_with("Game Packages (Version 5.0):\n"));
    assert!(reports.share.contains("Part 1 (1.00GB):\nhttp://x/a"));
    assert_eq!(reports.pre_download_main, "");
    assert_eq!(reports.pre_download_patches, "");
}

#[test]
fn build_reports_with_pre_download_section() {
    let raw = "{\"retcode\":0,\"message\":\"OK\",\"data\":{\"game_packages\":[\
     {\"game\":{\"id\":\"g\",\"biz\":\"b\"},\
     \"main\":{\"patches\":[]},\
     \"pre_download\":{\"major\":{\"version\":\"5.1\",\"game_pkgs\":[],\"audio_pkgs\":[]},\
     \"patches\":[{\"version\":\"5.0.0\",\"game_pkgs\":[],\"audio_pkgs\":[]}]}}\
     ]}}";
    let doc = decode(raw).expect("decodes");
    let reports = build_reports(&doc);
    assert!(reports.pre_download_main.starts_with("Pre-download Game Packages (Version 5.1):\n"));
    assert!(reports.pre_download_patches.starts_with("Pre-download Patches:\n\n# Version 5.0\n"));
    assert!(reports.pre_download_patches.contains("Version: 5.0.0 to 5.1\n"));
}

#[test]
fn extract_current_version_reads_major_label() {
    let section = ReleaseSection {
        major: Some(VersionBundle {
            version: "5.1".to_string(),
            game_pkgs: Vec::new(),
            audio_pkgs: Vec::new(),
        }),
        patches: Vec::new(),
        res_list_url: None,
    };
    assert_eq!(extract_current_version(&section).as_deref(), Some("5.1"));
    let bare = ReleaseSection { major: None, patches: Vec::new(), res_list_url: None };
    assert!(extract_current_version(&bare).is_none());
}

#[test]
fn clipboard_text_prefers_nonempty_share_message() {
    assert_eq!(clipboard_text("share", "main"), "share");
    assert_eq!(clipboard_text("", "main"), "main");
}
