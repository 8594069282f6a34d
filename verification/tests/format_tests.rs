use package_report::format::{
    format_main, format_pre_download_main, format_pre_download_patches, trim_version_label,
};
use package_report::lang::map_language_code;
use package_report::model::{
    AudioPart, FilePart, GameEntry, PackageDocument, PatchBundle, ReleaseSection, VersionBundle,
};
use package_report::numeric::{gib_hundredths, parse_decimal_or_zero, size_text};

fn file_part(url: &str, size: &str, dsize: &str) -> FilePart {
    FilePart {
        url: url.to_string(),
        checksum: "aa".to_string(),
        size: size.to_string(),
        decompressed_size: dsize.to_string(),
    }
}

fn audio_part(lang: &str, url: &str, size: &str, dsize: &str) -> AudioPart {
    AudioPart {
        language: lang.to_string(),
        url: url.to_string(),
        checksum: "bb".to_string(),
        size: size.to_string(),
        decompressed_size: dsize.to_string(),
    }
}

fn entry_with_major(major: Option<VersionBundle>) -> GameEntry {
    GameEntry {
        id: "g1".to_string(),
        biz: "hk4e".to_string(),
        main: ReleaseSection { major, patches: Vec::new(), res_list_url: None },
        pre_download: None,
    }
}

#[test]
fn parse_decimal_or_zero_empty_is_zero() {
    assert_eq!(parse_decimal_or_zero(""), 0);
}

#[test]
fn parse_decimal_or_zero_garbage_is_zero() {
    assert_eq!(parse_decimal_or_zero("not a number"), 0);
    assert_eq!(parse_decimal_or_zero("12a"), 0);
    assert_eq!(parse_decimal_or_zero("-5"), 0);
    assert_eq!(parse_decimal_or_zero("1.5"), 0);
}

#[test]
fn parse_decimal_or_zero_reads_digits() {
    assert_eq!(parse_decimal_or_zero("1073741824"), 1073741824);
    assert_eq!(parse_decimal_or_zero("0"), 0);
}

#[test]
fn one_gib_renders_exactly() {
    assert_eq!(size_text("1073741824"), "1.00");
    assert_eq!(size_text("2147483648"), "2.00");
    assert_eq!(size_text("536870912"), "0.50");
}

#[test]
fn size_text_of_unparseable_is_zero() {
    assert_eq!(size_text(""), "0.00");
    assert_eq!(size_text("junk"), "0.00");
}

#[test]
fn size_conversion_monotonic_samples() {
    let samples = [
        "0",
        "999",
        "536870912",
        "1073741824",
        "1073741825",
        "999999999999",
        "18446744073709551615",
        "99999999999999999999999999",
    ];
    for w in samples.windows(2) {
        let a = gib_hundredths(parse_decimal_or_zero(w[0]));
        let b = gib_hundredths(parse_decimal_or_zero(w[1]));
        assert!(a <= b);
    }
}

#[test]
fn trim_version_label_strips_one_trailing_dot_zero() {
    assert_eq!(trim_version_label("5.0.0"), "5.0");
    assert_eq!(trim_version_label("5.0"), "5");
    assert_eq!(trim_version_label("5.1"), "5.1");
    assert_eq!(trim_version_label("5"), "5");
    assert_eq!(trim_version_label(""), "");
}

#[test]
fn language_table_maps_known_codes() {
    assert_eq!(map_language_code("zh-cn"), "Chinese");
    assert_eq!(map_language_code("en-us"), "English");
    assert_eq!(map_language_code("ja-jp"), "Japanese");
    assert_eq!(map_language_code("ko-kr"), "Korean");
}

#[test]
fn language_table_ignores_ascii_case() {
    assert_eq!(map_language_code("EN-US"), "English");
    assert_eq!(map_language_code("Zh-Cn"), "Chinese");
}

#[test]
fn unknown_language_code_passes_through() {
    assert_eq!(map_language_code("fr-fr"), "fr-fr");
    assert_eq!(map_language_code(""), "");
}

#[test]
fn format_main_numbers_parts_from_one() {
    let major = VersionBundle {
        version: "5.0".to_string(),
        game_pkgs: vec![
            file_part("http://x/1", "1073741824", "2147483648"),
            file_part("http://x/2", "536870912", "1073741824"),
            file_part("http://x/3", "0", "0"),
        ],
        audio_pkgs: Vec::new(),
    };
    let doc = PackageDocument { entries: vec![entry_with_major(Some(major))] };
    let out = format_main(&doc);
    let expected = "Game Packages (Version 5.0):\n\
     [Part 1]\n[URL] http://x/1\n[Size] 1.00GB\n[Decompressed Size] 2.00GB\n\n\
     [Part 2]\n[URL] http://x/2\n[Size] 0.50GB\n[Decompressed Size] 1.00GB\n\n\
     [Part 3]\n[URL] http://x/3\n[Size] 0.00GB\n[Decompressed Size] 0.00GB\n\n\
     Audio Packages:\n";
    assert_eq!(out, expected);
}

#[test]
fn format_main_without_major_emits_sentinel() {
    let doc = PackageDocument { entries: vec![entry_with_major(None)] };
    assert_eq!(format_main(&doc), "No major version data available.\n");
}

#[test]
fn format_main_unknown_language_label_unchanged() {
    let major = VersionBundle {
        version: "5.0".to_string(),
        game_pkgs: Vec::new(),
        audio_pkgs: vec![audio_part("fr-fr", "http://x/f", "1073741824", "1073741824")],
    };
    let doc = PackageDocument { entries: vec![entry_with_major(Some(major))] };
    let out = format_main(&doc);
    assert!(out.contains("[Language] fr-fr\n"));
}

#[test]
fn format_pre_download_main_renders_headers() {
    let section = ReleaseSection {
        major: Some(VersionBundle {
            version: "5.1".to_string(),
            game_pkgs: vec![file_part("http://x/p", "1073741824", "1073741824")],
            audio_pkgs: vec![audio_part("ko-kr", "http://x/k", "536870912", "536870912")],
        }),
        patches: Vec::new(),
        res_list_url: None,
    };
    let out = format_pre_download_main(&section);
    let expected = "Pre-download Game Packages (Version 5.1):\n\
     [Part 1]\n[URL] http://x/p\n[Size] 1.00GB\n[Decompressed Size] 1.00GB\n\n\
     Pre-download Audio Packages:\n\
     [Language] Korean\n[URL] http://x/k\n[Size] 0.50GB\n[Decompressed Size] 0.50GB\n\n";
    assert_eq!(out, expected);
}

#[test]
fn format_pre_download_main_without_major_emits_sentinel() {
    let section = ReleaseSection { major: None, patches: Vec::new(), res_list_url: None };
    assert_eq!(format_pre_download_main(&section), "No pre-download major version data available.");
}

#[test]
fn format_pre_download_patches_empty_is_empty_string() {
    let section = ReleaseSection { major: None, patches: Vec::new(), res_list_url: None };
    assert_eq!(format_pre_download_patches(&section, "5.1"), "");
}

#[test]
fn format_pre_download_patches_renders_blocks() {
    let section = ReleaseSection {
        major: None,
        patches: vec![PatchBundle {
            version: "5.0.0".to_string(),
            game_pkgs: vec![file_part("http://x/patch", "1073741824", "2147483648")],
            audio_pkgs: vec![audio_part("ja-jp", "http://x/aud", "536870912", "536870912")],
            res_list_url: None,
        }],
        res_list_url: None,
    };
    let out = format_pre_download_patches(&section, "5.1");
    let expected = "Pre-download Patches:\n\n\
     # Version 5.0\n\
     Version: 5.0.0 to 5.1\n\
     [Game Patch URL] http://x/patch\n[Size] 1.00GB\n[Decompressed Size] 2.00GB\n\n\
     [Audio Patch Language] Japanese\n[URL] http://x/aud\n[Size] 0.50GB\n\
     [Decompressed Size] 0.50GB\n\n";
    assert_eq!(out, expected);
}
