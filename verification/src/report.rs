//! The per-fetch pipeline: from a decoded document to the three report texts
//! and the share message, and the choice of what a copy action takes.

use vstd::prelude::*;
use crate::format::{
    format_main, format_pre_download_main, format_pre_download_patches, spec_format_main,
    spec_format_pre_download_main, spec_format_pre_download_patches,
};
use crate::model::{PackageDocument, PackageDocumentV, ReleaseSection, ReleaseSectionV};
use crate::share::{derive_share_message, spec_derive_share_message};

verus! {

/// The pre-download section of the first game entry, when there is one.
pub open spec fn first_pre_download(d: PackageDocumentV) -> Option<ReleaseSectionV> {
    if d.entries.len() > 0 {
        d.entries[0].pre_download
    } else {
        None
    }
}

/// The version label that the patch report names as the current one.
pub open spec fn spec_current_version_label(sec: ReleaseSectionV) -> Seq<char> {
    match sec.major {
        Some(m) => m.version,
        None => "Unknown"@,
    }
}

/// The version label of a section's announced release.
pub fn extract_current_version(section: &ReleaseSection) -> (r: Option<String>)
    ensures
        match section@.major {
            Some(m) => r matches Some(v) && v@ == m.version,
            None => r is None,
        },
{
    match &section.major {
        Some(m) => Some(m.version.clone()),
        None => None,
    }
}

/// Everything one fetch publishes for display.
pub struct Reports {
    pub main: String,
    pub pre_download_main: String,
    pub pre_download_patches: String,
    pub share: String,
}

/// Builds all report texts for a decoded document: the main report, the share
/// message derived from the main report's text, and — when the first entry
/// announces a pre-download — the two pre-download reports.
pub fn build_reports(doc: &PackageDocument) -> (r: Reports)
    ensures
        r.main@ == spec_format_main(doc@),
        r.share@ == spec_derive_share_message(spec_format_main(doc@)),
        match first_pre_download(doc@) {
            Some(sec) => r.pre_download_main@ == spec_format_pre_download_main(sec)
                && r.pre_download_patches@ == spec_format_pre_download_patches(
                sec,
                spec_current_version_label(sec),
            ),
            None => r.pre_download_main@.len() == 0 && r.pre_download_patches@.len() == 0,
        },
{
    let main = format_main(doc);
    let share = derive_share_message(main.as_str());
    let mut pre_download_main = String::new();
    let mut pre_download_patches = String::new();
    if doc.entries.len() > 0 {
        match &doc.entries[0].pre_download {
            Some(sec) => {
                pre_download_main = format_pre_download_main(sec);
                let cur = match extract_current_version(sec) {
                    Some(v) => v,
                    None => String::from_str("Unknown"),
                };
                pre_download_patches = format_pre_download_patches(sec, cur.as_str());
            },
            None => {},
        }
    }
    Reports { main, pre_download_main, pre_download_patches, share }
}

/// What a copy action takes: the share message when it is non-empty, else
/// the raw main report.
pub fn clipboard_text(share: &str, main_text: &str) -> (r: String)
    ensures
        r@ == if share@.len() > 0 {
            share@
        } else {
            main_text@
        },
{
    if share.unicode_len() > 0 {
        String::from_str(share)
    } else {
        String::from_str(main_text)
    }
}

} // verus!
