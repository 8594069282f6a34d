//! The three plain-text reports: main packages, pre-download packages and
//! pre-download patches. Each report is a pure function of the decoded
//! document, and its exact text is pinned by a spec-level template.

use vstd::prelude::*;
use crate::model::{
    AudioPart, AudioPartV, FilePart, FilePartV, GameEntryV, PackageDocument, PackageDocumentV,
    PatchBundleV, ReleaseSection, ReleaseSectionV,
};
use crate::numeric::{size_text, spec_size_text, spec_u64_string, push_u64};
use crate::lang::{map_language_code, spec_language_name};
use crate::strutil::{spec_ends_with, ends_with_str};

verus! {

/// The "[Size]" and "[Decompressed Size]" lines shared by every block.
pub open spec fn spec_size_lines(size: Seq<char>, dsize: Seq<char>) -> Seq<char> {
    "[Size] "@ + spec_size_text(size) + "GB\n"@ + "[Decompressed Size] "@ + spec_size_text(dsize)
        + "GB\n\n"@
}

/// One numbered game-file block of a main-style report.
pub open spec fn spec_part_block(p: FilePartV, n: int) -> Seq<char> {
    "[Part "@ + spec_u64_string(n) + "]\n"@ + "[URL] "@ + p.url + "\n"@ + spec_size_lines(
        p.size,
        p.decompressed_size,
    )
}

/// All game-file blocks, numbered 1-based in source order.
pub open spec fn spec_part_blocks(ps: Seq<FilePartV>) -> Seq<char>
    decreases ps.len(),
{
    if ps.len() == 0 {
        Seq::empty()
    } else {
        spec_part_blocks(ps.drop_last()) + spec_part_block(ps.last(), ps.len() as int)
    }
}

/// One audio-pack block of a main-style report.
pub open spec fn spec_audio_block(a: AudioPartV) -> Seq<char> {
    "[Language] "@ + spec_language_name(a.language) + "\n"@ + "[URL] "@ + a.url + "\n"@
        + spec_size_lines(a.size, a.decompressed_size)
}

/// All audio-pack blocks, in source order.
pub open spec fn spec_audio_blocks(s: Seq<AudioPartV>) -> Seq<char>
    decreases s.len(),
{
    if s.len() == 0 {
        Seq::empty()
    } else {
        spec_audio_blocks(s.drop_last()) + spec_audio_block(s.last())
    }
}

/// The main report's text for one game entry.
pub open spec fn spec_main_entry(e: GameEntryV) -> Seq<char> {
    match e.main.major {
        Some(m) => "Game Packages (Version "@ + m.version + "):\n"@ + spec_part_blocks(
            m.game_pkgs,
        ) + "Audio Packages:\n"@ + spec_audio_blocks(m.audio_pkgs),
        None => "No major version data available.\n"@,
    }
}

pub open spec fn spec_main_entries(es: Seq<GameEntryV>) -> Seq<char>
    decreases es.len(),
{
    if es.len() == 0 {
        Seq::empty()
    } else {
        spec_main_entries(es.drop_last()) + spec_main_entry(es.last())
    }
}

/// The whole main report.
pub open spec fn spec_format_main(d: PackageDocumentV) -> Seq<char> {
    spec_main_entries(d.entries)
}

/// The pre-download report: the same per-version rendering under pre-download
/// headers, or its own sentinel line when no version is announced.
pub open spec fn spec_format_pre_download_main(s: ReleaseSectionV) -> Seq<char> {
    match s.major {
        Some(m) => "Pre-download Game Packages (Version "@ + m.version + "):\n"@
            + spec_part_blocks(m.game_pkgs) + "Pre-download Audio Packages:\n"@
            + spec_audio_blocks(m.audio_pkgs),
        None => "No pre-download major version data available."@,
    }
}

/// A version label with a single trailing ".0" removed, when present.
pub open spec fn spec_trim_version_label(v: Seq<char>) -> Seq<char> {
    if spec_ends_with(v, ".0"@) {
        v.take(v.len() - 2)
    } else {
        v
    }
}

/// One game-file block of the patch report.
pub open spec fn spec_patch_file_block(p: FilePartV) -> Seq<char> {
    "[Game Patch URL] "@ + p.url + "\n"@ + spec_size_lines(p.size, p.decompressed_size)
}

pub open spec fn spec_patch_file_blocks(ps: Seq<FilePartV>) -> Seq<char>
    decreases ps.len(),
{
    if ps.len() == 0 {
        Seq::empty()
    } else {
        spec_patch_file_blocks(ps.drop_last()) + spec_patch_file_block(ps.last())
    }
}

/// One audio-pack block of the patch report.
pub open spec fn spec_patch_audio_block(a: AudioPartV) -> Seq<char> {
    "[Audio Patch Language] "@ + spec_language_name(a.language) + "\n"@ + "[URL] "@ + a.url + "\n"@
        + spec_size_lines(a.size, a.decompressed_size)
}

pub open spec fn spec_patch_audio_blocks(s: Seq<AudioPartV>) -> Seq<char>
    decreases s.len(),
{
    if s.len() == 0 {
        Seq::empty()
    } else {
        spec_patch_audio_blocks(s.drop_last()) + spec_patch_audio_block(s.last())
    }
}

/// The patch report's text for one patch bundle.
pub open spec fn spec_patch_block(p: PatchBundleV, cur: Seq<char>) -> Seq<char> {
    "# Version "@ + spec_trim_version_label(p.version) + "\n"@ + "Version: "@ + p.version + " to "@
        + cur + "\n"@ + spec_patch_file_blocks(p.game_pkgs) + spec_patch_audio_blocks(p.audio_pkgs)
}

pub open spec fn spec_patch_blocks(ps: Seq<PatchBundleV>, cur: Seq<char>) -> Seq<char>
    decreases ps.len(),
{
    if ps.len() == 0 {
        Seq::empty()
    } else {
        spec_patch_blocks(ps.drop_last(), cur) + spec_patch_block(ps.last(), cur)
    }
}

/// The whole patch report: empty exactly when the patch list is empty.
pub open spec fn spec_format_pre_download_patches(s: ReleaseSectionV, cur: Seq<char>) -> Seq<
    char,
> {
    if s.patches.len() == 0 {
        Seq::empty()
    } else {
        "Pre-download Patches:\n\n"@ + spec_patch_blocks(s.patches, cur)
    }
}

/// Removes a single trailing ".0" from a version label; any other label is
/// returned unchanged.
pub fn trim_version_label(v: &str) -> (r: String)
    ensures
        r@ == spec_trim_version_label(v@),
        spec_ends_with(v@, ".0"@) ==> r@ == v@.take(v@.len() - 2),
        !spec_ends_with(v@, ".0"@) ==> r@ == v@,
{
    if ends_with_str(v, ".0") {
        let n = v.unicode_len();
        proof {
            reveal_strlit(".0");
        }
        String::from_str(v.substring_char(0, n - 2))
    } else {
        String::from_str(v)
    }
}

fn push_size_lines(out: &mut String, size: &str, dsize: &str)
    ensures
        final(out)@ == old(out)@ + spec_size_lines(size@, dsize@),
{
    out.append("[Size] ");
    let t = size_text(size);
    out.append(t.as_str());
    out.append("GB\n");
    out.append("[Decompressed Size] ");
    let u = size_text(dsize);
    out.append(u.as_str());
    out.append("GB\n\n");
    proof {
        assert(out@ =~= old(out)@ + spec_size_lines(size@, dsize@));
    }
}

fn push_part_blocks(out: &mut String, parts: &Vec<FilePart>)
    ensures
        final(out)@ == old(out)@ + spec_part_blocks(parts@.map_values(|p: FilePart| p@)),
{
    let ghost ps = parts@.map_values(|p: FilePart| p@);
    let ghost base = out@;
    let mut i: usize = 0;
    proof {
        assert(ps.take(0) =~= Seq::<FilePartV>::empty());
    }
    while i < parts.len()
        invariant
            0 <= i <= parts@.len(),
            ps == parts@.map_values(|p: FilePart| p@),
            ps.len() == parts@.len(),
            out@ == base + spec_part_blocks(ps.take(i as int)),
        decreases parts@.len() - i,
    {
        let p = &parts[i];
        out.append("[Part ");
        push_u64(out, (i + 1) as u64);
        out.append("]\n");
        out.append("[URL] ");
        out.append(p.url.as_str());
        out.append("\n");
        push_size_lines(out, p.size.as_str(), p.decompressed_size.as_str());
        proof {
            assert(ps.take(i + 1).drop_last() =~= ps.take(i as int));
            assert(ps.take(i + 1).last() == ps[i as int]);
            assert(ps[i as int] == parts@[i as int]@);
            assert(out@ =~= base + spec_part_blocks(ps.take(i + 1)));
        }
        i += 1;
    }
    proof {
        assert(ps.take(ps.len() as int) =~= ps);
    }
}

fn push_audio_blocks(out: &mut String, parts: &Vec<AudioPart>)
    ensures
        final(out)@ == old(out)@ + spec_audio_blocks(parts@.map_values(|p: AudioPart| p@)),
{
    let ghost ps = parts@.map_values(|p: AudioPart| p@);
    let ghost base = out@;
    let mut i: usize = 0;
    proof {
        assert(ps.take(0) =~= Seq::<AudioPartV>::empty());
    }
    while i < parts.len()
        invariant
            0 <= i <= parts@.len(),
            ps == parts@.map_values(|p: AudioPart| p@),
            ps.len() == parts@.len(),
            out@ == base + spec_audio_blocks(ps.take(i as int)),
        decreases parts@.len() - i,
    {
        let p = &parts[i];
        out.append("[Language] ");
        let name = map_language_code(p.language.as_str());
        out.append(name.as_str());
        out.append("\n");
        out.append("[URL] ");
        out.append(p.url.as_str());
        out.append("\n");
        push_size_lines(out, p.size.as_str(), p.decompressed_size.as_str());
        proof {
            assert(ps.take(i + 1).drop_last() =~= ps.take(i as int));
            assert(ps.take(i + 1).last() == ps[i as int]);
            assert(ps[i as int] == parts@[i as int]@);
            assert(out@ =~= base + spec_audio_blocks(ps.take(i + 1)));
        }
        i += 1;
    }
    proof {
        assert(ps.take(ps.len() as int) =~= ps);
    }
}

fn push_patch_file_blocks(out: &mut String, parts: &Vec<FilePart>)
    ensures
        final(out)@ == old(out)@ + spec_patch_file_blocks(parts@.map_values(|p: FilePart| p@)),
{
    let ghost ps = parts@.map_values(|p: FilePart| p@);
    let ghost base = out@;
    let mut i: usize = 0;
    proof {
        assert(ps.take(0) =~= Seq::<FilePartV>::empty());
    }
    while i < parts.len()
        invariant
            0 <= i <= parts@.len(),
            ps == parts@.map_values(|p: FilePart| p@),
            ps.len() == parts@.len(),
            out@ == base + spec_patch_file_blocks(ps.take(i as int)),
        decreases parts@.len() - i,
    {
        let p = &parts[i];
        out.append("[Game Patch URL] ");
        out.append(p.url.as_str());
        out.append("\n");
        push_size_lines(out, p.size.as_str(), p.decompressed_size.as_str());
        proof {
            assert(ps.take(i + 1).drop_last() =~= ps.take(i as int));
            assert(ps.take(i + 1).last() == ps[i as int]);
            assert(ps[i as int] == parts@[i as int]@);
            assert(out@ =~= base + spec_patch_file_blocks(ps.take(i + 1)));
        }
        i += 1;
    }
    proof {
        assert(ps.take(ps.len() as int) =~= ps);
    }
}

fn push_patch_audio_blocks(out: &mut String, parts: &Vec<AudioPart>)
    ensures
        final(out)@ == old(out)@ + spec_patch_audio_blocks(parts@.map_values(|p: AudioPart| p@)),
{
    let ghost ps = parts@.map_values(|p: AudioPart| p@);
    let ghost base = out@;
    let mut i: usize = 0;
    proof {
        assert(ps.take(0) =~= Seq::<AudioPartV>::empty());
    }
    while i < parts.len()
        invariant
            0 <= i <= parts@.len(),
            ps == parts@.map_values(|p: AudioPart| p@),
            ps.len() == parts@.len(),
            out@ == base + spec_patch_audio_blocks(ps.take(i as int)),
        decreases parts@.len() - i,
    {
        let p = &parts[i];
        out.append("[Audio Patch Language] ");
        let name = map_language_code(p.language.as_str());
        out.append(name.as_str());
        out.append("\n");
        out.append("[URL] ");
        out.append(p.url.as_str());
        out.append("\n");
        push_size_lines(out, p.size.as_str(), p.decompressed_size.as_str());
        proof {
            assert(ps.take(i + 1).drop_last() =~= ps.take(i as int));
            assert(ps.take(i + 1).last() == ps[i as int]);
            assert(ps[i as int] == parts@[i as int]@);
            assert(out@ =~= base + spec_patch_audio_blocks(ps.take(i + 1)));
        }
        i += 1;
    }
    proof {
        assert(ps.take(ps.len() as int) =~= ps);
    }
}

/// Renders the main report: for each game entry, the versioned game-package
/// and audio-package blocks, or the sentinel line when no version is present.
pub fn format_main(doc: &PackageDocument) -> (r: String)
    ensures
        r@ == spec_format_main(doc@),
{
    let ghost es = doc@.entries;
    let mut out = String::new();
    let mut i: usize = 0;
    proof {
        assert(es.take(0) =~= Seq::<GameEntryV>::empty());
        assert(out@ + spec_main_entries(es.take(0)) =~= out@);
    }
    while i < doc.entries.len()
        invariant
            0 <= i <= doc.entries@.len(),
            es == doc@.entries,
            es.len() == doc.entries@.len(),
            out@ == spec_main_entries(es.take(i as int)),
        decreases doc.entries@.len() - i,
    {
        let e = &doc.entries[i];
        match &e.main.major {
            Some(m) => {
                out.append("Game Packages (Version ");
                out.append(m.version.as_str());
                out.append("):\n");
                push_part_blocks(&mut out, &m.game_pkgs);
                out.append("Audio Packages:\n");
                push_audio_blocks(&mut out, &m.audio_pkgs);
            },
            None => {
                out.append("No major version data available.\n");
            },
        }
        proof {
            assert(es.take(i + 1).drop_last() =~= es.take(i as int));
            assert(es.take(i + 1).last() == es[i as int]);
            assert(es[i as int] == doc.entries@[i as int]@);
            assert(out@ =~= spec_main_entries(es.take(i + 1)));
        }
        i += 1;
    }
    proof {
        assert(es.take(es.len() as int) =~= es);
    }
    out
}

/// Renders the pre-download report for one release section.
pub fn format_pre_download_main(section: &ReleaseSection) -> (r: String)
    ensures
        r@ == spec_format_pre_download_main(section@),
{
    let mut out = String::new();
    match &section.major {
        Some(m) => {
            out.append("Pre-download Game Packages (Version ");
            out.append(m.version.as_str());
            out.append("):\n");
            push_part_blocks(&mut out, &m.game_pkgs);
            out.append("Pre-download Audio Packages:\n");
            push_audio_blocks(&mut out, &m.audio_pkgs);
            proof {
                assert(out@ =~= spec_format_pre_download_main(section@));
            }
        },
        None => {
            out.append("No pre-download major version data available.");
            proof {
                assert(out@ =~= spec_format_pre_download_main(section@));
            }
        },
    }
    out
}

#[verifier::rlimit(50)]
fn push_patch_block(out: &mut String, p: &crate::model::PatchBundle, current_version: &str)
    ensures
        final(out)@ == old(out)@ + spec_patch_block(p@, current_version@),
{
    out.append("# Version ");
    let short = trim_version_label(p.version.as_str());
    out.append(short.as_str());
    out.append("\n");
    out.append("Version: ");
    out.append(p.version.as_str());
    out.append(" to ");
    out.append(current_version);
    out.append("\n");
    push_patch_file_blocks(out, &p.game_pkgs);
    push_patch_audio_blocks(out, &p.audio_pkgs);
    proof {
        assert(out@ =~= old(out)@ + spec_patch_block(p@, current_version@));
    }
}

/// Renders the patch report: the empty string when the section holds no
/// patches, else one heading and block group per patch in source order.
pub fn format_pre_download_patches(section: &ReleaseSection, current_version: &str) -> (r: String)
    ensures
        r@ == spec_format_pre_download_patches(section@, current_version@),
        section@.patches.len() == 0 ==> r@ == Seq::<char>::empty(),
{
    let mut out = String::new();
    if section.patches.len() == 0 {
        return out;
    }
    out.append("Pre-download Patches:\n\n");
    let ghost ps = section@.patches;
    let ghost base = out@;
    let mut i: usize = 0;
    proof {
        assert(ps.take(0) =~= Seq::<PatchBundleV>::empty());
        assert(base + spec_patch_blocks(ps.take(0), current_version@) =~= base);
    }
    while i < section.patches.len()
        invariant
            0 <= i <= section.patches@.len(),
            ps == section@.patches,
            ps.len() == section.patches@.len(),
            out@ == base + spec_patch_blocks(ps.take(i as int), current_version@),
        decreases section.patches@.len() - i,
    {
        let p = &section.patches[i];
        push_patch_block(&mut out, p, current_version);
        proof {
            assert(ps.take(i + 1).drop_last() =~= ps.take(i as int));
            assert(ps.take(i + 1).last() == ps[i as int]);
            assert(ps[i as int] == section.patches@[i as int]@);
            assert(out@ =~= base + spec_patch_blocks(ps.take(i + 1), current_version@));
        }
        i += 1;
    }
    proof {
        assert(ps.take(ps.len() as int) =~= ps);
    }
    out
}

/// What spec functions render as a text sequence, block by block.
pub open spec fn concat_texts(bs: Seq<Seq<char>>) -> Seq<char>
    decreases bs.len(),
{
    if bs.len() == 0 {
        Seq::empty()
    } else {
        concat_texts(bs.drop_last()) + bs.last()
    }
}

/// The main report renders exactly one "[Part N]" block for each game file,
/// with N running 1, 2, 3, ... in source order.
pub proof fn lemma_part_blocks_numbering(ps: Seq<FilePartV>)
    ensures
        spec_part_blocks(ps) == concat_texts(
            Seq::new(ps.len(), |i: int| spec_part_block(ps[i], i + 1)),
        ),
    decreases ps.len(),
{
    let blocks = Seq::new(ps.len(), |i: int| spec_part_block(ps[i], i + 1));
    if ps.len() > 0 {
        lemma_part_blocks_numbering(ps.drop_last());
        assert(blocks.drop_last() =~= Seq::new(
            ps.drop_last().len(),
            |i: int| spec_part_block(ps.drop_last()[i], i + 1),
        ));
        assert(blocks.last() == spec_part_block(ps.last(), ps.len() as int));
    } else {
        assert(blocks.len() == 0);
    }
}

} // verus!
