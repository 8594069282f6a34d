//! The decoder: reads the vendor's JSON document into a `PackageDocument`.
//!
//! Every reader is schema-directed: known keys are read into typed fields,
//! unknown members are skipped, a second sighting of a known key is an error,
//! and a missing required field is an error. Spec-level twins pin down the
//! accepted texts and the decoded values; the executable readers are proved
//! to match them.

use vstd::prelude::*;
use crate::json::{
    parse_number, parse_string, skip_value, skip_ws, sp_number, sp_skip_value, sp_string, sp_ws,
};
use crate::model::{
    AudioPart, AudioPartV, FilePart, FilePartV, GameEntry, GameEntryV, PackageDocument,
    PackageDocumentV, PatchBundle, PatchBundleV, ReleaseSection, ReleaseSectionV, VersionBundle,
    VersionBundleV,
};
use crate::numeric::{decimal_value, is_decimal_digits};

verus! {

/// A string value, with leading whitespace.
pub open spec fn sp_string_field(s: Seq<char>, pos: int) -> Option<(Seq<char>, int)> {
    if 0 <= pos <= s.len() {
        sp_string(s, sp_ws(s, pos))
    } else {
        None
    }
}

fn parse_string_field(s: &Vec<char>, pos: usize) -> (r: Option<(String, usize)>)
    requires
        pos <= s@.len(),
    ensures
        match r {
            Some((v, np)) => sp_string_field(s@, pos as int) == Some((v@, np as int)) && pos < np
                <= s@.len(),
            None => sp_string_field(s@, pos as int) is None,
        },
{
    let p = skip_ws(s, pos);
    parse_string(s, p)
}

/// A string value or the literal `null`, with leading whitespace.
pub open spec fn sp_opt_string_field(s: Seq<char>, pos: int) -> Option<(Option<Seq<char>>, int)> {
    if 0 <= pos <= s.len() {
        let p = sp_ws(s, pos);
        if pos <= p && p + 4 <= s.len() && s[p] == 'n' && s[p + 1] == 'u' && s[p + 2] == 'l' && s[p
            + 3] == 'l' {
            Some((None, p + 4))
        } else {
            match sp_string(s, p) {
                Some(t) => Some((Some(t.0), t.1)),
                None => None,
            }
        }
    } else {
        None
    }
}

fn parse_opt_string_field(s: &Vec<char>, pos: usize) -> (r: Option<(Option<String>, usize)>)
    requires
        pos <= s@.len(),
    ensures
        match r {
            Some((v, np)) => sp_opt_string_field(s@, pos as int) == Some(
                (crate::model::opt_view(v), np as int),
            ) && pos < np <= s@.len(),
            None => sp_opt_string_field(s@, pos as int) is None,
        },
{
    let p = skip_ws(s, pos);
    if s.len() - p >= 4 && s[p] == 'n' && s[p + 1] == 'u' && s[p + 2] == 'l' && s[p + 3] == 'l' {
        Some((None, p + 4))
    } else {
        match parse_string(s, p) {
            Some((v, np)) => Some((Some(v), np)),
            None => None,
        }
    }
}

/// The fields of one downloadable part, as far as they have been seen.
pub struct PartRaw {
    pub language: Option<String>,
    pub url: Option<String>,
    pub checksum: Option<String>,
    pub size: Option<String>,
    pub decompressed_size: Option<String>,
}

pub struct PartRawV {
    pub language: Option<Seq<char>>,
    pub url: Option<Seq<char>>,
    pub checksum: Option<Seq<char>>,
    pub size: Option<Seq<char>>,
    pub decompressed_size: Option<Seq<char>>,
}

impl View for PartRaw {
    type V = PartRawV;

    open spec fn view(&self) -> PartRawV {
        PartRawV {
            language: crate::model::opt_view(self.language),
            url: crate::model::opt_view(self.url),
            checksum: crate::model::opt_view(self.checksum),
            size: crate::model::opt_view(self.size),
            decompressed_size: crate::model::opt_view(self.decompressed_size),
        }
    }
}

pub open spec fn empty_part_raw() -> PartRawV {
    PartRawV { language: None, url: None, checksum: None, size: None, decompressed_size: None }
}

/// Members of a part object. When `audio` holds, "language" is a known key;
/// otherwise it is skipped like any unknown member.
pub open spec fn sp_part_members(s: Seq<char>, pos: int, first: bool, audio: bool, raw: PartRawV) -> Option<(PartRawV, int)>
    decreases s.len() - pos,
    when 0 <= pos <= s.len()
{
    let p = sp_ws(s, pos);
    if first && pos <= p && p < s.len() && s[p] == '}' {
        Some((raw, p + 1))
    } else if pos <= p && p < s.len() && s[p] == '"' {
        match sp_string(s, p) {
            Some(kq) => if p < kq.1 && kq.1 <= s.len() {
                let r = sp_ws(s, kq.1);
                if kq.1 <= r && r < s.len() && s[r] == ':' {
                    let step: Option<(PartRawV, int)> = if kq.0 == "url"@ {
                        if raw.url is Some {
                            None
                        } else {
                            match sp_string_field(s, r + 1) {
                                Some(t) => Some(
                                    (PartRawV { url: Some(t.0), ..raw }, t.1),
                                ),
                                None => None,
                            }
                        }
                    } else if kq.0 == "md5"@ {
                        if raw.checksum is Some {
                            None
                        } else {
                            match sp_string_field(s, r + 1) {
                                Some(t) => Some(
                                    (PartRawV { checksum: Some(t.0), ..raw }, t.1),
                                ),
                                None => None,
                            }
                        }
                    } else if kq.0 == "size"@ {
                        if raw.size is Some {
                            None
                        } else {
                            match sp_string_field(s, r + 1) {
                                Some(t) => Some(
                                    (PartRawV { size: Some(t.0), ..raw }, t.1),
                                ),
                                None => None,
                            }
                        }
                    } else if kq.0 == "decompressed_size"@ {
                        if raw.decompressed_size is Some {
                            None
                        } else {
                            match sp_string_field(s, r + 1) {
                                Some(t) => Some(
                                    (PartRawV { decompressed_size: Some(t.0), ..raw }, t.1),
                                ),
                                None => None,
                            }
                        }
                    } else if audio && kq.0 == "language"@ {
                        if raw.language is Some {
                            None
                        } else {
                            match sp_string_field(s, r + 1) {
                                Some(t) => Some(
                                    (PartRawV { language: Some(t.0), ..raw }, t.1),
                                ),
                                None => None,
                            }
                        }
                    } else {
                        match sp_skip_value(s, r + 1) {
                            Some(v) => Some((raw, v)),
                            None => None,
                        }
                    };
                    match step {
                        Some(rv) => if pos < rv.1 && rv.1 <= s.len() {
                            let w = sp_ws(s, rv.1);
                            if rv.1 <= w && w < s.len() {
                                if s[w] == ',' {
                                    sp_part_members(s, w + 1, false, audio, rv.0)
                                } else if s[w] == '}' {
                                    Some((rv.0, w + 1))
                                } else {
                                    None
                                }
                            } else {
                                None
                            }
                        } else {
                            None
                        },
                        None => None,
                    }
                } else {
                    None
                }
            } else {
                None
            },
            None => None,
        }
    } else {
        None
    }
}

/// A part object, with leading whitespace.
pub open spec fn sp_part_obj(s: Seq<char>, pos: int, audio: bool) -> Option<(PartRawV, int)> {
    if 0 <= pos <= s.len() {
        let p = sp_ws(s, pos);
        if pos <= p && p < s.len() && s[p] == '{' {
            sp_part_members(s, p + 1, true, audio, empty_part_raw())
        } else {
            None
        }
    } else {
        None
    }
}

fn parse_part_members(s: &Vec<char>, pos: usize, first: bool, audio: bool, raw: PartRaw) -> (r:
    Option<(PartRaw, usize)>)
    requires
        pos <= s@.len(),
    ensures
        match r {
            Some((x, np)) => sp_part_members(s@, pos as int, first, audio, raw@) == Some(
                (x@, np as int),
            ) && pos < np <= s@.len(),
            None => sp_part_members(s@, pos as int, first, audio, raw@) is None,
        },
    decreases s@.len() - pos,
{
    let p = skip_ws(s, pos);
    if first && p < s.len() && s[p] == '}' {
        return Some((raw, p + 1));
    }
    if p < s.len() && s[p] == '"' {
        match parse_string(s, p) {
            Some((key, q)) => {
                let r2 = skip_ws(s, q);
                if r2 < s.len() && s[r2] == ':' {
                    let step: Option<(PartRaw, usize)> = if crate::strutil::str_eq(
                        key.as_str(),
                        "url",
                    ) {
                        if raw.url.is_some() {
                            None
                        } else {
                            match parse_string_field(s, r2 + 1) {
                                Some((t, v)) => Some((PartRaw { url: Some(t), ..raw }, v)),
                                None => None,
                            }
                        }
                    } else if crate::strutil::str_eq(key.as_str(), "md5") {
                        if raw.checksum.is_some() {
                            None
                        } else {
                            match parse_string_field(s, r2 + 1) {
                                Some((t, v)) => Some((PartRaw { checksum: Some(t), ..raw }, v)),
                                None => None,
                            }
                        }
                    } else if crate::strutil::str_eq(key.as_str(), "size") {
                        if raw.size.is_some() {
                            None
                        } else {
                            match parse_string_field(s, r2 + 1) {
                                Some((t, v)) => Some((PartRaw { size: Some(t), ..raw }, v)),
                                None => None,
                            }
                        }
                    } else if crate::strutil::str_eq(key.as_str(), "decompressed_size") {
                        if raw.decompressed_size.is_some() {
                            None
                        } else {
                            match parse_string_field(s, r2 + 1) {
                                Some((t, v)) => Some(
                                    (PartRaw { decompressed_size: Some(t), ..raw }, v),
                                ),
                                None => None,
                            }
                        }
                    } else if audio && crate::strutil::str_eq(key.as_str(), "language") {
                        if raw.language.is_some() {
                            None
                        } else {
                            match parse_string_field(s, r2 + 1) {
                                Some((t, v)) => Some((PartRaw { language: Some(t), ..raw }, v)),
                                None => None,
                            }
                        }
                    } else {
                        match skip_value(s, r2 + 1) {
                            Some(v) => Some((raw, v)),
                            None => None,
                        }
                    };
                    match step {
                        Some((rv, v)) => {
                            let w = skip_ws(s, v);
                            if w < s.len() {
                                if s[w] == ',' {
                                    parse_part_members(s, w + 1, false, audio, rv)
                                } else if s[w] == '}' {
                                    Some((rv, w + 1))
                                } else {
                                    None
                                }
                            } else {
                                None
                            }
                        },
                        None => None,
                    }
                } else {
                    None
                }
            },
            None => None,
        }
    } else {
        None
    }
}

fn parse_part_obj(s: &Vec<char>, pos: usize, audio: bool) -> (r: Option<(PartRaw, usize)>)
    requires
        pos <= s@.len(),
    ensures
        match r {
            Some((x, np)) => sp_part_obj(s@, pos as int, audio) == Some((x@, np as int)) && pos < np
                <= s@.len(),
            None => sp_part_obj(s@, pos as int, audio) is None,
        },
{
    let p = skip_ws(s, pos);
    if p < s.len() && s[p] == '{' {
        let raw = PartRaw {
            language: None,
            url: None,
            checksum: None,
            size: None,
            decompressed_size: None,
        };
        parse_part_members(s, p + 1, true, audio, raw)
    } else {
        None
    }
}

/// A complete game file: every required field present.
pub open spec fn file_part_of(raw: PartRawV) -> Option<FilePartV> {
    match (raw.url, raw.checksum, raw.size, raw.decompressed_size) {
        (Some(url), Some(checksum), Some(size), Some(dsize)) => Some(
            FilePartV { url, checksum, size, decompressed_size: dsize },
        ),
        _ => None,
    }
}

/// A complete audio pack: every required field present, language included.
pub open spec fn audio_part_of(raw: PartRawV) -> Option<AudioPartV> {
    match (raw.language, raw.url, raw.checksum, raw.size, raw.decompressed_size) {
        (Some(language), Some(url), Some(checksum), Some(size), Some(dsize)) => Some(
            AudioPartV { language, url, checksum, size, decompressed_size: dsize },
        ),
        _ => None,
    }
}

/// Elements of a game-file array, from after the bracket or a comma.
pub open spec fn sp_file_parts_elems(s: Seq<char>, pos: int, first: bool, acc: Seq<FilePartV>) -> Option<(Seq<FilePartV>, int)>
    decreases s.len() - pos,
    when 0 <= pos <= s.len()
{
    let p = sp_ws(s, pos);
    if first && pos <= p && p < s.len() && s[p] == ']' {
        Some((acc, p + 1))
    } else {
        match sp_part_obj(s, pos, false) {
            Some(xq) => if pos < xq.1 && xq.1 <= s.len() {
                match file_part_of(xq.0) {
                    Some(fp) => {
                        let w = sp_ws(s, xq.1);
                        if xq.1 <= w && w < s.len() {
                            if s[w] == ',' {
                                sp_file_parts_elems(s, w + 1, false, acc.push(fp))
                            } else if s[w] == ']' {
                                Some((acc.push(fp), w + 1))
                            } else {
                                None
                            }
                        } else {
                            None
                        }
                    },
                    None => None,
                }
            } else {
                None
            },
            None => None,
        }
    }
}

/// A game-file array, with leading whitespace.
pub open spec fn sp_file_parts(s: Seq<char>, pos: int) -> Option<(Seq<FilePartV>, int)> {
    if 0 <= pos <= s.len() {
        let p = sp_ws(s, pos);
        if pos <= p && p < s.len() && s[p] == '[' {
            sp_file_parts_elems(s, p + 1, true, Seq::<FilePartV>::empty())
        } else {
            None
        }
    } else {
        None
    }
}

/// Elements of an audio-pack array.
pub open spec fn sp_audio_parts_elems(s: Seq<char>, pos: int, first: bool, acc: Seq<AudioPartV>) -> Option<(Seq<AudioPartV>, int)>
    decreases s.len() - pos,
    when 0 <= pos <= s.len()
{
    let p = sp_ws(s, pos);
    if first && pos <= p && p < s.len() && s[p] == ']' {
        Some((acc, p + 1))
    } else {
        match sp_part_obj(s, pos, true) {
            Some(xq) => if pos < xq.1 && xq.1 <= s.len() {
                match audio_part_of(xq.0) {
                    Some(ap) => {
                        let w = sp_ws(s, xq.1);
                        if xq.1 <= w && w < s.len() {
                            if s[w] == ',' {
                                sp_audio_parts_elems(s, w + 1, false, acc.push(ap))
                            } else if s[w] == ']' {
                                Some((acc.push(ap), w + 1))
                            } else {
                                None
                            }
                        } else {
                            None
                        }
                    },
                    None => None,
                }
            } else {
                None
            },
            None => None,
        }
    }
}

/// An audio-pack array, with leading whitespace.
pub open spec fn sp_audio_parts(s: Seq<char>, pos: int) -> Option<(Seq<AudioPartV>, int)> {
    if 0 <= pos <= s.len() {
        let p = sp_ws(s, pos);
        if pos <= p && p < s.len() && s[p] == '[' {
            sp_audio_parts_elems(s, p + 1, true, Seq::<AudioPartV>::empty())
        } else {
            None
        }
    } else {
        None
    }
}

fn parse_file_parts_elems(s: &Vec<char>, pos: usize, first: bool, acc: Vec<FilePart>) -> (r:
    Option<(Vec<FilePart>, usize)>)
    requires
        pos <= s@.len(),
    ensures
        match r {
            Some((x, np)) => sp_file_parts_elems(
                s@,
                pos as int,
                first,
                acc@.map_values(|e: FilePart| e@),
            ) == Some((x@.map_values(|e: FilePart| e@), np as int)) && pos < np <= s@.len(),
            None => sp_file_parts_elems(
                s@,
                pos as int,
                first,
                acc@.map_values(|e: FilePart| e@),
            ) is None,
        },
    decreases s@.len() - pos,
{
    let p = skip_ws(s, pos);
    if first && p < s.len() && s[p] == ']' {
        return Some((acc, p + 1));
    }
    match parse_part_obj(s, pos, false) {
        Some((raw, q)) => {
            match (raw.url, raw.checksum, raw.size, raw.decompressed_size) {
                (Some(url), Some(checksum), Some(size), Some(dsize)) => {
                    let fp = FilePart { url, checksum, size, decompressed_size: dsize };
                    let mut acc = acc;
                    let ghost accv = acc@.map_values(|e: FilePart| e@);
                    acc.push(fp);
                    proof {
                        assert(acc@.map_values(|e: FilePart| e@) =~= accv.push(
                            acc@.last()@,
                        ));
                    }
                    let w = skip_ws(s, q);
                    if w < s.len() {
                        if s[w] == ',' {
                            parse_file_parts_elems(s, w + 1, false, acc)
                        } else if s[w] == ']' {
                            Some((acc, w + 1))
                        } else {
                            None
                        }
                    } else {
                        None
                    }
                },
                _ => None,
            }
        },
        None => None,
    }
}

fn parse_file_parts(s: &Vec<char>, pos: usize) -> (r: Option<(Vec<FilePart>, usize)>)
    requires
        pos <= s@.len(),
    ensures
        match r {
            Some((x, np)) => sp_file_parts(s@, pos as int) == Some(
                (x@.map_values(|e: FilePart| e@), np as int),
            ) && pos < np <= s@.len(),
            None => sp_file_parts(s@, pos as int) is None,
        },
{
    let p = skip_ws(s, pos);
    if p < s.len() && s[p] == '[' {
        let acc: Vec<FilePart> = Vec::new();
        proof {
            assert(acc@.map_values(|e: FilePart| e@) =~= Seq::<FilePartV>::empty());
        }
        parse_file_parts_elems(s, p + 1, true, acc)
    } else {
        None
    }
}

fn parse_audio_parts_elems(s: &Vec<char>, pos: usize, first: bool, acc: Vec<AudioPart>) -> (r:
    Option<(Vec<AudioPart>, usize)>)
    requires
        pos <= s@.len(),
    ensures
        match r {
            Some((x, np)) => sp_audio_parts_elems(
                s@,
                pos as int,
                first,
                acc@.map_values(|e: AudioPart| e@),
            ) == Some((x@.map_values(|e: AudioPart| e@), np as int)) && pos < np <= s@.len(),
            None => sp_audio_parts_elems(
                s@,
                pos as int,
                first,
                acc@.map_values(|e: AudioPart| e@),
            ) is None,
        },
    decreases s@.len() - pos,
{
    let p = skip_ws(s, pos);
    if first && p < s.len() && s[p] == ']' {
        return Some((acc, p + 1));
    }
    match parse_part_obj(s, pos, true) {
        Some((raw, q)) => {
            match (raw.language, raw.url, raw.checksum, raw.size, raw.decompressed_size) {
                (Some(language), Some(url), Some(checksum), Some(size), Some(dsize)) => {
                    let ap = AudioPart { language, url, checksum, size, decompressed_size: dsize };
                    let mut acc = acc;
                    let ghost accv = acc@.map_values(|e: AudioPart| e@);
                    acc.push(ap);
                    proof {
                        assert(acc@.map_values(|e: AudioPart| e@) =~= accv.push(
                            acc@.last()@,
                        ));
                    }
                    let w = skip_ws(s, q);
                    if w < s.len() {
                        if s[w] == ',' {
                            parse_audio_parts_elems(s, w + 1, false, acc)
                        } else if s[w] == ']' {
                            Some((acc, w + 1))
                        } else {
                            None
                        }
                    } else {
                        None
                    }
                },
                _ => None,
            }
        },
        None => None,
    }
}

fn parse_audio_parts(s: &Vec<char>, pos: usize) -> (r: Option<(Vec<AudioPart>, usize)>)
    requires
        pos <= s@.len(),
    ensures
        match r {
            Some((x, np)) => sp_audio_parts(s@, pos as int) == Some(
                (x@.map_values(|e: AudioPart| e@), np as int),
            ) && pos < np <= s@.len(),
            None => sp_audio_parts(s@, pos as int) is None,
        },
{
    let p = skip_ws(s, pos);
    if p < s.len() && s[p] == '[' {
        let acc: Vec<AudioPart> = Vec::new();
        proof {
            assert(acc@.map_values(|e: AudioPart| e@) =~= Seq::<AudioPartV>::empty());
        }
        parse_audio_parts_elems(s, p + 1, true, acc)
    } else {
        None
    }
}

/// The fields of one version or patch bundle, as far as they have been seen.
pub struct BundleRaw {
    pub version: Option<String>,
    pub game_pkgs: Option<Vec<FilePart>>,
    pub audio_pkgs: Option<Vec<AudioPart>>,
    pub res_list_url: Option<Option<String>>,
}

pub struct BundleRawV {
    pub version: Option<Seq<char>>,
    pub game_pkgs: Option<Seq<FilePartV>>,
    pub audio_pkgs: Option<Seq<AudioPartV>>,
    pub res_list_url: Option<Option<Seq<char>>>,
}

impl View for BundleRaw {
    type V = BundleRawV;

    open spec fn view(&self) -> BundleRawV {
        BundleRawV {
            version: crate::model::opt_view(self.version),
            game_pkgs: match self.game_pkgs {
                Some(v) => Some(v@.map_values(|e: FilePart| e@)),
                None => None,
            },
            audio_pkgs: match self.audio_pkgs {
                Some(v) => Some(v@.map_values(|e: AudioPart| e@)),
                None => None,
            },
            res_list_url: match self.res_list_url {
                Some(v) => Some(crate::model::opt_view(v)),
                None => None,
            },
        }
    }
}

pub open spec fn empty_bundle_raw() -> BundleRawV {
    BundleRawV { version: None, game_pkgs: None, audio_pkgs: None, res_list_url: None }
}

/// A complete patch bundle: version and both part lists present; a
/// base-resource URL that was never seen, or was null, decodes to `None`.
pub open spec fn patch_bundle_of(raw: BundleRawV) -> Option<PatchBundleV> {
    match (raw.version, raw.game_pkgs, raw.audio_pkgs) {
        (Some(version), Some(game_pkgs), Some(audio_pkgs)) => Some(
            PatchBundleV {
                version,
                game_pkgs,
                audio_pkgs,
                res_list_url: match raw.res_list_url {
                    Some(r) => r,
                    None => None,
                },
            },
        ),
        _ => None,
    }
}

/// A version bundle is a patch bundle without the base-resource URL.
pub open spec fn version_bundle_of(p: PatchBundleV) -> VersionBundleV {
    VersionBundleV { version: p.version, game_pkgs: p.game_pkgs, audio_pkgs: p.audio_pkgs }
}

/// Members of a bundle object.
pub open spec fn sp_bundle_members(s: Seq<char>, pos: int, first: bool, raw: BundleRawV) -> Option<
    (BundleRawV, int),
>
    decreases s.len() - pos,
    when 0 <= pos <= s.len()
{
    let p = sp_ws(s, pos);
    if first && pos <= p && p < s.len() && s[p] == '}' {
        Some((raw, p + 1))
    } else if pos <= p && p < s.len() && s[p] == '"' {
        match sp_string(s, p) {
            Some(kq) => if p < kq.1 && kq.1 <= s.len() {
                let r = sp_ws(s, kq.1);
                if kq.1 <= r && r < s.len() && s[r] == ':' {
                    let step: Option<(BundleRawV, int)> = if kq.0 == "version"@ {
                        if raw.version is Some {
                            None
                        } else {
                            match sp_string_field(s, r + 1) {
                                Some(t) => Some((BundleRawV { version: Some(t.0), ..raw }, t.1)),
                                None => None,
                            }
                        }
                    } else if kq.0 == "game_pkgs"@ {
                        if raw.game_pkgs is Some {
                            None
                        } else {
                            match sp_file_parts(s, r + 1) {
                                Some(t) => Some((BundleRawV { game_pkgs: Some(t.0), ..raw }, t.1)),
                                None => None,
                            }
                        }
                    } else if kq.0 == "audio_pkgs"@ {
                        if raw.audio_pkgs is Some {
                            None
                        } else {
                            match sp_audio_parts(s, r + 1) {
                                Some(t) => Some(
                                    (BundleRawV { audio_pkgs: Some(t.0), ..raw }, t.1),
                                ),
                                None => None,
                            }
                        }
                    } else if kq.0 == "res_list_url"@ {
                        if raw.res_list_url is Some {
                            None
                        } else {
                            match sp_opt_string_field(s, r + 1) {
                                Some(t) => Some(
                                    (BundleRawV { res_list_url: Some(t.0), ..raw }, t.1),
                                ),
                                None => None,
                            }
                        }
                    } else {
                        match sp_skip_value(s, r + 1) {
                            Some(v) => Some((raw, v)),
                            None => None,
                        }
                    };
                    match step {
                        Some(rv) => if pos < rv.1 && rv.1 <= s.len() {
                            let w = sp_ws(s, rv.1);
                            if rv.1 <= w && w < s.len() {
                                if s[w] == ',' {
                                    sp_bundle_members(s, w + 1, false, rv.0)
                                } else if s[w] == '}' {
                                    Some((rv.0, w + 1))
                                } else {
                                    None
                                }
                            } else {
                                None
                            }
                        } else {
                            None
                        },
                        None => None,
                    }
                } else {
                    None
                }
            } else {
                None
            },
            None => None,
        }
    } else {
        None
    }
}

/// A bundle object, with leading whitespace, as a complete patch bundle.
pub open spec fn sp_bundle_obj(s: Seq<char>, pos: int) -> Option<(PatchBundleV, int)> {
    if 0 <= pos <= s.len() {
        let p = sp_ws(s, pos);
        if pos <= p && p < s.len() && s[p] == '{' {
            match sp_bundle_members(s, p + 1, true, empty_bundle_raw()) {
                Some(rq) => match patch_bundle_of(rq.0) {
                    Some(b) => Some((b, rq.1)),
                    None => None,
                },
                None => None,
            }
        } else {
            None
        }
    } else {
        None
    }
}

fn parse_bundle_members(s: &Vec<char>, pos: usize, first: bool, raw: BundleRaw) -> (r: Option<
    (BundleRaw, usize),
>)
    requires
        pos <= s@.len(),
    ensures
        match r {
            Some((x, np)) => sp_bundle_members(s@, pos as int, first, raw@) == Some(
                (x@, np as int),
            ) && pos < np <= s@.len(),
            None => sp_bundle_members(s@, pos as int, first, raw@) is None,
        },
    decreases s@.len() - pos,
{
    let p = skip_ws(s, pos);
    if first && p < s.len() && s[p] == '}' {
        return Some((raw, p + 1));
    }
    if p < s.len() && s[p] == '"' {
        match parse_string(s, p) {
            Some((key, q)) => {
                let r2 = skip_ws(s, q);
                if r2 < s.len() && s[r2] == ':' {
                    let step: Option<(BundleRaw, usize)> = if crate::strutil::str_eq(
                        key.as_str(),
                        "version",
                    ) {
                        if raw.version.is_some() {
                            None
                        } else {
                            match parse_string_field(s, r2 + 1) {
                                Some((t, v)) => Some((BundleRaw { version: Some(t), ..raw }, v)),
                                None => None,
                            }
                        }
                    } else if crate::strutil::str_eq(key.as_str(), "game_pkgs") {
                        if raw.game_pkgs.is_some() {
                            None
                        } else {
                            match parse_file_parts(s, r2 + 1) {
                                Some((t, v)) => Some((BundleRaw { game_pkgs: Some(t), ..raw }, v)),
                                None => None,
                            }
                        }
                    } else if crate::strutil::str_eq(key.as_str(), "audio_pkgs") {
                        if raw.audio_pkgs.is_some() {
                            None
                        } else {
                            match parse_audio_parts(s, r2 + 1) {
                                Some((t, v)) => Some((BundleRaw { audio_pkgs: Some(t), ..raw }, v)),
                                None => None,
                            }
                        }
                    } else if crate::strutil::str_eq(key.as_str(), "res_list_url") {
                        if raw.res_list_url.is_some() {
                            None
                        } else {
                            match parse_opt_string_field(s, r2 + 1) {
                                Some((t, v)) => Some(
                                    (BundleRaw { res_list_url: Some(t), ..raw }, v),
                                ),
                                None => None,
                            }
                        }
                    } else {
                        match skip_value(s, r2 + 1) {
                            Some(v) => Some((raw, v)),
                            None => None,
                        }
                    };
                    match step {
                        Some((rv, v)) => {
                            let w = skip_ws(s, v);
                            if w < s.len() {
                                if s[w] == ',' {
                                    parse_bundle_members(s, w + 1, false, rv)
                                } else if s[w] == '}' {
                                    Some((rv, w + 1))
                                } else {
                                    None
                                }
                            } else {
                                None
                            }
                        },
                        None => None,
                    }
                } else {
                    None
                }
            },
            None => None,
        }
    } else {
        None
    }
}

fn parse_bundle_obj(s: &Vec<char>, pos: usize) -> (r: Option<(PatchBundle, usize)>)
    requires
        pos <= s@.len(),
    ensures
        match r {
            Some((x, np)) => sp_bundle_obj(s@, pos as int) == Some((x@, np as int)) && pos < np
                <= s@.len(),
            None => sp_bundle_obj(s@, pos as int) is None,
        },
{
    let p = skip_ws(s, pos);
    if p < s.len() && s[p] == '{' {
        let raw = BundleRaw { version: None, game_pkgs: None, audio_pkgs: None, res_list_url: None };
        match parse_bundle_members(s, p + 1, true, raw) {
            Some((rv, np)) => {
                match (rv.version, rv.game_pkgs, rv.audio_pkgs) {
                    (Some(version), Some(game_pkgs), Some(audio_pkgs)) => {
                        let res_list_url = match rv.res_list_url {
                            Some(r) => r,
                            None => None,
                        };
                        Some((PatchBundle { version, game_pkgs, audio_pkgs, res_list_url }, np))
                    },
                    _ => None,
                }
            },
            None => None,
        }
    } else {
        None
    }
}

/// Elements of the patches array.
pub open spec fn sp_patches_elems(s: Seq<char>, pos: int, first: bool, acc: Seq<PatchBundleV>) -> Option<(Seq<PatchBundleV>, int)>
    decreases s.len() - pos,
    when 0 <= pos <= s.len()
{
    let p = sp_ws(s, pos);
    if first && pos <= p && p < s.len() && s[p] == ']' {
        Some((acc, p + 1))
    } else {
        match sp_bundle_obj(s, pos) {
            Some(xq) => if pos < xq.1 && xq.1 <= s.len() {
                let w = sp_ws(s, xq.1);
                if xq.1 <= w && w < s.len() {
                    if s[w] == ',' {
                        sp_patches_elems(s, w + 1, false, acc.push(xq.0))
                    } else if s[w] == ']' {
                        Some((acc.push(xq.0), w + 1))
                    } else {
                        None
                    }
                } else {
                    None
                }
            } else {
                None
            },
            None => None,
        }
    }
}

/// The patches array, with leading whitespace.
pub open spec fn sp_patches(s: Seq<char>, pos: int) -> Option<(Seq<PatchBundleV>, int)> {
    if 0 <= pos <= s.len() {
        let p = sp_ws(s, pos);
        if pos <= p && p < s.len() && s[p] == '[' {
            sp_patches_elems(s, p + 1, true, Seq::<PatchBundleV>::empty())
        } else {
            None
        }
    } else {
        None
    }
}

fn parse_patches_elems(s: &Vec<char>, pos: usize, first: bool, acc: Vec<PatchBundle>) -> (r: Option<
    (Vec<PatchBundle>, usize),
>)
    requires
        pos <= s@.len(),
    ensures
        match r {
            Some((x, np)) => sp_patches_elems(
                s@,
                pos as int,
                first,
                acc@.map_values(|e: PatchBundle| e@),
            ) == Some((x@.map_values(|e: PatchBundle| e@), np as int)) && pos < np <= s@.len(),
            None => sp_patches_elems(
                s@,
                pos as int,
                first,
                acc@.map_values(|e: PatchBundle| e@),
            ) is None,
        },
    decreases s@.len() - pos,
{
    let p = skip_ws(s, pos);
    if first && p < s.len() && s[p] == ']' {
        return Some((acc, p + 1));
    }
    match parse_bundle_obj(s, pos) {
        Some((b, q)) => {
            let mut acc = acc;
            let ghost accv = acc@.map_values(|e: PatchBundle| e@);
            acc.push(b);
            proof {
                assert(acc@.map_values(|e: PatchBundle| e@) =~= accv.push(acc@.last()@));
            }
            let w = skip_ws(s, q);
            if w < s.len() {
                if s[w] == ',' {
                    parse_patches_elems(s, w + 1, false, acc)
                } else if s[w] == ']' {
                    Some((acc, w + 1))
                } else {
                    None
                }
            } else {
                None
            }
        },
        None => None,
    }
}

fn parse_patches(s: &Vec<char>, pos: usize) -> (r: Option<(Vec<PatchBundle>, usize)>)
    requires
        pos <= s@.len(),
    ensures
        match r {
            Some((x, np)) => sp_patches(s@, pos as int) == Some(
                (x@.map_values(|e: PatchBundle| e@), np as int),
            ) && pos < np <= s@.len(),
            None => sp_patches(s@, pos as int) is None,
        },
{
    let p = skip_ws(s, pos);
    if p < s.len() && s[p] == '[' {
        let acc: Vec<PatchBundle> = Vec::new();
        proof {
            assert(acc@.map_values(|e: PatchBundle| e@) =~= Seq::<PatchBundleV>::empty());
        }
        parse_patches_elems(s, p + 1, true, acc)
    } else {
        None
    }
}

/// A bundle object or the literal `null`, with leading whitespace, as an
/// optional version bundle.
pub open spec fn sp_opt_bundle_field(s: Seq<char>, pos: int) -> Option<
    (Option<VersionBundleV>, int),
> {
    if 0 <= pos <= s.len() {
        let p = sp_ws(s, pos);
        if pos <= p && p + 4 <= s.len() && s[p] == 'n' && s[p + 1] == 'u' && s[p + 2] == 'l' && s[p
            + 3] == 'l' {
            Some((None, p + 4))
        } else {
            match sp_bundle_obj(s, p) {
                Some(t) => Some((Some(version_bundle_of(t.0)), t.1)),
                None => None,
            }
        }
    } else {
        None
    }
}

fn parse_opt_bundle_field(s: &Vec<char>, pos: usize) -> (r: Option<(Option<VersionBundle>, usize)>)
    requires
        pos <= s@.len(),
    ensures
        match r {
            Some((x, np)) => sp_opt_bundle_field(s@, pos as int) == Some(
                (
                    match x {
                        Some(b) => Some(b@),
                        None => None,
                    },
                    np as int,
                ),
            ) && pos < np <= s@.len(),
            None => sp_opt_bundle_field(s@, pos as int) is None,
        },
{
    let p = skip_ws(s, pos);
    if s.len() - p >= 4 && s[p] == 'n' && s[p + 1] == 'u' && s[p + 2] == 'l' && s[p + 3] == 'l' {
        Some((None, p + 4))
    } else {
        match parse_bundle_obj(s, p) {
            Some((b, np)) => Some(
                (
                    Some(
                        VersionBundle {
                            version: b.version,
                            game_pkgs: b.game_pkgs,
                            audio_pkgs: b.audio_pkgs,
                        },
                    ),
                    np,
                ),
            ),
            None => None,
        }
    }
}

/// The fields of one release section, as far as they have been seen.
pub struct SectionRaw {
    pub major: Option<Option<VersionBundle>>,
    pub patches: Option<Vec<PatchBundle>>,
    pub res_list_url: Option<Option<String>>,
}

pub struct SectionRawV {
    pub major: Option<Option<VersionBundleV>>,
    pub patches: Option<Seq<PatchBundleV>>,
    pub res_list_url: Option<Option<Seq<char>>>,
}

impl View for SectionRaw {
    type V = SectionRawV;

    open spec fn view(&self) -> SectionRawV {
        SectionRawV {
            major: match self.major {
                Some(Some(b)) => Some(Some(b@)),
                Some(None) => Some(None),
                None => None,
            },
            patches: match self.patches {
                Some(v) => Some(v@.map_values(|e: PatchBundle| e@)),
                None => None,
            },
            res_list_url: match self.res_list_url {
                Some(v) => Some(crate::model::opt_view(v)),
                None => None,
            },
        }
    }
}

pub open spec fn empty_section_raw() -> SectionRawV {
    SectionRawV { major: None, patches: None, res_list_url: None }
}

/// A complete release section: the patch list is required; a missing or null
/// `major` or base-resource URL decodes to the absent state.
pub open spec fn section_of(raw: SectionRawV) -> Option<ReleaseSectionV> {
    match raw.patches {
        Some(patches) => Some(
            ReleaseSectionV {
                major: match raw.major {
                    Some(m) => m,
                    None => None,
                },
                patches,
                res_list_url: match raw.res_list_url {
                    Some(r) => r,
                    None => None,
                },
            },
        ),
        None => None,
    }
}

/// Members of a release-section object.
pub open spec fn sp_section_members(s: Seq<char>, pos: int, first: bool, raw: SectionRawV) -> Option<(SectionRawV, int)>
    decreases s.len() - pos,
    when 0 <= pos <= s.len()
{
    let p = sp_ws(s, pos);
    if first && pos <= p && p < s.len() && s[p] == '}' {
        Some((raw, p + 1))
    } else if pos <= p && p < s.len() && s[p] == '"' {
        match sp_string(s, p) {
            Some(kq) => if p < kq.1 && kq.1 <= s.len() {
                let r = sp_ws(s, kq.1);
                if kq.1 <= r && r < s.len() && s[r] == ':' {
                    let step: Option<(SectionRawV, int)> = if kq.0 == "major"@ {
                        if raw.major is Some {
                            None
                        } else {
                            match sp_opt_bundle_field(s, r + 1) {
                                Some(t) => Some((SectionRawV { major: Some(t.0), ..raw }, t.1)),
                                None => None,
                            }
                        }
                    } else if kq.0 == "patches"@ {
                        if raw.patches is Some {
                            None
                        } else {
                            match sp_patches(s, r + 1) {
                                Some(t) => Some((SectionRawV { patches: Some(t.0), ..raw }, t.1)),
                                None => None,
                            }
                        }
                    } else if kq.0 == "res_list_url"@ {
                        if raw.res_list_url is Some {
                            None
                        } else {
                            match sp_opt_string_field(s, r + 1) {
                                Some(t) => Some(
                                    (SectionRawV { res_list_url: Some(t.0), ..raw }, t.1),
                                ),
                                None => None,
                            }
                        }
                    } else {
                        match sp_skip_value(s, r + 1) {
                            Some(v) => Some((raw, v)),
                            None => None,
                        }
                    };
                    match step {
                        Some(rv) => if pos < rv.1 && rv.1 <= s.len() {
                            let w = sp_ws(s, rv.1);
                            if rv.1 <= w && w < s.len() {
                                if s[w] == ',' {
                                    sp_section_members(s, w + 1, false, rv.0)
                                } else if s[w] == '}' {
                                    Some((rv.0, w + 1))
                                } else {
                                    None
                                }
                            } else {
                                None
                            }
                        } else {
                            None
                        },
                        None => None,
                    }
                } else {
                    None
                }
            } else {
                None
            },
            None => None,
        }
    } else {
        None
    }
}

/// A release-section object, with leading whitespace.
pub open spec fn sp_section_obj(s: Seq<char>, pos: int) -> Option<(ReleaseSectionV, int)> {
    if 0 <= pos <= s.len() {
        let p = sp_ws(s, pos);
        if pos <= p && p < s.len() && s[p] == '{' {
            match sp_section_members(s, p + 1, true, empty_section_raw()) {
                Some(rq) => match section_of(rq.0) {
                    Some(sec) => Some((sec, rq.1)),
                    None => None,
                },
                None => None,
            }
        } else {
            None
        }
    } else {
        None
    }
}

fn parse_section_members(s: &Vec<char>, pos: usize, first: bool, raw: SectionRaw) -> (r: Option<
    (SectionRaw, usize),
>)
    requires
        pos <= s@.len(),
    ensures
        match r {
            Some((x, np)) => sp_section_members(s@, pos as int, first, raw@) == Some(
                (x@, np as int),
            ) && pos < np <= s@.len(),
            None => sp_section_members(s@, pos as int, first, raw@) is None,
        },
    decreases s@.len() - pos,
{
    let p = skip_ws(s, pos);
    if first && p < s.len() && s[p] == '}' {
        return Some((raw, p + 1));
    }
    if p < s.len() && s[p] == '"' {
        match parse_string(s, p) {
            Some((key, q)) => {
                let r2 = skip_ws(s, q);
                if r2 < s.len() && s[r2] == ':' {
                    let step: Option<(SectionRaw, usize)> = if crate::strutil::str_eq(
                        key.as_str(),
                        "major",
                    ) {
                        if raw.major.is_some() {
                            None
                        } else {
                            match parse_opt_bundle_field(s, r2 + 1) {
                                Some((t, v)) => Some((SectionRaw { major: Some(t), ..raw }, v)),
                                None => None,
                            }
                        }
                    } else if crate::strutil::str_eq(key.as_str(), "patches") {
                        if raw.patches.is_some() {
                            None
                        } else {
                            match parse_patches(s, r2 + 1) {
                                Some((t, v)) => Some((SectionRaw { patches: Some(t), ..raw }, v)),
                                None => None,
                            }
                        }
                    } else if crate::strutil::str_eq(key.as_str(), "res_list_url") {
                        if raw.res_list_url.is_some() {
                            None
                        } else {
                            match parse_opt_string_field(s, r2 + 1) {
                                Some((t, v)) => Some(
                                    (SectionRaw { res_list_url: Some(t), ..raw }, v),
                                ),
                                None => None,
                            }
                        }
                    } else {
                        match skip_value(s, r2 + 1) {
                            Some(v) => Some((raw, v)),
                            None => None,
                        }
                    };
                    match step {
                        Some((rv, v)) => {
                            let w = skip_ws(s, v);
                            if w < s.len() {
                                if s[w] == ',' {
                                    parse_section_members(s, w + 1, false, rv)
                                } else if s[w] == '}' {
                                    Some((rv, w + 1))
                                } else {
                                    None
                                }
                            } else {
                                None
                            }
                        },
                        None => None,
                    }
                } else {
                    None
                }
            },
            None => None,
        }
    } else {
        None
    }
}

fn parse_section_obj(s: &Vec<char>, pos: usize) -> (r: Option<(ReleaseSection, usize)>)
    requires
        pos <= s@.len(),
    ensures
        match r {
            Some((x, np)) => sp_section_obj(s@, pos as int) == Some((x@, np as int)) && pos < np
                <= s@.len(),
            None => sp_section_obj(s@, pos as int) is None,
        },
{
    let p = skip_ws(s, pos);
    if p < s.len() && s[p] == '{' {
        let raw = SectionRaw { major: None, patches: None, res_list_url: None };
        match parse_section_members(s, p + 1, true, raw) {
            Some((rv, np)) => {
                match rv.patches {
                    Some(patches) => {
                        let major = match rv.major {
                            Some(m) => m,
                            None => None,
                        };
                        let res_list_url = match rv.res_list_url {
                            Some(r) => r,
                            None => None,
                        };
                        Some((ReleaseSection { major, patches, res_list_url }, np))
                    },
                    None => None,
                }
            },
            None => None,
        }
    } else {
        None
    }
}

/// A release-section object or the literal `null`, with leading whitespace.
pub open spec fn sp_opt_section_field(s: Seq<char>, pos: int) -> Option<
    (Option<ReleaseSectionV>, int),
> {
    if 0 <= pos <= s.len() {
        let p = sp_ws(s, pos);
        if pos <= p && p + 4 <= s.len() && s[p] == 'n' && s[p + 1] == 'u' && s[p + 2] == 'l' && s[p
            + 3] == 'l' {
            Some((None, p + 4))
        } else {
            match sp_section_obj(s, p) {
                Some(t) => Some((Some(t.0), t.1)),
                None => None,
            }
        }
    } else {
        None
    }
}

fn parse_opt_section_field(s: &Vec<char>, pos: usize) -> (r: Option<
    (Option<ReleaseSection>, usize),
>)
    requires
        pos <= s@.len(),
    ensures
        match r {
            Some((x, np)) => sp_opt_section_field(s@, pos as int) == Some(
                (
                    match x {
                        Some(sec) => Some(sec@),
                        None => None,
                    },
                    np as int,
                ),
            ) && pos < np <= s@.len(),
            None => sp_opt_section_field(s@, pos as int) is None,
        },
{
    let p = skip_ws(s, pos);
    if s.len() - p >= 4 && s[p] == 'n' && s[p + 1] == 'u' && s[p + 2] == 'l' && s[p + 3] == 'l' {
        Some((None, p + 4))
    } else {
        match parse_section_obj(s, p) {
            Some((sec, np)) => Some((Some(sec), np)),
            None => None,
        }
    }
}

/// Members of the game-identity object: its id and biz strings.
pub open spec fn sp_game_members(
    s: Seq<char>,
    pos: int,
    first: bool,
    id: Option<Seq<char>>,
    biz: Option<Seq<char>>,
) -> Option<((Seq<char>, Seq<char>), int)>
    decreases s.len() - pos,
    when 0 <= pos <= s.len()
{
    let p = sp_ws(s, pos);
    if first && pos <= p && p < s.len() && s[p] == '}' {
        match (id, biz) {
            (Some(i), Some(b)) => Some(((i, b), p + 1)),
            _ => None,
        }
    } else if pos <= p && p < s.len() && s[p] == '"' {
        match sp_string(s, p) {
            Some(kq) => if p < kq.1 && kq.1 <= s.len() {
                let r = sp_ws(s, kq.1);
                if kq.1 <= r && r < s.len() && s[r] == ':' {
                    let step: Option<(Option<Seq<char>>, Option<Seq<char>>, int)> = if kq.0
                        == "id"@ {
                        if id is Some {
                            None
                        } else {
                            match sp_string_field(s, r + 1) {
                                Some(t) => Some((Some(t.0), biz, t.1)),
                                None => None,
                            }
                        }
                    } else if kq.0 == "biz"@ {
                        if biz is Some {
                            None
                        } else {
                            match sp_string_field(s, r + 1) {
                                Some(t) => Some((id, Some(t.0), t.1)),
                                None => None,
                            }
                        }
                    } else {
                        match sp_skip_value(s, r + 1) {
                            Some(v) => Some((id, biz, v)),
                            None => None,
                        }
                    };
                    match step {
                        Some(rv) => if pos < rv.2 && rv.2 <= s.len() {
                            let w = sp_ws(s, rv.2);
                            if rv.2 <= w && w < s.len() {
                                if s[w] == ',' {
                                    sp_game_members(s, w + 1, false, rv.0, rv.1)
                                } else if s[w] == '}' {
                                    match (rv.0, rv.1) {
                                        (Some(i), Some(b)) => Some(((i, b), w + 1)),
                                        _ => None,
                                    }
                                } else {
                                    None
                                }
                            } else {
                                None
                            }
                        } else {
                            None
                        },
                        None => None,
                    }
                } else {
                    None
                }
            } else {
                None
            },
            None => None,
        }
    } else {
        None
    }
}

/// The game-identity object, with leading whitespace.
pub open spec fn sp_game_obj(s: Seq<char>, pos: int) -> Option<((Seq<char>, Seq<char>), int)> {
    if 0 <= pos <= s.len() {
        let p = sp_ws(s, pos);
        if pos <= p && p < s.len() && s[p] == '{' {
            sp_game_members(s, p + 1, true, None, None)
        } else {
            None
        }
    } else {
        None
    }
}

fn parse_game_members(s: &Vec<char>, pos: usize, first: bool, id: Option<String>, biz: Option<
    String,
>) -> (r: Option<((String, String), usize)>)
    requires
        pos <= s@.len(),
    ensures
        match r {
            Some(((i, b), np)) => sp_game_members(
                s@,
                pos as int,
                first,
                crate::model::opt_view(id),
                crate::model::opt_view(biz),
            ) == Some(((i@, b@), np as int)) && pos < np <= s@.len(),
            None => sp_game_members(
                s@,
                pos as int,
                first,
                crate::model::opt_view(id),
                crate::model::opt_view(biz),
            ) is None,
        },
    decreases s@.len() - pos,
{
    let p = skip_ws(s, pos);
    if first && p < s.len() && s[p] == '}' {
        return match (id, biz) {
            (Some(i), Some(b)) => Some(((i, b), p + 1)),
            _ => None,
        };
    }
    if p < s.len() && s[p] == '"' {
        match parse_string(s, p) {
            Some((key, q)) => {
                let r2 = skip_ws(s, q);
                if r2 < s.len() && s[r2] == ':' {
                    let step: Option<(Option<String>, Option<String>, usize)> =
                        if crate::strutil::str_eq(key.as_str(), "id") {
                        if id.is_some() {
                            None
                        } else {
                            match parse_string_field(s, r2 + 1) {
                                Some((t, v)) => Some((Some(t), biz, v)),
                                None => None,
                            }
                        }
                    } else if crate::strutil::str_eq(key.as_str(), "biz") {
                        if biz.is_some() {
                            None
                        } else {
                            match parse_string_field(s, r2 + 1) {
                                Some((t, v)) => Some((id, Some(t), v)),
                                None => None,
                            }
                        }
                    } else {
                        match skip_value(s, r2 + 1) {
                            Some(v) => Some((id, biz, v)),
                            None => None,
                        }
                    };
                    match step {
                        Some((i2, b2, v)) => {
                            let w = skip_ws(s, v);
                            if w < s.len() {
                                if s[w] == ',' {
                                    parse_game_members(s, w + 1, false, i2, b2)
                                } else if s[w] == '}' {
                                    match (i2, b2) {
                                        (Some(i), Some(b)) => Some(((i, b), w + 1)),
                                        _ => None,
                                    }
                                } else {
                                    None
                                }
                            } else {
                                None
                            }
                        },
                        None => None,
                    }
                } else {
                    None
                }
            },
            None => None,
        }
    } else {
        None
    }
}

fn parse_game_obj(s: &Vec<char>, pos: usize) -> (r: Option<((String, String), usize)>)
    requires
        pos <= s@.len(),
    ensures
        match r {
            Some(((i, b), np)) => sp_game_obj(s@, pos as int) == Some(((i@, b@), np as int)) && pos
                < np <= s@.len(),
            None => sp_game_obj(s@, pos as int) is None,
        },
{
    let p = skip_ws(s, pos);
    if p < s.len() && s[p] == '{' {
        parse_game_members(s, p + 1, true, None, None)
    } else {
        None
    }
}

/// The fields of one game entry, as far as they have been seen.
pub struct EntryRaw {
    pub game: Option<(String, String)>,
    pub main: Option<ReleaseSection>,
    pub pre_download: Option<Option<ReleaseSection>>,
}

pub struct EntryRawV {
    pub game: Option<(Seq<char>, Seq<char>)>,
    pub main: Option<ReleaseSectionV>,
    pub pre_download: Option<Option<ReleaseSectionV>>,
}

impl View for EntryRaw {
    type V = EntryRawV;

    open spec fn view(&self) -> EntryRawV {
        EntryRawV {
            game: match self.game {
                Some((i, b)) => Some((i@, b@)),
                None => None,
            },
            main: match self.main {
                Some(m) => Some(m@),
                None => None,
            },
            pre_download: match self.pre_download {
                Some(Some(p)) => Some(Some(p@)),
                Some(None) => Some(None),
                None => None,
            },
        }
    }
}

pub open spec fn empty_entry_raw() -> EntryRawV {
    EntryRawV { game: None, main: None, pre_download: None }
}

/// A complete game entry: identity and main section are required; a missing
/// or null pre-download section decodes to the absent state.
pub open spec fn entry_of(raw: EntryRawV) -> Option<GameEntryV> {
    match (raw.game, raw.main) {
        (Some(g), Some(main)) => Some(
            GameEntryV {
                id: g.0,
                biz: g.1,
                main,
                pre_download: match raw.pre_download {
                    Some(p) => p,
                    None => None,
                },
            },
        ),
        _ => None,
    }
}

/// Members of a game-entry object.
pub open spec fn sp_entry_members(s: Seq<char>, pos: int, first: bool, raw: EntryRawV) -> Option<
    (EntryRawV, int),
>
    decreases s.len() - pos,
    when 0 <= pos <= s.len()
{
    let p = sp_ws(s, pos);
    if first && pos <= p && p < s.len() && s[p] == '}' {
        Some((raw, p + 1))
    } else if pos <= p && p < s.len() && s[p] == '"' {
        match sp_string(s, p) {
            Some(kq) => if p < kq.1 && kq.1 <= s.len() {
                let r = sp_ws(s, kq.1);
                if kq.1 <= r && r < s.len() && s[r] == ':' {
                    let step: Option<(EntryRawV, int)> = if kq.0 == "game"@ {
                        if raw.game is Some {
                            None
                        } else {
                            match sp_game_obj(s, r + 1) {
                                Some(t) => Some((EntryRawV { game: Some(t.0), ..raw }, t.1)),
                                None => None,
                            }
                        }
                    } else if kq.0 == "main"@ {
                        if raw.main is Some {
                            None
                        } else {
                            match sp_section_obj(s, r + 1) {
                                Some(t) => Some((EntryRawV { main: Some(t.0), ..raw }, t.1)),
                                None => None,
                            }
                        }
                    } else if kq.0 == "pre_download"@ {
                        if raw.pre_download is Some {
                            None
                        } else {
                            match sp_opt_section_field(s, r + 1) {
                                Some(t) => Some(
                                    (EntryRawV { pre_download: Some(t.0), ..raw }, t.1),
                                ),
                                None => None,
                            }
                        }
                    } else {
                        match sp_skip_value(s, r + 1) {
                            Some(v) => Some((raw, v)),
                            None => None,
                        }
                    };
                    match step {
                        Some(rv) => if pos < rv.1 && rv.1 <= s.len() {
                            let w = sp_ws(s, rv.1);
                            if rv.1 <= w && w < s.len() {
                                if s[w] == ',' {
                                    sp_entry_members(s, w + 1, false, rv.0)
                                } else if s[w] == '}' {
                                    Some((rv.0, w + 1))
                                } else {
                                    None
                                }
                            } else {
                                None
                            }
                        } else {
                            None
                        },
                        None => None,
                    }
                } else {
                    None
                }
            } else {
                None
            },
            None => None,
        }
    } else {
        None
    }
}

/// A game-entry object, with leading whitespace.
pub open spec fn sp_entry_obj(s: Seq<char>, pos: int) -> Option<(GameEntryV, int)> {
    if 0 <= pos <= s.len() {
        let p = sp_ws(s, pos);
        if pos <= p && p < s.len() && s[p] == '{' {
            match sp_entry_members(s, p + 1, true, empty_entry_raw()) {
                Some(rq) => match entry_of(rq.0) {
                    Some(e) => Some((e, rq.1)),
                    None => None,
                },
                None => None,
            }
        } else {
            None
        }
    } else {
        None
    }
}

fn parse_entry_members(s: &Vec<char>, pos: usize, first: bool, raw: EntryRaw) -> (r: Option<
    (EntryRaw, usize),
>)
    requires
        pos <= s@.len(),
    ensures
        match r {
            Some((x, np)) => sp_entry_members(s@, pos as int, first, raw@) == Some(
                (x@, np as int),
            ) && pos < np <= s@.len(),
            None => sp_entry_members(s@, pos as int, first, raw@) is None,
        },
    decreases s@.len() - pos,
{
    let p = skip_ws(s, pos);
    if first && p < s.len() && s[p] == '}' {
        return Some((raw, p + 1));
    }
    if p < s.len() && s[p] == '"' {
        match parse_string(s, p) {
            Some((key, q)) => {
                let r2 = skip_ws(s, q);
                if r2 < s.len() && s[r2] == ':' {
                    let step: Option<(EntryRaw, usize)> = if crate::strutil::str_eq(
                        key.as_str(),
                        "game",
                    ) {
                        if raw.game.is_some() {
                            None
                        } else {
                            match parse_game_obj(s, r2 + 1) {
                                Some((t, v)) => Some((EntryRaw { game: Some(t), ..raw }, v)),
                                None => None,
                            }
                        }
                    } else if crate::strutil::str_eq(key.as_str(), "main") {
                        if raw.main.is_some() {
                            None
                        } else {
                            match parse_section_obj(s, r2 + 1) {
                                Some((t, v)) => Some((EntryRaw { main: Some(t), ..raw }, v)),
                                None => None,
                            }
                        }
                    } else if crate::strutil::str_eq(key.as_str(), "pre_download") {
                        if raw.pre_download.is_some() {
                            None
                        } else {
                            match parse_opt_section_field(s, r2 + 1) {
                                Some((t, v)) => Some(
                                    (EntryRaw { pre_download: Some(t), ..raw }, v),
                                ),
                                None => None,
                            }
                        }
                    } else {
                        match skip_value(s, r2 + 1) {
                            Some(v) => Some((raw, v)),
                            None => None,
                        }
                    };
                    match step {
                        Some((rv, v)) => {
                            let w = skip_ws(s, v);
                            if w < s.len() {
                                if s[w] == ',' {
                                    parse_entry_members(s, w + 1, false, rv)
                                } else if s[w] == '}' {
                                    Some((rv, w + 1))
                                } else {
                                    None
                                }
                            } else {
                                None
                            }
                        },
                        None => None,
                    }
                } else {
                    None
                }
            },
            None => None,
        }
    } else {
        None
    }
}

fn parse_entry_obj(s: &Vec<char>, pos: usize) -> (r: Option<(GameEntry, usize)>)
    requires
        pos <= s@.len(),
    ensures
        match r {
            Some((x, np)) => sp_entry_obj(s@, pos as int) == Some((x@, np as int)) && pos < np
                <= s@.len(),
            None => sp_entry_obj(s@, pos as int) is None,
        },
{
    let p = skip_ws(s, pos);
    if p < s.len() && s[p] == '{' {
        let raw = EntryRaw { game: None, main: None, pre_download: None };
        match parse_entry_members(s, p + 1, true, raw) {
            Some((rv, np)) => {
                match (rv.game, rv.main) {
                    (Some((id, biz)), Some(main)) => {
                        let pre_download = match rv.pre_download {
                            Some(p2) => p2,
                            None => None,
                        };
                        Some((GameEntry { id, biz, main, pre_download }, np))
                    },
                    _ => None,
                }
            },
            None => None,
        }
    } else {
        None
    }
}

/// Elements of the game-entries array.
pub open spec fn sp_entries_elems(s: Seq<char>, pos: int, first: bool, acc: Seq<GameEntryV>) -> Option<(Seq<GameEntryV>, int)>
    decreases s.len() - pos,
    when 0 <= pos <= s.len()
{
    let p = sp_ws(s, pos);
    if first && pos <= p && p < s.len() && s[p] == ']' {
        Some((acc, p + 1))
    } else {
        match sp_entry_obj(s, pos) {
            Some(xq) => if pos < xq.1 && xq.1 <= s.len() {
                let w = sp_ws(s, xq.1);
                if xq.1 <= w && w < s.len() {
                    if s[w] == ',' {
                        sp_entries_elems(s, w + 1, false, acc.push(xq.0))
                    } else if s[w] == ']' {
                        Some((acc.push(xq.0), w + 1))
                    } else {
                        None
                    }
                } else {
                    None
                }
            } else {
                None
            },
            None => None,
        }
    }
}

/// The game-entries array, with leading whitespace.
pub open spec fn sp_entries(s: Seq<char>, pos: int) -> Option<(Seq<GameEntryV>, int)> {
    if 0 <= pos <= s.len() {
        let p = sp_ws(s, pos);
        if pos <= p && p < s.len() && s[p] == '[' {
            sp_entries_elems(s, p + 1, true, Seq::<GameEntryV>::empty())
        } else {
            None
        }
    } else {
        None
    }
}

fn parse_entries_elems(s: &Vec<char>, pos: usize, first: bool, acc: Vec<GameEntry>) -> (r: Option<
    (Vec<GameEntry>, usize),
>)
    requires
        pos <= s@.len(),
    ensures
        match r {
            Some((x, np)) => sp_entries_elems(
                s@,
                pos as int,
                first,
                acc@.map_values(|e: GameEntry| e@),
            ) == Some((x@.map_values(|e: GameEntry| e@), np as int)) && pos < np <= s@.len(),
            None => sp_entries_elems(
                s@,
                pos as int,
                first,
                acc@.map_values(|e: GameEntry| e@),
            ) is None,
        },
    decreases s@.len() - pos,
{
    let p = skip_ws(s, pos);
    if first && p < s.len() && s[p] == ']' {
        return Some((acc, p + 1));
    }
    match parse_entry_obj(s, pos) {
        Some((e, q)) => {
            let mut acc = acc;
            let ghost accv = acc@.map_values(|x: GameEntry| x@);
            acc.push(e);
            proof {
                assert(acc@.map_values(|x: GameEntry| x@) =~= accv.push(acc@.last()@));
            }
            let w = skip_ws(s, q);
            if w < s.len() {
                if s[w] == ',' {
                    parse_entries_elems(s, w + 1, false, acc)
                } else if s[w] == ']' {
                    Some((acc, w + 1))
                } else {
                    None
                }
            } else {
                None
            }
        },
        None => None,
    }
}

fn parse_entries(s: &Vec<char>, pos: usize) -> (r: Option<(Vec<GameEntry>, usize)>)
    requires
        pos <= s@.len(),
    ensures
        match r {
            Some((x, np)) => sp_entries(s@, pos as int) == Some(
                (x@.map_values(|e: GameEntry| e@), np as int),
            ) && pos < np <= s@.len(),
            None => sp_entries(s@, pos as int) is None,
        },
{
    let p = skip_ws(s, pos);
    if p < s.len() && s[p] == '[' {
        let acc: Vec<GameEntry> = Vec::new();
        proof {
            assert(acc@.map_values(|e: GameEntry| e@) =~= Seq::<GameEntryV>::empty());
        }
        parse_entries_elems(s, p + 1, true, acc)
    } else {
        None
    }
}

/// Members of the data object: its game-entries list.
pub open spec fn sp_data_members(s: Seq<char>, pos: int, first: bool, gp: Option<Seq<GameEntryV>>) -> Option<(Seq<GameEntryV>, int)>
    decreases s.len() - pos,
    when 0 <= pos <= s.len()
{
    let p = sp_ws(s, pos);
    if first && pos <= p && p < s.len() && s[p] == '}' {
        match gp {
            Some(g) => Some((g, p + 1)),
            None => None,
        }
    } else if pos <= p && p < s.len() && s[p] == '"' {
        match sp_string(s, p) {
            Some(kq) => if p < kq.1 && kq.1 <= s.len() {
                let r = sp_ws(s, kq.1);
                if kq.1 <= r && r < s.len() && s[r] == ':' {
                    let step: Option<(Option<Seq<GameEntryV>>, int)> = if kq.0
                        == "game_packages"@ {
                        if gp is Some {
                            None
                        } else {
                            match sp_entries(s, r + 1) {
                                Some(t) => Some((Some(t.0), t.1)),
                                None => None,
                            }
                        }
                    } else {
                        match sp_skip_value(s, r + 1) {
                            Some(v) => Some((gp, v)),
                            None => None,
                        }
                    };
                    match step {
                        Some(rv) => if pos < rv.1 && rv.1 <= s.len() {
                            let w = sp_ws(s, rv.1);
                            if rv.1 <= w && w < s.len() {
                                if s[w] == ',' {
                                    sp_data_members(s, w + 1, false, rv.0)
                                } else if s[w] == '}' {
                                    match rv.0 {
                                        Some(g) => Some((g, w + 1)),
                                        None => None,
                                    }
                                } else {
                                    None
                                }
                            } else {
                                None
                            }
                        } else {
                            None
                        },
                        None => None,
                    }
                } else {
                    None
                }
            } else {
                None
            },
            None => None,
        }
    } else {
        None
    }
}

/// The data object, with leading whitespace.
pub open spec fn sp_data_obj(s: Seq<char>, pos: int) -> Option<(Seq<GameEntryV>, int)> {
    if 0 <= pos <= s.len() {
        let p = sp_ws(s, pos);
        if pos <= p && p < s.len() && s[p] == '{' {
            sp_data_members(s, p + 1, true, None)
        } else {
            None
        }
    } else {
        None
    }
}

fn parse_data_members(s: &Vec<char>, pos: usize, first: bool, gp: Option<Vec<GameEntry>>) -> (r:
    Option<(Vec<GameEntry>, usize)>)
    requires
        pos <= s@.len(),
    ensures
        match r {
            Some((x, np)) => sp_data_members(
                s@,
                pos as int,
                first,
                match gp {
                    Some(g) => Some(g@.map_values(|e: GameEntry| e@)),
                    None => None,
                },
            ) == Some((x@.map_values(|e: GameEntry| e@), np as int)) && pos < np <= s@.len(),
            None => sp_data_members(
                s@,
                pos as int,
                first,
                match gp {
                    Some(g) => Some(g@.map_values(|e: GameEntry| e@)),
                    None => None,
                },
            ) is None,
        },
    decreases s@.len() - pos,
{
    let p = skip_ws(s, pos);
    if first && p < s.len() && s[p] == '}' {
        return match gp {
            Some(g) => Some((g, p + 1)),
            None => None,
        };
    }
    if p < s.len() && s[p] == '"' {
        match parse_string(s, p) {
            Some((key, q)) => {
                let r2 = skip_ws(s, q);
                if r2 < s.len() && s[r2] == ':' {
                    let step: Option<(Option<Vec<GameEntry>>, usize)> = if crate::strutil::str_eq(
                        key.as_str(),
                        "game_packages",
                    ) {
                        if gp.is_some() {
                            None
                        } else {
                            match parse_entries(s, r2 + 1) {
                                Some((t, v)) => Some((Some(t), v)),
                                None => None,
                            }
                        }
                    } else {
                        match skip_value(s, r2 + 1) {
                            Some(v) => Some((gp, v)),
                            None => None,
                        }
                    };
                    match step {
                        Some((g2, v)) => {
                            let w = skip_ws(s, v);
                            if w < s.len() {
                                if s[w] == ',' {
                                    parse_data_members(s, w + 1, false, g2)
                                } else if s[w] == '}' {
                                    match g2 {
                                        Some(g) => Some((g, w + 1)),
                                        None => None,
                                    }
                                } else {
                                    None
                                }
                            } else {
                                None
                            }
                        },
                        None => None,
                    }
                } else {
                    None
                }
            },
            None => None,
        }
    } else {
        None
    }
}

fn parse_data_obj(s: &Vec<char>, pos: usize) -> (r: Option<(Vec<GameEntry>, usize)>)
    requires
        pos <= s@.len(),
    ensures
        match r {
            Some((x, np)) => sp_data_obj(s@, pos as int) == Some(
                (x@.map_values(|e: GameEntry| e@), np as int),
            ) && pos < np <= s@.len(),
            None => sp_data_obj(s@, pos as int) is None,
        },
{
    let p = skip_ws(s, pos);
    if p < s.len() && s[p] == '{' {
        parse_data_members(s, p + 1, true, None)
    } else {
        None
    }
}

/// Integer denoted by a plain JSON integer token: an optional minus sign and
/// decimal digits, nothing else.
pub open spec fn sp_int_of(t: Seq<char>) -> Option<int> {
    if t.len() > 0 && t[0] == '-' {
        if is_decimal_digits(t.skip(1)) {
            Some(-decimal_value(t.skip(1)))
        } else {
            None
        }
    } else if is_decimal_digits(t) {
        Some(decimal_value(t))
    } else {
        None
    }
}

/// An integer value, with leading whitespace: a JSON number whose token is a
/// plain integer.
pub open spec fn sp_int_field(s: Seq<char>, pos: int) -> Option<(int, int)> {
    if 0 <= pos <= s.len() {
        let p = sp_ws(s, pos);
        match sp_number(s, p) {
            Some(e) => if p <= e <= s.len() {
                match sp_int_of(s.subrange(p, e)) {
                    Some(v) => Some((v, e)),
                    None => None,
                }
            } else {
                None
            },
            None => None,
        }
    } else {
        None
    }
}

proof fn lemma_decimal_zero(t: Seq<char>)
    requires
        forall|i: int| 0 <= i < t.len() ==> crate::numeric::is_digit_char(#[trigger] t[i]),
    ensures
        (decimal_value(t) == 0) == (forall|i: int| 0 <= i < t.len() ==> t[i] == '0'),
    decreases t.len(),
{
    if t.len() > 0 {
        let q = t.drop_last();
        lemma_decimal_zero(q);
        crate::numeric::lemma_decimal_value_nonneg(q);
        let c = t.last();
        if c as u32 == 48 {
            vstd::utf8::char_u32_cast(c, 48);
            vstd::utf8::char_u32_cast('0', 48);
            assert(c == '0');
        }
        if decimal_value(t) == 0 {
            assert forall|i: int| 0 <= i < t.len() implies t[i] == '0' by {
                if i < t.len() - 1 {
                    assert(q[i] == '0');
                }
            }
        }
        if forall|i: int| 0 <= i < t.len() ==> t[i] == '0' {
            assert forall|i: int| 0 <= i < q.len() implies q[i] == '0' by {
                assert(t[i] == '0');
            }
            assert(decimal_value(q) == 0);
            assert(t.last() == '0');
        }
    }
}

/// Reads an integer field, returning whether its value is zero.
fn parse_int_field(s: &Vec<char>, pos: usize) -> (r: Option<(bool, usize)>)
    requires
        pos <= s@.len(),
    ensures
        match sp_int_field(s@, pos as int) {
            Some((v, np)) => r matches Some(x) && x.0 == (v == 0) && x.1 == np && pos < x.1
                <= s@.len(),
            None => r is None,
        },
{
    let p = skip_ws(s, pos);
    match parse_number(s, p) {
        Some(e) => {
            let ghost tok = s@.subrange(p as int, e as int);
            let neg = s[p] == '-';
            let d0 = if neg {
                p + 1
            } else {
                p
            };
            let de = crate::json::digits_end(s, d0);
            proof {
                crate::json::lemma_digits_end_chars(s@, d0 as int);
            }
            if de < e || e == d0 {
                // the token holds a fraction, an exponent, or no digits
                proof {
                    if neg {
                        assert(tok.skip(1) =~= s@.subrange(d0 as int, e as int));
                    }
                    if de < e {
                        assert(!crate::numeric::is_digit_char(s@[de as int]));
                        if neg {
                            assert(!crate::numeric::is_digit_char(tok.skip(1)[de - d0]));
                        } else {
                            assert(!crate::numeric::is_digit_char(tok[de - d0]));
                        }
                    }
                }
                return None;
            }
            // every character of the digit run is a digit, so the token is a
            // plain integer; its value is zero exactly when every digit is 0
            let mut all_zero = true;
            let mut i = d0;
            while i < e
                invariant
                    d0 <= i <= e <= s@.len(),
                    all_zero == (forall|j: int| d0 <= j < i ==> s@[j] == '0'),
                decreases e - i,
            {
                if s[i] != '0' {
                    all_zero = false;
                }
                i += 1;
            }
            proof {
                let digits = s@.subrange(d0 as int, e as int);
                assert(forall|j: int|
                    0 <= j < digits.len() ==> crate::numeric::is_digit_char(#[trigger] digits[j]));
                assert(crate::numeric::is_decimal_digits(digits));
                lemma_decimal_zero(digits);
                if all_zero {
                    assert forall|i: int| 0 <= i < digits.len() implies digits[i] == '0' by {
                        assert(s@[d0 + i] == '0');
                    }
                    assert(decimal_value(digits) == 0);
                } else {
                    let j = choose|j: int| d0 <= j < e && s@[j] != '0';
                    assert(d0 <= j < e && s@[j] != '0');
                    assert(digits[j - d0] != '0');
                    assert(decimal_value(digits) != 0);
                }
                if neg {
                    assert(tok.skip(1) =~= digits);
                } else {
                    assert(tok =~= digits);
                }
            }
            Some((all_zero, e))
        },
        None => None,
    }
}

/// The top-level fields: the status code, the vendor message, and where the
/// data value starts.
pub struct TopV {
    pub retcode_is_zero: bool,
    pub message: Seq<char>,
    pub data_pos: int,
}

/// Members of the top-level object. The data value is scanned as arbitrary
/// JSON here and its position recorded; only a zero status code makes the
/// decoder come back to read it against the schema.
pub open spec fn sp_top_members(
    s: Seq<char>,
    pos: int,
    first: bool,
    rc: Option<bool>,
    msg: Option<Seq<char>>,
    dp: Option<int>,
) -> Option<(TopV, int)>
    decreases s.len() - pos,
    when 0 <= pos <= s.len()
{
    let p = sp_ws(s, pos);
    if first && pos <= p && p < s.len() && s[p] == '}' {
        match (rc, msg, dp) {
            (Some(z), Some(m), Some(d)) => Some(
                (TopV { retcode_is_zero: z, message: m, data_pos: d }, p + 1),
            ),
            _ => None,
        }
    } else if pos <= p && p < s.len() && s[p] == '"' {
        match sp_string(s, p) {
            Some(kq) => if p < kq.1 && kq.1 <= s.len() {
                let r = sp_ws(s, kq.1);
                if kq.1 <= r && r < s.len() && s[r] == ':' {
                    let step: Option<(Option<bool>, Option<Seq<char>>, Option<int>, int)> = if kq.0
                        == "retcode"@ {
                        if rc is Some {
                            None
                        } else {
                            match sp_int_field(s, r + 1) {
                                Some(t) => Some((Some(t.0 == 0), msg, dp, t.1)),
                                None => None,
                            }
                        }
                    } else if kq.0 == "message"@ {
                        if msg is Some {
                            None
                        } else {
                            match sp_string_field(s, r + 1) {
                                Some(t) => Some((rc, Some(t.0), dp, t.1)),
                                None => None,
                            }
                        }
                    } else if kq.0 == "data"@ {
                        if dp is Some {
                            None
                        } else {
                            match sp_skip_value(s, r + 1) {
                                Some(v) => Some((rc, msg, Some(r + 1), v)),
                                None => None,
                            }
                        }
                    } else {
                        match sp_skip_value(s, r + 1) {
                            Some(v) => Some((rc, msg, dp, v)),
                            None => None,
                        }
                    };
                    match step {
                        Some(rv) => if pos < rv.3 && rv.3 <= s.len() {
                            let w = sp_ws(s, rv.3);
                            if rv.3 <= w && w < s.len() {
                                if s[w] == ',' {
                                    sp_top_members(s, w + 1, false, rv.0, rv.1, rv.2)
                                } else if s[w] == '}' {
                                    match (rv.0, rv.1, rv.2) {
                                        (Some(z), Some(m), Some(d)) => Some(
                                            (
                                                TopV {
                                                    retcode_is_zero: z,
                                                    message: m,
                                                    data_pos: d,
                                                },
                                                w + 1,
                                            ),
                                        ),
                                        _ => None,
                                    }
                                } else {
                                    None
                                }
                            } else {
                                None
                            }
                        } else {
                            None
                        },
                        None => None,
                    }
                } else {
                    None
                }
            } else {
                None
            },
            None => None,
        }
    } else {
        None
    }
}

/// The top-level object, with leading whitespace.
pub open spec fn sp_top_obj(s: Seq<char>, pos: int) -> Option<(TopV, int)> {
    if 0 <= pos <= s.len() {
        let p = sp_ws(s, pos);
        if pos <= p && p < s.len() && s[p] == '{' {
            sp_top_members(s, p + 1, true, None, None, None)
        } else {
            None
        }
    } else {
        None
    }
}

fn parse_top_members(
    s: &Vec<char>,
    pos: usize,
    first: bool,
    rc: Option<bool>,
    msg: Option<String>,
    dp: Option<usize>,
) -> (r: Option<(bool, String, usize, usize)>)
    requires
        pos <= s@.len(),
        dp matches Some(d) ==> d <= s@.len(),
    ensures
        match sp_top_members(
            s@,
            pos as int,
            first,
            rc,
            crate::model::opt_view(msg),
            match dp {
                Some(d) => Some(d as int),
                None => None,
            },
        ) {
            Some((tv, np)) => r matches Some(x) && x.0 == tv.retcode_is_zero && x.1@ == tv.message
                && x.2 == tv.data_pos && x.3 == np && pos < np <= s@.len() && tv.data_pos
                <= s@.len(),
            None => r is None,
        },
    decreases s@.len() - pos,
{
    let p = skip_ws(s, pos);
    if first && p < s.len() && s[p] == '}' {
        return match (rc, msg, dp) {
            (Some(z), Some(m), Some(d)) => Some((z, m, d, p + 1)),
            _ => None,
        };
    }
    if p < s.len() && s[p] == '"' {
        match parse_string(s, p) {
            Some((key, q)) => {
                let r2 = skip_ws(s, q);
                if r2 < s.len() && s[r2] == ':' {
                    let step: Option<(Option<bool>, Option<String>, Option<usize>, usize)> =
                        if crate::strutil::str_eq(key.as_str(), "retcode") {
                        if rc.is_some() {
                            None
                        } else {
                            match parse_int_field(s, r2 + 1) {
                                Some((z, v)) => Some((Some(z), msg, dp, v)),
                                None => None,
                            }
                        }
                    } else if crate::strutil::str_eq(key.as_str(), "message") {
                        if msg.is_some() {
                            None
                        } else {
                            match parse_string_field(s, r2 + 1) {
                                Some((t, v)) => Some((rc, Some(t), dp, v)),
                                None => None,
                            }
                        }
                    } else if crate::strutil::str_eq(key.as_str(), "data") {
                        if dp.is_some() {
                            None
                        } else {
                            match skip_value(s, r2 + 1) {
                                Some(v) => Some((rc, msg, Some(r2 + 1), v)),
                                None => None,
                            }
                        }
                    } else {
                        match skip_value(s, r2 + 1) {
                            Some(v) => Some((rc, msg, dp, v)),
                            None => None,
                        }
                    };
                    match step {
                        Some((rc2, msg2, dp2, v)) => {
                            let w = skip_ws(s, v);
                            if w < s.len() {
                                if s[w] == ',' {
                                    parse_top_members(s, w + 1, false, rc2, msg2, dp2)
                                } else if s[w] == '}' {
                                    match (rc2, msg2, dp2) {
                                        (Some(z), Some(m), Some(d)) => Some((z, m, d, w + 1)),
                                        _ => None,
                                    }
                                } else {
                                    None
                                }
                            } else {
                                None
                            }
                        },
                        None => None,
                    }
                } else {
                    None
                }
            },
            None => None,
        }
    } else {
        None
    }
}

fn parse_top_obj(s: &Vec<char>, pos: usize) -> (r: Option<(bool, String, usize, usize)>)
    requires
        pos <= s@.len(),
    ensures
        match sp_top_obj(s@, pos as int) {
            Some((tv, np)) => r matches Some(x) && x.0 == tv.retcode_is_zero && x.1@ == tv.message
                && x.2 == tv.data_pos && x.3 == np && pos < np <= s@.len() && tv.data_pos
                <= s@.len(),
            None => r is None,
        },
{
    let p = skip_ws(s, pos);
    if p < s.len() && s[p] == '{' {
        parse_top_members(s, p + 1, true, None, None, None)
    } else {
        None
    }
}

/// What a response text decodes to: a document, a vendor-reported error
/// carrying its message, or a malformed response.
pub enum DecodeOutcomeV {
    Document(PackageDocumentV),
    Api(Seq<char>),
    Malformed,
}

/// The decoder's result on a whole response text: the top-level object must
/// span the text; a non-zero status code wins over everything else; with a
/// zero status code the data value must match the schema.
pub open spec fn sp_decode(s: Seq<char>) -> DecodeOutcomeV {
    match sp_top_obj(s, 0) {
        Some((tv, np)) => if 0 <= np <= s.len() && sp_ws(s, np) == s.len() {
            if !tv.retcode_is_zero {
                DecodeOutcomeV::Api(tv.message)
            } else if 0 <= tv.data_pos <= s.len() {
                match sp_data_obj(s, tv.data_pos) {
                    Some((entries, _)) => DecodeOutcomeV::Document(PackageDocumentV { entries }),
                    None => DecodeOutcomeV::Malformed,
                }
            } else {
                DecodeOutcomeV::Malformed
            }
        } else {
            DecodeOutcomeV::Malformed
        },
        None => DecodeOutcomeV::Malformed,
    }
}

/// A well-formed response whose status code is not zero decodes to the
/// vendor-reported error carrying the message verbatim, whatever its data
/// field holds.
pub proof fn lemma_nonzero_status_decodes_to_api_error(s: Seq<char>, tv: TopV, np: int)
    requires
        sp_top_obj(s, 0) == Some((tv, np)),
        0 <= np <= s.len(),
        sp_ws(s, np) == s.len(),
        !tv.retcode_is_zero,
    ensures
        sp_decode(s) == DecodeOutcomeV::Api(tv.message),
{
}

/// A text on which the top-level read fails decodes to a malformed response,
/// never to a document or a vendor error.
pub proof fn lemma_unreadable_text_decodes_to_malformed(s: Seq<char>)
    requires
        sp_top_obj(s, 0) is None,
    ensures
        sp_decode(s) == DecodeOutcomeV::Malformed,
{
}

/// A failed decode attempt.
#[derive(Debug)]
pub enum DecodeError {
    /// The vendor reported a non-success status; the payload's message text.
    ApiError(String),
    /// The response was not a well-formed document; the details text.
    MalformedResponse(String),
}

/// The details text of every malformed response.
pub open spec fn spec_malformed_details(s: Seq<char>) -> Seq<char> {
    "could not decode the response as package data\nResponse: "@ + s
}

fn malformed(raw: &str) -> (r: DecodeError)
    ensures
        r matches DecodeError::MalformedResponse(d) && d@ == spec_malformed_details(raw@),
{
    let mut d = String::from_str("could not decode the response as package data\nResponse: ");
    d.append(raw);
    DecodeError::MalformedResponse(d)
}

fn chars_of(s: &str) -> (r: Vec<char>)
    ensures
        r@ == s@,
{
    let n = s.unicode_len();
    let mut out: Vec<char> = Vec::new();
    let mut i: usize = 0;
    while i < n
        invariant
            0 <= i <= n,
            n == s@.len(),
            out@ == s@.take(i as int),
        decreases n - i,
    {
        out.push(s.get_char(i));
        proof {
            assert(s@.take(i + 1) =~= s@.take(i as int).push(s@[i as int]));
        }
        i += 1;
    }
    proof {
        assert(s@.take(n as int) =~= s@);
    }
    out
}

/// Decodes a response text. Returns the document on success; `ApiError` with
/// the vendor's message, verbatim, when the response is well-formed JSON with
/// a non-zero status code; `MalformedResponse` otherwise.
pub fn decode(raw: &str) -> (r: Result<PackageDocument, DecodeError>)
    ensures
        match sp_decode(raw@) {
            DecodeOutcomeV::Document(d) => r matches Ok(doc) && doc@ == d,
            DecodeOutcomeV::Api(m) => r matches Err(DecodeError::ApiError(msg)) && msg@ == m,
            DecodeOutcomeV::Malformed => r matches Err(DecodeError::MalformedResponse(det))
                && det@ == spec_malformed_details(raw@),
        },
{
    let cs = chars_of(raw);
    match parse_top_obj(&cs, 0) {
        Some((is_zero, message, data_pos, end)) => {
            let t = skip_ws(&cs, end);
            if t != cs.len() {
                return Err(malformed(raw));
            }
            if !is_zero {
                return Err(DecodeError::ApiError(message));
            }
            match parse_data_obj(&cs, data_pos) {
                Some((entries, _)) => Ok(PackageDocument { entries }),
                None => Err(malformed(raw)),
            }
        },
        None => Err(malformed(raw)),
    }
}

} // verus!
