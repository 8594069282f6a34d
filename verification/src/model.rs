//! The decoded document: games, release sections, version bundles and their
//! downloadable parts. All values are built once by the decoder and read-only
//! afterwards.

use vstd::prelude::*;

verus! {

/// One downloadable game file.
pub struct FilePart {
    pub url: String,
    pub checksum: String,
    pub size: String,
    pub decompressed_size: String,
}

/// One downloadable audio pack.
pub struct AudioPart {
    pub language: String,
    pub url: String,
    pub checksum: String,
    pub size: String,
    pub decompressed_size: String,
}

/// A labeled release: game files and audio packs for one version.
pub struct VersionBundle {
    pub version: String,
    pub game_pkgs: Vec<FilePart>,
    pub audio_pkgs: Vec<AudioPart>,
}

/// A patch step from one source version, with its files and audio packs.
pub struct PatchBundle {
    pub version: String,
    pub game_pkgs: Vec<FilePart>,
    pub audio_pkgs: Vec<AudioPart>,
    pub res_list_url: Option<String>,
}

/// The current release and the patch list of one distribution channel.
pub struct ReleaseSection {
    pub major: Option<VersionBundle>,
    pub patches: Vec<PatchBundle>,
    pub res_list_url: Option<String>,
}

/// One game or business variant: its main section and, when announced, a
/// pre-download section.
pub struct GameEntry {
    pub id: String,
    pub biz: String,
    pub main: ReleaseSection,
    pub pre_download: Option<ReleaseSection>,
}

/// The decoded top-level document.
pub struct PackageDocument {
    pub entries: Vec<GameEntry>,
}

pub struct FilePartV {
    pub url: Seq<char>,
    pub checksum: Seq<char>,
    pub size: Seq<char>,
    pub decompressed_size: Seq<char>,
}

pub struct AudioPartV {
    pub language: Seq<char>,
    pub url: Seq<char>,
    pub checksum: Seq<char>,
    pub size: Seq<char>,
    pub decompressed_size: Seq<char>,
}

pub struct VersionBundleV {
    pub version: Seq<char>,
    pub game_pkgs: Seq<FilePartV>,
    pub audio_pkgs: Seq<AudioPartV>,
}

pub struct PatchBundleV {
    pub version: Seq<char>,
    pub game_pkgs: Seq<FilePartV>,
    pub audio_pkgs: Seq<AudioPartV>,
    pub res_list_url: Option<Seq<char>>,
}

pub struct ReleaseSectionV {
    pub major: Option<VersionBundleV>,
    pub patches: Seq<PatchBundleV>,
    pub res_list_url: Option<Seq<char>>,
}

pub struct GameEntryV {
    pub id: Seq<char>,
    pub biz: Seq<char>,
    pub main: ReleaseSectionV,
    pub pre_download: Option<ReleaseSectionV>,
}

pub struct PackageDocumentV {
    pub entries: Seq<GameEntryV>,
}

pub open spec fn opt_view(o: Option<String>) -> Option<Seq<char>> {
    match o {
        Some(s) => Some(s@),
        None => None,
    }
}

impl View for FilePart {
    type V = FilePartV;

    open spec fn view(&self) -> FilePartV {
        FilePartV {
            url: self.url@,
            checksum: self.checksum@,
            size: self.size@,
            decompressed_size: self.decompressed_size@,
        }
    }
}

impl View for AudioPart {
    type V = AudioPartV;

    open spec fn view(&self) -> AudioPartV {
        AudioPartV {
            language: self.language@,
            url: self.url@,
            checksum: self.checksum@,
            size: self.size@,
            decompressed_size: self.decompressed_size@,
        }
    }
}

impl View for VersionBundle {
    type V = VersionBundleV;

    open spec fn view(&self) -> VersionBundleV {
        VersionBundleV {
            version: self.version@,
            game_pkgs: self.game_pkgs@.map_values(|p: FilePart| p@),
            audio_pkgs: self.audio_pkgs@.map_values(|p: AudioPart| p@),
        }
    }
}

impl View for PatchBundle {
    type V = PatchBundleV;

    open spec fn view(&self) -> PatchBundleV {
        PatchBundleV {
            version: self.version@,
            game_pkgs: self.game_pkgs@.map_values(|p: FilePart| p@),
            audio_pkgs: self.audio_pkgs@.map_values(|p: AudioPart| p@),
            res_list_url: opt_view(self.res_list_url),
        }
    }
}

impl View for ReleaseSection {
    type V = ReleaseSectionV;

    open spec fn view(&self) -> ReleaseSectionV {
        ReleaseSectionV {
            major: match self.major {
                Some(m) => Some(m@),
                None => None,
            },
            patches: self.patches@.map_values(|p: PatchBundle| p@),
            res_list_url: opt_view(self.res_list_url),
        }
    }
}

impl View for GameEntry {
    type V = GameEntryV;

    open spec fn view(&self) -> GameEntryV {
        GameEntryV {
            id: self.id@,
            biz: self.biz@,
            main: self.main@,
            pre_download: match self.pre_download {
                Some(s) => Some(s@),
                None => None,
            },
        }
    }
}

impl View for PackageDocument {
    type V = PackageDocumentV;

    open spec fn view(&self) -> PackageDocumentV {
        PackageDocumentV { entries: self.entries@.map_values(|e: GameEntry| e@) }
    }
}

} // verus!
