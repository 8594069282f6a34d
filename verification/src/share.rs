//! The share message: a short text re-derived from the main report by
//! scanning its lines, not from the structured document. Lines are grouped at
//! "[Part N]" and "[Language] " markers within the regions opened by the
//! "Game Packages" and "Audio Packages" header lines.

use vstd::prelude::*;
use crate::lang::{map_language_code, share_label, spec_language_name, spec_share_label};
use crate::strutil::{
    ends_with_str, spec_ends_with, spec_lines, spec_starts_with, spec_trim, split_lines,
    starts_with_str, trim_str,
};

verus! {

/// Which region of the main report the scan is in.
#[derive(PartialEq, Eq, Structural, Clone, Copy)]
pub enum Region {
    Outside,
    Game,
    Audio,
}

/// One group under a marker line: its marker text and the URL and size lines
/// seen so far.
pub struct Group {
    pub audio: bool,
    pub head: String,
    pub url: Option<String>,
    pub size: Option<String>,
}

pub struct GroupV {
    pub audio: bool,
    pub head: Seq<char>,
    pub url: Option<Seq<char>>,
    pub size: Option<Seq<char>>,
}

impl View for Group {
    type V = GroupV;

    open spec fn view(&self) -> GroupV {
        GroupV {
            audio: self.audio,
            head: self.head@,
            url: crate::model::opt_view(self.url),
            size: crate::model::opt_view(self.size),
        }
    }
}

/// The scan state: current region, the group being collected, and the text
/// emitted so far for each region.
pub struct ScanState {
    pub region: Region,
    pub pending: Option<Group>,
    pub game_out: String,
    pub audio_out: String,
}

pub struct ScanStateV {
    pub region: Region,
    pub pending: Option<GroupV>,
    pub game_out: Seq<char>,
    pub audio_out: Seq<char>,
}

impl View for ScanState {
    type V = ScanStateV;

    open spec fn view(&self) -> ScanStateV {
        ScanStateV {
            region: self.region,
            pending: match self.pending {
                Some(g) => Some(g@),
                None => None,
            },
            game_out: self.game_out@,
            audio_out: self.audio_out@,
        }
    }
}

/// The share-message text one group turns into.
pub open spec fn spec_group_text(g: GroupV) -> Seq<char> {
    let url = match g.url {
        Some(u) => u,
        None => Seq::<char>::empty(),
    };
    let size = match g.size {
        Some(s) => s,
        None => Seq::<char>::empty(),
    };
    if g.audio {
        spec_share_label(spec_language_name(g.head)) + " ("@ + size + "GB):\n"@ + url + "\n"@
    } else {
        "Part "@ + g.head + " ("@ + size + "GB):\n"@ + url + "\n"@
    }
}

/// Emits the pending group, if any, to the output of its region.
pub open spec fn spec_flush(st: ScanStateV) -> ScanStateV {
    match st.pending {
        Some(g) => if g.audio {
            ScanStateV {
                region: st.region,
                pending: None,
                game_out: st.game_out,
                audio_out: st.audio_out + spec_group_text(g),
            }
        } else {
            ScanStateV {
                region: st.region,
                pending: None,
                game_out: st.game_out + spec_group_text(g),
                audio_out: st.audio_out,
            }
        },
        None => st,
    }
}

/// Marker text of a "[Part N]" line: what stands after the prefix, with one
/// trailing "]" removed when present.
pub open spec fn spec_part_head(t: Seq<char>) -> Seq<char> {
    let h = t.skip("[Part "@.len() as int);
    if spec_ends_with(h, "]"@) {
        h.take(h.len() - "]"@.len())
    } else {
        h
    }
}

/// Size text of a "[Size] " line: the rest of the line with one trailing
/// "GB" removed when present.
pub open spec fn spec_size_head(t: Seq<char>) -> Seq<char> {
    let h = t.skip("[Size] "@.len() as int);
    if spec_ends_with(h, "GB"@) {
        h.take(h.len() - "GB"@.len())
    } else {
        h
    }
}

/// How one line of the main report advances the scan.
pub open spec fn spec_scan_step(st: ScanStateV, line: Seq<char>) -> ScanStateV {
    let t = spec_trim(line);
    if t.len() == 0 {
        st
    } else if spec_starts_with(t, "Game Packages"@) {
        let f = spec_flush(st);
        ScanStateV {
            region: Region::Game,
            pending: f.pending,
            game_out: f.game_out,
            audio_out: f.audio_out,
        }
    } else if spec_starts_with(t, "Audio Packages"@) {
        let f = spec_flush(st);
        ScanStateV {
            region: Region::Audio,
            pending: f.pending,
            game_out: f.game_out,
            audio_out: f.audio_out,
        }
    } else if st.region == Region::Game && spec_starts_with(t, "[Part "@) {
        let f = spec_flush(st);
        ScanStateV {
            region: f.region,
            pending: Some(
                GroupV { audio: false, head: spec_part_head(t), url: None, size: None },
            ),
            game_out: f.game_out,
            audio_out: f.audio_out,
        }
    } else if st.region == Region::Audio && spec_starts_with(t, "[Language] "@) {
        let f = spec_flush(st);
        ScanStateV {
            region: f.region,
            pending: Some(
                GroupV {
                    audio: true,
                    head: t.skip("[Language] "@.len() as int),
                    url: None,
                    size: None,
                },
            ),
            game_out: f.game_out,
            audio_out: f.audio_out,
        }
    } else {
        match st.pending {
            Some(g) => if g.url is None && spec_starts_with(t, "[URL] "@) {
                ScanStateV {
                    region: st.region,
                    pending: Some(
                        GroupV {
                            audio: g.audio,
                            head: g.head,
                            url: Some(t.skip("[URL] "@.len() as int)),
                            size: g.size,
                        },
                    ),
                    game_out: st.game_out,
                    audio_out: st.audio_out,
                }
            } else if g.size is None && spec_starts_with(t, "[Size] "@) {
                ScanStateV {
                    region: st.region,
                    pending: Some(
                        GroupV {
                            audio: g.audio,
                            head: g.head,
                            url: g.url,
                            size: Some(spec_size_head(t)),
                        },
                    ),
                    game_out: st.game_out,
                    audio_out: st.audio_out,
                }
            } else {
                st
            },
            None => st,
        }
    }
}

pub open spec fn spec_initial_state() -> ScanStateV {
    ScanStateV {
        region: Region::Outside,
        pending: None,
        game_out: Seq::<char>::empty(),
        audio_out: Seq::<char>::empty(),
    }
}

/// The scan state after reading the given lines in order.
pub open spec fn spec_scan(lines: Seq<Seq<char>>) -> ScanStateV
    decreases lines.len(),
{
    if lines.len() == 0 {
        spec_initial_state()
    } else {
        spec_scan_step(spec_scan(lines.drop_last()), lines.last())
    }
}

/// The fixed hint line between the game and audio parts of the message.
pub open spec fn spec_share_hint() -> Seq<char> {
    "You will also need the audio pack for your region.\n"@
}

/// The whole share message derived from a main report's text.
pub open spec fn spec_derive_share_message(text: Seq<char>) -> Seq<char> {
    let fin = spec_flush(spec_scan(spec_lines(text)));
    fin.game_out + spec_share_hint() + fin.audio_out
}

fn group_text(g: &Group) -> (r: String)
    ensures
        r@ == spec_group_text(g@),
{
    let mut out = String::new();
    if g.audio {
        let name = map_language_code(g.head.as_str());
        let label = share_label(name.as_str());
        out.append(label.as_str());
    } else {
        out.append("Part ");
        out.append(g.head.as_str());
    }
    out.append(" (");
    match &g.size {
        Some(s) => out.append(s.as_str()),
        None => (),
    }
    out.append("GB):\n");
    match &g.url {
        Some(u) => out.append(u.as_str()),
        None => (),
    }
    out.append("\n");
    proof {
        assert(out@ =~= spec_group_text(g@));
    }
    out
}

fn flush_state(st: ScanState) -> (r: ScanState)
    ensures
        r@ == spec_flush(st@),
{
    match st.pending {
        Some(g) => {
            let text = group_text(&g);
            if g.audio {
                let mut audio_out = st.audio_out;
                audio_out.append(text.as_str());
                ScanState { region: st.region, pending: None, game_out: st.game_out, audio_out }
            } else {
                let mut game_out = st.game_out;
                game_out.append(text.as_str());
                ScanState { region: st.region, pending: None, game_out, audio_out: st.audio_out }
            }
        },
        None => st,
    }
}

fn scan_step(st: ScanState, line: &str) -> (r: ScanState)
    ensures
        r@ == spec_scan_step(st@, line@),
{
    let t = trim_str(line);
    if t.unicode_len() == 0 {
        st
    } else if starts_with_str(t, "Game Packages") {
        let f = flush_state(st);
        ScanState {
            region: Region::Game,
            pending: f.pending,
            game_out: f.game_out,
            audio_out: f.audio_out,
        }
    } else if starts_with_str(t, "Audio Packages") {
        let f = flush_state(st);
        ScanState {
            region: Region::Audio,
            pending: f.pending,
            game_out: f.game_out,
            audio_out: f.audio_out,
        }
    } else if st.region == Region::Game && starts_with_str(t, "[Part ") {
        let f = flush_state(st);
        let n = t.unicode_len();
        let h = t.substring_char("[Part ".unicode_len(), n);
        let head = if ends_with_str(h, "]") {
            String::from_str(h.substring_char(0, h.unicode_len() - "]".unicode_len()))
        } else {
            String::from_str(h)
        };
        proof {
            assert(head@ == spec_part_head(t@));
        }
        ScanState {
            region: f.region,
            pending: Some(Group { audio: false, head, url: None, size: None }),
            game_out: f.game_out,
            audio_out: f.audio_out,
        }
    } else if st.region == Region::Audio && starts_with_str(t, "[Language] ") {
        let f = flush_state(st);
        let n = t.unicode_len();
        let head = String::from_str(t.substring_char("[Language] ".unicode_len(), n));
        ScanState {
            region: f.region,
            pending: Some(Group { audio: true, head, url: None, size: None }),
            game_out: f.game_out,
            audio_out: f.audio_out,
        }
    } else {
        let has_url = match &st.pending {
            Some(g) => g.url.is_some(),
            None => false,
        };
        let has_size = match &st.pending {
            Some(g) => g.size.is_some(),
            None => false,
        };
        let is_pending = st.pending.is_some();
        if is_pending && !has_url && starts_with_str(t, "[URL] ") {
            let n = t.unicode_len();
            let url = String::from_str(t.substring_char("[URL] ".unicode_len(), n));
            match st.pending {
                Some(g) => ScanState {
                    region: st.region,
                    pending: Some(
                        Group { audio: g.audio, head: g.head, url: Some(url), size: g.size },
                    ),
                    game_out: st.game_out,
                    audio_out: st.audio_out,
                },
                None => st,  // unreachable: pending was checked above
            }
        } else if is_pending && !has_size && starts_with_str(t, "[Size] ") {
            let n = t.unicode_len();
            let h = t.substring_char("[Size] ".unicode_len(), n);
            let size = if ends_with_str(h, "GB") {
                String::from_str(h.substring_char(0, h.unicode_len() - "GB".unicode_len()))
            } else {
                String::from_str(h)
            };
            proof {
                assert(size@ == spec_size_head(t@));
            }
            match st.pending {
                Some(g) => ScanState {
                    region: st.region,
                    pending: Some(
                        Group { audio: g.audio, head: g.head, url: g.url, size: Some(size) },
                    ),
                    game_out: st.game_out,
                    audio_out: st.audio_out,
                },
                None => st,  // unreachable: pending was checked above
            }
        } else {
            st
        }
    }
}

/// Re-derives the short share message from the main report's text: one line
/// pair per game part, the regional-audio hint, then one line pair per audio
/// pack with the share-message language wording.
pub fn derive_share_message(text: &str) -> (r: String)
    ensures
        r@ == spec_derive_share_message(text@),
{
    let lines = split_lines(text);
    let ghost ls = lines@.map_values(|l: String| l@);
    let mut st = ScanState {
        region: Region::Outside,
        pending: None,
        game_out: String::new(),
        audio_out: String::new(),
    };
    let mut i: usize = 0;
    proof {
        assert(ls.take(0) =~= Seq::<Seq<char>>::empty());
    }
    while i < lines.len()
        invariant
            0 <= i <= lines@.len(),
            ls == lines@.map_values(|l: String| l@),
            ls.len() == lines@.len(),
            st@ == spec_scan(ls.take(i as int)),
        decreases lines@.len() - i,
    {
        st = scan_step(st, lines[i].as_str());
        proof {
            assert(ls.take(i + 1).drop_last() =~= ls.take(i as int));
            assert(ls.take(i + 1).last() == ls[i as int]);
            assert(ls[i as int] == lines@[i as int]@);
        }
        i += 1;
    }
    proof {
        assert(ls.take(ls.len() as int) =~= ls);
    }
    let fin = flush_state(st);
    let mut out = fin.game_out;
    out.append("You will also need the audio pack for your region.\n");
    out.append(fin.audio_out.as_str());
    out
}

} // verus!
