//! The catalogue's data records and the timeline's media-type codes.
use vstd::prelude::*;
use vstd::string::StrSliceExecFns;

verus! {

/// The page content returned by the site's visual-editor API.
#[derive(Debug)]
pub struct VisualEditor {
    pub result: String,
    pub etag: String,
    pub basetimestamp: String,
    pub starttimestamp: String,
    pub content: String,
}

/// The envelope of a visual-editor API response.
#[derive(Debug)]
pub struct VisualEditorResponse {
    pub visualeditor: VisualEditor,
}

/// An in-universe date: how it is written, and its year.
#[derive(Debug)]
pub struct IUDate {
    pub display: String,
    pub year: i32,
}

/// The kind of a timeline entry, as the timeline table's type column codes it.
#[derive(Debug, Clone, Copy, PartialEq, Eq, Structural)]
pub enum TimelineType {
    Comic,
    Novel,
    Audio,
    ShortStory,
    YoungReader,
    JuniorNovel,
    TV,
    Film,
    VideoGame,
    Rpg,
    Promotional,
    Gamebook,
}

/// The kind of a catalogued medium.
#[derive(Debug, Clone, Copy, PartialEq, Eq, Structural)]
pub enum MediaType {
    Film,
    TVLiveAction,
    TVAnimated,
    TVMicroSeries,
    VideoGameDesktopConsole,
    VideoGameVR,
    VideoGameMobile,
    VideoGameBrowser,
    NovelAdult,
    NovelYoungAdult,
    NovelJunior,
    AudioDrama,
    Comic,
    ComicManga,
    ComicStrip,
    ComicStory,
    ShortStory,
    YoungReader,
}

/// A catalogued medium.
#[derive(Debug)]
pub struct Media {
    pub page_id: String,
    pub title: String,
    pub type_: MediaType,
}

/// The code that stands for `t` in a timeline table.
pub open spec fn timeline_code(t: TimelineType) -> Seq<char> {
    match t {
        TimelineType::Comic => seq!['C'],
        TimelineType::Novel => seq!['N'],
        TimelineType::Audio => seq!['A'],
        TimelineType::ShortStory => seq!['S', 'S'],
        TimelineType::YoungReader => seq!['Y', 'R'],
        TimelineType::JuniorNovel => seq!['J', 'R'],
        TimelineType::TV => seq!['T', 'V'],
        TimelineType::Film => seq!['F'],
        TimelineType::VideoGame => seq!['V', 'G'],
        TimelineType::Rpg => seq!['R', 'P', 'G'],
        TimelineType::Promotional => seq!['P'],
        TimelineType::Gamebook => seq!['G', 'B'],
    }
}

/// The timeline type that `code` stands for, if any.
pub fn timeline_type(code: &str) -> (r: Option<TimelineType>)
    ensures
        match r {
            Some(t) => code@ == timeline_code(t),
            None => forall|t: TimelineType| code@ != #[trigger] timeline_code(t),
        },
{
    let n = code.unicode_len();
    let r = if n == 1 {
        let a = code.get_char(0);
        if a == 'C' {
            Some(TimelineType::Comic)
        } else if a == 'N' {
            Some(TimelineType::Novel)
        } else if a == 'A' {
            Some(TimelineType::Audio)
        } else if a == 'F' {
            Some(TimelineType::Film)
        } else if a == 'P' {
            Some(TimelineType::Promotional)
        } else {
            None
        }
    } else if n == 2 {
        let a = code.get_char(0);
        let b = code.get_char(1);
        if a == 'S' && b == 'S' {
            Some(TimelineType::ShortStory)
        } else if a == 'Y' && b == 'R' {
            Some(TimelineType::YoungReader)
        } else if a == 'J' && b == 'R' {
            Some(TimelineType::JuniorNovel)
        } else if a == 'T' && b == 'V' {
            Some(TimelineType::TV)
        } else if a == 'V' && b == 'G' {
            Some(TimelineType::VideoGame)
        } else if a == 'G' && b == 'B' {
            Some(TimelineType::Gamebook)
        } else {
            None
        }
    } else if n == 3 {
        let a = code.get_char(0);
        let b = code.get_char(1);
        let c = code.get_char(2);
        if a == 'R' && b == 'P' && c == 'G' {
            Some(TimelineType::Rpg)
        } else {
            None
        }
    } else {
        None
    };
    proof {
        match r {
            Some(t) => {
                assert(code@ =~= timeline_code(t));
            },
            None => {
                assert forall|t: TimelineType| code@ != #[trigger] timeline_code(t) by {
                    if code@ == timeline_code(t) {
                        assert(code@.len() == timeline_code(t).len());
                    }
                }
            },
        }
    }
    r
}

} // verus!
