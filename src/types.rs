use vstd::prelude::*;

verus! {

/// The Open-Graph media type of a page.
#[derive(Debug, Clone, Copy, PartialEq, Eq, Structural)]
pub enum OgType {
    MusicSong,
    MusicAlbum,
    MusicPlaylist,
    MusicRadioStation,
    VideoMovie,
    VideoEpisode,
    VideoTvShow,
    VideoOther,
    Article,
    Book,
    Profile,
    Website,
}

/// The media type that an `og:type` value denotes; unknown values denote a website.
pub open spec fn meta_type(s: Seq<char>) -> OgType {
    if s == "music.song"@ {
        OgType::MusicSong
    } else if s == "music.album"@ {
        OgType::MusicAlbum
    } else if s == "music.playlist"@ {
        OgType::MusicPlaylist
    } else if s == "music.radio_station"@ {
        OgType::MusicRadioStation
    } else if s == "video.movie"@ {
        OgType::VideoMovie
    } else if s == "video.episode"@ {
        OgType::VideoEpisode
    } else if s == "video.tv_show"@ {
        OgType::VideoTvShow
    } else if s == "video.other"@ {
        OgType::VideoOther
    } else if s == "article"@ {
        OgType::Article
    } else if s == "book"@ {
        OgType::Book
    } else if s == "profile"@ {
        OgType::Profile
    } else {
        OgType::Website
    }
}

/// Whether two strings hold the same characters.
pub fn same_text(a: &str, b: &str) -> (r: bool)
    ensures
        r == (a@ == b@),
{
    let n = a.unicode_len();
    if n != b.unicode_len() {
        return false;
    }
    let mut i: usize = 0;
    while i < n
        invariant
            n == a@.len(),
            n == b@.len(),
            i <= n,
            forall|j: int| 0 <= j < i ==> a@[j] == b@[j],
        decreases n - i,
    {
        if a.get_char(i) != b.get_char(i) {
            return false;
        }
        i = i + 1;
    }
    assert(a@ =~= b@);
    true
}

impl Default for OgType {
    fn default() -> (r: OgType)
        ensures
            r == OgType::Website,
    {
        OgType::Website
    }
}

impl OgType {
    /// Reads the value of an `og:type` meta tag.
    pub fn from_meta(s: &str) -> (r: OgType)
        ensures
            r == meta_type(s@),
    {
        if same_text(s, "music.song") {
            OgType::MusicSong
        } else if same_text(s, "music.album") {
            OgType::MusicAlbum
        } else if same_text(s, "music.playlist") {
            OgType::MusicPlaylist
        } else if same_text(s, "music.radio_station") {
            OgType::MusicRadioStation
        } else if same_text(s, "video.movie") {
            OgType::VideoMovie
        } else if same_text(s, "video.episode") {
            OgType::VideoEpisode
        } else if same_text(s, "video.tv_show") {
            OgType::VideoTvShow
        } else if same_text(s, "video.other") {
            OgType::VideoOther
        } else if same_text(s, "article") {
            OgType::Article
        } else if same_text(s, "book") {
            OgType::Book
        } else if same_text(s, "profile") {
            OgType::Profile
        } else {
            OgType::Website
        }
    }
}

/// The view of an optional string.
pub open spec fn opt_view(o: Option<String>) -> Option<Seq<char>> {
    match o {
        Some(s) => Some(s@),
        None => None,
    }
}

/// What a metadata record holds, as mathematical values.
pub ghost struct WebDataView {
    pub title: Seq<char>,
    pub kind: OgType,
    pub description: Option<Seq<char>>,
    pub image: Option<Seq<char>>,
    pub author: Seq<Seq<char>>,
    pub colour: Option<Seq<char>>,
}

/// The metadata extracted from one page.
#[derive(Debug, Clone, PartialEq, Eq)]
pub struct WebData {
    /// Website title
    pub title: String,
    /// Open-Graph media type
    pub kind: OgType,
    /// Open-Graph provided description
    pub description: Option<String>,
    /// Open-Graph banner image
    pub image: Option<String>,
    /// Open-Graph authors
    pub author: Vec<String>,
    /// Accent colour of the website
    pub colour: Option<String>,
}

impl View for WebData {
    type V = WebDataView;

    open spec fn view(&self) -> WebDataView {
        WebDataView {
            title: self.title@,
            kind: self.kind,
            description: opt_view(self.description),
            image: opt_view(self.image),
            author: self.author@.map_values(|a: String| a@),
            colour: opt_view(self.colour),
        }
    }
}

impl Default for WebData {
    fn default() -> (r: WebData)
        ensures
            r@ == (WebDataView {
                title: Seq::empty(),
                kind: OgType::Website,
                description: None,
                image: None,
                author: Seq::empty(),
                colour: None,
            }),
    {
        let r = WebData {
            title: String::new(),
            kind: OgType::Website,
            description: None,
            image: None,
            author: Vec::new(),
            colour: None,
        };
        assert(r.author@.map_values(|a: String| a@) =~= Seq::<Seq<char>>::empty());
        r
    }
}

} // verus!
