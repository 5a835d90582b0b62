//! Finding music files and writing playlists of them.

use crate::text::{
    chars_of, clone_strings, join, join_strings, replace, replace_str, same_chars, views,
};
use crate::json::{fields_view, find_field, lookup, JsonModel, JsonValue};
use crate::pipeline::{optional_field, optional_text};
use crate::text::text_view;
use crate::tool::{base_name, write_base_name};
use vstd::prelude::*;
use vstd::string::StringExecFns;

verus! {

/// A request to the music tool: what to look for, from the widest part to
/// the narrowest, and whether the finds are only to be listed.
#[derive(Debug)]
pub struct QueryData {
    pub genre: Option<String>,
    pub artist: Option<String>,
    pub album: Option<String>,
    pub song: Option<String>,
    pub search: bool,
}

/// The model of a [`QueryData`].
pub struct QueryModel {
    pub genre: Option<Seq<char>>,
    pub artist: Option<Seq<char>>,
    pub album: Option<Seq<char>>,
    pub song: Option<Seq<char>>,
    pub search: bool,
}

impl View for QueryData {
    type V = QueryModel;

    open spec fn view(&self) -> QueryModel {
        QueryModel {
            genre: text_view(self.genre),
            artist: text_view(self.artist),
            album: text_view(self.album),
            song: text_view(self.song),
            search: self.search,
        }
    }
}

/// A mark that may be absent, and then is not set.
pub open spec fn optional_mark(v: Option<JsonModel>) -> Option<bool> {
    match v {
        None => Some(false),
        Some(JsonModel::Bool(b)) => Some(b),
        Some(_) => None,
    }
}

/// The request that a posted document holds: each part is a string, `null`
/// or absent; `search` may be absent, and then is not set.
pub open spec fn request_of(doc: JsonModel) -> Option<QueryModel> {
    match doc {
        JsonModel::Object(f) => match (
            optional_text(lookup(f, "genre"@)),
            optional_text(lookup(f, "artist"@)),
            optional_text(lookup(f, "album"@)),
            optional_text(lookup(f, "song"@)),
            optional_mark(lookup(f, "search"@)),
        ) {
            (Some(genre), Some(artist), Some(album), Some(song), Some(search)) => Some(
                QueryModel { genre, artist, album, song, search },
            ),
            _ => None,
        },
        _ => None,
    }
}

/// A request to play an author's music, or one album of it.
#[derive(Debug)]
pub struct PlayData {
    pub author: String,
    pub album: Option<String>,
}

/// The request to play that a posted document holds: `author` is needed;
/// `album` is a string, `null` or absent.
pub open spec fn play_of(doc: JsonModel) -> Option<(Seq<char>, Option<Seq<char>>)> {
    match doc {
        JsonModel::Object(f) => match (lookup(f, "author"@), optional_text(lookup(f, "album"@))) {
            (Some(JsonModel::Str(author)), Some(album)) => Some((author, album)),
            _ => None,
        },
        _ => None,
    }
}

impl PlayData {
    /// Reads a request to play from a posted document.
    pub fn decode(doc: &JsonValue) -> (r: Option<PlayData>)
        ensures
            match r {
                Some(p) => play_of(doc@) == Some((p.author@, text_view(p.album))),
                None => play_of(doc@) is None,
            },
    {
        match doc {
            JsonValue::Object(f) => {
                assert(doc@ == JsonModel::Object(fields_view(f@)));
                let author = match find_field(f, "author") {
                    Some(JsonValue::Str(a)) => a.clone(),
                    _ => { return None; },
                };
                match optional_field(f, "album") {
                    Some(album) => Some(PlayData { author, album }),
                    None => None,
                }
            },
            _ => None,
        }
    }
}

/// The directories in which music is looked for.
#[derive(Debug)]
pub struct MusicSettings {
    pub dirs: Vec<String>,
}

impl Default for MusicSettings {
    fn default() -> (r: Self)
        ensures
            r.dirs@.len() == 1,
            r.dirs@[0]@ == "~/Music"@,
    {
        let mut dirs: Vec<String> = Vec::new();
        dirs.push(String::from_str("~/Music"));
        MusicSettings { dirs }
    }
}

/// `tail` after `head` where `head` is there.
pub open spec fn extended(head: Option<Seq<char>>, tail: Seq<char>) -> Option<Seq<char>> {
    match head {
        Some(h) => Some(h + tail),
        None => None,
    }
}

/// What follows the last `.` of a name; none where the name has no `.`.
pub open spec fn after_last_dot(name: Seq<char>) -> Option<Seq<char>>
    decreases name.len(),
{
    if name.len() == 0 {
        None
    } else if name.last() == '.' {
        Some(Seq::empty())
    } else {
        extended(after_last_dot(name.drop_last()), seq![name.last()])
    }
}

/// The extension of a file's path: what follows the last `.` of its last
/// part; none where that part has no `.` but at its start.
pub open spec fn extension(path: Seq<char>) -> Option<Seq<char>> {
    let name = base_name(path);
    match after_last_dot(name) {
        Some(e) => if e.len() + 1 == name.len() {
            None
        } else {
            Some(e)
        },
        None => None,
    }
}

/// A letter of `A` to `Z` as its small letter; any other character as it is.
pub open spec fn lower(c: char) -> char {
    if 0x41 <= c as u32 <= 0x5a {
        ((c as u32) + 0x20) as u8 as char
    } else {
        c
    }
}

/// A text with its letters of `A` to `Z` made small.
pub open spec fn lowered(s: Seq<char>) -> Seq<char> {
    Seq::new(s.len(), |i: int| lower(s[i]))
}

/// Whether an extension, in small letters, is one of a music file.
pub open spec fn is_music_extension(e: Seq<char>) -> bool {
    e == "mp3"@ || e == "flac"@ || e == "wav"@ || e == "ogg"@ || e == "m4a"@
}

/// Whether a path names a music file, by its extension.
pub open spec fn is_music(path: Seq<char>) -> bool {
    extension(path) matches Some(e) && is_music_extension(lowered(e))
}

/// Tells music files from others by their extension.
pub fn is_music_file(path: &str) -> (b: bool)
    ensures
        b == is_music(path@),
{
    let name = write_base_name(path);
    let cs = chars_of(name.as_str());
    let mut start: usize = cs.len();
    proof {
        assert(cs@.subrange(start as int, cs.len() as int).len() == 0);
        assert(cs@.take(cs.len() as int) == cs@);
        assert(extended(after_last_dot(cs@), Seq::empty()) == after_last_dot(cs@)) by {
            if after_last_dot(cs@) is Some {
                assert(after_last_dot(cs@)->0 + Seq::<char>::empty() == after_last_dot(cs@)->0);
            }
        }
    }
    while start > 0 && cs[start - 1] != '.'
        invariant
            start <= cs.len(),
            after_last_dot(cs@) == extended(
                after_last_dot(cs@.take(start as int)),
                cs@.subrange(start as int, cs.len() as int),
            ),
        decreases start,
    {
        proof {
            let head = cs@.take(start as int);
            assert(head.drop_last() == cs@.take(start - 1));
            let inner = after_last_dot(head.drop_last());
            if inner is Some {
                assert((inner->0 + seq![head.last()]) + cs@.subrange(
                    start as int,
                    cs.len() as int,
                ) == inner->0 + cs@.subrange(start - 1, cs.len() as int));
            }
        }
        start -= 1;
    }
    if start == 0 {
        proof {
            assert(cs@.take(0).len() == 0);
        }
        return false;
    }
    proof {
        assert(cs@.take(start as int).last() == '.');
        assert(Seq::<char>::empty() + cs@.subrange(start as int, cs.len() as int)
            == cs@.subrange(start as int, cs.len() as int));
    }
    if start == 1 {
        return false;
    }
    let mut small: Vec<char> = Vec::new();
    let mut i: usize = start;
    while i < cs.len()
        invariant
            start <= i <= cs.len(),
            small.len() == i - start,
            forall|k: int| 0 <= k < i - start ==> small@[k] == lower(cs@[start + k]),
        decreases cs.len() - i,
    {
        let c = cs[i];
        let u: u32 = c as u32;
        if 0x41 <= u && u <= 0x5a {
            small.push(((u + 0x20) as u8) as char);
        } else {
            small.push(c);
        }
        i += 1;
    }
    assert(small@ =~= lowered(cs@.subrange(start as int, cs.len() as int)));
    let mp3 = chars_of("mp3");
    let flac = chars_of("flac");
    let wav = chars_of("wav");
    let ogg = chars_of("ogg");
    let m4a = chars_of("m4a");
    same_chars(small.as_slice(), mp3.as_slice()) || same_chars(small.as_slice(), flac.as_slice())
        || same_chars(small.as_slice(), wav.as_slice()) || same_chars(
        small.as_slice(),
        ogg.as_slice(),
    ) || same_chars(small.as_slice(), m4a.as_slice())
}

/// A path with `/` in the place of every `\`.
pub open spec fn unix_path(path: Seq<char>) -> Seq<char> {
    replace(path, "\\"@, "/"@)
}

/// The title under which a song stands in a playlist: the last part of its
/// path, with plain hyphens in the place of long dashes.
pub open spec fn song_title(path: Seq<char>) -> Seq<char> {
    replace(replace(base_name(unix_path(path)), "—"@, "-"@), "–"@, "-"@)
}

/// The two lines of a song in a playlist.
pub open spec fn song_entry(path: Seq<char>) -> Seq<char> {
    "#EXTINF:-1,"@ + song_title(path) + "\n"@ + unix_path(path) + "\n"@
}

/// The text of a playlist of songs, in order.
pub open spec fn playlist(songs: Seq<Seq<char>>) -> Seq<char>
    decreases songs.len(),
{
    if songs.len() == 0 {
        "#EXTM3U\n"@
    } else {
        playlist(songs.drop_last()) + song_entry(songs.last())
    }
}

/// Writes the text of a playlist of songs, given by their paths.
pub fn create_playlist(songs: &Vec<String>) -> (out: String)
    ensures
        out@ == playlist(views(songs@)),
{
    let mut out = String::from_str("#EXTM3U\n");
    let mut i: usize = 0;
    assert(views(songs@).take(0).len() == 0);
    while i < songs.len()
        invariant
            i <= songs.len(),
            out@ == playlist(views(songs@).take(i as int)),
        decreases songs.len() - i,
    {
        let ghost before = out@;
        proof {
            let next = views(songs@).take(i as int + 1);
            assert(next.drop_last() == views(songs@).take(i as int));
            assert(next.last() == songs@[i as int]@);
        }
        let path = replace_str(songs[i].as_str(), "\\", "/");
        let name = write_base_name(path.as_str());
        let name = replace_str(name.as_str(), "—", "-");
        let title = replace_str(name.as_str(), "–", "-");
        out.append("#EXTINF:-1,");
        out.append(title.as_str());
        out.append("\n");
        out.append(path.as_str());
        out.append("\n");
        proof {
            let e = songs@[i as int]@;
            assert(out@ == before + "#EXTINF:-1,"@ + song_title(e) + "\n"@ + unix_path(e) + "\n"@);
            assert(out@ =~= before + song_entry(e));
        }
        i += 1;
    }
    assert(views(songs@).take(songs.len() as int) == views(songs@));
    out
}

/// Picks what is played of the finds of the last level that was searched:
/// all of them where a genre was asked for and no artist, and else the
/// first, where there is one.
pub fn pick_playlists(level: &Vec<String>, genre_given: bool, artist_given: bool) -> (out: Vec<
    String,
>)
    ensures
        out@ == if genre_given && !artist_given {
            level@
        } else if level@.len() == 0 {
            Seq::<String>::empty()
        } else {
            level@.take(1)
        },
{
    if genre_given && !artist_given {
        clone_strings(level)
    } else {
        let mut out: Vec<String> = Vec::new();
        if level.len() > 0 {
            out.push(level[0].clone());
        }
        if level.len() > 0 {
            assert(out@ =~= level@.take(1));
        }
        out
    }
}

/// The parts of a request that are there, from the widest to the narrowest.
pub open spec fn named_parts(q: QueryData) -> Seq<Seq<char>> {
    let genre = match q.genre {
        Some(t) => seq![t@],
        None => Seq::empty(),
    };
    let artist = match q.artist {
        Some(t) => genre.push(t@),
        None => genre,
    };
    let album = match q.album {
        Some(t) => artist.push(t@),
        None => artist,
    };
    match q.song {
        Some(t) => album.push(t@),
        None => album,
    }
}

impl QueryData {
    /// Reads a request from a posted document.
    pub fn decode(doc: &JsonValue) -> (r: Option<QueryData>)
        ensures
            match r {
                Some(q) => request_of(doc@) == Some(q@),
                None => request_of(doc@) is None,
            },
    {
        match doc {
            JsonValue::Object(f) => {
                assert(doc@ == JsonModel::Object(fields_view(f@)));
                let genre = match optional_field(f, "genre") {
                    Some(t) => t,
                    None => { return None; },
                };
                let artist = match optional_field(f, "artist") {
                    Some(t) => t,
                    None => { return None; },
                };
                let album = match optional_field(f, "album") {
                    Some(t) => t,
                    None => { return None; },
                };
                let song = match optional_field(f, "song") {
                    Some(t) => t,
                    None => { return None; },
                };
                let search = match find_field(f, "search") {
                    None => false,
                    Some(JsonValue::Bool(b)) => *b,
                    Some(_) => { return None; },
                };
                Some(QueryData { genre, artist, album, song, search })
            },
            _ => None,
        }
    }

    /// How the music that is looked for is called in messages: its parts,
    /// with ` / ` between them.
    pub fn name(&self) -> (out: String)
        ensures
            out@ == join(named_parts(*self), " / "@),
    {
        let mut parts: Vec<String> = Vec::new();
        match &self.genre {
            Some(t) => {
                parts.push(t.clone());
            },
            None => {},
        }
        match &self.artist {
            Some(t) => {
                parts.push(t.clone());
            },
            None => {},
        }
        match &self.album {
            Some(t) => {
                parts.push(t.clone());
            },
            None => {},
        }
        match &self.song {
            Some(t) => {
                parts.push(t.clone());
            },
            None => {},
        }
        assert(views(parts@) =~= named_parts(*self));
        join_strings(&parts, " / ")
    }
}

} // verus!
