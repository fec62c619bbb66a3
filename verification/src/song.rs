//! The track that is playing: its texts and its cover picture.

use lofty::file::TaggedFileExt;
use lofty::tag::Accessor;
use vstd::prelude::*;
use vstd::string::StringExecFns;

use crate::imaging::{image_from_memory, load_image};
use crate::text::{join, join_strings, views};

verus! {

/// A track: title, artist, album and, where there is one, its cover.
#[derive(PartialEq)]
pub struct Song {
    pub title: String,
    pub artist: String,
    pub album: String,
    pub cover: Option<image::DynamicImage>,
}

impl Default for Song {
    /// A song with empty texts and no cover.
    fn default() -> (s: Self)
        ensures
            s.title@ == Seq::<char>::empty(),
            s.artist@ == Seq::<char>::empty(),
            s.album@ == Seq::<char>::empty(),
            s.cover is None,
    {
        Song { title: String::new(), artist: String::new(), album: String::new(), cover: None }
    }
}

/// The text of `o`, or `default` where there is none.
pub open spec fn text_or(o: Option<String>, default: Seq<char>) -> Seq<char> {
    match o {
        Some(s) => s@,
        None => default,
    }
}

/// The text `o`, or `default` where there is none.
pub open spec fn seq_or(o: Option<Seq<char>>, default: Seq<char>) -> Seq<char> {
    match o {
        Some(s) => s,
        None => default,
    }
}

/// The current song as MPD reports it.
#[derive(Debug)]
pub struct MpdTrack {
    /// The path of the audio file, relative to the music directory.
    pub file: String,
    pub title: Option<String>,
    pub artist: Option<String>,
}

/// A tag of an audio file: the album and the embedded pictures.
#[derive(Debug)]
pub struct TagInfo {
    pub album: Option<String>,
    /// The data of each picture, in the order the tag holds them.
    pub pictures: Vec<Vec<u8>>,
}

impl View for TagInfo {
    /// The album and the bytes of each picture.
    type V = (Option<Seq<char>>, Seq<Seq<u8>>);

    open spec fn view(&self) -> (Option<Seq<char>>, Seq<Seq<u8>>) {
        (
            match self.album {
                Some(a) => Some(a@),
                None => None,
            },
            self.pictures@.map_values(|p: Vec<u8>| p@),
        )
    }
}

/// The tags read from an audio file.
#[derive(Debug)]
pub struct TaggedFileInfo {
    /// The tag of the file type's primary tag type, where present.
    pub primary_tag: Option<TagInfo>,
    /// All tags of the file, in order.
    pub tags: Vec<TagInfo>,
}

impl View for TaggedFileInfo {
    /// The primary tag, where present, and all tags.
    type V = (Option<(Option<Seq<char>>, Seq<Seq<u8>>)>, Seq<(Option<Seq<char>>, Seq<Seq<u8>>)>);

    open spec fn view(&self) -> (Option<(Option<Seq<char>>, Seq<Seq<u8>>)>, Seq<(Option<Seq<char>>, Seq<Seq<u8>>)>) {
        (
            match self.primary_tag {
                Some(t) => Some(t@),
                None => None,
            },
            self.tags@.map_values(|t: TagInfo| t@),
        )
    }
}

/// An error of the lofty crate while reading tags.
#[verifier::external_type_specification]
#[verifier::external_body]
pub struct ExLoftyError(lofty::error::LoftyError);

/// What lofty reads from the bytes of an audio file at `path`: the file
/// type is the one `FileType::from_path` names for the path, as
/// `Probe::open` picks it, then `Probe::read` parses the bytes; the view of
/// the tags it finds, or its error. It depends on the bytes and the path.
pub uninterp spec fn lofty_tags(data: Seq<u8>, path: Seq<char>) -> Result<
    (Option<(Option<Seq<char>>, Seq<Seq<u8>>)>, Seq<(Option<Seq<char>>, Seq<Seq<u8>>)>),
    lofty::error::LoftyError,
>;

/// Reads the tags of an audio file from its bytes as
/// `Probe::open(path)?.read()` reads them from the file: a `Probe` over the
/// bytes with the file type `FileType::from_path` names, then `read`; each
/// tag is turned into its album and the data of its pictures. Claimed: the
/// result, by its view, is `lofty_tags` of the bytes and the path.
#[verifier::external_body]
fn read_tags(data: &[u8], path: &str) -> (res: Result<TaggedFileInfo, lofty::error::LoftyError>)
    ensures
        match res {
            Ok(info) => lofty_tags(data@, path@) == Ok::<
                (Option<(Option<Seq<char>>, Seq<Seq<u8>>)>, Seq<(Option<Seq<char>>, Seq<Seq<u8>>)>),
                lofty::error::LoftyError,
            >(info@),
            Err(e) => lofty_tags(data@, path@) == Err::<
                (Option<(Option<Seq<char>>, Seq<Seq<u8>>)>, Seq<(Option<Seq<char>>, Seq<Seq<u8>>)>),
                lofty::error::LoftyError,
            >(e),
        },
{
    let cursor = std::io::Cursor::new(data);
    let probe = match lofty::file::FileType::from_path(path) {
        Some(file_type) => lofty::probe::Probe::with_file_type(cursor, file_type),
        None => lofty::probe::Probe::new(cursor),
    };
    let tagged = probe.read()?;
    let info = |tag: &lofty::tag::Tag| TagInfo {
        album: tag.album().map(|album| album.into_owned()),
        pictures: tag.pictures().iter().map(|picture| picture.data().to_vec()).collect(),
    };
    Ok(TaggedFileInfo { primary_tag: tagged.primary_tag().map(info), tags: tagged.tags().iter().map(info).collect() })
}

/// The tag a song is read from: the primary tag, else the first tag.
pub open spec fn chosen_tag(
    tagged: (Option<(Option<Seq<char>>, Seq<Seq<u8>>)>, Seq<(Option<Seq<char>>, Seq<Seq<u8>>)>),
) -> Option<(Option<Seq<char>>, Seq<Seq<u8>>)> {
    match tagged.0 {
        Some(t) => Some(t),
        None => if tagged.1.len() > 0 { Some(tagged.1[0]) } else { None },
    }
}

/// What keeps a song from being read from MPD and its file, in the order
/// the reading meets it.
#[derive(Debug)]
pub enum MpdSongProblem {
    /// lofty cannot read the audio file.
    UnreadableFile(lofty::error::LoftyError),
    /// The audio file has no tag.
    NoTags,
    /// The chosen tag holds no picture.
    NoPicture,
    /// The first picture does not decode.
    CoverNotDecoded(image::ImageError),
    /// MPD reports no title.
    MissingTitle,
    /// MPD reports no artist.
    MissingArtist,
}

/// The song read from what MPD reports and the tags of its file, or the
/// first thing that is missing: the tag is the primary one, else the first;
/// its first picture, decoded with its format guessed from its bytes, is
/// the cover; the album is `None` where the tag names none; title and
/// artist come from MPD.
pub open spec fn mpd_song(
    track: MpdTrack,
    tagged: (Option<(Option<Seq<char>>, Seq<Seq<u8>>)>, Seq<(Option<Seq<char>>, Seq<Seq<u8>>)>),
    res: Result<Song, MpdSongProblem>,
) -> bool {
    match chosen_tag(tagged) {
        None => res matches Err(MpdSongProblem::NoTags),
        Some(tag) => {
            if tag.1.len() == 0 {
                res matches Err(MpdSongProblem::NoPicture)
            } else {
                match image_from_memory(tag.1[0]) {
                    Err(e) => res matches Err(MpdSongProblem::CoverNotDecoded(d)) && d == e,
                    Ok(picture) => match track.title {
                        None => res matches Err(MpdSongProblem::MissingTitle),
                        Some(title) => match track.artist {
                            None => res matches Err(MpdSongProblem::MissingArtist),
                            Some(artist) => res matches Ok(song) && song.title@ == title@ && song.artist@
                                == artist@ && song.album@ == seq_or(tag.0, "None"@) && song.cover == Some(
                                picture,
                            ),
                        },
                    },
                }
            }
        },
    }
}

/// The path of a file of the music library.
pub fn library_path(music_library_dir: &str, file: &str) -> (path: String)
    ensures
        path@ == music_library_dir@ + "/"@ + file@,
{
    let mut path = String::from_str(music_library_dir);
    path.append("/");
    path.append(file);
    path
}

impl Song {
    /// The song MPD reports, with the album and the cover read from the
    /// chosen tag of its audio file; where something is missing, the first
    /// missing thing is reported.
    pub fn from_mpd(track: MpdTrack, tagged: &TaggedFileInfo) -> (res: Result<Song, MpdSongProblem>)
        ensures
            mpd_song(track, tagged@, res),
    {
        let tag = match &tagged.primary_tag {
            Some(t) => t,
            None => {
                if tagged.tags.len() == 0 {
                    return Err(MpdSongProblem::NoTags);
                }
                &tagged.tags[0]
            },
        };
        assert(chosen_tag(tagged@) == Some(tag@));
        if tag.pictures.len() == 0 {
            return Err(MpdSongProblem::NoPicture);
        }
        assert(tag@.1[0] == tag.pictures@[0]@);
        let album = match &tag.album {
            Some(a) => a.clone(),
            None => String::from_str("None"),
        };
        let cover = match load_image(tag.pictures[0].as_slice()) {
            Ok(picture) => picture,
            Err(e) => {
                return Err(MpdSongProblem::CoverNotDecoded(e));
            },
        };
        let title = match track.title {
            Some(t) => t,
            None => {
                return Err(MpdSongProblem::MissingTitle);
            },
        };
        let artist = match track.artist {
            Some(a) => a,
            None => {
                return Err(MpdSongProblem::MissingArtist);
            },
        };
        Ok(Song { title, artist, album, cover: Some(cover) })
    }

    /// The song MPD reports, read from the bytes of its audio file, the file
    /// at `music_library_dir/file`: lofty reads the tags, then `from_mpd`.
    pub fn from_mpd_file(track: MpdTrack, music_library_dir: &str, file_bytes: &[u8]) -> (res: Result<
        Song,
        MpdSongProblem,
    >)
        ensures
            match lofty_tags(file_bytes@, music_library_dir@ + "/"@ + track.file@) {
                Err(e) => res matches Err(MpdSongProblem::UnreadableFile(d)) && d == e,
                Ok(tagged) => mpd_song(track, tagged, res),
            },
    {
        let path = library_path(music_library_dir, track.file.as_str());
        match read_tags(file_bytes, path.as_str()) {
            Err(e) => Err(MpdSongProblem::UnreadableFile(e)),
            Ok(tagged) => Song::from_mpd(track, &tagged),
        }
    }
}

/// The metadata an MPRIS player reports for its current track.
#[derive(Debug)]
pub struct MprisMetadata {
    pub title: Option<String>,
    pub artists: Option<Vec<String>>,
    pub album_name: Option<String>,
    /// Where the cover art can be fetched.
    pub art_url: Option<String>,
}

/// The artist text of an MPRIS track: the artists joined by `& `.
pub open spec fn mpris_artist(artists: Option<Vec<String>>) -> Seq<char> {
    match artists {
        Some(a) => join(views(a@), "& "@),
        None => "<missing artist>"@,
    }
}

impl Song {
    /// The song an MPRIS player reports, with the given cover; a missing
    /// title, artist list or album is shown as `<missing title>`,
    /// `<missing artist>` or `<missing album>`.
    pub fn from_mpris(metadata: &MprisMetadata, cover: Option<image::DynamicImage>) -> (song: Song)
        ensures
            song.title@ == text_or(metadata.title, "<missing title>"@),
            song.artist@ == mpris_artist(metadata.artists),
            song.album@ == text_or(metadata.album_name, "<missing album>"@),
            song.cover == cover,
    {
        let title = match &metadata.title {
            Some(t) => t.clone(),
            None => String::from_str("<missing title>"),
        };
        let artist = match &metadata.artists {
            Some(a) => join_strings(a, "& "),
            None => String::from_str("<missing artist>"),
        };
        let album = match &metadata.album_name {
            Some(a) => a.clone(),
            None => String::from_str("<missing album>"),
        };
        Song { title, artist, album, cover }
    }

    /// The lines `Title: ..`, `Artist: ..` and `Album: ..` that describe
    /// the song, each ended by a newline.
    pub fn describe(&self) -> (text: String)
        ensures
            text@ == "Title: "@ + self.title@ + "\n"@ + "Artist: "@ + self.artist@ + "\n"@
                + "Album: "@ + self.album@ + "\n"@,
    {
        let mut text = String::from_str("Title: ");
        text.append(self.title.as_str());
        text.append("\n");
        text.append("Artist: ");
        text.append(self.artist.as_str());
        text.append("\n");
        text.append("Album: ");
        text.append(self.album.as_str());
        text.append("\n");
        text
    }
}

/// Where reading the MPD song succeeds, the chosen tag is the primary tag,
/// else the first tag; the cover is the decoding of the picture at index 0
/// of that tag, whatever pictures follow it; the album is the tag's album,
/// or `None` where it names none; title and artist are the ones MPD reports.
pub proof fn law_mpd_song_fields(
    track: MpdTrack,
    tagged: (Option<(Option<Seq<char>>, Seq<Seq<u8>>)>, Seq<(Option<Seq<char>>, Seq<Seq<u8>>)>),
    res: Result<Song, MpdSongProblem>,
)
    requires
        mpd_song(track, tagged, res),
        res is Ok,
    ensures
        tagged.0 is Some || tagged.1.len() > 0,
        ({
            let tag = if tagged.0 is Some { tagged.0->Some_0 } else { tagged.1[0] };
            let song = res->Ok_0;
            &&& tag.1.len() > 0
            &&& image_from_memory(tag.1[0]) is Ok
            &&& song.cover == Some(image_from_memory(tag.1[0])->Ok_0)
            &&& song.album@ == (if tag.0 is Some { tag.0->Some_0 } else { "None"@ })
            &&& track.title is Some && song.title@ == track.title->Some_0@
            &&& track.artist is Some && song.artist@ == track.artist->Some_0@
        }),
{
}

/// Where reading the MPD song fails, the first missing thing is reported,
/// in this order: no tag, no picture in the chosen tag, a first picture
/// that does not decode (with the decoder's error), no title, no artist.
pub proof fn law_mpd_song_problems(
    track: MpdTrack,
    tagged: (Option<(Option<Seq<char>>, Seq<Seq<u8>>)>, Seq<(Option<Seq<char>>, Seq<Seq<u8>>)>),
    res: Result<Song, MpdSongProblem>,
)
    requires
        mpd_song(track, tagged, res),
    ensures
        tagged.0 is None && tagged.1.len() == 0 ==> (res matches Err(MpdSongProblem::NoTags)),
        ({
            let tag = if tagged.0 is Some { tagged.0->Some_0 } else { tagged.1[0] };
            (tagged.0 is Some || tagged.1.len() > 0) ==> {
                &&& tag.1.len() == 0 ==> (res matches Err(MpdSongProblem::NoPicture))
                &&& tag.1.len() > 0 && image_from_memory(tag.1[0]) is Err ==> (res matches Err(
                    MpdSongProblem::CoverNotDecoded(e),
                ) && e == image_from_memory(tag.1[0])->Err_0)
                &&& tag.1.len() > 0 && image_from_memory(tag.1[0]) is Ok && track.title is None ==> (res matches Err(
                    MpdSongProblem::MissingTitle,
                ))
                &&& tag.1.len() > 0 && image_from_memory(tag.1[0]) is Ok && track.title is Some
                    && track.artist is None ==> (res matches Err(MpdSongProblem::MissingArtist))
            }
        }),
{
}

/// An MPRIS track without an artist list shows `<missing artist>`; one with
/// two artists shows them joined by `& `, the first one first.
pub proof fn law_mpris_artists(artists: Vec<String>)
    ensures
        mpris_artist(None) == "<missing artist>"@,
        artists@.len() == 2 ==> mpris_artist(Some(artists)) == artists@[0]@ + "& "@ + artists@[1]@,
{
    if artists@.len() == 2 {
        crate::text::law_join_two(artists@[0]@, artists@[1]@, "& "@);
        assert(views(artists@) =~= seq![artists@[0]@, artists@[1]@]);
    }
}

} // verus!
