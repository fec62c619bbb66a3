use lofty::tag::{Accessor, TagExt};
use ascii_player::app::App;
use ascii_player::ascii::{chafa_args, AsciiEngine, Rendering, Size};
use ascii_player::cover::{
    check_http_status, cover_plan, cover_source, decode_cover, decode_file_cover, CoverError, CoverSource,
};
use ascii_player::song::{
    library_path, MpdSongProblem, MpdTrack, MprisMetadata, Song, TagInfo, TaggedFileInfo,
};

fn png_bytes() -> Vec<u8> {
    let picture = image::DynamicImage::new_rgb8(4, 2);
    let mut buffer = std::io::Cursor::new(Vec::new());
    picture.write_to(&mut buffer, image::ImageOutputFormat::Png).unwrap();
    buffer.into_inner()
}

const PNG_SIGNATURE: [u8; 8] = [0x89, b'P', b'N', b'G', 0x0d, 0x0a, 0x1a, 0x0a];

#[test]
fn default_size_and_engine() {
    let size = Size::default();
    assert_eq!((size.width, size.height), (25, 25));
    assert_eq!(AsciiEngine::default(), AsciiEngine::Chafa);
}

#[test]
fn chafa_arguments() {
    assert_eq!(chafa_args(Size::default()), vec!["--size=25x25", "--format=symbols", "--colors=full"]);
    assert_eq!(chafa_args(Size { width: 80, height: 0 })[0], "--size=80x0");
}

#[test]
fn chafa_gets_a_png() {
    let picture = image::DynamicImage::new_rgb8(3, 3);
    match AsciiEngine::Chafa.render_image(&picture, Size { width: 10, height: 5 }).unwrap() {
        Rendering::Run(cmd) => {
            assert_eq!(cmd.program, "chafa");
            assert_eq!(cmd.args, vec!["--size=10x5", "--format=symbols", "--colors=full"]);
            assert_eq!(&cmd.stdin[..8], &PNG_SIGNATURE);
            let back = image::load_from_memory(&cmd.stdin).unwrap();
            assert_eq!((back.width(), back.height()), (3, 3));
        }
        other => panic!("{other:?}"),
    }
}

#[test]
fn rascii_draws_text() {
    let picture = image::DynamicImage::new_rgb8(8, 8);
    match AsciiEngine::Rascii.render_image(&picture, Size::default()).unwrap() {
        Rendering::Text(t) => assert!(!t.is_empty()),
        other => panic!("{other:?}"),
    }
}

#[test]
fn cover_of_app_uses_engine() {
    let song = Song {
        title: String::new(),
        artist: String::new(),
        album: String::new(),
        cover: Some(image::DynamicImage::new_rgb8(2, 2)),
    };
    let app = App::new((), song, Some(AsciiEngine::Rascii));
    assert!(matches!(app.get_cover_ascii(Size::default()).unwrap(), Rendering::Text(_)));
}

#[test]
fn library_path_joins() {
    assert_eq!(library_path("/music", "a/b.flac"), "/music/a/b.flac");
}

#[test]
fn mpris_metadata_defaults() {
    let meta = MprisMetadata { title: None, artists: None, album_name: None, art_url: None };
    let song = Song::from_mpris(&meta, None);
    assert_eq!(song.title, "<missing title>");
    assert_eq!(song.artist, "<missing artist>");
    assert_eq!(song.album, "<missing album>");
    assert!(song.cover.is_none());
}

#[test]
fn mpris_artists_are_joined() {
    let meta = MprisMetadata {
        title: Some("Song".into()),
        artists: Some(vec!["A".into(), "B".into(), "C".into()]),
        album_name: Some("Rec".into()),
        art_url: None,
    };
    let song = Song::from_mpris(&meta, Some(image::DynamicImage::new_rgb8(1, 1)));
    assert_eq!(song.title, "Song");
    assert_eq!(song.artist, "A& B& C");
    assert_eq!(song.album, "Rec");
    assert!(song.cover.is_some());
    let single = MprisMetadata { title: None, artists: Some(vec!["Solo".into()]), album_name: None, art_url: None };
    assert_eq!(Song::from_mpris(&single, None).artist, "Solo");
    let none = MprisMetadata { title: None, artists: Some(vec![]), album_name: None, art_url: None };
    assert_eq!(Song::from_mpris(&none, None).artist, "");
}

#[test]
fn describe_lines() {
    let song = Song { title: "T".into(), artist: "A".into(), album: "B".into(), cover: None };
    assert_eq!(song.describe(), "Title: T\nArtist: A\nAlbum: B\n");
}

fn track(title: Option<&str>, artist: Option<&str>) -> MpdTrack {
    MpdTrack { file: "x.mp3".into(), title: title.map(Into::into), artist: artist.map(Into::into) }
}

fn tag(album: Option<&str>, pictures: Vec<Vec<u8>>) -> TagInfo {
    TagInfo { album: album.map(Into::into), pictures }
}

#[test]
fn mpd_song_from_primary_tag() {
    let tagged = TaggedFileInfo {
        primary_tag: Some(tag(Some("Primary"), vec![png_bytes()])),
        tags: vec![tag(Some("Other"), vec![png_bytes()])],
    };
    let song = Song::from_mpd(track(Some("T"), Some("A")), &tagged).unwrap();
    assert_eq!(song.title, "T");
    assert_eq!(song.artist, "A");
    assert_eq!(song.album, "Primary");
    let expected = image::load_from_memory(&png_bytes()).unwrap();
    assert!(song.cover == Some(expected));
}

#[test]
fn mpd_song_falls_back_to_first_tag() {
    let tagged = TaggedFileInfo { primary_tag: None, tags: vec![tag(None, vec![png_bytes()]), tag(Some("Second"), vec![])] };
    let song = Song::from_mpd(track(Some("T"), Some("A")), &tagged).unwrap();
    assert_eq!(song.album, "None");
}

#[test]
fn mpd_song_problems_in_order() {
    let empty = TaggedFileInfo { primary_tag: None, tags: vec![] };
    assert!(matches!(Song::from_mpd(track(None, None), &empty), Err(MpdSongProblem::NoTags)));
    let no_picture = TaggedFileInfo { primary_tag: Some(tag(None, vec![])), tags: vec![] };
    assert!(matches!(Song::from_mpd(track(None, None), &no_picture), Err(MpdSongProblem::NoPicture)));
    let bad_picture = TaggedFileInfo { primary_tag: Some(tag(None, vec![vec![1, 2, 3]])), tags: vec![] };
    assert!(matches!(
        Song::from_mpd(track(None, None), &bad_picture),
        Err(MpdSongProblem::CoverNotDecoded(_))
    ));
    let good = TaggedFileInfo { primary_tag: Some(tag(None, vec![png_bytes()])), tags: vec![] };
    assert!(matches!(Song::from_mpd(track(None, None), &good), Err(MpdSongProblem::MissingTitle)));
    assert!(matches!(Song::from_mpd(track(Some("T"), None), &good), Err(MpdSongProblem::MissingArtist)));
}

#[test]
fn http_cover_source() {
    match cover_source("https://example.com/art/cover.jpg").unwrap() {
        CoverSource::Http { url } => assert_eq!(url, "https://example.com/art/cover.jpg"),
        other => panic!("{other:?}"),
    }
    match cover_source("HTTP://Example.COM").unwrap() {
        CoverSource::Http { url } => assert_eq!(url, "http://example.com/"),
        other => panic!("{other:?}"),
    }
}

#[test]
fn file_cover_source() {
    match cover_source("file:///tmp/cover.png").unwrap() {
        CoverSource::File { path, format_from_extension } => {
            assert_eq!(path, std::path::PathBuf::from("/tmp/cover.png"));
            assert!(format_from_extension);
        }
        other => panic!("{other:?}"),
    }
    match cover_source("file:///tmp/cover").unwrap() {
        CoverSource::File { path, format_from_extension } => {
            assert_eq!(path, std::path::PathBuf::from("/tmp/cover"));
            assert!(!format_from_extension);
        }
        other => panic!("{other:?}"),
    }
    assert!(matches!(cover_source("file://remote.host/x.png"), Err(CoverError::InvalidFileUrl)));
}

#[test]
fn refused_cover_sources() {
    assert!(matches!(cover_source("not a url"), Err(CoverError::UrlParse(_))));
    match cover_source("ftp://example.com/a.png") {
        Err(CoverError::UnsupportedScheme { scheme, url }) => {
            assert_eq!(scheme, "ftp");
            assert_eq!(url, "ftp://example.com/a.png");
        }
        other => panic!("{other:?}"),
    }
}

#[test]
fn cover_plan_without_url() {
    assert!(matches!(cover_plan(&None), Ok(None)));
    assert!(matches!(cover_plan(&Some("https://a.b/c".into())), Ok(Some(CoverSource::Http { .. }))));
    assert!(matches!(cover_plan(&Some("::".into())), Err(CoverError::UrlParse(_))));
}

#[test]
fn http_status_check() {
    assert!(check_http_status(200).is_ok());
    assert!(check_http_status(299).is_ok());
    assert!(matches!(check_http_status(199), Err(CoverError::HttpStatus(199))));
    assert!(matches!(check_http_status(300), Err(CoverError::HttpStatus(300))));
    assert!(matches!(check_http_status(404), Err(CoverError::HttpStatus(404))));
}

#[test]
fn decode_cover_bytes() {
    let picture = decode_cover(&png_bytes()).unwrap();
    assert_eq!((picture.width(), picture.height()), (4, 2));
    assert!(matches!(decode_cover(b"not a picture"), Err(CoverError::Decode(_))));
}

fn jpeg_bytes() -> Vec<u8> {
    let picture = image::DynamicImage::new_rgb8(4, 2);
    let mut buffer = std::io::Cursor::new(Vec::new());
    picture.write_to(&mut buffer, image::ImageOutputFormat::Jpeg(90)).unwrap();
    buffer.into_inner()
}

#[test]
fn file_cover_by_extension_or_jpeg() {
    let png_path = std::path::PathBuf::from("/tmp/cover.png");
    let picture = decode_file_cover(&png_bytes(), &png_path, true).unwrap();
    assert_eq!((picture.width(), picture.height()), (4, 2));
    let odd_path = std::path::PathBuf::from("/tmp/cover.xyz");
    assert!(matches!(decode_file_cover(&png_bytes(), &odd_path, true), Err(CoverError::Decode(_))));
    let bare_path = std::path::PathBuf::from("/tmp/cover");
    assert!(matches!(decode_file_cover(&png_bytes(), &bare_path, false), Err(CoverError::Decode(_))));
    let picture = decode_file_cover(&jpeg_bytes(), &bare_path, false).unwrap();
    assert_eq!((picture.width(), picture.height()), (4, 2));
    let jpg_path = std::path::PathBuf::from("/tmp/cover.JPG");
    assert!(decode_file_cover(&jpeg_bytes(), &jpg_path, true).is_ok());
}

#[test]
fn unsupported_scheme_reaches_cover_plan() {
    match cover_plan(&Some("ftp://host/x.jpg".into())) {
        Err(CoverError::UnsupportedScheme { scheme, .. }) => assert_eq!(scheme, "ftp"),
        other => panic!("{other:?}"),
    }
    assert!(matches!(cover_plan(&Some("file://remote.host/x.png".into())), Err(CoverError::InvalidFileUrl)));
}

#[test]
fn rascii_text_is_rascii_art_output() {
    let picture = image::DynamicImage::new_rgb8(6, 6);
    let mut expected = String::new();
    let options = rascii_art::RenderOptions { width: Some(25), colored: true, ..Default::default() };
    rascii_art::render_image_to(&picture, &mut expected, &options).unwrap();
    match AsciiEngine::Rascii.render_image(&picture, Size::default()).unwrap() {
        Rendering::Text(t) => assert_eq!(t, expected),
        other => panic!("{other:?}"),
    }
    let twin = image::DynamicImage::new_rgb8(6, 6);
    match AsciiEngine::Rascii.render_image(&twin, Size { width: 25, height: 3 }).unwrap() {
        Rendering::Text(t) => assert_eq!(t, expected),
        other => panic!("{other:?}"),
    }
}

#[test]
fn chafa_input_is_the_png_encoding() {
    let picture = image::DynamicImage::new_rgb8(5, 3);
    let mut expected = std::io::Cursor::new(Vec::new());
    picture.write_to(&mut expected, image::ImageOutputFormat::Png).unwrap();
    match AsciiEngine::Chafa.render_image(&picture, Size::default()).unwrap() {
        Rendering::Run(cmd) => assert_eq!(cmd.stdin, expected.into_inner()),
        other => panic!("{other:?}"),
    }
}

#[test]
fn mpd_file_that_lofty_cannot_read() {
    let t = MpdTrack { file: "song.mp3".into(), title: Some("T".into()), artist: Some("A".into()) };
    assert!(matches!(Song::from_mpd_file(t, "/music", b"not audio"), Err(MpdSongProblem::UnreadableFile(_))));
    let t = MpdTrack { file: "song.unknownext".into(), title: None, artist: None };
    assert!(matches!(Song::from_mpd_file(t, "/music", b"not audio"), Err(MpdSongProblem::UnreadableFile(_))));
}

#[test]
fn song_equality() {
    let a = Song { title: "T".into(), artist: "A".into(), album: "B".into(), cover: None };
    let b = Song { title: "T".into(), artist: "A".into(), album: "B".into(), cover: None };
    assert!(a == b);
    assert!(a != Song::default());
}

fn tagged_wav(album: &str) -> Vec<u8> {
    let mut wav: Vec<u8> = Vec::new();
    wav.extend_from_slice(b"RIFF");
    wav.extend_from_slice(&40u32.to_le_bytes());
    wav.extend_from_slice(b"WAVEfmt ");
    wav.extend_from_slice(&16u32.to_le_bytes());
    wav.extend_from_slice(&1u16.to_le_bytes());
    wav.extend_from_slice(&1u16.to_le_bytes());
    wav.extend_from_slice(&8000u32.to_le_bytes());
    wav.extend_from_slice(&16000u32.to_le_bytes());
    wav.extend_from_slice(&2u16.to_le_bytes());
    wav.extend_from_slice(&16u16.to_le_bytes());
    wav.extend_from_slice(b"data");
    wav.extend_from_slice(&4u32.to_le_bytes());
    wav.extend_from_slice(&[0, 0, 0, 0]);
    let mut tag = lofty::tag::Tag::new(lofty::tag::TagType::Id3v2);
    tag.set_album(album.to_string());
    tag.push_picture(lofty::picture::Picture::new_unchecked(
        lofty::picture::PictureType::CoverFront,
        Some(lofty::picture::MimeType::Png),
        None,
        png_bytes(),
    ));
    let mut file = std::io::Cursor::new(wav);
    tag.save_to(&mut file, lofty::config::WriteOptions::default()).unwrap();
    file.into_inner()
}

#[test]
fn mpd_song_read_from_file_bytes() {
    let bytes = tagged_wav("Album X");
    let t = MpdTrack { file: "track.wav".into(), title: Some("T".into()), artist: Some("A".into()) };
    let song = Song::from_mpd_file(t, "/music", &bytes).unwrap();
    assert_eq!(song.title, "T");
    assert_eq!(song.artist, "A");
    assert_eq!(song.album, "Album X");
    assert!(song.cover == Some(image::load_from_memory(&png_bytes()).unwrap()));
}
