//! Where the cover art of an MPRIS track comes from, and what to do with
//! what was fetched.

use vstd::prelude::*;

use crate::imaging::{
    image_from_memory, image_in_path_format, jpeg_image, load_image, load_in_path_format, load_jpeg,
};
use crate::text::equals_str;

verus! {

/// A parsed URL of the url crate.
#[verifier::external_type_specification]
#[verifier::external_body]
pub struct ExUrl(url::Url);

/// Why the url crate refused a URL.
#[verifier::external_type_specification]
#[verifier::external_body]
pub struct ExUrlParseError(url::ParseError);

/// What `url::Url::parse` makes of `input`: the URL with its
/// serialization (`Url::as_str`) and its scheme (`Url::scheme`), or the
/// parse error. Parsing depends on the input alone.
pub uninterp spec fn parsed_url(input: Seq<char>) -> Result<(url::Url, Seq<char>, Seq<char>), url::ParseError>;

/// Calls `url::Url::parse` and reads the serialization and the scheme of
/// the URL it gives. Claimed: the result is `parsed_url` of the input.
#[verifier::external_body]
fn parse_url(input: &str) -> (res: Result<(url::Url, String, String), url::ParseError>)
    ensures
        match res {
            Ok((u, serialization, scheme)) => parsed_url(input@) == Ok::<
                (url::Url, Seq<char>, Seq<char>),
                url::ParseError,
            >((u, serialization@, scheme@)),
            Err(e) => parsed_url(input@) == Err::<(url::Url, Seq<char>, Seq<char>), url::ParseError>(e),
        },
{
    url::Url::parse(input).map(|u| {
        let serialization = u.as_str().to_string();
        let scheme = u.scheme().to_string();
        (u, serialization, scheme)
    })
}

/// The local path `url::Url::to_file_path` gives for a URL, on the target
/// the crate is built for; none where it refuses (a host other than
/// `localhost`, or a URL without a path). It depends on the URL alone.
pub uninterp spec fn url_file_path(u: url::Url) -> Option<std::path::PathBuf>;

/// Calls `url::Url::to_file_path`. Claimed: it gives the path that
/// `url_file_path` names, and fails where that names none.
#[verifier::external_body]
fn url_to_file_path(u: &url::Url) -> (res: Result<std::path::PathBuf, ()>)
    ensures
        match res {
            Ok(path) => url_file_path(*u) == Some(path),
            Err(_) => url_file_path(*u) is None,
        },
{
    u.to_file_path()
}

/// Whether `std::path::Path::extension` finds an extension in the path; it
/// depends on the path alone.
pub uninterp spec fn has_extension(path: std::path::PathBuf) -> bool;

/// Calls `std::path::Path::extension` and tells whether there is one.
/// Claimed: the answer is `has_extension` of the path.
#[verifier::external_body]
fn path_has_extension(path: &std::path::PathBuf) -> (res: bool)
    ensures
        res == has_extension(*path),
{
    path.extension().is_some()
}

/// Where to fetch a cover picture from.
#[derive(Debug)]
pub enum CoverSource {
    /// A local file: decoded by the format its extension names, or, where
    /// it has no extension, as JPEG.
    File { path: std::path::PathBuf, format_from_extension: bool },
    /// A web address, fetched with an HTTP GET request.
    Http { url: String },
}

/// Why no cover picture was had.
#[derive(Debug)]
pub enum CoverError {
    /// The art URL does not parse.
    UrlParse(url::ParseError),
    /// A `file:` URL that names no local path.
    InvalidFileUrl,
    /// A URL whose scheme is neither `file`, `http` nor `https`.
    UnsupportedScheme { scheme: String, url: String },
    /// The server answered with a status outside 200 to 299.
    HttpStatus(u16),
    /// The fetched bytes are not a picture.
    Decode(image::ImageError),
}

/// Where the picture of the art URL `input` is to be fetched from, or
/// why it cannot be: `file:` URLs name the local file of their path, to be
/// decoded by its extension's format where it has an extension and as JPEG
/// otherwise; `http:` and `https:` URLs are fetched as serialized; other
/// schemes are refused.
pub open spec fn source_of_url(input: Seq<char>, res: Result<CoverSource, CoverError>) -> bool {
    match parsed_url(input) {
        Err(e) => res matches Err(CoverError::UrlParse(pe)) && pe == e,
        Ok((u, serialization, scheme)) => {
            if scheme == "file"@ {
                match url_file_path(u) {
                    None => res matches Err(CoverError::InvalidFileUrl),
                    Some(p) => res matches Ok(CoverSource::File { path, format_from_extension }) && path == p
                        && format_from_extension == has_extension(p),
                }
            } else if scheme == "http"@ || scheme == "https"@ {
                res matches Ok(CoverSource::Http { url }) && url@ == serialization
            } else {
                res matches Err(CoverError::UnsupportedScheme { scheme: s, url }) && s@ == scheme && url@
                    == serialization
            }
        },
    }
}

/// Where the picture of the art URL `image_url` is to be fetched from:
/// `file:` URLs name a local file, `http:` and `https:` URLs are fetched
/// from the web, other schemes are refused.
pub fn cover_source(image_url: &str) -> (res: Result<CoverSource, CoverError>)
    ensures
        source_of_url(image_url@, res),
{
    proof {
        reveal_strlit("file");
        reveal_strlit("http");
        reveal_strlit("https");
        assert("file"@[0] != "http"@[0] && "file"@[0] != "https"@[0]);
    }
    match parse_url(image_url) {
        Err(e) => Err(CoverError::UrlParse(e)),
        Ok((u, serialization, scheme)) => {
            if equals_str(&scheme, "file") {
                match url_to_file_path(&u) {
                    Ok(path) => {
                        let format_from_extension = path_has_extension(&path);
                        Ok(CoverSource::File { path, format_from_extension })
                    },
                    Err(_) => Err(CoverError::InvalidFileUrl),
                }
            } else if equals_str(&scheme, "http") || equals_str(&scheme, "https") {
                Ok(CoverSource::Http { url: serialization })
            } else {
                Err(CoverError::UnsupportedScheme { scheme, url: serialization })
            }
        },
    }
}

/// Where the cover of a track is fetched from: nowhere where the track has
/// no art URL, else as `cover_source` says.
pub fn cover_plan(art_url: &Option<String>) -> (res: Result<Option<CoverSource>, CoverError>)
    ensures
        match art_url {
            None => res matches Ok(None),
            Some(u) => match res {
                Ok(Some(source)) => source_of_url(u@, Ok(source)),
                Ok(None) => false,
                Err(e) => source_of_url(u@, Err(e)),
            },
        },
{
    match art_url {
        None => Ok(None),
        Some(u) => match cover_source(u.as_str()) {
            Ok(source) => Ok(Some(source)),
            Err(e) => Err(e),
        },
    }
}

/// Whether an HTTP status is a success: 200 to 299, as
/// `StatusCode::is_success` of the http crate has it.
pub open spec fn is_success_status(status: u16) -> bool {
    200 <= status && status < 300
}

/// Accepts a successful HTTP answer and refuses any other.
pub fn check_http_status(status: u16) -> (res: Result<(), CoverError>)
    ensures
        is_success_status(status) ==> res is Ok,
        !is_success_status(status) ==> (res matches Err(CoverError::HttpStatus(s)) && s == status),
{
    if 200 <= status && status < 300 {
        Ok(())
    } else {
        Err(CoverError::HttpStatus(status))
    }
}

/// `res` is the picture of a decoding, or its error as a cover error.
pub open spec fn decoded_as(
    decoding: Result<image::DynamicImage, image::ImageError>,
    res: Result<image::DynamicImage, CoverError>,
) -> bool {
    match decoding {
        Ok(picture) => res matches Ok(p) && p == picture,
        Err(e) => res matches Err(CoverError::Decode(d)) && d == e,
    }
}

/// Decodes fetched bytes as a picture, guessing the format from them.
pub fn decode_cover(bytes: &[u8]) -> (res: Result<image::DynamicImage, CoverError>)
    ensures
        decoded_as(image_from_memory(bytes@), res),
{
    match load_image(bytes) {
        Ok(picture) => Ok(picture),
        Err(e) => Err(CoverError::Decode(e)),
    }
}

/// Decodes the bytes of the local cover file at `path`: by the format its
/// extension names where `format_from_extension` holds, as JPEG otherwise.
pub fn decode_file_cover(bytes: &[u8], path: &std::path::PathBuf, format_from_extension: bool) -> (res: Result<
    image::DynamicImage,
    CoverError,
>)
    ensures
        format_from_extension ==> decoded_as(image_in_path_format(bytes@, *path), res),
        !format_from_extension ==> decoded_as(jpeg_image(bytes@), res),
{
    let decoding = if format_from_extension {
        load_in_path_format(bytes, path)
    } else {
        load_jpeg(bytes)
    };
    match decoding {
        Ok(picture) => Ok(picture),
        Err(e) => Err(CoverError::Decode(e)),
    }
}

/// A `file:` URL whose path the url crate gives names that local file,
/// whatever characters (percent escapes among them) its text holds; the
/// format comes from the extension exactly where the path has one.
pub proof fn law_file_url_source(input: Seq<char>, res: Result<CoverSource, CoverError>, p: std::path::PathBuf)
    requires
        source_of_url(input, res),
        parsed_url(input) is Ok,
        parsed_url(input)->Ok_0.2 == "file"@,
        url_file_path(parsed_url(input)->Ok_0.0) == Some(p),
    ensures
        res matches Ok(CoverSource::File { path, format_from_extension }) && path == p && format_from_extension
            == has_extension(p),
{
}

/// A `file:` URL that names no local path is refused as such.
pub proof fn law_file_url_without_path(input: Seq<char>, res: Result<CoverSource, CoverError>)
    requires
        source_of_url(input, res),
        parsed_url(input) is Ok,
        parsed_url(input)->Ok_0.2 == "file"@,
        url_file_path(parsed_url(input)->Ok_0.0) is None,
    ensures
        res matches Err(CoverError::InvalidFileUrl),
{
}

/// `http:` and `https:` URLs are fetched at their serialization.
pub proof fn law_web_url_source(input: Seq<char>, res: Result<CoverSource, CoverError>)
    requires
        source_of_url(input, res),
        parsed_url(input) is Ok,
        parsed_url(input)->Ok_0.2 == "http"@ || parsed_url(input)->Ok_0.2 == "https"@,
    ensures
        res matches Ok(CoverSource::Http { url }) && url@ == parsed_url(input)->Ok_0.1,
{
    reveal_strlit("file");
    reveal_strlit("http");
    reveal_strlit("https");
    assert("file"@[0] != "http"@[0] && "file"@[0] != "https"@[0]);
}

/// Any other scheme is refused, naming the scheme and the URL; a URL that
/// does not parse is refused with the parser's error.
pub proof fn law_refused_url_source(input: Seq<char>, res: Result<CoverSource, CoverError>)
    requires
        source_of_url(input, res),
    ensures
        parsed_url(input) is Err ==> (res matches Err(CoverError::UrlParse(e)) && e == parsed_url(input)->Err_0),
        parsed_url(input) is Ok && parsed_url(input)->Ok_0.2 != "file"@ && parsed_url(input)->Ok_0.2 != "http"@
            && parsed_url(input)->Ok_0.2 != "https"@ ==> (res matches Err(
            CoverError::UnsupportedScheme { scheme, url },
        ) && scheme@ == parsed_url(input)->Ok_0.2 && url@ == parsed_url(input)->Ok_0.1),
{
}

/// A decoding's picture is the cover; its error is reported.
pub proof fn law_decoded_as(
    decoding: Result<image::DynamicImage, image::ImageError>,
    res: Result<image::DynamicImage, CoverError>,
)
    requires
        decoded_as(decoding, res),
    ensures
        decoding is Ok ==> res == Ok::<image::DynamicImage, CoverError>(decoding->Ok_0),
        decoding is Err ==> (res matches Err(CoverError::Decode(e)) && e == decoding->Err_0),
{
}

/// Exactly the statuses 200 to 299 are successes.
pub proof fn law_success_statuses(status: u16)
    ensures
        is_success_status(status) <==> 200 <= status <= 299,
{
}

} // verus!
