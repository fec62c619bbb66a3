//! Turning a cover picture into ASCII art with one of two engines.

use vstd::prelude::*;
use vstd::string::StringExecFns;

use crate::decimal::{decimal, push_decimal};
use crate::imaging::{encode_png, png_encoding, rascii_text, render_rascii};
use crate::text::views;

verus! {

/// The program that draws a picture as text.
#[derive(Clone, Copy, Debug, PartialEq, Eq, Structural)]
pub enum AsciiEngine {
    /// The `chafa` command line tool, fed a PNG on its standard input.
    Chafa,
    /// The `rascii_art` library.
    Rascii,
}

impl Default for AsciiEngine {
    fn default() -> (e: Self)
        ensures
            e == AsciiEngine::Chafa,
    {
        AsciiEngine::Chafa
    }
}

impl AsciiEngine {
    /// The other engine.
    pub open spec fn spec_toggled(self) -> AsciiEngine {
        match self {
            AsciiEngine::Chafa => AsciiEngine::Rascii,
            AsciiEngine::Rascii => AsciiEngine::Chafa,
        }
    }

    /// The other engine.
    pub fn toggled(&self) -> (e: AsciiEngine)
        ensures
            e == self.spec_toggled(),
    {
        match self {
            AsciiEngine::Chafa => AsciiEngine::Rascii,
            AsciiEngine::Rascii => AsciiEngine::Chafa,
        }
    }
}

/// Switching engine twice gives the engine one started with.
pub proof fn law_toggle_involution(e: AsciiEngine)
    ensures
        e.spec_toggled().spec_toggled() == e,
{
}

/// The size, in characters, of the drawn picture.
#[derive(Clone, Copy, Debug, PartialEq, Eq, Structural)]
pub struct Size {
    pub width: u16,
    pub height: u16,
}

impl Default for Size {
    fn default() -> (s: Self)
        ensures
            s.width == 25 && s.height == 25,
    {
        Size { width: 25, height: 25 }
    }
}

/// A command to run, with its arguments and what to write to its input.
#[derive(Debug)]
pub struct Command {
    pub program: String,
    pub args: Vec<String>,
    pub stdin: Vec<u8>,
}

/// A drawn picture, or the command whose output is the drawn picture.
#[derive(Debug)]
pub enum Rendering {
    Text(String),
    Run(Command),
}

/// A picture that could not be drawn.
#[derive(Debug)]
pub enum RenderError {
    /// The picture could not be encoded as PNG for `chafa`.
    Encode(image::ImageError),
}

/// The size argument of `chafa`: `--size=WIDTHxHEIGHT`.
pub open spec fn chafa_size_arg(size: Size) -> Seq<char> {
    "--size="@ + decimal(size.width as nat) + "x"@ + decimal(size.height as nat)
}

/// The arguments with which `chafa` draws a picture of the given size in
/// symbols with full colours.
pub open spec fn chafa_args_spec(size: Size) -> Seq<Seq<char>> {
    seq![chafa_size_arg(size), "--format=symbols"@, "--colors=full"@]
}

/// The arguments of `chafa` for a picture of the given size.
pub fn chafa_args(size: Size) -> (args: Vec<String>)
    ensures
        views(args@) == chafa_args_spec(size),
{
    let mut first = String::from_str("--size=");
    push_decimal(&mut first, size.width as u32);
    first.append("x");
    push_decimal(&mut first, size.height as u32);
    let mut args: Vec<String> = Vec::new();
    args.push(first);
    args.push(String::from_str("--format=symbols"));
    args.push(String::from_str("--colors=full"));
    assert(views(args@) =~= chafa_args_spec(size));
    args
}

/// How `engine` draws `picture` at `size`: `rascii_art` gives its text at
/// the width asked for; for `chafa` the command is `chafa` with
/// `chafa_args_spec(size)` and the PNG encoding of the picture on its input,
/// or the encoding's error.
pub open spec fn renders_as(
    engine: AsciiEngine,
    picture: image::DynamicImage,
    size: Size,
    res: Result<Rendering, RenderError>,
) -> bool {
    match engine {
        AsciiEngine::Rascii => res matches Ok(Rendering::Text(t)) && t@ == rascii_text(picture, size.width as u32),
        AsciiEngine::Chafa => match png_encoding(picture) {
            Ok(png) => res matches Ok(Rendering::Run(cmd)) && cmd.program@ == "chafa"@ && views(cmd.args@)
                == chafa_args_spec(size) && cmd.stdin@ == png,
            Err(e) => res matches Err(RenderError::Encode(err)) && err == e,
        },
    }
}

impl AsciiEngine {
    /// Draws `picture` at the given size: `rascii_art` draws it here;
    /// for `chafa` the picture is encoded as PNG and the command to run is
    /// handed back.
    pub fn render_image(&self, picture: &image::DynamicImage, size: Size) -> (res: Result<Rendering, RenderError>)
        ensures
            renders_as(*self, *picture, size, res),
    {
        match self {
            AsciiEngine::Chafa => {
                match encode_png(picture) {
                    Ok(png) => {
                        let program = String::from_str("chafa");
                        Ok(Rendering::Run(Command { program, args: chafa_args(size), stdin: png }))
                    },
                    Err(e) => Err(RenderError::Encode(e)),
                }
            },
            AsciiEngine::Rascii => Ok(Rendering::Text(render_rascii(picture, size.width as u32))),
        }
    }
}

/// Whatever the size, `chafa` draws in symbols with full colours, at the
/// size `WIDTHxHEIGHT` written in decimal, with these three arguments only.
pub proof fn law_chafa_args(size: Size)
    ensures
        chafa_args_spec(size).len() == 3,
        chafa_args_spec(size)[0] == "--size="@ + decimal(size.width as nat) + "x"@ + decimal(size.height as nat),
        chafa_args_spec(size)[1] == "--format=symbols"@,
        chafa_args_spec(size)[2] == "--colors=full"@,
{
}

/// `rascii_art` gives the text it draws for the picture at the width asked
/// for; `chafa` is the program run, with its arguments for the size and the
/// PNG encoding of the picture on its input, or the encoding's error.
pub proof fn law_rendering(engine: AsciiEngine, picture: image::DynamicImage, size: Size, res: Result<Rendering, RenderError>)
    requires
        renders_as(engine, picture, size, res),
    ensures
        engine == AsciiEngine::Rascii ==> (res matches Ok(Rendering::Text(t)) && t@ == rascii_text(
            picture,
            size.width as u32,
        )),
        engine == AsciiEngine::Chafa && png_encoding(picture) is Ok ==> (res matches Ok(Rendering::Run(cmd))
            && cmd.program@ == "chafa"@ && views(cmd.args@) == chafa_args_spec(size) && cmd.stdin@
            == png_encoding(picture)->Ok_0),
        engine == AsciiEngine::Chafa && png_encoding(picture) is Err ==> (res matches Err(RenderError::Encode(e))
            && e == png_encoding(picture)->Err_0),
{
}

} // verus!
