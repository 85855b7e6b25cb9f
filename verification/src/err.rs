//! The crate's error type.

use vstd::prelude::*;

use crate::text::join;

verus! {

/// Everything that can go wrong in the toolkit.
#[derive(Debug, Clone)]
pub enum Error {
    Fs(String),
    IO,
    Net(String),
    Image,
    Window,
    Wasm,
    Gamepad,
    Audio,
    Parse,
    Thread,
    FromUtf8,
    HTTPMessage,
    Lua,
    Gfx(String),
    Font,
    ObjLoad,
    Input,
    TexPack,
    OpenGL(String),
    Misc(String),
}

/// The crate's result type.
pub type Result<T> = std::result::Result<T, Error>;

/// The human-readable description of an error.
pub open spec fn error_message(e: Error) -> Seq<char> {
    match e {
        Error::Fs(s) => "fs error: "@ + s@,
        Error::IO => "io error"@,
        Error::Net(s) => "network error: "@ + s@,
        Error::Image => "image error"@,
        Error::Window => "window error"@,
        Error::Wasm => "wasm error"@,
        Error::Gamepad => "gamepad error"@,
        Error::Audio => "audio error"@,
        Error::Parse => "parse error"@,
        Error::Thread => "thread error"@,
        Error::FromUtf8 => "failed to convert from utf8"@,
        Error::HTTPMessage => "failed to parse http message"@,
        Error::Lua => "lua error"@,
        Error::Gfx(s) => "gfx error: "@ + s@,
        Error::ObjLoad => "failed to load obj"@,
        Error::Font => "font error"@,
        Error::Input => "input error"@,
        Error::TexPack => "texture packing error"@,
        Error::OpenGL(s) => "opengl error: "@ + s@,
        Error::Misc(s) => "error: "@ + s@,
    }
}

impl Error {
    /// Renders the error as text.
    pub fn to_string(&self) -> (r: String)
        ensures
            r@ == error_message(*self),
    {
        match self {
            Error::Fs(s) => join("fs error: ", s.as_str()),
            Error::IO => String::from_str("io error"),
            Error::Net(s) => join("network error: ", s.as_str()),
            Error::Image => String::from_str("image error"),
            Error::Window => String::from_str("window error"),
            Error::Wasm => String::from_str("wasm error"),
            Error::Gamepad => String::from_str("gamepad error"),
            Error::Audio => String::from_str("audio error"),
            Error::Parse => String::from_str("parse error"),
            Error::Thread => String::from_str("thread error"),
            Error::FromUtf8 => String::from_str("failed to convert from utf8"),
            Error::HTTPMessage => String::from_str("failed to parse http message"),
            Error::Lua => String::from_str("lua error"),
            Error::Gfx(s) => join("gfx error: ", s.as_str()),
            Error::ObjLoad => String::from_str("failed to load obj"),
            Error::Font => String::from_str("font error"),
            Error::Input => String::from_str("input error"),
            Error::TexPack => String::from_str("texture packing error"),
            Error::OpenGL(s) => join("opengl error: ", s.as_str()),
            Error::Misc(s) => join("error: ", s.as_str()),
        }
    }
}

impl vstd::std_specs::convert::FromSpecImpl<String> for Error {
    open spec fn obeys_from_spec() -> bool {
        true
    }

    open spec fn from_spec(s: String) -> Self {
        Error::Misc(s)
    }
}

impl From<String> for Error {
    fn from(s: String) -> (r: Self) {
        Error::Misc(s)
    }
}

} // verus!
