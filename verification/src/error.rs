//! The library's error type.

use vstd::prelude::*;
use vstd::string::StringExecFns;

verus! {

/// What can go wrong in this library.
#[derive(Debug)]
pub enum Error {
    /// The pixel format of the framebuffer is none of those supported.
    UnsupportedPixelFormat,
    /// Any other failure, with its message.
    Other(String),
}

impl Error {
    /// The text that describes the error.
    pub open spec fn text(self) -> Seq<char> {
        match self {
            Error::UnsupportedPixelFormat => "不支持的 Framebuffer 像素格式"@,
            Error::Other(message) => "后端错误: "@ + message@,
        }
    }

    /// Describes the error.
    pub fn message(&self) -> (r: String)
        ensures
            r@ == self.text(),
    {
        match self {
            Error::UnsupportedPixelFormat => "不支持的 Framebuffer 像素格式".to_owned(),
            Error::Other(message) => "后端错误: ".to_owned().concat(message.as_str()),
        }
    }
}

} // verus!
