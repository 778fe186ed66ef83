//! Texture containers (TPL) of one game console family: a table of image entries, each
//! pointing at a run of mipmaps stored in blocks of pixels.
pub mod parser;

use vstd::prelude::*;
use crate::error::ParseError;

verus! {

/// Why a texture container could not be read.
#[derive(Debug)]
pub enum TplError {
    /// The container did not parse.
    Cause(ParseError),
    /// A failure described by a message.
    Custom(String),
}

impl From<ParseError> for TplError {
    fn from(value: ParseError) -> (r: TplError)
        ensures
            r == TplError::Cause(value),
    {
        TplError::Cause(value)
    }
}

impl vstd::std_specs::convert::FromSpecImpl<ParseError> for TplError {
    open spec fn obeys_from_spec() -> bool {
        true
    }

    open spec fn from_spec(v: ParseError) -> TplError {
        TplError::Cause(v)
    }
}

/// The layout of a texture container.
#[derive(Clone, Copy, Debug, PartialEq, Eq, Structural)]
pub enum TplKind {
    Gc,
    Wii,
    XBox,
    Headerless,
}

/// The pixel encoding of an image.
#[derive(Clone, Copy, Debug, PartialEq, Eq, Structural)]
#[non_exhaustive]
pub enum Format {
    I4,
    I8,
    IA4,
    IA8,
    RGB565,
    RGB5A3,
    RGBA32,
    C4,
    C8,
    C14x2,
    CMPR,
}

impl Format {
    /// The number that stands for the format in a container.
    pub open spec fn code(self) -> u32 {
        match self {
            Format::I4 => 0,
            Format::I8 => 1,
            Format::IA4 => 2,
            Format::IA8 => 3,
            Format::RGB565 => 4,
            Format::RGB5A3 => 5,
            Format::RGBA32 => 6,
            Format::C4 => 8,
            Format::C8 => 9,
            Format::C14x2 => 10,
            Format::CMPR => 14,
        }
    }

    pub open spec fn spec_bits(self) -> usize {
        match self {
            Format::I4 => 4,
            Format::I8 => 8,
            Format::IA4 => 8,
            Format::IA8 => 16,
            Format::RGB565 => 16,
            Format::RGB5A3 => 16,
            Format::RGBA32 => 32,
            Format::C4 => 4,
            Format::C8 => 8,
            Format::C14x2 => 16,
            Format::CMPR => 4,
        }
    }

    pub open spec fn spec_height_width(self) -> (usize, usize) {
        match self {
            Format::I4 => (8, 8),
            Format::I8 => (4, 8),
            Format::IA4 => (4, 8),
            Format::IA8 => (4, 4),
            Format::RGB565 => (4, 4),
            Format::RGB5A3 => (4, 4),
            Format::RGBA32 => (4, 4),
            Format::C4 => (8, 8),
            Format::C8 => (4, 8),
            Format::C14x2 => (4, 4),
            Format::CMPR => (8, 8),
        }
    }

    /// The bytes of one block of pixels: its height times its width times the bits per
    /// pixel, over eight.
    pub open spec fn spec_block_size(self) -> usize {
        match self {
            Format::RGBA32 => 64,
            _ => 32,
        }
    }

    /// The format whose code is `val`, if any.
    pub open spec fn spec_from_u32(val: u32) -> Option<Format> {
        match val {
            0 => Some(Format::I4),
            1 => Some(Format::I8),
            2 => Some(Format::IA4),
            3 => Some(Format::IA8),
            4 => Some(Format::RGB565),
            5 => Some(Format::RGB5A3),
            6 => Some(Format::RGBA32),
            8 => Some(Format::C4),
            9 => Some(Format::C8),
            10 => Some(Format::C14x2),
            14 => Some(Format::CMPR),
            _ => None,
        }
    }

    /// The block size of every format is its block height times its block width times its bits
    /// per pixel, over eight.
    pub proof fn lemma_block_size(self)
        ensures
            self.spec_block_size() == self.spec_height_width().0 * self.spec_height_width().1
                * self.spec_bits() / 8,
    {
    }

    /// The format that `val` stands for, if any.
    pub fn from_u32(val: u32) -> (r: Option<Format>)
        ensures
            r == Format::spec_from_u32(val),
            r matches Some(f) ==> f.code() == val,
    {
        let r = match val {
            0 => Some(Format::I4),
            1 => Some(Format::I8),
            2 => Some(Format::IA4),
            3 => Some(Format::IA8),
            4 => Some(Format::RGB565),
            5 => Some(Format::RGB5A3),
            6 => Some(Format::RGBA32),
            8 => Some(Format::C4),
            9 => Some(Format::C8),
            10 => Some(Format::C14x2),
            14 => Some(Format::CMPR),
            _ => None,
        };
        r
    }

    /// The number of bits per pixel.
    pub fn bits(&self) -> (r: usize)
        ensures
            r == self.spec_bits(),
    {
        match self {
            Format::I4 => 4,
            Format::I8 => 8,
            Format::IA4 => 8,
            Format::IA8 => 16,
            Format::RGB565 => 16,
            Format::RGB5A3 => 16,
            Format::RGBA32 => 32,
            Format::C4 => 4,
            Format::C8 => 8,
            Format::C14x2 => 16,
            Format::CMPR => 4,
        }
    }

    /// The height and width, in pixels, of one block of pixels.
    pub fn height_width(&self) -> (r: (usize, usize))
        ensures
            r == self.spec_height_width(),
    {
        match self {
            Format::I4 => (8, 8),
            Format::I8 => (4, 8),
            Format::IA4 => (4, 8),
            Format::IA8 => (4, 4),
            Format::RGB565 => (4, 4),
            Format::RGB5A3 => (4, 4),
            Format::RGBA32 => (4, 4),
            Format::C4 => (8, 8),
            Format::C8 => (4, 8),
            Format::C14x2 => (4, 4),
            Format::CMPR => (8, 8),
        }
    }

    /// The number of bytes of one block of pixels.
    pub fn block_size(&self) -> (r: usize)
        ensures
            r == self.spec_block_size(),
            r == 32 || r == 64,
    {
        match self {
            Format::RGBA32 => 64,
            _ => 32,
        }
    }
}

/// A color with 8-bit red, green, blue and alpha channels.
#[derive(Clone, Copy, Debug, PartialEq, Eq, Structural)]
pub struct Color {
    pub r: u8,
    pub g: u8,
    pub b: u8,
    pub a: u8,
}

impl Color {
    pub open spec fn new_tone_spec(tone: u8) -> Color {
        Color { r: tone, g: tone, b: tone, a: 255 }
    }

    pub open spec fn new_rgba_spec(r: u8, g: u8, b: u8, a: u8) -> Color {
        Color { r, g, b, a }
    }

    /// An opaque gray of level `tone`.
    pub fn new_tone(tone: u8) -> (r: Color)
        ensures
            r == (Color { r: tone, g: tone, b: tone, a: 255 }),
    {
        Color { r: tone, g: tone, b: tone, a: 255 }
    }

    /// An opaque color.
    pub fn new_rgb(r: u8, g: u8, b: u8) -> (c: Color)
        ensures
            c == (Color { r, g, b, a: 255 }),
    {
        Color { r, g, b, a: 255 }
    }

    pub fn new_rgba(r: u8, g: u8, b: u8, a: u8) -> (c: Color)
        ensures
            c == (Color { r, g, b, a }),
    {
        Color { r, g, b, a }
    }
}

/// A decoded image; pixel `(row, column)` is at index `row + column * height`.
#[derive(Clone)]
pub struct Image {
    pub(crate) data: Vec<Color>,
    pub(crate) format: Format,
    pub(crate) height: usize,
    pub(crate) width: usize,
}

impl Image {
    pub closed spec fn spec_height(&self) -> usize {
        self.height
    }

    pub closed spec fn spec_width(&self) -> usize {
        self.width
    }

    pub closed spec fn spec_format(&self) -> Format {
        self.format
    }

    pub closed spec fn spec_data(&self) -> Seq<Color> {
        self.data@
    }

    pub fn height(&self) -> (r: usize)
        ensures
            r == self.spec_height(),
    {
        self.height
    }

    pub fn width(&self) -> (r: usize)
        ensures
            r == self.spec_width(),
    {
        self.width
    }

    pub fn format(&self) -> (r: Format)
        ensures
            r == self.spec_format(),
    {
        self.format
    }

    /// The pixels, column after column.
    pub fn data(&self) -> (r: &[Color])
        ensures
            r@ == self.spec_data(),
    {
        self.data.as_slice()
    }
}

/// The mipmaps of one image, largest first.
#[derive(Clone)]
pub struct MipMapImage {
    pub(crate) images: Vec<Image>,
}

impl MipMapImage {
    pub closed spec fn spec_images(&self) -> Seq<Image> {
        self.images@
    }

    pub fn images(&self) -> (r: &[Image])
        ensures
            r@ == self.spec_images(),
    {
        self.images.as_slice()
    }
}

/// A texture container: one [`MipMapImage`] per entry of its table.
pub struct Tpl {
    pub(crate) images: Vec<MipMapImage>,
}

impl Tpl {
    pub closed spec fn spec_mipmaps(&self) -> Seq<MipMapImage> {
        self.images@
    }

    pub fn mipmaps(&self) -> (r: &[MipMapImage])
        ensures
            r@ == self.spec_mipmaps(),
    {
        self.images.as_slice()
    }
}

} // verus!
