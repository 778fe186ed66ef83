//! Pixel decoders and the grammar of a texture container.
use vstd::prelude::*;
use crate::combinator::{runs_each, runs_n, with_current, And, ForEach, Memorize, RepeatExact, Repeated};
use crate::consume::{read_ok, read_rel};
use crate::error::ParseError;
use crate::file::{ParseFile, ParseLints};
use crate::parse::{jumped, spec_memorize, spec_memorized, CurrentSlot, FileCtx, Slots, Stored};
use crate::primitives::JumpRead;
use crate::sections::word;
use crate::sections::word_at as read_word;
use crate::tpl::{Color, Format, Image, MipMapImage, Tpl, TplError, TplKind};
use crate::{Action, Reader};

verus! {

/// The number of image entries in the table of a container.
#[derive(Clone, Copy, Debug, PartialEq, Eq, Structural)]
pub struct NumImages(pub u32);

/// One entry of the image table.
#[derive(Clone, Copy, Debug, PartialEq, Eq, Structural)]
pub struct GCImageTableEntry {
    pub format: u32,
    pub offset: u32,
    pub width: u16,
    pub height: u16,
    pub mipmaps: u16,
}

/// Which interpolation between the two end colors of a compressed palette is wanted.
#[derive(Clone, Copy, Debug, PartialEq, Eq, Structural)]
pub enum Blend {
    /// One third of the way from the first color to the second.
    OneThird,
    /// Two thirds of the way from the first color to the second.
    TwoThirds,
    /// Half way between the two colors.
    Half,
}

/// The gray level of pixel `pixel` of a 4-bit intensity block whose byte is `d`.
pub open spec fn i4_tone(d: u8, pixel: usize) -> u8 {
    if pixel % 2 == 0 {
        (d >> 4u8) & 165u8
    } else {
        d & 165u8
    }
}

/// The color of the big-endian RGB565 word `b0 b1`: five bits of red, six of green, five of
/// blue, each scaled up to eight bits.
pub open spec fn rgb565(b0: u8, b1: u8) -> Color {
    Color {
        r: (8 * (b0 / 8)) as u8,
        g: (4 * ((b0 % 8) * 8 + b1 / 32)) as u8,
        b: (8 * (b1 % 32)) as u8,
        a: 255,
    }
}

/// The palette of pixel `pixel` in a compressed block.
pub open spec fn cmpr_palette_index(pixel: usize) -> int {
    (if pixel % 8 > 3 { 1int } else { 0int }) + (if pixel > 31 { 2int } else { 0int })
}

/// The offset of the first pixel of the row of sub-block pixels that holds `pixel`.
pub open spec fn cmpr_row(pixel: usize) -> int {
    if pixel % 8 > 3 {
        ((pixel % 32 - 4) / 8 * 4) as int
    } else {
        ((pixel % 32) / 8 * 4) as int
    }
}

/// The byte of a compressed block that holds the palette index of `pixel`.
pub open spec fn cmpr_byte(pixel: usize) -> int {
    cmpr_palette_index(pixel) + 4 + cmpr_row(pixel) / 4
}

/// The gray color of pixel `pixel` of a 4-bit intensity block.
pub fn parse_i4(bytes: &[u8], pixel: usize) -> (r: Color)
    requires
        pixel / 2 < bytes@.len(),
    ensures
        r == Color::new_tone_spec(i4_tone(bytes@[(pixel / 2) as int], pixel)),
{
    let data = bytes[pixel / 2];
    let tone = if pixel % 2 == 0 {
        (data >> 4u8) & 165u8
    } else {
        data & 165u8
    };
    Color::new_tone(tone)
}

/// The gray color of pixel `pixel` of an 8-bit intensity block.
pub fn parse_i8(bytes: &[u8], pixel: usize) -> (r: Color)
    requires
        pixel < bytes@.len(),
    ensures
        r == Color::new_tone_spec(bytes@[pixel as int]),
{
    Color::new_tone(bytes[pixel])
}

/// The color of pixel `pixel` of an RGB565 block: the big-endian word at `2 * pixel`.
pub fn parse_rgb565(bytes: &[u8], pixel: usize) -> (r: Color)
    requires
        2 * pixel + 1 < bytes@.len(),
    ensures
        r == rgb565(bytes@[2 * pixel], bytes@[2 * pixel + 1]),
{
    let _len = bytes.len();
    let start = pixel * 2;
    let b0 = bytes[start];
    let b1 = bytes[start + 1];
    let red = 8 * (b0 / 8);
    let green = 4 * ((b0 % 8) * 8 + b1 / 32);
    let blue = 8 * (b1 % 32);
    Color::new_rgb(red, green, blue)
}

/// The color of pixel `pixel` of a compressed block: two bits of the block pick one of the four
/// colors of the palette that the pixel's position selects.
pub fn parse_cmpr(bytes: &[u8], pixel: usize, palettes: &[[Color; 4]; 4]) -> (r: Color)
    requires
        cmpr_byte(pixel) < bytes@.len(),
    ensures
        r == palettes@[cmpr_palette_index(pixel)]@[((bytes@[cmpr_byte(pixel)] >> (2 * (3 - (
        cmpr_row(pixel) % 4)) as u8)) & 3u8) as int],
{
    let extra: usize = if pixel > 31 {
        2
    } else {
        0
    };
    let palette_idx: usize = (if pixel % 8 > 3 {
        1
    } else {
        0
    }) + extra;
    let palette = palettes[palette_idx];
    let bl_pix: usize = if pixel % 8 > 3 {
        (pixel % 32 - 4) / 8 * 4
    } else {
        (pixel % 32) / 8 * 4
    };
    let index = bytes[(palette_idx + 4) + (bl_pix / 4)];
    let which = (3 - (bl_pix % 4)) as u8;
    let shifted = index >> (2 * which);
    let index = shifted & 3u8;
    assert(shifted & 3u8 < 4u8) by (bit_vector);
    palette[index as usize]
}

/// The big-endian word of the two bytes of `bytes` at `i`.
pub open spec fn word_at(bytes: Seq<u8>, i: int) -> int {
    bytes[i] * 256 + bytes[i + 1]
}

/// `pal` is palette `p` of the compressed image `bytes`: two RGB565 end colors, then, if the
/// first end color's word is not below the second's, the colors that `mix` gives one and two
/// thirds of the way between them, else the color half way and a transparent black.
pub open spec fn is_palette<F: Fn(Color, Color, Blend) -> Color>(
    bytes: Seq<u8>,
    p: int,
    pal: [Color; 4],
    mix: F,
) -> bool {
    let first = rgb565(bytes[8 * p], bytes[8 * p + 1]);
    let second = rgb565(bytes[8 * p + 2], bytes[8 * p + 3]);
    &&& pal@[0] == first
    &&& pal@[1] == second
    &&& if word_at(bytes, 8 * p) >= word_at(bytes, 8 * p + 2) {
        call_ensures(mix, (first, second, Blend::OneThird), pal@[2]) && call_ensures(
            mix,
            (first, second, Blend::TwoThirds),
            pal@[3],
        )
    } else {
        call_ensures(mix, (first, second, Blend::Half), pal@[2]) && pal@[3]
            == Color::new_rgba_spec(0, 0, 0, 0)
    }
}

/// The four palettes of a compressed image, from its first 32 bytes (see [`is_palette`]).
/// `mix` interpolates between two colors.
pub fn cmpr_palette<F: Fn(Color, Color, Blend) -> Color>(bytes: &[u8], mix: &F) -> (r: [[Color; 4]; 4])
    requires
        bytes@.len() >= 32,
        forall|a: Color, b: Color, k: Blend| call_requires(*mix, (a, b, k)),
    ensures
        forall|p: int| 0 <= p < 4 ==> #[trigger] is_palette(bytes@, p, r@[p], *mix),
{
    let p0 = palette_at(bytes, 0, mix);
    let p1 = palette_at(bytes, 1, mix);
    let p2 = palette_at(bytes, 2, mix);
    let p3 = palette_at(bytes, 3, mix);
    let r = [p0, p1, p2, p3];
    assert(r@[0] == p0 && r@[1] == p1 && r@[2] == p2 && r@[3] == p3);
    r
}

/// Palette `palette` of a compressed image.
fn palette_at<F: Fn(Color, Color, Blend) -> Color>(bytes: &[u8], palette: usize, mix: &F) -> (r: [Color; 4])
    requires
        bytes@.len() >= 32,
        palette < 4,
        forall|a: Color, b: Color, k: Blend| call_requires(*mix, (a, b, k)),
    ensures
        is_palette(bytes@, palette as int, r, *mix),
{
    let palette_start = palette * 8;
    let first = parse_rgb565(bytes, palette_start / 2);
    let second = parse_rgb565(bytes, (palette_start + 2) / 2);
    let first_raw = bytes[palette_start] as u16 * 256 + bytes[palette_start + 1] as u16;
    let second_raw = bytes[palette_start + 2] as u16 * 256 + bytes[palette_start + 3] as u16;
    let lerp_1;
    let lerp_2;
    if first_raw >= second_raw {
        lerp_1 = mix(first, second, Blend::OneThird);
        lerp_2 = mix(first, second, Blend::TwoThirds);
    } else {
        lerp_1 = mix(first, second, Blend::Half);
        lerp_2 = Color::new_rgba(0, 0, 0, 0);
    }
    let r = [first, second, lerp_1, lerp_2];
    assert(r@[0] == first && r@[1] == second && r@[2] == lerp_1 && r@[3] == lerp_2);
    r
}

/// Opaque black, the color of every pixel that no block fills.
pub open spec fn black() -> Color {
    Color::new_tone_spec(0)
}

/// The color of pixel `idx` of the block `chunk` in the format `format`. Formats without a
/// decoder give black, as does a pixel past the end of the block.
pub open spec fn pixel_color(chunk: Seq<u8>, idx: usize, format: Format, palettes: [[Color; 4]; 4]) -> Color {
    match format {
        Format::I4 => if idx / 2 < chunk.len() {
            Color::new_tone_spec(i4_tone(chunk[(idx / 2) as int], idx))
        } else {
            black()
        },
        Format::I8 => if idx < chunk.len() {
            Color::new_tone_spec(chunk[idx as int])
        } else {
            black()
        },
        Format::RGB565 => if idx < chunk.len() / 2 {
            rgb565(chunk[2 * idx], chunk[2 * idx + 1])
        } else {
            black()
        },
        Format::CMPR => if cmpr_byte(idx) < chunk.len() {
            palettes@[cmpr_palette_index(idx)]@[((chunk[cmpr_byte(idx)] >> (2 * (3 - (cmpr_row(idx)
                % 4)) as u8)) & 3u8) as int]
        } else {
            black()
        },
        _ => black(),
    }
}

/// The number of blocks of `block` bytes in `len` bytes, the last one possibly partial.
pub open spec fn block_count(len: int, block: int) -> int {
    len / block + if len % block != 0 {
        1int
    } else {
        0int
    }
}

/// Block `c` of `bytes`: the `block` bytes from `c * block`, or what is left of `bytes` for a
/// partial last block.
pub open spec fn block_of(bytes: Seq<u8>, block: int, c: int) -> Seq<u8> {
    bytes.subrange(
        c * block,
        if c * block + block <= bytes.len() {
            c * block + block
        } else {
            bytes.len() as int
        },
    )
}

/// Pixel (`row`, `col`) of an image of `height` by `width` pixels decoded from `bytes`. Blocks
/// fill the image row of blocks after row of blocks, so the pixel lies in block
/// `(row / h) * (width / w) + col / w` for blocks of `h` by `w` pixels. The last block of each
/// row and of each column holds only the remainder of the image's dimension over the block's;
/// within a block, pixels go row by row. A pixel that no block of `bytes` fills is black.
pub open spec fn image_pixel(
    bytes: Seq<u8>,
    format: Format,
    height: usize,
    width: usize,
    palettes: [[Color; 4]; 4],
    row: int,
    col: int,
) -> Color {
    let h = format.spec_height_width().0 as int;
    let w = format.spec_height_width().1 as int;
    let block = format.spec_block_size() as int;
    let wc = (width as int) / w;
    let hc = (height as int) / h;
    let c = (row / h) * wc + col / w;
    let hp = if row / h == hc - 1 {
        (height as int) % h
    } else {
        h
    };
    let wp = if col / w == wc - 1 {
        (width as int) % w
    } else {
        w
    };
    if row / h < hc && col / w < wc && c < block_count(bytes.len() as int, block) && row % h < hp
        && col % w < wp {
        pixel_color(
            block_of(bytes, block, c),
            ((row % h) * wp + col % w) as usize,
            format,
            palettes,
        )
    } else {
        black()
    }
}

/// `data` holds, column after column, the pixels of an image of `height` by `width` pixels
/// decoded from `bytes` with the compressed palettes `palettes` (see [`image_pixel`]).
pub open spec fn decoded_with(
    data: Seq<Color>,
    bytes: Seq<u8>,
    format: Format,
    height: usize,
    width: usize,
    palettes: [[Color; 4]; 4],
) -> bool {
    forall|row: int, col: int|
        0 <= row < height && 0 <= col < width ==> data[col * height + row] == #[trigger] image_pixel(
            bytes,
            format,
            height,
            width,
            palettes,
            row,
            col,
        )
}

/// The color of pixel `idx` of the block `chunk` in the format `format`.
/// The byte of a compressed block that holds the palette index of `pixel`.
fn cmpr_byte_of(pixel: usize) -> (r: usize)
    ensures
        r == cmpr_byte(pixel),
{
    let extra: usize = if pixel > 31 {
        2
    } else {
        0
    };
    let row: usize = if pixel % 8 > 3 {
        (pixel % 32 - 4) / 8 * 4
    } else {
        (pixel % 32) / 8 * 4
    };
    (if pixel % 8 > 3 {
        1
    } else {
        0
    }) + extra + 4 + row / 4
}

fn decode_pixel(chunk: &[u8], idx: usize, format: Format, palettes: &[[Color; 4]; 4]) -> (r: Color)
    ensures
        r == pixel_color(chunk@, idx, format, *palettes),
{
    match format {
        Format::I4 => if idx / 2 < chunk.len() {
            parse_i4(chunk, idx)
        } else {
            Color::new_tone(0)
        },
        Format::I8 => if idx < chunk.len() {
            parse_i8(chunk, idx)
        } else {
            Color::new_tone(0)
        },
        Format::RGB565 => if idx < chunk.len() / 2 {
            parse_rgb565(chunk, idx)
        } else {
            Color::new_tone(0)
        },
        Format::CMPR => if cmpr_byte_of(idx) < chunk.len() {
            parse_cmpr(chunk, idx, palettes)
        } else {
            Color::new_tone(0)
        },
        _ => Color::new_tone(0),
    }
}

/// Whether `len` bytes of format `format` can be decoded into an image of `height` by `width`
/// pixels: the pixel count fits in a `usize`, and nonempty data has a dimension of at least one
/// block each way and, when compressed, the 32 bytes of its palettes. A partial last block
/// leaves its missing pixels black; blocks beyond the image are not drawn.
pub open spec fn fits(len: nat, format: Format, height: usize, width: usize) -> bool {
    let (h, w) = format.spec_height_width();
    &&& height * width <= usize::MAX
    &&& len > 0 ==> width / w >= 1 && height / h >= 1 && (format == Format::CMPR ==> len >= 32)
}

/// Decodes the blocks of `bytes` into an image of `height` by `width` pixels of format
/// `format`, stored column after column: pixel (`row`, `col`) is [`image_pixel`]. `mix`
/// interpolates the palettes of compressed images (see [`is_palette`]). `None` when the data
/// does not fit the image (see [`fits`]).
pub fn decode_image_data<F: Fn(Color, Color, Blend) -> Color>(
    bytes: &[u8],
    format: Format,
    height: usize,
    width: usize,
    mix: &F,
) -> (r: Option<Image>)
    requires
        forall|a: Color, b: Color, k: Blend| call_requires(*mix, (a, b, k)),
    ensures
        r is None <==> !fits(bytes@.len(), format, height, width),
        r matches Some(img) ==> {
            &&& img.spec_format() == format
            &&& img.spec_height() == height
            &&& img.spec_width() == width
            &&& img.spec_data().len() == height * width
            &&& exists|palettes: [[Color; 4]; 4]|
                #[trigger] decoded_with(img.spec_data(), bytes@, format, height, width, palettes)
                    && (format == Format::CMPR && bytes@.len() >= 32 ==> forall|p: int|
                    0 <= p < 4 ==> #[trigger] is_palette(bytes@, p, palettes@[p], *mix))
        },
{
    let (h, w) = format.height_width();
    let block_size = format.block_size();
    let len = bytes.len();
    let width_chunks = width / w;
    let height_chunks = height / h;
    if len > 0 && (width_chunks == 0 || height_chunks == 0 || (format == Format::CMPR && len < 32)) {
        return None;
    }
    let total = match height.checked_mul(width) {
        Some(t) => t,
        None => {
            return None;
        },
    };
    assert(width_chunks * height_chunks <= width * height) by (nonlinear_arith)
        requires
            width_chunks == width / w,
            height_chunks == height / h,
            w >= 1,
            h >= 1,
    ;
    assert(len / block_size < usize::MAX) by (nonlinear_arith)
        requires
            block_size >= 32,
            len <= usize::MAX,
    ;
    let nchunks = len / block_size + if len % block_size != 0 {
        1
    } else {
        0
    };
    let black_color = Color::new_tone(0);
    let palettes: [[Color; 4]; 4] = if format == Format::CMPR && len >= 32 {
        cmpr_palette(bytes, mix)
    } else {
        [[black_color, black_color, black_color, black_color], [
            black_color,
            black_color,
            black_color,
            black_color,
        ], [black_color, black_color, black_color, black_color], [
            black_color,
            black_color,
            black_color,
            black_color,
        ]]
    };
    // The blocks of the data, in order, the last one possibly partial.
    let mut chunks: Vec<Vec<u8>> = Vec::new();
    let mut start: usize = 0;
    proof {
        vstd::arithmetic::div_mod::lemma_fundamental_div_mod(len as int, block_size as int);
    }
    let ghost q = len as int / block_size as int;
    let ghost rem = len as int % block_size as int;
    while chunks.len() < nchunks
        invariant
            len == bytes@.len(),
            block_size == 32 || block_size == 64,
            len == q * block_size + rem,
            0 <= rem < block_size,
            nchunks == q + if rem != 0 {
                1int
            } else {
                0int
            },
            nchunks == block_count(len as int, block_size as int),
            chunks@.len() <= nchunks,
            chunks@.len() < nchunks ==> start == chunks@.len() * block_size,
            forall|j: int|
                0 <= j < chunks@.len() ==> (#[trigger] chunks@[j])@ == block_of(
                    bytes@,
                    block_size as int,
                    j,
                ),
        decreases nchunks - chunks@.len(),
    {
        let ghost i = chunks@.len() as int;
        proof {
            if i < q {
                assert(start + block_size <= len) by (nonlinear_arith)
                    requires
                        start == i * block_size,
                        i + 1 <= q,
                        len == q * block_size + rem,
                        rem >= 0,
                        block_size > 0,
                ;
            } else {
                assert(start < len && len - start < block_size) by (nonlinear_arith)
                    requires
                        start == i * block_size,
                        i == q,
                        rem != 0,
                        len == q * block_size + rem,
                        0 <= rem < block_size,
                ;
            }
        }
        let end = if len - start < block_size {
            len
        } else {
            start + block_size
        };
        let mut cb: Vec<u8> = Vec::new();
        let mut k: usize = start;
        while k < end
            invariant
                start <= k <= end,
                end <= len,
                len == bytes@.len(),
                cb@ == bytes@.subrange(start as int, k as int),
            decreases end - k,
        {
            cb.push(bytes[k]);
            k = k + 1;
        }
        assert(cb@ == block_of(bytes@, block_size as int, i));
        chunks.push(cb);
        if chunks.len() < nchunks {
            assert(end == start + block_size);
            assert(end == (i + 1) * block_size) by (nonlinear_arith)
                requires
                    start == i * block_size,
                    end == start + block_size,
            ;
        }
        start = end;
    }
    let mut data: Vec<Color> = Vec::new();
    let mut col: usize = 0;
    while col < width
        invariant
            total == height * width,
            black_color == black(),
            col <= width,
            data@.len() == col * height,
            format == Format::CMPR && bytes@.len() >= 32 ==> forall|p: int|
                0 <= p < 4 ==> #[trigger] is_palette(bytes@, p, palettes@[p], *mix),
            h == format.spec_height_width().0,
            w == format.spec_height_width().1,
            h >= 1 && h <= 8,
            w >= 1 && w <= 8,
            width_chunks == (width as int) / (w as int),
            height_chunks == (height as int) / (h as int),
            width_chunks * height_chunks <= width * height,
            block_size == format.spec_block_size(),
            nchunks == block_count(len as int, block_size as int),
            len == bytes@.len(),
            chunks@.len() == nchunks,
            forall|j: int|
                0 <= j < chunks@.len() ==> (#[trigger] chunks@[j])@ == block_of(
                    bytes@,
                    block_size as int,
                    j,
                ),
            forall|r: int, c: int|
                0 <= r < height && 0 <= c < col ==> data@[c * height + r] == #[trigger] image_pixel(
                    bytes@,
                    format,
                    height,
                    width,
                    palettes,
                    r,
                    c,
                ),
        decreases width - col,
    {
        let mut row: usize = 0;
        while row < height
            invariant
                total == height * width,
                black_color == black(),
                col < width,
                row <= height,
                data@.len() == col * height + row,
                format == Format::CMPR && bytes@.len() >= 32 ==> forall|p: int|
                    0 <= p < 4 ==> #[trigger] is_palette(bytes@, p, palettes@[p], *mix),
                h == format.spec_height_width().0,
                w == format.spec_height_width().1,
                h >= 1 && h <= 8,
                w >= 1 && w <= 8,
                width_chunks == (width as int) / (w as int),
                height_chunks == (height as int) / (h as int),
                width_chunks * height_chunks <= width * height,
                block_size == format.spec_block_size(),
                nchunks == block_count(len as int, block_size as int),
                len == bytes@.len(),
                chunks@.len() == nchunks,
                forall|j: int|
                    0 <= j < chunks@.len() ==> (#[trigger] chunks@[j])@ == block_of(
                        bytes@,
                        block_size as int,
                        j,
                    ),
                forall|r: int, c: int|
                    0 <= r < height && 0 <= c < col ==> data@[c * height + r]
                        == #[trigger] image_pixel(bytes@, format, height, width, palettes, r, c),
                forall|r: int|
                    0 <= r < row ==> data@[col * height + r] == #[trigger] image_pixel(
                        bytes@,
                        format,
                        height,
                        width,
                        palettes,
                        r,
                        col as int,
                    ),
            decreases height - row,
        {
            let bh = row / h;
            let bw = col / w;
            let mut color = black_color;
            if bh < height_chunks && bw < width_chunks {
                assert(bh * width_chunks + bw < width_chunks * height_chunks) by (nonlinear_arith)
                    requires
                        bh < height_chunks,
                        bw < width_chunks,
                ;
                let c = bh * width_chunks + bw;
                let hp = if bh == height_chunks - 1 {
                    height % h
                } else {
                    h
                };
                let wp = if bw == width_chunks - 1 {
                    width % w
                } else {
                    w
                };
                if c < nchunks && row % h < hp && col % w < wp {
                    assert((row % h) * wp <= 64) by (nonlinear_arith)
                        requires
                            row % h < 8,
                            wp <= 8,
                    ;
                    let idx = (row % h) * wp + col % w;
                    let chunk = chunks[c].as_slice();
                    assert(chunk@ == block_of(bytes@, block_size as int, c as int));
                    color = decode_pixel(chunk, idx, format, &palettes);
                    assert(color == pixel_color(
                        block_of(bytes@, block_size as int, c as int),
                        idx,
                        format,
                        palettes,
                    ));
                    assert(row as int / h as int == bh);
                    assert(col as int / w as int == bw);
                    assert(image_pixel(bytes@, format, height, width, palettes, row as int, col as int) == pixel_color(
                        block_of(bytes@, block_size as int, c as int),
                        idx,
                        format,
                        palettes,
                    ));
                } else {
                    assert(image_pixel(bytes@, format, height, width, palettes, row as int, col as int) == black());
                }
            } else {
                assert(image_pixel(bytes@, format, height, width, palettes, row as int, col as int) == black());
            }
            assert(color == image_pixel(bytes@, format, height, width, palettes, row as int, col as int));
            assert(col * height + row < height * width) by (nonlinear_arith)
                requires
                    col < width,
                    row < height,
            ;
            let ghost before = data@;
            data.push(color);
            assert forall|r: int, c: int| 0 <= r < height && 0 <= c < col implies data@[c * height + r]
                == #[trigger] image_pixel(bytes@, format, height, width, palettes, r, c) by {
                assert(c * height + r < col * height) by (nonlinear_arith)
                    requires
                        0 <= c < col,
                        0 <= r < height,
                ;
                assert(data@[c * height + r] == before[c * height + r]);
            }
            row = row + 1;
        }
        assert((col + 1) * height == col * height + height) by (nonlinear_arith);
        col = col + 1;
    }
    assert(decoded_with(data@, bytes@, format, height, width, palettes));
    assert(data@.len() == height * width) by (nonlinear_arith)
        requires
            data@.len() == col * height,
            col == width,
    ;
    let img = Image { data, format, height, width };
    assert(decoded_with(img.spec_data(), bytes@, format, height, width, palettes));
    Some(img)
}

/// The memorization store of the container grammar: a slot for the image count, one for the
/// image table, one for the decoded images, and the current table entry.
pub struct TplStore {
    num_images: Stored<NumImages>,
    entries: Stored<Vec<GCImageTableEntry>>,
    mipmaps: Stored<Vec<MipMapImage>>,
    entry: Option<GCImageTableEntry>,
}

impl TplStore {
    /// A store with every slot empty and no current entry.
    pub fn new() -> (r: TplStore)
        ensures
            Slots::<NumImages>::slot(&r) is Empty,
            Slots::<Vec<GCImageTableEntry>>::slot(&r) is Empty,
            Slots::<Vec<MipMapImage>>::slot(&r) is Empty,
            CurrentSlot::<GCImageTableEntry>::current(&r) is None,
    {
        TplStore {
            num_images: Stored::Empty,
            entries: Stored::Empty,
            mipmaps: Stored::Empty,
            entry: None,
        }
    }
}

impl Slots<NumImages> for TplStore {
    open spec fn name() -> &'static str {
        "NumImages"
    }

    fn name_of() -> (r: &'static str) {
        "NumImages"
    }

    closed spec fn slot(&self) -> Stored<NumImages> {
        self.num_images
    }

    closed spec fn with_slot(self, v: Stored<NumImages>) -> TplStore {
        TplStore { num_images: v, ..self }
    }

    proof fn lemma_with_slot(self, v: Stored<NumImages>) {
    }

    fn slot_ref(&self) -> (r: &Stored<NumImages>) {
        &self.num_images
    }

    fn set_slot(&mut self, v: Stored<NumImages>) -> (r: Stored<NumImages>) {
        let mut v = v;
        std::mem::swap(&mut self.num_images, &mut v);
        v
    }
}

impl Slots<Vec<GCImageTableEntry>> for TplStore {
    open spec fn name() -> &'static str {
        "Vec<GCImageTableEntry>"
    }

    fn name_of() -> (r: &'static str) {
        "Vec<GCImageTableEntry>"
    }

    closed spec fn slot(&self) -> Stored<Vec<GCImageTableEntry>> {
        self.entries
    }

    closed spec fn with_slot(self, v: Stored<Vec<GCImageTableEntry>>) -> TplStore {
        TplStore { entries: v, ..self }
    }

    proof fn lemma_with_slot(self, v: Stored<Vec<GCImageTableEntry>>) {
    }

    fn slot_ref(&self) -> (r: &Stored<Vec<GCImageTableEntry>>) {
        &self.entries
    }

    fn set_slot(&mut self, v: Stored<Vec<GCImageTableEntry>>) -> (r: Stored<Vec<GCImageTableEntry>>) {
        let mut v = v;
        std::mem::swap(&mut self.entries, &mut v);
        v
    }
}

impl Slots<Vec<MipMapImage>> for TplStore {
    open spec fn name() -> &'static str {
        "Vec<MipMapImage>"
    }

    fn name_of() -> (r: &'static str) {
        "Vec<MipMapImage>"
    }

    closed spec fn slot(&self) -> Stored<Vec<MipMapImage>> {
        self.mipmaps
    }

    closed spec fn with_slot(self, v: Stored<Vec<MipMapImage>>) -> TplStore {
        TplStore { mipmaps: v, ..self }
    }

    proof fn lemma_with_slot(self, v: Stored<Vec<MipMapImage>>) {
    }

    fn slot_ref(&self) -> (r: &Stored<Vec<MipMapImage>>) {
        &self.mipmaps
    }

    fn set_slot(&mut self, v: Stored<Vec<MipMapImage>>) -> (r: Stored<Vec<MipMapImage>>) {
        let mut v = v;
        std::mem::swap(&mut self.mipmaps, &mut v);
        v
    }
}

impl CurrentSlot<GCImageTableEntry> for TplStore {
    open spec fn current_name() -> &'static str {
        "GCImageTableEntry"
    }

    fn current_name_of() -> (r: &'static str) {
        "GCImageTableEntry"
    }

    closed spec fn current(&self) -> Option<GCImageTableEntry> {
        self.entry
    }

    closed spec fn with_current(self, v: GCImageTableEntry) -> TplStore {
        TplStore { entry: Some(v), ..self }
    }

    proof fn lemma_with_current(self, v: GCImageTableEntry) {
    }

    fn current_ref(&self) -> (r: &Option<GCImageTableEntry>) {
        &self.entry
    }

    fn set_current(&mut self, v: GCImageTableEntry) {
        self.entry = Some(v);
    }
}

/// Each slot and the current cell of a [`TplStore`] are kept apart: replacing one leaves the
/// others as they were.
pub proof fn lemma_tpl_store_frame(
    st: TplStore,
    n: Stored<NumImages>,
    t: Stored<Vec<GCImageTableEntry>>,
    m: Stored<Vec<MipMapImage>>,
    e: GCImageTableEntry,
)
    ensures
        Slots::<Vec<GCImageTableEntry>>::slot(&Slots::<NumImages>::with_slot(st, n)) == Slots::<Vec<GCImageTableEntry>>::slot(&st),
        Slots::<Vec<MipMapImage>>::slot(&Slots::<NumImages>::with_slot(st, n)) == Slots::<Vec<MipMapImage>>::slot(&st),
        CurrentSlot::<GCImageTableEntry>::current(&Slots::<NumImages>::with_slot(st, n)) == CurrentSlot::<GCImageTableEntry>::current(&st),
        Slots::<NumImages>::slot(&Slots::<Vec<GCImageTableEntry>>::with_slot(st, t)) == Slots::<NumImages>::slot(&st),
        Slots::<Vec<MipMapImage>>::slot(&Slots::<Vec<GCImageTableEntry>>::with_slot(st, t)) == Slots::<Vec<MipMapImage>>::slot(&st),
        CurrentSlot::<GCImageTableEntry>::current(&Slots::<Vec<GCImageTableEntry>>::with_slot(st, t)) == CurrentSlot::<GCImageTableEntry>::current(&st),
        Slots::<NumImages>::slot(&Slots::<Vec<MipMapImage>>::with_slot(st, m)) == Slots::<NumImages>::slot(&st),
        Slots::<Vec<GCImageTableEntry>>::slot(&Slots::<Vec<MipMapImage>>::with_slot(st, m)) == Slots::<Vec<GCImageTableEntry>>::slot(&st),
        CurrentSlot::<GCImageTableEntry>::current(&Slots::<Vec<MipMapImage>>::with_slot(st, m)) == CurrentSlot::<GCImageTableEntry>::current(&st),
        Slots::<NumImages>::slot(&CurrentSlot::<GCImageTableEntry>::with_current(st, e)) == Slots::<NumImages>::slot(&st),
        Slots::<Vec<GCImageTableEntry>>::slot(&CurrentSlot::<GCImageTableEntry>::with_current(st, e)) == Slots::<Vec<GCImageTableEntry>>::slot(&st),
        Slots::<Vec<MipMapImage>>::slot(&CurrentSlot::<GCImageTableEntry>::with_current(st, e)) == Slots::<Vec<MipMapImage>>::slot(&st),
{
}

/// The number of image bytes that the entry `e` announces: its height and width, in blocks of
/// its format, times the block size, computed as
/// `block_size * height / block_height * width / block_width`. `None` for an unknown format or
/// when a step overflows a `usize`.
pub open spec fn image_len(e: GCImageTableEntry) -> Option<usize> {
    match Format::spec_from_u32(e.format) {
        None => None,
        Some(f) => {
            let (h, w) = f.spec_height_width();
            let a = f.spec_block_size() * e.height;
            if a > usize::MAX {
                None
            } else {
                let b = (a / (h as int)) * e.width;
                if b > usize::MAX {
                    None
                } else {
                    Some((b / (w as int)) as usize)
                }
            }
        },
    }
}

/// The byte count of [`image_len`].
pub fn image_byte_count(e: &GCImageTableEntry) -> (r: Option<usize>)
    ensures
        r == image_len(*e),
{
    let format = match Format::from_u32(e.format) {
        Some(f) => f,
        None => {
            return None;
        },
    };
    let (h, w) = format.height_width();
    let a = match format.block_size().checked_mul(e.height as usize) {
        Some(a) => a,
        None => {
            return None;
        },
    };
    let b = match (a / h).checked_mul(e.width as usize) {
        Some(b) => b,
        None => {
            return None;
        },
    };
    Some(b / w)
}

/// Reads one image of the entry `entry` at the current offset: as many bytes as the entry
/// announces, decoded by [`decode_image_data`] with the entry's format and dimensions.
/// The images of entry `e` can be read at `pos` in `b`: its format is known, its byte count
/// computes, all its mipmap levels lie inside `b`, and each level decodes (see [`fits`]).
pub open spec fn entry_ok(b: Seq<u8>, e: GCImageTableEntry, pos: int) -> bool {
    &&& image_len(e) is Some
    &&& pos + e.mipmaps * image_len(e)->Some_0 <= b.len()
    &&& fits(
        image_len(e)->Some_0 as nat,
        Format::spec_from_u32(e.format)->Some_0,
        e.height as usize,
        e.width as usize,
    )
}

fn read_image<F: Fn(Color, Color, Blend) -> Color>(
    ctx: &mut FileCtx<TplStore>,
    entry: &GCImageTableEntry,
    mix: &F,
) -> (r: Result<Image, ParseError>)
    requires
        old(ctx).wf(),
        forall|a: Color, b: Color, k: Blend| call_requires(*mix, (a, b, k)),
    ensures
        final(ctx).wf(),
        final(ctx).store == old(ctx).store,
        final(ctx).file.data() == old(ctx).file.data(),
        final(ctx).file.lints() == old(ctx).file.lints(),
        image_len(*entry) is None ==> *final(ctx) == *old(ctx) && r is Err,
        r matches Ok(img) ==> image_len(*entry) matches Some(n) && read_ok(
            old(ctx).file,
            final(ctx).file,
            n as nat,
        ) && Some(img.spec_format()) == Format::spec_from_u32(entry.format) && img.spec_height()
            == entry.height && img.spec_width() == entry.width,
        image_len(*entry) is Some && old(ctx).file.pos() + image_len(*entry)->Some_0 <= old(
            ctx,
        ).file.data().len() && fits(
            image_len(*entry)->Some_0 as nat,
            Format::spec_from_u32(entry.format)->Some_0,
            entry.height as usize,
            entry.width as usize,
        ) ==> r is Ok,
{
    let count = match image_byte_count(entry) {
        Some(n) => n,
        None => {
            return Err(ParseError::Custom(String::from_str("image entry of unknown format or size")));
        },
    };
    let format = match Format::from_u32(entry.format) {
        Some(f) => f,
        None => {
            return Err(ParseError::Custom(String::from_str("image entry of unknown format or size")));
        },
    };
    let bytes = ctx.consume_bytes(count)?;
    match decode_image_data(bytes.as_slice(), format, entry.height as usize, entry.width as usize, mix) {
        Some(img) => Ok(img),
        None => Err(ParseError::Custom(String::from_str("image data does not fit its dimensions"))),
    }
}

/// Reads the mipmaps of the current table entry, one image per level, one after the other.
pub struct MipMapReader<F> {
    pub mix: F,
}

impl<F: Fn(Color, Color, Blend) -> Color> Reader<TplStore> for MipMapReader<F> {
    type Output = MipMapImage;

    open spec fn ready(&self) -> bool {
        forall|a: Color, b: Color, k: Blend| call_requires(self.mix, (a, b, k))
    }

    /// Fails with `NotCurrent` without a current entry. A success gives as many images as the
    /// entry has mipmaps, each decoded with the entry's format and dimensions; the read
    /// succeeds when the entry's images can be read where the source stands (see
    /// [`entry_ok`]).
    open spec fn runs(&self, pre: FileCtx<TplStore>, post: FileCtx<TplStore>, r: Result<MipMapImage, ParseError>) -> bool {
        &&& post.store == pre.store
        &&& post.file.data() == pre.file.data()
        &&& post.file.lints() == pre.file.lints()
        &&& match CurrentSlot::<GCImageTableEntry>::current(&pre.store) {
            None => post == pre && r == Err::<MipMapImage, _>(ParseError::NotCurrent(<TplStore as CurrentSlot<GCImageTableEntry>>::current_name())),
            Some(e) => r matches Ok(m) ==> m.spec_images().len() == e.mipmaps && forall|i: int|
                0 <= i < m.spec_images().len() ==> Some(#[trigger] m.spec_images()[i].spec_format())
                    == Format::spec_from_u32(e.format) && m.spec_images()[i].spec_height() == e.height
                    && m.spec_images()[i].spec_width() == e.width,
        }
        &&& CurrentSlot::<GCImageTableEntry>::current(&pre.store) matches Some(e) ==> (entry_ok(
            pre.file.data(),
            e,
            pre.file.pos() as int,
        ) ==> r is Ok)
    }

    fn go(&self, ctx: &mut FileCtx<TplStore>) -> (r: Result<MipMapImage, ParseError>) {
        let entry: GCImageTableEntry = match ctx.get_current::<GCImageTableEntry>() {
            Ok(e) => *e,
            Err(e) => {
                return Err(e);
            },
        };
        let ghost pre = *ctx;
        let levels = entry.mipmaps as usize;
        let mut images: Vec<Image> = Vec::new();
        let mut i: usize = 0;
        while i < levels
            invariant
                self.ready(),
                pre == *old(ctx),
                ctx.wf(),
                ctx.store == pre.store,
                ctx.file.data() == pre.file.data(),
                ctx.file.lints() == pre.file.lints(),
                CurrentSlot::<GCImageTableEntry>::current(&pre.store) == Some(entry),
                i <= levels,
                levels == entry.mipmaps,
                images@.len() == i,
                forall|k: int|
                    0 <= k < i ==> Some(#[trigger] images@[k].spec_format()) == Format::spec_from_u32(
                        entry.format,
                    ) && images@[k].spec_height() == entry.height && images@[k].spec_width()
                        == entry.width,
                entry_ok(pre.file.data(), entry, pre.file.pos() as int) ==> ctx.file.pos()
                    == pre.file.pos() + i * image_len(entry)->Some_0,
            decreases levels - i,
        {
            let ghost before = *ctx;
            proof {
                if entry_ok(pre.file.data(), entry, pre.file.pos() as int) {
                    let m = image_len(entry)->Some_0 as int;
                    assert(pre.file.pos() + i * m + m <= pre.file.pos() + entry.mipmaps * m) by (nonlinear_arith)
                        requires
                            i + 1 <= entry.mipmaps,
                            m >= 0,
                    ;
                }
            }
            let img = read_image(ctx, &entry, &self.mix)?;
            proof {
                if entry_ok(pre.file.data(), entry, pre.file.pos() as int) {
                    let m = image_len(entry)->Some_0 as int;
                    assert(pre.file.pos() + i * m + m == pre.file.pos() + (i + 1) * m) by (nonlinear_arith);
                }
            }
            images.push(img);
            i = i + 1;
        }
        Ok(MipMapImage { images })
    }
}

/// The big-endian two-byte word of `b` at `i`.
pub open spec fn half(b: Seq<u8>, i: int) -> u16 {
    (b[i] * 256 + b[i + 1]) as u16
}

/// The big-endian word of `b` at `i`.
fn half_at(b: &Vec<u8>, i: usize) -> (r: u16)
    requires
        i + 2 <= b@.len(),
    ensures
        r == half(b@, i as int),
{
    let _len = b.len();
    b[i] as u16 * 256 + b[i + 1] as u16
}

/// The image count that a container of bytes `b` starts with.
pub open spec fn gc_count(b: Seq<u8>) -> nat {
    word(b, 0) as nat
}

/// The table entry that starts at `p` in a container of bytes `b`.
pub open spec fn gc_entry(b: Seq<u8>, p: int) -> GCImageTableEntry {
    GCImageTableEntry {
        format: word(b, p),
        offset: word(b, p + 4),
        width: half(b, p + 8),
        height: half(b, p + 10),
        mipmaps: half(b, p + 12),
    }
}

/// The table entry that starts at `p` in `b` ends with the tag `12 34`.
pub open spec fn gc_tag_ok(b: Seq<u8>, p: int) -> bool {
    b[p + 14] == 0x12 && b[p + 15] == 0x34
}

/// `m` has one image per mipmap level of the entry `e`, each of its format and dimensions.
pub open spec fn mip_shape(m: MipMapImage, e: GCImageTableEntry) -> bool {
    &&& m.spec_images().len() == e.mipmaps
    &&& forall|j: int|
        0 <= j < m.spec_images().len() ==> Some(#[trigger] m.spec_images()[j].spec_format())
            == Format::spec_from_u32(e.format) && m.spec_images()[j].spec_height() == e.height
            && m.spec_images()[j].spec_width() == e.width
}

/// `t` was read from a container of bytes `b`: one mipmap set per table entry, in table order,
/// each shaped as its entry says, and every entry ends with its tag.
pub open spec fn gc_shape(b: Seq<u8>, t: Tpl) -> bool {
    let n = gc_count(b);
    &&& t.spec_mipmaps().len() == n
    &&& forall|i: int|
        0 <= i < n ==> gc_tag_ok(b, 4 + 16 * i) && mip_shape(
            #[trigger] t.spec_mipmaps()[i],
            gc_entry(b, 4 + 16 * i),
        )
}

/// Reads the image count.
pub struct GcCountReader;

impl Reader<TplStore> for GcCountReader {
    type Output = NumImages;

    open spec fn ready(&self) -> bool {
        true
    }

    open spec fn runs(&self, pre: FileCtx<TplStore>, post: FileCtx<TplStore>, r: Result<NumImages, ParseError>) -> bool {
        &&& post.store == pre.store
        &&& read_rel(pre.file, post.file, 4, r)
        &&& r matches Ok(c) ==> c.0 == word(pre.file.data(), pre.file.pos() as int)
    }

    fn go(&self, ctx: &mut FileCtx<TplStore>) -> (r: Result<NumImages, ParseError>) {
        let b = ctx.consume_bytes(4)?;
        Ok(NumImages(read_word(&b, 0)))
    }
}

/// Reads one table entry: format, offset, width, height, mipmap count, then the tag `12 34`.
pub struct GcEntryReader;

impl Reader<TplStore> for GcEntryReader {
    type Output = GCImageTableEntry;

    open spec fn ready(&self) -> bool {
        true
    }

    /// A success read the 16 bytes of an entry whose tag is right; a wrong tag fails with
    /// `TagMismatch`.
    open spec fn runs(
        &self,
        pre: FileCtx<TplStore>,
        post: FileCtx<TplStore>,
        r: Result<GCImageTableEntry, ParseError>,
    ) -> bool {
        &&& post.store == pre.store
        &&& r matches Ok(e) ==> {
            &&& read_ok(pre.file, post.file, 16)
            &&& e == gc_entry(pre.file.data(), pre.file.pos() as int)
            &&& gc_tag_ok(pre.file.data(), pre.file.pos() as int)
        }
        &&& pre.file.pos() + 16 <= pre.file.data().len() ==> (r is Ok <==> gc_tag_ok(
            pre.file.data(),
            pre.file.pos() as int,
        ))
    }

    fn go(&self, ctx: &mut FileCtx<TplStore>) -> (r: Result<GCImageTableEntry, ParseError>) {
        let b = ctx.consume_bytes(16)?;
        if b[14] != 0x12 || b[15] != 0x34 {
            return Err(ParseError::TagMismatch { expected: vec![0x12u8, 0x34u8], actual: vec![b[14], b[15]] });
        }
        Ok(
            GCImageTableEntry {
                format: read_word(&b, 0),
                offset: read_word(&b, 4),
                width: half_at(&b, 8),
                height: half_at(&b, 10),
                mipmaps: half_at(&b, 12),
            },
        )
    }
}

/// Gives the memorized image count.
pub struct GcCountAction;

impl Action<TplStore> for GcCountAction {
    type Output = usize;

    open spec fn ready(&self) -> bool {
        true
    }

    open spec fn gives(&self, ctx: FileCtx<TplStore>, r: Result<usize, ParseError>) -> bool {
        match spec_memorized::<TplStore, NumImages>(ctx.store) {
            Ok(c) => r == Ok::<usize, ParseError>(c.0 as usize),
            Err(e) => r == Err::<usize, _>(e),
        }
    }

    fn go(&self, ctx: &FileCtx<TplStore>) -> (r: Result<usize, ParseError>) {
        match ctx.get_memorized::<NumImages>() {
            Ok(c) => Ok(c.0 as usize),
            Err(e) => Err(e),
        }
    }
}

/// Gives a copy of the memorized image table.
pub struct GcTableAction;

impl Action<TplStore> for GcTableAction {
    type Output = Vec<GCImageTableEntry>;

    open spec fn ready(&self) -> bool {
        true
    }

    open spec fn gives(&self, ctx: FileCtx<TplStore>, r: Result<Vec<GCImageTableEntry>, ParseError>) -> bool {
        match spec_memorized::<TplStore, Vec<GCImageTableEntry>>(ctx.store) {
            Ok(t) => r is Ok && r->Ok_0@ == t@,
            Err(e) => r == Err::<Vec<GCImageTableEntry>, _>(e),
        }
    }

    fn go(&self, ctx: &FileCtx<TplStore>) -> (r: Result<Vec<GCImageTableEntry>, ParseError>) {
        let table = match ctx.get_memorized::<Vec<GCImageTableEntry>>() {
            Ok(t) => t,
            Err(e) => {
                return Err(e);
            },
        };
        let mut out: Vec<GCImageTableEntry> = Vec::new();
        let mut i: usize = 0;
        while i < table.len()
            invariant
                i <= table@.len(),
                out@ == table@.subrange(0, i as int),
            decreases table@.len() - i,
        {
            out.push(table[i]);
            i = i + 1;
        }
        assert(out@ == table@);
        Ok(out)
    }
}

/// Gives the offset of the current table entry.
pub struct EntryOffset;

impl Action<TplStore> for EntryOffset {
    type Output = usize;

    open spec fn ready(&self) -> bool {
        true
    }

    open spec fn gives(&self, ctx: FileCtx<TplStore>, r: Result<usize, ParseError>) -> bool {
        match CurrentSlot::<GCImageTableEntry>::current(&ctx.store) {
            Some(e) => r == Ok::<usize, ParseError>(e.offset as usize),
            None => r == Err::<usize, _>(ParseError::NotCurrent(<TplStore as CurrentSlot<GCImageTableEntry>>::current_name())),
        }
    }

    fn go(&self, ctx: &FileCtx<TplStore>) -> (r: Result<usize, ParseError>) {
        match ctx.get_current::<GCImageTableEntry>() {
            Ok(e) => Ok(e.offset as usize),
            Err(e) => Err(e),
        }
    }
}

/// Takes the memorized mipmap sets out of their slot and gives the container made of them.
pub struct TakeMipmaps;

impl Reader<TplStore> for TakeMipmaps {
    type Output = Tpl;

    open spec fn ready(&self) -> bool {
        true
    }

    open spec fn runs(&self, pre: FileCtx<TplStore>, post: FileCtx<TplStore>, r: Result<Tpl, ParseError>) -> bool {
        &&& post.file == pre.file
        &&& r matches Ok(t) ==> Slots::<Vec<MipMapImage>>::slot(&pre.store) is Value
            && t.spec_mipmaps() == Slots::<Vec<MipMapImage>>::slot(&pre.store)->Value_0@
        &&& Slots::<Vec<MipMapImage>>::slot(&pre.store) is Value ==> r is Ok
    }

    fn go(&self, ctx: &mut FileCtx<TplStore>) -> (r: Result<Tpl, ParseError>) {
        let images = ctx.take_memorized::<Vec<MipMapImage>>()?;
        Ok(Tpl { images })
    }
}

/// The header of the container grammar: the image count, then the table, each memorized.
pub type GcHeader = And<Memorize<GcCountReader>, Memorize<Repeated<GcEntryReader, RepeatExact<GcCountAction>>>>;

/// The images of the container grammar: for each table entry, its mipmaps read at its offset,
/// memorized.
pub type GcImages<F> = Memorize<Repeated<JumpRead<MipMapReader<F>, EntryOffset>, ForEach<GcTableAction>>>;

/// The grammar of a container of the `Gc` kind.
pub type GcGrammar<F> = And<And<GcHeader, GcImages<F>>, TakeMipmaps>;

/// Reading `outs.len()` table entries one after the other reads 16 bytes per entry, leaves the
/// store alone, and gives the entries at those bytes, each with its tag right.
proof fn lemma_gc_table_chain(
    er: GcEntryReader,
    pre: FileCtx<TplStore>,
    post: FileCtx<TplStore>,
    outs: Seq<GCImageTableEntry>,
)
    requires
        runs_n(er, pre, post, outs),
    ensures
        post.store == pre.store,
        post.file.data() == pre.file.data(),
        post.file.lints() == pre.file.lints(),
        post.file.pos() == pre.file.pos() + 16 * outs.len(),
        forall|i: int|
            0 <= i < outs.len() ==> #[trigger] outs[i] == gc_entry(pre.file.data(), pre.file.pos() + 16 * i)
                && gc_tag_ok(pre.file.data(), pre.file.pos() + 16 * i),
    decreases outs.len(),
{
    if outs.len() > 0 {
        let mid = choose|mid: FileCtx<TplStore>|
            runs_n(er, pre, mid, outs.drop_last()) && #[trigger] er.runs(mid, post, Ok(outs.last()));
        lemma_gc_table_chain(er, pre, mid, outs.drop_last());
        assert forall|i: int| 0 <= i < outs.len() implies #[trigger] outs[i] == gc_entry(
            pre.file.data(),
            pre.file.pos() + 16 * i,
        ) && gc_tag_ok(pre.file.data(), pre.file.pos() + 16 * i) by {
            if i < outs.len() - 1 {
                assert(outs[i] == outs.drop_last()[i]);
            }
        }
    }
}

/// Reading the mipmaps of the entries `items` one after the other, each at its offset, keeps
/// the memorized slots and gives mipmap sets shaped as the entries say.
proof fn lemma_gc_mip_chain<F: Fn(Color, Color, Blend) -> Color>(
    jr: JumpRead<MipMapReader<F>, EntryOffset>,
    pre: FileCtx<TplStore>,
    post: FileCtx<TplStore>,
    items: Seq<GCImageTableEntry>,
    outs: Seq<MipMapImage>,
)
    requires
        runs_each(jr, pre, post, items, outs),
    ensures
        Slots::<NumImages>::slot(&post.store) == Slots::<NumImages>::slot(&pre.store),
        Slots::<Vec<GCImageTableEntry>>::slot(&post.store) == Slots::<Vec<GCImageTableEntry>>::slot(
            &pre.store,
        ),
        Slots::<Vec<MipMapImage>>::slot(&post.store) == Slots::<Vec<MipMapImage>>::slot(&pre.store),
        post.file.data() == pre.file.data(),
        post.file.lints() == pre.file.lints(),
        outs.len() == items.len(),
        forall|k: int| 0 <= k < outs.len() ==> mip_shape(#[trigger] outs[k], items[k]),
    decreases items.len(),
{
    if items.len() > 0 {
        let mid = choose|mid: FileCtx<TplStore>|
            runs_each(jr, pre, mid, items.drop_last(), outs.drop_last()) && #[trigger] jr.runs(
                with_current(mid, items.last()),
                post,
                Ok(outs.last()),
            );
        lemma_gc_mip_chain(jr, pre, mid, items.drop_last(), outs.drop_last());
        let e = items.last();
        let c = with_current(mid, e);
        let p = choose|p: Result<usize, ParseError>| #[trigger]
            jr.pos.gives(c, p) && match p {
                Err(err) => post == c && Ok::<MipMapImage, ParseError>(outs.last()) == Err::<
                    MipMapImage,
                    _,
                >(err),
                Ok(off) => jr.inner.runs(jumped(c, off), post, Ok(outs.last())),
            };
        let off = e.offset as usize;
        assert(p == Ok::<usize, ParseError>(off));
        c.file.lemma_at(off);
        assert forall|k: int| 0 <= k < outs.len() implies mip_shape(#[trigger] outs[k], items[k]) by {
            if k < outs.len() - 1 {
                assert(outs[k] == outs.drop_last()[k]);
                assert(items[k] == items.drop_last()[k]);
            }
        }
    }
}

/// Every successful run of the container grammar from offset 0 with empty slots gives a
/// container shaped as its table says (see [`gc_shape`]).
pub proof fn lemma_gc<F: Fn(Color, Color, Blend) -> Color>(
    g: GcGrammar<F>,
    pre: FileCtx<TplStore>,
    post: FileCtx<TplStore>,
    res: Result<Tpl, ParseError>,
)
    requires
        g.runs(pre, post, res),
        res is Ok,
        pre.file.pos() == 0,
        Slots::<NumImages>::slot(&pre.store) is Empty,
        Slots::<Vec<GCImageTableEntry>>::slot(&pre.store) is Empty,
        Slots::<Vec<MipMapImage>>::slot(&pre.store) is Empty,
    ensures
        gc_shape(pre.file.data(), res->Ok_0),
{
    let b = pre.file.data();
    let n = gc_count(b);
    let (mid, r1) = choose|mid: FileCtx<TplStore>, r1: Result<(), ParseError>|
        #[trigger] g.first.runs(pre, mid, r1) && match r1 {
            Ok(_) => g.second.runs(mid, post, res),
            Err(e) => post == mid && res == Err::<Tpl, _>(e),
        };
    let (m3, r2) = choose|m3: FileCtx<TplStore>, r2: Result<(), ParseError>|
        #[trigger] g.first.first.runs(pre, m3, r2) && match r2 {
            Ok(_) => g.first.second.runs(m3, mid, r1),
            Err(e) => mid == m3 && r1 == Err::<(), _>(e),
        };
    let h = g.first.first;
    let (m1, ra) = choose|m1: FileCtx<TplStore>, ra: Result<(), ParseError>|
        #[trigger] h.first.runs(pre, m1, ra) && match ra {
            Ok(_) => h.second.runs(m1, m3, r2),
            Err(e) => m3 == m1 && r2 == Err::<(), _>(e),
        };
    let (m0, rc) = choose|m0: FileCtx<TplStore>, rc: Result<NumImages, ParseError>|
        #[trigger] h.first.inner.runs(pre, m0, rc) && match rc {
            Err(e) => m1 == m0 && ra == Err::<(), _>(e),
            Ok(v) => m1.file == m0.file && (m1.store, ra) == spec_memorize(m0.store, v),
        };
    let cnt = rc->Ok_0;
    let rep = h.second.inner;
    let (m2, rt) = choose|m2: FileCtx<TplStore>, rt: Result<Vec<GCImageTableEntry>, ParseError>|
        #[trigger] rep.runs(m1, m2, rt) && match rt {
            Err(e) => m3 == m2 && r2 == Err::<(), _>(e),
            Ok(v) => m3.file == m2.file && (m3.store, r2) == spec_memorize(m2.store, v),
        };
    let rn = choose|rn: Result<usize, ParseError>| #[trigger]
        rep.method.0.gives(m1, rn) && match rn {
            Err(e) => m2 == m1 && rt == Err::<Vec<GCImageTableEntry>, _>(e),
            Ok(k) => match rt {
                Ok(v) => v@.len() == k && runs_n(rep.inner, m1, m2, v@),
                Err(e) => exists|mm: FileCtx<TplStore>, outs: Seq<GCImageTableEntry>|
                    outs.len() < k && #[trigger] runs_n(rep.inner, m1, mm, outs)
                        && rep.inner.runs(mm, m2, Err(e)),
            },
        };
    assert(rn == Ok::<usize, ParseError>(cnt.0 as usize));
    let v = rt->Ok_0;
    lemma_gc_table_chain(rep.inner, m1, m2, v@);
    let im = g.first.second;
    let (m4, ri) = choose|m4: FileCtx<TplStore>, ri: Result<Vec<MipMapImage>, ParseError>|
        #[trigger] im.inner.runs(m3, m4, ri) && match ri {
            Err(e) => mid == m4 && r1 == Err::<(), _>(e),
            Ok(w) => mid.file == m4.file && (mid.store, r1) == spec_memorize(m4.store, w),
        };
    let rl = choose|rl: Result<Vec<GCImageTableEntry>, ParseError>| #[trigger]
        im.inner.method.0.gives(m3, rl) && match rl {
            Err(e) => m4 == m3 && ri == Err::<Vec<MipMapImage>, _>(e),
            Ok(items) => match ri {
                Ok(o) => runs_each(im.inner.inner, m3, m4, items@, o@),
                Err(e) => exists|k: int, mm: FileCtx<TplStore>, outs: Seq<MipMapImage>|
                    0 <= k < items@.len() && #[trigger] runs_each(
                        im.inner.inner,
                        m3,
                        mm,
                        items@.subrange(0, k),
                        outs,
                    ) && im.inner.inner.runs(with_current(mm, items@[k]), m4, Err(e)),
            },
        };
    let items = rl->Ok_0;
    let w = ri->Ok_0;
    lemma_gc_mip_chain(im.inner.inner, m3, m4, items@, w@);
    let t = res->Ok_0;
    assert(r1 is Ok);
    assert(items@ == v@);
    assert(Slots::<Vec<MipMapImage>>::slot(&mid.store) == Stored::Value(w));
    assert(t.spec_mipmaps() == w@);
    assert(v@.len() == n);
    assert(t.spec_mipmaps().len() == n);
    assert forall|i: int| 0 <= i < n implies #[trigger] gc_tag_ok(b, 4 + 16 * i) by {
        assert(v@[i] == gc_entry(b, 4 + 16 * i) && gc_tag_ok(b, 4 + 16 * i));
    }
    assert forall|i: int| 0 <= i < n implies mip_shape(
        #[trigger] t.spec_mipmaps()[i],
        gc_entry(b, 4 + 16 * i),
    ) by {
        assert(items@[i] == v@[i]);
        assert(v@[i] == gc_entry(b, 4 + 16 * i));
    }
    assert(gc_shape(b, t));
}

/// Table entry `i` of a container of bytes `b` ends with its tag, and its images can be read at
/// its offset (see [`entry_ok`]).
pub open spec fn entry_fits(b: Seq<u8>, i: int) -> bool {
    gc_tag_ok(b, 4 + 16 * i) && entry_ok(b, gc_entry(b, 4 + 16 * i), gc_entry(b, 4 + 16 * i).offset as int)
}

/// The header, the table and every entry's images of a container of bytes `b` lie inside it,
/// every tag is right, and every image can be decoded.
pub open spec fn gc_fits(b: Seq<u8>) -> bool {
    &&& 4 + 16 * gc_count(b) <= b.len()
    &&& forall|i: int| 0 <= i < gc_count(b) ==> #[trigger] entry_fits(b, i)
}

/// Every run of the container grammar from offset 0 with empty slots on a container that fits
/// succeeds.
pub proof fn lemma_gc_succeeds<F: Fn(Color, Color, Blend) -> Color>(
    g: GcGrammar<F>,
    pre: FileCtx<TplStore>,
    post: FileCtx<TplStore>,
    res: Result<Tpl, ParseError>,
)
    requires
        g.runs(pre, post, res),
        pre.file.pos() == 0,
        Slots::<NumImages>::slot(&pre.store) is Empty,
        Slots::<Vec<GCImageTableEntry>>::slot(&pre.store) is Empty,
        Slots::<Vec<MipMapImage>>::slot(&pre.store) is Empty,
        gc_fits(pre.file.data()),
    ensures
        res is Ok,
        post.file.lints() == pre.file.lints(),
{
    let b = pre.file.data();
    let n = gc_count(b);
    let (mid, r1) = choose|mid: FileCtx<TplStore>, r1: Result<(), ParseError>|
        #[trigger] g.first.runs(pre, mid, r1) && match r1 {
            Ok(_) => g.second.runs(mid, post, res),
            Err(e) => post == mid && res == Err::<Tpl, _>(e),
        };
    let (m3, r2) = choose|m3: FileCtx<TplStore>, r2: Result<(), ParseError>|
        #[trigger] g.first.first.runs(pre, m3, r2) && match r2 {
            Ok(_) => g.first.second.runs(m3, mid, r1),
            Err(e) => mid == m3 && r1 == Err::<(), _>(e),
        };
    let h = g.first.first;
    let (m1, ra) = choose|m1: FileCtx<TplStore>, ra: Result<(), ParseError>|
        #[trigger] h.first.runs(pre, m1, ra) && match ra {
            Ok(_) => h.second.runs(m1, m3, r2),
            Err(e) => m3 == m1 && r2 == Err::<(), _>(e),
        };
    let (m0, rc) = choose|m0: FileCtx<TplStore>, rc: Result<NumImages, ParseError>|
        #[trigger] h.first.inner.runs(pre, m0, rc) && match rc {
            Err(e) => m1 == m0 && ra == Err::<(), _>(e),
            Ok(v) => m1.file == m0.file && (m1.store, ra) == spec_memorize(m0.store, v),
        };
    assert(rc is Ok);
    let cnt = rc->Ok_0;
    assert(ra is Ok);
    let rep = h.second.inner;
    let (m2, rt) = choose|m2: FileCtx<TplStore>, rt: Result<Vec<GCImageTableEntry>, ParseError>|
        #[trigger] rep.runs(m1, m2, rt) && match rt {
            Err(e) => m3 == m2 && r2 == Err::<(), _>(e),
            Ok(v) => m3.file == m2.file && (m3.store, r2) == spec_memorize(m2.store, v),
        };
    let rn = choose|rn: Result<usize, ParseError>| #[trigger]
        rep.method.0.gives(m1, rn) && match rn {
            Err(e) => m2 == m1 && rt == Err::<Vec<GCImageTableEntry>, _>(e),
            Ok(k) => match rt {
                Ok(v) => v@.len() == k && runs_n(rep.inner, m1, m2, v@),
                Err(e) => exists|mm: FileCtx<TplStore>, outs: Seq<GCImageTableEntry>|
                    outs.len() < k && #[trigger] runs_n(rep.inner, m1, mm, outs)
                        && rep.inner.runs(mm, m2, Err(e)),
            },
        };
    assert(rn == Ok::<usize, ParseError>(cnt.0 as usize));
    if rt is Err {
        let e = rt->Err_0;
        let (mm, outs) = choose|mm: FileCtx<TplStore>, outs: Seq<GCImageTableEntry>|
            outs.len() < n && #[trigger] runs_n(rep.inner, m1, mm, outs)
                && rep.inner.runs(mm, m2, Err(e));
        lemma_gc_table_chain(rep.inner, m1, mm, outs);
        assert(entry_fits(b, outs.len() as int));
        assert(false);
    } else {
        let v = rt->Ok_0;
        lemma_gc_table_chain(rep.inner, m1, m2, v@);
        assert(r2 is Ok);
        let im = g.first.second;
        let (m4, ri) = choose|m4: FileCtx<TplStore>, ri: Result<Vec<MipMapImage>, ParseError>|
            #[trigger] im.inner.runs(m3, m4, ri) && match ri {
                Err(e) => mid == m4 && r1 == Err::<(), _>(e),
                Ok(w) => mid.file == m4.file && (mid.store, r1) == spec_memorize(m4.store, w),
            };
        let rl = choose|rl: Result<Vec<GCImageTableEntry>, ParseError>| #[trigger]
            im.inner.method.0.gives(m3, rl) && match rl {
                Err(e) => m4 == m3 && ri == Err::<Vec<MipMapImage>, _>(e),
                Ok(items) => match ri {
                    Ok(o) => runs_each(im.inner.inner, m3, m4, items@, o@),
                    Err(e) => exists|k: int, mm: FileCtx<TplStore>, outs: Seq<MipMapImage>|
                        0 <= k < items@.len() && #[trigger] runs_each(
                            im.inner.inner,
                            m3,
                            mm,
                            items@.subrange(0, k),
                            outs,
                        ) && im.inner.inner.runs(with_current(mm, items@[k]), m4, Err(e)),
                },
            };
        let items = rl->Ok_0;
        assert(items@ == v@);
        if ri is Err {
            let e = ri->Err_0;
            let (k, mm, outs) = choose|k: int, mm: FileCtx<TplStore>, outs: Seq<MipMapImage>|
                0 <= k < items@.len() && #[trigger] runs_each(
                    im.inner.inner,
                    m3,
                    mm,
                    items@.subrange(0, k),
                    outs,
                ) && im.inner.inner.runs(with_current(mm, items@[k]), m4, Err(e));
            lemma_gc_mip_chain(im.inner.inner, m3, mm, items@.subrange(0, k), outs);
            let ent = items@[k];
            assert(ent == gc_entry(b, 4 + 16 * k));
            assert(entry_fits(b, k));
            let c = with_current(mm, ent);
            let off = ent.offset as usize;
            let p = choose|p: Result<usize, ParseError>| #[trigger]
                im.inner.inner.pos.gives(c, p) && match p {
                    Err(e2) => m4 == c && Err::<MipMapImage, ParseError>(e) == Err::<MipMapImage, _>(e2),
                    Ok(o2) => im.inner.inner.inner.runs(jumped(c, o2), m4, Err(e)),
                };
            assert(p == Ok::<usize, ParseError>(off));
            c.file.lemma_at(off);
            assert(false);
        } else {
            let w = ri->Ok_0;
            lemma_gc_mip_chain(im.inner.inner, m3, m4, items@, w@);
            assert(r1 is Ok);
        }
    }
}

/// The grammar of a container of the `Gc` kind, with `mix` interpolating compressed palettes.
pub open spec fn gc_grammar<F>(mix: F) -> GcGrammar<F> {
    And {
        first: And {
            first: And {
                first: Memorize { inner: GcCountReader },
                second: Memorize {
                    inner: Repeated { inner: GcEntryReader, method: RepeatExact(GcCountAction) },
                },
            },
            second: Memorize {
                inner: Repeated {
                    inner: JumpRead { pos: EntryOffset, inner: MipMapReader { mix } },
                    method: ForEach(GcTableAction),
                },
            },
        },
        second: TakeMipmaps,
    }
}

/// `c` is where a parse of the bytes `d` starts: offset 0, nothing read, the default diagnostic
/// levels, every slot empty and no current entry.
pub open spec fn gc_start(c: FileCtx<TplStore>, d: Seq<u8>) -> bool {
    &&& c.file.wf()
    &&& c.file.data() == d
    &&& c.file.pos() == 0
    &&& c.file.used() == Set::<int>::empty()
    &&& c.file.lints() == ParseLints::default_spec()
    &&& Slots::<NumImages>::slot(&c.store) is Empty
    &&& Slots::<Vec<GCImageTableEntry>>::slot(&c.store) is Empty
    &&& Slots::<Vec<MipMapImage>>::slot(&c.store) is Empty
    &&& CurrentSlot::<GCImageTableEntry>::current(&c.store) is None
}

/// The grammar of a container of the `Gc` kind: a big-endian image count; that many table
/// entries (format, offset, width, height, mipmap count, then the tag `12 34`); then, for each
/// entry, its mipmaps read at its offset. `mix` interpolates compressed palettes. A success
/// from offset 0 with an empty store gives a container shaped as its table says.
pub fn gc_parser<F: Fn(Color, Color, Blend) -> Color>(mix: F) -> (r: GcGrammar<F>)
    requires
        forall|a: Color, b: Color, k: Blend| call_requires(mix, (a, b, k)),
    ensures
        r == gc_grammar(mix),
        r.ready(),
        forall|pre: FileCtx<TplStore>, post: FileCtx<TplStore>, res: Result<Tpl, ParseError>|
            #[trigger] r.runs(pre, post, res) && pre.file.pos() == 0
                && Slots::<NumImages>::slot(&pre.store) is Empty
                && Slots::<Vec<GCImageTableEntry>>::slot(&pre.store) is Empty
                && Slots::<Vec<MipMapImage>>::slot(&pre.store) is Empty && gc_fits(pre.file.data())
                ==> res is Ok && post.file.lints() == pre.file.lints(),
        forall|pre: FileCtx<TplStore>, post: FileCtx<TplStore>, res: Result<Tpl, ParseError>|
            #[trigger] r.runs(pre, post, res) && res is Ok && pre.file.pos() == 0
                && Slots::<NumImages>::slot(&pre.store) is Empty
                && Slots::<Vec<GCImageTableEntry>>::slot(&pre.store) is Empty
                && Slots::<Vec<MipMapImage>>::slot(&pre.store) is Empty ==> gc_shape(
                pre.file.data(),
                res->Ok_0,
            ),
{
    let header = And {
        first: Memorize { inner: GcCountReader },
        second: Memorize {
            inner: Repeated { inner: GcEntryReader, method: RepeatExact(GcCountAction) },
        },
    };
    let images = Memorize {
        inner: Repeated {
            inner: JumpRead { pos: EntryOffset, inner: MipMapReader { mix } },
            method: ForEach(GcTableAction),
        },
    };
    let g = And { first: And { first: header, second: images }, second: TakeMipmaps };
    assert forall|pre: FileCtx<TplStore>, post: FileCtx<TplStore>, res: Result<Tpl, ParseError>|
        #[trigger] g.runs(pre, post, res) && res is Ok && pre.file.pos() == 0
            && Slots::<NumImages>::slot(&pre.store) is Empty
            && Slots::<Vec<GCImageTableEntry>>::slot(&pre.store) is Empty
            && Slots::<Vec<MipMapImage>>::slot(&pre.store) is Empty implies gc_shape(
        pre.file.data(),
        res->Ok_0,
    ) by {
        lemma_gc(g, pre, post, res);
    }
    assert forall|pre: FileCtx<TplStore>, post: FileCtx<TplStore>, res: Result<Tpl, ParseError>|
        #[trigger] g.runs(pre, post, res) && pre.file.pos() == 0
            && Slots::<NumImages>::slot(&pre.store) is Empty
            && Slots::<Vec<GCImageTableEntry>>::slot(&pre.store) is Empty
            && Slots::<Vec<MipMapImage>>::slot(&pre.store) is Empty && gc_fits(pre.file.data())
            implies res is Ok && post.file.lints() == pre.file.lints() by {
        lemma_gc_succeeds(g, pre, post, res);
    }
    g
}

impl Tpl {
    /// Reads a container of kind `kind` from the bytes `data` with the grammar of
    /// [`gc_parser`]. Only the `Gc` kind has a grammar; the others fail with a message.
    pub fn read<F: Fn(Color, Color, Blend) -> Color>(data: Vec<u8>, kind: TplKind, mix: F) -> (r: Result<
        Tpl,
        TplError,
    >)
        requires
            forall|a: Color, b: Color, k: Blend| call_requires(mix, (a, b, k)),
        ensures
            kind != TplKind::Gc ==> r is Err,
            kind == TplKind::Gc && gc_fits(data@) ==> r is Ok,
            kind == TplKind::Gc && r is Ok ==> gc_shape(data@, r->Ok_0),
            kind == TplKind::Gc && r is Ok ==> exists|pre: FileCtx<TplStore>, post: FileCtx<TplStore>|
                #![trigger gc_grammar(mix).runs(pre, post, Ok(r->Ok_0))]
                gc_start(pre, data@) && gc_grammar(mix).runs(pre, post, Ok(r->Ok_0))
                    && !crate::unused_is_error(post.file),
            kind == TplKind::Gc && r is Err ==> r->Err_0 is Cause && exists|
                pre: FileCtx<TplStore>,
                post: FileCtx<TplStore>,
                ro: Result<Tpl, ParseError>,
            |
                #![trigger gc_grammar(mix).runs(pre, post, ro)]
                gc_start(pre, data@) && gc_grammar(mix).runs(pre, post, ro) && (ro == Err::<
                    Tpl,
                    _,
                >(r->Err_0->Cause_0) || (ro is Ok && crate::unused_is_error(post.file)
                    && r->Err_0->Cause_0 == ParseError::UnusedErr)),
    {
        match kind {
            TplKind::Gc => {
                let parser = gc_parser(mix);
                let file = ParseFile::open(data);
                let store = TplStore::new();
                let ghost pre = FileCtx { file, store };
                assert(gc_start(pre, data@));
                match parser.parse(file, store) {
                    Ok((tpl, rest)) => {
                        proof {
                            let post = choose|post: FileCtx<TplStore>|
                                #[trigger] parser.runs(pre, post, Ok(tpl)) && post.file == rest
                                    && !crate::unused_is_error(post.file);
                            assert(parser.runs(pre, post, Ok::<Tpl, ParseError>(tpl)));
                            assert(gc_grammar(mix).runs(pre, post, Ok::<Tpl, ParseError>(tpl)));
                        }
                        Ok(tpl)
                    },
                    Err(e) => {
                        proof {
                            let (post, ro) = choose|post: FileCtx<TplStore>, ro: Result<Tpl, ParseError>|
                                #[trigger] parser.runs(pre, post, ro) && (ro == Err::<Tpl, _>(e) || (
                                ro is Ok && crate::unused_is_error(post.file) && e == ParseError::UnusedErr));
                            assert(gc_grammar(mix).runs(pre, post, ro));
                        }
                        Err(TplError::from(e))
                    },
                }
            },
            _ => Err(TplError::Custom(String::from_str("no grammar for this kind of container"))),
        }
    }
}

} // verus!
