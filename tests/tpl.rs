use gcd::error::ParseError;
use gcd::tpl::parser::{
    cmpr_palette, decode_image_data, image_byte_count, parse_cmpr, parse_i4, parse_i8,
    parse_rgb565, Blend, GCImageTableEntry,
};
use gcd::tpl::{Color, Format, Tpl, TplError, TplKind};

fn marker(_a: Color, _b: Color, k: Blend) -> Color {
    match k {
        Blend::OneThird => Color::new_tone(1),
        Blend::TwoThirds => Color::new_tone(2),
        Blend::Half => Color::new_tone(3),
    }
}

#[test]
fn format_codes() {
    assert_eq!(Format::from_u32(0), Some(Format::I4));
    assert_eq!(Format::from_u32(6), Some(Format::RGBA32));
    assert_eq!(Format::from_u32(7), None);
    assert_eq!(Format::from_u32(14), Some(Format::CMPR));
    assert_eq!(Format::from_u32(15), None);
}

#[test]
fn format_block_geometry() {
    assert_eq!(Format::I4.bits(), 4);
    assert_eq!(Format::RGBA32.bits(), 32);
    assert_eq!(Format::I8.height_width(), (4, 8));
    assert_eq!(Format::CMPR.height_width(), (8, 8));
    assert_eq!(Format::I4.block_size(), 32);
    assert_eq!(Format::IA8.block_size(), 32);
    assert_eq!(Format::RGBA32.block_size(), 64);
}

#[test]
fn i4_pixels() {
    assert_eq!(parse_i4(&[0xab], 0), Color::new_tone(0));
    assert_eq!(parse_i4(&[0xab], 1), Color::new_tone(0xa1));
    assert_eq!(parse_i4(&[0x00, 0xf0], 2), Color::new_tone(0x05));
}

#[test]
fn i8_pixels() {
    assert_eq!(parse_i8(&[1, 2, 3], 2), Color::new_tone(3));
}

#[test]
fn rgb565_pixels() {
    assert_eq!(parse_rgb565(&[0xf8, 0x1f], 0), Color::new_rgb(248, 0, 248));
    assert_eq!(parse_rgb565(&[0, 0, 0x07, 0xe0], 1), Color::new_rgb(0, 252, 0));
}

#[test]
fn cmpr_pixels_pick_from_their_palette() {
    let mut palettes = [[Color::new_tone(0); 4]; 4];
    for (p, palette) in palettes.iter_mut().enumerate() {
        for (i, c) in palette.iter_mut().enumerate() {
            *c = Color::new_tone((p * 10 + i) as u8);
        }
    }
    let mut bytes = [0u8; 32];
    bytes[4] = 0x80;
    bytes[5] = 0xc0;
    bytes[7] = 0x40;
    assert_eq!(parse_cmpr(&bytes, 0, &palettes), Color::new_tone(2));
    assert_eq!(parse_cmpr(&bytes, 5, &palettes), Color::new_tone(13));
    assert_eq!(parse_cmpr(&bytes, 40, &palettes), Color::new_tone(21));
}

#[test]
fn cmpr_palettes_from_end_colors() {
    let mut bytes = [0u8; 32];
    bytes[0..4].copy_from_slice(&[0xf8, 0x1f, 0x07, 0xe0]);
    bytes[8..12].copy_from_slice(&[0x00, 0x01, 0x00, 0x02]);
    let palettes = cmpr_palette(&bytes, &marker);
    assert_eq!(
        palettes[0],
        [Color::new_rgb(248, 0, 248), Color::new_rgb(0, 252, 0), Color::new_tone(1), Color::new_tone(2)]
    );
    assert_eq!(
        palettes[1],
        [Color::new_rgb(0, 0, 8), Color::new_rgb(0, 0, 16), Color::new_tone(3), Color::new_rgba(0, 0, 0, 0)]
    );
}

#[test]
fn decode_writes_the_partial_block() {
    let bytes: Vec<u8> = (0..32).collect();
    let img = decode_image_data(&bytes, Format::I8, 6, 12, &marker).unwrap();
    assert_eq!(img.height(), 6);
    assert_eq!(img.width(), 12);
    assert_eq!(img.format(), Format::I8);
    let data = img.data();
    assert_eq!(data.len(), 72);
    assert_eq!(data[0], Color::new_tone(0));
    assert_eq!(data[1], Color::new_tone(4));
    assert_eq!(data[6], Color::new_tone(1));
    assert_eq!(data[7], Color::new_tone(5));
    assert_eq!(data[3 * 6 + 1], Color::new_tone(7));
    assert_eq!(data[2], Color::new_rgb(0, 0, 0));
}

#[test]
fn decode_rejects_data_that_does_not_fit() {
    let bytes = vec![0u8; 32];
    assert!(decode_image_data(&bytes, Format::I8, 4, 4, &marker).is_none());
    assert!(decode_image_data(&bytes, Format::I8, 2, 8, &marker).is_none());
    assert!(decode_image_data(&bytes[..31], Format::CMPR, 8, 8, &marker).is_none());
    assert!(decode_image_data(&bytes, Format::CMPR, 8, 8, &marker).is_some());
}

#[test]
fn decode_without_data_gives_black() {
    let img = decode_image_data(&[], Format::I8, 2, 2, &marker).unwrap();
    assert_eq!(img.data(), &[Color::new_rgb(0, 0, 0); 4][..]);
}

#[test]
fn decode_with_one_byte_of_a_full_size_image() {
    let img = decode_image_data(&[7], Format::I8, 4, 8, &marker).unwrap();
    assert_eq!((img.height(), img.width(), img.format()), (4, 8, Format::I8));
    assert!(img.data().iter().all(|c| *c == Color::new_rgb(0, 0, 0)));
    assert_eq!(img.data().len(), 32);
}

#[test]
fn decode_partial_and_extra_blocks() {
    let bytes: Vec<u8> = (0..20).collect();
    let img = decode_image_data(&bytes, Format::I8, 6, 12, &marker).unwrap();
    let data = img.data();
    assert_eq!(data[1], Color::new_tone(4));
    assert_eq!(data[3 * 6 + 1], Color::new_tone(7));
    let more: Vec<u8> = (0..64).collect();
    let img = decode_image_data(&more, Format::I8, 6, 12, &marker).unwrap();
    assert_eq!(img.data()[3 * 6 + 1], Color::new_tone(7));
}

#[test]
fn image_byte_counts() {
    let entry = GCImageTableEntry { format: 1, offset: 0, width: 16, height: 4, mipmaps: 1 };
    assert_eq!(image_byte_count(&entry), Some(64));
    let entry = GCImageTableEntry { format: 14, offset: 0, width: 8, height: 8, mipmaps: 1 };
    assert_eq!(image_byte_count(&entry), Some(32));
    let entry = GCImageTableEntry { format: 7, offset: 0, width: 8, height: 8, mipmaps: 1 };
    assert_eq!(image_byte_count(&entry), None);
}

/// A container with one I8 image of 4 by 8 pixels and one mipmap level.
fn container(tag: [u8; 2]) -> Vec<u8> {
    let mut data = vec![0, 0, 0, 1];
    data.extend_from_slice(&[0, 0, 0, 1, 0, 0, 0, 20, 0, 8, 0, 4, 0, 1]);
    data.extend_from_slice(&tag);
    data.extend((0..32).map(|x| x as u8));
    data
}

#[test]
fn read_a_gc_container() {
    let tpl = Tpl::read(container([0x12, 0x34]), TplKind::Gc, marker).unwrap();
    assert_eq!(tpl.mipmaps().len(), 1);
    let images = tpl.mipmaps()[0].images();
    assert_eq!(images.len(), 1);
    assert_eq!(images[0].format(), Format::I8);
    assert_eq!(images[0].height(), 4);
    assert_eq!(images[0].width(), 8);
    assert_eq!(images[0].data().len(), 32);
}

#[test]
fn read_a_container_with_a_wrong_tag() {
    match Tpl::read(container([0x12, 0x35]), TplKind::Gc, marker) {
        Err(TplError::Cause(ParseError::TagMismatch { expected, actual })) => {
            assert_eq!(expected, vec![0x12, 0x34]);
            assert_eq!(actual, vec![0x12, 0x35]);
        }
        _ => panic!("the tag is wrong"),
    }
}

#[test]
fn other_kinds_have_no_grammar() {
    assert!(matches!(Tpl::read(container([0x12, 0x34]), TplKind::Wii, marker), Err(TplError::Custom(_))));
}
