use magellanicus::error::Error;
use magellanicus::renderer::parameters::bitmap::{
    AddBitmapBitmapParameter, AddBitmapParameter, AddBitmapSequenceParameter, BitmapFormat,
    BitmapSprite, BitmapType,
};
use magellanicus::renderer::parameters::Resolution;

fn sub_bitmap(
    format: BitmapFormat,
    bitmap_type: BitmapType,
    width: u32,
    height: u32,
    mipmap_count: u32,
    length: usize,
) -> AddBitmapBitmapParameter {
    AddBitmapBitmapParameter {
        format,
        bitmap_type,
        resolution: Resolution { width, height },
        mipmap_count,
        data: vec![0u8; length],
    }
}

fn sprite(bitmap: usize) -> BitmapSprite {
    BitmapSprite {
        bitmap,
        top: 0.0f32.to_bits(),
        left: 0.0f32.to_bits(),
        bottom: 1.0f32.to_bits(),
        right: 1.0f32.to_bits(),
    }
}

#[test]
fn block_byte_size_of_every_format() {
    let expected = [
        (BitmapFormat::A8, 1),
        (BitmapFormat::Y8, 1),
        (BitmapFormat::AY8, 1),
        (BitmapFormat::P8, 1),
        (BitmapFormat::A8Y8, 2),
        (BitmapFormat::R5G6B5, 2),
        (BitmapFormat::A1R5G5B5, 2),
        (BitmapFormat::A4R4G4B4, 2),
        (BitmapFormat::X8R8G8B8, 4),
        (BitmapFormat::A8R8G8B8, 4),
        (BitmapFormat::DXT1, 8),
        (BitmapFormat::DXT3, 16),
        (BitmapFormat::DXT5, 16),
        (BitmapFormat::BC7, 16),
    ];
    for (format, size) in expected {
        assert_eq!(format.block_byte_size(), size);
    }
}

#[test]
fn block_pixel_length_is_four_for_compressed_formats() {
    assert_eq!(BitmapFormat::DXT1.block_pixel_length(), 4);
    assert_eq!(BitmapFormat::DXT3.block_pixel_length(), 4);
    assert_eq!(BitmapFormat::DXT5.block_pixel_length(), 4);
    assert_eq!(BitmapFormat::BC7.block_pixel_length(), 4);
    assert_eq!(BitmapFormat::A8.block_pixel_length(), 1);
    assert_eq!(BitmapFormat::A8R8G8B8.block_pixel_length(), 1);
}

#[test]
fn a8_two_by_two_with_one_level_takes_four_bytes() {
    let bitmap = AddBitmapBitmapParameter {
        format: BitmapFormat::A8,
        bitmap_type: BitmapType::Dim2D,
        resolution: Resolution { width: 2, height: 2 },
        mipmap_count: 1,
        data: vec![0x00, 0x55, 0xAA, 0xFF],
    };
    assert_eq!(bitmap.validate(), Ok(()));
}

#[test]
fn a8_two_by_two_with_two_levels_takes_five_bytes() {
    let four = sub_bitmap(BitmapFormat::A8, BitmapType::Dim2D, 2, 2, 2, 4);
    assert_eq!(four.validate(), Err(Error::InvalidData));
    let five = sub_bitmap(BitmapFormat::A8, BitmapType::Dim2D, 2, 2, 2, 5);
    assert_eq!(five.validate(), Ok(()));
}

#[test]
fn levels_below_one_pixel_stay_at_one_pixel() {
    // 2x2, 1x1, 1x1, 1x1
    let bitmap = sub_bitmap(BitmapFormat::A8R8G8B8, BitmapType::Dim2D, 2, 2, 4, (4 + 1 + 1 + 1) * 4);
    assert_eq!(bitmap.validate(), Ok(()));
}

#[test]
fn dxt1_eight_by_eight_with_four_levels_takes_seven_blocks() {
    // 8x8 -> 2x2 blocks, 4x4 -> 1 block, 2x2 -> 1 block, 1x1 -> 1 block
    let bitmap = sub_bitmap(BitmapFormat::DXT1, BitmapType::Dim2D, 8, 8, 4, 7 * 8);
    assert_eq!(bitmap.validate(), Ok(()));
    let short = sub_bitmap(BitmapFormat::DXT1, BitmapType::Dim2D, 8, 8, 4, 7 * 8 - 1);
    assert_eq!(short.validate(), Err(Error::InvalidData));
    let long = sub_bitmap(BitmapFormat::DXT1, BitmapType::Dim2D, 8, 8, 4, 7 * 8 + 1);
    assert_eq!(long.validate(), Err(Error::InvalidData));
}

#[test]
fn dxt5_rounds_blocks_up() {
    // 10x6 pixels -> 3x2 blocks of 16 bytes
    let bitmap = sub_bitmap(BitmapFormat::DXT5, BitmapType::Dim2D, 10, 6, 1, 6 * 16);
    assert_eq!(bitmap.validate(), Ok(()));
}

#[test]
fn cubemap_has_six_faces_in_every_level() {
    // 4x4 and 2x2, six faces each, two bytes a pixel
    let bitmap = sub_bitmap(BitmapFormat::R5G6B5, BitmapType::Cubemap, 4, 4, 2, (16 + 4) * 6 * 2);
    assert_eq!(bitmap.validate(), Ok(()));
    let one_face = sub_bitmap(BitmapFormat::R5G6B5, BitmapType::Cubemap, 4, 4, 2, (16 + 4) * 2);
    assert_eq!(one_face.validate(), Err(Error::InvalidData));
}

#[test]
fn volume_halves_its_depth_with_every_level() {
    // 4x4x4, 2x2x2, 1x1x1
    let bitmap = sub_bitmap(
        BitmapFormat::Y8,
        BitmapType::Dim3D { depth: 4 },
        4,
        4,
        3,
        64 + 8 + 1,
    );
    assert_eq!(bitmap.validate(), Ok(()));
}

#[test]
fn no_levels_take_no_bytes() {
    let empty = sub_bitmap(BitmapFormat::A8, BitmapType::Dim2D, 2, 2, 0, 0);
    assert_eq!(empty.validate(), Ok(()));
    let some = sub_bitmap(BitmapFormat::A8, BitmapType::Dim2D, 2, 2, 0, 4);
    assert_eq!(some.validate(), Err(Error::InvalidData));
}

#[test]
fn the_largest_mip_count_is_rejected_at_once_for_short_data() {
    let bitmap = sub_bitmap(BitmapFormat::A8, BitmapType::Dim2D, 2, 2, u32::MAX, 16);
    assert_eq!(bitmap.validate(), Err(Error::InvalidData));
}

#[test]
fn the_largest_extents_do_not_overflow() {
    let bitmap = sub_bitmap(
        BitmapFormat::BC7,
        BitmapType::Dim3D { depth: u32::MAX },
        u32::MAX,
        u32::MAX,
        32,
        64,
    );
    assert_eq!(bitmap.validate(), Err(Error::InvalidData));
}

#[test]
fn group_without_sub_bitmaps_is_invalid() {
    let group = AddBitmapParameter { bitmaps: vec![], sequences: vec![] };
    assert_eq!(group.validate(), Err(Error::InvalidData));
}

#[test]
fn group_with_one_bad_sub_bitmap_is_invalid() {
    let group = AddBitmapParameter {
        bitmaps: vec![
            sub_bitmap(BitmapFormat::A8, BitmapType::Dim2D, 2, 2, 1, 4),
            sub_bitmap(BitmapFormat::A8, BitmapType::Dim2D, 2, 2, 1, 3),
        ],
        sequences: vec![],
    };
    assert_eq!(group.validate(), Err(Error::InvalidData));
}

#[test]
fn sequence_of_frames_must_stay_within_the_group() {
    let bitmaps = vec![
        sub_bitmap(BitmapFormat::A8, BitmapType::Dim2D, 1, 1, 1, 1),
        sub_bitmap(BitmapFormat::A8, BitmapType::Dim2D, 1, 1, 1, 1),
    ];
    let inside = AddBitmapParameter {
        bitmaps: bitmaps.clone(),
        sequences: vec![AddBitmapSequenceParameter::Bitmap { first: 0, count: 2 }],
    };
    assert_eq!(inside.validate(), Ok(()));
    let outside = AddBitmapParameter {
        bitmaps: bitmaps.clone(),
        sequences: vec![AddBitmapSequenceParameter::Bitmap { first: 1, count: 2 }],
    };
    assert_eq!(outside.validate(), Err(Error::InvalidData));
    let far = AddBitmapParameter {
        bitmaps,
        sequences: vec![AddBitmapSequenceParameter::Bitmap { first: usize::MAX, count: 2 }],
    };
    assert_eq!(far.validate(), Err(Error::InvalidData));
}

#[test]
fn sequence_of_no_frames_refers_to_nothing() {
    let sequence = AddBitmapSequenceParameter::Bitmap { first: 7, count: 0 };
    assert_eq!(sequence.validate(2), Ok(()));
}

#[test]
fn sprites_must_lie_in_sub_bitmaps_of_the_group() {
    let good = AddBitmapSequenceParameter::Sprites { sprites: vec![sprite(0), sprite(1)] };
    assert_eq!(good.validate(2), Ok(()));
    let bad = AddBitmapSequenceParameter::Sprites { sprites: vec![sprite(0), sprite(2)] };
    assert_eq!(bad.validate(2), Err(Error::InvalidData));
    let none = AddBitmapSequenceParameter::Sprites { sprites: vec![] };
    assert_eq!(none.validate(0), Ok(()));
}

#[test]
fn mip_levels_lie_one_after_the_other() {
    // 8x8 -> 4 blocks, 4x4 -> 1, 2x2 -> 1, 1x1 -> 1, eight bytes a block
    let bitmap = sub_bitmap(BitmapFormat::DXT1, BitmapType::Dim2D, 8, 8, 4, 7 * 8);
    assert_eq!(bitmap.mip_range(0), Some((0, 32)));
    assert_eq!(bitmap.mip_range(1), Some((32, 8)));
    assert_eq!(bitmap.mip_range(2), Some((40, 8)));
    assert_eq!(bitmap.mip_range(3), Some((48, 8)));
    assert_eq!(bitmap.mip_range(4), None);
    assert_eq!(bitmap.mip_range(u32::MAX), None);
}

#[test]
fn mip_levels_of_a_cubemap_hold_all_six_faces() {
    let bitmap = sub_bitmap(BitmapFormat::A8R8G8B8, BitmapType::Cubemap, 2, 2, 2, (4 + 1) * 6 * 4);
    assert_eq!(bitmap.mip_range(0), Some((0, 96)));
    assert_eq!(bitmap.mip_range(1), Some((96, 24)));
    assert_eq!(bitmap.mip_range(2), None);
}

#[test]
fn level_bytes_add_up_while_they_fit() {
    let bitmap = sub_bitmap(BitmapFormat::A8Y8, BitmapType::Dim2D, 4, 2, 3, (8 + 2 + 1) * 2);
    assert_eq!(bitmap.level_bytes(0), Some(0));
    assert_eq!(bitmap.level_bytes(1), Some(16));
    assert_eq!(bitmap.level_bytes(2), Some(20));
    assert_eq!(bitmap.level_bytes(3), Some(22));
    assert_eq!(bitmap.level_bytes(4), None);
    assert_eq!(bitmap.level_bytes(u64::MAX), None);
}

#[test]
fn level_extents_halve_down_to_one() {
    let bitmap = sub_bitmap(BitmapFormat::A8, BitmapType::Dim3D { depth: 2 }, 5, 16, 1, 5 * 16 * 2);
    assert_eq!(bitmap.level_extent(0), [5, 16, 2]);
    assert_eq!(bitmap.level_extent(1), [2, 8, 1]);
    assert_eq!(bitmap.level_extent(2), [1, 4, 1]);
    assert_eq!(bitmap.level_extent(4), [1, 1, 1]);
    assert_eq!(bitmap.level_extent(u32::MAX), [1, 1, 1]);
    let flat = sub_bitmap(BitmapFormat::A8, BitmapType::Cubemap, 0, 7, 1, 42);
    assert_eq!(flat.level_extent(0), [1, 7, 1]);
    assert_eq!(flat.level_extent(1), [1, 3, 1]);
}
