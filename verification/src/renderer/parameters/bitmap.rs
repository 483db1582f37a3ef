//! What a caller hands over to add a bitmap, and when it is acceptable.

use vstd::prelude::*;
use crate::error::{Error, MResult};
use crate::renderer::parameters::Resolution;
use crate::types::FloatBits;

verus! {

/// How the pixels of a sub-bitmap are encoded.
#[derive(Copy, Clone, Debug, PartialEq, Eq)]
pub enum BitmapFormat {
    A8,
    Y8,
    AY8,
    A8Y8,
    R5G6B5,
    A1R5G5B5,
    A4R4G4B4,
    X8R8G8B8,
    A8R8G8B8,
    DXT1,
    DXT3,
    DXT5,
    P8,
    BC7,
}

impl BitmapFormat {
    /// The bytes that one block of this format takes.
    pub open spec fn spec_block_byte_size(self) -> nat {
        match self {
            BitmapFormat::A8 | BitmapFormat::Y8 | BitmapFormat::AY8 | BitmapFormat::P8 => 1,
            BitmapFormat::A8Y8
            | BitmapFormat::R5G6B5
            | BitmapFormat::A1R5G5B5
            | BitmapFormat::A4R4G4B4 => 2,
            BitmapFormat::X8R8G8B8 | BitmapFormat::A8R8G8B8 => 4,
            BitmapFormat::DXT1 => 8,
            BitmapFormat::DXT3 | BitmapFormat::DXT5 | BitmapFormat::BC7 => 16,
        }
    }

    /// The side of one block in pixels: 4 for the block-compressed formats,
    /// 1 for those that store single pixels.
    pub open spec fn spec_block_pixel_length(self) -> nat {
        match self {
            BitmapFormat::DXT1 | BitmapFormat::DXT3 | BitmapFormat::DXT5 | BitmapFormat::BC7 => 4,
            _ => 1,
        }
    }

    /// The bytes that one block of this format takes.
    pub fn block_byte_size(self) -> (size: usize)
        ensures
            size == self.spec_block_byte_size(),
    {
        match self {
            BitmapFormat::A8 | BitmapFormat::Y8 | BitmapFormat::AY8 | BitmapFormat::P8 => 1,
            BitmapFormat::A8Y8
            | BitmapFormat::R5G6B5
            | BitmapFormat::A1R5G5B5
            | BitmapFormat::A4R4G4B4 => 2,
            BitmapFormat::X8R8G8B8 | BitmapFormat::A8R8G8B8 => 4,
            BitmapFormat::DXT1 => 8,
            BitmapFormat::DXT3 | BitmapFormat::DXT5 | BitmapFormat::BC7 => 16,
        }
    }

    /// The side of one block in pixels.
    pub fn block_pixel_length(self) -> (length: usize)
        ensures
            length == self.spec_block_pixel_length(),
    {
        match self {
            BitmapFormat::DXT1 | BitmapFormat::DXT3 | BitmapFormat::DXT5 | BitmapFormat::BC7 => 4,
            _ => 1,
        }
    }
}

/// The shape of a sub-bitmap.
#[derive(Copy, Clone, Debug, PartialEq, Eq)]
pub enum BitmapType {
    /// A flat texture.
    Dim2D,
    /// A volume of `depth` slices.
    Dim3D { depth: u32 },
    /// Six square faces.
    Cubemap,
}

/// One sprite: a rectangle of one sub-bitmap.
#[derive(Copy, Clone, Debug, PartialEq, Eq)]
pub struct BitmapSprite {
    /// The sub-bitmap that holds the sprite.
    pub bitmap: usize,
    pub top: FloatBits,
    pub left: FloatBits,
    pub bottom: FloatBits,
    pub right: FloatBits,
}

/// A grouping of sub-bitmaps: a run of frames, or a sheet of sprites.
#[derive(Clone, Debug, PartialEq, Eq)]
pub enum AddBitmapSequenceParameter {
    /// `count` sub-bitmaps in a row, the first at index `first`.
    Bitmap { first: usize, count: usize },
    /// Sprites, each in a sub-bitmap of its own choice.
    Sprites { sprites: Vec<BitmapSprite> },
}

/// One sub-bitmap with its encoded pixels.
#[derive(Clone, Debug, PartialEq, Eq)]
pub struct AddBitmapBitmapParameter {
    pub format: BitmapFormat,
    pub bitmap_type: BitmapType,
    pub resolution: Resolution,
    /// How many mip levels `data` holds, the full-size level included.
    pub mipmap_count: u32,
    /// All levels from the largest down, with nothing between them.
    pub data: Vec<u8>,
}

/// A bitmap group: its sub-bitmaps and the sequences over them.
#[derive(Clone, Debug, PartialEq, Eq)]
pub struct AddBitmapParameter {
    pub bitmaps: Vec<AddBitmapBitmapParameter>,
    pub sequences: Vec<AddBitmapSequenceParameter>,
}

/// The extent of mip level `level` along an axis whose full extent is `base`:
/// each level halves the one before and none goes below one.
pub open spec fn mip_extent(base: nat, level: nat) -> nat
    decreases level,
{
    if level == 0 {
        if base == 0 {
            1
        } else {
            base
        }
    } else {
        let above = mip_extent(base, (level - 1) as nat);
        if above / 2 == 0 {
            1
        } else {
            above / 2
        }
    }
}

/// How many blocks of side `block` cover `extent` pixels.
pub open spec fn blocks_along(extent: nat, block: nat) -> nat {
    if block == 4 {
        (extent + 3) / 4
    } else {
        extent
    }
}

/// The layers of mip level `level`: the slices of a volume, the six faces of
/// a cubemap, one for a flat texture.
pub open spec fn mip_layers(bitmap_type: BitmapType, level: nat) -> nat {
    match bitmap_type {
        BitmapType::Dim2D => 1,
        BitmapType::Dim3D { depth } => mip_extent(depth as nat, level),
        BitmapType::Cubemap => 6,
    }
}

/// The blocks of mip level `level` of a sub-bitmap.
pub open spec fn mip_block_count(
    format: BitmapFormat,
    bitmap_type: BitmapType,
    resolution: Resolution,
    level: nat,
) -> nat {
    blocks_along(mip_extent(resolution.width as nat, level), format.spec_block_pixel_length())
        * blocks_along(
        mip_extent(resolution.height as nat, level),
        format.spec_block_pixel_length(),
    ) * mip_layers(bitmap_type, level)
}

/// The blocks of the first `levels` mip levels together.
pub open spec fn total_block_count(
    format: BitmapFormat,
    bitmap_type: BitmapType,
    resolution: Resolution,
    levels: nat,
) -> nat
    decreases levels,
{
    if levels == 0 {
        0
    } else {
        total_block_count(format, bitmap_type, resolution, (levels - 1) as nat) + mip_block_count(
            format,
            bitmap_type,
            resolution,
            (levels - 1) as nat,
        )
    }
}

/// Every mip level has at least one block, and no more than its extents allow.
pub proof fn lemma_mip_block_count_bounds(
    format: BitmapFormat,
    bitmap_type: BitmapType,
    resolution: Resolution,
    level: nat,
)
    ensures
        1 <= mip_block_count(format, bitmap_type, resolution, level),
        mip_block_count(format, bitmap_type, resolution, level) <= 0x1_0000_0000 * 0x1_0000_0000
            * 0x1_0000_0000,
{
    let w = mip_extent(resolution.width as nat, level);
    let h = mip_extent(resolution.height as nat, level);
    lemma_mip_extent_bounds(resolution.width as nat, level);
    lemma_mip_extent_bounds(resolution.height as nat, level);
    let block = format.spec_block_pixel_length();
    let bw = blocks_along(w, block);
    let bh = blocks_along(h, block);
    let layers = mip_layers(bitmap_type, level);
    match bitmap_type {
        BitmapType::Dim3D { depth } => {
            lemma_mip_extent_bounds(depth as nat, level);
        },
        _ => {},
    }
    assert(1 <= bw <= 0x1_0000_0000 && 1 <= bh <= 0x1_0000_0000 && 1 <= layers <= 0x1_0000_0000);
    assert(1 <= bw * bh * layers <= 0x1_0000_0000 * 0x1_0000_0000 * 0x1_0000_0000)
        by (nonlinear_arith)
        requires
            1 <= bw <= 0x1_0000_0000,
            1 <= bh <= 0x1_0000_0000,
            1 <= layers <= 0x1_0000_0000,
    ;
}

/// A mip extent is at least one and never above the full extent (or one).
pub proof fn lemma_mip_extent_bounds(base: nat, level: nat)
    ensures
        1 <= mip_extent(base, level),
        mip_extent(base, level) <= if base == 0 {
            1
        } else {
            base
        },
    decreases level,
{
    if level > 0 {
        lemma_mip_extent_bounds(base, (level - 1) as nat);
    }
}

/// An extent that has come down to one pixel stays there.
pub proof fn lemma_mip_extent_stays_one(base: nat, level: nat, later: nat)
    requires
        level <= later,
        mip_extent(base, level) == 1,
    ensures
        mip_extent(base, later) == 1,
    decreases later,
{
    if level < later {
        lemma_mip_extent_stays_one(base, level, (later - 1) as nat);
    }
}

/// More levels never hold fewer blocks.
pub proof fn lemma_total_block_count_monotonic(
    format: BitmapFormat,
    bitmap_type: BitmapType,
    resolution: Resolution,
    fewer: nat,
    more: nat,
)
    requires
        fewer <= more,
    ensures
        total_block_count(format, bitmap_type, resolution, fewer) <= total_block_count(
            format,
            bitmap_type,
            resolution,
            more,
        ),
    decreases more,
{
    if fewer < more {
        lemma_total_block_count_monotonic(
            format,
            bitmap_type,
            resolution,
            fewer,
            (more - 1) as nat,
        );
    }
}

impl AddBitmapBitmapParameter {
    /// The number of bytes that the encoded pixels must have: the blocks of
    /// all mip levels together, times the bytes of one block.
    pub open spec fn expected_data_length(&self) -> nat {
        total_block_count(
            self.format,
            self.bitmap_type,
            self.resolution,
            self.mipmap_count as nat,
        ) * self.format.spec_block_byte_size()
    }

    /// The pixel data is exactly as long as its format, shape, resolution and
    /// mip count call for.
    pub open spec fn valid(&self) -> bool {
        self.data@.len() == self.expected_data_length()
    }

    /// The bytes that the first `levels` mip levels take together.
    pub open spec fn spec_level_bytes(&self, levels: nat) -> nat {
        total_block_count(self.format, self.bitmap_type, self.resolution, levels)
            * self.format.spec_block_byte_size()
    }

    /// The bytes that the first `levels` mip levels take together, where
    /// the pixel data is long enough to hold them; `None` where it is not.
    pub fn level_bytes(&self, levels: u64) -> (bytes: Option<usize>)
        ensures
            match bytes {
                Some(length) => length == self.spec_level_bytes(levels as nat) && length
                    <= self.data@.len(),
                None => self.spec_level_bytes(levels as nat) > self.data@.len(),
            },
    {
        let block: u32 = if self.format.block_pixel_length() == 4 {
            4
        } else {
            1
        };
        let block_bytes: u128 = self.format.block_byte_size() as u128;
        let length: u128 = self.data.len() as u128;
        let cube = match self.bitmap_type {
            BitmapType::Cubemap => true,
            _ => false,
        };
        let mut width: u32 = if self.resolution.width == 0 {
            1
        } else {
            self.resolution.width
        };
        let mut height: u32 = if self.resolution.height == 0 {
            1
        } else {
            self.resolution.height
        };
        let mut depth: u32 = match self.bitmap_type {
            BitmapType::Dim3D { depth } => if depth == 0 {
                1
            } else {
                depth
            },
            _ => 1,
        };
        let mut blocks: u128 = 0;
        let mut level: u64 = 0;
        while level < levels
            invariant
                level <= levels,
                block as nat == self.format.spec_block_pixel_length(),
                block_bytes as nat == self.format.spec_block_byte_size(),
                length == self.data@.len(),
                length <= 0xffff_ffff_ffff_ffff,
                cube <==> self.bitmap_type is Cubemap,
                width as nat == mip_extent(self.resolution.width as nat, level as nat),
                height as nat == mip_extent(self.resolution.height as nat, level as nat),
                self.bitmap_type matches BitmapType::Dim3D { depth: full } ==> depth as nat
                    == mip_extent(full as nat, level as nat),
                !(self.bitmap_type is Dim3D) ==> depth == 1,
                blocks as nat == total_block_count(
                    self.format,
                    self.bitmap_type,
                    self.resolution,
                    level as nat,
                ),
                blocks * block_bytes <= length,
            decreases levels - level,
        {
            let across: u128 = if block == 4 {
                ((width as u128) + 3) / 4
            } else {
                width as u128
            };
            let down: u128 = if block == 4 {
                ((height as u128) + 3) / 4
            } else {
                height as u128
            };
            let layers: u128 = if cube {
                6
            } else {
                depth as u128
            };
            proof {
                lemma_mip_block_count_bounds(
                    self.format,
                    self.bitmap_type,
                    self.resolution,
                    level as nat,
                );
                assert(across * down <= 0x1_0000_0000 * 0x1_0000_0000) by (nonlinear_arith)
                    requires
                        across <= 0x1_0000_0000,
                        down <= 0x1_0000_0000,
                ;
            }
            let in_level: u128 = across * down * layers;
            assert(in_level as nat == mip_block_count(
                self.format,
                self.bitmap_type,
                self.resolution,
                level as nat,
            ));
            assert(blocks <= length) by (nonlinear_arith)
                requires
                    blocks * block_bytes <= length,
                    block_bytes >= 1,
            ;
            blocks = blocks + in_level;
            assert(blocks * block_bytes <= 0x1_0000_0000_0000_0000_0000_0000_0000 * 16)
                by (nonlinear_arith)
                requires
                    blocks <= 0x1_0000_0000_0000_0000_0000_0000_0000,
                    block_bytes <= 16,
            ;
            if blocks * block_bytes > length {
                proof {
                    lemma_total_block_count_monotonic(
                        self.format,
                        self.bitmap_type,
                        self.resolution,
                        (level + 1) as nat,
                        levels as nat,
                    );
                    let all = total_block_count(
                        self.format,
                        self.bitmap_type,
                        self.resolution,
                        levels as nat,
                    );
                    assert(all * block_bytes >= blocks * block_bytes) by (nonlinear_arith)
                        requires
                            all >= blocks,
                    ;
                }
                return None;
            }
            width = if width / 2 == 0 {
                1
            } else {
                width / 2
            };
            height = if height / 2 == 0 {
                1
            } else {
                height / 2
            };
            depth = if depth / 2 == 0 {
                1
            } else {
                depth / 2
            };
            level = level + 1;
        }
        Some((blocks * block_bytes) as usize)
    }

    /// Accepts the sub-bitmap exactly when it is [`valid`](Self::valid).
    pub fn validate(&self) -> (result: MResult<()>)
        ensures
            result is Ok <==> self.valid(),
            result is Err ==> result == Err::<(), Error>(Error::InvalidData),
    {
        match self.level_bytes(self.mipmap_count as u64) {
            Some(length) => if length == self.data.len() {
                Ok(())
            } else {
                Err(Error::InvalidData)
            },
            None => Err(Error::InvalidData),
        }
    }

    /// The width, height and depth of mip level `level` in pixels; the
    /// depth is one but for a volume.
    pub open spec fn spec_level_extent(&self, level: nat) -> [u32; 3] {
        [
            mip_extent(self.resolution.width as nat, level) as u32,
            mip_extent(self.resolution.height as nat, level) as u32,
            match self.bitmap_type {
                BitmapType::Dim3D { depth } => mip_extent(depth as nat, level) as u32,
                _ => 1u32,
            },
        ]
    }

    /// The width, height and depth of mip level `level` in pixels.
    pub fn level_extent(&self, level: u32) -> (extent: [u32; 3])
        ensures
            extent == self.spec_level_extent(level as nat),
    {
        let mut width: u32 = if self.resolution.width == 0 {
            1
        } else {
            self.resolution.width
        };
        let mut height: u32 = if self.resolution.height == 0 {
            1
        } else {
            self.resolution.height
        };
        let full_depth: u32 = match self.bitmap_type {
            BitmapType::Dim3D { depth } => depth,
            _ => 1,
        };
        let mut depth: u32 = if full_depth == 0 {
            1
        } else {
            full_depth
        };
        let mut at: u32 = 0;
        while at < level && (width > 1 || height > 1 || depth > 1)
            invariant
                at <= level,
                width as nat == mip_extent(self.resolution.width as nat, at as nat),
                height as nat == mip_extent(self.resolution.height as nat, at as nat),
                depth as nat == mip_extent(full_depth as nat, at as nat),
            decreases level - at,
        {
            width = if width / 2 == 0 {
                1
            } else {
                width / 2
            };
            height = if height / 2 == 0 {
                1
            } else {
                height / 2
            };
            depth = if depth / 2 == 0 {
                1
            } else {
                depth / 2
            };
            at = at + 1;
        }
        proof {
            if at < level {
                lemma_mip_extent_stays_one(self.resolution.width as nat, at as nat, level as nat);
                lemma_mip_extent_stays_one(self.resolution.height as nat, at as nat, level as nat);
                lemma_mip_extent_stays_one(full_depth as nat, at as nat, level as nat);
            }
            lemma_mip_extent_bounds(self.resolution.width as nat, level as nat);
            lemma_mip_extent_bounds(self.resolution.height as nat, level as nat);
            lemma_mip_extent_bounds(full_depth as nat, level as nat);
            assert(mip_extent(1, level as nat) == 1) by {
                lemma_mip_extent_bounds(1, level as nat);
            }
        }
        [
            width,
            height,
            match self.bitmap_type {
                BitmapType::Dim3D { .. } => depth,
                _ => 1,
            },
        ]
    }

    /// Where mip level `level` starts in the pixel data: after all the
    /// levels before it, with nothing in between.
    pub open spec fn spec_mip_offset(&self, level: nat) -> nat {
        self.spec_level_bytes(level)
    }

    /// The bytes that mip level `level` takes.
    pub open spec fn spec_mip_length(&self, level: nat) -> nat {
        mip_block_count(self.format, self.bitmap_type, self.resolution, level)
            * self.format.spec_block_byte_size()
    }

    /// Where mip level `level` lies in the pixel data, as its offset and
    /// its length in bytes; `None` where the pixel data ends before the
    /// level does.
    pub fn mip_range(&self, level: u32) -> (range: Option<(usize, usize)>)
        ensures
            match range {
                Some((offset, length)) => {
                    &&& offset == self.spec_mip_offset(level as nat)
                    &&& length == self.spec_mip_length(level as nat)
                    &&& offset + length <= self.data@.len()
                },
                None => self.spec_mip_offset(level as nat) + self.spec_mip_length(level as nat)
                    > self.data@.len(),
            },
    {
        proof {
            self.lemma_levels_follow_each_other(level as nat);
        }
        match self.level_bytes(level as u64 + 1) {
            Some(end) => match self.level_bytes(level as u64) {
                Some(start) => Some((start, end - start)),
                None => None,
            },
            None => None,
        }
    }

    /// One more level takes the bytes of the levels before it and its own.
    pub proof fn lemma_levels_follow_each_other(&self, level: nat)
        ensures
            self.spec_level_bytes(level + 1) == self.spec_mip_offset(level) + self.spec_mip_length(
                level,
            ),
    {
        let before = total_block_count(self.format, self.bitmap_type, self.resolution, level);
        let own = mip_block_count(self.format, self.bitmap_type, self.resolution, level);
        let size = self.format.spec_block_byte_size();
        assert(total_block_count(self.format, self.bitmap_type, self.resolution, level + 1)
            == before + own);
        assert((before + own) * size == before * size + own * size) by (nonlinear_arith);
    }

    /// Every mip level of a valid sub-bitmap lies within its pixel data.
    pub proof fn lemma_levels_lie_within(&self, level: nat)
        requires
            self.valid(),
            level < self.mipmap_count,
        ensures
            self.spec_mip_offset(level) + self.spec_mip_length(level) <= self.data@.len(),
    {
        self.lemma_levels_follow_each_other(level);
        lemma_total_block_count_monotonic(
            self.format,
            self.bitmap_type,
            self.resolution,
            level + 1,
            self.mipmap_count as nat,
        );
        let upto = total_block_count(self.format, self.bitmap_type, self.resolution, level + 1);
        let all = total_block_count(
            self.format,
            self.bitmap_type,
            self.resolution,
            self.mipmap_count as nat,
        );
        let size = self.format.spec_block_byte_size();
        assert(upto * size <= all * size) by (nonlinear_arith)
            requires
                upto <= all,
        ;
    }
}

impl AddBitmapSequenceParameter {
    /// Every sub-bitmap that the sequence refers to is one of the
    /// `bitmap_count` sub-bitmaps of its group. A run of no frames refers to
    /// none, wherever it starts.
    pub open spec fn valid(&self, bitmap_count: nat) -> bool {
        match *self {
            AddBitmapSequenceParameter::Bitmap { first, count } => count == 0 || first + count
                <= bitmap_count,
            AddBitmapSequenceParameter::Sprites { sprites } => forall|i: int|
                0 <= i < sprites@.len() ==> (#[trigger] sprites@[i]).bitmap < bitmap_count,
        }
    }

    /// Accepts the sequence exactly when it is [`valid`](Self::valid).
    pub fn validate(&self, bitmap_count: usize) -> (result: MResult<()>)
        ensures
            result is Ok <==> self.valid(bitmap_count as nat),
            result is Err ==> result == Err::<(), Error>(Error::InvalidData),
    {
        match self {
            AddBitmapSequenceParameter::Bitmap { first, count } => {
                if *count == 0 {
                    Ok(())
                } else if *first < bitmap_count && *count <= bitmap_count - *first {
                    Ok(())
                } else {
                    Err(Error::InvalidData)
                }
            },
            AddBitmapSequenceParameter::Sprites { sprites } => {
                let mut i: usize = 0;
                while i < sprites.len()
                    invariant
                        i <= sprites@.len(),
                        self matches AddBitmapSequenceParameter::Sprites { sprites: all } && all
                            == sprites,
                        forall|j: int| 0 <= j < i ==> (#[trigger] sprites@[j]).bitmap < bitmap_count,
                    decreases sprites@.len() - i,
                {
                    if sprites[i].bitmap >= bitmap_count {
                        assert(!(sprites@[i as int].bitmap < bitmap_count));
                        return Err(Error::InvalidData);
                    }
                    i = i + 1;
                }
                Ok(())
            },
        }
    }
}

impl AddBitmapParameter {
    /// The group has at least one sub-bitmap, the pixel data of each has the
    /// length that its description calls for, and every sequence stays
    /// within the group.
    pub open spec fn valid(&self) -> bool {
        &&& self.bitmaps@.len() >= 1
        &&& forall|i: int| 0 <= i < self.bitmaps@.len() ==> (#[trigger] self.bitmaps@[i]).valid()
        &&& forall|i: int|
            0 <= i < self.sequences@.len() ==> (#[trigger] self.sequences@[i]).valid(
                self.bitmaps@.len(),
            )
    }

    /// Accepts the group exactly when it is [`valid`](Self::valid).
    pub fn validate(&self) -> (result: MResult<()>)
        ensures
            result is Ok <==> self.valid(),
            result is Err ==> result == Err::<(), Error>(Error::InvalidData),
    {
        if self.bitmaps.len() == 0 {
            return Err(Error::InvalidData);
        }
        let mut i: usize = 0;
        while i < self.bitmaps.len()
            invariant
                i <= self.bitmaps@.len(),
                forall|j: int| 0 <= j < i ==> (#[trigger] self.bitmaps@[j]).valid(),
            decreases self.bitmaps@.len() - i,
        {
            if self.bitmaps[i].validate().is_err() {
                return Err(Error::InvalidData);
            }
            i = i + 1;
        }
        let count = self.bitmaps.len();
        let mut k: usize = 0;
        while k < self.sequences.len()
            invariant
                k <= self.sequences@.len(),
                count == self.bitmaps@.len(),
                forall|j: int|
                    0 <= j < k ==> (#[trigger] self.sequences@[j]).valid(self.bitmaps@.len()),
            decreases self.sequences@.len() - k,
        {
            if self.sequences[k].validate(count).is_err() {
                return Err(Error::InvalidData);
            }
            k = k + 1;
        }
        Ok(())
    }
}

} // verus!
