//! The video memory decoder: the video RAM and the tiles decoded from it.
//!
//! A tile row is two bytes of video RAM, the first at an even address. Each
//! write to the tile data decodes the one row it lands in, so the tiles are
//! at all times a function of the video RAM alone.

use vstd::prelude::*;

verus! {

/// The first address of the video memory window.
pub const VRAM_START: usize = 0x8000;

/// The last address of the video memory window.
pub const VRAM_END: usize = 0x9FFF;

/// The number of bytes of the video memory window.
pub const VRAM_SIZE: usize = VRAM_END - VRAM_START + 1;

/// The number of bytes at the start of the window that hold tile data.
pub const TILE_DATA_SIZE: usize = 0x1800;

/// The number of tiles.
pub const TILE_COUNT: usize = 384;

/// The colour index of one pixel.
#[derive(Clone, Copy, Debug, PartialEq, Eq)]
pub enum PixelValue {
    Zero,
    One,
    Two,
    Three,
}

impl PixelValue {
    /// The pixel as a number from 0 to 3.
    pub open spec fn index(self) -> int {
        match self {
            PixelValue::Zero => 0,
            PixelValue::One => 1,
            PixelValue::Two => 2,
            PixelValue::Three => 3,
        }
    }

    /// The pixel whose number has `high` as bit 1 and `low` as bit 0.
    pub open spec fn from_bits(high: bool, low: bool) -> PixelValue {
        if high {
            if low {
                PixelValue::Three
            } else {
                PixelValue::Two
            }
        } else {
            if low {
                PixelValue::One
            } else {
                PixelValue::Zero
            }
        }
    }
}

/// Eight rows of eight pixels.
pub type Tile = [[PixelValue; 8]; 8];

/// The bit of `byte` that belongs to the pixel in `column`: the most
/// significant bit is column 0, the leftmost pixel.
pub open spec fn pixel_bit(byte: u8, column: int) -> bool {
    byte & (1u8 << ((7 - column) as usize)) != 0
}

/// The pixel that video RAM `vram` holds at `column` of `row` of `tile`. The
/// row's first byte gives bit 0 of each of its pixels, its second byte
/// bit 1.
pub open spec fn decoded_pixel(vram: Seq<u8>, tile: int, row: int, column: int) -> PixelValue {
    PixelValue::from_bits(
        pixel_bit(vram[tile * 16 + row * 2 + 1], column),
        pixel_bit(vram[tile * 16 + row * 2], column),
    )
}

/// The number of a pixel is twice its high bit plus its low bit.
pub proof fn lemma_pixel_index(high: bool, low: bool)
    ensures
        PixelValue::from_bits(high, low).index() == (if high {
            2int
        } else {
            0
        }) + (if low {
            1int
        } else {
            0
        }),
{
}

/// A write to the video RAM changes the pixels of one tile row at most: a
/// row whose two bytes lie elsewhere decodes as before.
pub proof fn lemma_write_keeps_other_rows(
    vram: Seq<u8>,
    address: int,
    value: u8,
    tile: int,
    row: int,
    column: int,
)
    requires
        0 <= address < vram.len(),
        0 <= tile * 16 + row * 2,
        tile * 16 + row * 2 + 1 < vram.len(),
        address != tile * 16 + row * 2,
        address != tile * 16 + row * 2 + 1,
    ensures
        decoded_pixel(vram.update(address, value), tile, row, column) == decoded_pixel(
            vram,
            tile,
            row,
            column,
        ),
{
}

/// No bit of a zero byte is set.
proof fn lemma_zero_byte(shift: usize)
    by (bit_vector)
    ensures
        0u8 & (1u8 << shift) == 0,
{
}

/// Clearing bit 0 of an address below the window's size gives the even
/// address of its pair.
proof fn lemma_aligned(address: usize)
    by (bit_vector)
    requires
        address < 0x2000,
    ensures
        address & 0xFFFE == address - address % 2,
{
}

/// A tile with every pixel at zero.
pub fn empty_tile() -> (tile: Tile)
    ensures
        forall|row: int, column: int|
            0 <= row < 8 && 0 <= column < 8 ==> (#[trigger] tile[row][column])
                == PixelValue::Zero,
{
    [[PixelValue::Zero;8];8]
}

/// The pixel that a tile set holds at `column` of `row` of `tile`.
spec fn cached_pixel(tile_set: [Tile; TILE_COUNT], tile: int, row: int, column: int)
    -> PixelValue {
    tile_set[tile][row][column]
}

/// Whether `tile`, `row` and `column` name a pixel of the tile set.
spec fn is_pixel(tile: int, row: int, column: int) -> bool {
    0 <= tile < TILE_COUNT && 0 <= row < 8 && 0 <= column < 8
}

/// The tile set holds, pixel for pixel, what the video RAM decodes to.
spec fn decodes_to(vram: Seq<u8>, tile_set: [Tile; TILE_COUNT]) -> bool {
    forall|tile: int, row: int, column: int|
        is_pixel(tile, row, column) ==> #[trigger] cached_pixel(tile_set, tile, row, column)
            == decoded_pixel(vram, tile, row, column)
}

/// The video RAM and the tiles decoded from it. The tiles are a cache: at
/// all times they hold what the tile data of the video RAM decodes to, so
/// that the video RAM alone says what a `GPU` is.
pub struct GPU {
    vram: [u8; VRAM_SIZE],
    tile_set: [Tile; TILE_COUNT],
}

impl View for GPU {
    type V = Seq<u8>;

    /// The video RAM.
    closed spec fn view(&self) -> Seq<u8> {
        self.vram@
    }
}

/// Stores `value` at `address` and decodes the tile row that the address
/// lies in, if it lies in the tile data. The video RAM and the tile set
/// change together here, so that the tile set never lags behind.
fn write_cells(
    vram: &mut [u8; VRAM_SIZE],
    tile_set: &mut [Tile; TILE_COUNT],
    address: usize,
    value: u8,
)
    requires
        address < VRAM_SIZE,
        decodes_to(old(vram)@, *old(tile_set)),
    ensures
        final(vram)@ == old(vram)@.update(address as int, value),
        decodes_to(final(vram)@, *final(tile_set)),
    no_unwind
{
    vram[address] = value;

    // Outside of tileset area. Nothing else to do;
    if address >= TILE_DATA_SIZE {
        proof {
            assert forall|tile: int, row: int, column: int|
                is_pixel(tile, row, column) implies #[trigger] cached_pixel(
                *tile_set,
                tile,
                row,
                column,
            ) == decoded_pixel(vram@, tile, row, column) by {
                assert(cached_pixel(*old(tile_set), tile, row, column) == decoded_pixel(
                    old(vram)@,
                    tile,
                    row,
                    column,
                ));
            }
        }
        return ;
    }
    // Tiles are encoded in two bytes, the first is always on an even address

    let aligned_address = address & 0xFFFE;
    proof {
        lemma_aligned(address);
    }

    // Tile row
    let byte_1 = vram[aligned_address];
    let byte_2 = vram[aligned_address + 1];

    let tile_address = address / 16;
    let row_address = (address % 16) / 2;
    assert(aligned_address == tile_address * 16 + row_address * 2);

    let mut pixel_index: usize = 0;
    while pixel_index < 8
        invariant
            pixel_index <= 8,
            tile_address < TILE_COUNT,
            row_address < 8,
            aligned_address == tile_address * 16 + row_address * 2,
            byte_1 == vram@[aligned_address as int],
            byte_2 == vram@[aligned_address + 1],
            // every other row is as it was
            forall|tile: int, row: int, column: int|
                is_pixel(tile, row, column) && !(tile == tile_address && row == row_address)
                    ==> #[trigger] cached_pixel(*tile_set, tile, row, column) == cached_pixel(
                    *old(tile_set),
                    tile,
                    row,
                    column,
                ),
            // the row is decoded up to `pixel_index`
            forall|column: int|
                0 <= column < pixel_index ==> #[trigger] cached_pixel(
                    *tile_set,
                    tile_address as int,
                    row_address as int,
                    column,
                ) == decoded_pixel(vram@, tile_address as int, row_address as int, column),
        decreases 8 - pixel_index,
    {
        let mask = 1u8 << (7 - pixel_index);
        let lo = byte_1 & mask;
        let hi = byte_2 & mask;

        let pixel = match (lo != 0, hi != 0) {
            (true, true) => PixelValue::Three,
            (false, true) => PixelValue::Two,
            (true, false) => PixelValue::One,
            (false, false) => PixelValue::Zero,
        };

        let ghost before = *tile_set;
        tile_set[tile_address][row_address][pixel_index] = pixel;
        proof {
            assert forall|tile: int, row: int, column: int|
                is_pixel(tile, row, column) && !(tile == tile_address && row == row_address
                    && column == pixel_index) implies #[trigger] cached_pixel(
                *tile_set,
                tile,
                row,
                column,
            ) == cached_pixel(before, tile, row, column) by {}
        }
        pixel_index += 1;
    }
    proof {
        assert forall|tile: int, row: int, column: int|
            is_pixel(tile, row, column) implies #[trigger] cached_pixel(
            *tile_set,
            tile,
            row,
            column,
        ) == decoded_pixel(vram@, tile, row, column) by {
            if !(tile == tile_address && row == row_address) {
                assert(cached_pixel(*old(tile_set), tile, row, column) == decoded_pixel(
                    old(vram)@,
                    tile,
                    row,
                    column,
                ));
            }
        }
    }
}

impl GPU {
    /// What holds of every `GPU`: the tile cache is the decoding of the
    /// video RAM.
    #[verifier::type_invariant]
    closed spec fn tiles_decoded(self) -> bool {
        decodes_to(self.vram@, self.tile_set)
    }

    /// The video RAM holds one byte for each address of the window.
    pub proof fn lemma_view_len(self)
        ensures
            self@.len() == VRAM_SIZE,
    {
    }

    /// A decoder with the video RAM at zero, and so with blank tiles.
    pub fn new() -> (gpu: Self)
        ensures
            gpu@ == Seq::new(VRAM_SIZE as nat, |i: int| 0u8),
    {
        let vram = [0u8;VRAM_SIZE];
        let tile_set = [empty_tile();TILE_COUNT];
        proof {
            assert(vram@ =~= Seq::new(VRAM_SIZE as nat, |i: int| 0u8));
            assert forall|tile: int, row: int, column: int|
                is_pixel(tile, row, column) implies #[trigger] cached_pixel(
                tile_set,
                tile,
                row,
                column,
            ) == decoded_pixel(vram@, tile, row, column) by {
                lemma_zero_byte((7 - column) as usize);
            }
        }
        Self { vram, tile_set }
    }

    /// The byte of the video RAM at `address`, counted from the start of
    /// the window.
    pub fn read_vram(&self, address: usize) -> (value: u8)
        requires
            address < VRAM_SIZE,
        ensures
            value == self@[address as int],
    {
        self.vram[address]
    }

    /// The pixel at `column` of `row` of `tile`: what the two bytes of the
    /// row decode to as the video RAM now stands.
    pub fn pixel(&self, tile: usize, row: usize, column: usize) -> (value: PixelValue)
        requires
            tile < TILE_COUNT,
            row < 8,
            column < 8,
        ensures
            value == decoded_pixel(self@, tile as int, row as int, column as int),
    {
        proof {
            use_type_invariant(self);
            assert(is_pixel(tile as int, row as int, column as int));
            assert(cached_pixel(self.tile_set, tile as int, row as int, column as int)
                == decoded_pixel(self@, tile as int, row as int, column as int));
        }
        self.tile_set[tile][row][column]
    }

    /// Stores `value` at `address`, counted from the start of the window. A
    /// write to the tile data decodes the one tile row it lands in; a write
    /// past the tile data changes the video RAM only.
    pub fn write_vram(&mut self, address: usize, value: u8)
        requires
            address < VRAM_SIZE,
        ensures
            final(self)@ == old(self)@.update(address as int, value),
    {
        proof {
            use_type_invariant(&*self);
        }
        write_cells(&mut self.vram, &mut self.tile_set, address, value);
    }
}

} // verus!
