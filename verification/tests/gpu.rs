use rust_boy::gpu::{
    empty_tile, PixelValue, GPU, TILE_COUNT, TILE_DATA_SIZE, VRAM_END, VRAM_SIZE, VRAM_START,
};

fn row(gpu: &GPU, tile: usize, row: usize) -> Vec<PixelValue> {
    (0..8).map(|column| gpu.pixel(tile, row, column)).collect()
}

#[test]
fn window_constants() {
    assert_eq!(VRAM_START, 0x8000);
    assert_eq!(VRAM_END, 0x9FFF);
    assert_eq!(VRAM_SIZE, 0x2000);
    assert_eq!(TILE_DATA_SIZE, 0x1800);
    assert_eq!(TILE_COUNT, 384);
    assert_eq!(TILE_COUNT * 16, TILE_DATA_SIZE);
}

#[test]
fn empty_tile_is_all_zero() {
    let tile = empty_tile();
    for r in 0..8 {
        for c in 0..8 {
            assert_eq!(tile[r][c], PixelValue::Zero);
        }
    }
}

#[test]
fn new_gpu_is_blank() {
    let gpu = GPU::new();
    for address in 0..VRAM_SIZE {
        assert_eq!(gpu.read_vram(address), 0);
    }
    for tile in 0..TILE_COUNT {
        for r in 0..8 {
            assert_eq!(row(&gpu, tile, r), vec![PixelValue::Zero; 8]);
        }
    }
}

#[test]
fn first_byte_set_gives_a_row_of_ones() {
    let mut gpu = GPU::new();
    gpu.write_vram(0, 0xFF);
    gpu.write_vram(1, 0x00);
    assert_eq!(row(&gpu, 0, 0), vec![PixelValue::One; 8]);
    assert_eq!(gpu.read_vram(0), 0xFF);
    assert_eq!(gpu.read_vram(1), 0x00);
}

#[test]
fn second_byte_set_gives_a_row_of_twos() {
    let mut gpu = GPU::new();
    gpu.write_vram(0, 0x00);
    gpu.write_vram(1, 0xFF);
    assert_eq!(row(&gpu, 0, 0), vec![PixelValue::Two; 8]);
}

#[test]
fn both_bytes_set_give_a_row_of_threes() {
    let mut gpu = GPU::new();
    gpu.write_vram(1, 0xFF);
    gpu.write_vram(0, 0xFF);
    assert_eq!(row(&gpu, 0, 0), vec![PixelValue::Three; 8]);
}

#[test]
fn most_significant_bit_is_the_leftmost_pixel() {
    let mut gpu = GPU::new();
    gpu.write_vram(0, 0b1000_0001);
    gpu.write_vram(1, 0b0100_0001);
    assert_eq!(
        row(&gpu, 0, 0),
        vec![
            PixelValue::One,
            PixelValue::Two,
            PixelValue::Zero,
            PixelValue::Zero,
            PixelValue::Zero,
            PixelValue::Zero,
            PixelValue::Zero,
            PixelValue::Three,
        ]
    );
}

#[test]
fn a_write_touches_one_row_of_one_tile() {
    let mut gpu = GPU::new();
    // tile 2, row 3: bytes 2 * 16 + 3 * 2 and the one after it
    gpu.write_vram(38, 0xF0);
    gpu.write_vram(39, 0x3C);
    for tile in 0..TILE_COUNT {
        for r in 0..8 {
            if tile == 2 && r == 3 {
                assert_eq!(
                    row(&gpu, tile, r),
                    vec![
                        PixelValue::One,
                        PixelValue::One,
                        PixelValue::Three,
                        PixelValue::Three,
                        PixelValue::Two,
                        PixelValue::Two,
                        PixelValue::Zero,
                        PixelValue::Zero,
                    ]
                );
            } else {
                assert_eq!(row(&gpu, tile, r), vec![PixelValue::Zero; 8]);
            }
        }
    }
}

#[test]
fn a_write_to_the_odd_byte_decodes_with_the_even_one() {
    let mut gpu = GPU::new();
    gpu.write_vram(16, 0x0F);
    assert_eq!(row(&gpu, 1, 0)[7], PixelValue::One);
    gpu.write_vram(17, 0x01);
    assert_eq!(row(&gpu, 1, 0)[7], PixelValue::Three);
    assert_eq!(row(&gpu, 1, 0)[6], PixelValue::One);
    assert_eq!(row(&gpu, 1, 0)[0], PixelValue::Zero);
}

#[test]
fn overwriting_a_byte_decodes_again() {
    let mut gpu = GPU::new();
    gpu.write_vram(0, 0xFF);
    gpu.write_vram(0, 0x00);
    assert_eq!(row(&gpu, 0, 0), vec![PixelValue::Zero; 8]);
    assert_eq!(gpu.read_vram(0), 0x00);
}

#[test]
fn last_row_of_the_last_tile() {
    let mut gpu = GPU::new();
    gpu.write_vram(0x17FE, 0xAA);
    gpu.write_vram(0x17FF, 0x55);
    assert_eq!(
        row(&gpu, 383, 7),
        vec![
            PixelValue::One,
            PixelValue::Two,
            PixelValue::One,
            PixelValue::Two,
            PixelValue::One,
            PixelValue::Two,
            PixelValue::One,
            PixelValue::Two,
        ]
    );
    assert_eq!(row(&gpu, 383, 6), vec![PixelValue::Zero; 8]);
}

#[test]
fn a_write_past_the_tile_data_changes_the_buffer_only() {
    let mut gpu = GPU::new();
    gpu.write_vram(0x1800, 0xFF);
    gpu.write_vram(0x1801, 0xFF);
    gpu.write_vram(0x1FFF, 0x7E);
    assert_eq!(gpu.read_vram(0x1800), 0xFF);
    assert_eq!(gpu.read_vram(0x1801), 0xFF);
    assert_eq!(gpu.read_vram(0x1FFF), 0x7E);
    for tile in 0..TILE_COUNT {
        for r in 0..8 {
            assert_eq!(row(&gpu, tile, r), vec![PixelValue::Zero; 8]);
        }
    }
}

#[test]
fn read_returns_the_byte_written() {
    let mut gpu = GPU::new();
    for address in 0..VRAM_SIZE {
        gpu.write_vram(address, (address % 251) as u8);
    }
    for address in 0..VRAM_SIZE {
        assert_eq!(gpu.read_vram(address), (address % 251) as u8);
    }
}

#[test]
fn tiles_follow_the_buffer_after_many_writes() {
    let mut gpu = GPU::new();
    for address in 0..VRAM_SIZE {
        gpu.write_vram(address, (address * 7 % 256) as u8);
    }
    for tile in 0..TILE_COUNT {
        for r in 0..8 {
            let first = gpu.read_vram(tile * 16 + r * 2);
            let second = gpu.read_vram(tile * 16 + r * 2 + 1);
            for column in 0..8 {
                let low = (first >> (7 - column)) & 1;
                let high = (second >> (7 - column)) & 1;
                let expected = match (high << 1) | low {
                    0 => PixelValue::Zero,
                    1 => PixelValue::One,
                    2 => PixelValue::Two,
                    _ => PixelValue::Three,
                };
                assert_eq!(gpu.pixel(tile, r, column), expected);
            }
        }
    }
}
