use dmg_core::gpu::GPU;
use dmg_core::gpu::TilePixelValue;
use dmg_core::ppu::PPU;

#[test]
fn gpu_stores_and_returns_bytes() {
    let mut gpu = GPU::new();
    assert_eq!(gpu.read_vram(0x123), 0);
    gpu.write_vram(0x123, 0xAB);
    assert_eq!(gpu.read_vram(0x123), 0xAB);
    gpu.write_vram(0x1FFF, 0x01);
    assert_eq!(gpu.read_vram(0x1FFF), 0x01);
}

#[test]
fn ppu_starts_blank() {
    let ppu = PPU::new();
    assert_eq!(ppu.read_vram(0), 0);
    assert_eq!(ppu.tile_set.len(), 384);
    assert_eq!(ppu.tile_set[0][0][0], TilePixelValue::Zero);
    ppu.tick();
}

#[test]
fn ppu_rebuilds_a_tile_row_from_its_bytes() {
    let mut ppu = PPU::new();
    // Low bit of pixel 0 and high bit of pixel 1 set.
    ppu.vram[0] = 0b1000_0000;
    ppu.vram[1] = 0b0100_0000;
    ppu.write_vram(0, 0xFF);
    assert_eq!(ppu.tile_set[0][0][0], TilePixelValue::One);
    assert_eq!(ppu.tile_set[0][0][1], TilePixelValue::Two);
    assert_eq!(ppu.tile_set[0][0][2], TilePixelValue::Zero);
}

#[test]
fn ppu_ignores_offsets_past_the_tile_data() {
    let mut ppu = PPU::new();
    ppu.write_vram(0x1900, 0xFF);
    assert_eq!(ppu.tile_set[383][7][7], TilePixelValue::Zero);
}
