use gabe_core::vram::{GrayShades, LCDMode, PaletteData, Stat};

#[test]
fn stat_read_write() {
    let mut stat = Stat::power_on();
    stat.write_byte(0xFF41, 0b0110_0101);
    assert_eq!(true, stat.lyc_ly_interrupt);
    assert_eq!(true, stat.oam_interrupt);
    assert_eq!(false, stat.vblank_interrupt);
    assert_eq!(false, stat.hblank_interrupt);
    assert_eq!(true, stat.lyc_ly_flag);
    // Mode bits are never taken from a write: the controller still reports
    // the OAM scan it powered on in.
    assert_eq!(LCDMode::Mode2, stat.mode_flag);
    stat = Stat {
        lyc_ly_interrupt: false,
        oam_interrupt: true,
        vblank_interrupt: false,
        hblank_interrupt: true,
        lyc_ly_flag: true,
        mode_flag: LCDMode::Mode2,
    };
    let v = stat.read_byte(0xFF41);
    // The unwired bit 7 reads one.
    assert_eq!(0b1010_1110, v);
}

#[test]
fn palette_read_write() {
    let mut p = PaletteData::init();
    p.write_byte(0xFF47, 0b1101_1000);
    assert_eq!(GrayShades::White, p.color0);
    assert_eq!(GrayShades::DarkGray, p.color1);
    assert_eq!(GrayShades::LightGray, p.color2);
    assert_eq!(GrayShades::Black, p.color3);
    assert_eq!(0b1101_1000, p.read_byte(0xFF47));
}
