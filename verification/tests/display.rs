use fc::binary::Bit;
use fc::display::canvas::Canvas;
use fc::display::Display;
use fc::ines::sprite::{Sprite, Sprites};
use fc::ppu::memory_map::NAME_LENGTH;
use std::convert::TryInto;

fn pixel(raw: &[u8], width: usize, x: usize, y: usize) -> (u8, u8, u8) {
    let i = 3 * (y * width + x);
    (raw[i], raw[i + 1], raw[i + 2])
}

fn ramp() -> Sprite {
    Sprite(vec![
        Bit(0, 1, 2, 0, 1, 2, 0, 1),
        Bit(1, 1, 1, 1, 1, 1, 1, 1),
        Bit(2, 2, 2, 2, 2, 2, 2, 2),
        Bit(0, 0, 0, 0, 0, 0, 0, 0),
        Bit(2, 0, 0, 0, 0, 0, 0, 0),
        Bit(0, 0, 0, 0, 0, 0, 0, 2),
        Bit(1, 0, 1, 0, 1, 0, 1, 0),
        Bit(0, 2, 0, 2, 0, 2, 0, 2),
    ])
}

#[test]
fn it_draw() {
    let sprite = Sprite::default();
    let mut sprites = vec![];
    for _ in 0..(NAME_LENGTH - 1) {
        sprites.push(&sprite);
    }
    let sprite = Sprite(vec![
        Bit(1, 1, 1, 1, 1, 1, 1, 1),
        Bit(1, 1, 1, 1, 1, 1, 1, 1),
        Bit(1, 1, 1, 1, 1, 1, 1, 1),
        Bit(1, 1, 1, 1, 1, 1, 1, 1),
        Bit(1, 1, 1, 1, 1, 1, 1, 1),
        Bit(1, 1, 1, 1, 1, 1, 1, 1),
        Bit(1, 1, 1, 1, 1, 1, 1, 1),
        Bit(1, 1, 1, 1, 1, 1, 1, 1),
    ]);
    sprites.push(&sprite);
    let canvas = Display::draw(sprites[..].try_into().unwrap());
    assert_eq!(canvas.size(), (256, 240));
    let raw = canvas.into_raw();
    assert_eq!(raw.len(), 3 * 256 * 240);
    for y in 0..240 {
        for x in 0..256 {
            let wanted = if x >= 248 && y >= 232 { (127, 127, 127) } else { (0, 0, 0) };
            assert_eq!(pixel(&raw, 256, x, y), wanted);
        }
    }
}

#[test]
fn a_new_canvas_is_black() {
    let canvas = Canvas::new(5, 3);
    assert_eq!(canvas.size(), (5, 3));
    assert_eq!(canvas.into_raw(), vec![0u8; 45]);
    assert_eq!(Canvas::new(0, 0).into_raw(), Vec::<u8>::new());
}

#[test]
fn setting_a_pixel() {
    let mut canvas = Canvas::new(4, 2);
    assert!(canvas.set(3, 1, (10, 20, 30)));
    assert!(canvas.set(0, 0, (1, 2, 3)));
    assert!(!canvas.set(4, 0, (9, 9, 9)));
    assert!(!canvas.set(0, 2, (9, 9, 9)));
    assert_eq!(canvas.size(), (4, 2));
    let raw = canvas.into_raw();
    assert_eq!(pixel(&raw, 4, 3, 1), (10, 20, 30));
    assert_eq!(pixel(&raw, 4, 0, 0), (1, 2, 3));
    assert_eq!(raw.iter().filter(|v| **v != 0).count(), 6);
}

#[test]
fn stamping_a_pattern() {
    let sprite = ramp();
    let mut canvas = Canvas::new(20, 12);
    sprite.stamp(&mut canvas, 12, 4);
    let raw = canvas.into_raw();
    let Sprite(rows) = &sprite;
    for y in 0..12 {
        for x in 0..20 {
            let wanted = if x >= 12 && y >= 4 {
                let c = 127 * rows[y - 4].get(x - 12);
                (c, c, c)
            } else {
                (0, 0, 0)
            };
            assert_eq!(pixel(&raw, 20, x, y), wanted);
        }
    }
    assert_eq!(pixel(&raw, 20, 14, 4), (254, 254, 254));
}

#[test]
fn a_pattern_alone() {
    let sprite = ramp();
    let canvas = sprite.draw();
    assert_eq!(canvas.size(), (64, 64));
    let raw = canvas.into_raw();
    let Sprite(rows) = &sprite;
    for y in 0..64 {
        for x in 0..64 {
            let wanted = if x < 8 && y < 8 {
                let c = 127 * rows[y].get(x);
                (c, c, c)
            } else {
                (0, 0, 0)
            };
            assert_eq!(pixel(&raw, 64, x, y), wanted);
        }
    }
}

#[test]
fn a_sheet_of_patterns() {
    let mut sheet: Vec<Sprite> = Vec::new();
    for _ in 0..33 {
        sheet.push(Sprite::default());
    }
    sheet.push(ramp());
    let raw = sheet.draw().into_raw();
    let Sprite(rows) = &ramp();
    for y in 0..240 {
        for x in 0..256 {
            let wanted = if (8..16).contains(&x) && (8..16).contains(&y) {
                let c = 127 * rows[y - 8].get(x - 8);
                (c, c, c)
            } else {
                (0, 0, 0)
            };
            assert_eq!(pixel(&raw, 256, x, y), wanted);
        }
    }
    let empty: Vec<Sprite> = Vec::new();
    assert_eq!(empty.draw().into_raw(), vec![0u8; 3 * 256 * 240]);
}

#[test]
fn parsing_a_pattern() {
    let src: &[u8] = &[
        0x66, 0x7f, 0xff, 0xff, 0xff, 0x7e, 0x3c, 0x18, //
        0x66, 0x5f, 0xbf, 0xbf, 0xff, 0x7e, 0x3c, 0x18,
    ];
    let Sprite(rows) = Sprite::parse(src, 0);
    assert_eq!(
        rows,
        vec![
            Bit(0, 2, 2, 0, 0, 2, 2, 0),
            Bit(0, 2, 1, 2, 2, 2, 2, 2),
            Bit(2, 1, 2, 2, 2, 2, 2, 2),
            Bit(2, 1, 2, 2, 2, 2, 2, 2),
            Bit(2, 2, 2, 2, 2, 2, 2, 2),
            Bit(0, 2, 2, 2, 2, 2, 2, 0),
            Bit(0, 0, 2, 2, 2, 2, 0, 0),
            Bit(0, 0, 0, 2, 2, 0, 0, 0),
        ]
    );
}

#[test]
fn parsing_at_an_offset() {
    let mut rom = vec![0u8; 40];
    rom[20] = 0x80;
    rom[28] = 0x81;
    rom[27] = 0x01;
    let Sprite(rows) = Sprite::parse(&rom, 20);
    assert_eq!(rows[0], Bit(2, 0, 0, 0, 0, 0, 0, 1));
    assert_eq!(rows[7], Bit(0, 0, 0, 0, 0, 0, 0, 1));
    assert_eq!(rows[1], Bit::default());
}

#[test]
fn how_many_patterns_are_read() {
    assert_eq!(Sprite::parse_sprites(&vec![]).len(), 0);
    assert_eq!(Sprite::parse_sprites(&vec![0; 16]).len(), 0);
    assert_eq!(Sprite::parse_sprites(&vec![0; 17]).len(), 1);
    assert_eq!(Sprite::parse_sprites(&vec![0; 32]).len(), 1);
    assert_eq!(Sprite::parse_sprites(&vec![0; 33]).len(), 2);
    assert_eq!(Sprite::parse_sprites(&vec![0; 0x2000]).len(), 511);
    let mut rom = vec![0u8; 49];
    rom[16] = 0xff;
    rom[40] = 0x0f;
    let sprites = Sprite::parse_sprites(&rom);
    assert_eq!(sprites.len(), 3);
    assert_eq!(sprites[0], Sprite::default());
    assert_eq!(sprites[1].0[0], Bit(1, 1, 1, 1, 1, 1, 1, 1));
    assert_eq!(sprites[1].0[1], Bit::default());
    assert_eq!(sprites[2].0[0], Bit(0, 0, 0, 0, 1, 1, 1, 1));
}

#[test]
fn the_default_pattern_is_empty() {
    let Sprite(rows) = Sprite::default();
    assert_eq!(rows, vec![Bit::default(); 8]);
    assert_eq!(Sprite::from(vec![Bit::default(); 8]), Sprite::default());
}

#[test]
fn a_pattern_enlarged() {
    let sprite = ramp();
    let Sprite(rows) = &sprite;
    for n in [1u32, 2, 3, 10] {
        let canvas = sprite.debug_draw(n);
        assert_eq!(canvas.size(), (8 * n, 8 * n));
        let raw = canvas.into_raw();
        let side = 8 * n as usize;
        assert_eq!(raw.len(), 3 * side * side);
        for y in 0..side {
            for x in 0..side {
                let c = 127 * rows[y / n as usize].get(x / n as usize);
                assert_eq!(pixel(&raw, side, x, y), (c, c, c));
            }
        }
    }
    assert_eq!(sprite.debug_draw(0).size(), (0, 0));
    assert_eq!(sprite.debug_draw(1).into_raw()[..24], sprite.draw().into_raw()[..24]);
}

#[test]
fn whole_and_broken_patterns() {
    assert!(ramp().is_whole());
    assert!(Sprite::default().is_whole());
    assert!(!Sprite(vec![]).is_whole());
    assert!(!Sprite(vec![Bit::default(); 7]).is_whole());
    assert!(!Sprite(vec![Bit::default(); 9]).is_whole());
    for k in 0..8 {
        let mut rows = vec![Bit::default(); 8];
        rows[k] = Bit(0, 0, 0, 3, 0, 0, 0, 0);
        assert!(!Sprite(rows).is_whole());
        let mut rows = vec![Bit::default(); 8];
        rows[k] = Bit(2, 2, 2, 2, 2, 2, 2, 2);
        assert!(Sprite(rows).is_whole());
    }
    assert!(!Sprite(vec![Bit(0, 0, 0, 0, 0, 0, 0, 255); 8]).is_whole());
    assert!(!Sprite(vec![Bit(3, 0, 0, 0, 0, 0, 0, 0); 8]).is_whole());
}

#[test]
fn stamping_only_where_there_is_room() {
    let sprite = ramp();
    let mut canvas = Canvas::new(10, 9);
    assert!(!sprite.try_stamp(&mut canvas, 3, 0));
    assert!(!sprite.try_stamp(&mut canvas, 0, 2));
    assert!(!sprite.try_stamp(&mut canvas, u32::MAX, 0));
    assert!(!Sprite(vec![]).try_stamp(&mut canvas, 0, 0));
    assert!(!Sprite(vec![Bit(9, 0, 0, 0, 0, 0, 0, 0); 8]).try_stamp(&mut canvas, 0, 0));
    let mut small = Canvas::new(7, 20);
    assert!(!sprite.try_stamp(&mut small, 0, 0));
    assert_eq!(small.into_raw(), vec![0u8; 3 * 7 * 20]);
    assert!(sprite.try_stamp(&mut canvas, 2, 1));
    let raw = canvas.into_raw();
    assert_eq!(pixel(&raw, 10, 2, 1), (0, 0, 0));
    assert_eq!(pixel(&raw, 10, 3, 1), (127, 127, 127));
    assert_eq!(pixel(&raw, 10, 4, 1), (254, 254, 254));
    assert_eq!(pixel(&raw, 10, 9, 8), (254, 254, 254));
    assert_eq!(pixel(&raw, 10, 1, 1), (0, 0, 0));
}
