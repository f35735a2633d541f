use fc::error::INESError;
use fc::ines::ines::copy_of;
use fc::ines::{parser, INESHeader, INES, INES_HEADER_SIZE};

fn image(program_units: u8, character_units: u8) -> Vec<u8> {
    let mut buf = vec![0x4e, 0x45, 0x53, 0x1a, program_units, character_units];
    buf.extend_from_slice(&[6, 7, 8, 9, 10, 11, 12, 13, 14, 15]);
    for i in 0..(0x4000 * program_units as usize) {
        buf.push((i % 251) as u8);
    }
    for i in 0..(0x2000 * character_units as usize) {
        buf.push((i % 241) as u8 + 1);
    }
    buf
}

#[test]
fn a_header() {
    let buf = [0x4e, 0x45, 0x53, 0x1a, 2, 1, 6, 7, 8, 9, 10, 11, 12, 13, 14, 15];
    assert_eq!(buf.len(), INES_HEADER_SIZE);
    assert_eq!(
        INESHeader::parser(&buf),
        Ok(INESHeader {
            nes: [0x4e, 0x45, 0x53, 0x1a],
            program_rom_size: 2,
            character_rom_size: 1,
            flag6: 6,
            flag7: 7,
            flag8: 8,
            flag9: 9,
            flag10: 10,
            padding: [11, 12, 13, 14, 15],
        })
    );
}

#[test]
fn a_header_without_the_signature() {
    for k in 0..4 {
        let mut buf = [0x4e, 0x45, 0x53, 0x1a, 2, 1, 0, 0, 0, 0, 0, 0, 0, 0, 0, 0];
        buf[k] ^= 0x01;
        assert_eq!(INESHeader::parser(&buf), Err(INESError::NotFound));
    }
    assert_eq!(INESHeader::parser(&[0; 16]), Err(INESError::NotFound));
}

#[test]
fn an_image() {
    let mut buf = image(2, 1);
    let copy = buf.clone();
    let INES { header, trainer, program_rom_data, character_rom_data } = parser(&mut buf).unwrap();
    assert_eq!(buf, copy);
    assert_eq!(header.program_rom_size, 2);
    assert_eq!(header.character_rom_size, 1);
    assert_eq!(header.padding, [11, 12, 13, 14, 15]);
    assert!(trainer.is_empty());
    assert_eq!(program_rom_data, copy[16..16 + 0x8000].to_vec());
    assert_eq!(character_rom_data, copy[16 + 0x8000..16 + 0x8000 + 0x2000].to_vec());
    assert_eq!(program_rom_data[0x7fff], (0x7fff % 251) as u8);
    assert_eq!(character_rom_data[0], 1);
}

#[test]
fn an_image_with_bytes_behind_it_and_an_empty_one() {
    let mut buf = image(1, 0);
    buf.extend_from_slice(&[0xaa; 128]);
    let parsed = parser(&mut buf).unwrap();
    assert_eq!(parsed.program_rom_data.len(), 0x4000);
    assert!(parsed.character_rom_data.is_empty());
    let mut bare = image(0, 0);
    let parsed = parser(&mut bare).unwrap();
    assert!(parsed.program_rom_data.is_empty());
    assert!(parsed.character_rom_data.is_empty());
}

#[test]
fn images_that_are_refused() {
    assert_eq!(parser(&mut vec![]), Err(INESError::Truncated));
    assert_eq!(parser(&mut vec![0x4e, 0x45, 0x53, 0x1a]), Err(INESError::Truncated));
    assert_eq!(parser(&mut vec![0; 15]), Err(INESError::Truncated));
    assert_eq!(parser(&mut vec![0; 16]), Err(INESError::NotFound));
    let mut short = image(1, 1);
    short.pop();
    assert_eq!(parser(&mut short), Err(INESError::Truncated));
    let mut wrong = image(1, 1);
    wrong[3] = 0;
    assert_eq!(parser(&mut wrong), Err(INESError::NotFound));
}

#[test]
fn copying_a_range() {
    let buf = [1u8, 2, 3, 4, 5];
    assert_eq!(copy_of(&buf, 1, 4), vec![2, 3, 4]);
    assert_eq!(copy_of(&buf, 0, 5), vec![1, 2, 3, 4, 5]);
    assert_eq!(copy_of(&buf, 5, 5), Vec::<u8>::new());
}
