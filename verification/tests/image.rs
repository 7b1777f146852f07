use bytecode_vm::fault::Fault;
use bytecode_vm::image::ProgramImage;
use bytecode_vm::instruction::Instruction;
use bytecode_vm::layout::{
    locate_slot, locate_word, BLOCK_BYTES, BLOCK_WORDS, CODE_BASE, CODE_BLOCKS, CODE_SLOTS,
    DATA_BLOCKS, IMAGE_BYTES, IMAGE_WORDS, PARAMETER_BLOCKS, RESERVED_BLOCKS, WORD_BYTES,
};
use bytecode_vm::word::{from_be_bytes, to_be_bytes};

fn patterned() -> ProgramImage {
    let mut bytes = [0u8; 1024];
    for (i, byte) in bytes.iter_mut().enumerate() {
        *byte = (i * 13 % 256) as u8;
    }
    ProgramImage { bytes }
}

#[test]
fn layout_constants() {
    assert_eq!(WORD_BYTES, 4);
    assert_eq!(BLOCK_WORDS, 16);
    assert_eq!(BLOCK_BYTES, 64);
    assert_eq!(PARAMETER_BLOCKS, 1);
    assert_eq!(DATA_BLOCKS, 7);
    assert_eq!(CODE_BLOCKS, 6);
    assert_eq!(RESERVED_BLOCKS, 2);
    assert_eq!(IMAGE_BYTES, 1024);
    assert_eq!(IMAGE_WORDS, 256);
    assert_eq!(CODE_BASE, 512);
    assert_eq!(CODE_SLOTS, 96);
    assert_eq!(CODE_BASE + CODE_SLOTS * WORD_BYTES, 896);
}

#[test]
fn word_offsets() {
    assert_eq!(locate_word(0, 0), Some(0));
    assert_eq!(locate_word(0, 1), Some(4));
    assert_eq!(locate_word(0, 3), Some(12));
    assert_eq!(locate_word(1, 0), Some(64));
    assert_eq!(locate_word(7, 15), Some(508));
    assert_eq!(locate_word(8, 0), Some(512));
    assert_eq!(locate_word(15, 15), Some(1020));
    assert_eq!(locate_word(0, 255), Some(1020));
    assert_eq!(locate_word(0, 16), Some(64));
    assert_eq!(locate_word(15, 16), None);
    assert_eq!(locate_word(16, 0), None);
    assert_eq!(locate_word(1, 240), None);
    assert_eq!(locate_word(255, 255), None);
}

#[test]
fn word_offsets_agree_with_the_formula_everywhere() {
    for x in 0..=255usize {
        for y in 0..=255usize {
            let index = x * 16 + y;
            let expected = if index < 256 { Some(index * 4) } else { None };
            assert_eq!(locate_word(x as u8, y as u8), expected);
        }
    }
}

#[test]
fn slot_offsets() {
    assert_eq!(locate_slot(0), Some(512));
    assert_eq!(locate_slot(1), Some(516));
    assert_eq!(locate_slot(5), Some(532));
    assert_eq!(locate_slot(95), Some(892));
    assert_eq!(locate_slot(96), None);
    assert_eq!(locate_slot(127), None);
    assert_eq!(locate_slot(128), None);
    assert_eq!(locate_slot(u16::MAX), None);
}

#[test]
fn words_are_big_endian() {
    assert_eq!(from_be_bytes([0, 0, 0, 0]), 0);
    assert_eq!(from_be_bytes([0, 0, 0, 3]), 3);
    assert_eq!(from_be_bytes([0, 0, 1, 0]), 256);
    assert_eq!(from_be_bytes([0x12, 0x34, 0x56, 0x78]), 0x1234_5678);
    assert_eq!(from_be_bytes([0xff, 0xff, 0xff, 0xff]), u32::MAX);
    assert_eq!(from_be_bytes([0x80, 0, 0, 0]), 0x8000_0000);
    assert_eq!(to_be_bytes(0), [0, 0, 0, 0]);
    assert_eq!(to_be_bytes(3), [0, 0, 0, 3]);
    assert_eq!(to_be_bytes(256), [0, 0, 1, 0]);
    assert_eq!(to_be_bytes(0x1234_5678), [0x12, 0x34, 0x56, 0x78]);
    assert_eq!(to_be_bytes(u32::MAX), [0xff, 0xff, 0xff, 0xff]);
    assert_eq!(to_be_bytes(0x8000_0000), [0x80, 0, 0, 0]);
}

#[test]
fn words_agree_with_the_standard_conversions() {
    let mut value: u32 = 1;
    for _ in 0..2000 {
        value = value.wrapping_mul(1_664_525).wrapping_add(1_013_904_223);
        assert_eq!(to_be_bytes(value), value.to_be_bytes());
        assert_eq!(from_be_bytes(value.to_le_bytes()), u32::from_be_bytes(value.to_le_bytes()));
        assert_eq!(from_be_bytes(to_be_bytes(value)), value);
    }
}

#[test]
fn image_from_bytes_copies_the_buffer() {
    let source = patterned();
    match ProgramImage::from_bytes(&source.bytes) {
        Ok(image) => assert_eq!(image, source),
        Err(fault) => panic!("a buffer of 1024 bytes was refused: {:?}", fault),
    }
}

#[test]
fn image_from_bytes_refuses_other_lengths() {
    assert_eq!(ProgramImage::from_bytes(&[]), Err(Fault::MalformedProgramImage { length: 0 }));
    assert_eq!(
        ProgramImage::from_bytes(&[0u8; 1023]),
        Err(Fault::MalformedProgramImage { length: 1023 })
    );
    assert_eq!(
        ProgramImage::from_bytes(&[0u8; 1025]),
        Err(Fault::MalformedProgramImage { length: 1025 })
    );
    assert_eq!(
        ProgramImage::from_bytes(&vec![7u8; 4096]),
        Err(Fault::MalformedProgramImage { length: 4096 })
    );
    assert!(ProgramImage::from_bytes(&[0u8; 1024]).is_ok());
}

#[test]
fn read_returns_four_bytes_in_order() {
    let image = patterned();
    assert_eq!(image.read(0), [0, 13, 26, 39]);
    assert_eq!(image.read(1), [13, 26, 39, 52]);
    assert_eq!(image.read(1020), [
        (1020 * 13 % 256) as u8,
        (1021 * 13 % 256) as u8,
        (1022 * 13 % 256) as u8,
        (1023 * 13 % 256) as u8,
    ]);
}

#[test]
fn write_changes_four_bytes_only() {
    let before = patterned();
    for offset in [0usize, 1, 510, 1020] {
        let mut image = before;
        image.write(offset, [0xa1, 0xa2, 0xa3, 0xa4]);
        for i in 0..1024 {
            if i >= offset && i < offset + 4 {
                assert_eq!(image.bytes[i], 0xa1 + (i - offset) as u8);
            } else {
                assert_eq!(image.bytes[i], before.bytes[i]);
            }
        }
        assert_eq!(image.read(offset), [0xa1, 0xa2, 0xa3, 0xa4]);
    }
}

#[test]
fn word_at_reads_by_block_and_word() {
    let mut image = ProgramImage { bytes: [0u8; 1024] };
    image.bytes[4..8].copy_from_slice(&[0, 0, 0, 2]);
    image.bytes[508..512].copy_from_slice(&[0xde, 0xad, 0xbe, 0xef]);
    assert_eq!(image.word_at(0, 0), Some(0));
    assert_eq!(image.word_at(0, 1), Some(2));
    assert_eq!(image.word_at(7, 15), Some(0xdead_beef));
    assert_eq!(image.word_at(15, 15), Some(0));
    assert_eq!(image.word_at(16, 0), None);
    assert_eq!(image.word_at(15, 16), None);
}

#[test]
fn set_word_stores_big_endian_or_refuses() {
    let before = patterned();
    let mut image = before;
    assert!(image.set_word(0, 3, 3));
    assert_eq!(image.bytes[12..16], [0, 0, 0, 3]);
    assert_eq!(image.word_at(0, 3), Some(3));
    assert!(image.set_word(15, 15, 0x0102_0304));
    assert_eq!(image.bytes[1020..1024], [1, 2, 3, 4]);
    assert_eq!(image.bytes[..12], before.bytes[..12]);
    assert_eq!(image.bytes[16..1020], before.bytes[16..1020]);

    let before = image;
    assert!(!image.set_word(16, 0, 0xffff_ffff));
    assert!(!image.set_word(0xff, 0xff, 0xffff_ffff));
    assert_eq!(image, before);
}

#[test]
fn set_word_then_word_at_round_trips() {
    let mut image = patterned();
    let mut value: u32 = 0x9e37_79b9;
    for index in 0..256usize {
        value = value.wrapping_mul(1_664_525).wrapping_add(1_013_904_223);
        let (x, y) = ((index / 16) as u8, (index % 16) as u8);
        assert!(image.set_word(x, y, value));
        assert_eq!(image.word_at(x, y), Some(value));
        assert_eq!(image.bytes[index * 4..index * 4 + 4], value.to_be_bytes());
    }
}

#[test]
fn storing_a_word_that_was_just_read_changes_nothing() {
    let before = patterned();
    let mut image = before;
    for index in 0..256usize {
        let (x, y) = ((index / 16) as u8, (index % 16) as u8);
        let value = match image.word_at(x, y) {
            Some(value) => value,
            None => panic!("word {} lies in the image", index),
        };
        assert!(image.set_word(x, y, value));
    }
    assert_eq!(image, before);
}

#[test]
fn instruction_at_reads_the_code_region() {
    let mut image = ProgramImage { bytes: [0u8; 1024] };
    image.bytes[512..516].copy_from_slice(b"LR\x00\x01");
    image.bytes[532..536].copy_from_slice(b"HALT");
    image.bytes[892..896].copy_from_slice(b"JP\x01\x02");
    image.bytes[896..900].copy_from_slice(b"SR\x00\x00");
    assert_eq!(image.instruction_at(0), Some(*b"LR\x00\x01"));
    assert_eq!(image.instruction_at(1), Some([0, 0, 0, 0]));
    assert_eq!(image.instruction_at(5), Some(*b"HALT"));
    assert_eq!(image.instruction_at(95), Some(*b"JP\x01\x02"));
    assert_eq!(image.instruction_at(96), None);
    assert_eq!(image.instruction_at(u16::MAX), None);
}

#[test]
fn decode_each_mnemonic() {
    assert_eq!(Instruction::decode(*b"LR\x00\x00"), Some(Instruction::Load { x: 0, y: 0 }));
    assert_eq!(Instruction::decode(*b"SR\x00\x03"), Some(Instruction::Store { x: 0, y: 3 }));
    assert_eq!(Instruction::decode(*b"AD\x00\x01"), Some(Instruction::Add { x: 0, y: 1 }));
    assert_eq!(Instruction::decode(*b"SU\x07\x0f"), Some(Instruction::Subtract { x: 7, y: 15 }));
    assert_eq!(Instruction::decode(*b"CR\x01\x02"), Some(Instruction::Compare { x: 1, y: 2 }));
    assert_eq!(Instruction::decode(*b"JP\xff\xfe"), Some(Instruction::Jump { x: 255, y: 254 }));
    assert_eq!(
        Instruction::decode(*b"JB\x0a\x0b"),
        Some(Instruction::JumpIfBelow { x: 10, y: 11 })
    );
    assert_eq!(Instruction::decode(*b"HALT"), Some(Instruction::Halt));
}

#[test]
fn decode_keeps_letters_that_stand_as_operands() {
    assert_eq!(Instruction::decode(*b"LRLT"), Some(Instruction::Load { x: b'L', y: b'T' }));
    assert_eq!(Instruction::decode(*b"JPJP"), Some(Instruction::Jump { x: b'J', y: b'P' }));
}

#[test]
fn decode_refuses_everything_else() {
    assert_eq!(Instruction::decode([0, 0, 0, 0]), None);
    assert_eq!(Instruction::decode(*b"lr\x00\x00"), None);
    assert_eq!(Instruction::decode(*b"RL\x00\x00"), None);
    assert_eq!(Instruction::decode(*b"SB\x00\x03"), None);
    assert_eq!(Instruction::decode(*b"HA\x00\x00"), None);
    assert_eq!(Instruction::decode(*b"HALL"), None);
    assert_eq!(Instruction::decode(*b"HAXT"), None);
    assert_eq!(Instruction::decode(*b"halt"), None);
    assert_eq!(Instruction::decode([b'L', 0, 0, 0]), None);
    assert_eq!(Instruction::decode([0, b'R', 0, 0]), None);
}

#[test]
fn decode_recognizes_exactly_the_eight_mnemonics() {
    let tags: [[u8; 2]; 7] = [*b"LR", *b"SR", *b"AD", *b"SU", *b"CR", *b"JP", *b"JB"];
    for first in 0..=255u8 {
        for second in 0..=255u8 {
            let known = tags.contains(&[first, second]);
            assert_eq!(Instruction::decode([first, second, 9, 9]).is_some(), known);
            let halt = [first, second] == *b"HA";
            assert_eq!(Instruction::decode([first, second, b'L', b'T']).is_some(), known || halt);
        }
    }
}
