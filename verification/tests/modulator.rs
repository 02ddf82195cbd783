use polysynth::modulator::{Reader, SFModulator};

fn two_records() -> Vec<u8> {
    vec![
        0x01, 0x02, // src = 0x0201
        0x03, 0x04, // dest = 0x0403
        0xFF, 0xFF, // amount = -1
        0x05, 0x00, // amt_src = 5
        0x06, 0x00, // transform = 6
        0x10, 0x00, // src = 16
        0x20, 0x00, // dest = 32
        0x00, 0x80, // amount = -32768
        0xFF, 0x7F, // amt_src = 32767
        0x00, 0x00, // transform = 0
    ]
}

#[test]
fn reader_is_little_endian() {
    let mut reader = Reader::new(vec![0x34, 0x12]);
    assert_eq!(reader.read_u16(), 0x1234);
    assert_eq!(reader.pos, 2);
}

#[test]
fn read_single_record() {
    let mut reader = Reader::new(two_records());
    let m = SFModulator::read(&mut reader);
    assert_eq!(m.src, 0x0201);
    assert_eq!(m.dest, 0x0403);
    assert_eq!(m.amount, -1);
    assert_eq!(m.amt_src, 5);
    assert_eq!(m.transform, 6);
    assert_eq!(reader.pos, 10);
}

#[test]
fn read_advances_through_records() {
    let mut reader = Reader::new(two_records());
    let first = SFModulator::read(&mut reader);
    let second = SFModulator::read(&mut reader);
    assert_eq!(first.src, 0x0201);
    assert_eq!(second.src, 16);
    assert_eq!(second.dest, 32);
    assert_eq!(second.amount, -32768);
    assert_eq!(second.amt_src, 32767);
    assert_eq!(second.transform, 0);
    assert_eq!(reader.pos, 20);
}

#[test]
fn read_all_decodes_every_record() {
    let mods = SFModulator::read_all(two_records());
    assert_eq!(mods.len(), 2);
    assert_eq!(mods[0].src, 0x0201);
    assert_eq!(mods[0].amount, -1);
    assert_eq!(mods[1].src, 16);
    assert_eq!(mods[1].amount, -32768);
}

#[test]
fn read_all_single_record() {
    let mods = SFModulator::read_all(vec![0, 0, 0, 0, 0, 0, 0, 0, 0, 0]);
    assert_eq!(mods.len(), 1);
    assert_eq!(mods[0].src, 0);
    assert_eq!(mods[0].dest, 0);
    assert_eq!(mods[0].amount, 0);
    assert_eq!(mods[0].amt_src, 0);
    assert_eq!(mods[0].transform, 0);
}
