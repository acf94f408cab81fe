use emulanders::skylander::{Skylander, SKYLANDER_DUMP_SIZE};

fn sample() -> Skylander {
    let mut data = [0u8; SKYLANDER_DUMP_SIZE];
    for (i, b) in data.iter_mut().enumerate() {
        *b = (i % 251) as u8;
    }
    Skylander { data, path: String::from("sdmc:/emulanders/figures/Spyro.dump") }
}

#[test]
fn uid_is_first_four_bytes() {
    let s = sample();
    assert_eq!(s.get_uid(), &[0u8, 1, 2, 3][..]);
}

#[test]
fn get_block_reads_sector_and_block() {
    let s = sample();
    // sector 1, block 2 -> block 6 -> offset 96
    let b = s.get_block(1, 2);
    let expected: Vec<u8> = (96..112).map(|i| (i % 251) as u8).collect();
    assert_eq!(&b[..], &expected[..]);
}

#[test]
fn get_block_last_block_of_dump() {
    let s = sample();
    let b = s.get_block(15, 3);
    let expected: Vec<u8> = (1008..1024).map(|i| (i % 251) as u8).collect();
    assert_eq!(&b[..], &expected[..]);
}

#[test]
fn get_block_past_dump_is_zero() {
    let s = sample();
    assert_eq!(s.get_block(16, 0), [0u8; 16]);
    assert_eq!(s.get_block(255, 255), [0u8; 16]);
}

#[test]
fn set_block_then_get_block() {
    let mut s = sample();
    let data = [0xABu8; 16];
    s.set_block(3, 1, &data);
    assert_eq!(s.get_block(3, 1), data);
    // neighbours are untouched
    let before: Vec<u8> = (192..208).map(|i| (i % 251) as u8).collect();
    assert_eq!(&s.get_block(3, 0)[..], &before[..]);
    let after: Vec<u8> = (224..240).map(|i| (i % 251) as u8).collect();
    assert_eq!(&s.get_block(3, 2)[..], &after[..]);
    assert_eq!(s.path, "sdmc:/emulanders/figures/Spyro.dump");
}

#[test]
fn set_block_past_dump_is_ignored() {
    let mut s = sample();
    let before = s.data;
    s.set_block(64, 0, &[1u8; 16]);
    assert_eq!(s.data, before);
}
