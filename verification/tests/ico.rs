use havit_monitor::ico::{group_directory, parse, referenced_ids, Image};
use havit_monitor::Error;

/// A minimal but well-formed one-image icon.
fn sample() -> Vec<u8> {
    let mut ico = vec![0, 0, 1, 0, 1, 0];
    ico.extend_from_slice(&[16, 16, 0, 0]); // 16x16, no palette
    ico.extend_from_slice(&1u16.to_le_bytes()); // planes
    ico.extend_from_slice(&32u16.to_le_bytes()); // bpp
    ico.extend_from_slice(&4u32.to_le_bytes()); // size
    ico.extend_from_slice(&22u32.to_le_bytes()); // offset
    ico.extend_from_slice(&[0xDE, 0xAD, 0xBE, 0xEF]);
    ico
}

fn problem(bytes: &[u8]) -> &'static str {
    match parse(bytes) {
        Err(Error::MalformedIcon(why)) => why,
        Err(other) => panic!("unexpected error {other:?}"),
        Ok(_) => panic!("expected a malformed icon"),
    }
}

#[test]
fn parses_a_well_formed_icon() {
    let bytes = sample();
    let images = parse(&bytes).expect("sample icon is valid");
    assert_eq!(images.len(), 1);
    assert_eq!(images[0].width, 16);
    assert_eq!(images[0].bpp, 32);
    assert_eq!(images[0].data, &[0xDE, 0xAD, 0xBE, 0xEF]);
}

#[test]
fn rejects_an_image_that_runs_past_the_end() {
    let mut bytes = sample();
    bytes.truncate(bytes.len() - 1);
    assert!(matches!(parse(&bytes), Err(Error::MalformedIcon(_))));
}

#[test]
fn rejects_a_cursor() {
    let mut bytes = sample();
    bytes[2] = 2; // type 2 is a cursor
    assert!(matches!(parse(&bytes), Err(Error::MalformedIcon(_))));
}

#[test]
fn group_directory_round_trips_through_referenced_ids() {
    let bytes = sample();
    let images = parse(&bytes).expect("sample icon is valid");
    let group = group_directory(&images, 1);
    assert_eq!(referenced_ids(&group), vec![1]);
}

#[test]
fn parse_reads_every_field_of_every_entry() {
    let mut ico = vec![0, 0, 1, 0, 2, 0];
    ico.extend_from_slice(&[48, 32, 16, 7, 3, 0, 8, 0]);
    ico.extend_from_slice(&2u32.to_le_bytes());
    ico.extend_from_slice(&38u32.to_le_bytes());
    ico.extend_from_slice(&[0, 0, 0, 0, 1, 0, 24, 0]);
    ico.extend_from_slice(&1u32.to_le_bytes());
    ico.extend_from_slice(&40u32.to_le_bytes());
    ico.extend_from_slice(&[0xAA, 0xBB, 0xCC]);
    let images = parse(&ico).expect("two-image icon is valid");
    assert_eq!(images.len(), 2);
    let a = &images[0];
    assert_eq!((a.width, a.height, a.colors, a.reserved, a.planes, a.bpp), (48, 32, 16, 7, 3, 8));
    assert_eq!(a.data, &[0xAA, 0xBB]);
    let b = &images[1];
    assert_eq!((b.width, b.height, b.colors, b.reserved, b.planes, b.bpp), (0, 0, 0, 0, 1, 24));
    assert_eq!(b.data, &[0xCC]);
}

#[test]
fn parse_names_each_problem() {
    assert_eq!(problem(&[0, 0, 1, 0, 1]), "shorter than an icon header");
    let mut bytes = sample();
    bytes[1] = 1;
    assert_eq!(problem(&bytes), "reserved field is not zero");
    let mut bytes = sample();
    bytes[2] = 2;
    assert_eq!(problem(&bytes), "not an icon (type is not 1)");
    let mut bytes = sample();
    bytes[4] = 0;
    assert_eq!(problem(&bytes), "contains no images");
    let mut bytes = sample();
    bytes[4] = 2;
    assert_eq!(problem(&bytes), "directory is truncated");
    let mut bytes = sample();
    bytes[14..18].copy_from_slice(&0u32.to_le_bytes());
    assert_eq!(problem(&bytes), "an image is empty");
    let mut bytes = sample();
    bytes.truncate(bytes.len() - 1);
    assert_eq!(problem(&bytes), "an image runs past the end of the file");
}

#[test]
fn parse_reports_the_first_bad_entry() {
    // Entry 0 is empty, entry 1 runs past the end: the empty one is reported.
    let mut ico = vec![0, 0, 1, 0, 2, 0];
    ico.extend_from_slice(&[1, 1, 0, 0, 1, 0, 32, 0]);
    ico.extend_from_slice(&0u32.to_le_bytes());
    ico.extend_from_slice(&38u32.to_le_bytes());
    ico.extend_from_slice(&[1, 1, 0, 0, 1, 0, 32, 0]);
    ico.extend_from_slice(&100u32.to_le_bytes());
    ico.extend_from_slice(&38u32.to_le_bytes());
    assert_eq!(problem(&ico), "an image is empty");
}

#[test]
fn group_directory_lays_out_header_and_entries() {
    let data_a = [1u8, 2, 3];
    let data_b = vec![9u8; 300];
    let images = vec![
        Image { width: 16, height: 16, colors: 0, reserved: 0, planes: 1, bpp: 32, data: &data_a },
        Image { width: 0, height: 0, colors: 4, reserved: 1, planes: 0x0102, bpp: 8, data: &data_b },
    ];
    let group = group_directory(&images, 7);
    let mut expected = vec![0, 0, 1, 0, 2, 0];
    expected.extend_from_slice(&[16, 16, 0, 0, 1, 0, 32, 0, 3, 0, 0, 0, 7, 0]);
    expected.extend_from_slice(&[0, 0, 4, 1, 2, 1, 8, 0, 44, 1, 0, 0, 8, 0]);
    assert_eq!(group, expected);
    assert_eq!(referenced_ids(&group), vec![7, 8]);
}

#[test]
fn referenced_ids_stops_at_a_truncated_entry() {
    assert_eq!(referenced_ids(&[0, 0, 1]), Vec::<u16>::new());
    let mut group = vec![0, 0, 1, 0, 3, 0];
    group.extend_from_slice(&[0; 12]);
    group.extend_from_slice(&5u16.to_le_bytes());
    group.extend_from_slice(&[0; 12]);
    group.extend_from_slice(&6u16.to_le_bytes());
    group.extend_from_slice(&[0; 5]);
    // Three declared, two complete.
    assert_eq!(referenced_ids(&group), vec![5, 6]);
}

#[test]
fn group_entry_keeps_the_first_twelve_bytes_of_the_file_entry() {
    let bytes = sample();
    let images = parse(&bytes).expect("sample icon is valid");
    let group = group_directory(&images, 1);
    assert_eq!(&group[6..18], &bytes[6..18]);
    assert_eq!(&group[18..20], &[1, 0]);
}
