use craftwad::archive::{new_archive, push_file_lump, push_images, Image, PushLump};
use tinywad::models::operation::WadOp;

fn saved(wad: &mut tinywad::wad::Wad) -> Vec<u8> {
    let file = tempfile::NamedTempFile::new().unwrap();
    wad.save(file.path());
    let mut bytes = Vec::new();
    std::io::Read::read_to_end(&mut file.reopen().unwrap(), &mut bytes).unwrap();
    bytes
}

fn number(bytes: &[u8], at: usize) -> usize {
    u32::from_le_bytes([bytes[at], bytes[at + 1], bytes[at + 2], bytes[at + 3]]) as usize
}

fn tags(bytes: &[u8]) -> Vec<Vec<u8>> {
    let count = number(bytes, 4);
    (0..count).map(|i| bytes[12 + 16 * i + 8..12 + 16 * i + 16].to_vec()).collect()
}

#[test]
fn archive_starts_empty() {
    let mut wad = new_archive();
    assert!(wad.lump("S_SKIN").is_none());
    let bytes = saved(&mut wad);
    assert_eq!(&bytes[0..4], b"PWAD");
    assert_eq!(number(&bytes, 4), 0);
    assert_eq!(bytes.len(), 12);
}

#[test]
fn archive_takes_a_lump() {
    let mut wad = new_archive();
    let content = vec![1, 2, 3, 4, 5];
    assert!(wad.push_lump(&content, "S_SKIN").is_ok());
    let lump = wad.lump("S_SKIN").unwrap().data();
    assert_eq!(lump.buffer, content);
    assert_eq!(&lump.metadata.name, b"S_SKIN\0\0");
    assert!(wad.lump("OTHER").is_none());
}

#[test]
fn archive_keeps_eight_bytes_of_a_name() {
    let mut wad = new_archive();
    assert!(wad.push_lump(&vec![7], "LONGERTHANEIGHT").is_ok());
    assert!(wad.push_lump(&Vec::new(), "S_END").is_ok());
    let bytes = saved(&mut wad);
    assert_eq!(tags(&bytes), vec![b"LONGERTH".to_vec(), b"S_END\0\0\0".to_vec()]);
    assert_eq!(wad.lump("LONGERTH").unwrap().data().buffer, vec![7]);
}

#[test]
fn archive_keeps_the_order_of_its_lumps() {
    let mut wad = new_archive();
    for (i, name) in ["S_START", "PLA]A1", "PLA]A2", "S_END"].iter().enumerate() {
        assert!(wad.push_lump(&vec![i as u8; i], name).is_ok());
    }
    let bytes = saved(&mut wad);
    assert_eq!(number(&bytes, 4), 4);
    assert_eq!(
        tags(&bytes),
        vec![
            b"S_START\0".to_vec(),
            b"PLA]A1\0\0".to_vec(),
            b"PLA]A2\0\0".to_vec(),
            b"S_END\0\0\0".to_vec()
        ]
    );
    assert_eq!(&bytes[bytes.len() - 6..], &[1, 2, 2, 3, 3, 3]);
}

#[test]
fn archive_names_files_with_backslashes() {
    let mut wad = new_archive();
    assert!(push_file_lump(&mut wad, &vec![9, 9], "PLA^A0").is_ok());
    assert_eq!(wad.lump("PLA\\A0").unwrap().data().buffer, vec![9, 9]);
    assert!(wad.lump("PLA^A0").is_none());
}

#[test]
fn archive_takes_images_in_order() {
    let mut wad = new_archive();
    assert!(wad.push_lump(&Vec::new(), "S_START").is_ok());
    let images = vec![
        Image { stem: "PLA^A0".to_string(), bytes: vec![1] },
        Image { stem: "PLA^B0".to_string(), bytes: vec![2, 2] },
        Image { stem: "PLA]A1".to_string(), bytes: vec![3, 3, 3] },
    ];
    assert!(push_images(&mut wad, &images).is_ok());
    assert!(push_images(&mut wad, &Vec::new()).is_ok());
    let bytes = saved(&mut wad);
    assert_eq!(
        tags(&bytes),
        vec![
            b"S_START\0".to_vec(),
            b"PLA\\A0\0\0".to_vec(),
            b"PLA\\B0\0\0".to_vec(),
            b"PLA]A1\0\0".to_vec()
        ]
    );
    assert_eq!(wad.lump("PLA\\B0").unwrap().data().buffer, vec![2, 2]);
}

#[test]
fn archive_of_images() {
    let images = vec![
        Image { stem: "PLA]A1".to_string(), bytes: vec![1] },
        Image { stem: "PLA^A0".to_string(), bytes: vec![2, 2] },
    ];
    let mut wad = craftwad::archive::archive_of(&images).unwrap();
    let bytes = saved(&mut wad);
    assert_eq!(&bytes[0..4], b"PWAD");
    assert_eq!(tags(&bytes), vec![b"PLA]A1\0\0".to_vec(), b"PLA\\A0\0\0".to_vec()]);
    assert!(craftwad::archive::archive_of(&Vec::new()).is_some());
}
