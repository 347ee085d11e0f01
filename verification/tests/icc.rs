use gpui_windows::icc::{icc_xyz_tag, primaries_from_icc, Primaries, Xyz};

const SRGB: Primaries = Primaries {
    red: Xyz { x: 0x6fa2, y: 0x38f5, z: 0x0390 },
    green: Xyz { x: 0x6299, y: 0xb785, z: 0x18da },
    blue: Xyz { x: 0x24a0, y: 0x0f84, z: 0xb6cf },
};

fn push_u32(bytes: &mut Vec<u8>, value: u32) {
    bytes.extend_from_slice(&value.to_be_bytes());
}

/// A profile with the given tags: signature and data.
fn profile(tags: &[(&[u8; 4], Vec<u8>)]) -> Vec<u8> {
    let mut bytes = vec![0; 128];
    bytes[36..40].copy_from_slice(b"acsp");
    push_u32(&mut bytes, tags.len() as u32);
    let mut offset = 132 + 12 * tags.len();
    for (signature, data) in tags {
        bytes.extend_from_slice(*signature);
        push_u32(&mut bytes, offset as u32);
        push_u32(&mut bytes, data.len() as u32);
        offset += data.len();
    }
    for (_, data) in tags {
        bytes.extend_from_slice(data);
    }
    bytes
}

fn xyz(value: Xyz) -> Vec<u8> {
    let mut data = b"XYZ \0\0\0\0".to_vec();
    for component in [value.x, value.y, value.z] {
        data.extend_from_slice(&component.to_be_bytes());
    }
    data
}

fn srgb_profile() -> Vec<u8> {
    profile(&[
        (b"rTRC", b"curv\0\0\0\0\0\0\0\0".to_vec()),
        (b"rXYZ", xyz(SRGB.red)),
        (b"gXYZ", xyz(SRGB.green)),
        (b"bXYZ", xyz(SRGB.blue)),
    ])
}

#[test]
fn primaries_are_read() {
    assert_eq!(primaries_from_icc(&srgb_profile()), Some(SRGB));
}

#[test]
fn colorants_are_columns() {
    assert_eq!(
        SRGB.display_to_xyz(),
        [
            [0x6fa2, 0x6299, 0x24a0],
            [0x38f5, 0xb785, 0x0f84],
            [0x0390, 0x18da, 0xb6cf],
        ]
    );
}

#[test]
fn components_are_signed() {
    let value = Xyz { x: -1, y: i32::MIN, z: i32::MAX };
    let bytes = profile(&[(b"rXYZ", xyz(value))]);
    assert_eq!(icc_xyz_tag(&bytes, b"rXYZ"), Some(value));
}

#[test]
fn every_colorant_is_needed() {
    for missing in [b"rXYZ", b"gXYZ", b"bXYZ"] {
        let tags: Vec<(&[u8; 4], Vec<u8>)> = [b"rXYZ", b"gXYZ", b"bXYZ"]
            .into_iter()
            .filter(|signature| *signature != missing)
            .map(|signature| (signature, xyz(SRGB.red)))
            .collect();
        assert_eq!(primaries_from_icc(&profile(&tags)), None);
    }
}

#[test]
fn first_tag_of_a_signature_decides() {
    let bytes = profile(&[
        (b"rXYZ", xyz(SRGB.green)),
        (b"rXYZ", xyz(SRGB.red)),
    ]);
    assert_eq!(icc_xyz_tag(&bytes, b"rXYZ"), Some(SRGB.green));
    let bytes = profile(&[
        (b"rXYZ", b"curv\0\0\0\0\0\0\0\0\0\0\0\0\0\0\0\0".to_vec()),
        (b"rXYZ", xyz(SRGB.red)),
    ]);
    assert_eq!(icc_xyz_tag(&bytes, b"rXYZ"), None);
}

#[test]
fn other_files_are_no_profiles() {
    assert_eq!(primaries_from_icc(&[]), None);
    assert_eq!(primaries_from_icc(&[0; 4096]), None);
    let mut bytes = srgb_profile();
    bytes[36] = b'b';
    assert_eq!(primaries_from_icc(&bytes), None);
}

#[test]
fn cut_profiles_never_give_something_else() {
    let bytes = srgb_profile();
    for len in 0..bytes.len() {
        assert_eq!(primaries_from_icc(&bytes[..len]), None);
    }
}

#[test]
fn trailing_bytes_do_not_matter() {
    let mut bytes = srgb_profile();
    bytes.extend_from_slice(b"and more");
    assert_eq!(primaries_from_icc(&bytes), Some(SRGB));
}

#[test]
fn curves_do_not_matter() {
    let mut bytes = srgb_profile();
    let curve = 132 + 12 * 4;
    for byte in &mut bytes[curve..curve + 12] {
        *byte = 0xff;
    }
    for byte in &mut bytes[0..36] {
        *byte = 0xff;
    }
    assert_eq!(primaries_from_icc(&bytes), Some(SRGB));
}

#[test]
fn entries_past_the_limit_are_not_looked_at() {
    let mut tags: Vec<(&[u8; 4], Vec<u8>)> = Vec::new();
    for _ in 0..1023 {
        tags.push((b"none", Vec::new()));
    }
    tags.push((b"rXYZ", xyz(SRGB.red)));
    assert_eq!(icc_xyz_tag(&profile(&tags), b"rXYZ"), Some(SRGB.red));
    tags.insert(0, (b"none", Vec::new()));
    assert_eq!(icc_xyz_tag(&profile(&tags), b"rXYZ"), None);
}

#[test]
fn wild_offsets_are_harmless() {
    let mut bytes = profile(&[(b"rXYZ", xyz(SRGB.red))]);
    for offset in [u32::MAX, u32::MAX - 3, 0x8000_0000, bytes.len() as u32 - 19] {
        bytes[136..140].copy_from_slice(&offset.to_be_bytes());
        assert_eq!(icc_xyz_tag(&bytes, b"rXYZ"), None);
    }
}

#[test]
fn declared_count_is_not_trusted() {
    let mut bytes = profile(&[(b"rXYZ", xyz(SRGB.red))]);
    bytes[128..132].copy_from_slice(&u32::MAX.to_be_bytes());
    assert_eq!(icc_xyz_tag(&bytes, b"rXYZ"), Some(SRGB.red));
    assert_eq!(icc_xyz_tag(&bytes, b"gXYZ"), None);
    bytes[128..132].copy_from_slice(&0u32.to_be_bytes());
    assert_eq!(icc_xyz_tag(&bytes, b"rXYZ"), None);
}
