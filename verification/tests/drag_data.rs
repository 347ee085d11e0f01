use gpui_windows::drag_data::{
    file_drag_data_object, hdrop_payload, hglobal_format, private_drag_data_object,
    private_drag_format_name, registered_format, start_external_drag, DataObjectError, DragPath,
    ExternalDragPayload, FormatEtc, WindowsDragDataObject, CF_HDROP, DATADIR_GET,
};

fn text(path: &str) -> DragPath {
    DragPath::Text(path.to_string())
}

/// The names in a file list, as a reader of the format finds them.
fn listed(bytes: &[u8]) -> Vec<Vec<u16>> {
    let start = u32::from_le_bytes(bytes[0..4].try_into().unwrap()) as usize;
    let units: Vec<u16> = bytes[start..]
        .chunks(2)
        .map(|pair| u16::from_le_bytes([pair[0], pair[1]]))
        .collect();
    let mut names = Vec::new();
    let mut rest = units.as_slice();
    while rest[0] != 0 {
        let end = rest.iter().position(|unit| *unit == 0).unwrap();
        names.push(rest[..end].to_vec());
        rest = &rest[end + 1..];
    }
    names
}

#[test]
fn file_list_bytes() {
    let bytes = hdrop_payload(&vec![vec![0x43, 0x3a], vec![0x1234]]);
    assert_eq!(
        bytes,
        vec![
            20, 0, 0, 0, 0, 0, 0, 0, 0, 0, 0, 0, 0, 0, 0, 0, 1, 0, 0, 0, // header
            0x43, 0, 0x3a, 0, 0, 0, // first name
            0x34, 0x12, 0, 0, // second name
            0, 0, // end
        ]
    );
}

#[test]
fn empty_file_list_is_only_its_end() {
    assert_eq!(hdrop_payload(&vec![]).len(), 22);
}

#[test]
fn file_list_reads_back() {
    let object = file_drag_data_object(&vec![
        text("C:\\foo\\😀.txt"),
        DragPath::Wide(vec![67, 58, 92, 0xd800]),
        text("/tmp/b"),
    ]);
    assert_eq!(object.formats.len(), 1);
    assert_eq!(object.formats[0].0, CF_HDROP);
    let expected: Vec<Vec<u16>> = vec![
        "C:\\foo\\😀.txt".encode_utf16().collect(),
        vec![67, 58, 92, 0xd800],
        "/tmp/b".encode_utf16().collect(),
    ];
    assert_eq!(listed(&object.formats[0].1), expected);
}

#[test]
fn verbatim_path_is_kept_or_loses_its_prefix() {
    let verbatim = "\\\\?\\C:\\Windows";
    let object = file_drag_data_object(&vec![text(verbatim)]);
    let name = String::from_utf16(&listed(&object.formats[0].1)[0]).unwrap();
    assert!(name == verbatim || name == "C:\\Windows");
    let shortened = dunce::simplified(std::path::Path::new(verbatim));
    assert_eq!(name, shortened.to_str().unwrap());
}

#[test]
fn form_of_a_path_does_not_matter() {
    for path in ["\\\\?\\C:\\Windows", "\\\\?\\C:\\COM1", "C:\\😀", ""] {
        let wide = DragPath::Wide(path.encode_utf16().collect());
        assert_eq!(
            file_drag_data_object(&vec![wide]).formats,
            file_drag_data_object(&vec![text(path)]).formats
        );
    }
}

#[test]
fn object_serves_what_it_lists() {
    let object = WindowsDragDataObject {
        formats: vec![(49161, vec![1]), (CF_HDROP, vec![2, 3]), (49161, vec![4])],
    };
    let listed = object.enum_format_etc(DATADIR_GET).unwrap();
    assert_eq!(
        listed,
        vec![hglobal_format(49161), hglobal_format(CF_HDROP), hglobal_format(49161)]
    );
    for format in listed {
        assert_eq!(object.query_get_data(Some(format)), Ok(()));
    }
    assert_eq!(object.payload(Some(hglobal_format(49161))), Some(&[1u8][..]));
    assert_eq!(object.get_data(Some(hglobal_format(CF_HDROP))), Ok(&[2u8, 3][..]));
    assert_eq!(object.enum_format_etc(2), Err(DataObjectError::NotImplemented));
}

#[test]
fn object_turns_other_requests_down() {
    let object = WindowsDragDataObject { formats: vec![(CF_HDROP, vec![1])] };
    let content = hglobal_format(CF_HDROP);
    assert_eq!(
        content,
        FormatEtc { format: 15, aspect: 1, index: -1, tymed: 1 }
    );
    assert_eq!(object.payload(None), None);
    assert_eq!(object.payload(Some(FormatEtc { aspect: 4, ..content })), None);
    assert_eq!(object.payload(Some(FormatEtc { tymed: 4, ..content })), None);
    assert_eq!(object.payload(Some(FormatEtc { tymed: 5, ..content })), Some(&[1u8][..]));
    assert_eq!(object.payload(Some(FormatEtc { index: 3, ..content })), Some(&[1u8][..]));
    assert_eq!(
        object.query_get_data(Some(hglobal_format(13))),
        Err(DataObjectError::FormatEtc)
    );
    assert_eq!(
        object.get_data(Some(hglobal_format(13))),
        Err(DataObjectError::FormatEtc)
    );
}

#[test]
fn private_drag_offers_its_format_only() {
    let object = private_drag_data_object(Some(49200)).unwrap();
    assert_eq!(object.formats, vec![(49200, b"gpui".to_vec())]);
    assert_eq!(
        object.query_get_data(Some(hglobal_format(CF_HDROP))),
        Err(DataObjectError::FormatEtc)
    );
    assert!(private_drag_data_object(None).is_none());
}

#[test]
fn drags_start_or_are_declined() {
    let none = ExternalDragPayload::Files(vec![]);
    assert!(start_external_drag(&none, Some(49200)).is_none());
    let files = ExternalDragPayload::Files(vec![text("C:\\a")]);
    let start = start_external_drag(&files, None).unwrap();
    assert!(start.use_default_cursors);
    assert_eq!(start.data_object.formats[0].0, CF_HDROP);
    let start = start_external_drag(&ExternalDragPayload::AppPrivate, Some(49200)).unwrap();
    assert!(!start.use_default_cursors);
    assert_eq!(start.data_object.formats[0].0, 49200);
    assert!(start_external_drag(&ExternalDragPayload::AppPrivate, None).is_none());
}

#[test]
fn private_format_is_named_after_the_application() {
    assert_eq!(
        private_drag_format_name(Some("zed.exe".to_string())),
        "app.gpui.private-drag.zed.exe"
    );
    assert_eq!(
        private_drag_format_name(None),
        "app.gpui.private-drag.unknown"
    );
    assert_ne!(
        private_drag_format_name(Some("a".to_string())),
        private_drag_format_name(Some("b".to_string()))
    );
}

#[test]
fn registration_may_fail() {
    assert_eq!(registered_format(0), None);
    assert_eq!(registered_format(0xc00f), Some(0xc00f));
    assert_eq!(registered_format(0x1_c00f), Some(0xc00f));
    assert_eq!(registered_format(0x1_0000), Some(0));
}
