use gpui_windows::icc::{Primaries, Xyz};
use gpui_windows::output_color::{
    monitor_icc_profile_path, ColorProbe, ColorReply, OutputColorMode,
};

const AS_IS: OutputColorMode = OutputColorMode::DisplayReferred { primaries: None };

fn name(text: &str) -> [u16; 32] {
    let mut units = [0; 32];
    for (unit, value) in units.iter_mut().zip(text.encode_utf16()) {
        *unit = value;
    }
    units
}

/// What a pretended system says of a monitor.
struct System {
    device: Option<[u16; 32]>,
    paths: Option<Vec<(Option<[u16; 32]>, Option<u32>)>>,
    profile: Option<Vec<u8>>,
}

/// The mode that is found, and how many questions it took.
fn find(variable: Option<&str>, system: &System) -> (OutputColorMode, usize) {
    let mut probe = ColorProbe::start(variable.map(|value| value.to_string()));
    let mut asked = 0;
    loop {
        let reply = match &probe {
            ColorProbe::MonitorInfo => ColorReply::MonitorInfo(system.device),
            ColorProbe::DisplayPaths { .. } => {
                ColorReply::DisplayPaths(system.paths.as_ref().map(|paths| paths.len()))
            }
            ColorProbe::SourceName { path, .. } => {
                ColorReply::SourceName(system.paths.as_ref().unwrap()[*path].0)
            }
            ColorProbe::AdvancedColor { path, .. } => {
                ColorReply::AdvancedColor(system.paths.as_ref().unwrap()[*path].1)
            }
            ColorProbe::IccProfile { device } => {
                assert_eq!(Some(*device), system.device);
                ColorReply::IccProfile(system.profile.clone())
            }
            ColorProbe::Resolved(mode) => return (*mode, asked),
        };
        asked += 1;
        probe = probe.answer(reply);
    }
}

fn system(paths: Vec<(Option<[u16; 32]>, Option<u32>)>) -> System {
    System {
        device: Some(name("\\\\.\\DISPLAY2")),
        paths: Some(paths),
        profile: None,
    }
}

fn profile() -> (Vec<u8>, Primaries) {
    let mut bytes = vec![0u8; 128];
    bytes[36..40].copy_from_slice(b"acsp");
    bytes.extend_from_slice(&3u32.to_be_bytes());
    for (signature, offset) in [(b"rXYZ", 168u32), (b"gXYZ", 188), (b"bXYZ", 208)] {
        bytes.extend_from_slice(signature);
        bytes.extend_from_slice(&offset.to_be_bytes());
        bytes.extend_from_slice(&20u32.to_be_bytes());
    }
    for start in [1i32, 4, 7] {
        bytes.extend_from_slice(b"XYZ \0\0\0\0");
        for value in [start, start + 1, start + 2] {
            bytes.extend_from_slice(&value.to_be_bytes());
        }
    }
    let primaries = Primaries {
        red: Xyz { x: 1, y: 2, z: 3 },
        green: Xyz { x: 4, y: 5, z: 6 },
        blue: Xyz { x: 7, y: 8, z: 9 },
    };
    (bytes, primaries)
}

#[test]
fn variable_decides_alone() {
    let other = System { device: None, paths: None, profile: None };
    assert_eq!(find(Some("scrgb"), &other), (OutputColorMode::ScRgb, 0));
    let hdr = system(vec![(Some(name("\\\\.\\DISPLAY2")), Some(3))]);
    assert_eq!(find(Some("srgb"), &hdr), (AS_IS, 0));
    assert_eq!(find(Some("SRGB"), &hdr).0, OutputColorMode::ScRgb);
    assert_eq!(find(Some(""), &hdr).0, OutputColorMode::ScRgb);
}

#[test]
fn unknown_monitor_is_taken_as_it_is() {
    let system = System { device: None, paths: None, profile: Some(profile().0) };
    assert_eq!(find(None, &system), (AS_IS, 1));
}

#[test]
fn advanced_color_of_the_monitor_decides() {
    let ours = Some(name("\\\\.\\DISPLAY2"));
    let others = Some(name("\\\\.\\DISPLAY1"));
    let enabled = system(vec![(others, Some(0)), (ours, Some(2))]);
    assert_eq!(find(None, &enabled), (OutputColorMode::ScRgb, 5));
    let supported = system(vec![(others, Some(3)), (ours, Some(1))]);
    assert_eq!(find(None, &supported), (AS_IS, 6));
}

#[test]
fn first_readable_path_of_the_monitor_decides() {
    let ours = Some(name("\\\\.\\DISPLAY2"));
    let skipped = system(vec![(None, Some(3)), (ours, None), (ours, Some(3))]);
    assert_eq!(find(None, &skipped).0, OutputColorMode::ScRgb);
    let decided = system(vec![(ours, Some(1)), (ours, Some(3))]);
    assert_eq!(find(None, &decided).0, AS_IS);
}

#[test]
fn profile_is_used_without_advanced_color() {
    let (bytes, primaries) = profile();
    let mode = OutputColorMode::DisplayReferred { primaries: Some(primaries) };
    let mut system = system(vec![]);
    system.profile = Some(bytes);
    assert_eq!(find(None, &system).0, mode);
    system.paths = None;
    assert_eq!(find(None, &system), (mode, 3));
    system.profile = Some(vec![1, 2, 3]);
    assert_eq!(find(None, &system).0, AS_IS);
}

#[test]
fn answer_to_another_question_changes_nothing() {
    let probe = ColorProbe::start(None).answer(ColorReply::DisplayPaths(Some(4)));
    assert!(matches!(probe, ColorProbe::MonitorInfo));
    let probe = ColorProbe::start(Some("srgb".to_string())).answer(ColorReply::MonitorInfo(None));
    assert!(matches!(probe, ColorProbe::Resolved(mode) if mode == AS_IS));
}

#[test]
fn profile_path_is_read_from_the_buffer() {
    let mut buffer: Vec<u16> = "C:\\spool\\sRGB.icm".encode_utf16().collect();
    buffer.extend_from_slice(&[0, 0, 7]);
    assert_eq!(
        monitor_icc_profile_path(20, Some(buffer.clone())),
        Some("C:\\spool\\sRGB.icm".to_string())
    );
    assert_eq!(monitor_icc_profile_path(0, Some(buffer)), None);
    assert_eq!(monitor_icc_profile_path(20, None), None);
    assert_eq!(
        monitor_icc_profile_path(2, Some(vec![0xd834, 97])),
        Some("\u{fffd}a".to_string())
    );
}
