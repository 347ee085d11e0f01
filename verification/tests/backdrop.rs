use gpui_windows::backdrop::{
    accent_policy, backdrop_request, system_backdrop, AccentPolicy, BackdropRequest,
    WindowBackgroundAppearance,
};

#[test]
fn appearances_are_asked_for() {
    assert_eq!(
        backdrop_request(WindowBackgroundAppearance::Opaque),
        BackdropRequest::Accent { color: None, state: 0 }
    );
    assert_eq!(
        backdrop_request(WindowBackgroundAppearance::Transparent),
        BackdropRequest::Accent { color: None, state: 2 }
    );
    assert_eq!(
        backdrop_request(WindowBackgroundAppearance::Blurred),
        BackdropRequest::Accent { color: Some((0, 0, 0, 0)), state: 4 }
    );
    assert_eq!(
        backdrop_request(WindowBackgroundAppearance::MicaBackdrop),
        BackdropRequest::SystemBackdrop(2)
    );
    assert_eq!(
        backdrop_request(WindowBackgroundAppearance::MicaAltBackdrop),
        BackdropRequest::SystemBackdrop(4)
    );
}

#[test]
fn blur_gets_some_alpha() {
    assert_eq!(
        accent_policy(Some(22000), Some((0, 0, 0, 0)), 4),
        Some(AccentPolicy {
            accent_state: 4,
            accent_flags: 0,
            gradient_color: 0x0100_0000,
            animation_id: 0,
        })
    );
    assert_eq!(
        accent_policy(Some(22000), None, 4).unwrap().gradient_color,
        0x0100_0000
    );
}

#[test]
fn colors_are_packed() {
    let policy = accent_policy(Some(17763), Some((0x11, 0x22, 0x33, 0x44)), 2).unwrap();
    assert_eq!(policy.gradient_color, 0x4433_2211);
    assert_eq!(policy.accent_flags, 2);
    assert_eq!(policy.accent_state, 2);
    let policy = accent_policy(Some(17763), Some((0xff, 0xff, 0xff, 0xff)), 4).unwrap();
    assert_eq!(policy.gradient_color, 0xffff_ffff);
    assert_eq!(accent_policy(Some(17763), None, 0).unwrap().gradient_color, 0);
}

#[test]
fn old_builds_have_no_backgrounds() {
    assert_eq!(accent_policy(Some(17762), None, 0), None);
    assert_eq!(accent_policy(None, None, 0), None);
    assert_eq!(system_backdrop(Some(22620), 2), None);
    assert_eq!(system_backdrop(None, 2), None);
    assert_eq!(system_backdrop(Some(22621), 2), Some(2));
}
