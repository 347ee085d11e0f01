//! What shows through the background of a window.

use vstd::prelude::*;

verus! {

/// What shows through the background of a window.
#[derive(Clone, Copy, Debug, PartialEq, Eq, Structural)]
pub enum WindowBackgroundAppearance {
    Opaque,
    Transparent,
    Blurred,
    MicaBackdrop,
    MicaAltBackdrop,
}

/// A color: red, green, blue and alpha.
pub type Color = (u8, u8, u8, u8);

/// The accent policy that the compositor takes for a window.
#[derive(Clone, Copy, Debug, PartialEq, Eq, Structural)]
pub struct AccentPolicy {
    pub accent_state: u32,
    pub accent_flags: u32,
    pub gradient_color: u32,
    pub animation_id: u32,
}

/// How the background of a window is asked for.
#[derive(Clone, Copy, Debug, PartialEq, Eq)]
pub enum BackdropRequest {
    /// By an accent policy with this state and color.
    Accent { color: Option<Color>, state: u32 },
    /// By a backdrop of the system.
    SystemBackdrop(u32),
}

/// The accent state that blurs what is behind the window.
pub const ACCENT_ACRYLIC: u32 = 4;

/// The first build of Windows that takes accent policies.
pub const FIRST_ACCENT_BUILD: u32 = 17763;

/// The first build of Windows that has backdrops of its own.
pub const FIRST_BACKDROP_BUILD: u32 = 22621;

/// How a background is asked for.
pub open spec fn request_of(appearance: WindowBackgroundAppearance) -> BackdropRequest {
    match appearance {
        WindowBackgroundAppearance::Opaque => BackdropRequest::Accent { color: None, state: 0 },
        WindowBackgroundAppearance::Transparent => BackdropRequest::Accent {
            color: None,
            state: 2,
        },
        WindowBackgroundAppearance::Blurred => BackdropRequest::Accent {
            color: Some((0, 0, 0, 0)),
            state: ACCENT_ACRYLIC,
        },
        WindowBackgroundAppearance::MicaBackdrop => BackdropRequest::SystemBackdrop(2),
        WindowBackgroundAppearance::MicaAltBackdrop => BackdropRequest::SystemBackdrop(4),
    }
}

/// How a background is asked for.
pub fn backdrop_request(appearance: WindowBackgroundAppearance) -> (request: BackdropRequest)
    ensures
        request == request_of(appearance),
{
    match appearance {
        WindowBackgroundAppearance::Opaque => BackdropRequest::Accent { color: None, state: 0 },
        WindowBackgroundAppearance::Transparent => BackdropRequest::Accent {
            color: None,
            state: 2,
        },
        WindowBackgroundAppearance::Blurred => BackdropRequest::Accent {
            color: Some((0, 0, 0, 0)),
            state: ACCENT_ACRYLIC,
        },
        // The base material of main windows.
        WindowBackgroundAppearance::MicaBackdrop => BackdropRequest::SystemBackdrop(2),
        // The material of tabbed windows.
        WindowBackgroundAppearance::MicaAltBackdrop => BackdropRequest::SystemBackdrop(4),
    }
}

/// The color that an accent state is set up with: black without alpha where none is given. An
/// acrylic background without any alpha would not be drawn, so it gets the least there is.
pub open spec fn accent_color(color: Option<Color>, state: u32) -> Color {
    let given = match color {
        Some(color) => color,
        None => (0u8, 0u8, 0u8, 0u8),
    };
    if state == ACCENT_ACRYLIC && given.3 == 0 {
        (given.0, given.1, given.2, 1u8)
    } else {
        given
    }
}

/// A color as one number: red in the lowest byte, alpha in the highest.
pub open spec fn packed_color(color: Color) -> int {
    color.0 + 0x100 * color.1 + 0x1_0000 * color.2 + 0x100_0000 * color.3
}

/// The accent policy for a color and a state, given the build of Windows where it is known.
pub open spec fn policy_of(build: Option<u32>, color: Option<Color>, state: u32) -> Option<
    AccentPolicy,
> {
    match build {
        Some(build) => if build >= FIRST_ACCENT_BUILD {
            Some(
                AccentPolicy {
                    accent_state: state,
                    accent_flags: if state == ACCENT_ACRYLIC {
                        0
                    } else {
                        2
                    },
                    gradient_color: packed_color(accent_color(color, state)) as u32,
                    animation_id: 0,
                },
            )
        } else {
            None
        },
        None => None,
    }
}

/// The accent policy for a color and a state, given the build of Windows where it is known.
/// `None` where the build has no accent policies.
pub fn accent_policy(build: Option<u32>, color: Option<Color>, state: u32) -> (policy: Option<
    AccentPolicy,
>)
    ensures
        policy == policy_of(build, color, state),
        policy is Some <==> (build matches Some(build) && build >= FIRST_ACCENT_BUILD),
        policy matches Some(policy) ==> {
            &&& policy.accent_state == state
            &&& policy.accent_flags == (if state == ACCENT_ACRYLIC {
                0u32
            } else {
                2u32
            })
            &&& policy.gradient_color == packed_color(accent_color(color, state))
            &&& policy.animation_id == 0
        },
{
    match build {
        Some(build) => {
            if build < FIRST_ACCENT_BUILD {
                return None;
            }
        },
        None => {
            return None;
        },
    }
    let mut color: Color = match color {
        Some(color) => color,
        None => (0, 0, 0, 0),
    };
    let is_acrylic: bool = state == ACCENT_ACRYLIC;
    if is_acrylic && color.3 == 0 {
        color.3 = 1;
    }
    let red: u32 = color.0 as u32;
    let green: u32 = color.1 as u32;
    let blue: u32 = color.2 as u32;
    let alpha: u32 = color.3 as u32;
    assert(red < 0x100 && green < 0x100 && blue < 0x100 && alpha < 0x100 ==> red | (green << 8) | (
    blue << 16) | (alpha << 24) == red + 0x100 * green + 0x1_0000 * blue + 0x100_0000 * alpha)
        by (bit_vector);
    Some(
        AccentPolicy {
            accent_state: state,
            accent_flags: if is_acrylic {
                0
            } else {
                2
            },
            gradient_color: red | (green << 8) | (blue << 16) | (alpha << 24),
            animation_id: 0,
        },
    )
}

/// The backdrop of the system to set, given the build of Windows where it is known.
pub open spec fn backdrop_of(build: Option<u32>, backdrop_type: u32) -> Option<u32> {
    match build {
        Some(build) => if build >= FIRST_BACKDROP_BUILD {
            Some(backdrop_type)
        } else {
            None
        },
        None => None,
    }
}

/// The backdrop of the system to set, given the build of Windows where it is known. `None`
/// where the build has no backdrops.
pub fn system_backdrop(build: Option<u32>, backdrop_type: u32) -> (backdrop: Option<u32>)
    ensures
        backdrop == backdrop_of(build, backdrop_type),
        backdrop == (if build matches Some(build) && build >= FIRST_BACKDROP_BUILD {
            Some(backdrop_type)
        } else {
            None
        }),
{
    match build {
        Some(build) => if build < FIRST_BACKDROP_BUILD {
            None
        } else {
            Some(backdrop_type)
        },
        None => None,
    }
}

proof fn lemma_lowest_byte(low: int, high: int)
    requires
        0 <= low < 0x100,
        0 <= high,
    ensures
        (low + 0x100 * high) % 0x100 == low,
        (low + 0x100 * high) / 0x100 == high,
{
}

/// The components of a color can be read back from the number.
pub proof fn law_packed_color_unpacks(color: Color)
    ensures
        packed_color(color) % 0x100 == color.0,
        (packed_color(color) / 0x100) % 0x100 == color.1,
        (packed_color(color) / 0x100 / 0x100) % 0x100 == color.2,
        packed_color(color) / 0x100 / 0x100 / 0x100 == color.3,
{
    let above_green: int = color.2 + 0x100 * color.3;
    let above_red: int = color.1 + 0x100 * above_green;
    assert(packed_color(color) == color.0 + 0x100 * above_red);
    lemma_lowest_byte(color.0 as int, above_red);
    lemma_lowest_byte(color.1 as int, above_green);
    lemma_lowest_byte(color.2 as int, color.3 as int);
}

/// An acrylic background always has some alpha.
pub proof fn law_acrylic_has_alpha(color: Option<Color>)
    ensures
        accent_color(color, ACCENT_ACRYLIC).3 > 0,
{
}

/// Mica comes from the system, in its two kinds; all else by an accent, and only a blur is given
/// a color. No two backgrounds are asked for alike.
pub proof fn law_backgrounds_are_asked_for_apart(
    left: WindowBackgroundAppearance,
    right: WindowBackgroundAppearance,
)
    ensures
        request_of(left) == request_of(right) ==> left == right,
        request_of(left) is SystemBackdrop <==> left is MicaBackdrop || left is MicaAltBackdrop,
        request_of(left) matches BackdropRequest::SystemBackdrop(kind) ==> {
            &&& kind == 2 <==> left is MicaBackdrop
            &&& kind == 4 <==> left is MicaAltBackdrop
        },
        request_of(left) matches BackdropRequest::Accent { color, state } ==> {
            &&& state == 0 <==> left is Opaque
            &&& state == 2 <==> left is Transparent
            &&& state == 4 <==> left is Blurred
            &&& color is Some <==> left is Blurred
            &&& color matches Some(color) ==> color == (0u8, 0u8, 0u8, 0u8)
        },
{
}

/// An accent keeps the color that it is given, black without alpha where it is given none. Only
/// an acrylic one without alpha gets some: the least there is.
pub proof fn law_accent_keeps_its_color(color: Color, state: u32)
    ensures
        accent_color(Some(color), state).0 == color.0,
        accent_color(Some(color), state).1 == color.1,
        accent_color(Some(color), state).2 == color.2,
        state != 4 || color.3 != 0 ==> accent_color(Some(color), state).3 == color.3,
        state == 4 && color.3 == 0 ==> accent_color(Some(color), state).3 == 1,
        accent_color(None, state) == accent_color(Some((0u8, 0u8, 0u8, 0u8)), state),
{
}

/// There is an accent policy exactly on the builds that have them, the same on all. It has the
/// state that is asked for and the color of the accent, byte by byte.
pub proof fn law_accent_policy_is_as_asked(build: u32, color: Option<Color>, state: u32)
    ensures
        policy_of(None, color, state) is None,
        policy_of(Some(build), color, state) is Some <==> build >= 17763,
        policy_of(Some(build), color, state) matches Some(policy) ==> {
            let packed = policy.gradient_color;
            &&& policy.accent_state == state
            &&& policy.accent_flags == 0 <==> state == 4
            &&& policy.accent_flags == 2 <==> state != 4
            &&& policy.animation_id == 0
            &&& packed % 0x100 == accent_color(color, state).0
            &&& (packed / 0x100) % 0x100 == accent_color(color, state).1
            &&& (packed / 0x100 / 0x100) % 0x100 == accent_color(color, state).2
            &&& packed / 0x100 / 0x100 / 0x100 == accent_color(color, state).3
        },
{
    law_packed_color_unpacks(accent_color(color, state));
}

/// The backdrop that is asked for is set exactly on the builds that have backdrops.
pub proof fn law_backdrop_is_as_asked(build: u32, backdrop_type: u32)
    ensures
        backdrop_of(None, backdrop_type) is None,
        backdrop_of(Some(build), backdrop_type) == Some(backdrop_type) <==> build >= 22621,
        backdrop_of(Some(build), backdrop_type) is None <==> build < 22621,
{
}

} // verus!
