//! How the final present pass hands pixels to the compositor of a monitor.
//!
//! Where the monitor has advanced color enabled (HDR or Auto Color Management) the pixels are
//! scene-referred and the system maps them to the panel. Otherwise they are display-referred,
//! converted by a matrix that follows from the primaries of the monitor's ICC profile. The
//! transfer curves of the profile are not used: sRGB's is assumed.

use crate::icc::{primaries_from_icc, Primaries};
use crate::text::decode_buffer;
use vstd::prelude::*;

verus! {

/// How the final present pass hands pixels to the compositor.
#[derive(Clone, Copy, Debug, PartialEq, Eq, Structural)]
pub enum OutputColorMode {
    /// Advanced color: the swap chain holds scRGB and the system manages color.
    ScRgb,
    /// The swap chain holds display-referred values, mapped from linear sRGB to the gamut with
    /// these primaries. Without primaries the values are kept as they are.
    DisplayReferred { primaries: Option<Primaries> },
}

/// The question that has to be answered next to find the color mode of a monitor, or the mode
/// once it is found. `device` is the monitor's GDI device name.
pub enum ColorProbe {
    /// What is the device name of the monitor?
    MonitorInfo,
    /// How many display paths are active?
    DisplayPaths { device: [u16; 32] },
    /// What is the device name of the source of this path?
    SourceName { device: [u16; 32], path_count: usize, path: usize },
    /// What are the advanced color flags of the target of this path?
    AdvancedColor { device: [u16; 32], path_count: usize, path: usize },
    /// What are the bytes of the ICC profile of the monitor?
    IccProfile { device: [u16; 32] },
    /// The color mode is known.
    Resolved(OutputColorMode),
}

/// An answer to a [`ColorProbe`]. `None` says that the system did not give one.
pub enum ColorReply {
    MonitorInfo(Option<[u16; 32]>),
    DisplayPaths(Option<usize>),
    SourceName(Option<[u16; 32]>),
    AdvancedColor(Option<u32>),
    IccProfile(Option<Vec<u8>>),
}

/// The mode that `GPUI_COLOR_MODE` asks for, whatever the monitor is.
pub open spec fn color_override(value: Option<Seq<char>>) -> Option<OutputColorMode> {
    if value == Some("scrgb"@) {
        Some(OutputColorMode::ScRgb)
    } else if value == Some("srgb"@) {
        Some(OutputColorMode::DisplayReferred { primaries: None })
    } else {
        None
    }
}

/// Whether the flags of a path's target say that advanced color is enabled: the bit above the
/// lowest, which says that it is supported.
pub open spec fn advanced_color_flag(flags: u32) -> bool {
    (flags / 2) % 2 == 1
}

/// The colorants of a monitor whose profile may be missing or unreadable.
pub open spec fn primaries_of(profile: Option<Seq<u8>>) -> Option<Primaries> {
    match profile {
        Some(bytes) => crate::icc::profile_primaries(bytes),
        None => None,
    }
}

/// The text of an optional string.
pub open spec fn text_of(value: Option<String>) -> Option<Seq<char>> {
    match value {
        Some(text) => Some(text@),
        None => None,
    }
}

impl ColorProbe {
    /// The first question, given the value of `GPUI_COLOR_MODE`.
    pub open spec fn started(value: Option<Seq<char>>) -> ColorProbe {
        match color_override(value) {
            Some(mode) => ColorProbe::Resolved(mode),
            None => ColorProbe::MonitorInfo,
        }
    }

    /// The question about a path, or about the profile where no path is left.
    pub open spec fn at_path(device: [u16; 32], path_count: usize, path: int) -> ColorProbe {
        if path < path_count {
            ColorProbe::SourceName { device, path_count, path: path as usize }
        } else {
            ColorProbe::IccProfile { device }
        }
    }

    /// What follows on an answer. An answer to another question changes nothing.
    pub open spec fn after(self, reply: ColorReply) -> ColorProbe {
        match (self, reply) {
            (ColorProbe::MonitorInfo, ColorReply::MonitorInfo(Some(device))) =>
                ColorProbe::DisplayPaths { device },
            (ColorProbe::MonitorInfo, ColorReply::MonitorInfo(None)) => ColorProbe::Resolved(
                OutputColorMode::DisplayReferred { primaries: None },
            ),
            (ColorProbe::DisplayPaths { device }, ColorReply::DisplayPaths(Some(path_count))) =>
                Self::at_path(device, path_count, 0),
            (ColorProbe::DisplayPaths { device }, ColorReply::DisplayPaths(None)) =>
                ColorProbe::IccProfile { device },
            (
                ColorProbe::SourceName { device, path_count, path },
                ColorReply::SourceName(Some(name)),
            ) => if name@ == device@ {
                ColorProbe::AdvancedColor { device, path_count, path }
            } else {
                Self::at_path(device, path_count, path + 1)
            },
            (ColorProbe::SourceName { device, path_count, path }, ColorReply::SourceName(None)) =>
                Self::at_path(device, path_count, path + 1),
            (
                ColorProbe::AdvancedColor { device, path_count, path },
                ColorReply::AdvancedColor(Some(flags)),
            ) => if advanced_color_flag(flags) {
                ColorProbe::Resolved(OutputColorMode::ScRgb)
            } else {
                ColorProbe::IccProfile { device }
            },
            (
                ColorProbe::AdvancedColor { device, path_count, path },
                ColorReply::AdvancedColor(None),
            ) => Self::at_path(device, path_count, path + 1),
            (ColorProbe::IccProfile { device }, ColorReply::IccProfile(Some(bytes))) =>
                ColorProbe::Resolved(
                    OutputColorMode::DisplayReferred { primaries: primaries_of(Some(bytes@)) },
                ),
            (ColorProbe::IccProfile { device }, ColorReply::IccProfile(None)) =>
                ColorProbe::Resolved(OutputColorMode::DisplayReferred { primaries: None }),
            _ => self,
        }
    }

    /// Starts with the value of the environment variable `GPUI_COLOR_MODE`, if it is set.
    pub fn start(value: Option<String>) -> (probe: ColorProbe)
        ensures
            probe == Self::started(text_of(value)),
    {
        match value {
            Some(text) => {
                if text == "scrgb".to_owned() {
                    ColorProbe::Resolved(OutputColorMode::ScRgb)
                } else if text == "srgb".to_owned() {
                    ColorProbe::Resolved(OutputColorMode::DisplayReferred { primaries: None })
                } else {
                    ColorProbe::MonitorInfo
                }
            },
            None => ColorProbe::MonitorInfo,
        }
    }

    fn next_path(device: [u16; 32], path_count: usize, path: usize) -> (probe: ColorProbe)
        ensures
            probe == Self::at_path(device, path_count, path + 1),
    {
        if path_count > 0 && path < path_count - 1 {
            ColorProbe::SourceName { device, path_count, path: path + 1 }
        } else {
            ColorProbe::IccProfile { device }
        }
    }

    /// Takes the answer to this question to the next one.
    pub fn answer(self, reply: ColorReply) -> (probe: ColorProbe)
        ensures
            probe == self.after(reply),
    {
        match self {
            ColorProbe::MonitorInfo => match reply {
                ColorReply::MonitorInfo(Some(device)) => ColorProbe::DisplayPaths { device },
                ColorReply::MonitorInfo(None) => ColorProbe::Resolved(
                    OutputColorMode::DisplayReferred { primaries: None },
                ),
                _ => ColorProbe::MonitorInfo,
            },
            ColorProbe::DisplayPaths { device } => match reply {
                ColorReply::DisplayPaths(Some(path_count)) => if path_count > 0 {
                    ColorProbe::SourceName { device, path_count, path: 0 }
                } else {
                    ColorProbe::IccProfile { device }
                },
                ColorReply::DisplayPaths(None) => ColorProbe::IccProfile { device },
                _ => ColorProbe::DisplayPaths { device },
            },
            ColorProbe::SourceName { device, path_count, path } => match reply {
                ColorReply::SourceName(Some(name)) => if same_name(&name, &device) {
                    ColorProbe::AdvancedColor { device, path_count, path }
                } else {
                    Self::next_path(device, path_count, path)
                },
                ColorReply::SourceName(None) => Self::next_path(device, path_count, path),
                _ => ColorProbe::SourceName { device, path_count, path },
            },
            ColorProbe::AdvancedColor { device, path_count, path } => match reply {
                ColorReply::AdvancedColor(Some(flags)) => {
                    assert((flags & 0x2 != 0) == ((flags / 2) % 2 == 1)) by (bit_vector);
                    if flags & 0x2 != 0 {
                        ColorProbe::Resolved(OutputColorMode::ScRgb)
                    } else {
                        ColorProbe::IccProfile { device }
                    }
                },
                ColorReply::AdvancedColor(None) => Self::next_path(device, path_count, path),
                _ => ColorProbe::AdvancedColor { device, path_count, path },
            },
            ColorProbe::IccProfile { device } => match reply {
                ColorReply::IccProfile(Some(bytes)) => ColorProbe::Resolved(
                    OutputColorMode::DisplayReferred {
                        primaries: primaries_from_icc(bytes.as_slice()),
                    },
                ),
                ColorReply::IccProfile(None) => ColorProbe::Resolved(
                    OutputColorMode::DisplayReferred { primaries: None },
                ),
                _ => ColorProbe::IccProfile { device },
            },
            ColorProbe::Resolved(mode) => ColorProbe::Resolved(mode),
        }
    }
}

/// The path of the monitor's ICC profile, from the buffer that the system filled with it.
pub open spec fn profile_path(required_len: u32, filled: Option<Seq<u16>>) -> Option<Seq<char>> {
    match filled {
        Some(units) => if required_len > 0 {
            Some(crate::text::utf16_lossy(crate::text::before_nul(units)))
        } else {
            None
        },
        None => None,
    }
}

/// The path of the monitor's ICC profile, from the buffer that the system filled with it. `None`
/// where the monitor has none: the system asked for no room, or did not fill the buffer.
pub fn monitor_icc_profile_path(required_len: u32, filled: Option<Vec<u16>>) -> (path: Option<
    String,
>)
    ensures
        (match path {
            Some(path) => Some(path@),
            None => None,
        }) == profile_path(
            required_len,
            match filled {
                Some(filled) => Some(filled@),
                None => None,
            },
        ),
        path is Some <==> required_len > 0 && filled is Some,
        path matches Some(path) ==> {
            &&& path@ == crate::text::utf16_lossy(crate::text::before_nul(filled->0@))
            &&& !path@.contains('\0')
        },
{
    if required_len == 0 {
        return None;
    }
    match filled {
        Some(buffer) => Some(decode_buffer(buffer.as_slice())),
        None => None,
    }
}

fn same_name(left: &[u16; 32], right: &[u16; 32]) -> (same: bool)
    ensures
        same == (left@ == right@),
{
    let mut i: usize = 0;
    while i < 32
        invariant
            i <= 32,
            forall|j: int| 0 <= j < i ==> left@[j] == right@[j],
        decreases 32 - i,
    {
        if left[i] != right[i] {
            return false;
        }
        i = i + 1;
    }
    assert(left@ =~= right@);
    true
}

/// What the system would say of a monitor, for as long as it says the same.
pub struct MonitorFacts {
    /// The monitor's GDI device name.
    pub device: Option<Seq<u16>>,
    /// How many display paths are active.
    pub path_count: Option<usize>,
    /// The device name of the source of a path.
    pub source_name: spec_fn(int) -> Option<Seq<u16>>,
    /// The advanced color flags of the target of a path.
    pub color_flags: spec_fn(int) -> Option<u32>,
    /// The bytes of the monitor's ICC profile.
    pub profile: Option<Seq<u8>>,
}

impl MonitorFacts {
    /// Whether advanced color is enabled, as the paths from `path` on have it: the first one
    /// with the device's name whose flags can be read decides.
    pub open spec fn advanced_color_from(self, device: Seq<u16>, path: int) -> bool
        decreases (match self.path_count {
            Some(count) => count,
            None => 0,
        }) - path,
    {
        match self.path_count {
            Some(count) => if path >= count {
                false
            } else {
                match ((self.source_name)(path) == Some(device), (self.color_flags)(path)) {
                    (true, Some(flags)) => advanced_color_flag(flags),
                    _ => self.advanced_color_from(device, path + 1),
                }
            },
            None => false,
        }
    }

    /// The mode of a monitor with a device name, as the paths from `path` on have it.
    pub open spec fn mode_from(self, device: Seq<u16>, path: int) -> OutputColorMode {
        if self.advanced_color_from(device, path) {
            OutputColorMode::ScRgb
        } else {
            OutputColorMode::DisplayReferred { primaries: primaries_of(self.profile) }
        }
    }

    /// The mode of the monitor.
    pub open spec fn mode(self) -> OutputColorMode {
        match self.device {
            Some(device) => self.mode_from(device, 0),
            None => OutputColorMode::DisplayReferred { primaries: None },
        }
    }

    /// Whether a reply says what the system says to the question.
    pub open spec fn told(self, probe: ColorProbe, reply: ColorReply) -> bool {
        match (probe, reply) {
            (ColorProbe::MonitorInfo, ColorReply::MonitorInfo(name)) => self.device == (
            match name {
                Some(device) => Some(device@),
                None => None,
            }),
            (ColorProbe::DisplayPaths { .. }, ColorReply::DisplayPaths(count)) => self.path_count
                == count,
            (ColorProbe::SourceName { path, .. }, ColorReply::SourceName(name)) => (
            self.source_name)(path as int) == (match name {
                Some(device) => Some(device@),
                None => None,
            }),
            (ColorProbe::AdvancedColor { path, .. }, ColorReply::AdvancedColor(flags)) => (
            self.color_flags)(path as int) == flags,
            (ColorProbe::IccProfile { .. }, ColorReply::IccProfile(bytes)) => self.profile == (
            match bytes {
                Some(bytes) => Some(bytes@),
                None => None,
            }),
            _ => false,
        }
    }

    /// Whether a question takes up what the system said before it.
    pub open spec fn led_to(self, probe: ColorProbe) -> bool {
        match probe {
            ColorProbe::MonitorInfo => true,
            ColorProbe::DisplayPaths { device } => self.device == Some(device@),
            ColorProbe::SourceName { device, path_count, path } => {
                &&& self.device == Some(device@)
                &&& self.path_count == Some(path_count)
                &&& path < path_count
            },
            ColorProbe::AdvancedColor { device, path_count, path } => {
                &&& self.device == Some(device@)
                &&& self.path_count == Some(path_count)
                &&& path < path_count
                &&& (self.source_name)(path as int) == Some(device@)
            },
            ColorProbe::IccProfile { device } => self.device == Some(device@),
            ColorProbe::Resolved(_) => true,
        }
    }

    /// The mode that the questions from `probe` on lead to.
    pub open spec fn outcome(self, probe: ColorProbe) -> OutputColorMode {
        match probe {
            ColorProbe::MonitorInfo => self.mode(),
            ColorProbe::DisplayPaths { device } => self.mode_from(device@, 0),
            ColorProbe::SourceName { device, path, .. } => self.mode_from(device@, path as int),
            ColorProbe::AdvancedColor { device, path, .. } => self.mode_from(device@, path as int),
            ColorProbe::IccProfile { .. } => OutputColorMode::DisplayReferred {
                primaries: primaries_of(self.profile),
            },
            ColorProbe::Resolved(mode) => mode,
        }
    }

    /// How many questions may follow.
    pub open spec fn questions_left(self, probe: ColorProbe) -> int {
        match probe {
            ColorProbe::MonitorInfo => 3 + self.questions_on_paths(0),
            ColorProbe::DisplayPaths { .. } => 2 + self.questions_on_paths(0),
            ColorProbe::SourceName { path, .. } => 1 + self.questions_on_paths(path as int),
            ColorProbe::AdvancedColor { path, .. } => self.questions_on_paths(path as int),
            ColorProbe::IccProfile { .. } => 1,
            ColorProbe::Resolved(_) => 0,
        }
    }

    /// Two questions for each path from `path` on.
    pub open spec fn questions_on_paths(self, path: int) -> int {
        match self.path_count {
            Some(count) => if path <= count {
                2 * (count - path)
            } else {
                0
            },
            None => 0,
        }
    }
}

/// Every true answer keeps the mode that the questions lead to and brings it closer.
pub proof fn law_answer_keeps_outcome(facts: MonitorFacts, probe: ColorProbe, reply: ColorReply)
    requires
        facts.led_to(probe),
        facts.told(probe, reply),
    ensures
        facts.led_to(probe.after(reply)),
        facts.outcome(probe.after(reply)) == facts.outcome(probe),
        facts.questions_left(probe.after(reply)) < facts.questions_left(probe),
        facts.questions_left(probe.after(reply)) >= 0,
{
    reveal_with_fuel(MonitorFacts::advanced_color_from, 2);
}

/// A conversation that starts with the value of `GPUI_COLOR_MODE` and goes on with true answers.
pub open spec fn is_conversation(
    facts: MonitorFacts,
    value: Option<Seq<char>>,
    probes: Seq<ColorProbe>,
    replies: Seq<ColorReply>,
) -> bool {
    &&& probes.len() == replies.len() + 1
    &&& probes[0] == ColorProbe::started(value)
    &&& forall|i: int|
        0 <= i < replies.len() ==> facts.told(probes[i], #[trigger] replies[i]) && probes[i + 1]
            == probes[i].after(replies[i])
}

/// The environment variable decides alone where it names a mode. Otherwise the conversation
/// ends, after at most two questions for each display path and three others, in the mode that
/// the monitor has.
pub proof fn law_conversation_finds_mode(
    facts: MonitorFacts,
    value: Option<Seq<char>>,
    probes: Seq<ColorProbe>,
    replies: Seq<ColorReply>,
)
    requires
        is_conversation(facts, value, probes, replies),
    ensures
        color_override(value) is Some ==> probes.last() == ColorProbe::Resolved(
            color_override(value)->0,
        ) && replies.len() == 0,
        color_override(value) is None ==> {
            &&& probes.last() matches ColorProbe::Resolved(mode) ==> mode == facts.mode()
            &&& replies.len() <= 3 + facts.questions_on_paths(0)
            &&& replies.len() == 3 + facts.questions_on_paths(0) ==> probes.last() is Resolved
        },
{
    lemma_conversation(facts, value, probes, replies);
}

proof fn lemma_conversation(
    facts: MonitorFacts,
    value: Option<Seq<char>>,
    probes: Seq<ColorProbe>,
    replies: Seq<ColorReply>,
)
    requires
        is_conversation(facts, value, probes, replies),
    ensures
        facts.led_to(probes.last()),
        facts.outcome(probes.last()) == facts.outcome(probes[0]),
        facts.questions_left(probes.last()) + replies.len() <= facts.questions_left(probes[0]),
        facts.questions_left(probes.last()) >= 0,
    decreases replies.len(),
{
    if replies.len() > 0 {
        let last = replies.len() - 1;
        assert(is_conversation(facts, value, probes.drop_last(), replies.drop_last())) by {
            assert forall|i: int| 0 <= i < replies.drop_last().len() implies facts.told(
                probes.drop_last()[i],
                #[trigger] replies.drop_last()[i],
            ) && probes.drop_last()[i + 1] == probes.drop_last()[i].after(
                replies.drop_last()[i],
            ) by {
                assert(replies[i] == replies.drop_last()[i]);
            }
        }
        lemma_conversation(facts, value, probes.drop_last(), replies.drop_last());
        assert(facts.told(probes[last], replies[last]));
        law_answer_keeps_outcome(facts, probes[last], replies[last]);
    }
}

/// Whether a reply is one to a question.
pub open spec fn is_answer_to(probe: ColorProbe, reply: ColorReply) -> bool {
    match probe {
        ColorProbe::MonitorInfo => reply is MonitorInfo,
        ColorProbe::DisplayPaths { .. } => reply is DisplayPaths,
        ColorProbe::SourceName { .. } => reply is SourceName,
        ColorProbe::AdvancedColor { .. } => reply is AdvancedColor,
        ColorProbe::IccProfile { .. } => reply is IccProfile,
        ColorProbe::Resolved(_) => false,
    }
}

/// A reply to another question changes nothing, and a mode that was found stays.
pub proof fn law_other_answers_change_nothing(probe: ColorProbe, reply: ColorReply)
    requires
        !is_answer_to(probe, reply),
    ensures
        probe.after(reply) == probe,
{
}

/// The environment variable asks for a mode by one of two words, and by nothing else.
pub proof fn law_variable_asks_by_two_words(value: Seq<char>)
    ensures
        color_override(Some(value)) == Some(OutputColorMode::ScRgb) <==> value == "scrgb"@,
        color_override(Some(value)) == Some(OutputColorMode::DisplayReferred { primaries: None })
            <==> value == "srgb"@,
        value != "scrgb"@ && value != "srgb"@ ==> color_override(Some(value)) is None,
        color_override(None) is None,
{
    reveal_strlit("scrgb");
    reveal_strlit("srgb");
    assert("scrgb"@.len() == 5 && "srgb"@.len() == 4);
}

/// The conversation begins with the mode that the variable asks for, or with the monitor's name.
pub proof fn law_conversation_begins(value: Option<String>, text: String)
    ensures
        text_of(None) is None,
        text_of(Some(text)) == Some(text@),
        color_override(text_of(value)) matches Some(mode) ==> ColorProbe::started(text_of(value))
            == ColorProbe::Resolved(mode),
        color_override(text_of(value)) is None ==> ColorProbe::started(text_of(value))
            == ColorProbe::MonitorInfo,
{
}

/// Advanced color is enabled by the second lowest bit of the flags, whatever the others are.
pub proof fn law_second_bit_enables_advanced_color(flags: u32)
    ensures
        advanced_color_flag(flags) <==> flags & 2 == 2,
        advanced_color_flag(flags) <==> flags % 4 >= 2,
{
    assert((flags / 2) % 2 == 1 <==> flags & 2 == 2) by (bit_vector);
    assert((flags / 2) % 2 == 1 <==> flags % 4 >= 2) by (bit_vector);
}

/// The primaries are those of the profile, and there are none without one.
pub proof fn law_primaries_are_those_of_the_profile(bytes: Seq<u8>)
    ensures
        primaries_of(Some(bytes)) == crate::icc::profile_primaries(bytes),
        primaries_of(None) is None,
{
}

/// Whether a path is the monitor's and its flags can be read.
pub open spec fn is_readable(facts: MonitorFacts, device: Seq<u16>, path: int) -> bool {
    (facts.source_name)(path) == Some(device) && (facts.color_flags)(path) is Some
}

/// Whether a path is the first from another one on that is the monitor's and can be read.
pub open spec fn is_first_readable(
    facts: MonitorFacts,
    device: Seq<u16>,
    from: int,
    path: int,
) -> bool {
    &&& facts.path_count matches Some(count) && from <= path < count
    &&& is_readable(facts, device, path)
    &&& forall|other: int| from <= other < path ==> !#[trigger] is_readable(facts, device, other)
}

proof fn lemma_first_readable_decides(facts: MonitorFacts, device: Seq<u16>, from: int)
    requires
        0 <= from,
    ensures
        facts.advanced_color_from(device, from) <==> exists|path: int|
            #[trigger] is_first_readable(facts, device, from, path) && advanced_color_flag(
                (facts.color_flags)(path)->0,
            ),
    decreases (match facts.path_count {
        Some(count) => count,
        None => 0,
    }) - from,
{
    match facts.path_count {
        Some(count) => {
            if from < count {
                if is_readable(facts, device, from) {
                    assert(is_first_readable(facts, device, from, from));
                    assert forall|path: int| #[trigger]
                        is_first_readable(facts, device, from, path) implies path == from by {
                        if path > from {
                            assert(!is_readable(facts, device, from));
                        }
                    }
                } else {
                    lemma_first_readable_decides(facts, device, from + 1);
                    assert forall|path: int|
                        is_first_readable(facts, device, from, path) == #[trigger]
                        is_first_readable(facts, device, from + 1, path) by {
                        if is_first_readable(facts, device, from + 1, path) {
                            assert forall|other: int| from <= other < path implies !#[trigger]
                            is_readable(facts, device, other) by {}
                        }
                    }
                    if facts.advanced_color_from(device, from) {
                        let path = choose|path: int|
                            #[trigger] is_first_readable(facts, device, from + 1, path)
                                && advanced_color_flag((facts.color_flags)(path)->0);
                        assert(is_first_readable(facts, device, from, path));
                    } else if exists|path: int|
                        #[trigger] is_first_readable(facts, device, from, path)
                            && advanced_color_flag((facts.color_flags)(path)->0) {
                        let path = choose|path: int|
                            #[trigger] is_first_readable(facts, device, from, path)
                                && advanced_color_flag((facts.color_flags)(path)->0);
                        assert(is_first_readable(facts, device, from + 1, path));
                    }
                }
            }
        },
        None => {},
    }
}

/// A monitor with a name has advanced color exactly where the first display path that is the
/// monitor's, and whose flags can be read, has the second lowest bit. Otherwise it has the
/// primaries of its profile; one without a name has none.
pub proof fn law_first_readable_path_decides(facts: MonitorFacts, device: Seq<u16>)
    ensures
        facts.device == Some(device) ==> (facts.mode() == OutputColorMode::ScRgb <==> exists|
            path: int,
        | #[trigger]
            is_first_readable(facts, device, 0, path) && (facts.color_flags)(path)->0 & 2 == 2),
        facts.device == Some(device) && facts.mode() != OutputColorMode::ScRgb ==> facts.mode()
            == (OutputColorMode::DisplayReferred { primaries: primaries_of(facts.profile) }),
        facts.device is None ==> facts.mode() == (OutputColorMode::DisplayReferred {
            primaries: None,
        }),
{
    lemma_first_readable_decides(facts, device, 0);
    assert forall|path: int| #[trigger]
        is_first_readable(facts, device, 0, path) implies advanced_color_flag(
        (facts.color_flags)(path)->0,
    ) == ((facts.color_flags)(path)->0 & 2 == 2) by {
        law_second_bit_enables_advanced_color((facts.color_flags)(path)->0);
    }
}

/// A monitor has a profile path exactly where the system asked for room and filled it. A path
/// that the system leaves in the buffer, whatever follows its end, is the one that is read.
pub proof fn law_profile_path_is_what_the_system_left(
    required_len: u32,
    text: Seq<char>,
    rest: Seq<u16>,
    filled: Option<Seq<u16>>,
)
    requires
        !text.contains('\0'),
    ensures
        profile_path(required_len, filled) is Some <==> required_len > 0 && filled is Some,
        required_len > 0 ==> profile_path(
            required_len,
            Some(crate::text::utf16(text) + seq![0u16] + rest),
        ) == Some(text),
        required_len > 0 ==> profile_path(required_len, Some(crate::text::utf16(text))) == Some(
            text,
        ),
{
    crate::text::law_terminated_text_is_read(text, rest);
    crate::text::law_no_zero_units(text);
    crate::text::law_encoded_text_is_decoded(text);
    let units = crate::text::utf16(text);
    let read = crate::text::before_nul(units);
    crate::text::law_buffer_is_read_to_its_first_zero(units);
    if read.len() < units.len() {
        assert(units.contains(units[read.len() as int]));
    }
    assert(read =~= units);
}

} // verus!
