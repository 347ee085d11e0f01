//! What a drag out of a window offers to the application under the pointer.

use crate::text::{decode_utf16, encode_utf16};
use vstd::prelude::*;

verus! {

/// The clipboard format of a list of files.
pub const CF_HDROP: u16 = 15;

/// The aspect of the data itself, as opposed to an icon or a thumbnail of it.
pub const DVASPECT_CONTENT: u32 = 1;

/// The medium bit of a global memory handle.
pub const TYMED_HGLOBAL: u32 = 1;

/// The direction of formats that can be read.
pub const DATADIR_GET: u32 = 1;

/// A format that data is asked for, or offered, in.
#[derive(Clone, Copy, Debug, PartialEq, Eq, Structural)]
pub struct FormatEtc {
    pub format: u16,
    pub aspect: u32,
    pub index: i32,
    pub tymed: u32,
}

/// Why a data object turns a request down.
#[derive(Clone, Copy, Debug, PartialEq, Eq, Structural)]
pub enum DataObjectError {
    /// The format is not offered.
    FormatEtc,
    /// The operation is not there.
    NotImplemented,
}

/// A path to drag out.
pub enum DragPath {
    /// A path as text.
    Text(String),
    /// A path as code units, among which there may be unpaired surrogates.
    Wide(Vec<u16>),
}

/// What to drag out of a window.
pub enum ExternalDragPayload {
    /// Files, for any application.
    Files(Vec<DragPath>),
    /// Nothing but the fact of the drag, for windows of this application.
    AppPrivate,
}

/// Formats with the bytes that each is served with.
pub struct WindowsDragDataObject {
    pub formats: Vec<(u16, Vec<u8>)>,
}

impl View for WindowsDragDataObject {
    type V = Seq<(u16, Seq<u8>)>;

    open spec fn view(&self) -> Seq<(u16, Seq<u8>)> {
        self.formats@.map_values(|entry: (u16, Vec<u8>)| (entry.0, entry.1@))
    }
}

/// The bytes of the first entry with this format.
pub open spec fn served(formats: Seq<(u16, Seq<u8>)>, format: u16) -> Option<Seq<u8>>
    decreases formats.len(),
{
    if formats.len() == 0 {
        None
    } else if formats.first().0 == format {
        Some(formats.first().1)
    } else {
        served(formats.drop_first(), format)
    }
}

/// Whether a request is for the data itself in global memory.
pub open spec fn wants_content(request: FormatEtc) -> bool {
    request.aspect == DVASPECT_CONTENT && request.tymed % 2 == 1
}

/// What answers a request, which may be missing.
pub open spec fn payload_for(
    formats: Seq<(u16, Seq<u8>)>,
    request: Option<FormatEtc>,
) -> Option<Seq<u8>> {
    match request {
        Some(request) => if wants_content(request) {
            served(formats, request.format)
        } else {
            None
        },
        None => None,
    }
}

/// The reply to a request for data.
pub open spec fn data_reply(formats: Seq<(u16, Seq<u8>)>, request: Option<FormatEtc>) -> Result<
    Seq<u8>,
    DataObjectError,
> {
    match payload_for(formats, request) {
        Some(bytes) => Ok(bytes),
        None => Err(DataObjectError::FormatEtc),
    }
}

/// The reply to a request for the formats of a direction.
pub open spec fn format_reply(formats: Seq<(u16, Seq<u8>)>, direction: u32) -> Result<
    Seq<FormatEtc>,
    DataObjectError,
> {
    if direction == DATADIR_GET {
        Ok(formats.map_values(|entry: (u16, Seq<u8>)| content_of(entry.0)))
    } else {
        Err(DataObjectError::NotImplemented)
    }
}

/// The request for the whole content of a format in global memory.
pub open spec fn content_of(format: u16) -> FormatEtc {
    FormatEtc { format, aspect: DVASPECT_CONTENT, index: (-1) as i32, tymed: TYMED_HGLOBAL }
}

/// The request for the whole content of a format in global memory.
pub fn hglobal_format(format: u16) -> (request: FormatEtc)
    ensures
        request == content_of(format),
{
    FormatEtc { format, aspect: DVASPECT_CONTENT, index: -1, tymed: TYMED_HGLOBAL }
}

impl WindowsDragDataObject {
    /// The bytes that answer a request.
    pub fn payload(&self, format: Option<FormatEtc>) -> (bytes: Option<&[u8]>)
        ensures
            bytes is Some <==> payload_for(self@, format) is Some,
            bytes matches Some(found) ==> payload_for(self@, format) == Some(found@),
    {
        let request: FormatEtc = match format {
            Some(request) => request,
            None => {
                return None;
            },
        };
        let tymed: u32 = request.tymed;
        assert((tymed & 1 == 0) == (tymed % 2 != 1)) by (bit_vector);
        if request.aspect != DVASPECT_CONTENT || request.tymed & TYMED_HGLOBAL == 0 {
            return None;
        }
        assert(self@.skip(0) =~= self@);
        let mut i: usize = 0;
        while i < self.formats.len()
            invariant
                i <= self.formats@.len(),
                format == Some(request),
                wants_content(request),
                served(self@, request.format) == served(self@.skip(i as int), request.format),
            decreases self.formats.len() - i,
        {
            assert(self@.skip(i as int).first() == self@[i as int]);
            if self.formats[i].0 == request.format {
                return Some(self.formats[i].1.as_slice());
            }
            assert(self@.skip(i as int).drop_first() =~= self@.skip(i + 1));
            i = i + 1;
        }
        assert(self@.skip(i as int).len() == 0);
        None
    }

    /// The bytes to copy into global memory.
    pub fn get_data(&self, format: Option<FormatEtc>) -> (bytes: Result<&[u8], DataObjectError>)
        ensures
            (match bytes {
                Ok(found) => Ok::<Seq<u8>, DataObjectError>(found@),
                Err(error) => Err(error),
            }) == data_reply(self@, format),
            match bytes {
                Ok(found) => payload_for(self@, format) == Some(found@),
                Err(error) => payload_for(self@, format) is None && error
                    == DataObjectError::FormatEtc,
            },
    {
        match self.payload(format) {
            Some(bytes) => Ok(bytes),
            None => Err(DataObjectError::FormatEtc),
        }
    }

    /// Whether a request would be served.
    pub fn query_get_data(&self, format: Option<FormatEtc>) -> (answer: Result<
        (),
        DataObjectError,
    >)
        ensures
            answer is Ok <==> data_reply(self@, format) is Ok,
            answer matches Err(error) ==> data_reply(self@, format) == Err::<
                Seq<u8>,
                DataObjectError,
            >(error),
            answer == (if payload_for(self@, format) is Some {
                Ok::<(), DataObjectError>(())
            } else {
                Err(DataObjectError::FormatEtc)
            }),
    {
        match self.payload(format) {
            Some(_) => Ok(()),
            None => Err(DataObjectError::FormatEtc),
        }
    }

    /// The formats on offer, in order, for the direction of reading.
    pub fn enum_format_etc(&self, direction: u32) -> (formats: Result<
        Vec<FormatEtc>,
        DataObjectError,
    >)
        ensures
            (match formats {
                Ok(formats) => Ok::<Seq<FormatEtc>, DataObjectError>(formats@),
                Err(error) => Err(error),
            }) == format_reply(self@, direction),
            match formats {
                Ok(formats) => {
                    &&& direction == DATADIR_GET
                    &&& formats@ == self@.map_values(
                        |entry: (u16, Seq<u8>)| content_of(entry.0),
                    )
                },
                Err(error) => direction != DATADIR_GET && error == DataObjectError::NotImplemented,
            },
    {
        if direction != DATADIR_GET {
            return Err(DataObjectError::NotImplemented);
        }
        let mut formats: Vec<FormatEtc> = Vec::new();
        let mut i: usize = 0;
        while i < self.formats.len()
            invariant
                i <= self.formats@.len(),
                formats@.len() == i,
                forall|j: int|
                    0 <= j < i ==> #[trigger] formats@[j] == content_of(self.formats@[j].0),
            decreases self.formats.len() - i,
        {
            formats.push(hglobal_format(self.formats[i].0));
            i = i + 1;
        }
        assert(formats@ =~= self@.map_values(|entry: (u16, Seq<u8>)| content_of(entry.0)));
        Ok(formats)
    }
}

/// A code unit as two bytes, least significant first: Windows is little-endian on every machine.
pub open spec fn unit_bytes(unit: u16) -> Seq<u8> {
    seq![(unit % 256) as u8, (unit / 256) as u8]
}

/// Code units as bytes.
pub open spec fn units_bytes(units: Seq<u16>) -> Seq<u8>
    decreases units.len(),
{
    if units.len() == 0 {
        seq![]
    } else {
        units_bytes(units.drop_last()) + unit_bytes(units.last())
    }
}

/// Names one after the other, each with a terminating zero.
pub open spec fn name_list(names: Seq<Seq<u16>>) -> Seq<u16>
    decreases names.len(),
{
    if names.len() == 0 {
        seq![]
    } else {
        name_list(names.drop_last()) + names.last() + seq![0]
    }
}

/// The header in front of a list of wide names: where the list starts, no drop point, not in
/// the non-client area, wide.
pub open spec fn dropfiles_header() -> Seq<u8> {
    seq![20, 0, 0, 0, 0, 0, 0, 0, 0, 0, 0, 0, 0, 0, 0, 0, 1, 0, 0, 0]
}

/// The bytes of a file list: the header, the names and one more zero.
pub open spec fn hdrop_bytes(names: Seq<Seq<u16>>) -> Seq<u8> {
    dropfiles_header() + units_bytes(name_list(names) + seq![0])
}

fn push_unit(bytes: &mut Vec<u8>, unit: u16)
    ensures
        final(bytes)@ == old(bytes)@ + unit_bytes(unit),
{
    bytes.push((unit % 256) as u8);
    bytes.push((unit / 256) as u8);
    assert(bytes@ =~= old(bytes)@ + unit_bytes(unit));
}

/// The content of the file list format.
pub fn hdrop_payload(names: &Vec<Vec<u16>>) -> (bytes: Vec<u8>)
    ensures
        bytes@ == hdrop_bytes(names@.map_values(|name: Vec<u16>| name@)),
{
    let ghost all: Seq<Seq<u16>> = names@.map_values(|name: Vec<u16>| name@);
    let mut bytes: Vec<u8> = vec![20, 0, 0, 0, 0, 0, 0, 0, 0, 0, 0, 0, 0, 0, 0, 0, 1, 0, 0, 0];
    let ghost mut written: Seq<u16> = seq![];
    assert(bytes@ =~= dropfiles_header() + units_bytes(written));
    let mut i: usize = 0;
    while i < names.len()
        invariant
            i <= names@.len(),
            all == names@.map_values(|name: Vec<u16>| name@),
            written == name_list(all.take(i as int)),
            bytes@ == dropfiles_header() + units_bytes(written),
        decreases names.len() - i,
    {
        let ghost before = written;
        let name: &Vec<u16> = &names[i];
        let mut j: usize = 0;
        assert(written =~= before + name@.take(0));
        while j < name.len()
            invariant
                j <= name@.len(),
                written == before + name@.take(j as int),
                bytes@ == dropfiles_header() + units_bytes(written),
            decreases name.len() - j,
        {
            push_unit(&mut bytes, name[j]);
            proof {
                let longer = before + name@.take(j + 1);
                assert(longer.drop_last() =~= written);
                assert(longer.last() == name@[j as int]);
                assert(bytes@ =~= dropfiles_header() + units_bytes(longer));
                written = longer;
            }
            j = j + 1;
        }
        push_unit(&mut bytes, 0);
        proof {
            assert(name@.take(j as int) =~= name@);
            let longer = written + seq![0u16];
            assert(longer.drop_last() =~= written);
            assert(bytes@ =~= dropfiles_header() + units_bytes(longer));
            assert(all.take(i + 1).drop_last() =~= all.take(i as int));
            assert(all.take(i + 1).last() == name@);
            written = longer;
        }
        i = i + 1;
    }
    push_unit(&mut bytes, 0);
    proof {
        assert(all.take(i as int) =~= all);
        let longer = written + seq![0u16];
        assert(longer.drop_last() =~= written);
        assert(bytes@ =~= dropfiles_header() + units_bytes(longer));
    }
    bytes
}

/// Whether a path starts like `\\?\C:`, the verbatim form of a path on a drive.
pub open spec fn is_verbatim_disk(path: Seq<char>) -> bool {
    &&& path.len() >= 6
    &&& path.take(4) == seq!['\\', '\\', '?', '\\']
    &&& path[5] == ':'
}

/// Whether `simple` is a form of `path` that means the same: the path itself, or what follows
/// the verbatim prefix of a path on a drive.
pub open spec fn simplifies_to(path: Seq<char>, simple: Seq<char>) -> bool {
    simple == path || (is_verbatim_disk(path) && simple == path.skip(4))
}

/// What [`dunce::simplified`] makes of a path.
pub uninterp spec fn simple_path(path: Seq<char>) -> Seq<char>;

/// Calls [`dunce::simplified`]. Its path is named: in a program for Windows it follows from the
/// given path alone. A path that does not start with a verbatim drive prefix comes back as it
/// is; one that does comes back as it is or without the four characters in front of the drive.
/// Which of the two is left unsaid: it rests on the names in the path and on its length. In a
/// program for another system every path comes back as it is.
#[verifier::external_body]
fn simplified(path: &str) -> (simple: String)
    ensures
        simple@ == simple_path(path@),
        simplifies_to(path@, simple@),
{
    dunce::simplified(std::path::Path::new(path)).to_string_lossy().into_owned()
}

impl DragPath {
    /// The code units of the path.
    pub open spec fn units(self) -> Seq<u16> {
        match self {
            DragPath::Text(text) => crate::text::utf16(text@),
            DragPath::Wide(wide) => wide@,
        }
    }

    /// The text of the path, where it is one.
    pub open spec fn text(self) -> Option<Seq<char>> {
        match self {
            DragPath::Text(text) => Some(text@),
            DragPath::Wide(wide) => crate::text::utf16_text(wide@),
        }
    }

    /// The name under which the path is dragged: the simple form of a path that is text. A path
    /// with unpaired surrogates has no other form.
    pub open spec fn name(self) -> Seq<u16> {
        match self.text() {
            Some(text) => crate::text::utf16(simple_path(text)),
            None => self.units(),
        }
    }

    /// Whether the simple form of the path means the same as the path.
    pub open spec fn is_simplified(self) -> bool {
        self.text() matches Some(text) ==> simplifies_to(text, simple_path(text))
    }
}

/// The names under which paths are dragged, in order.
pub open spec fn drag_names(paths: Seq<DragPath>) -> Seq<Seq<u16>> {
    paths.map_values(|path: DragPath| path.name())
}

fn drag_name(path: &DragPath) -> (units: Vec<u16>)
    ensures
        units@ == path.name(),
        path.is_simplified(),
{
    match path {
        DragPath::Text(text) => {
            let simple: String = simplified(text.as_str());
            encode_utf16(simple.as_str())
        },
        DragPath::Wide(wide) => {
            if let Some(text) = decode_utf16(wide.as_slice()) {
                let simple: String = simplified(text.as_str());
                return encode_utf16(simple.as_str());
            }
            let mut units: Vec<u16> = Vec::new();
            let mut i: usize = 0;
            while i < wide.len()
                invariant
                    i <= wide@.len(),
                    units@ == wide@.take(i as int),
                decreases wide.len() - i,
            {
                units.push(wide[i]);
                i = i + 1;
                assert(units@ =~= wide@.take(i as int));
            }
            assert(units@ =~= wide@);
            units
        },
    }
}

/// Whether an object offers a list of the given files and nothing else.
pub open spec fn offers_files(formats: Seq<(u16, Seq<u8>)>, paths: Seq<DragPath>) -> bool {
    &&& formats == seq![(CF_HDROP, hdrop_bytes(drag_names(paths)))]
    &&& forall|i: int| 0 <= i < paths.len() ==> (#[trigger] paths[i]).is_simplified()
}

/// The bytes that a drag for this application alone is served with. They only fill the format:
/// the format itself says all.
pub open spec fn private_drag_bytes() -> Seq<u8> {
    seq![0x67, 0x70, 0x75, 0x69]
}

/// The data object of a drag of files.
pub fn file_drag_data_object(paths: &Vec<DragPath>) -> (object: WindowsDragDataObject)
    ensures
        offers_files(object@, paths@),
{
    let mut names: Vec<Vec<u16>> = Vec::new();
    let mut i: usize = 0;
    while i < paths.len()
        invariant
            i <= paths@.len(),
            names@.len() == i,
            forall|j: int| 0 <= j < i ==> (#[trigger] names@[j])@ == paths@[j].name(),
            forall|j: int| 0 <= j < i ==> (#[trigger] paths@[j]).is_simplified(),
        decreases paths.len() - i,
    {
        names.push(drag_name(&paths[i]));
        i = i + 1;
    }
    let bytes: Vec<u8> = hdrop_payload(&names);
    let object = WindowsDragDataObject { formats: vec![(CF_HDROP, bytes)] };
    proof {
        assert(names@.map_values(|name: Vec<u16>| name@) =~= drag_names(paths@));
        assert(object@ =~= seq![(CF_HDROP, hdrop_bytes(drag_names(paths@)))]);
    }
    object
}

/// What a drag for this application alone serves, where its format is registered.
pub open spec fn private_formats(format: Option<u16>) -> Option<Seq<(u16, Seq<u8>)>> {
    match format {
        Some(format) => Some(seq![(format, private_drag_bytes())]),
        None => None,
    }
}

/// The data object of a drag for this application alone, where its format is registered.
pub fn private_drag_data_object(format: Option<u16>) -> (object: Option<WindowsDragDataObject>)
    ensures
        (match object {
            Some(object) => Some(object@),
            None => None,
        }) == private_formats(format),
        object is Some <==> format is Some,
        object matches Some(object) ==> object@ == seq![(format->0, private_drag_bytes())],
{
    match format {
        Some(format) => {
            let bytes: Vec<u8> = vec![0x67, 0x70, 0x75, 0x69];
            let object = WindowsDragDataObject { formats: vec![(format, bytes)] };
            assert(object@[0].1 =~= private_drag_bytes());
            assert(object@ =~= seq![(format, private_drag_bytes())]);
            Some(object)
        },
        None => None,
    }
}

/// A drag that is about to begin.
pub struct DragStart {
    pub data_object: WindowsDragDataObject,
    /// Whether the system shows its own cursors: not where the application draws the feedback.
    pub use_default_cursors: bool,
}

/// Whether a drag with a payload starts so, given the format of private drags.
pub open spec fn starts_as(
    payload: ExternalDragPayload,
    private_format: Option<u16>,
    start: Option<DragStart>,
) -> bool {
    match payload {
        ExternalDragPayload::Files(paths) => match start {
            Some(start) => {
                &&& paths@.len() > 0
                &&& offers_files(start.data_object@, paths@)
                &&& start.use_default_cursors
            },
            None => paths@.len() == 0,
        },
        ExternalDragPayload::AppPrivate => match (start, private_format) {
            (Some(start), Some(format)) => {
                &&& start.data_object@ == seq![(format, private_drag_bytes())]
                &&& !start.use_default_cursors
            },
            (None, None) => true,
            _ => false,
        },
    }
}

/// What a drag out of a window starts with, given the format that is registered for private
/// drags. `None` where the drag is declined: there are no files, or no format.
pub fn start_external_drag(payload: &ExternalDragPayload, private_format: Option<u16>) -> (start:
    Option<DragStart>)
    ensures
        starts_as(*payload, private_format, start),
        match *payload {
            ExternalDragPayload::Files(paths) => {
                &&& start is Some <==> paths@.len() > 0
                &&& start matches Some(start) ==> offers_files(start.data_object@, paths@)
                    && start.use_default_cursors
            },
            ExternalDragPayload::AppPrivate => {
                &&& start is Some <==> private_format is Some
                &&& start matches Some(start) ==> start.data_object@ == seq![
                    (private_format->0, private_drag_bytes()),
                ] && !start.use_default_cursors
            },
        },
{
    match payload {
        ExternalDragPayload::Files(paths) => {
            if paths.len() == 0 {
                return None;
            }
            Some(
                DragStart { data_object: file_drag_data_object(paths), use_default_cursors: true },
            )
        },
        ExternalDragPayload::AppPrivate => match private_drag_data_object(private_format) {
            Some(data_object) => Some(DragStart { data_object, use_default_cursors: false }),
            None => None,
        },
    }
}

/// The name of the format that marks the private drags of the application with this identity.
pub open spec fn private_drag_name(identity: Option<Seq<char>>) -> Seq<char> {
    "app.gpui.private-drag."@ + match identity {
        Some(identity) => identity,
        None => "unknown"@,
    }
}

/// The name of the format that marks the private drags of an application, given the file name
/// of its executable.
pub fn private_drag_format_name(identity: Option<String>) -> (name: String)
    ensures
        name@ == private_drag_name(
            match identity {
                Some(identity) => Some(identity@),
                None => None,
            },
        ),
{
    let prefix: String = "app.gpui.private-drag.".to_owned();
    match identity {
        Some(identity) => prefix.concat(identity.as_str()),
        None => prefix.concat("unknown"),
    }
}

/// The format that a registration gave: none where it gave zero, and its low sixteen bits
/// otherwise.
pub open spec fn format_of(id: u32) -> Option<u16> {
    if id == 0 {
        None
    } else {
        Some((id % 0x1_0000) as u16)
    }
}

/// The format that a registration gave: none where it gave zero, and its low sixteen bits
/// otherwise.
pub fn registered_format(id: u32) -> (format: Option<u16>)
    ensures
        format == format_of(id),
        format is None <==> id == 0,
        format matches Some(number) ==> number == id % 0x1_0000,
{
    if id == 0 {
        None
    } else {
        Some((id % 0x1_0000) as u16)
    }
}

/// Code units from bytes, least significant byte first.
pub open spec fn units_in(bytes: Seq<u8>) -> Seq<u16> {
    Seq::new(bytes.len() / 2, |i: int| (bytes[2 * i] + 256 * bytes[2 * i + 1]) as u16)
}

/// The names of a list in which each ends with a zero, up to an empty one.
pub open spec fn names_in(units: Seq<u16>) -> Seq<Seq<u16>>
    decreases units.len(),
{
    let name = crate::text::before_nul(units);
    if name.len() == 0 {
        seq![]
    } else if name.len() >= units.len() {
        seq![name]
    } else {
        seq![name] + names_in(units.skip(name.len() as int + 1))
    }
}

/// The names in the content of the file list format, as a reader finds them: from where the
/// header says that the list starts.
pub open spec fn listed_names(bytes: Seq<u8>) -> Seq<Seq<u16>> {
    let start = bytes[0] + 0x100 * bytes[1] + 0x1_0000 * bytes[2] + 0x100_0000 * bytes[3];
    names_in(units_in(bytes.skip(start)))
}

/// Whether a name can stand in a list: it is not empty and has no zero in it.
pub open spec fn is_listable(name: Seq<u16>) -> bool {
    name.len() > 0 && !name.contains(0)
}

proof fn lemma_units_in_units_bytes(units: Seq<u16>)
    ensures
        units_bytes(units).len() == 2 * units.len(),
        units_in(units_bytes(units)) == units,
    decreases units.len(),
{
    if units.len() > 0 {
        let shorter = units.drop_last();
        lemma_units_in_units_bytes(shorter);
        let bytes = units_bytes(units);
        assert forall|i: int| 0 <= i < units.len() implies units_in(bytes)[i] == units[i] by {
            if i < shorter.len() {
                assert(units_in(units_bytes(shorter))[i] == shorter[i]);
                assert(bytes[2 * i] == units_bytes(shorter)[2 * i]);
                assert(bytes[2 * i + 1] == units_bytes(shorter)[2 * i + 1]);
            } else {
                assert(bytes[2 * i] == unit_bytes(units.last())[0]);
                assert(bytes[2 * i + 1] == unit_bytes(units.last())[1]);
            }
        }
    }
    assert(units_in(units_bytes(units)) =~= units);
}

proof fn lemma_name_list_front(names: Seq<Seq<u16>>)
    requires
        names.len() > 0,
    ensures
        name_list(names) == names.first() + seq![0u16] + name_list(names.drop_first()),
    decreases names.len(),
{
    if names.len() == 1 {
        assert(names.drop_last() =~= seq![]);
        assert(names.drop_first() =~= seq![]);
        assert(name_list(names) =~= names.first() + seq![0u16] + name_list(names.drop_first()));
    } else {
        lemma_name_list_front(names.drop_last());
        assert(names.drop_last().drop_first() =~= names.drop_first().drop_last());
        assert(name_list(names) =~= names.first() + seq![0u16] + name_list(names.drop_first()));
    }
}

proof fn lemma_names_in_name_list(names: Seq<Seq<u16>>)
    requires
        forall|i: int| 0 <= i < names.len() ==> is_listable(#[trigger] names[i]),
    ensures
        names_in(name_list(names) + seq![0u16]) == names,
    decreases names.len(),
{
    let units = name_list(names) + seq![0u16];
    let none: Seq<u16> = seq![];
    if names.len() == 0 {
        crate::text::lemma_before_nul(none, none);
        assert(units =~= none + seq![0u16] + none);
        assert(names_in(units) =~= names);
    } else {
        let rest = names.drop_first();
        assert forall|i: int| 0 <= i < rest.len() implies is_listable(#[trigger] rest[i]) by {
            assert(is_listable(names[i + 1]));
        }
        lemma_names_in_name_list(rest);
        lemma_name_list_front(names);
        let tail = name_list(rest) + seq![0u16];
        assert(is_listable(names[0]));
        crate::text::lemma_before_nul(names.first(), tail);
        assert(units =~= names.first() + seq![0u16] + tail);
        assert(units.skip(names.first().len() as int + 1) =~= tail);
        assert(names_in(units) =~= names);
    }
}

/// Whoever reads a dragged file list finds the names that were written, provided none of them
/// is empty or has a zero in it.
pub proof fn law_file_list_reads_back(names: Seq<Seq<u16>>)
    requires
        forall|i: int| 0 <= i < names.len() ==> is_listable(#[trigger] names[i]),
    ensures
        listed_names(hdrop_bytes(names)) == names,
{
    let units = name_list(names) + seq![0u16];
    lemma_units_in_units_bytes(units);
    lemma_names_in_name_list(names);
    assert(hdrop_bytes(names).skip(20) =~= units_bytes(units));
}

/// Whether a path is not empty and has no zero in it, as every path of a file system.
pub open spec fn is_clean_path(path: DragPath) -> bool {
    match path {
        DragPath::Text(text) => text@.len() > 0 && !text@.contains('\0'),
        DragPath::Wide(wide) => is_listable(wide@),
    }
}

proof fn lemma_drag_name_is_listable(path: DragPath)
    requires
        is_clean_path(path),
        path.is_simplified(),
    ensures
        is_listable(path.name()),
{
    if let Some(text) = path.text() {
        if let DragPath::Wide(wide) = path {
            assert(crate::text::utf16(text) == wide@);
            crate::text::law_no_zero_characters(text);
        }
        let simple = simple_path(text);
        assert(!simple.contains('\0')) by {
            if simple.contains('\0') {
                let i = choose|i: int| 0 <= i < simple.len() && simple[i] == '\0';
                assert(text[i] == '\0' || text[i + 4] == '\0');
            }
        }
        crate::text::law_no_zero_units(simple);
        assert(crate::text::utf16(simple).len() > 0) by {
            assert(simple.len() > 0);
        }
    }
}

/// Whoever reads the file list of a drag finds each dragged path, in order, under its name.
pub proof fn law_dragged_files_read_back(formats: Seq<(u16, Seq<u8>)>, paths: Seq<DragPath>)
    requires
        offers_files(formats, paths),
        forall|i: int| 0 <= i < paths.len() ==> is_clean_path(#[trigger] paths[i]),
    ensures
        payload_for(formats, Some(content_of(CF_HDROP))) matches Some(bytes) && listed_names(bytes)
            == drag_names(paths),
{
    let names = drag_names(paths);
    assert forall|i: int| 0 <= i < names.len() implies is_listable(#[trigger] names[i]) by {
        assert(is_clean_path(paths[i]));
        lemma_drag_name_is_listable(paths[i]);
    }
    law_file_list_reads_back(names);
}

/// A path is dragged under the same name whether it is given as text or as the code units of the
/// text.
pub proof fn law_form_of_a_path_does_not_matter(text: DragPath, wide: DragPath)
    requires
        text is Text,
        wide is Wide,
        text.units() == wide.units(),
    ensures
        text.name() == wide.name(),
{
    crate::text::law_encoded_text_is_decoded(text->Text_0@);
}

/// An object serves every format that it lists.
pub proof fn law_listed_formats_are_served(formats: Seq<(u16, Seq<u8>)>, i: int)
    requires
        0 <= i < formats.len(),
    ensures
        payload_for(formats, Some(content_of(formats[i].0))) is Some,
    decreases formats.len(),
{
    if formats.first().0 != formats[i].0 {
        law_listed_formats_are_served(formats.drop_first(), i - 1);
    }
}

/// An object serves no format that it does not list.
pub proof fn law_only_listed_formats_are_served(
    formats: Seq<(u16, Seq<u8>)>,
    request: FormatEtc,
)
    requires
        payload_for(formats, Some(request)) is Some,
    ensures
        exists|i: int| 0 <= i < formats.len() && (#[trigger] formats[i]).0 == request.format,
    decreases formats.len(),
{
    if formats.first().0 == request.format {
        assert(formats[0].0 == request.format);
    } else {
        law_only_listed_formats_are_served(formats.drop_first(), request);
        let i = choose|i: int|
            0 <= i < formats.drop_first().len() && (#[trigger] formats.drop_first()[i]).0
                == request.format;
        assert(formats[i + 1].0 == request.format);
    }
}

/// A drag for this application alone is no file drag to anyone, and a file drag is no private
/// one, as the format for private drags is not the one for files.
pub proof fn law_private_and_file_drags_are_apart(
    private_format: u16,
    files: Seq<(u16, Seq<u8>)>,
    paths: Seq<DragPath>,
)
    requires
        private_format != CF_HDROP,
        offers_files(files, paths),
    ensures
        payload_for(files, Some(content_of(CF_HDROP))) is Some,
        payload_for(files, Some(content_of(private_format))) is None,
        payload_for(
            seq![(private_format, private_drag_bytes())],
            Some(content_of(private_format)),
        ) is Some,
        payload_for(
            seq![(private_format, private_drag_bytes())],
            Some(content_of(CF_HDROP)),
        ) is None,
{
    reveal_with_fuel(served, 2);
}

/// Applications with different identities mark their private drags with different formats, so
/// neither takes the other's.
pub proof fn law_private_drag_names_differ(left: Seq<char>, right: Seq<char>)
    requires
        left != right,
    ensures
        private_drag_name(Some(left)) != private_drag_name(Some(right)),
{
    let prefix = "app.gpui.private-drag."@;
    if prefix + left == prefix + right {
        assert((prefix + left).skip(prefix.len() as int) =~= left);
        assert((prefix + right).skip(prefix.len() as int) =~= right);
    }
}

/// Four bytes as a number, least significant first.
pub open spec fn le_u32(bytes: Seq<u8>, at: int) -> int {
    bytes[at] + 0x100 * bytes[at + 1] + 0x1_0000 * bytes[at + 2] + 0x100_0000 * bytes[at + 3]
}

/// The names that a reader finds who goes by the header: from where it says that the list starts,
/// and as code units only where it says that they are wide.
pub open spec fn wide_names(bytes: Seq<u8>) -> Option<Seq<Seq<u16>>> {
    if bytes.len() >= 20 && le_u32(bytes, 16) != 0 {
        Some(names_in(units_in(bytes.skip(le_u32(bytes, 0)))))
    } else {
        None
    }
}

/// The header of every file list says that the names start right behind it, that there is no drop
/// point, that it is not in the non-client area, and that the names are wide.
pub proof fn law_header_says_wide(names: Seq<Seq<u16>>)
    ensures
        hdrop_bytes(names).len() >= 22,
        le_u32(hdrop_bytes(names), 0) == 20,
        le_u32(hdrop_bytes(names), 4) == 0,
        le_u32(hdrop_bytes(names), 8) == 0,
        le_u32(hdrop_bytes(names), 12) == 0,
        le_u32(hdrop_bytes(names), 16) == 1,
{
    let bytes = hdrop_bytes(names);
    let units = name_list(names) + seq![0u16];
    lemma_units_in_units_bytes(units);
    assert(dropfiles_header().len() == 20);
    assert(forall|i: int| 0 <= i < 20 ==> #[trigger] bytes[i] == dropfiles_header()[i]);
}

/// A reader who goes by the whole header finds the names that were written, provided none of them
/// is empty or has a zero in it.
pub proof fn law_names_are_found_by_the_header(names: Seq<Seq<u16>>)
    requires
        forall|i: int|
            0 <= i < names.len() ==> (#[trigger] names[i]).len() > 0 && !names[i].contains(0),
    ensures
        wide_names(hdrop_bytes(names)) == Some(names),
{
    law_header_says_wide(names);
    assert forall|i: int| 0 <= i < names.len() implies is_listable(#[trigger] names[i]) by {}
    let units = name_list(names) + seq![0u16];
    lemma_units_in_units_bytes(units);
    lemma_names_in_name_list(names);
    assert(hdrop_bytes(names).skip(20) =~= units_bytes(units));
}

/// The code units behind the header of a file list.
pub open spec fn list_units(bytes: Seq<u8>) -> Seq<u16> {
    units_in(bytes.skip(20))
}

/// A file list without names is one zero. One more name, whatever is in it, comes before that
/// zero, with a zero of its own.
pub proof fn law_file_list_grows_by_a_name(names: Seq<Seq<u16>>, name: Seq<u16>)
    ensures
        list_units(hdrop_bytes(seq![])) == seq![0u16],
        list_units(hdrop_bytes(names)).len() > 0,
        list_units(hdrop_bytes(names.push(name))) == list_units(hdrop_bytes(names)).drop_last()
            + name + seq![0u16, 0u16],
        hdrop_bytes(names).len() == 20 + 2 * list_units(hdrop_bytes(names)).len(),
{
    let none: Seq<Seq<u16>> = seq![];
    let short = name_list(names) + seq![0u16];
    let long = name_list(names.push(name)) + seq![0u16];
    lemma_units_in_units_bytes(name_list(none) + seq![0u16]);
    lemma_units_in_units_bytes(short);
    lemma_units_in_units_bytes(long);
    assert(hdrop_bytes(none).skip(20) =~= units_bytes(name_list(none) + seq![0u16]));
    assert(hdrop_bytes(names).skip(20) =~= units_bytes(short));
    assert(hdrop_bytes(names.push(name)).skip(20) =~= units_bytes(long));
    assert(name_list(none) + seq![0u16] =~= seq![0u16]);
    assert(names.push(name).drop_last() =~= names);
    assert(short.drop_last() =~= name_list(names));
    assert(long =~= short.drop_last() + name + seq![0u16, 0u16]);
}

/// Whether an entry is the first with its format.
pub open spec fn is_first_of_format(formats: Seq<(u16, Seq<u8>)>, i: int) -> bool {
    &&& 0 <= i < formats.len()
    &&& forall|j: int| 0 <= j < i ==> (#[trigger] formats[j]).0 != formats[i].0
}

proof fn lemma_first_is_served(formats: Seq<(u16, Seq<u8>)>, i: int)
    requires
        is_first_of_format(formats, i),
    ensures
        served(formats, formats[i].0) == Some(formats[i].1),
    decreases formats.len(),
{
    if i > 0 {
        assert(formats[0].0 != formats[i].0);
        let rest = formats.drop_first();
        assert forall|j: int| 0 <= j < i - 1 implies (#[trigger] rest[j]).0 != rest[i - 1].0 by {
            assert(formats[j + 1].0 != formats[i].0);
        }
        lemma_first_is_served(rest, i - 1);
    }
}

/// A request for the content, in global memory among other media or alone, is answered with the
/// bytes of the first entry with its format, whichever index it has.
pub proof fn law_first_entry_answers(
    formats: Seq<(u16, Seq<u8>)>,
    request: FormatEtc,
    i: int,
)
    requires
        is_first_of_format(formats, i),
        request.format == formats[i].0,
        request.aspect == 1,
        request.tymed % 2 == 1,
    ensures
        payload_for(formats, Some(request)) == Some(formats[i].1),
{
    lemma_first_is_served(formats, i);
}

/// A request that is missing, that is not for the content, that does not take global memory, or
/// whose format no entry has, is not answered.
pub proof fn law_other_requests_are_not_answered(
    formats: Seq<(u16, Seq<u8>)>,
    request: FormatEtc,
)
    requires
        request.aspect != 1 || request.tymed % 2 == 0 || (forall|i: int|
            0 <= i < formats.len() ==> (#[trigger] formats[i]).0 != request.format),
    ensures
        payload_for(formats, Some(request)) is None,
        payload_for(formats, None) is None,
{
    if payload_for(formats, Some(request)) is Some {
        law_only_listed_formats_are_served(formats, request);
    }
}

/// The request for a format is for its whole content, in global memory alone.
pub proof fn law_request_is_for_the_whole_content(format: u16)
    ensures
        content_of(format).format == format,
        content_of(format).aspect == 1,
        content_of(format).index == -1,
        content_of(format).tymed == 1,
{
}

/// A path is dragged under what the simple form of its text is encoded as. One whose code units
/// are no text is dragged under these. Nothing but a verbatim drive prefix is ever left out.
pub proof fn law_path_is_dragged_under_its_simple_form(path: DragPath, text: Seq<char>)
    ensures
        path matches DragPath::Text(given) ==> path.name() == crate::text::utf16(
            simple_path(given@),
        ),
        path matches DragPath::Wide(wide) ==> {
            &&& wide@ == crate::text::utf16(text) ==> path.name() == crate::text::utf16(
                simple_path(text),
            )
            &&& (forall|other: Seq<char>| #[trigger] crate::text::utf16(other) != wide@)
                ==> path.name() == wide@
        },
{
    crate::text::law_encoded_text_is_decoded(text);
}

/// The simple form of a path is the path, or all of it but a leading `\\?\` in front of a drive.
pub proof fn law_simple_form_means_the_same(path: Seq<char>, simple: Seq<char>)
    requires
        simplifies_to(path, simple),
    ensures
        simple == path || path == seq!['\\', '\\', '?', '\\'] + simple && simple.len() >= 2
            && simple[1] == ':',
{
    if simple != path {
        assert(path =~= path.take(4) + path.skip(4));
    }
}

/// An object that offers files offers the one format of file lists, with the names of all paths
/// in order.
pub proof fn law_files_are_offered_in_order(formats: Seq<(u16, Seq<u8>)>, paths: Seq<DragPath>)
    requires
        offers_files(formats, paths),
    ensures
        formats.len() == 1,
        formats[0].0 == 15,
        exists|names: Seq<Seq<u16>>|
            {
                &&& names.len() == paths.len()
                &&& forall|i: int| 0 <= i < paths.len() ==> #[trigger] names[i] == paths[i].name()
                &&& formats[0].1 == #[trigger] hdrop_bytes(names)
            },
        forall|i: int| 0 <= i < paths.len() ==> (#[trigger] paths[i]).is_simplified(),
{
    let names = drag_names(paths);
    assert(formats[0].1 == hdrop_bytes(names));
}

/// The format of private drags is named after the application, or after an unknown one, and is
/// served with the bytes `gpui`.
pub proof fn law_private_format_is_named_after_the_application(identity: Seq<char>)
    ensures
        private_drag_name(Some(identity)) == "app.gpui.private-drag."@ + identity,
        private_drag_name(None) == "app.gpui.private-drag."@ + "unknown"@,
        private_drag_bytes() == seq![0x67u8, 0x70u8, 0x75u8, 0x69u8],
{
}

/// A registration fails exactly with zero. Any other number is a format by its low sixteen bits.
pub proof fn law_registration_gives_its_low_bits(id: u32)
    ensures
        format_of(id) is None <==> id == 0,
        format_of(id) matches Some(format) ==> exists|high: int|
            id == #[trigger] (high * 0x1_0000) + format,
{
    if id != 0 {
        let high = (id / 0x1_0000) as int;
        assert(id == (high * 0x1_0000) + format_of(id)->0);
    }
}

/// A drag of files starts exactly where there are files, whatever the private format is; a
/// private one exactly where the format is there. Only a drag of files has the cursors of the
/// system, and each offers its one format.
pub proof fn law_drag_starts_where_it_can(
    payload: ExternalDragPayload,
    private_format: Option<u16>,
    start: Option<DragStart>,
)
    requires
        starts_as(payload, private_format, start),
    ensures
        payload matches ExternalDragPayload::Files(paths) ==> (start is None <==> paths@.len()
            == 0),
        payload is AppPrivate ==> (start is None <==> private_format is None),
        start matches Some(start) ==> {
            &&& start.use_default_cursors <==> payload is Files
            &&& start.data_object@.len() == 1
            &&& payload is Files ==> start.data_object@[0].0 == 15
            &&& payload matches ExternalDragPayload::Files(paths) ==> offers_files(
                start.data_object@,
                paths@,
            )
            &&& payload is AppPrivate ==> Some(start.data_object@[0].0) == private_format
                && start.data_object@[0].1 == private_drag_bytes()
        },
{
}

/// A request for data is answered with what the object serves, and otherwise turned down for its
/// format.
pub proof fn law_data_is_what_is_served(
    formats: Seq<(u16, Seq<u8>)>,
    request: Option<FormatEtc>,
)
    ensures
        data_reply(formats, request) is Ok <==> payload_for(formats, request) is Some,
        data_reply(formats, request) matches Ok(bytes) ==> payload_for(formats, request) == Some(
            bytes,
        ),
        data_reply(formats, request) matches Err(error) ==> error == DataObjectError::FormatEtc,
{
}

/// The formats that can be read are listed one for one, in order, each as a request that the
/// object serves. No other direction is listed.
pub proof fn law_formats_are_listed_in_order(
    formats: Seq<(u16, Seq<u8>)>,
    direction: u32,
    i: int,
)
    ensures
        format_reply(formats, direction) is Ok <==> direction == 1,
        format_reply(formats, direction) matches Err(error) ==> error
            == DataObjectError::NotImplemented,
        format_reply(formats, direction) matches Ok(listed) ==> {
            &&& listed.len() == formats.len()
            &&& 0 <= i < formats.len() ==> listed[i].format == formats[i].0 && payload_for(
                formats,
                Some(listed[i]),
            ) is Some
        },
{
    if direction == 1 && 0 <= i < formats.len() {
        law_listed_formats_are_served(formats, i);
    }
}

/// A private drag serves its one format, with bytes that only fill it, exactly where the format
/// is registered.
pub proof fn law_private_drag_serves_its_format(format: u16)
    ensures
        private_formats(None) is None,
        private_formats(Some(format)) matches Some(formats) && formats.len() == 1 && formats[0].0
            == format && formats[0].1.len() == 4,
{
}

} // verus!
