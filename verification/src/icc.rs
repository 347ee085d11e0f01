//! Reading the primaries of an ICC display profile.

use vstd::prelude::*;

verus! {

/// A CIE XYZ value in the profile connection space, each component a signed fixed-point
/// number with sixteen fractional bits.
#[derive(Clone, Copy, Debug, PartialEq, Eq, Structural)]
pub struct Xyz {
    pub x: i32,
    pub y: i32,
    pub z: i32,
}

/// The colorants of a display: what its red, green and blue are in XYZ.
#[derive(Clone, Copy, Debug, PartialEq, Eq, Structural)]
pub struct Primaries {
    pub red: Xyz,
    pub green: Xyz,
    pub blue: Xyz,
}

/// Entries past this many are not looked at, whatever the profile's own count says.
pub const MAX_TAGS: u32 = 1024;

/// The signature that every profile carries: `acsp`.
pub const PROFILE_SIGNATURE: [u8; 4] = [0x61, 0x63, 0x73, 0x70];

/// The type signature of a tag that holds an XYZ value: `XYZ `.
pub const XYZ_SIGNATURE: [u8; 4] = [0x58, 0x59, 0x5a, 0x20];

/// `rXYZ`, the tag of the red colorant.
pub const RED_TAG: [u8; 4] = [0x72, 0x58, 0x59, 0x5a];

/// `gXYZ`, the tag of the green colorant.
pub const GREEN_TAG: [u8; 4] = [0x67, 0x58, 0x59, 0x5a];

/// `bXYZ`, the tag of the blue colorant.
pub const BLUE_TAG: [u8; 4] = [0x62, 0x58, 0x59, 0x5a];

/// The four bytes from `at` on, most significant first.
pub open spec fn be_u32(bytes: Seq<u8>, at: int) -> int {
    bytes[at] * 0x100_0000 + bytes[at + 1] * 0x1_0000 + bytes[at + 2] * 0x100 + bytes[at + 3]
}

/// The two's complement reading of a 32-bit number.
pub open spec fn as_signed(value: int) -> int {
    if value < 0x8000_0000 {
        value
    } else {
        value - 0x1_0000_0000
    }
}

/// Whether the four bytes of `signature` stand at `at`.
pub open spec fn has_signature(bytes: Seq<u8>, at: int, signature: Seq<u8>) -> bool {
    &&& 0 <= at
    &&& at + 4 <= bytes.len()
    &&& bytes.subrange(at, at + 4) == signature
}

/// Whether `bytes` begins like a profile that has a tag table.
pub open spec fn is_profile(bytes: Seq<u8>) -> bool {
    has_signature(bytes, 36, PROFILE_SIGNATURE@) && bytes.len() >= 132
}

/// How many entries of the tag table are looked at.
pub open spec fn tag_count(bytes: Seq<u8>) -> int {
    if be_u32(bytes, 128) < MAX_TAGS {
        be_u32(bytes, 128)
    } else {
        MAX_TAGS as int
    }
}

/// Where the entry with the given number stands: after the header and the count.
pub open spec fn entry_offset(tag: int) -> int {
    132 + 12 * tag
}

/// Whether `tag` is the first entry of the table with this signature.
pub open spec fn is_first_entry(bytes: Seq<u8>, signature: Seq<u8>, tag: int) -> bool {
    &&& 0 <= tag < tag_count(bytes)
    &&& has_signature(bytes, entry_offset(tag), signature)
    &&& forall|other: int|
        0 <= other < tag ==> !has_signature(bytes, #[trigger] entry_offset(other), signature)
}

/// The XYZ value whose tag data starts at `at`: a type signature, four reserved bytes and the
/// three components.
pub open spec fn xyz_at(bytes: Seq<u8>, at: int) -> Option<Xyz> {
    if has_signature(bytes, at, XYZ_SIGNATURE@) && at + 20 <= bytes.len() {
        Some(
            Xyz {
                x: as_signed(be_u32(bytes, at + 8)) as i32,
                y: as_signed(be_u32(bytes, at + 12)) as i32,
                z: as_signed(be_u32(bytes, at + 16)) as i32,
            },
        )
    } else {
        None
    }
}

/// The XYZ value of the first tag with this signature.
pub open spec fn xyz_tag(bytes: Seq<u8>, signature: Seq<u8>) -> Option<Xyz> {
    if is_profile(bytes) && exists|tag: int| is_first_entry(bytes, signature, tag) {
        let entry = entry_offset(choose|tag: int| is_first_entry(bytes, signature, tag));
        if entry + 8 <= bytes.len() {
            xyz_at(bytes, be_u32(bytes, entry + 4))
        } else {
            None
        }
    } else {
        None
    }
}

/// The colorants that a profile's tags give, where all three are there.
pub open spec fn profile_primaries(bytes: Seq<u8>) -> Option<Primaries> {
    match (xyz_tag(bytes, RED_TAG@), xyz_tag(bytes, GREEN_TAG@), xyz_tag(bytes, BLUE_TAG@)) {
        (Some(red), Some(green), Some(blue)) => Some(Primaries { red, green, blue }),
        _ => None,
    }
}

fn read_u32(bytes: &[u8], offset: usize) -> (value: Option<u32>)
    ensures
        value is Some <==> offset + 4 <= bytes@.len(),
        value matches Some(number) ==> number == be_u32(bytes@, offset as int),
{
    if bytes.len() < 4 || offset > bytes.len() - 4 {
        return None;
    }
    Some(
        bytes[offset] as u32 * 0x100_0000 + bytes[offset + 1] as u32 * 0x1_0000 + bytes[offset
            + 2] as u32 * 0x100 + bytes[offset + 3] as u32,
    )
}

fn matches_signature(bytes: &[u8], at: usize, signature: &[u8; 4]) -> (found: bool)
    ensures
        found == has_signature(bytes@, at as int, signature@),
{
    if bytes.len() < 4 || at > bytes.len() - 4 {
        return false;
    }
    let found = bytes[at] == signature[0] && bytes[at + 1] == signature[1] && bytes[at + 2]
        == signature[2] && bytes[at + 3] == signature[3];
    proof {
        let part = bytes@.subrange(at as int, at + 4);
        assert(forall|i: int| 0 <= i < 4 ==> part[i] == bytes@[at + i]);
        if found {
            assert(part =~= signature@);
        }
        assert(part == signature@ ==> part[0] == signature@[0] && part[1] == signature@[1]
            && part[2] == signature@[2] && part[3] == signature@[3]);
    }
    found
}

fn read_signed(bytes: &[u8], offset: usize) -> (value: Option<i32>)
    ensures
        value is Some <==> offset + 4 <= bytes@.len(),
        value matches Some(number) ==> number == as_signed(be_u32(bytes@, offset as int)),
{
    match read_u32(bytes, offset) {
        Some(number) => {
            assert(number < 0x8000_0000u32 ==> number as i32 == number) by (bit_vector);
            assert(number >= 0x8000_0000u32 ==> number as i32 == number - 0x1_0000_0000)
                by (bit_vector);
            Some(number as i32)
        },
        None => None,
    }
}

fn read_xyz(bytes: &[u8], at: usize) -> (value: Option<Xyz>)
    ensures
        value == xyz_at(bytes@, at as int),
{
    if !matches_signature(bytes, at, &XYZ_SIGNATURE) {
        return None;
    }
    if bytes.len() < 20 || at > bytes.len() - 20 {
        return None;
    }
    match (read_signed(bytes, at + 8), read_signed(bytes, at + 12), read_signed(bytes, at + 16)) {
        (Some(x), Some(y), Some(z)) => Some(Xyz { x, y, z }),
        _ => None,
    }
}

/// Reads the XYZ value of the first tag of a profile with the given signature. `None` where
/// `bytes` is no profile, has no such tag, or is cut short.
pub fn icc_xyz_tag(bytes: &[u8], signature: &[u8; 4]) -> (value: Option<Xyz>)
    ensures
        value == xyz_tag(bytes@, signature@),
{
    if !matches_signature(bytes, 36, &PROFILE_SIGNATURE) {
        return None;
    }
    let declared: u32 = match read_u32(bytes, 128) {
        Some(declared) => declared,
        None => {
            return None;
        },
    };
    let count: u32 = if declared < MAX_TAGS {
        declared
    } else {
        MAX_TAGS
    };
    let mut tag: u32 = 0;
    while tag < count
        invariant
            is_profile(bytes@),
            count == tag_count(bytes@),
            count <= MAX_TAGS,
            tag <= count,
            forall|other: int|
                0 <= other < tag ==> !has_signature(
                    bytes@,
                    #[trigger] entry_offset(other),
                    signature@,
                ),
        decreases count - tag,
    {
        let entry: usize = 132 + tag as usize * 12;
        assert(entry == entry_offset(tag as int));
        if matches_signature(bytes, entry, signature) {
            assert(is_first_entry(bytes@, signature@, tag as int));
            let ghost chosen = choose|tag: int| is_first_entry(bytes@, signature@, tag);
            assert(chosen == tag) by {
                assert(is_first_entry(bytes@, signature@, chosen));
                assert(has_signature(bytes@, entry_offset(chosen), signature@));
                assert(has_signature(bytes@, entry_offset(tag as int), signature@));
            }
            return match read_u32(bytes, entry + 4) {
                Some(offset) => read_xyz(bytes, offset as usize),
                None => None,
            };
        }
        tag = tag + 1;
    }
    assert(forall|tag: int| !is_first_entry(bytes@, signature@, tag)) by {
        assert forall|tag: int| !is_first_entry(bytes@, signature@, tag) by {
            if is_first_entry(bytes@, signature@, tag) {
                assert(has_signature(bytes@, entry_offset(tag), signature@));
            }
        }
    }
    None
}

impl Primaries {
    /// A row of the matrix from the display's linear RGB to XYZ.
    pub open spec fn row(self, row: int) -> Seq<i32> {
        if row == 0 {
            seq![self.red.x, self.green.x, self.blue.x]
        } else if row == 1 {
            seq![self.red.y, self.green.y, self.blue.y]
        } else {
            seq![self.red.z, self.green.z, self.blue.z]
        }
    }

    /// The matrix from the display's linear RGB to XYZ: each colorant is a column.
    pub fn display_to_xyz(&self) -> (rows: [[i32; 3]; 3])
        ensures
            rows[0]@ == self.row(0),
            rows[1]@ == self.row(1),
            rows[2]@ == self.row(2),
            rows[0]@ == seq![self.red.x, self.green.x, self.blue.x],
            rows[1]@ == seq![self.red.y, self.green.y, self.blue.y],
            rows[2]@ == seq![self.red.z, self.green.z, self.blue.z],
    {
        let rows = [
            [self.red.x, self.green.x, self.blue.x],
            [self.red.y, self.green.y, self.blue.y],
            [self.red.z, self.green.z, self.blue.z],
        ];
        assert(rows[0]@ =~= seq![self.red.x, self.green.x, self.blue.x]);
        assert(rows[1]@ =~= seq![self.red.y, self.green.y, self.blue.y]);
        assert(rows[2]@ =~= seq![self.red.z, self.green.z, self.blue.z]);
        rows
    }
}

/// Reads the colorants of a display profile. `None` unless all three are there.
pub fn primaries_from_icc(bytes: &[u8]) -> (primaries: Option<Primaries>)
    ensures
        primaries == profile_primaries(bytes@),
{
    let red: Xyz = match icc_xyz_tag(bytes, &RED_TAG) {
        Some(red) => red,
        None => {
            return None;
        },
    };
    let green: Xyz = match icc_xyz_tag(bytes, &GREEN_TAG) {
        Some(green) => green,
        None => {
            return None;
        },
    };
    match icc_xyz_tag(bytes, &BLUE_TAG) {
        Some(blue) => Some(Primaries { red, green, blue }),
        None => None,
    }
}

proof fn lemma_signature_of_prefix(bytes: Seq<u8>, rest: Seq<u8>, at: int, signature: Seq<u8>)
    requires
        at + 4 <= bytes.len(),
    ensures
        has_signature(bytes + rest, at, signature) == has_signature(bytes, at, signature),
{
    if 0 <= at {
        assert((bytes + rest).subrange(at, at + 4) =~= bytes.subrange(at, at + 4));
    }
}

/// What a profile says of a colorant stays the same whatever follows the profile's bytes.
pub proof fn law_trailing_bytes_do_not_matter(bytes: Seq<u8>, rest: Seq<u8>, signature: Seq<u8>)
    requires
        xyz_tag(bytes, signature) is Some,
    ensures
        xyz_tag(bytes + rest, signature) == xyz_tag(bytes, signature),
{
    let longer = bytes + rest;
    lemma_signature_of_prefix(bytes, rest, 36, PROFILE_SIGNATURE@);
    let tag = choose|tag: int| is_first_entry(bytes, signature, tag);
    assert(is_first_entry(longer, signature, tag)) by {
        lemma_signature_of_prefix(bytes, rest, entry_offset(tag), signature);
        assert forall|other: int| 0 <= other < tag implies !has_signature(
            longer,
            #[trigger] entry_offset(other),
            signature,
        ) by {
            lemma_signature_of_prefix(bytes, rest, entry_offset(other), signature);
        }
    }
    let longer_tag = choose|tag: int| is_first_entry(longer, signature, tag);
    assert(longer_tag == tag) by {
        assert(is_first_entry(longer, signature, longer_tag));
        assert(has_signature(longer, entry_offset(longer_tag), signature));
        assert(has_signature(longer, entry_offset(tag), signature));
    }
    let at = be_u32(bytes, entry_offset(tag) + 4);
    lemma_signature_of_prefix(bytes, rest, at, XYZ_SIGNATURE@);
}

/// Whether two profiles have the same bytes in a range.
pub open spec fn agree(left: Seq<u8>, right: Seq<u8>, from: int, to: int) -> bool {
    forall|i: int| from <= i < to && 0 <= i < left.len() ==> #[trigger] left[i] == right[i]
}

/// Whether two profiles of one length have the same signature and the same tag table.
pub open spec fn same_table(left: Seq<u8>, right: Seq<u8>) -> bool {
    &&& left.len() == right.len()
    &&& agree(left, right, 36, 40)
    &&& agree(left, right, 128, 132)
    &&& agree(left, right, 132, entry_offset(tag_count(left)))
}

/// Whether two profiles have the same bytes in the tag that a signature leads to.
pub open spec fn same_tag_data(left: Seq<u8>, right: Seq<u8>, signature: Seq<u8>) -> bool {
    forall|tag: int| #[trigger]
        is_first_entry(left, signature, tag) ==> agree(
            left,
            right,
            be_u32(left, entry_offset(tag) + 4),
            be_u32(left, entry_offset(tag) + 4) + 20,
        )
}

proof fn lemma_signature_agrees(left: Seq<u8>, right: Seq<u8>, at: int, signature: Seq<u8>)
    requires
        left.len() == right.len(),
        agree(left, right, at, at + 4),
    ensures
        has_signature(left, at, signature) == has_signature(right, at, signature),
{
    if 0 <= at && at + 4 <= left.len() {
        assert(left.subrange(at, at + 4) =~= right.subrange(at, at + 4));
    }
}

proof fn lemma_number_agrees(left: Seq<u8>, right: Seq<u8>, at: int)
    requires
        left.len() == right.len(),
        0 <= at,
        at + 4 <= left.len(),
        agree(left, right, at, at + 4),
    ensures
        be_u32(left, at) == be_u32(right, at),
{
    assert(left[at] == right[at]);
    assert(left[at + 1] == right[at + 1]);
    assert(left[at + 2] == right[at + 2]);
    assert(left[at + 3] == right[at + 3]);
}

proof fn lemma_entry_agrees(left: Seq<u8>, right: Seq<u8>, tag: int, signature: Seq<u8>)
    requires
        same_table(left, right),
        0 <= tag < tag_count(left),
    ensures
        has_signature(left, entry_offset(tag), signature) == has_signature(
            right,
            entry_offset(tag),
            signature,
        ),
        entry_offset(tag) + 8 <= left.len() ==> be_u32(left, entry_offset(tag) + 4) == be_u32(
            right,
            entry_offset(tag) + 4,
        ),
{
    let entry = entry_offset(tag);
    assert(entry + 12 <= entry_offset(tag_count(left)));
    assert(agree(left, right, entry, entry + 4));
    lemma_signature_agrees(left, right, entry, signature);
    if entry + 8 <= left.len() {
        assert(agree(left, right, entry + 4, entry + 8));
        lemma_number_agrees(left, right, entry + 4);
    }
}

proof fn lemma_first_entry_agrees(left: Seq<u8>, right: Seq<u8>, signature: Seq<u8>, tag: int)
    requires
        same_table(left, right),
        is_profile(left),
    ensures
        is_first_entry(left, signature, tag) == is_first_entry(right, signature, tag),
{
    lemma_number_agrees(left, right, 128);
    assert(tag_count(left) == tag_count(right));
    if 0 <= tag < tag_count(left) {
        lemma_entry_agrees(left, right, tag, signature);
        assert forall|other: int| 0 <= other < tag implies has_signature(
            left,
            #[trigger] entry_offset(other),
            signature,
        ) == has_signature(right, entry_offset(other), signature) by {
            lemma_entry_agrees(left, right, other, signature);
        }
    }
}

/// Nothing of a profile matters but its signature, its tag table and the data of the tag that is
/// asked for. In particular the transfer curves of a display do not.
pub proof fn law_only_the_tag_matters(left: Seq<u8>, right: Seq<u8>, signature: Seq<u8>)
    requires
        same_table(left, right),
        same_tag_data(left, right, signature),
    ensures
        xyz_tag(left, signature) == xyz_tag(right, signature),
{
    lemma_signature_agrees(left, right, 36, PROFILE_SIGNATURE@);
    if is_profile(left) {
        assert forall|tag: int| is_first_entry(left, signature, tag) == is_first_entry(
            right,
            signature,
            tag,
        ) by {
            lemma_first_entry_agrees(left, right, signature, tag);
        }
        if exists|tag: int| is_first_entry(left, signature, tag) {
            let tag = choose|tag: int| is_first_entry(left, signature, tag);
            let right_tag = choose|tag: int| is_first_entry(right, signature, tag);
            assert(is_first_entry(right, signature, tag));
            assert(right_tag == tag) by {
                assert(is_first_entry(right, signature, right_tag));
                assert(has_signature(right, entry_offset(right_tag), signature));
                assert(has_signature(right, entry_offset(tag), signature));
            }
            lemma_entry_agrees(left, right, tag, signature);
            if entry_offset(tag) + 8 <= left.len() {
                let at = be_u32(left, entry_offset(tag) + 4);
                assert(agree(left, right, at, at + 20));
                assert(agree(left, right, at, at + 4));
                lemma_signature_agrees(left, right, at, XYZ_SIGNATURE@);
                if at + 20 <= left.len() {
                    assert(agree(left, right, at + 8, at + 12));
                    assert(agree(left, right, at + 12, at + 16));
                    assert(agree(left, right, at + 16, at + 20));
                    lemma_number_agrees(left, right, at + 8);
                    lemma_number_agrees(left, right, at + 12);
                    lemma_number_agrees(left, right, at + 16);
                }
            }
        }
    }
}

/// Whether `part` stands in `bytes` from `at` on.
pub open spec fn stands_at(bytes: Seq<u8>, at: int, part: Seq<u8>) -> bool {
    &&& 0 <= at
    &&& at + part.len() <= bytes.len()
    &&& forall|i: int| 0 <= i < part.len() ==> #[trigger] part[i] == bytes[at + i]
}

/// The four bytes that a number is written as, most significant first.
pub open spec fn number_bytes(number: int) -> Seq<u8> {
    seq![
        (number / 0x100_0000) as u8,
        ((number / 0x1_0000) % 0x100) as u8,
        ((number / 0x100) % 0x100) as u8,
        (number % 0x100) as u8,
    ]
}

/// The four bytes that a component is written as: in two's complement, most significant first.
pub open spec fn component_bytes(component: i32) -> Seq<u8> {
    number_bytes(
        if component >= 0 {
            component as int
        } else {
            component + 0x1_0000_0000
        },
    )
}

/// Where an entry of the tag table is written.
pub open spec fn entry_place(tag: int) -> int {
    132 + tag * 12
}

/// Whether an XYZ value is written in a profile: the profile's signature and the number of its
/// tags, as the first one with the signature that is looked for an entry that leads to the place
/// of the value, and there the type of the tag and the three components.
pub open spec fn is_written(
    bytes: Seq<u8>,
    signature: Seq<u8>,
    value: Xyz,
    count: int,
    tag: int,
    at: int,
) -> bool {
    &&& stands_at(bytes, 36, seq![0x61u8, 0x63u8, 0x73u8, 0x70u8])
    &&& 0 <= count < 0x1_0000_0000
    &&& stands_at(bytes, 128, number_bytes(count))
    &&& 0 <= tag < count && tag < 1024
    &&& stands_at(bytes, entry_place(tag), signature)
    &&& forall|other: int|
        0 <= other < tag ==> !stands_at(bytes, #[trigger] entry_place(other), signature)
    &&& 0 <= at < 0x1_0000_0000
    &&& stands_at(bytes, entry_place(tag) + 4, number_bytes(at))
    &&& stands_at(bytes, at, seq![0x58u8, 0x59u8, 0x5au8, 0x20u8])
    &&& stands_at(bytes, at + 8, component_bytes(value.x))
    &&& stands_at(bytes, at + 12, component_bytes(value.y))
    &&& stands_at(bytes, at + 16, component_bytes(value.z))
}

proof fn lemma_four_stand(bytes: Seq<u8>, at: int, part: Seq<u8>)
    requires
        part.len() == 4,
    ensures
        stands_at(bytes, at, part) <==> 0 <= at && at + 4 <= bytes.len() && bytes[at] == part[0]
            && bytes[at + 1] == part[1] && bytes[at + 2] == part[2] && bytes[at + 3] == part[3],
        stands_at(bytes, at, part) <==> has_signature(bytes, at, part),
{
    if stands_at(bytes, at, part) {
        assert(part[0] == bytes[at + 0]);
        assert(part[1] == bytes[at + 1]);
        assert(part[2] == bytes[at + 2]);
        assert(part[3] == bytes[at + 3]);
        assert(bytes.subrange(at, at + 4) =~= part);
    }
    if has_signature(bytes, at, part) {
        let found = bytes.subrange(at, at + 4);
        assert(forall|i: int| 0 <= i < 4 ==> #[trigger] found[i] == bytes[at + i]);
    }
}

proof fn lemma_number_stands(bytes: Seq<u8>, at: int, number: int)
    requires
        0 <= number < 0x1_0000_0000,
        0 <= at,
        at + 4 <= bytes.len(),
    ensures
        stands_at(bytes, at, number_bytes(number)) <==> be_u32(bytes, at) == number,
{
    lemma_four_stand(bytes, at, number_bytes(number));
    let (a, b, c, d) = (bytes[at], bytes[at + 1], bytes[at + 2], bytes[at + 3]);
    if be_u32(bytes, at) == number {
        assert(number / 0x100_0000 == a);
        assert(number / 0x1_0000 == a * 0x100 + b);
        assert(number / 0x100 == a * 0x1_0000 + b * 0x100 + c);
    }
}

proof fn lemma_component_stands(bytes: Seq<u8>, at: int, component: i32)
    requires
        0 <= at,
        at + 4 <= bytes.len(),
    ensures
        stands_at(bytes, at, component_bytes(component)) <==> as_signed(be_u32(bytes, at))
            == component,
{
    let number: int = if component >= 0 {
        component as int
    } else {
        component + 0x1_0000_0000
    };
    lemma_number_stands(bytes, at, number);
}

proof fn lemma_first_is_only(bytes: Seq<u8>, signature: Seq<u8>, left: int, right: int)
    requires
        is_first_entry(bytes, signature, left),
        is_first_entry(bytes, signature, right),
    ensures
        left == right,
{
    assert(has_signature(bytes, entry_offset(left), signature));
    assert(has_signature(bytes, entry_offset(right), signature));
}

/// Whatever XYZ value is written in a profile is the one that is read, each component with all
/// its bits and its sign.
pub proof fn law_written_value_is_read(
    bytes: Seq<u8>,
    signature: Seq<u8>,
    value: Xyz,
    count: int,
    tag: int,
    at: int,
)
    requires
        signature.len() == 4,
        is_written(bytes, signature, value, count, tag, at),
    ensures
        xyz_tag(bytes, signature) == Some(value),
{
    lemma_four_stand(bytes, 36, seq![0x61u8, 0x63u8, 0x73u8, 0x70u8]);
    assert(PROFILE_SIGNATURE@ =~= seq![0x61u8, 0x63u8, 0x73u8, 0x70u8]);
    lemma_four_stand(bytes, 128, number_bytes(count));
    lemma_number_stands(bytes, 128, count);
    lemma_four_stand(bytes, entry_place(tag), signature);
    lemma_four_stand(bytes, entry_place(tag) + 4, number_bytes(at));
    lemma_number_stands(bytes, entry_place(tag) + 4, at);
    lemma_four_stand(bytes, at, seq![0x58u8, 0x59u8, 0x5au8, 0x20u8]);
    assert(XYZ_SIGNATURE@ =~= seq![0x58u8, 0x59u8, 0x5au8, 0x20u8]);
    lemma_component_stands(bytes, at + 8, value.x);
    lemma_component_stands(bytes, at + 12, value.y);
    lemma_component_stands(bytes, at + 16, value.z);
    assert(is_first_entry(bytes, signature, tag)) by {
        assert forall|other: int| 0 <= other < tag implies !has_signature(
            bytes,
            #[trigger] entry_offset(other),
            signature,
        ) by {
            assert(!stands_at(bytes, entry_place(other), signature));
            lemma_four_stand(bytes, entry_place(other), signature);
        }
    }
    let chosen = choose|tag: int| is_first_entry(bytes, signature, tag);
    lemma_first_is_only(bytes, signature, chosen, tag);
}

/// Whatever XYZ value is read from a profile is written there.
pub proof fn law_read_value_is_written(bytes: Seq<u8>, signature: Seq<u8>, value: Xyz)
    requires
        signature.len() == 4,
        xyz_tag(bytes, signature) == Some(value),
    ensures
        exists|count: int, tag: int, at: int|
            is_written(bytes, signature, value, count, tag, at),
{
    let tag = choose|tag: int| is_first_entry(bytes, signature, tag);
    let count = be_u32(bytes, 128);
    let at = be_u32(bytes, entry_offset(tag) + 4);
    lemma_four_stand(bytes, 36, seq![0x61u8, 0x63u8, 0x73u8, 0x70u8]);
    assert(PROFILE_SIGNATURE@ =~= seq![0x61u8, 0x63u8, 0x73u8, 0x70u8]);
    lemma_number_stands(bytes, 128, count);
    lemma_four_stand(bytes, entry_place(tag), signature);
    lemma_number_stands(bytes, entry_place(tag) + 4, at);
    lemma_four_stand(bytes, at, seq![0x58u8, 0x59u8, 0x5au8, 0x20u8]);
    assert(XYZ_SIGNATURE@ =~= seq![0x58u8, 0x59u8, 0x5au8, 0x20u8]);
    lemma_component_stands(bytes, at + 8, value.x);
    lemma_component_stands(bytes, at + 12, value.y);
    lemma_component_stands(bytes, at + 16, value.z);
    assert forall|other: int| 0 <= other < tag implies !stands_at(
        bytes,
        #[trigger] entry_place(other),
        signature,
    ) by {
        assert(!has_signature(bytes, entry_offset(other), signature));
        lemma_four_stand(bytes, entry_place(other), signature);
    }
    assert(is_written(bytes, signature, value, count, tag, at));
}

/// A profile has primaries exactly where each of the three colorants can be read, and they are
/// what is read: red, green and blue under the tags `rXYZ`, `gXYZ` and `bXYZ`.
pub proof fn law_primaries_are_the_three_colorants(bytes: Seq<u8>, primaries: Primaries)
    ensures
        profile_primaries(bytes) == Some(primaries) <==> {
            &&& xyz_tag(bytes, seq![0x72u8, 0x58u8, 0x59u8, 0x5au8]) == Some(primaries.red)
            &&& xyz_tag(bytes, seq![0x67u8, 0x58u8, 0x59u8, 0x5au8]) == Some(primaries.green)
            &&& xyz_tag(bytes, seq![0x62u8, 0x58u8, 0x59u8, 0x5au8]) == Some(primaries.blue)
        },
{
    assert(RED_TAG@ =~= seq![0x72u8, 0x58u8, 0x59u8, 0x5au8]);
    assert(GREEN_TAG@ =~= seq![0x67u8, 0x58u8, 0x59u8, 0x5au8]);
    assert(BLUE_TAG@ =~= seq![0x62u8, 0x58u8, 0x59u8, 0x5au8]);
}

/// Each colorant is a column of the matrix, in the order of red, green and blue: full red, green
/// or blue is taken to the XYZ value of that colorant.
pub proof fn law_colorants_are_the_columns(primaries: Primaries)
    ensures
        forall|row: int| #[trigger] primaries.row(row).len() == 3,
        primaries.row(0)[0] == primaries.red.x,
        primaries.row(1)[0] == primaries.red.y,
        primaries.row(2)[0] == primaries.red.z,
        primaries.row(0)[1] == primaries.green.x,
        primaries.row(1)[1] == primaries.green.y,
        primaries.row(2)[1] == primaries.green.z,
        primaries.row(0)[2] == primaries.blue.x,
        primaries.row(1)[2] == primaries.blue.y,
        primaries.row(2)[2] == primaries.blue.z,
{
}

} // verus!
