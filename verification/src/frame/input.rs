//! What the events of the window mean: which map a dropped picture is for,
//! and how far a turn of the wheel or a key moves the camera.

use crate::opengl::textures::{
    ends_in, ends_with, ext_bmp, ext_hdr, ext_jpeg, ext_jpg, ext_png, ext_tiff, format_of,
    picture_format, LAST_UNIT,
};
use crate::text::{is_word, lower, word};
use vstd::prelude::*;

verus! {

/// The four maps that the main program samples, each on a unit of its own.
#[derive(Clone, Copy, Debug, PartialEq, Eq)]
pub enum MapKind {
    Diffuse,
    Normal,
    Specularity,
    Environment,
}

impl MapKind {
    /// The texture unit of the map: zero for the diffuse map, one for the
    /// normal map, two for the specularity map, three for the environment
    /// map.
    pub open spec fn unit_of(self) -> u32 {
        match self {
            MapKind::Diffuse => 0,
            MapKind::Normal => 1,
            MapKind::Specularity => 2,
            MapKind::Environment => 3,
        }
    }

    /// The texture unit of the map.
    pub fn unit(&self) -> (r: u32)
        ensures
            r == self.unit_of(),
            r <= LAST_UNIT,
    {
        match self {
            MapKind::Diffuse => 0,
            MapKind::Normal => 1,
            MapKind::Specularity => 2,
            MapKind::Environment => 3,
        }
    }

    /// The name of the uniform by which the main program samples the map.
    pub fn uniform(&self) -> (r: &'static str)
        ensures
            r@ == match self {
                MapKind::Diffuse => "diffuse_map"@,
                MapKind::Normal => "normal_map"@,
                MapKind::Specularity => "specularity_map"@,
                MapKind::Environment => "hdri"@,
            },
    {
        match self {
            MapKind::Diffuse => "diffuse_map",
            MapKind::Normal => "normal_map",
            MapKind::Specularity => "specularity_map",
            MapKind::Environment => "hdri",
        }
    }
}

/// What a dropped file is taken for.
#[derive(Clone, Copy, Debug, PartialEq, Eq)]
pub enum Dropped {
    /// A picture for one of the maps.
    Picture(MapKind),
    /// A mesh description.
    Mesh,
    /// Nothing that the renderer can use.
    Unsupported,
}

/// `needle` stands in `path` at offset `at`, letters read without regard to
/// case.
pub open spec fn stands_at(path: Seq<u8>, at: int, needle: Seq<u8>) -> bool {
    0 <= at && at + needle.len() <= path.len() && is_word(path, at, at + needle.len(), needle)
}

/// `needle` stands somewhere in `path`, letters read without regard to case.
pub open spec fn mentions(path: Seq<u8>, needle: Seq<u8>) -> bool {
    exists|at: int| #[trigger] stands_at(path, at, needle)
}

/// The bytes of `norm`.
pub open spec fn word_norm() -> Seq<u8> {
    seq![0x6eu8, 0x6fu8, 0x72u8, 0x6du8]
}

/// The bytes of `nrm`.
pub open spec fn word_nrm() -> Seq<u8> {
    seq![0x6eu8, 0x72u8, 0x6du8]
}

/// The bytes of `spec`.
pub open spec fn word_spec() -> Seq<u8> {
    seq![0x73u8, 0x70u8, 0x65u8, 0x63u8]
}

/// The bytes of `hdr`.
pub open spec fn word_hdr() -> Seq<u8> {
    seq![0x68u8, 0x64u8, 0x72u8]
}

/// The bytes of `env`.
pub open spec fn word_env() -> Seq<u8> {
    seq![0x65u8, 0x6eu8, 0x76u8]
}

/// The bytes of `ambient`.
pub open spec fn word_ambient() -> Seq<u8> {
    seq![0x61u8, 0x6du8, 0x62u8, 0x69u8, 0x65u8, 0x6eu8, 0x74u8]
}

/// The four bytes of `.obj`.
pub open spec fn ext_obj() -> Seq<u8> {
    seq![0x2eu8, 0x6fu8, 0x62u8, 0x6au8]
}

/// The map that the path of a picture names: the normal map if it mentions
/// `norm` or `nrm`, else the specularity map if it mentions `spec`, else the
/// environment map if it mentions `hdr`, `env` or `ambient`, else the diffuse
/// map. Case plays no part.
pub open spec fn map_of(path: Seq<u8>) -> MapKind {
    if mentions(path, word_norm()) || mentions(path, word_nrm()) {
        MapKind::Normal
    } else if mentions(path, word_spec()) {
        MapKind::Specularity
    } else if mentions(path, word_hdr()) || mentions(path, word_env()) || mentions(
        path,
        word_ambient(),
    ) {
        MapKind::Environment
    } else {
        MapKind::Diffuse
    }
}

/// What a dropped path is taken for: a path with the ending of a picture is a
/// map, the one that `map_of` tells; a path that ends in `.obj` is a mesh;
/// anything else is of no use. Case plays no part.
pub open spec fn dropped_of(path: Seq<u8>) -> Dropped {
    if format_of(path) is Some {
        Dropped::Picture(map_of(path))
    } else if ends_in(path, ext_obj()) {
        Dropped::Mesh
    } else {
        Dropped::Unsupported
    }
}

/// Whether `needle` stands somewhere in `path` without regard to case.
pub fn contains(path: &[u8], needle: &[u8]) -> (r: bool)
    ensures
        r == mentions(path@, needle@),
{
    if needle.len() > path.len() {
        return false;
    }
    let last = path.len() - needle.len();
    let mut at: usize = 0;
    loop
        invariant
            needle@.len() <= path@.len() <= usize::MAX,
            last == path@.len() - needle@.len(),
            0 <= at <= last,
            forall|k: int| k < at ==> !#[trigger] stands_at(path@, k, needle@),
        decreases last - at,
    {
        if word(path, at, at + needle.len(), needle) {
            assert(stands_at(path@, at as int, needle@));
            return true;
        }
        if at == last {
            return false;
        }
        at += 1;
    }
}

/// The map that the path of a picture names.
pub fn map_kind(path: &[u8]) -> (r: MapKind)
    ensures
        r == map_of(path@),
{
    let norm: [u8; 4] = [0x6e, 0x6f, 0x72, 0x6d];
    let nrm: [u8; 3] = [0x6e, 0x72, 0x6d];
    let spec: [u8; 4] = [0x73, 0x70, 0x65, 0x63];
    let hdr: [u8; 3] = [0x68, 0x64, 0x72];
    let env: [u8; 3] = [0x65, 0x6e, 0x76];
    let ambient: [u8; 7] = [0x61, 0x6d, 0x62, 0x69, 0x65, 0x6e, 0x74];
    assert(norm@ =~= word_norm());
    assert(nrm@ =~= word_nrm());
    assert(spec@ =~= word_spec());
    assert(hdr@ =~= word_hdr());
    assert(env@ =~= word_env());
    assert(ambient@ =~= word_ambient());
    if contains(path, norm.as_slice()) || contains(path, nrm.as_slice()) {
        MapKind::Normal
    } else if contains(path, spec.as_slice()) {
        MapKind::Specularity
    } else if contains(path, hdr.as_slice()) || contains(path, env.as_slice()) || contains(
        path,
        ambient.as_slice(),
    ) {
        MapKind::Environment
    } else {
        MapKind::Diffuse
    }
}

/// What the dropped file `path` is taken for.
pub fn classify(path: &[u8]) -> (r: Dropped)
    ensures
        r == dropped_of(path@),
{
    let obj: [u8; 4] = [0x2e, 0x6f, 0x62, 0x6a];
    assert(obj@ =~= ext_obj());
    if picture_format(path).is_some() {
        Dropped::Picture(map_kind(path))
    } else if ends_with(path, obj.as_slice()) {
        Dropped::Mesh
    } else {
        Dropped::Unsupported
    }
}

/// How the wheel reports its turn.
#[derive(Clone, Copy, Debug, PartialEq, Eq)]
pub enum ScrollUnit {
    /// In lines.
    Line,
    /// In pixels.
    Pixel,
}

/// The keys that the renderer tells apart.
#[derive(Clone, Copy, Debug, PartialEq, Eq)]
pub enum Key {
    A,
    D,
    Other,
}

/// A move of the camera. Amounts are fractions, so that no rounding takes
/// place before the camera adds them to its position.
#[derive(Clone, Copy, Debug, PartialEq, Eq)]
pub enum Shift {
    /// Along the forward axis by the turn of the wheel divided by `divisor`.
    Forward { divisor: u32 },
    /// Along the horizontal axis by `tenths` tenths of a unit.
    Sideways { tenths: i32 },
}

/// The divisor of a turn in lines.
pub const LINE_DIVISOR: u32 = 5;

/// The divisor of a turn in pixels.
pub const PIXEL_DIVISOR: u32 = 200;

/// The move for a turn of the wheel: forward by the turn divided by five for
/// lines and by two hundred for pixels.
pub open spec fn scroll_of(unit: ScrollUnit) -> Shift {
    match unit {
        ScrollUnit::Line => Shift::Forward { divisor: LINE_DIVISOR },
        ScrollUnit::Pixel => Shift::Forward { divisor: PIXEL_DIVISOR },
    }
}

/// The move for a key: a tenth to the left for `A`, a tenth to the right for
/// `D`, none for any other key.
pub open spec fn key_of(key: Key) -> Option<Shift> {
    match key {
        Key::A => Some(Shift::Sideways { tenths: -1i32 }),
        Key::D => Some(Shift::Sideways { tenths: 1i32 }),
        Key::Other => None,
    }
}

/// The move of the camera for a turn of the wheel.
pub fn scroll_shift(unit: ScrollUnit) -> (r: Shift)
    ensures
        r == scroll_of(unit),
{
    match unit {
        ScrollUnit::Line => Shift::Forward { divisor: LINE_DIVISOR },
        ScrollUnit::Pixel => Shift::Forward { divisor: PIXEL_DIVISOR },
    }
}

/// The move of the camera for a key, if it has one.
pub fn key_shift(key: Key) -> (r: Option<Shift>)
    ensures
        r == key_of(key),
{
    match key {
        Key::A => Some(Shift::Sideways { tenths: -1 }),
        Key::D => Some(Shift::Sideways { tenths: 1 }),
        Key::Other => None,
    }
}

/// Two texts read the same when case is left aside: they are equally long,
/// and byte for byte the lower-case forms agree.
pub open spec fn same_but_case(a: Seq<u8>, b: Seq<u8>) -> bool {
    &&& a.len() == b.len()
    &&& forall|i: int| 0 <= i < a.len() ==> lower(#[trigger] a[i]) == lower(b[i])
}

/// A word stands in one of two texts that read the same where it stands in
/// the other.
proof fn lemma_same_word(a: Seq<u8>, b: Seq<u8>, from: int, to: int, letters: Seq<u8>)
    requires
        same_but_case(a, b),
        0 <= from <= to <= a.len(),
    ensures
        is_word(a, from, to, letters) == is_word(b, from, to, letters),
{
    if to - from == letters.len() {
        assert forall|k: int| 0 <= k < letters.len() implies (lower(#[trigger] a[from + k])
            == letters[k]) == (lower(b[from + k]) == letters[k]) by {
            assert(lower(a[from + k]) == lower(b[from + k]));
        }
        if is_word(a, from, to, letters) {
            assert forall|k: int| 0 <= k < letters.len() implies lower(#[trigger] b[from + k])
                == letters[k] by {
                assert(lower(a[from + k]) == letters[k]);
            }
        }
        if is_word(b, from, to, letters) {
            assert forall|k: int| 0 <= k < letters.len() implies lower(#[trigger] a[from + k])
                == letters[k] by {
                assert(lower(b[from + k]) == letters[k]);
            }
        }
    }
}

/// One of two texts that read the same mentions what the other mentions.
proof fn lemma_same_mentions(a: Seq<u8>, b: Seq<u8>, needle: Seq<u8>)
    requires
        same_but_case(a, b),
    ensures
        mentions(a, needle) == mentions(b, needle),
{
    if mentions(a, needle) {
        let at = choose|at: int| #[trigger] stands_at(a, at, needle);
        lemma_same_word(a, b, at, at + needle.len(), needle);
        assert(stands_at(b, at, needle));
    }
    if mentions(b, needle) {
        let at = choose|at: int| #[trigger] stands_at(b, at, needle);
        lemma_same_word(a, b, at, at + needle.len(), needle);
        assert(stands_at(a, at, needle));
    }
}

/// One of two texts that read the same ends as the other ends.
proof fn lemma_same_ending(a: Seq<u8>, b: Seq<u8>, ending: Seq<u8>)
    requires
        same_but_case(a, b),
    ensures
        ends_in(a, ending) == ends_in(b, ending),
{
    if a.len() >= ending.len() {
        lemma_same_word(a, b, a.len() - ending.len(), a.len() as int, ending);
    }
}

/// Case plays no part in what a dropped file is taken for: two paths that
/// differ only in the case of their letters promise the same format and are
/// taken for the same thing.
pub proof fn lemma_case_plays_no_part(a: Seq<u8>, b: Seq<u8>)
    requires
        same_but_case(a, b),
    ensures
        format_of(a) == format_of(b),
        map_of(a) == map_of(b),
        dropped_of(a) == dropped_of(b),
{
    lemma_same_ending(a, b, ext_png());
    lemma_same_ending(a, b, ext_jpg());
    lemma_same_ending(a, b, ext_jpeg());
    lemma_same_ending(a, b, ext_bmp());
    lemma_same_ending(a, b, ext_tiff());
    lemma_same_ending(a, b, ext_hdr());
    lemma_same_ending(a, b, ext_obj());
    lemma_same_mentions(a, b, word_norm());
    lemma_same_mentions(a, b, word_nrm());
    lemma_same_mentions(a, b, word_spec());
    lemma_same_mentions(a, b, word_hdr());
    lemma_same_mentions(a, b, word_env());
    lemma_same_mentions(a, b, word_ambient());
}

} // verus!
