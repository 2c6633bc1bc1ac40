//! The texture database: atlases with compact frame-run descriptors, and
//! the expansion algorithm that turns each atlas into a flat ordered
//! sequence of per-sprite source rectangles.
use vstd::prelude::*;

use vstd::arithmetic::div_mod::lemma_fundamental_div_mod;
use vstd::arithmetic::div_mod::lemma_fundamental_div_mod_converse;

use crate::error::LoadError;
use crate::xml::elem_attrs;
use crate::xml::elem_name;
use crate::xml::find_root;
use crate::xml::spec_find_root;
use crate::text::str_eq;
use crate::xml::attr_bool;
use crate::xml::attr_i32;
use crate::xml::attr_position;
use crate::xml::attr_string;
use crate::xml::read_xml_events;
use crate::xml::skip_element;
use crate::xml::spec_attr_bool;
use crate::xml::spec_attr_i32;
use crate::xml::spec_attr_position;
use crate::xml::spec_attr_string;
use crate::xml::spec_skip_element;
use crate::xml::xml_events_of;
use crate::xml::zlib_decoded;
use crate::xml::zlib_decompress;
use crate::xml::EventModel;
use crate::xml::XmlEvent;
use crate::Position;

verus! {

/// A compact frame-run descriptor: `count` equally sized sprites laid out
/// in rows of `row_width`, starting at `start_coordinates`.
#[derive(Clone, Copy, Debug, PartialEq, Eq, Structural)]
pub struct AtlasFrame {
    pub does_new_row_use_start_x: bool,
    pub count: i32,
    pub row_width: i32,
    pub start_index: i32,
    pub frame_size: Position,
    pub start_coordinates: Position,
}

/// One packed sprite sheet plus the metadata describing how to slice it.
#[derive(Clone, Debug, PartialEq, Eq)]
pub struct Atlas {
    pub file_name: String,
    pub content_path: String,
    pub width: i32,
    pub height: i32,
    pub frame_count: i32,
    pub frames: Vec<AtlasFrame>,
}

/// The ghost shape of an atlas.
pub struct AtlasModel {
    pub file_name: Seq<char>,
    pub content_path: Seq<char>,
    pub width: i32,
    pub height: i32,
    pub frame_count: i32,
    pub frames: Seq<AtlasFrame>,
}

impl View for Atlas {
    type V = AtlasModel;

    open spec fn view(&self) -> AtlasModel {
        AtlasModel {
            file_name: self.file_name@,
            content_path: self.content_path@,
            width: self.width,
            height: self.height,
            frame_count: self.frame_count,
            frames: self.frames@,
        }
    }
}

impl DeepView for Atlas {
    type V = AtlasModel;

    open spec fn deep_view(&self) -> AtlasModel {
        self@
    }
}

/// The whole texture database.
#[derive(Clone, Debug, PartialEq, Eq)]
pub struct TextureDatabase {
    pub atlases: Vec<Atlas>,
}

/// The ghost shape of the texture database.
pub struct TextureDatabaseModel {
    pub atlases: Seq<AtlasModel>,
}

impl View for TextureDatabase {
    type V = TextureDatabaseModel;

    open spec fn view(&self) -> TextureDatabaseModel {
        TextureDatabaseModel { atlases: self.atlases.deep_view() }
    }
}

/// One sprite's source rectangle in atlas pixel space. Coordinates are wide
/// enough to hold any cursor position the expansion can reach.
#[derive(Clone, Copy, Debug, PartialEq, Eq, Structural)]
pub struct Rectangle {
    pub x: i64,
    pub y: i64,
    pub width: i64,
    pub height: i64,
}

/// The x position a freshly wrapped row starts at: the run's start x, or
/// zero when `does_new_row_use_start_x` is off. The zero fallback is a
/// known open question of the format; it is isolated here so a correction
/// touches nothing else.
pub open spec fn spec_row_start_x(f: AtlasFrame) -> int {
    if f.does_new_row_use_start_x {
        f.start_coordinates.x as int
    } else {
        0
    }
}

/// The x position row `row` of a run starts at: the first row always
/// starts at the run's start coordinates.
pub open spec fn spec_row_base_x(f: AtlasFrame, row: int) -> int {
    if row == 0 {
        f.start_coordinates.x as int
    } else {
        spec_row_start_x(f)
    }
}

/// Executable form of `spec_row_start_x`.
pub fn row_start_x(f: &AtlasFrame) -> (r: i64)
    ensures
        r as int == spec_row_start_x(*f),
{
    if f.does_new_row_use_start_x {
        f.start_coordinates.x as i64
    } else {
        0
    }
}

/// Rectangle `k` of a run descriptor (0-based within the run): row-major
/// with rows of `row_width`, or one endless row when `row_width` is not
/// positive.
pub open spec fn spec_frame_rect(f: AtlasFrame, k: int) -> Rectangle {
    let row = if f.row_width > 0 {
        k / (f.row_width as int)
    } else {
        0
    };
    let col = if f.row_width > 0 {
        k % (f.row_width as int)
    } else {
        k
    };
    Rectangle {
        x: (spec_row_base_x(f, row) + col * (f.frame_size.x as int)) as i64,
        y: (f.start_coordinates.y as int + row * (f.frame_size.y as int)) as i64,
        width: f.frame_size.x as i64,
        height: f.frame_size.y as i64,
    }
}

/// How many rectangles a run descriptor expands to: its count, a
/// non-positive count meaning none.
pub open spec fn spec_frame_count(f: AtlasFrame) -> nat {
    if f.count >= 0 {
        f.count as nat
    } else {
        0
    }
}

/// All rectangles of one run descriptor, in emission order.
pub open spec fn spec_expand_frame(f: AtlasFrame) -> Seq<Rectangle> {
    Seq::new(spec_frame_count(f), |k: int| spec_frame_rect(f, k))
}

/// All rectangles of an atlas: its run descriptors expanded and
/// concatenated in document order.
pub open spec fn spec_expand_frames(frames: Seq<AtlasFrame>) -> Seq<Rectangle>
    decreases frames.len(),
{
    if frames.len() == 0 {
        Seq::empty()
    } else {
        spec_expand_frames(frames.drop_last()) + spec_expand_frame(frames.last())
    }
}

/// The sum of the run descriptors' counts.
pub open spec fn spec_total_count(frames: Seq<AtlasFrame>) -> nat
    decreases frames.len(),
{
    if frames.len() == 0 {
        0
    } else {
        spec_total_count(frames.drop_last()) + spec_frame_count(frames.last())
    }
}

/// Frame expansion is length-additive: an atlas's flat rectangle sequence
/// holds exactly the sum of its run descriptors' counts.
pub proof fn lemma_expand_frames_len(frames: Seq<AtlasFrame>)
    ensures
        spec_expand_frames(frames).len() == spec_total_count(frames),
    decreases frames.len(),
{
    if frames.len() > 0 {
        lemma_expand_frames_len(frames.drop_last());
    }
}

/// Emits one run descriptor's rectangles after whatever `out` already
/// holds, walking the cursor exactly as the format prescribes.
#[verifier::loop_isolation(false)]
pub fn expand_frame_into(f: &AtlasFrame, out: &mut Vec<Rectangle>)
    ensures
        final(out)@ == old(out)@ + spec_expand_frame(*f),
{
    let ghost base = out@;
    if f.count <= 0 {
        proof {
            assert(out@ =~= base + spec_expand_frame(*f));
        }
        return ;
    }
    let count = f.count;
    let rw = f.row_width;
    let w64 = f.frame_size.x as i64;
    let h64 = f.frame_size.y as i64;
    let ghost w = f.frame_size.x as int;
    let ghost h = f.frame_size.y as int;
    let mut x: i64 = f.start_coordinates.x as i64;
    let mut y: i64 = f.start_coordinates.y as i64;
    let mut col: i32 = 0;
    let mut k: i32 = 0;
    while k < count
        invariant
            0 <= k <= count,
            out@ == base + spec_expand_frame(*f).take(k as int),
            rw > 0 ==> col == k as int % rw as int,
            rw > 0 ==> x as int == spec_row_base_x(*f, k as int / rw as int) + (k as int
                % rw as int) * w,
            rw > 0 ==> y as int == f.start_coordinates.y as int + (k as int / rw as int) * h,
            rw > 0 ==> 0 <= k as int / rw as int <= k,
            rw <= 0 ==> col == k,
            rw <= 0 ==> x as int == f.start_coordinates.x as int + k as int * w,
            rw <= 0 ==> y as int == f.start_coordinates.y as int,
        decreases count - k,
    {
        proof {
            if rw > 0 {
                assert(spec_frame_rect(*f, k as int) == (Rectangle {
                    x: (spec_row_base_x(*f, k as int / rw as int) + (k as int % rw as int)
                        * w) as i64,
                    y: (f.start_coordinates.y as int + (k as int / rw as int) * h) as i64,
                    width: f.frame_size.x as i64,
                    height: f.frame_size.y as i64,
                }));
            }
        }
        out.push(Rectangle { x, y, width: w64, height: h64 });
        proof {
            assert(spec_expand_frame(*f).take(k as int + 1) =~= spec_expand_frame(*f).take(
                k as int,
            ).push(spec_frame_rect(*f, k as int)));
            assert(out@ =~= base + spec_expand_frame(*f).take(k as int + 1));
        }
        let ghost ki = k as int;
        let ghost rwi = rw as int;
        proof {
            // the next cursor position stays far inside the i64 range
            assert((ki + 1) * w <= 0x8000_0000 * 0x8000_0000 && (ki + 1) * w >= -(0x8000_0000
                * 0x8000_0000)) by (nonlinear_arith)
                requires
                    0 <= ki + 1 <= 0x8000_0000,
                    -0x8000_0000 <= w <= 0x7fff_ffff,
            ;
            if rwi > 0 {
                assert((ki % rwi + 1) * w <= 0x8000_0000 * 0x8000_0000 && (ki % rwi + 1) * w >= -(
                0x8000_0000 * 0x8000_0000)) by (nonlinear_arith)
                    requires
                        0 <= ki % rwi < rwi <= 0x8000_0000,
                        -0x8000_0000 <= w <= 0x7fff_ffff,
                ;
                assert((ki / rwi + 1) * h <= 0x8000_0000 * 0x8000_0000 && (ki / rwi + 1) * h >= -(
                0x8000_0000 * 0x8000_0000)) by (nonlinear_arith)
                    requires
                        0 <= ki / rwi <= ki < 0x8000_0000,
                        -0x8000_0000 <= h <= 0x7fff_ffff,
                ;
                assert((ki % rwi + 1) * w == ki % rwi * w + w) by (nonlinear_arith);
                assert((ki / rwi + 1) * h == ki / rwi * h + h) by (nonlinear_arith);
            } else {
                assert((ki + 1) * w == ki * w + w) by (nonlinear_arith);
            }
        }
        x = x + w64;
        col = col + 1;
        if col == rw {
            col = 0;
            x = row_start_x(f);
            y = y + h64;
            proof {
                assert(rwi >= 1);
                lemma_fundamental_div_mod(ki, rwi);
                assert((ki / rwi + 1) * rwi == ki / rwi * rwi + rwi) by (nonlinear_arith);
                assert(ki + 1 == (ki / rwi + 1) * rwi + 0);
                lemma_fundamental_div_mod_converse(ki + 1, rwi, ki / rwi + 1, 0);
                assert((ki + 1) / rwi >= 1);
                assert(spec_row_base_x(*f, (ki + 1) / rwi) == spec_row_start_x(*f));
                assert(x as int == spec_row_base_x(*f, (ki + 1) / rwi) + ((ki + 1) % rwi) * w);
            }
        } else {
            proof {
                if rwi > 0 {
                    lemma_fundamental_div_mod(ki, rwi);
                    assert((ki / rwi) * rwi + (ki % rwi + 1) == ki + 1);
                    lemma_fundamental_div_mod_converse(ki + 1, rwi, ki / rwi, ki % rwi + 1);
                    assert(spec_row_base_x(*f, (ki + 1) / rwi) == spec_row_base_x(*f, ki / rwi));
                }
            }
        }
        k = k + 1;
    }
    proof {
        assert(spec_expand_frame(*f).take(count as int) =~= spec_expand_frame(*f));
    }
}

/// Expands an atlas into its flat ordered rectangle sequence, one entry per
/// sprite index, exactly as `spec_expand_frames`; the result is a pure
/// function of the atlas's run descriptors.
pub fn expand_frames(atlas: &Atlas) -> (r: Vec<Rectangle>)
    ensures
        r@ == spec_expand_frames(atlas.frames@),
        r@.len() == spec_total_count(atlas.frames@),
{
    let mut out: Vec<Rectangle> = Vec::new();
    let n = atlas.frames.len();
    proof {
        assert(out@ =~= Seq::<Rectangle>::empty() + spec_expand_frames(atlas.frames@.take(0)));
    }
    let mut i: usize = 0;
    while i < n
        invariant
            i <= n,
            n == atlas.frames@.len(),
            out@ == spec_expand_frames(atlas.frames@.take(i as int)),
        decreases n - i,
    {
        expand_frame_into(&atlas.frames[i], &mut out);
        proof {
            assert(atlas.frames@.take(i as int + 1).drop_last() =~= atlas.frames@.take(i as int));
            assert(atlas.frames@.take(i as int + 1).last() == atlas.frames@[i as int]);
        }
        i += 1;
    }
    proof {
        assert(atlas.frames@.take(n as int) =~= atlas.frames@);
        lemma_expand_frames_len(atlas.frames@);
    }
    out
}


/// A whole `AtlasFrame` element at `i`: six required attributes, the body
/// (if any) skipped.
pub open spec fn spec_atlas_frame_at(toks: Seq<EventModel>, i: int) -> Result<
    (AtlasFrame, int),
    LoadError,
> {
    match elem_attrs(toks, i) {
        Some(attrs) => match (
            spec_attr_bool(attrs, "DoesNewRowUseStartX"@),
            spec_attr_i32(attrs, "Count"@),
            spec_attr_i32(attrs, "RowWidth"@),
            spec_attr_i32(attrs, "StartIndex"@),
            spec_attr_position(attrs, "FrameSize"@),
            spec_attr_position(attrs, "StartCoordinates"@),
        ) {
            (Ok(b), Ok(count), Ok(row_width), Ok(start_index), Ok(frame_size), Ok(start_coordinates)) => match spec_skip_element(
                toks,
                i,
            ) {
                Some(j) => Ok(
                    (
                        AtlasFrame {
                            does_new_row_use_start_x: b,
                            count,
                            row_width,
                            start_index,
                            frame_size,
                            start_coordinates,
                        },
                        j,
                    ),
                ),
                None => Err(LoadError::Schema),
            },
            _ => Err(LoadError::Schema),
        },
        None => Err(LoadError::Schema),
    }
}

/// Reads a whole `AtlasFrame` element, exactly as `spec_atlas_frame_at`.
pub fn atlas_frame_at(toks: &Vec<XmlEvent>, i: usize) -> (r: Result<(AtlasFrame, usize), LoadError>)
    ensures
        r matches Ok(p) ==> spec_atlas_frame_at(toks.deep_view(), i as int) == Ok::<
            (AtlasFrame, int),
            LoadError,
        >((p.0, p.1 as int)) && i < p.1 <= toks@.len(),
        r matches Err(e) ==> spec_atlas_frame_at(toks.deep_view(), i as int) == Err::<
            (AtlasFrame, int),
            LoadError,
        >(e),
{
    let n = toks.len();
    if i >= n {
        return Err(LoadError::Schema);
    }
    proof {
        assert(toks.deep_view()[i as int] == toks@[i as int]@);
    }
    let attrs = match &toks[i] {
        XmlEvent::Open(_, attrs) => attrs,
        XmlEvent::SelfClosed(_, attrs) => attrs,
        _ => {
            return Err(LoadError::Schema);
        },
    };
    let does_new_row_use_start_x = match attr_bool(attrs, "DoesNewRowUseStartX") {
        Ok(v) => v,
        Err(e) => return Err(e),
    };
    let count = match attr_i32(attrs, "Count") {
        Ok(v) => v,
        Err(e) => return Err(e),
    };
    let row_width = match attr_i32(attrs, "RowWidth") {
        Ok(v) => v,
        Err(e) => return Err(e),
    };
    let start_index = match attr_i32(attrs, "StartIndex") {
        Ok(v) => v,
        Err(e) => return Err(e),
    };
    let frame_size = match attr_position(attrs, "FrameSize") {
        Ok(v) => v,
        Err(e) => return Err(e),
    };
    let start_coordinates = match attr_position(attrs, "StartCoordinates") {
        Ok(v) => v,
        Err(e) => return Err(e),
    };
    let j = match skip_element(toks, i) {
        Ok(v) => v,
        Err(e) => return Err(e),
    };
    Ok(
        (
            AtlasFrame {
                does_new_row_use_start_x,
                count,
                row_width,
                start_index,
                frame_size,
                start_coordinates,
            },
            j,
        ),
    )
}

/// Collects `AtlasFrame` children until the enclosing close tag.
pub open spec fn spec_atlas_frame_items(toks: Seq<EventModel>, j: int, acc: Seq<AtlasFrame>) -> Result<
    (Seq<AtlasFrame>, int),
    LoadError,
>
    decreases toks.len() - j,
{
    if j < 0 || j >= toks.len() {
        Err(LoadError::Schema)
    } else {
        match toks[j] {
            EventModel::Close { .. } => Ok((acc, j + 1)),
            EventModel::Misc => spec_atlas_frame_items(toks, j + 1, acc),
            _ => {
                if elem_name(toks, j) == Some("AtlasFrame"@) {
                    match spec_atlas_frame_at(toks, j) {
                        Ok((f, j2)) => if j < j2 <= toks.len() {
                            spec_atlas_frame_items(toks, j2, acc.push(f))
                        } else {
                            Err(LoadError::Schema)
                        },
                        Err(e) => Err(e),
                    }
                } else {
                    match spec_skip_element(toks, j) {
                        Some(j2) => if j < j2 <= toks.len() {
                            spec_atlas_frame_items(toks, j2, acc)
                        } else {
                            Err(LoadError::Schema)
                        },
                        None => Err(LoadError::Schema),
                    }
                }
            },
        }
    }
}

/// A whole `Atlas` element at `i`: five required header attributes and one
/// or more `AtlasFrame` children; an atlas without frames is a schema
/// error.
pub open spec fn spec_atlas_at(toks: Seq<EventModel>, i: int) -> Result<(AtlasModel, int), LoadError> {
    match elem_attrs(toks, i) {
        Some(attrs) => match (
            spec_attr_string(attrs, "FileName"@),
            spec_attr_string(attrs, "ContentPath"@),
            spec_attr_i32(attrs, "Width"@),
            spec_attr_i32(attrs, "Height"@),
            spec_attr_i32(attrs, "FrameCount"@),
        ) {
            (Ok(file_name), Ok(content_path), Ok(width), Ok(height), Ok(frame_count)) => match toks[i] {
                EventModel::SelfClosed { .. } => Err(LoadError::Schema),
                _ => match spec_atlas_frame_items(toks, i + 1, Seq::empty()) {
                    Ok((frames, j)) => if frames.len() == 0 {
                        Err(LoadError::Schema)
                    } else {
                        Ok(
                            (
                                AtlasModel {
                                    file_name,
                                    content_path,
                                    width,
                                    height,
                                    frame_count,
                                    frames,
                                },
                                j,
                            ),
                        )
                    },
                    Err(e) => Err(e),
                },
            },
            _ => Err(LoadError::Schema),
        },
        None => Err(LoadError::Schema),
    }
}

/// Reads a whole `Atlas` element, exactly as `spec_atlas_at`.
#[verifier::loop_isolation(false)]
pub fn atlas_at(toks: &Vec<XmlEvent>, i: usize) -> (r: Result<(Atlas, usize), LoadError>)
    ensures
        r matches Ok(p) ==> spec_atlas_at(toks.deep_view(), i as int) == Ok::<
            (AtlasModel, int),
            LoadError,
        >((p.0@, p.1 as int)) && i < p.1 <= toks@.len(),
        r matches Err(e) ==> spec_atlas_at(toks.deep_view(), i as int) == Err::<
            (AtlasModel, int),
            LoadError,
        >(e),
{
    let ghost dv = toks.deep_view();
    let n = toks.len();
    if i >= n {
        return Err(LoadError::Schema);
    }
    proof {
        assert(dv[i as int] == toks@[i as int]@);
    }
    let (attrs, self_closed) = match &toks[i] {
        XmlEvent::Open(_, attrs) => (attrs, false),
        XmlEvent::SelfClosed(_, attrs) => (attrs, true),
        _ => {
            return Err(LoadError::Schema);
        },
    };
    let file_name = match attr_string(attrs, "FileName") {
        Ok(v) => v,
        Err(e) => return Err(e),
    };
    let content_path = match attr_string(attrs, "ContentPath") {
        Ok(v) => v,
        Err(e) => return Err(e),
    };
    let width = match attr_i32(attrs, "Width") {
        Ok(v) => v,
        Err(e) => return Err(e),
    };
    let height = match attr_i32(attrs, "Height") {
        Ok(v) => v,
        Err(e) => return Err(e),
    };
    let frame_count = match attr_i32(attrs, "FrameCount") {
        Ok(v) => v,
        Err(e) => return Err(e),
    };
    if self_closed {
        return Err(LoadError::Schema);
    }
    let mut frames: Vec<AtlasFrame> = Vec::new();
    let mut j: usize = i + 1;
    while j < n
        invariant
            i < j <= n,
            spec_atlas_frame_items(dv, i + 1, Seq::empty()) == spec_atlas_frame_items(
                dv,
                j as int,
                frames@,
            ),
        decreases n - j,
    {
        proof {
            assert(dv[j as int] == toks@[j as int]@);
        }
        match &toks[j] {
            XmlEvent::Close(_) => {
                if frames.len() == 0 {
                    return Err(LoadError::Schema);
                }
                let atlas = Atlas { file_name, content_path, width, height, frame_count, frames };
                return Ok((atlas, j + 1));
            },
            XmlEvent::Misc => {
                j += 1;
            },
            XmlEvent::Open(tag, _) | XmlEvent::SelfClosed(tag, _) => {
                if str_eq(tag.as_str(), "AtlasFrame") {
                    let p = match atlas_frame_at(toks, j) {
                        Ok(v) => v,
                        Err(e) => return Err(e),
                    };
                    frames.push(p.0);
                    j = p.1;
                } else {
                    j = match skip_element(toks, j) {
                        Ok(v) => v,
                        Err(e) => return Err(e),
                    };
                }
            },
        }
    }
    Err(LoadError::Schema)
}

/// Collects `Atlas` children of the database root.
pub open spec fn spec_atlas_items(toks: Seq<EventModel>, j: int, acc: Seq<AtlasModel>) -> Result<
    (Seq<AtlasModel>, int),
    LoadError,
>
    decreases toks.len() - j,
{
    if j < 0 || j >= toks.len() {
        Err(LoadError::Schema)
    } else {
        match toks[j] {
            EventModel::Close { .. } => Ok((acc, j + 1)),
            EventModel::Misc => spec_atlas_items(toks, j + 1, acc),
            _ => {
                if elem_name(toks, j) == Some("Atlas"@) {
                    match spec_atlas_at(toks, j) {
                        Ok((a, j2)) => if j < j2 <= toks.len() {
                            spec_atlas_items(toks, j2, acc.push(a))
                        } else {
                            Err(LoadError::Schema)
                        },
                        Err(e) => Err(e),
                    }
                } else {
                    match spec_skip_element(toks, j) {
                        Some(j2) => if j < j2 <= toks.len() {
                            spec_atlas_items(toks, j2, acc)
                        } else {
                            Err(LoadError::Schema)
                        },
                        None => Err(LoadError::Schema),
                    }
                }
            },
        }
    }
}

/// The database root element at `i`: a container of zero or more `Atlas`
/// elements.
pub open spec fn spec_texture_db_at(toks: Seq<EventModel>, i: int) -> Result<
    (TextureDatabaseModel, int),
    LoadError,
> {
    if 0 <= i < toks.len() {
        match toks[i] {
            EventModel::SelfClosed { .. } => Ok((TextureDatabaseModel { atlases: Seq::empty() }, i + 1)),
            EventModel::Open { .. } => match spec_atlas_items(toks, i + 1, Seq::empty()) {
                Ok((atlases, j)) => Ok((TextureDatabaseModel { atlases }, j)),
                Err(e) => Err(e),
            },
            _ => Err(LoadError::Schema),
        }
    } else {
        Err(LoadError::Schema)
    }
}

/// Reads the database root element, exactly as `spec_texture_db_at`.
#[verifier::loop_isolation(false)]
pub fn texture_db_at(toks: &Vec<XmlEvent>, i: usize) -> (r: Result<
    (TextureDatabase, usize),
    LoadError,
>)
    ensures
        r matches Ok(p) ==> spec_texture_db_at(toks.deep_view(), i as int) == Ok::<
            (TextureDatabaseModel, int),
            LoadError,
        >((p.0@, p.1 as int)),
        r matches Err(e) ==> spec_texture_db_at(toks.deep_view(), i as int) == Err::<
            (TextureDatabaseModel, int),
            LoadError,
        >(e),
{
    let ghost dv = toks.deep_view();
    let n = toks.len();
    if i >= n {
        return Err(LoadError::Schema);
    }
    proof {
        assert(dv[i as int] == toks@[i as int]@);
    }
    match &toks[i] {
        XmlEvent::SelfClosed(..) => {
            let out: Vec<Atlas> = Vec::new();
            proof {
                assert(out.deep_view() =~= Seq::<AtlasModel>::empty());
            }
            return Ok((TextureDatabase { atlases: out }, i + 1));
        },
        XmlEvent::Open(..) => {
        },
        _ => {
            return Err(LoadError::Schema);
        },
    }
    let mut acc: Vec<Atlas> = Vec::new();
    proof {
        assert(acc.deep_view() =~= Seq::<AtlasModel>::empty());
    }
    let mut j: usize = i + 1;
    while j < n
        invariant
            n == toks@.len(),
            dv == toks.deep_view(),
            i < j <= n,
            spec_atlas_items(dv, i + 1, Seq::empty()) == spec_atlas_items(
                dv,
                j as int,
                acc.deep_view(),
            ),
        decreases n - j,
    {
        proof {
            assert(dv[j as int] == toks@[j as int]@);
        }
        match &toks[j] {
            XmlEvent::Close(_) => {
                return Ok((TextureDatabase { atlases: acc }, j + 1));
            },
            XmlEvent::Misc => {
                j += 1;
            },
            XmlEvent::Open(name, _) | XmlEvent::SelfClosed(name, _) => {
                if str_eq(name.as_str(), "Atlas") {
                    let p = match atlas_at(toks, j) {
                        Ok(v) => v,
                        Err(e) => return Err(e),
                    };
                    let ghost prev = acc.deep_view();
                    let ghost atlas_model = p.0@;
                    acc.push(p.0);
                    proof {
                        assert(acc.deep_view() =~= prev.push(atlas_model));
                    }
                    j = p.1;
                } else {
                    j = match skip_element(toks, j) {
                        Ok(v) => v,
                        Err(e) => return Err(e),
                    };
                }
            },
        }
    }
    Err(LoadError::Schema)
}

/// The texture database a whole event stream encodes.
pub open spec fn spec_texture_db_doc(toks: Seq<EventModel>) -> Result<
    TextureDatabaseModel,
    LoadError,
> {
    match spec_find_root(toks, 0) {
        Some(i) => match spec_texture_db_at(toks, i) {
            Ok((db, _)) => Ok(db),
            Err(e) => Err(e),
        },
        None => Err(LoadError::Schema),
    }
}

/// Parses the texture database from an XML event stream, exactly as
/// `spec_texture_db_doc`.
pub fn parse_texture_db_events(toks: &Vec<XmlEvent>) -> (r: Result<TextureDatabase, LoadError>)
    ensures
        r matches Ok(db) ==> spec_texture_db_doc(toks.deep_view()) == Ok::<
            TextureDatabaseModel,
            LoadError,
        >(db@),
        r matches Err(e) ==> spec_texture_db_doc(toks.deep_view()) == Err::<
            TextureDatabaseModel,
            LoadError,
        >(e),
{
    let i = match find_root(toks) {
        Ok(v) => v,
        Err(e) => return Err(e),
    };
    match texture_db_at(toks, i) {
        Ok(p) => Ok(p.0),
        Err(e) => Err(e),
    }
}

/// The texture database a compressed byte stream encodes: inflate,
/// tokenize, parse.
pub open spec fn spec_load_texture_database(data: Seq<u8>) -> Result<
    TextureDatabaseModel,
    LoadError,
> {
    match zlib_decoded(data) {
        Some(plain) => match xml_events_of(plain) {
            Some(toks) => spec_texture_db_doc(toks),
            None => Err(LoadError::Schema),
        },
        None => Err(LoadError::Decompress),
    }
}

impl TextureDatabase {
    /// Loads the texture database from the raw bytes of
    /// `TextureDatabase.dat`, exactly as `spec_load_texture_database`: the
    /// whole document, or the first error met.
    pub fn from_bytes(data: &Vec<u8>) -> (r: Result<TextureDatabase, LoadError>)
        ensures
            r matches Ok(db) ==> spec_load_texture_database(data@) == Ok::<
                TextureDatabaseModel,
                LoadError,
            >(db@),
            r matches Err(e) ==> spec_load_texture_database(data@) == Err::<
                TextureDatabaseModel,
                LoadError,
            >(e),
    {
        let plain = match zlib_decompress(data) {
            Some(v) => v,
            None => {
                return Err(LoadError::Decompress);
            },
        };
        let toks = match read_xml_events(&plain) {
            Some(v) => v,
            None => {
                return Err(LoadError::Schema);
            },
        };
        parse_texture_db_events(&toks)
    }
}

} // verus!
