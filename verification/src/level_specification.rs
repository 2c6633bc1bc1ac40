//! The raw level schema and its parser: reads the level file's XML event
//! stream into a [`crate::level::Level`], resolving raw object categories on
//! the way. Every function here is specified exactly against the spec-level
//! mirror of the grammar.
use vstd::prelude::*;

use crate::error::LoadError;
use crate::level::spec_resolve_category;
use crate::level::Level;
use crate::level::LevelModel;
use crate::level::Room;
use crate::level::RoomModel;
use crate::level::Tile;
use crate::text::str_eq;
use crate::xml::attr_flag;
use crate::xml::elem_attrs;
use crate::xml::elem_name;
use crate::xml::find_root;
use crate::xml::spec_find_root;
use crate::xml::attr_i32;
use crate::xml::attr_lookup;
use crate::xml::attr_opt_i32;
use crate::xml::attr_string;
use crate::xml::attr_u32;
use crate::xml::attr_u8;
use crate::xml::find_attr;
use crate::xml::read_xml_events;
use crate::xml::skip_element;
use crate::xml::spec_attr_flag;
use crate::xml::spec_attr_i32;
use crate::xml::spec_attr_opt_i32;
use crate::xml::spec_attr_string;
use crate::xml::spec_attr_u32;
use crate::xml::spec_attr_u8;
use crate::xml::spec_skip_element;
use crate::xml::xml_events_of;
use crate::xml::zlib_decoded;
use crate::xml::zlib_decompress;
use crate::xml::AttrModel;
use crate::xml::EventModel;
use crate::xml::XmlAttr;
use crate::xml::XmlEvent;

verus! {

/// The raw category tag carried by an object-tile element, before its
/// numeric object-id has been resolved into a typed enumeration member.
#[derive(Clone, Copy, Debug, PartialEq, Eq, Structural)]
pub enum Category {
    /// The tag literal `None`: the tile carries no gameplay category.
    Nothing,
    Event,
    Enemy,
    Item,
}

/// An object tile exactly as the level file states it: the raw category tag
/// and the numeric object-id still side by side, not yet resolved.
#[derive(Clone, Copy, Debug, PartialEq, Eq, Structural)]
pub struct ObjectTile {
    pub id: i32,
    pub x: i32,
    pub y: i32,
    pub flip_x: bool,
    pub flip_y: bool,
    pub category: Category,
    pub object_id: u8,
    pub argument: Option<i32>,
}

/// The category tag a raw attribute value names, if any.
pub open spec fn spec_category_tag(v: Seq<char>) -> Option<Category> {
    if v == "None"@ {
        Some(Category::Nothing)
    } else if v == "Event"@ {
        Some(Category::Event)
    } else if v == "Enemy"@ {
        Some(Category::Enemy)
    } else if v == "Item"@ {
        Some(Category::Item)
    } else {
        None
    }
}

/// A required category attribute: one of the four tag literals, or a schema
/// error.
pub open spec fn spec_attr_category(attrs: Seq<AttrModel>, key: Seq<char>) -> Result<
    Category,
    LoadError,
> {
    match attr_lookup(attrs, key) {
        Some(v) => match spec_category_tag(v) {
            Some(t) => Ok(t),
            None => Err(LoadError::Schema),
        },
        None => Err(LoadError::Schema),
    }
}

/// Reads a required category attribute, exactly as `spec_attr_category`.
pub fn attr_category(attrs: &Vec<XmlAttr>, key: &str) -> (r: Result<Category, LoadError>)
    ensures
        r == spec_attr_category(attrs.deep_view(), key@),
{
    match find_attr(attrs, key) {
        Some(v) => {
            let s = v.as_str();
            if str_eq(s, "None") {
                Ok(Category::Nothing)
            } else if str_eq(s, "Event") {
                Ok(Category::Event)
            } else if str_eq(s, "Enemy") {
                Ok(Category::Enemy)
            } else if str_eq(s, "Item") {
                Ok(Category::Item)
            } else {
                Err(LoadError::Schema)
            }
        },
        None => Err(LoadError::Schema),
    }
}

/// A plain tile read off an element's attributes: `ID`, `X` and `Y` are
/// required; the flip flags are optional boolean tokens defaulting to false.
pub open spec fn spec_tile_from_attrs(attrs: Seq<AttrModel>) -> Result<Tile, LoadError> {
    match (
        spec_attr_i32(attrs, "ID"@),
        spec_attr_i32(attrs, "X"@),
        spec_attr_i32(attrs, "Y"@),
        spec_attr_flag(attrs, "FlipX"@),
        spec_attr_flag(attrs, "FlipY"@),
    ) {
        (Ok(id), Ok(x), Ok(y), Ok(fx), Ok(fy)) => Ok(
            Tile { id, x, y, flip_x: fx, flip_y: fy },
        ),
        _ => Err(LoadError::Schema),
    }
}

/// Reads a plain tile off an attribute list, exactly as
/// `spec_tile_from_attrs`.
pub fn tile_from_attrs(attrs: &Vec<XmlAttr>) -> (r: Result<Tile, LoadError>)
    ensures
        r == spec_tile_from_attrs(attrs.deep_view()),
{
    let id = match attr_i32(attrs, "ID") {
        Ok(v) => v,
        Err(e) => return Err(e),
    };
    let x = match attr_i32(attrs, "X") {
        Ok(v) => v,
        Err(e) => return Err(e),
    };
    let y = match attr_i32(attrs, "Y") {
        Ok(v) => v,
        Err(e) => return Err(e),
    };
    let flip_x = match attr_flag(attrs, "FlipX") {
        Ok(v) => v,
        Err(e) => return Err(e),
    };
    let flip_y = match attr_flag(attrs, "FlipY") {
        Ok(v) => v,
        Err(e) => return Err(e),
    };
    Ok(Tile { id, x, y, flip_x, flip_y })
}

/// A raw object tile read off an element's attributes: the tile fields plus
/// required `Category` and `ObjectID` and an optional `Argument`.
pub open spec fn spec_raw_object_tile_from_attrs(attrs: Seq<AttrModel>) -> Result<
    ObjectTile,
    LoadError,
> {
    match (
        spec_tile_from_attrs(attrs),
        spec_attr_category(attrs, "Category"@),
        spec_attr_u8(attrs, "ObjectID"@),
        spec_attr_opt_i32(attrs, "Argument"@),
    ) {
        (Ok(t), Ok(category), Ok(object_id), Ok(argument)) => Ok(
            ObjectTile {
                id: t.id,
                x: t.x,
                y: t.y,
                flip_x: t.flip_x,
                flip_y: t.flip_y,
                category,
                object_id,
                argument,
            },
        ),
        _ => Err(LoadError::Schema),
    }
}

/// Reads a raw object tile off an attribute list, exactly as
/// `spec_raw_object_tile_from_attrs`.
pub fn raw_object_tile_from_attrs(attrs: &Vec<XmlAttr>) -> (r: Result<ObjectTile, LoadError>)
    ensures
        r == spec_raw_object_tile_from_attrs(attrs.deep_view()),
{
    let t = match tile_from_attrs(attrs) {
        Ok(v) => v,
        Err(e) => return Err(e),
    };
    let category = match attr_category(attrs, "Category") {
        Ok(v) => v,
        Err(e) => return Err(e),
    };
    let object_id = match attr_u8(attrs, "ObjectID") {
        Ok(v) => v,
        Err(e) => return Err(e),
    };
    let argument = match attr_opt_i32(attrs, "Argument") {
        Ok(v) => v,
        Err(e) => return Err(e),
    };
    Ok(
        ObjectTile {
            id: t.id,
            x: t.x,
            y: t.y,
            flip_x: t.flip_x,
            flip_y: t.flip_y,
            category,
            object_id,
            argument,
        },
    )
}



/// A whole plain-tile element at `i`: its attributes decoded, its body (if
/// any) skipped.
pub open spec fn spec_tile_at(toks: Seq<EventModel>, i: int) -> Result<(Tile, int), LoadError> {
    match elem_attrs(toks, i) {
        Some(attrs) => match spec_tile_from_attrs(attrs) {
            Ok(t) => match spec_skip_element(toks, i) {
                Some(j) => Ok((t, j)),
                None => Err(LoadError::Schema),
            },
            Err(e) => Err(e),
        },
        None => Err(LoadError::Schema),
    }
}

/// Reads a whole plain-tile element, exactly as `spec_tile_at`.
pub fn tile_at(toks: &Vec<XmlEvent>, i: usize) -> (r: Result<(Tile, usize), LoadError>)
    ensures
        r matches Ok(p) ==> spec_tile_at(toks.deep_view(), i as int) == Ok::<
            (Tile, int),
            LoadError,
        >((p.0, p.1 as int)) && i < p.1 <= toks@.len(),
        r matches Err(e) ==> spec_tile_at(toks.deep_view(), i as int) == Err::<
            (Tile, int),
            LoadError,
        >(e),
{
    let n = toks.len();
    if i >= n {
        return Err(LoadError::Schema);
    }
    proof {
        assert(toks.deep_view()[i as int] == toks@[i as int]@);
    }
    let tile = match &toks[i] {
        XmlEvent::Open(_, attrs) => tile_from_attrs(attrs),
        XmlEvent::SelfClosed(_, attrs) => tile_from_attrs(attrs),
        _ => {
            return Err(LoadError::Schema);
        },
    };
    let t = match tile {
        Ok(v) => v,
        Err(e) => return Err(e),
    };
    let j = match skip_element(toks, i) {
        Ok(v) => v,
        Err(e) => return Err(e),
    };
    Ok((t, j))
}

/// A whole object-tile element at `i`: raw attributes decoded, the body
/// skipped, and the raw (tag, object-id) pair resolved.
pub open spec fn spec_object_tile_at(toks: Seq<EventModel>, i: int) -> Result<
    (crate::level::ObjectTile, int),
    LoadError,
> {
    match elem_attrs(toks, i) {
        Some(attrs) => match spec_raw_object_tile_from_attrs(attrs) {
            Ok(raw) => match spec_skip_element(toks, i) {
                Some(j) => match spec_resolve_category(raw.category, raw.object_id) {
                    Ok(c) => Ok(
                        (
                            crate::level::ObjectTile {
                                id: raw.id,
                                x: raw.x,
                                y: raw.y,
                                flip_x: raw.flip_x,
                                flip_y: raw.flip_y,
                                category: c,
                                argument: raw.argument,
                            },
                            j,
                        ),
                    ),
                    Err(e) => Err(e),
                },
                None => Err(LoadError::Schema),
            },
            Err(e) => Err(e),
        },
        None => Err(LoadError::Schema),
    }
}

/// Reads a whole object-tile element, exactly as `spec_object_tile_at`.
pub fn object_tile_at(toks: &Vec<XmlEvent>, i: usize) -> (r: Result<
    (crate::level::ObjectTile, usize),
    LoadError,
>)
    ensures
        r matches Ok(p) ==> spec_object_tile_at(toks.deep_view(), i as int) == Ok::<
            (crate::level::ObjectTile, int),
            LoadError,
        >((p.0, p.1 as int)) && i < p.1 <= toks@.len(),
        r matches Err(e) ==> spec_object_tile_at(toks.deep_view(), i as int) == Err::<
            (crate::level::ObjectTile, int),
            LoadError,
        >(e),
{
    let n = toks.len();
    if i >= n {
        return Err(LoadError::Schema);
    }
    proof {
        assert(toks.deep_view()[i as int] == toks@[i as int]@);
    }
    let raw_res = match &toks[i] {
        XmlEvent::Open(_, attrs) => raw_object_tile_from_attrs(attrs),
        XmlEvent::SelfClosed(_, attrs) => raw_object_tile_from_attrs(attrs),
        _ => {
            return Err(LoadError::Schema);
        },
    };
    let raw = match raw_res {
        Ok(v) => v,
        Err(e) => return Err(e),
    };
    let j = match skip_element(toks, i) {
        Ok(v) => v,
        Err(e) => return Err(e),
    };
    let t = match crate::level::ObjectTile::from_raw(raw) {
        Ok(v) => v,
        Err(e) => return Err(e),
    };
    Ok((t, j))
}


/// Collects `Tile` children until the enclosing close tag, starting with
/// the tiles in `acc`; unknown elements are skipped.
pub open spec fn spec_tile_items(toks: Seq<EventModel>, j: int, acc: Seq<Tile>) -> Result<
    (Seq<Tile>, int),
    LoadError,
>
    decreases toks.len() - j,
{
    if j < 0 || j >= toks.len() {
        Err(LoadError::Schema)
    } else {
        match toks[j] {
            EventModel::Close { .. } => Ok((acc, j + 1)),
            EventModel::Misc => spec_tile_items(toks, j + 1, acc),
            _ => {
                if elem_name(toks, j) == Some("Tile"@) {
                    match spec_tile_at(toks, j) {
                        Ok((t, j2)) => if j < j2 <= toks.len() {
                            spec_tile_items(toks, j2, acc.push(t))
                        } else {
                            Err(LoadError::Schema)
                        },
                        Err(e) => Err(e),
                    }
                } else {
                    match spec_skip_element(toks, j) {
                        Some(j2) => if j < j2 <= toks.len() {
                            spec_tile_items(toks, j2, acc)
                        } else {
                            Err(LoadError::Schema)
                        },
                        None => Err(LoadError::Schema),
                    }
                }
            },
        }
    }
}

/// A whole tile-list element at `i`: zero or more `Tile` children.
pub open spec fn spec_tile_list_at(toks: Seq<EventModel>, i: int) -> Result<
    (Seq<Tile>, int),
    LoadError,
> {
    if 0 <= i < toks.len() {
        match toks[i] {
            EventModel::SelfClosed { .. } => Ok((Seq::empty(), i + 1)),
            EventModel::Open { .. } => spec_tile_items(toks, i + 1, Seq::empty()),
            _ => Err(LoadError::Schema),
        }
    } else {
        Err(LoadError::Schema)
    }
}

/// Reads a whole tile-list element, exactly as `spec_tile_list_at`.
pub fn tile_list_at(toks: &Vec<XmlEvent>, i: usize) -> (r: Result<(Vec<Tile>, usize), LoadError>)
    ensures
        r matches Ok(p) ==> spec_tile_list_at(toks.deep_view(), i as int) == Ok::<
            (Seq<Tile>, int),
            LoadError,
        >((p.0@, p.1 as int)) && i < p.1 <= toks@.len(),
        r matches Err(e) ==> spec_tile_list_at(toks.deep_view(), i as int) == Err::<
            (Seq<Tile>, int),
            LoadError,
        >(e),
{
    let ghost dv = toks.deep_view();
    let n = toks.len();
    if i >= n {
        return Err(LoadError::Schema);
    }
    proof {
        assert(dv[i as int] == toks@[i as int]@);
    }
    match &toks[i] {
        XmlEvent::SelfClosed(..) => {
            return Ok((Vec::new(), i + 1));
        },
        XmlEvent::Open(..) => {
        },
        _ => {
            return Err(LoadError::Schema);
        },
    }
    let mut acc: Vec<Tile> = Vec::new();
    let mut j: usize = i + 1;
    while j < n
        invariant
            n == toks@.len(),
            dv == toks.deep_view(),
            i < j <= n,
            spec_tile_list_at(dv, i as int) == spec_tile_items(dv, j as int, acc@),
        decreases n - j,
    {
        proof {
            assert(dv[j as int] == toks@[j as int]@);
        }
        match &toks[j] {
            XmlEvent::Close(_) => {
                return Ok((acc, j + 1));
            },
            XmlEvent::Misc => {
                j += 1;
            },
            XmlEvent::Open(name, _) | XmlEvent::SelfClosed(name, _) => {
                if str_eq(name.as_str(), "Tile") {
                    let p = match tile_at(toks, j) {
                        Ok(v) => v,
                        Err(e) => return Err(e),
                    };
                    acc.push(p.0);
                    j = p.1;
                } else {
                    j = match skip_element(toks, j) {
                        Ok(v) => v,
                        Err(e) => return Err(e),
                    };
                }
            },
        }
    }
    Err(LoadError::Schema)
}

/// Collects object-tile children (also named `Tile`) until the enclosing
/// close tag; each is resolved as it is read.
pub open spec fn spec_object_tile_items(
    toks: Seq<EventModel>,
    j: int,
    acc: Seq<crate::level::ObjectTile>,
) -> Result<(Seq<crate::level::ObjectTile>, int), LoadError>
    decreases toks.len() - j,
{
    if j < 0 || j >= toks.len() {
        Err(LoadError::Schema)
    } else {
        match toks[j] {
            EventModel::Close { .. } => Ok((acc, j + 1)),
            EventModel::Misc => spec_object_tile_items(toks, j + 1, acc),
            _ => {
                if elem_name(toks, j) == Some("Tile"@) {
                    match spec_object_tile_at(toks, j) {
                        Ok((t, j2)) => if j < j2 <= toks.len() {
                            spec_object_tile_items(toks, j2, acc.push(t))
                        } else {
                            Err(LoadError::Schema)
                        },
                        Err(e) => Err(e),
                    }
                } else {
                    match spec_skip_element(toks, j) {
                        Some(j2) => if j < j2 <= toks.len() {
                            spec_object_tile_items(toks, j2, acc)
                        } else {
                            Err(LoadError::Schema)
                        },
                        None => Err(LoadError::Schema),
                    }
                }
            },
        }
    }
}

/// A whole object-tile-list element at `i`.
pub open spec fn spec_object_tile_list_at(toks: Seq<EventModel>, i: int) -> Result<
    (Seq<crate::level::ObjectTile>, int),
    LoadError,
> {
    if 0 <= i < toks.len() {
        match toks[i] {
            EventModel::SelfClosed { .. } => Ok((Seq::empty(), i + 1)),
            EventModel::Open { .. } => spec_object_tile_items(toks, i + 1, Seq::empty()),
            _ => Err(LoadError::Schema),
        }
    } else {
        Err(LoadError::Schema)
    }
}

/// Reads a whole object-tile-list element, exactly as
/// `spec_object_tile_list_at`.
pub fn object_tile_list_at(toks: &Vec<XmlEvent>, i: usize) -> (r: Result<
    (Vec<crate::level::ObjectTile>, usize),
    LoadError,
>)
    ensures
        r matches Ok(p) ==> spec_object_tile_list_at(toks.deep_view(), i as int) == Ok::<
            (Seq<crate::level::ObjectTile>, int),
            LoadError,
        >((p.0@, p.1 as int)) && i < p.1 <= toks@.len(),
        r matches Err(e) ==> spec_object_tile_list_at(toks.deep_view(), i as int) == Err::<
            (Seq<crate::level::ObjectTile>, int),
            LoadError,
        >(e),
{
    let ghost dv = toks.deep_view();
    let n = toks.len();
    if i >= n {
        return Err(LoadError::Schema);
    }
    proof {
        assert(dv[i as int] == toks@[i as int]@);
    }
    match &toks[i] {
        XmlEvent::SelfClosed(..) => {
            return Ok((Vec::new(), i + 1));
        },
        XmlEvent::Open(..) => {
        },
        _ => {
            return Err(LoadError::Schema);
        },
    }
    let mut acc: Vec<crate::level::ObjectTile> = Vec::new();
    let mut j: usize = i + 1;
    while j < n
        invariant
            n == toks@.len(),
            dv == toks.deep_view(),
            i < j <= n,
            spec_object_tile_list_at(dv, i as int) == spec_object_tile_items(dv, j as int, acc@),
        decreases n - j,
    {
        proof {
            assert(dv[j as int] == toks@[j as int]@);
        }
        match &toks[j] {
            XmlEvent::Close(_) => {
                return Ok((acc, j + 1));
            },
            XmlEvent::Misc => {
                j += 1;
            },
            XmlEvent::Open(name, _) | XmlEvent::SelfClosed(name, _) => {
                if str_eq(name.as_str(), "Tile") {
                    let p = match object_tile_at(toks, j) {
                        Ok(v) => v,
                        Err(e) => return Err(e),
                    };
                    acc.push(p.0);
                    j = p.1;
                } else {
                    j = match skip_element(toks, j) {
                        Ok(v) => v,
                        Err(e) => return Err(e),
                    };
                }
            },
        }
    }
    Err(LoadError::Schema)
}


/// The four tile layers of a room, as parsed.
pub struct RoomListsModel {
    pub bottom: Seq<Tile>,
    pub middle: Seq<Tile>,
    pub top: Seq<Tile>,
    pub object: Seq<crate::level::ObjectTile>,
}

/// A slot that defaults to the empty tile list when its element was absent.
pub open spec fn or_empty_tiles(o: Option<Seq<Tile>>) -> Seq<Tile> {
    match o {
        Some(s) => s,
        None => Seq::empty(),
    }
}

/// A slot that defaults to the empty object-tile list when absent.
pub open spec fn or_empty_objects(o: Option<Seq<crate::level::ObjectTile>>) -> Seq<
    crate::level::ObjectTile,
> {
    match o {
        Some(s) => s,
        None => Seq::empty(),
    }
}

/// Scans a room's children: each of the four tile-list elements may appear
/// at most once; an absent list is empty; unknown elements are skipped.
pub open spec fn spec_room_items(
    toks: Seq<EventModel>,
    j: int,
    bottom: Option<Seq<Tile>>,
    middle: Option<Seq<Tile>>,
    top: Option<Seq<Tile>>,
    object: Option<Seq<crate::level::ObjectTile>>,
) -> Result<(RoomListsModel, int), LoadError>
    decreases toks.len() - j,
{
    if j < 0 || j >= toks.len() {
        Err(LoadError::Schema)
    } else {
        match toks[j] {
            EventModel::Close { .. } => Ok(
                (
                    RoomListsModel {
                        bottom: or_empty_tiles(bottom),
                        middle: or_empty_tiles(middle),
                        top: or_empty_tiles(top),
                        object: or_empty_objects(object),
                    },
                    j + 1,
                ),
            ),
            EventModel::Misc => spec_room_items(toks, j + 1, bottom, middle, top, object),
            _ => {
                let name = elem_name(toks, j);
                if name == Some("BottomTiles"@) {
                    if bottom is Some {
                        Err(LoadError::Schema)
                    } else {
                        match spec_tile_list_at(toks, j) {
                            Ok((ts, j2)) => if j < j2 <= toks.len() {
                                spec_room_items(toks, j2, Some(ts), middle, top, object)
                            } else {
                                Err(LoadError::Schema)
                            },
                            Err(e) => Err(e),
                        }
                    }
                } else if name == Some("MiddleTiles"@) {
                    if middle is Some {
                        Err(LoadError::Schema)
                    } else {
                        match spec_tile_list_at(toks, j) {
                            Ok((ts, j2)) => if j < j2 <= toks.len() {
                                spec_room_items(toks, j2, bottom, Some(ts), top, object)
                            } else {
                                Err(LoadError::Schema)
                            },
                            Err(e) => Err(e),
                        }
                    }
                } else if name == Some("TopTiles"@) {
                    if top is Some {
                        Err(LoadError::Schema)
                    } else {
                        match spec_tile_list_at(toks, j) {
                            Ok((ts, j2)) => if j < j2 <= toks.len() {
                                spec_room_items(toks, j2, bottom, middle, Some(ts), object)
                            } else {
                                Err(LoadError::Schema)
                            },
                            Err(e) => Err(e),
                        }
                    }
                } else if name == Some("ObjectTiles"@) {
                    if object is Some {
                        Err(LoadError::Schema)
                    } else {
                        match spec_object_tile_list_at(toks, j) {
                            Ok((ts, j2)) => if j < j2 <= toks.len() {
                                spec_room_items(toks, j2, bottom, middle, top, Some(ts))
                            } else {
                                Err(LoadError::Schema)
                            },
                            Err(e) => Err(e),
                        }
                    }
                } else {
                    match spec_skip_element(toks, j) {
                        Some(j2) => if j < j2 <= toks.len() {
                            spec_room_items(toks, j2, bottom, middle, top, object)
                        } else {
                            Err(LoadError::Schema)
                        },
                        None => Err(LoadError::Schema),
                    }
                }
            },
        }
    }
}

/// The ghost value of an optional tile list under construction.
pub open spec fn opt_tiles_view(o: Option<Vec<Tile>>) -> Option<Seq<Tile>> {
    match o {
        Some(v) => Some(v@),
        None => None,
    }
}

/// The ghost value of an optional object-tile list under construction.
pub open spec fn opt_objects_view(o: Option<Vec<crate::level::ObjectTile>>) -> Option<
    Seq<crate::level::ObjectTile>,
> {
    match o {
        Some(v) => Some(v@),
        None => None,
    }
}

/// Scans a room's children, exactly as `spec_room_items` started on four
/// empty slots.
pub fn room_items(toks: &Vec<XmlEvent>, start: usize) -> (r: Result<
    (Vec<Tile>, Vec<Tile>, Vec<Tile>, Vec<crate::level::ObjectTile>, usize),
    LoadError,
>)
    ensures
        r matches Ok(p) ==> spec_room_items(
            toks.deep_view(),
            start as int,
            None,
            None,
            None,
            None,
        ) == Ok::<(RoomListsModel, int), LoadError>(
            (
                RoomListsModel { bottom: p.0@, middle: p.1@, top: p.2@, object: p.3@ },
                p.4 as int,
            ),
        ) && start < p.4 <= toks@.len(),
        r matches Err(e) ==> spec_room_items(toks.deep_view(), start as int, None, None, None, None)
            == Err::<(RoomListsModel, int), LoadError>(e),
{
    let ghost dv = toks.deep_view();
    let n = toks.len();
    if start >= n {
        return Err(LoadError::Schema);
    }
    let mut bottom: Option<Vec<Tile>> = None;
    let mut middle: Option<Vec<Tile>> = None;
    let mut top: Option<Vec<Tile>> = None;
    let mut object: Option<Vec<crate::level::ObjectTile>> = None;
    let mut j: usize = start;
    while j < n
        invariant
            n == toks@.len(),
            dv == toks.deep_view(),
            start <= j <= n,
            spec_room_items(dv, start as int, None, None, None, None) == spec_room_items(
                dv,
                j as int,
                opt_tiles_view(bottom),
                opt_tiles_view(middle),
                opt_tiles_view(top),
                opt_objects_view(object),
            ),
        decreases n - j,
    {
        proof {
            assert(dv[j as int] == toks@[j as int]@);
        }
        match &toks[j] {
            XmlEvent::Close(_) => {
                let b = match bottom {
                    Some(v) => v,
                    None => Vec::new(),
                };
                let m = match middle {
                    Some(v) => v,
                    None => Vec::new(),
                };
                let t = match top {
                    Some(v) => v,
                    None => Vec::new(),
                };
                let o = match object {
                    Some(v) => v,
                    None => Vec::new(),
                };
                return Ok((b, m, t, o, j + 1));
            },
            XmlEvent::Misc => {
                j += 1;
            },
            XmlEvent::Open(name, _) | XmlEvent::SelfClosed(name, _) => {
                if str_eq(name.as_str(), "BottomTiles") {
                    if bottom.is_some() {
                        return Err(LoadError::Schema);
                    }
                    let p = match tile_list_at(toks, j) {
                        Ok(v) => v,
                        Err(e) => return Err(e),
                    };
                    bottom = Some(p.0);
                    j = p.1;
                } else if str_eq(name.as_str(), "MiddleTiles") {
                    if middle.is_some() {
                        return Err(LoadError::Schema);
                    }
                    let p = match tile_list_at(toks, j) {
                        Ok(v) => v,
                        Err(e) => return Err(e),
                    };
                    middle = Some(p.0);
                    j = p.1;
                } else if str_eq(name.as_str(), "TopTiles") {
                    if top.is_some() {
                        return Err(LoadError::Schema);
                    }
                    let p = match tile_list_at(toks, j) {
                        Ok(v) => v,
                        Err(e) => return Err(e),
                    };
                    top = Some(p.0);
                    j = p.1;
                } else if str_eq(name.as_str(), "ObjectTiles") {
                    if object.is_some() {
                        return Err(LoadError::Schema);
                    }
                    let p = match object_tile_list_at(toks, j) {
                        Ok(v) => v,
                        Err(e) => return Err(e),
                    };
                    object = Some(p.0);
                    j = p.1;
                } else {
                    j = match skip_element(toks, j) {
                        Ok(v) => v,
                        Err(e) => return Err(e),
                    };
                }
            },
        }
    }
    Err(LoadError::Schema)
}


/// A whole room element at `i`: seven required header attributes and the
/// four tile-list children, each at most once, absent lists empty.
pub open spec fn spec_room_at(toks: Seq<EventModel>, i: int) -> Result<(RoomModel, int), LoadError> {
    match elem_attrs(toks, i) {
        Some(attrs) => match (
            spec_attr_i32(attrs, "ID"@),
            spec_attr_u32(attrs, "Index"@),
            spec_attr_string(attrs, "Name"@),
            spec_attr_string(attrs, "Tileset"@),
            spec_attr_u32(attrs, "Width"@),
            spec_attr_u32(attrs, "Height"@),
            spec_attr_string(attrs, "BackgroundWipeColor"@),
        ) {
            (Ok(id), Ok(index), Ok(name), Ok(tileset), Ok(width), Ok(height), Ok(bg)) => match toks[i] {
                EventModel::SelfClosed { .. } => Ok(
                    (
                        RoomModel {
                            id,
                            index,
                            name,
                            tileset,
                            width,
                            height,
                            background_wipe_color: bg,
                            bottom_tiles: Seq::empty(),
                            middle_tiles: Seq::empty(),
                            top_tiles: Seq::empty(),
                            object_tiles: Seq::empty(),
                        },
                        i + 1,
                    ),
                ),
                _ => match spec_room_items(toks, i + 1, None, None, None, None) {
                    Ok((lists, j)) => Ok(
                        (
                            RoomModel {
                                id,
                                index,
                                name,
                                tileset,
                                width,
                                height,
                                background_wipe_color: bg,
                                bottom_tiles: lists.bottom,
                                middle_tiles: lists.middle,
                                top_tiles: lists.top,
                                object_tiles: lists.object,
                            },
                            j,
                        ),
                    ),
                    Err(e) => Err(e),
                },
            },
            _ => Err(LoadError::Schema),
        },
        None => Err(LoadError::Schema),
    }
}

/// Reads a whole room element, exactly as `spec_room_at`.
pub fn room_at(toks: &Vec<XmlEvent>, i: usize) -> (r: Result<(Room, usize), LoadError>)
    ensures
        r matches Ok(p) ==> spec_room_at(toks.deep_view(), i as int) == Ok::<
            (RoomModel, int),
            LoadError,
        >((p.0@, p.1 as int)) && i < p.1 <= toks@.len(),
        r matches Err(e) ==> spec_room_at(toks.deep_view(), i as int) == Err::<
            (RoomModel, int),
            LoadError,
        >(e),
{
    let ghost dv = toks.deep_view();
    let n = toks.len();
    if i >= n {
        return Err(LoadError::Schema);
    }
    proof {
        assert(dv[i as int] == toks@[i as int]@);
    }
    let (attrs, self_closed) = match &toks[i] {
        XmlEvent::Open(_, attrs) => (attrs, false),
        XmlEvent::SelfClosed(_, attrs) => (attrs, true),
        _ => {
            return Err(LoadError::Schema);
        },
    };
    let id = match attr_i32(attrs, "ID") {
        Ok(v) => v,
        Err(e) => return Err(e),
    };
    let index = match attr_u32(attrs, "Index") {
        Ok(v) => v,
        Err(e) => return Err(e),
    };
    let name = match attr_string(attrs, "Name") {
        Ok(v) => v,
        Err(e) => return Err(e),
    };
    let tileset = match attr_string(attrs, "Tileset") {
        Ok(v) => v,
        Err(e) => return Err(e),
    };
    let width = match attr_u32(attrs, "Width") {
        Ok(v) => v,
        Err(e) => return Err(e),
    };
    let height = match attr_u32(attrs, "Height") {
        Ok(v) => v,
        Err(e) => return Err(e),
    };
    let background_wipe_color = match attr_string(attrs, "BackgroundWipeColor") {
        Ok(v) => v,
        Err(e) => return Err(e),
    };
    if self_closed {
        let room = Room {
            id,
            index,
            name,
            tileset,
            width,
            height,
            background_wipe_color,
            bottom_tiles: Vec::new(),
            middle_tiles: Vec::new(),
            top_tiles: Vec::new(),
            object_tiles: Vec::new(),
        };
        return Ok((room, i + 1));
    }
    let lists = match room_items(toks, i + 1) {
        Ok(v) => v,
        Err(e) => return Err(e),
    };
    let room = Room {
        id,
        index,
        name,
        tileset,
        width,
        height,
        background_wipe_color,
        bottom_tiles: lists.0,
        middle_tiles: lists.1,
        top_tiles: lists.2,
        object_tiles: lists.3,
    };
    Ok((room, lists.4))
}

/// Collects `Room` children until the enclosing close tag.
pub open spec fn spec_rooms_items(toks: Seq<EventModel>, j: int, acc: Seq<RoomModel>) -> Result<
    (Seq<RoomModel>, int),
    LoadError,
>
    decreases toks.len() - j,
{
    if j < 0 || j >= toks.len() {
        Err(LoadError::Schema)
    } else {
        match toks[j] {
            EventModel::Close { .. } => Ok((acc, j + 1)),
            EventModel::Misc => spec_rooms_items(toks, j + 1, acc),
            _ => {
                if elem_name(toks, j) == Some("Room"@) {
                    match spec_room_at(toks, j) {
                        Ok((room, j2)) => if j < j2 <= toks.len() {
                            spec_rooms_items(toks, j2, acc.push(room))
                        } else {
                            Err(LoadError::Schema)
                        },
                        Err(e) => Err(e),
                    }
                } else {
                    match spec_skip_element(toks, j) {
                        Some(j2) => if j < j2 <= toks.len() {
                            spec_rooms_items(toks, j2, acc)
                        } else {
                            Err(LoadError::Schema)
                        },
                        None => Err(LoadError::Schema),
                    }
                }
            },
        }
    }
}

/// A whole `Rooms` container element at `i`.
pub open spec fn spec_rooms_list_at(toks: Seq<EventModel>, i: int) -> Result<
    (Seq<RoomModel>, int),
    LoadError,
> {
    if 0 <= i < toks.len() {
        match toks[i] {
            EventModel::SelfClosed { .. } => Ok((Seq::empty(), i + 1)),
            EventModel::Open { .. } => spec_rooms_items(toks, i + 1, Seq::empty()),
            _ => Err(LoadError::Schema),
        }
    } else {
        Err(LoadError::Schema)
    }
}

/// Reads a whole `Rooms` container, exactly as `spec_rooms_list_at`.
pub fn rooms_list_at(toks: &Vec<XmlEvent>, i: usize) -> (r: Result<(Vec<Room>, usize), LoadError>)
    ensures
        r matches Ok(p) ==> spec_rooms_list_at(toks.deep_view(), i as int) == Ok::<
            (Seq<RoomModel>, int),
            LoadError,
        >((p.0.deep_view(), p.1 as int)) && i < p.1 <= toks@.len(),
        r matches Err(e) ==> spec_rooms_list_at(toks.deep_view(), i as int) == Err::<
            (Seq<RoomModel>, int),
            LoadError,
        >(e),
{
    let ghost dv = toks.deep_view();
    let n = toks.len();
    if i >= n {
        return Err(LoadError::Schema);
    }
    proof {
        assert(dv[i as int] == toks@[i as int]@);
    }
    match &toks[i] {
        XmlEvent::SelfClosed(..) => {
            let out: Vec<Room> = Vec::new();
            proof {
                assert(out.deep_view() =~= Seq::<RoomModel>::empty());
            }
            return Ok((out, i + 1));
        },
        XmlEvent::Open(..) => {
        },
        _ => {
            return Err(LoadError::Schema);
        },
    }
    let mut acc: Vec<Room> = Vec::new();
    proof {
        assert(acc.deep_view() =~= Seq::<RoomModel>::empty());
    }
    let mut j: usize = i + 1;
    while j < n
        invariant
            n == toks@.len(),
            dv == toks.deep_view(),
            i < j <= n,
            spec_rooms_list_at(dv, i as int) == spec_rooms_items(dv, j as int, acc.deep_view()),
        decreases n - j,
    {
        proof {
            assert(dv[j as int] == toks@[j as int]@);
        }
        match &toks[j] {
            XmlEvent::Close(_) => {
                return Ok((acc, j + 1));
            },
            XmlEvent::Misc => {
                j += 1;
            },
            XmlEvent::Open(name, _) | XmlEvent::SelfClosed(name, _) => {
                if str_eq(name.as_str(), "Room") {
                    let p = match room_at(toks, j) {
                        Ok(v) => v,
                        Err(e) => return Err(e),
                    };
                    let ghost prev = acc.deep_view();
                    let ghost room_model = p.0@;
                    acc.push(p.0);
                    proof {
                        assert(acc.deep_view() =~= prev.push(room_model));
                    }
                    j = p.1;
                } else {
                    j = match skip_element(toks, j) {
                        Ok(v) => v,
                        Err(e) => return Err(e),
                    };
                }
            },
        }
    }
    Err(LoadError::Schema)
}

/// Scans the root element's children for the single `Rooms` container;
/// unknown elements are skipped, a duplicate or missing container is a
/// schema error.
pub open spec fn spec_level_items(toks: Seq<EventModel>, j: int, rooms: Option<Seq<RoomModel>>) -> Result<
    (Seq<RoomModel>, int),
    LoadError,
>
    decreases toks.len() - j,
{
    if j < 0 || j >= toks.len() {
        Err(LoadError::Schema)
    } else {
        match toks[j] {
            EventModel::Close { .. } => match rooms {
                Some(rs) => Ok((rs, j + 1)),
                None => Err(LoadError::Schema),
            },
            EventModel::Misc => spec_level_items(toks, j + 1, rooms),
            _ => {
                if elem_name(toks, j) == Some("Rooms"@) {
                    if rooms is Some {
                        Err(LoadError::Schema)
                    } else {
                        match spec_rooms_list_at(toks, j) {
                            Ok((rs, j2)) => if j < j2 <= toks.len() {
                                spec_level_items(toks, j2, Some(rs))
                            } else {
                                Err(LoadError::Schema)
                            },
                            Err(e) => Err(e),
                        }
                    }
                } else {
                    match spec_skip_element(toks, j) {
                        Some(j2) => if j < j2 <= toks.len() {
                            spec_level_items(toks, j2, rooms)
                        } else {
                            Err(LoadError::Schema)
                        },
                        None => Err(LoadError::Schema),
                    }
                }
            },
        }
    }
}

/// The ghost value of the optional rooms list under construction.
pub open spec fn opt_rooms_view(o: Option<Vec<Room>>) -> Option<Seq<RoomModel>> {
    match o {
        Some(v) => Some(v.deep_view()),
        None => None,
    }
}

/// A whole level document root at `i`: required `ID` and `Name` attributes
/// and the `Rooms` container among its children.
pub open spec fn spec_level_at(toks: Seq<EventModel>, i: int) -> Result<(LevelModel, int), LoadError> {
    match elem_attrs(toks, i) {
        Some(attrs) => match (spec_attr_i32(attrs, "ID"@), spec_attr_string(attrs, "Name"@)) {
            (Ok(id), Ok(name)) => match toks[i] {
                EventModel::SelfClosed { .. } => Err(LoadError::Schema),
                _ => match spec_level_items(toks, i + 1, None) {
                    Ok((rooms, j)) => Ok((LevelModel { id, name, rooms }, j)),
                    Err(e) => Err(e),
                },
            },
            _ => Err(LoadError::Schema),
        },
        None => Err(LoadError::Schema),
    }
}

/// Reads the level root element, exactly as `spec_level_at`.
#[verifier::loop_isolation(false)]
pub fn level_at(toks: &Vec<XmlEvent>, i: usize) -> (r: Result<(Level, usize), LoadError>)
    ensures
        r matches Ok(p) ==> spec_level_at(toks.deep_view(), i as int) == Ok::<
            (LevelModel, int),
            LoadError,
        >((p.0@, p.1 as int)),
        r matches Err(e) ==> spec_level_at(toks.deep_view(), i as int) == Err::<
            (LevelModel, int),
            LoadError,
        >(e),
{
    let ghost dv = toks.deep_view();
    let n = toks.len();
    if i >= n {
        return Err(LoadError::Schema);
    }
    proof {
        assert(dv[i as int] == toks@[i as int]@);
    }
    let (attrs, self_closed) = match &toks[i] {
        XmlEvent::Open(_, attrs) => (attrs, false),
        XmlEvent::SelfClosed(_, attrs) => (attrs, true),
        _ => {
            return Err(LoadError::Schema);
        },
    };
    let id = match attr_i32(attrs, "ID") {
        Ok(v) => v,
        Err(e) => return Err(e),
    };
    let name = match attr_string(attrs, "Name") {
        Ok(v) => v,
        Err(e) => return Err(e),
    };
    if self_closed {
        return Err(LoadError::Schema);
    }
    let mut rooms: Option<Vec<Room>> = None;
    let mut j: usize = i + 1;
    while j < n
        invariant
            n == toks@.len(),
            dv == toks.deep_view(),
            i < j <= n,
            spec_level_items(dv, i + 1, None) == spec_level_items(dv, j as int, opt_rooms_view(rooms)),
        decreases n - j,
    {
        proof {
            assert(dv[j as int] == toks@[j as int]@);
        }
        match &toks[j] {
            XmlEvent::Close(_) => {
                let rs = match rooms {
                    Some(v) => v,
                    None => {
                        return Err(LoadError::Schema);
                    },
                };
                return Ok((Level { id, name, rooms: rs }, j + 1));
            },
            XmlEvent::Misc => {
                j += 1;
            },
            XmlEvent::Open(tag, _) | XmlEvent::SelfClosed(tag, _) => {
                if str_eq(tag.as_str(), "Rooms") {
                    if rooms.is_some() {
                        return Err(LoadError::Schema);
                    }
                    let p = match rooms_list_at(toks, j) {
                        Ok(v) => v,
                        Err(e) => return Err(e),
                    };
                    rooms = Some(p.0);
                    j = p.1;
                } else {
                    j = match skip_element(toks, j) {
                        Ok(v) => v,
                        Err(e) => return Err(e),
                    };
                }
            },
        }
    }
    Err(LoadError::Schema)
}



/// The level document a whole event stream encodes: the root element parsed
/// as a level; anything after the root element is ignored.
pub open spec fn spec_level_doc(toks: Seq<EventModel>) -> Result<LevelModel, LoadError> {
    match spec_find_root(toks, 0) {
        Some(i) => match spec_level_at(toks, i) {
            Ok((level, _)) => Ok(level),
            Err(e) => Err(e),
        },
        None => Err(LoadError::Schema),
    }
}

/// Parses a level from an XML event stream, exactly as `spec_level_doc`.
pub fn parse_level_events(toks: &Vec<XmlEvent>) -> (r: Result<Level, LoadError>)
    ensures
        r matches Ok(l) ==> spec_level_doc(toks.deep_view()) == Ok::<LevelModel, LoadError>(l@),
        r matches Err(e) ==> spec_level_doc(toks.deep_view()) == Err::<LevelModel, LoadError>(e),
{
    let i = match find_root(toks) {
        Ok(v) => v,
        Err(e) => return Err(e),
    };
    match level_at(toks, i) {
        Ok(p) => Ok(p.0),
        Err(e) => Err(e),
    }
}

/// The level document a compressed byte stream encodes: inflate, tokenize,
/// parse; a stream that is not zlib data is a decompression error, one that
/// is not well-formed XML a schema error.
pub open spec fn spec_load_level(data: Seq<u8>) -> Result<LevelModel, LoadError> {
    match zlib_decoded(data) {
        Some(plain) => match xml_events_of(plain) {
            Some(toks) => spec_level_doc(toks),
            None => Err(LoadError::Schema),
        },
        None => Err(LoadError::Decompress),
    }
}

/// Loads a level from the raw bytes of a level file, exactly as
/// `spec_load_level`: the whole document, or the first error met.
pub fn load_map_from_bytes(data: &Vec<u8>) -> (r: Result<Level, LoadError>)
    ensures
        r matches Ok(l) ==> spec_load_level(data@) == Ok::<LevelModel, LoadError>(l@),
        r matches Err(e) ==> spec_load_level(data@) == Err::<LevelModel, LoadError>(e),
{
    let plain = match zlib_decompress(data) {
        Some(v) => v,
        None => {
            return Err(LoadError::Decompress);
        },
    };
    let toks = match read_xml_events(&plain) {
        Some(v) => v,
        None => {
            return Err(LoadError::Schema);
        },
    };
    parse_level_events(&toks)
}

} // verus!
