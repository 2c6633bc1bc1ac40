//! The minimap document: areas, each with named rooms and grid positions.
//! Minimap rooms are a different schema from level rooms and are correlated
//! with them only by shared id at render time.
use vstd::prelude::*;

use crate::error::LoadError;
use crate::text::str_eq;
use crate::xml::attr_i32;
use crate::xml::attr_position;
use crate::xml::attr_u32;
use crate::xml::read_xml_events;
use crate::xml::skip_element;
use crate::xml::spec_attr_i32;
use crate::xml::spec_attr_position;
use crate::xml::spec_attr_u32;
use crate::xml::spec_skip_element;
use crate::xml::xml_events_of;
use crate::xml::zlib_decoded;
use crate::xml::zlib_decompress;
use crate::xml::EventModel;
use crate::xml::XmlEvent;
use crate::xml::elem_attrs;
use crate::xml::elem_name;
use crate::xml::spec_find_root;
use crate::xml::find_root;
use crate::Position;

verus! {

/// A minimap room: id, size in grid cells and its position on the area's
/// grid, decoded from a position token.
#[derive(Clone, Copy, Debug, PartialEq, Eq, Structural)]
pub struct Room {
    pub id: i32,
    pub width: u32,
    pub height: u32,
    pub position: Position,
}

/// The rooms of one area.
#[derive(Clone, Debug, PartialEq, Eq)]
pub struct RoomList {
    pub rooms: Vec<Room>,
}

impl View for RoomList {
    type V = Seq<Room>;

    open spec fn view(&self) -> Seq<Room> {
        self.rooms@
    }
}

/// One minimap area: an id shared with a level, and its rooms.
#[derive(Clone, Debug, PartialEq, Eq)]
pub struct Area {
    pub id: i32,
    pub room_list: RoomList,
}

/// The ghost shape of an area.
pub struct AreaModel {
    pub id: i32,
    pub rooms: Seq<Room>,
}

impl View for Area {
    type V = AreaModel;

    open spec fn view(&self) -> AreaModel {
        AreaModel { id: self.id, rooms: self.room_list@ }
    }
}

impl DeepView for Area {
    type V = AreaModel;

    open spec fn deep_view(&self) -> AreaModel {
        self@
    }
}

/// The areas of the minimap.
#[derive(Clone, Debug, PartialEq, Eq)]
pub struct AreaList {
    pub areas: Vec<Area>,
}

impl View for AreaList {
    type V = Seq<AreaModel>;

    open spec fn view(&self) -> Seq<AreaModel> {
        self.areas.deep_view()
    }
}

/// The whole minimap document.
#[derive(Clone, Debug, PartialEq, Eq)]
pub struct Minimap {
    pub area_list: AreaList,
}

/// The ghost shape of the minimap.
pub struct MinimapModel {
    pub areas: Seq<AreaModel>,
}

impl View for Minimap {
    type V = MinimapModel;

    open spec fn view(&self) -> MinimapModel {
        MinimapModel { areas: self.area_list@ }
    }
}

/// A whole minimap-room element at `i`: four required attributes, the body
/// (if any) skipped.
pub open spec fn spec_minimap_room_at(toks: Seq<EventModel>, i: int) -> Result<
    (Room, int),
    LoadError,
> {
    match elem_attrs(toks, i) {
        Some(attrs) => match (
            spec_attr_i32(attrs, "ID"@),
            spec_attr_u32(attrs, "Width"@),
            spec_attr_u32(attrs, "Height"@),
            spec_attr_position(attrs, "Position"@),
        ) {
            (Ok(id), Ok(width), Ok(height), Ok(position)) => match spec_skip_element(toks, i) {
                Some(j) => Ok((Room { id, width, height, position }, j)),
                None => Err(LoadError::Schema),
            },
            _ => Err(LoadError::Schema),
        },
        None => Err(LoadError::Schema),
    }
}

/// Reads a whole minimap-room element, exactly as `spec_minimap_room_at`.
pub fn minimap_room_at(toks: &Vec<XmlEvent>, i: usize) -> (r: Result<(Room, usize), LoadError>)
    ensures
        r matches Ok(p) ==> spec_minimap_room_at(toks.deep_view(), i as int) == Ok::<
            (Room, int),
            LoadError,
        >((p.0, p.1 as int)) && i < p.1 <= toks@.len(),
        r matches Err(e) ==> spec_minimap_room_at(toks.deep_view(), i as int) == Err::<
            (Room, int),
            LoadError,
        >(e),
{
    let n = toks.len();
    if i >= n {
        return Err(LoadError::Schema);
    }
    proof {
        assert(toks.deep_view()[i as int] == toks@[i as int]@);
    }
    let attrs = match &toks[i] {
        XmlEvent::Open(_, attrs) => attrs,
        XmlEvent::SelfClosed(_, attrs) => attrs,
        _ => {
            return Err(LoadError::Schema);
        },
    };
    let id = match attr_i32(attrs, "ID") {
        Ok(v) => v,
        Err(e) => return Err(e),
    };
    let width = match attr_u32(attrs, "Width") {
        Ok(v) => v,
        Err(e) => return Err(e),
    };
    let height = match attr_u32(attrs, "Height") {
        Ok(v) => v,
        Err(e) => return Err(e),
    };
    let position = match attr_position(attrs, "Position") {
        Ok(v) => v,
        Err(e) => return Err(e),
    };
    let j = match skip_element(toks, i) {
        Ok(v) => v,
        Err(e) => return Err(e),
    };
    Ok((Room { id, width, height, position }, j))
}

/// Collects `Room` children of a minimap rooms container.
pub open spec fn spec_minimap_room_items(toks: Seq<EventModel>, j: int, acc: Seq<Room>) -> Result<
    (Seq<Room>, int),
    LoadError,
>
    decreases toks.len() - j,
{
    if j < 0 || j >= toks.len() {
        Err(LoadError::Schema)
    } else {
        match toks[j] {
            EventModel::Close { .. } => Ok((acc, j + 1)),
            EventModel::Misc => spec_minimap_room_items(toks, j + 1, acc),
            _ => {
                if elem_name(toks, j) == Some("Room"@) {
                    match spec_minimap_room_at(toks, j) {
                        Ok((room, j2)) => if j < j2 <= toks.len() {
                            spec_minimap_room_items(toks, j2, acc.push(room))
                        } else {
                            Err(LoadError::Schema)
                        },
                        Err(e) => Err(e),
                    }
                } else {
                    match spec_skip_element(toks, j) {
                        Some(j2) => if j < j2 <= toks.len() {
                            spec_minimap_room_items(toks, j2, acc)
                        } else {
                            Err(LoadError::Schema)
                        },
                        None => Err(LoadError::Schema),
                    }
                }
            },
        }
    }
}

/// A whole minimap `Rooms` container element at `i`.
pub open spec fn spec_minimap_rooms_at(toks: Seq<EventModel>, i: int) -> Result<
    (Seq<Room>, int),
    LoadError,
> {
    if 0 <= i < toks.len() {
        match toks[i] {
            EventModel::SelfClosed { .. } => Ok((Seq::empty(), i + 1)),
            EventModel::Open { .. } => spec_minimap_room_items(toks, i + 1, Seq::empty()),
            _ => Err(LoadError::Schema),
        }
    } else {
        Err(LoadError::Schema)
    }
}

/// Reads a whole minimap `Rooms` container, exactly as
/// `spec_minimap_rooms_at`.
pub fn minimap_rooms_at(toks: &Vec<XmlEvent>, i: usize) -> (r: Result<
    (Vec<Room>, usize),
    LoadError,
>)
    ensures
        r matches Ok(p) ==> spec_minimap_rooms_at(toks.deep_view(), i as int) == Ok::<
            (Seq<Room>, int),
            LoadError,
        >((p.0@, p.1 as int)) && i < p.1 <= toks@.len(),
        r matches Err(e) ==> spec_minimap_rooms_at(toks.deep_view(), i as int) == Err::<
            (Seq<Room>, int),
            LoadError,
        >(e),
{
    let ghost dv = toks.deep_view();
    let n = toks.len();
    if i >= n {
        return Err(LoadError::Schema);
    }
    proof {
        assert(dv[i as int] == toks@[i as int]@);
    }
    match &toks[i] {
        XmlEvent::SelfClosed(..) => {
            return Ok((Vec::new(), i + 1));
        },
        XmlEvent::Open(..) => {
        },
        _ => {
            return Err(LoadError::Schema);
        },
    }
    let mut acc: Vec<Room> = Vec::new();
    let mut j: usize = i + 1;
    while j < n
        invariant
            n == toks@.len(),
            dv == toks.deep_view(),
            i < j <= n,
            spec_minimap_rooms_at(dv, i as int) == spec_minimap_room_items(dv, j as int, acc@),
        decreases n - j,
    {
        proof {
            assert(dv[j as int] == toks@[j as int]@);
        }
        match &toks[j] {
            XmlEvent::Close(_) => {
                return Ok((acc, j + 1));
            },
            XmlEvent::Misc => {
                j += 1;
            },
            XmlEvent::Open(name, _) | XmlEvent::SelfClosed(name, _) => {
                if str_eq(name.as_str(), "Room") {
                    let p = match minimap_room_at(toks, j) {
                        Ok(v) => v,
                        Err(e) => return Err(e),
                    };
                    acc.push(p.0);
                    j = p.1;
                } else {
                    j = match skip_element(toks, j) {
                        Ok(v) => v,
                        Err(e) => return Err(e),
                    };
                }
            },
        }
    }
    Err(LoadError::Schema)
}

/// The ghost value of the optional rooms list under construction.
pub open spec fn opt_minimap_rooms_view(o: Option<Vec<Room>>) -> Option<Seq<Room>> {
    match o {
        Some(v) => Some(v@),
        None => None,
    }
}

/// Scans an area's children for the single `Rooms` container; unknown
/// elements are skipped, a duplicate or missing container is a schema error.
pub open spec fn spec_area_items(toks: Seq<EventModel>, j: int, rooms: Option<Seq<Room>>) -> Result<
    (Seq<Room>, int),
    LoadError,
>
    decreases toks.len() - j,
{
    if j < 0 || j >= toks.len() {
        Err(LoadError::Schema)
    } else {
        match toks[j] {
            EventModel::Close { .. } => match rooms {
                Some(rs) => Ok((rs, j + 1)),
                None => Err(LoadError::Schema),
            },
            EventModel::Misc => spec_area_items(toks, j + 1, rooms),
            _ => {
                if elem_name(toks, j) == Some("Rooms"@) {
                    if rooms is Some {
                        Err(LoadError::Schema)
                    } else {
                        match spec_minimap_rooms_at(toks, j) {
                            Ok((rs, j2)) => if j < j2 <= toks.len() {
                                spec_area_items(toks, j2, Some(rs))
                            } else {
                                Err(LoadError::Schema)
                            },
                            Err(e) => Err(e),
                        }
                    }
                } else {
                    match spec_skip_element(toks, j) {
                        Some(j2) => if j < j2 <= toks.len() {
                            spec_area_items(toks, j2, rooms)
                        } else {
                            Err(LoadError::Schema)
                        },
                        None => Err(LoadError::Schema),
                    }
                }
            },
        }
    }
}

/// A whole area element at `i`: a required `ID` attribute and the `Rooms`
/// container among its children.
pub open spec fn spec_area_at(toks: Seq<EventModel>, i: int) -> Result<(AreaModel, int), LoadError> {
    match elem_attrs(toks, i) {
        Some(attrs) => match spec_attr_i32(attrs, "ID"@) {
            Ok(id) => match toks[i] {
                EventModel::SelfClosed { .. } => Err(LoadError::Schema),
                _ => match spec_area_items(toks, i + 1, None) {
                    Ok((rooms, j)) => Ok((AreaModel { id, rooms }, j)),
                    Err(e) => Err(e),
                },
            },
            Err(e) => Err(e),
        },
        None => Err(LoadError::Schema),
    }
}

/// Reads a whole area element, exactly as `spec_area_at`.
#[verifier::loop_isolation(false)]
pub fn area_at(toks: &Vec<XmlEvent>, i: usize) -> (r: Result<(Area, usize), LoadError>)
    ensures
        r matches Ok(p) ==> spec_area_at(toks.deep_view(), i as int) == Ok::<
            (AreaModel, int),
            LoadError,
        >((p.0@, p.1 as int)) && i < p.1 <= toks@.len(),
        r matches Err(e) ==> spec_area_at(toks.deep_view(), i as int) == Err::<
            (AreaModel, int),
            LoadError,
        >(e),
{
    let ghost dv = toks.deep_view();
    let n = toks.len();
    if i >= n {
        return Err(LoadError::Schema);
    }
    proof {
        assert(dv[i as int] == toks@[i as int]@);
    }
    let (attrs, self_closed) = match &toks[i] {
        XmlEvent::Open(_, attrs) => (attrs, false),
        XmlEvent::SelfClosed(_, attrs) => (attrs, true),
        _ => {
            return Err(LoadError::Schema);
        },
    };
    let id = match attr_i32(attrs, "ID") {
        Ok(v) => v,
        Err(e) => return Err(e),
    };
    if self_closed {
        return Err(LoadError::Schema);
    }
    let mut rooms: Option<Vec<Room>> = None;
    let mut j: usize = i + 1;
    while j < n
        invariant
            i < j <= n,
            spec_area_items(dv, i + 1, None) == spec_area_items(
                dv,
                j as int,
                opt_minimap_rooms_view(rooms),
            ),
        decreases n - j,
    {
        proof {
            assert(dv[j as int] == toks@[j as int]@);
        }
        match &toks[j] {
            XmlEvent::Close(_) => {
                let rs = match rooms {
                    Some(v) => v,
                    None => {
                        return Err(LoadError::Schema);
                    },
                };
                return Ok((Area { id, room_list: RoomList { rooms: rs } }, j + 1));
            },
            XmlEvent::Misc => {
                j += 1;
            },
            XmlEvent::Open(tag, _) | XmlEvent::SelfClosed(tag, _) => {
                if str_eq(tag.as_str(), "Rooms") {
                    if rooms.is_some() {
                        return Err(LoadError::Schema);
                    }
                    let p = match minimap_rooms_at(toks, j) {
                        Ok(v) => v,
                        Err(e) => return Err(e),
                    };
                    rooms = Some(p.0);
                    j = p.1;
                } else {
                    j = match skip_element(toks, j) {
                        Ok(v) => v,
                        Err(e) => return Err(e),
                    };
                }
            },
        }
    }
    Err(LoadError::Schema)
}

/// Collects `Area` children of the `Areas` container.
pub open spec fn spec_area_items_list(toks: Seq<EventModel>, j: int, acc: Seq<AreaModel>) -> Result<
    (Seq<AreaModel>, int),
    LoadError,
>
    decreases toks.len() - j,
{
    if j < 0 || j >= toks.len() {
        Err(LoadError::Schema)
    } else {
        match toks[j] {
            EventModel::Close { .. } => Ok((acc, j + 1)),
            EventModel::Misc => spec_area_items_list(toks, j + 1, acc),
            _ => {
                if elem_name(toks, j) == Some("Area"@) {
                    match spec_area_at(toks, j) {
                        Ok((area, j2)) => if j < j2 <= toks.len() {
                            spec_area_items_list(toks, j2, acc.push(area))
                        } else {
                            Err(LoadError::Schema)
                        },
                        Err(e) => Err(e),
                    }
                } else {
                    match spec_skip_element(toks, j) {
                        Some(j2) => if j < j2 <= toks.len() {
                            spec_area_items_list(toks, j2, acc)
                        } else {
                            Err(LoadError::Schema)
                        },
                        None => Err(LoadError::Schema),
                    }
                }
            },
        }
    }
}

/// A whole `Areas` container element at `i`.
pub open spec fn spec_areas_at(toks: Seq<EventModel>, i: int) -> Result<
    (Seq<AreaModel>, int),
    LoadError,
> {
    if 0 <= i < toks.len() {
        match toks[i] {
            EventModel::SelfClosed { .. } => Ok((Seq::empty(), i + 1)),
            EventModel::Open { .. } => spec_area_items_list(toks, i + 1, Seq::empty()),
            _ => Err(LoadError::Schema),
        }
    } else {
        Err(LoadError::Schema)
    }
}

/// Reads a whole `Areas` container, exactly as `spec_areas_at`.
pub fn areas_at(toks: &Vec<XmlEvent>, i: usize) -> (r: Result<(Vec<Area>, usize), LoadError>)
    ensures
        r matches Ok(p) ==> spec_areas_at(toks.deep_view(), i as int) == Ok::<
            (Seq<AreaModel>, int),
            LoadError,
        >((p.0.deep_view(), p.1 as int)) && i < p.1 <= toks@.len(),
        r matches Err(e) ==> spec_areas_at(toks.deep_view(), i as int) == Err::<
            (Seq<AreaModel>, int),
            LoadError,
        >(e),
{
    let ghost dv = toks.deep_view();
    let n = toks.len();
    if i >= n {
        return Err(LoadError::Schema);
    }
    proof {
        assert(dv[i as int] == toks@[i as int]@);
    }
    match &toks[i] {
        XmlEvent::SelfClosed(..) => {
            let out: Vec<Area> = Vec::new();
            proof {
                assert(out.deep_view() =~= Seq::<AreaModel>::empty());
            }
            return Ok((out, i + 1));
        },
        XmlEvent::Open(..) => {
        },
        _ => {
            return Err(LoadError::Schema);
        },
    }
    let mut acc: Vec<Area> = Vec::new();
    proof {
        assert(acc.deep_view() =~= Seq::<AreaModel>::empty());
    }
    let mut j: usize = i + 1;
    while j < n
        invariant
            n == toks@.len(),
            dv == toks.deep_view(),
            i < j <= n,
            spec_areas_at(dv, i as int) == spec_area_items_list(dv, j as int, acc.deep_view()),
        decreases n - j,
    {
        proof {
            assert(dv[j as int] == toks@[j as int]@);
        }
        match &toks[j] {
            XmlEvent::Close(_) => {
                return Ok((acc, j + 1));
            },
            XmlEvent::Misc => {
                j += 1;
            },
            XmlEvent::Open(name, _) | XmlEvent::SelfClosed(name, _) => {
                if str_eq(name.as_str(), "Area") {
                    let p = match area_at(toks, j) {
                        Ok(v) => v,
                        Err(e) => return Err(e),
                    };
                    let ghost prev = acc.deep_view();
                    let ghost area_model = p.0@;
                    acc.push(p.0);
                    proof {
                        assert(acc.deep_view() =~= prev.push(area_model));
                    }
                    j = p.1;
                } else {
                    j = match skip_element(toks, j) {
                        Ok(v) => v,
                        Err(e) => return Err(e),
                    };
                }
            },
        }
    }
    Err(LoadError::Schema)
}

/// The ghost value of the optional areas list under construction.
pub open spec fn opt_areas_view(o: Option<Vec<Area>>) -> Option<Seq<AreaModel>> {
    match o {
        Some(v) => Some(v.deep_view()),
        None => None,
    }
}

/// Scans the root element's children for the single `Areas` container.
pub open spec fn spec_minimap_items(
    toks: Seq<EventModel>,
    j: int,
    areas: Option<Seq<AreaModel>>,
) -> Result<(Seq<AreaModel>, int), LoadError>
    decreases toks.len() - j,
{
    if j < 0 || j >= toks.len() {
        Err(LoadError::Schema)
    } else {
        match toks[j] {
            EventModel::Close { .. } => match areas {
                Some(ar) => Ok((ar, j + 1)),
                None => Err(LoadError::Schema),
            },
            EventModel::Misc => spec_minimap_items(toks, j + 1, areas),
            _ => {
                if elem_name(toks, j) == Some("Areas"@) {
                    if areas is Some {
                        Err(LoadError::Schema)
                    } else {
                        match spec_areas_at(toks, j) {
                            Ok((ar, j2)) => if j < j2 <= toks.len() {
                                spec_minimap_items(toks, j2, Some(ar))
                            } else {
                                Err(LoadError::Schema)
                            },
                            Err(e) => Err(e),
                        }
                    }
                } else {
                    match spec_skip_element(toks, j) {
                        Some(j2) => if j < j2 <= toks.len() {
                            spec_minimap_items(toks, j2, areas)
                        } else {
                            Err(LoadError::Schema)
                        },
                        None => Err(LoadError::Schema),
                    }
                }
            },
        }
    }
}

/// The minimap root element at `i`: no required attributes, the `Areas`
/// container among its children.
pub open spec fn spec_minimap_at(toks: Seq<EventModel>, i: int) -> Result<
    (MinimapModel, int),
    LoadError,
> {
    if 0 <= i < toks.len() {
        match toks[i] {
            EventModel::SelfClosed { .. } => Err(LoadError::Schema),
            EventModel::Open { .. } => match spec_minimap_items(toks, i + 1, None) {
                Ok((areas, j)) => Ok((MinimapModel { areas }, j)),
                Err(e) => Err(e),
            },
            _ => Err(LoadError::Schema),
        }
    } else {
        Err(LoadError::Schema)
    }
}

/// Reads the minimap root element, exactly as `spec_minimap_at`.
#[verifier::loop_isolation(false)]
pub fn minimap_at(toks: &Vec<XmlEvent>, i: usize) -> (r: Result<(Minimap, usize), LoadError>)
    ensures
        r matches Ok(p) ==> spec_minimap_at(toks.deep_view(), i as int) == Ok::<
            (MinimapModel, int),
            LoadError,
        >((p.0@, p.1 as int)),
        r matches Err(e) ==> spec_minimap_at(toks.deep_view(), i as int) == Err::<
            (MinimapModel, int),
            LoadError,
        >(e),
{
    let ghost dv = toks.deep_view();
    let n = toks.len();
    if i >= n {
        return Err(LoadError::Schema);
    }
    proof {
        assert(dv[i as int] == toks@[i as int]@);
    }
    match &toks[i] {
        XmlEvent::Open(..) => {
        },
        _ => {
            return Err(LoadError::Schema);
        },
    }
    let mut areas: Option<Vec<Area>> = None;
    let mut j: usize = i + 1;
    while j < n
        invariant
            i < j <= n,
            spec_minimap_items(dv, i + 1, None) == spec_minimap_items(
                dv,
                j as int,
                opt_areas_view(areas),
            ),
        decreases n - j,
    {
        proof {
            assert(dv[j as int] == toks@[j as int]@);
        }
        match &toks[j] {
            XmlEvent::Close(_) => {
                let ar = match areas {
                    Some(v) => v,
                    None => {
                        return Err(LoadError::Schema);
                    },
                };
                return Ok((Minimap { area_list: AreaList { areas: ar } }, j + 1));
            },
            XmlEvent::Misc => {
                j += 1;
            },
            XmlEvent::Open(tag, _) | XmlEvent::SelfClosed(tag, _) => {
                if str_eq(tag.as_str(), "Areas") {
                    if areas.is_some() {
                        return Err(LoadError::Schema);
                    }
                    let p = match areas_at(toks, j) {
                        Ok(v) => v,
                        Err(e) => return Err(e),
                    };
                    areas = Some(p.0);
                    j = p.1;
                } else {
                    j = match skip_element(toks, j) {
                        Ok(v) => v,
                        Err(e) => return Err(e),
                    };
                }
            },
        }
    }
    Err(LoadError::Schema)
}

/// The minimap document a whole event stream encodes.
pub open spec fn spec_minimap_doc(toks: Seq<EventModel>) -> Result<MinimapModel, LoadError> {
    match spec_find_root(toks, 0) {
        Some(i) => match spec_minimap_at(toks, i) {
            Ok((m, _)) => Ok(m),
            Err(e) => Err(e),
        },
        None => Err(LoadError::Schema),
    }
}

/// Parses a minimap from an XML event stream, exactly as `spec_minimap_doc`.
pub fn parse_minimap_events(toks: &Vec<XmlEvent>) -> (r: Result<Minimap, LoadError>)
    ensures
        r matches Ok(m) ==> spec_minimap_doc(toks.deep_view()) == Ok::<MinimapModel, LoadError>(m@),
        r matches Err(e) ==> spec_minimap_doc(toks.deep_view()) == Err::<MinimapModel, LoadError>(
            e,
        ),
{
    let i = match find_root(toks) {
        Ok(v) => v,
        Err(e) => return Err(e),
    };
    match minimap_at(toks, i) {
        Ok(p) => Ok(p.0),
        Err(e) => Err(e),
    }
}

/// The minimap a compressed byte stream encodes: inflate, tokenize, parse.
pub open spec fn spec_load_minimap(data: Seq<u8>) -> Result<MinimapModel, LoadError> {
    match zlib_decoded(data) {
        Some(plain) => match xml_events_of(plain) {
            Some(toks) => spec_minimap_doc(toks),
            None => Err(LoadError::Schema),
        },
        None => Err(LoadError::Decompress),
    }
}

impl Minimap {
    /// Loads the minimap from the raw bytes of `Minimap.dat`, exactly as
    /// `spec_load_minimap`: the whole document, or the first error met.
    pub fn from_bytes(data: &Vec<u8>) -> (r: Result<Minimap, LoadError>)
        ensures
            r matches Ok(m) ==> spec_load_minimap(data@) == Ok::<MinimapModel, LoadError>(m@),
            r matches Err(e) ==> spec_load_minimap(data@) == Err::<MinimapModel, LoadError>(e),
    {
        let plain = match zlib_decompress(data) {
            Some(v) => v,
            None => {
                return Err(LoadError::Decompress);
            },
        };
        let toks = match read_xml_events(&plain) {
            Some(v) => v,
            None => {
                return Err(LoadError::Schema);
            },
        };
        parse_minimap_events(&toks)
    }
}

} // verus!
