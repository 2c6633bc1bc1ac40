//! A small, verified view of an XML document. The zlib decoder and the XML
//! tokenizer are trusted wrappers over outside crates; everything that reads
//! the resulting event stream is verified.
use vstd::prelude::*;

use crate::error::LoadError;
use crate::parse_bool;
use crate::parse_position;
use crate::position_val_i32;
use crate::text::i32_str_val;
use crate::text::parse_i32_str;
use crate::text::parse_u32_str;
use crate::text::parse_u8_str;
use crate::text::str_eq;
use crate::text::u32_str_val;
use crate::text::u8_str_val;
use crate::Position;

verus! {

/// One attribute of an element: its name and its unescaped value.
pub struct XmlAttr {
    pub name: String,
    pub value: String,
}

/// The ghost shape of an attribute.
pub struct AttrModel {
    pub name: Seq<char>,
    pub value: Seq<char>,
}

impl View for XmlAttr {
    type V = AttrModel;

    open spec fn view(&self) -> AttrModel {
        AttrModel { name: self.name@, value: self.value@ }
    }
}

impl DeepView for XmlAttr {
    type V = AttrModel;

    open spec fn deep_view(&self) -> AttrModel {
        self@
    }
}

/// One event of an XML document, in document order.
pub enum XmlEvent {
    /// A start tag with its attributes.
    Open(String, Vec<XmlAttr>),
    /// A self-closing tag with its attributes.
    SelfClosed(String, Vec<XmlAttr>),
    /// An end tag.
    Close(String),
    /// Anything the schemas ignore: text, CDATA, comments, declarations,
    /// processing instructions, doctypes and general references.
    Misc,
}

/// The ghost shape of an event.
pub enum EventModel {
    Open { name: Seq<char>, attrs: Seq<AttrModel> },
    SelfClosed { name: Seq<char>, attrs: Seq<AttrModel> },
    Close { name: Seq<char> },
    Misc,
}

impl View for XmlEvent {
    type V = EventModel;

    open spec fn view(&self) -> EventModel {
        match self {
            XmlEvent::Open(name, attrs) => EventModel::Open {
                name: name@,
                attrs: attrs.deep_view(),
            },
            XmlEvent::SelfClosed(name, attrs) => EventModel::SelfClosed {
                name: name@,
                attrs: attrs.deep_view(),
            },
            XmlEvent::Close(name) => EventModel::Close { name: name@ },
            XmlEvent::Misc => EventModel::Misc,
        }
    }
}

impl DeepView for XmlEvent {
    type V = EventModel;

    open spec fn deep_view(&self) -> EventModel {
        self@
    }
}

/// What inflating a zlib stream yields: the decompressed bytes, or `None`
/// when the stream is not valid zlib data. Inflation is a function of the
/// input bytes alone.
pub uninterp spec fn zlib_decoded(data: Seq<u8>) -> Option<Seq<u8>>;

/// Relies on flate2's `read::ZlibDecoder` (with `std::io::Read::read_to_end`)
/// to inflate a zlib stream held in memory.
#[verifier::external_body]
pub(crate) fn zlib_decompress(data: &Vec<u8>) -> (r: Option<Vec<u8>>)
    ensures
        r matches Some(v) ==> zlib_decoded(data@) == Some(v@),
        r is None ==> zlib_decoded(data@) is None,
{
    let mut dec = flate2::read::ZlibDecoder::new(data.as_slice());
    let mut out: Vec<u8> = Vec::new();
    match std::io::Read::read_to_end(&mut dec, &mut out) {
        Ok(_) => Some(out),
        Err(_) => None,
    }
}

/// What tokenizing a document yields: the event stream, or `None` when the
/// bytes are not UTF-8 or not well-formed XML. Tokenization is a function of
/// the input bytes alone.
pub uninterp spec fn xml_events_of(text: Seq<u8>) -> Option<Seq<EventModel>>;

#[verifier::external_type_specification]
#[verifier::external_body]
pub struct ExBytesStart<'a>(quick_xml::events::BytesStart<'a>);

#[verifier::external_type_specification]
#[verifier::external_body]
pub struct ExBytesEnd<'a>(quick_xml::events::BytesEnd<'a>);

/// Relies on quick-xml's `Reader` (`from_str`, `read_event`) to tokenize the
/// document into a flat event stream.
#[verifier::external_body]
pub(crate) fn read_xml_events(text: &Vec<u8>) -> (r: Option<Vec<XmlEvent>>)
    ensures
        r matches Some(v) ==> xml_events_of(text@) == Some(v.deep_view()),
        r is None ==> xml_events_of(text@) is None,
{
    let s = String::from_utf8(text.clone()).ok()?;
    let mut rd = quick_xml::reader::Reader::from_str(&s);
    let mut out: Vec<XmlEvent> = Vec::new();
    loop {
        match rd.read_event() {
            Ok(quick_xml::events::Event::Start(e)) => out.push(start_event(&e, false)?),
            Ok(quick_xml::events::Event::Empty(e)) => out.push(start_event(&e, true)?),
            Ok(quick_xml::events::Event::End(e)) => out.push(end_event(&e)),
            Ok(quick_xml::events::Event::Eof) => return Some(out),
            Ok(_) => out.push(XmlEvent::Misc),
            Err(_) => return None,
        }
    }
}

/// Relies on quick-xml's `BytesStart::name`, `BytesStart::attributes` and
/// `Attribute::normalized_value` to read a start tag's name and attributes.
#[verifier::external_body]
fn start_event<'a>(e: &quick_xml::events::BytesStart<'a>, self_closed: bool) -> (r: Option<
    XmlEvent,
>) {
    let name = e.name().into_inner().to_string();
    let mut attrs: Vec<XmlAttr> = Vec::new();
    for a in e.attributes() {
        let at = a.ok()?;
        let key = at.key.into_inner().to_string();
        let value = at.normalized_value(quick_xml::XmlVersion::Implicit1_0).ok()?.into_owned();
        attrs.push(XmlAttr { name: key, value });
    }
    if self_closed {
        Some(XmlEvent::SelfClosed(name, attrs))
    } else {
        Some(XmlEvent::Open(name, attrs))
    }
}

/// Relies on quick-xml's `BytesEnd::name` to read an end tag's name.
#[verifier::external_body]
fn end_event<'a>(e: &quick_xml::events::BytesEnd<'a>) -> (r: XmlEvent) {
    XmlEvent::Close(e.name().into_inner().to_string())
}

/// First-match attribute lookup over a ghost attribute list.
pub open spec fn attr_lookup(attrs: Seq<AttrModel>, key: Seq<char>) -> Option<Seq<char>>
    decreases attrs.len(),
{
    if attrs.len() == 0 {
        None
    } else if attrs[0].name == key {
        Some(attrs[0].value)
    } else {
        attr_lookup(attrs.drop_first(), key)
    }
}

/// Finds the first attribute named `key`, exactly as `attr_lookup` states.
pub fn find_attr<'a>(attrs: &'a Vec<XmlAttr>, key: &str) -> (r: Option<&'a String>)
    ensures
        r matches Some(v) ==> attr_lookup(attrs.deep_view(), key@) == Some(v@),
        r is None ==> attr_lookup(attrs.deep_view(), key@) is None,
{
    let ghost whole = attrs.deep_view();
    proof {
        assert(whole.skip(0) =~= whole);
    }
    let n = attrs.len();
    let mut i: usize = 0;
    while i < n
        invariant
            n == attrs@.len(),
            i <= n,
            whole == attrs.deep_view(),
            attr_lookup(whole, key@) == attr_lookup(whole.skip(i as int), key@),
        decreases n - i,
    {
        proof {
            assert(whole.skip(i as int)[0] == whole[i as int]);
            assert(whole[i as int] == attrs@[i as int]@);
        }
        if str_eq(attrs[i].name.as_str(), key) {
            return Some(&attrs[i].value);
        }
        proof {
            assert(whole.skip(i as int).drop_first() =~= whole.skip(i as int + 1));
        }
        i += 1;
    }
    proof {
        assert(whole.skip(n as int).len() == 0);
    }
    None
}

/// The attribute list of the element that starts at `i`, if one does.
pub open spec fn elem_attrs(toks: Seq<EventModel>, i: int) -> Option<Seq<AttrModel>> {
    if 0 <= i < toks.len() {
        match toks[i] {
            EventModel::Open { attrs, .. } => Some(attrs),
            EventModel::SelfClosed { attrs, .. } => Some(attrs),
            _ => None,
        }
    } else {
        None
    }
}

/// The name of the element that starts at `i`, if one does.
pub open spec fn elem_name(toks: Seq<EventModel>, i: int) -> Option<Seq<char>> {
    if 0 <= i < toks.len() {
        match toks[i] {
            EventModel::Open { name, .. } => Some(name),
            EventModel::SelfClosed { name, .. } => Some(name),
            _ => None,
        }
    } else {
        None
    }
}

/// The index of the root element: everything before it must be ignorable.
pub open spec fn spec_find_root(toks: Seq<EventModel>, j: int) -> Option<int>
    decreases toks.len() - j,
{
    if j < 0 || j >= toks.len() {
        None
    } else {
        match toks[j] {
            EventModel::Misc => spec_find_root(toks, j + 1),
            EventModel::Close { .. } => None,
            _ => Some(j),
        }
    }
}

/// Finds the root element, exactly as `spec_find_root`.
pub fn find_root(toks: &Vec<XmlEvent>) -> (r: Result<usize, LoadError>)
    ensures
        r matches Ok(j) ==> spec_find_root(toks.deep_view(), 0) == Some(j as int) && j
            < toks@.len(),
        r matches Err(e) ==> spec_find_root(toks.deep_view(), 0) is None && e == LoadError::Schema,
{
    let ghost dv = toks.deep_view();
    let n = toks.len();
    let mut j: usize = 0;
    while j < n
        invariant
            n == toks@.len(),
            dv == toks.deep_view(),
            j <= n,
            spec_find_root(dv, 0) == spec_find_root(dv, j as int),
        decreases n - j,
    {
        proof {
            assert(dv[j as int] == toks@[j as int]@);
        }
        match &toks[j] {
            XmlEvent::Misc => {
                j += 1;
            },
            XmlEvent::Close(_) => {
                return Err(LoadError::Schema);
            },
            _ => {
                return Ok(j);
            },
        }
    }
    Err(LoadError::Schema)
}

/// A required `i32` attribute: present and well-formed, or a schema error.
pub open spec fn spec_attr_i32(attrs: Seq<AttrModel>, key: Seq<char>) -> Result<i32, LoadError> {
    match attr_lookup(attrs, key) {
        Some(v) => match i32_str_val(v) {
            Some(x) => Ok(x as i32),
            None => Err(LoadError::Schema),
        },
        None => Err(LoadError::Schema),
    }
}

/// Reads a required `i32` attribute, exactly as `spec_attr_i32`.
pub fn attr_i32(attrs: &Vec<XmlAttr>, key: &str) -> (r: Result<i32, LoadError>)
    ensures
        r == spec_attr_i32(attrs.deep_view(), key@),
{
    match find_attr(attrs, key) {
        Some(v) => match parse_i32_str(v.as_str()) {
            Some(x) => Ok(x),
            None => Err(LoadError::Schema),
        },
        None => Err(LoadError::Schema),
    }
}

/// A required `u32` attribute: present and well-formed, or a schema error.
pub open spec fn spec_attr_u32(attrs: Seq<AttrModel>, key: Seq<char>) -> Result<u32, LoadError> {
    match attr_lookup(attrs, key) {
        Some(v) => match u32_str_val(v) {
            Some(x) => Ok(x as u32),
            None => Err(LoadError::Schema),
        },
        None => Err(LoadError::Schema),
    }
}

/// Reads a required `u32` attribute, exactly as `spec_attr_u32`.
pub fn attr_u32(attrs: &Vec<XmlAttr>, key: &str) -> (r: Result<u32, LoadError>)
    ensures
        r == spec_attr_u32(attrs.deep_view(), key@),
{
    match find_attr(attrs, key) {
        Some(v) => match parse_u32_str(v.as_str()) {
            Some(x) => Ok(x),
            None => Err(LoadError::Schema),
        },
        None => Err(LoadError::Schema),
    }
}

/// A required `u8` attribute: present and well-formed, or a schema error.
pub open spec fn spec_attr_u8(attrs: Seq<AttrModel>, key: Seq<char>) -> Result<u8, LoadError> {
    match attr_lookup(attrs, key) {
        Some(v) => match u8_str_val(v) {
            Some(x) => Ok(x as u8),
            None => Err(LoadError::Schema),
        },
        None => Err(LoadError::Schema),
    }
}

/// Reads a required `u8` attribute, exactly as `spec_attr_u8`.
pub fn attr_u8(attrs: &Vec<XmlAttr>, key: &str) -> (r: Result<u8, LoadError>)
    ensures
        r == spec_attr_u8(attrs.deep_view(), key@),
{
    match find_attr(attrs, key) {
        Some(v) => match parse_u8_str(v.as_str()) {
            Some(x) => Ok(x),
            None => Err(LoadError::Schema),
        },
        None => Err(LoadError::Schema),
    }
}

/// A required string attribute: its value, or a schema error when absent.
pub open spec fn spec_attr_string(attrs: Seq<AttrModel>, key: Seq<char>) -> Result<
    Seq<char>,
    LoadError,
> {
    match attr_lookup(attrs, key) {
        Some(v) => Ok(v),
        None => Err(LoadError::Schema),
    }
}

/// Reads a required string attribute, exactly as `spec_attr_string`.
pub fn attr_string(attrs: &Vec<XmlAttr>, key: &str) -> (r: Result<String, LoadError>)
    ensures
        r matches Ok(s) ==> spec_attr_string(attrs.deep_view(), key@) == Ok::<
            Seq<char>,
            LoadError,
        >(s@),
        r matches Err(e) ==> spec_attr_string(attrs.deep_view(), key@) == Err::<
            Seq<char>,
            LoadError,
        >(e),
{
    match find_attr(attrs, key) {
        Some(v) => Ok(v.clone()),
        None => Err(LoadError::Schema),
    }
}

/// An optional boolean-codec attribute: absent means `false`; present it
/// must read exactly `True` or `False`.
pub open spec fn spec_attr_flag(attrs: Seq<AttrModel>, key: Seq<char>) -> Result<bool, LoadError> {
    match attr_lookup(attrs, key) {
        Some(v) => if v == "True"@ {
            Ok(true)
        } else if v == "False"@ {
            Ok(false)
        } else {
            Err(LoadError::Schema)
        },
        None => Ok(false),
    }
}

/// Reads an optional flip flag, exactly as `spec_attr_flag`.
pub fn attr_flag(attrs: &Vec<XmlAttr>, key: &str) -> (r: Result<bool, LoadError>)
    ensures
        r == spec_attr_flag(attrs.deep_view(), key@),
{
    match find_attr(attrs, key) {
        Some(v) => parse_bool(v.as_str()),
        None => Ok(false),
    }
}

/// A required boolean-codec attribute: present and exactly `True` or
/// `False`, or a schema error.
pub open spec fn spec_attr_bool(attrs: Seq<AttrModel>, key: Seq<char>) -> Result<bool, LoadError> {
    match attr_lookup(attrs, key) {
        Some(v) => if v == "True"@ {
            Ok(true)
        } else if v == "False"@ {
            Ok(false)
        } else {
            Err(LoadError::Schema)
        },
        None => Err(LoadError::Schema),
    }
}

/// Reads a required boolean attribute, exactly as `spec_attr_bool`.
pub fn attr_bool(attrs: &Vec<XmlAttr>, key: &str) -> (r: Result<bool, LoadError>)
    ensures
        r == spec_attr_bool(attrs.deep_view(), key@),
{
    match find_attr(attrs, key) {
        Some(v) => parse_bool(v.as_str()),
        None => Err(LoadError::Schema),
    }
}

/// An optional `i32` attribute: absent means `None`; present it must be a
/// well-formed integer.
pub open spec fn spec_attr_opt_i32(attrs: Seq<AttrModel>, key: Seq<char>) -> Result<
    Option<i32>,
    LoadError,
> {
    match attr_lookup(attrs, key) {
        Some(v) => match i32_str_val(v) {
            Some(x) => Ok(Some(x as i32)),
            None => Err(LoadError::Schema),
        },
        None => Ok(None),
    }
}

/// Reads an optional `i32` attribute, exactly as `spec_attr_opt_i32`.
pub fn attr_opt_i32(attrs: &Vec<XmlAttr>, key: &str) -> (r: Result<Option<i32>, LoadError>)
    ensures
        r == spec_attr_opt_i32(attrs.deep_view(), key@),
{
    match find_attr(attrs, key) {
        Some(v) => match parse_i32_str(v.as_str()) {
            Some(x) => Ok(Some(x)),
            None => Err(LoadError::Schema),
        },
        None => Ok(None),
    }
}

/// A required position-codec attribute: a well-formed `{X:<n> Y:<n>}` token,
/// or a schema error.
pub open spec fn spec_attr_position(attrs: Seq<AttrModel>, key: Seq<char>) -> Result<
    Position,
    LoadError,
> {
    match attr_lookup(attrs, key) {
        Some(v) => match position_val_i32(v) {
            Some(p) => Ok(Position { x: p.0 as i32, y: p.1 as i32 }),
            None => Err(LoadError::Schema),
        },
        None => Err(LoadError::Schema),
    }
}

/// Reads a required position attribute, exactly as `spec_attr_position`.
pub fn attr_position(attrs: &Vec<XmlAttr>, key: &str) -> (r: Result<Position, LoadError>)
    ensures
        r == spec_attr_position(attrs.deep_view(), key@),
{
    match find_attr(attrs, key) {
        Some(v) => parse_position(v.as_str()),
        None => Err(LoadError::Schema),
    }
}

/// Where skipping inside an element ends, when `j` is the next index to read
/// and `depth` elements are still open.
pub open spec fn spec_skip_rest(toks: Seq<EventModel>, j: int, depth: int) -> Option<int>
    decreases toks.len() - j,
{
    if j < 0 || j >= toks.len() {
        None
    } else {
        match toks[j] {
            EventModel::Close { .. } => if depth <= 1 {
                Some(j + 1)
            } else {
                spec_skip_rest(toks, j + 1, depth - 1)
            },
            EventModel::Open { .. } => spec_skip_rest(toks, j + 1, depth + 1),
            _ => spec_skip_rest(toks, j + 1, depth),
        }
    }
}

/// The index just past the element that starts at `i`, or `None` when no
/// element starts there or it never closes.
pub open spec fn spec_skip_element(toks: Seq<EventModel>, i: int) -> Option<int> {
    if 0 <= i < toks.len() {
        match toks[i] {
            EventModel::Open { .. } => spec_skip_rest(toks, i + 1, 1),
            EventModel::SelfClosed { .. } => Some(i + 1),
            _ => None,
        }
    } else {
        None
    }
}

/// Skips the element that starts at `i`, exactly as `spec_skip_element`.
pub fn skip_element(toks: &Vec<XmlEvent>, i: usize) -> (r: Result<usize, LoadError>)
    ensures
        r matches Ok(j) ==> spec_skip_element(toks.deep_view(), i as int) == Some(j as int) && i
            < j <= toks@.len(),
        r matches Err(e) ==> spec_skip_element(toks.deep_view(), i as int) is None && e
            == LoadError::Schema,
{
    let ghost dv = toks.deep_view();
    let n = toks.len();
    if i >= n {
        return Err(LoadError::Schema);
    }
    proof {
        assert(dv[i as int] == toks@[i as int]@);
    }
    match &toks[i] {
        XmlEvent::SelfClosed(..) => {
            return Ok(i + 1);
        },
        XmlEvent::Open(..) => {
        },
        _ => {
            return Err(LoadError::Schema);
        },
    }
    let mut j: usize = i + 1;
    let mut depth: usize = 1;
    while j < n
        invariant
            n == toks@.len(),
            dv == toks.deep_view(),
            i < j <= n,
            1 <= depth <= j - i,
            dv[i as int] is Open,
            spec_skip_rest(dv, i + 1, 1) == spec_skip_rest(dv, j as int, depth as int),
        decreases n - j,
    {
        proof {
            assert(dv[j as int] == toks@[j as int]@);
        }
        match &toks[j] {
            XmlEvent::Close(_) => {
                if depth == 1 {
                    return Ok(j + 1);
                }
                depth -= 1;
            },
            XmlEvent::Open(..) => {
                depth += 1;
            },
            _ => {
            },
        }
        j += 1;
    }
    Err(LoadError::Schema)
}

} // verus!
