//! Script metadata: the JSON-with-comments block between the first `/**`
//! and the first `**/` after it.

use vstd::prelude::*;
use vstd::string::{StringExecFns, StrSliceExecFns};
use crate::text::chars_of;

verus! {

/// `p` occurs in `s` starting at index `i`.
pub open spec fn occurs_at(s: Seq<char>, p: Seq<char>, i: int) -> bool {
    0 <= i && i + p.len() <= s.len() && s.subrange(i, i + p.len()) == p
}

/// The first index at or after `from` where `p` occurs in `s`.
pub open spec fn first_from(s: Seq<char>, p: Seq<char>, from: int) -> Option<int>
    decreases s.len() - from,
{
    if from < 0 || from >= s.len() || from + p.len() > s.len() {
        None
    } else if occurs_at(s, p, from) {
        Some(from)
    } else {
        first_from(s, p, from + 1)
    }
}

proof fn lemma_first_from(s: Seq<char>, p: Seq<char>, from: int)
    ensures
        first_from(s, p, from) matches Some(i) ==> from <= i && occurs_at(s, p, i),
    decreases s.len() - from,
{
    if !(from < 0 || from >= s.len() || from + p.len() > s.len()) && !occurs_at(s, p, from) {
        lemma_first_from(s, p, from + 1);
    }
}

pub open spec fn opener() -> Seq<char> {
    seq!['/', '*', '*']
}

pub open spec fn closer() -> Seq<char> {
    seq!['*', '*', '/']
}

/// The text between the first `/**` and the first `**/` that follows it.
pub open spec fn metadata_block(s: Seq<char>) -> Option<Seq<char>> {
    match first_from(s, opener(), 0) {
        None => None,
        Some(a) => match first_from(s, closer(), a + 3) {
            None => None,
            Some(b) => Some(s.subrange(a + 3, b)),
        },
    }
}

fn find_from(s: &Vec<char>, a: char, b: char, c: char, from: usize) -> (r: Option<usize>)
    requires
        from <= s.len(),
    ensures
        r == (match first_from(s@, seq![a, b, c], from as int) {
            Some(i) => Some(i as usize),
            None => None::<usize>,
        }),
        r matches Some(i) ==> from <= i && i + 3 <= s.len(),
{
    proof {
        lemma_first_from(s@, seq![a, b, c], from as int);
    }
    let ghost p = seq![a, b, c];
    assert(p.len() == 3 && p[0] == a && p[1] == b && p[2] == c);
    let mut i: usize = from;
    while s.len() - i >= 3
        invariant
            from <= i <= s.len(),
            first_from(s@, p, from as int) == first_from(s@, p, i as int),
            p == seq![a, b, c],
            p.len() == 3 && p[0] == a && p[1] == b && p[2] == c,
        decreases s.len() - i,
    {
        if s[i] == a && s[i + 1] == b && s[i + 2] == c {
            let ghost w = s@.subrange(i as int, i + 3);
            assert(w.len() == 3);
            assert(w[0] == a && w[1] == b && w[2] == c);
            assert(w =~= p);
            return Some(i);
        }
        assert(!occurs_at(s@, p, i as int)) by {
            if s@.subrange(i as int, i + 3) == p {
                assert(s@.subrange(i as int, i + 3)[0] == a);
                assert(s@.subrange(i as int, i + 3)[1] == b);
                assert(s@.subrange(i as int, i + 3)[2] == c);
            }
        }
        i = i + 1;
    }
    assert(first_from(s@, p, i as int) is None);
    None
}

/// The metadata block of a script source, if it has one.
pub fn metadata_block_of(source: &str) -> (r: Option<String>)
    ensures
        match metadata_block(source@) {
            Some(b) => r matches Some(t) && t@ == b,
            None => r is None,
        },
{
    let cs = chars_of(source);
    proof {
        lemma_first_from(source@, opener(), 0);
    }
    assert(cs@ == source@);
    match find_from(&cs, '/', '*', '*', 0) {
        None => None,
        Some(a) => {
            assert(first_from(source@, opener(), 0) == Some(a as int));
            let r = find_from(&cs, '*', '*', '/', a + 3);
            proof {
                lemma_first_from(source@, closer(), a + 3);
            }
            match r {
                None => None,
                Some(b) => {
                    assert(first_from(source@, closer(), a + 3) == Some(b as int));
                    Some(String::from_str(source.substring_char(a + 3, b)))
                },
            }
        },
    }
}

#[verifier::external_type_specification]
#[verifier::external_body]
pub struct ExJsonError(serde_jsonrc::Error);

#[verifier::external_type_specification]
#[verifier::external_body]
pub struct ExIoError(std::io::Error);

/// Whether serde_jsonrc reads `text` as one JSON-with-comments document.
pub uninterp spec fn json_accepts(text: Seq<char>) -> bool;

/// What `str::to_lowercase` makes of `s`.
pub uninterp spec fn lower_of(s: Seq<char>) -> Seq<char>;

/// What serde_jsonrc finds under `key` in the document `text`.
pub uninterp spec fn json_member_of(text: Seq<char>, key: Seq<char>) -> JsonField;

/// Relies on `serde_jsonrc::from_str`, read into a `serde_jsonrc::Value`:
/// whether the text is accepted depends on the text alone.
#[verifier::external_body]
fn parse_json(text: &str) -> (r: Result<(), serde_jsonrc::Error>)
    ensures
        r is Ok <==> json_accepts(text@),
{
    serde_jsonrc::from_str::<serde_jsonrc::Value>(text).map(|_| ())
}

/// Relies on `str::to_lowercase`: the result depends on the characters alone.
#[verifier::external_body]
fn lowercase(s: &str) -> (r: String)
    ensures
        r@ == lower_of(s@),
{
    s.to_lowercase()
}

/// A member of a JSON object, as far as metadata needs to tell.
#[derive(Clone, Debug, PartialEq)]
pub enum JsonField {
    Missing,
    Null,
    Text(String),
    Unsigned(u64),
    Other,
}

/// Relies on `serde_jsonrc::from_str` into a `serde_jsonrc::Value` and on
/// `Value::get` (with `Number::as_u64` for numbers): the member named `key`
/// when the document is an object that has one. It depends on the text and
/// the key alone.
#[verifier::external_body]
fn json_member_in(text: &str, key: &str) -> (r: JsonField)
    ensures
        json_accepts(text@) ==> r == json_member_of(text@, key@),
{
    match serde_jsonrc::from_str::<serde_jsonrc::Value>(text).ok().as_ref().and_then(|v| v.get(key)) {
        None => JsonField::Missing,
        Some(serde_jsonrc::Value::Null) => JsonField::Null,
        Some(serde_jsonrc::Value::String(t)) => JsonField::Text(t.clone()),
        Some(serde_jsonrc::Value::Number(n)) => n.as_u64().map_or(JsonField::Other, JsonField::Unsigned),
        Some(_) => JsonField::Other,
    }
}

/// The fields of a metadata block, in the order they are checked.
#[derive(Clone, Copy, Debug, PartialEq, Eq)]
pub enum MetadataField {
    Api,
    Name,
    Description,
    Author,
    Icon,
    Tags,
}

/// Why a metadata block was refused.
#[derive(Debug)]
pub enum MetadataFault {
    /// The block is not a JSON-with-comments document.
    Json(serde_jsonrc::Error),
    /// A required field is absent.
    Missing(MetadataField),
    /// A field holds a value of the wrong kind.
    WrongType(MetadataField),
}

#[derive(Debug)]
pub enum ParseScriptError {
    NoMetadata,
    InvalidMetadata(MetadataFault),
    FailedToRead(std::io::Error),
}

#[derive(Clone, Debug, PartialEq)]
pub struct Metadata {
    pub api: u32,
    pub name: String,
    pub description: String,
    pub author: Option<String>,
    pub icon: String,
    pub tags: Option<String>,
}

/// The fault of one required numeric field, if any.
pub open spec fn number_fault(f: JsonField, which: MetadataField) -> Option<MetadataFault> {
    match f {
        JsonField::Unsigned(u) => if u <= u32::MAX {
            None
        } else {
            Some(MetadataFault::WrongType(which))
        },
        JsonField::Missing => Some(MetadataFault::Missing(which)),
        _ => Some(MetadataFault::WrongType(which)),
    }
}

/// The fault of one required text field, if any.
pub open spec fn text_fault(f: JsonField, which: MetadataField) -> Option<MetadataFault> {
    match f {
        JsonField::Text(_) => None,
        JsonField::Missing => Some(MetadataFault::Missing(which)),
        _ => Some(MetadataFault::WrongType(which)),
    }
}

/// The fault of one optional text field, if any: absent and null both
/// stand for no value.
pub open spec fn optional_fault(f: JsonField, which: MetadataField) -> Option<MetadataFault> {
    match f {
        JsonField::Text(_) | JsonField::Missing | JsonField::Null => None,
        _ => Some(MetadataFault::WrongType(which)),
    }
}

/// The value of an optional text field that has no fault.
pub open spec fn optional_value(f: JsonField) -> Option<String> {
    match f {
        JsonField::Text(t) => Some(t),
        _ => None,
    }
}

/// The first fault among the members, checked in field order.
pub open spec fn first_fault(
    api: JsonField,
    name: JsonField,
    description: JsonField,
    author: JsonField,
    icon: JsonField,
    tags: JsonField,
) -> Option<MetadataFault> {
    if number_fault(api, MetadataField::Api) is Some {
        number_fault(api, MetadataField::Api)
    } else if text_fault(name, MetadataField::Name) is Some {
        text_fault(name, MetadataField::Name)
    } else if text_fault(description, MetadataField::Description) is Some {
        text_fault(description, MetadataField::Description)
    } else if optional_fault(author, MetadataField::Author) is Some {
        optional_fault(author, MetadataField::Author)
    } else if text_fault(icon, MetadataField::Icon) is Some {
        text_fault(icon, MetadataField::Icon)
    } else {
        optional_fault(tags, MetadataField::Tags)
    }
}

/// `m` holds exactly the members' values.
pub open spec fn holds_members(
    m: Metadata,
    api: JsonField,
    name: JsonField,
    description: JsonField,
    author: JsonField,
    icon: JsonField,
    tags: JsonField,
) -> bool {
    &&& api matches JsonField::Unsigned(u) && m.api as u64 == u
    &&& name == JsonField::Text(m.name)
    &&& description == JsonField::Text(m.description)
    &&& m.author == optional_value(author)
    &&& icon == JsonField::Text(m.icon)
    &&& m.tags == optional_value(tags)
}

fn number_field(f: JsonField, which: MetadataField) -> (r: Result<u32, MetadataFault>)
    ensures
        match number_fault(f, which) {
            Some(e) => r == Err::<u32, MetadataFault>(e),
            None => r matches Ok(v) && f == JsonField::Unsigned(v as u64),
        },
{
    match f {
        JsonField::Unsigned(u) => if u <= 4294967295 {
            Ok(u as u32)
        } else {
            Err(MetadataFault::WrongType(which))
        },
        JsonField::Missing => Err(MetadataFault::Missing(which)),
        _ => Err(MetadataFault::WrongType(which)),
    }
}

fn text_field(f: JsonField, which: MetadataField) -> (r: Result<String, MetadataFault>)
    ensures
        match text_fault(f, which) {
            Some(e) => r == Err::<String, MetadataFault>(e),
            None => r matches Ok(t) && f == JsonField::Text(t),
        },
{
    match f {
        JsonField::Text(t) => Ok(t),
        JsonField::Missing => Err(MetadataFault::Missing(which)),
        _ => Err(MetadataFault::WrongType(which)),
    }
}

fn optional_field(f: JsonField, which: MetadataField) -> (r: Result<Option<String>, MetadataFault>)
    ensures
        match optional_fault(f, which) {
            Some(e) => r == Err::<Option<String>, MetadataFault>(e),
            None => r == Ok::<Option<String>, MetadataFault>(optional_value(f)),
        },
{
    match f {
        JsonField::Text(t) => Ok(Some(t)),
        JsonField::Missing | JsonField::Null => Ok(None),
        _ => Err(MetadataFault::WrongType(which)),
    }
}

impl Metadata {
    /// Metadata from the members of a decoded block, the icon as written.
    /// Fails with the first fault in field order.
    pub fn from_members(
        api: JsonField,
        name: JsonField,
        description: JsonField,
        author: JsonField,
        icon: JsonField,
        tags: JsonField,
    ) -> (r: Result<Metadata, MetadataFault>)
        ensures
            match first_fault(api, name, description, author, icon, tags) {
                Some(e) => r == Err::<Metadata, MetadataFault>(e),
                None => r matches Ok(m) && holds_members(m, api, name, description, author, icon, tags),
            },
    {
        let api = match number_field(api, MetadataField::Api) {
            Ok(v) => v,
            Err(e) => return Err(e),
        };
        let name = match text_field(name, MetadataField::Name) {
            Ok(v) => v,
            Err(e) => return Err(e),
        };
        let description = match text_field(description, MetadataField::Description) {
            Ok(v) => v,
            Err(e) => return Err(e),
        };
        let author = match optional_field(author, MetadataField::Author) {
            Ok(v) => v,
            Err(e) => return Err(e),
        };
        let icon = match text_field(icon, MetadataField::Icon) {
            Ok(v) => v,
            Err(e) => return Err(e),
        };
        let tags = match optional_field(tags, MetadataField::Tags) {
            Ok(v) => v,
            Err(e) => return Err(e),
        };
        Ok(Metadata { api, name, description, author, icon, tags })
    }

    /// The same metadata with its icon lower-cased.
    pub fn with_lowercase_icon(self) -> (r: Metadata)
        ensures
            r.icon@ == lower_of(self.icon@),
            r == (Metadata { icon: r.icon, ..self }),
    {
        let icon = lowercase(self.icon.as_str());
        Metadata { icon, ..self }
    }
}

/// The first fault among the members of the block `b`.
pub open spec fn block_fault(b: Seq<char>) -> Option<MetadataFault> {
    first_fault(
        json_member_of(b, "api"@),
        json_member_of(b, "name"@),
        json_member_of(b, "description"@),
        json_member_of(b, "author"@),
        json_member_of(b, "icon"@),
        json_member_of(b, "tags"@),
    )
}

/// `m` holds the members of the block `b`, with the icon lower-cased.
pub open spec fn holds_block(b: Seq<char>, m: Metadata) -> bool {
    json_member_of(b, "icon"@) matches JsonField::Text(i) && m.icon@ == lower_of(i@)
        && holds_members(
        Metadata { icon: i, ..m },
        json_member_of(b, "api"@),
        json_member_of(b, "name"@),
        json_member_of(b, "description"@),
        json_member_of(b, "author"@),
        json_member_of(b, "icon"@),
        json_member_of(b, "tags"@),
    )
}

/// The outcome of reading the metadata of `source`: no block; a block that
/// is not JSON with comments; the first faulty member; or metadata holding
/// the block's members, the icon lower-cased.
pub open spec fn parsed_as(source: Seq<char>, r: Result<Metadata, ParseScriptError>) -> bool {
    match metadata_block(source) {
        None => r matches Err(ParseScriptError::NoMetadata),
        Some(b) => if !json_accepts(b) {
            r matches Err(ParseScriptError::InvalidMetadata(MetadataFault::Json(_)))
        } else {
            match block_fault(b) {
                Some(e) => r matches Err(ParseScriptError::InvalidMetadata(f)) && f == e,
                None => r matches Ok(m) && holds_block(b, m),
            }
        },
    }
}

/// Reads the metadata of a script source: the block between the first `/**`
/// and the first `**/` after it, read as JSON with comments, with the icon
/// lower-cased.
pub fn parse_metadata(source: &str) -> (r: Result<Metadata, ParseScriptError>)
    ensures
        parsed_as(source@, r),
        metadata_block(source@) is None <==> r matches Err(ParseScriptError::NoMetadata),
        metadata_block(source@) matches Some(b) && !json_accepts(b) <==> r matches Err(
            ParseScriptError::InvalidMetadata(MetadataFault::Json(_)),
        ),
        !(r matches Err(ParseScriptError::FailedToRead(_))),
{
    let block = match metadata_block_of(source) {
        Some(b) => b,
        None => return Err(ParseScriptError::NoMetadata),
    };
    let text = block.as_str();
    match parse_json(text) {
        Ok(()) => {},
        Err(e) => return Err(ParseScriptError::InvalidMetadata(MetadataFault::Json(e))),
    }
    let fields = Metadata::from_members(
        json_member_in(text, "api"),
        json_member_in(text, "name"),
        json_member_in(text, "description"),
        json_member_in(text, "author"),
        json_member_in(text, "icon"),
        json_member_in(text, "tags"),
    );
    match fields {
        Ok(m) => Ok(m.with_lowercase_icon()),
        Err(e) => Err(ParseScriptError::InvalidMetadata(e)),
    }
}

/// How an optional text field reads: its text, or absent or null for no
/// value.
pub open spec fn encodes_optional(f: JsonField, v: Option<String>) -> bool {
    match v {
        Some(t) => f == JsonField::Text(t),
        None => f == JsonField::Missing || f == JsonField::Null,
    }
}

/// Metadata read back equals what was written: when the first metadata
/// block of a source is a JSON-with-comments document whose members encode
/// an `api` number, a name, a description, an optional author, an icon and
/// optional tags, reading the source gives metadata holding exactly those
/// values, the icon lower-cased.
pub proof fn lemma_metadata_round_trip(
    source: Seq<char>,
    api: u32,
    name: String,
    description: String,
    author: Option<String>,
    icon: String,
    tags: Option<String>,
    r: Result<Metadata, ParseScriptError>,
)
    requires
        metadata_block(source) matches Some(b) && json_accepts(b)
            && json_member_of(b, "api"@) == JsonField::Unsigned(api as u64)
            && json_member_of(b, "name"@) == JsonField::Text(name)
            && json_member_of(b, "description"@) == JsonField::Text(description)
            && encodes_optional(json_member_of(b, "author"@), author)
            && json_member_of(b, "icon"@) == JsonField::Text(icon)
            && encodes_optional(json_member_of(b, "tags"@), tags),
        parsed_as(source, r),
    ensures
        r matches Ok(m) && m.api == api && m.name == name && m.description == description
            && m.author == author && m.icon@ == lower_of(icon@) && m.tags == tags,
{
}

} // verus!
