//! Resource objects of the drive service, and the descriptors that name
//! their fields in queries.
//!
//! Each field that a query may select or expand has a descriptor: a unit
//! type in [`DriveField`] or [`DriveItemField`], bound to its resource by
//! [`ResourceFieldOf`]. A field that the service never returns through
//! `$select`, such as `DriveItem::download_url`, has none, so no query can
//! name it.

use crate::text::ascii_upper;
use vstd::prelude::*;

#[allow(non_snake_case)]
pub mod DriveField;
#[allow(non_snake_case)]
pub mod DriveItemField;

verus! {

/// `serde_json::Value`, any JSON value; carried through, never looked into.
#[verifier::external_type_specification]
#[verifier::external_body]
pub struct ExJsonValue(serde_json::Value);

/// `serde_json::Map`, the members of a JSON object; carried through, never
/// looked into.
#[verifier::external_type_specification]
#[verifier::external_body]
#[verifier::reject_recursive_types(K)]
#[verifier::reject_recursive_types(V)]
pub struct ExJsonMap<K, V>(serde_json::Map<K, V>);

/// A semantic alias for URL string in resource objects.
pub type Url = String;

/// Boxed raw json value.
pub type JsonValue = Box<serde_json::Value>;

/// Timestamp string with ISO 8601 format.
pub type TimestampString = String;

/// The unique identifier to a `Drive`.
#[derive(Clone, Debug, Eq, Hash, PartialEq)]
pub struct DriveId(String);

impl View for DriveId {
    type V = Seq<char>;

    closed spec fn view(&self) -> Seq<char> {
        self.0@
    }
}

impl DriveId {
    /// Wrap a string, without checking it.
    pub fn new(id: String) -> (wrapped: Self)
        ensures
            wrapped@ == id@,
    {
        DriveId(id)
    }

    /// View as str.
    pub fn as_str(&self) -> (s: &str)
        ensures
            s@ == self@,
    {
        self.0.as_str()
    }
}

impl AsRef<str> for DriveId {
    fn as_ref(&self) -> (s: &str)
        ensures
            s@ == self@,
    {
        self.as_str()
    }
}

/// The unique identifier for a `DriveItem`.
#[derive(Clone, Debug, Eq, Hash, PartialEq)]
pub struct ItemId(String);

impl View for ItemId {
    type V = Seq<char>;

    closed spec fn view(&self) -> Seq<char> {
        self.0@
    }
}

impl ItemId {
    /// Wrap a string, without checking it.
    pub fn new(id: String) -> (wrapped: Self)
        ensures
            wrapped@ == id@,
    {
        ItemId(id)
    }

    /// View as str.
    pub fn as_str(&self) -> (s: &str)
        ensures
            s@ == self@,
    {
        self.0.as_str()
    }
}

impl AsRef<str> for ItemId {
    fn as_ref(&self) -> (s: &str)
        ensures
            s@ == self@,
    {
        self.as_str()
    }
}

/// A tag representing the state of an item.
///
/// Used to avoid data transmission when a resource is not modified. The tag
/// from `DriveItem::c_tag` is for the content of the item, while the one
/// from `DriveItem::e_tag` is for the entire item (metadata and content).
#[derive(Clone, Debug, Eq, Hash, PartialEq)]
pub struct Tag(String);

impl View for Tag {
    type V = Seq<char>;

    closed spec fn view(&self) -> Seq<char> {
        self.0@
    }
}

impl Tag {
    /// Wrap a string, without checking it.
    pub fn new(id: String) -> (wrapped: Self)
        ensures
            wrapped@ == id@,
    {
        Tag(id)
    }

    /// View as str.
    pub fn as_str(&self) -> (s: &str)
        ensures
            s@ == self@,
    {
        self.0.as_str()
    }
}

impl AsRef<str> for Tag {
    fn as_ref(&self) -> (s: &str)
        ensures
            s@ == self@,
    {
        self.as_str()
    }
}

/// The wire name of the field whose logical name is `s`: every `_` is
/// dropped, and a character that directly follows one is put in ASCII upper
/// case.
pub open spec fn snake_to_camel(s: Seq<char>) -> Seq<char>
    decreases s.len(),
{
    if s.len() == 0 {
        Seq::empty()
    } else {
        let head = snake_to_camel(s.drop_last());
        let i = s.len() - 1;
        if s[i] == '_' {
            head
        } else if i > 0 && s[i - 1] == '_' {
            head.push(ascii_upper(s[i]))
        } else {
            head.push(s[i])
        }
    }
}

/// Turns a snake_case name into camelCase.
pub fn snake_to_camel_case(s: &str) -> (buf: String)
    ensures
        buf@ == snake_to_camel(s@),
{
    let mut buf = String::new();
    let mut is_u = false;
    for c in it: s.chars()
        invariant
            it.seq() == s@,
            buf@ == snake_to_camel(s@.take(it.index() as int)),
            is_u <==> (it.index() > 0 && s@[it.index() - 1] == '_'),
    {
        assert(s@.take(it.index() + 1).drop_last() =~= s@.take(it.index() as int));
        if c == '_' {
            is_u = true;
        } else if is_u {
            is_u = false;
            buf.push(c.to_ascii_uppercase());
        } else {
            buf.push(c);
        }
    }
    assert(s@.take(s@.len() as int) =~= s@);
    buf
}

/// A wire name holds no `_`.
pub proof fn lemma_camel_has_no_underscore(s: Seq<char>)
    ensures
        !snake_to_camel(s).contains('_'),
    decreases s.len(),
{
    if s.len() > 0 {
        lemma_camel_has_no_underscore(s.drop_last());
        let head = snake_to_camel(s.drop_last());
        let out = snake_to_camel(s);
        assert forall|i: int| 0 <= i < out.len() implies out[i] != '_' by {
            if i < head.len() {
                assert(out[i] == head[i]);
                assert(head.contains(head[i]));
            }
        }
    }
}

/// A name without `_` is its own wire name.
pub proof fn lemma_camel_keeps_plain_name(s: Seq<char>)
    requires
        !s.contains('_'),
    ensures
        snake_to_camel(s) == s,
    decreases s.len(),
{
    if s.len() > 0 {
        let head = s.drop_last();
        assert forall|i: int| 0 <= i < head.len() implies head[i] != '_' by {
            assert(s.contains(s[i]));
        }
        lemma_camel_keeps_plain_name(head);
        assert(s.contains(s[s.len() - 1]));
        if s.len() > 1 {
            assert(s.contains(s[s.len() - 2]));
        }
        assert(head.push(s.last()) =~= s);
    }
}

/// A descriptor of one selectable field of the resource `T`.
pub trait ResourceFieldOf<T> {
    /// The name of the field on the wire.
    spec fn wire_name(&self) -> Seq<char>;

    /// The name to put in a query for this field.
    fn api_field_name(&self) -> (name: String)
        ensures
            name@ == self.wire_name(),
    ;
}

/// A descriptor of a field of `T` names the same field of every element of a
/// collection of `T`: a query that expands a collection selects by the
/// descriptors of its elements.
impl<T, F: ResourceFieldOf<T>> ResourceFieldOf<Vec<T>> for F {
    open spec fn wire_name(&self) -> Seq<char> {
        <F as ResourceFieldOf<T>>::wire_name(self)
    }

    fn api_field_name(&self) -> (name: String) {
        <F as ResourceFieldOf<T>>::api_field_name(self)
    }
}

/// A descriptor that also tells the type of the field it names.
pub trait ResourceFieldTypeOf<T>: ResourceFieldOf<T> {
    /// The type of the field's value.
    type Type;
}

impl<T, F: ResourceFieldTypeOf<T>> ResourceFieldTypeOf<Vec<T>> for F {
    type Type = F::Type;
}

/// The error object with description and details of the error responded
/// from the server.
///
/// The server may add members at any time; those that are not modelled
/// here are kept in `extra_data`.
#[derive(Debug, PartialEq)]
pub struct ErrorObject {
    pub code: Option<String>,
    pub message: Option<String>,
    pub inner_error: Option<Box<ErrorObject>>,
    pub extra_data: serde_json::Map<String, serde_json::Value>,
}

/// Drive resource type.
///
/// The drive resource is the top level object representing a user's drive or
/// a document library.
#[derive(Debug, PartialEq)]
#[non_exhaustive]
pub struct Drive {
    pub id: Option<DriveId>,
    pub created_by: Option<JsonValue>,
    pub created_date_time: Option<TimestampString>,
    pub description: Option<String>,
    pub drive_type: Option<JsonValue>,
    pub items: Option<Vec<DriveItem>>,
    pub last_modified_by: Option<JsonValue>,
    pub last_modified_date_time: Option<TimestampString>,
    pub name: Option<String>,
    pub owner: Option<JsonValue>,
    pub quota: Option<JsonValue>,
    pub root: Option<DriveItem>,
    pub sharepoint_ids: Option<JsonValue>,
    pub special: Option<Vec<DriveItem>>,
    pub system: Option<JsonValue>,
    pub web_url: Option<Url>,
}

/// DriveItem resource type.
///
/// The `DriveItem` resource represents a file, folder, or other item stored
/// in a drive.
#[derive(Debug, PartialEq)]
#[non_exhaustive]
pub struct DriveItem {
    // Drive item
    pub audio: Option<JsonValue>,
    pub content: Option<JsonValue>,
    pub c_tag: Option<Tag>,
    pub deleted: Option<JsonValue>,
    pub description: Option<String>,
    pub file: Option<JsonValue>,
    pub file_system_info: Option<JsonValue>,
    pub folder: Option<JsonValue>,
    pub image: Option<JsonValue>,
    pub location: Option<JsonValue>,
    pub package: Option<JsonValue>,
    pub photo: Option<JsonValue>,
    pub publication: Option<JsonValue>,
    pub remote_item: Option<JsonValue>,
    pub root: Option<JsonValue>,
    pub search_result: Option<JsonValue>,
    pub shared: Option<JsonValue>,
    pub sharepoint_ids: Option<JsonValue>,
    pub size: Option<i64>,
    pub special_folder: Option<JsonValue>,
    pub video: Option<JsonValue>,
    pub web_dav_url: Option<Url>,
    // Relationships
    pub children: Option<Vec<DriveItem>>,
    pub created_by_user: Option<JsonValue>,
    pub last_modified_by_user: Option<JsonValue>,
    pub permissions: Option<JsonValue>,
    pub thumbnails: Option<JsonValue>,
    pub versions: Option<JsonValue>,
    // Base item
    pub id: Option<ItemId>,
    pub created_by: Option<JsonValue>,
    pub created_date_time: Option<TimestampString>,
    pub e_tag: Option<Tag>,
    pub last_modified_by: Option<JsonValue>,
    pub last_modified_date_time: Option<TimestampString>,
    pub name: Option<String>,
    pub parent_reference: Option<JsonValue>,
    pub web_url: Option<Url>,
    // Instance annotations
    /// The pre-authorized url for downloading the content.
    ///
    /// It is not selectable, and only comes in the result of fetching the
    /// item itself. On the wire it is named `@microsoft.graph.downloadUrl`.
    pub download_url: Option<Url>,
}

impl Drive {
    /// A drive of which nothing is known: no field holds a value.
    pub open spec fn empty() -> Drive {
        Drive {
            id: None,
            created_by: None,
            created_date_time: None,
            description: None,
            drive_type: None,
            items: None,
            last_modified_by: None,
            last_modified_date_time: None,
            name: None,
            owner: None,
            quota: None,
            root: None,
            sharepoint_ids: None,
            special: None,
            system: None,
            web_url: None,
        }
    }
}

impl Default for Drive {
    fn default() -> (r: Self)
        ensures
            r == Drive::empty(),
    {
        Drive {
            id: None,
            created_by: None,
            created_date_time: None,
            description: None,
            drive_type: None,
            items: None,
            last_modified_by: None,
            last_modified_date_time: None,
            name: None,
            owner: None,
            quota: None,
            root: None,
            sharepoint_ids: None,
            special: None,
            system: None,
            web_url: None,
        }
    }
}

impl DriveItem {
    /// An item of which nothing is known: no field holds a value.
    pub open spec fn empty() -> DriveItem {
        DriveItem {
            audio: None,
            content: None,
            c_tag: None,
            deleted: None,
            description: None,
            file: None,
            file_system_info: None,
            folder: None,
            image: None,
            location: None,
            package: None,
            photo: None,
            publication: None,
            remote_item: None,
            root: None,
            search_result: None,
            shared: None,
            sharepoint_ids: None,
            size: None,
            special_folder: None,
            video: None,
            web_dav_url: None,
            children: None,
            created_by_user: None,
            last_modified_by_user: None,
            permissions: None,
            thumbnails: None,
            versions: None,
            id: None,
            created_by: None,
            created_date_time: None,
            e_tag: None,
            last_modified_by: None,
            last_modified_date_time: None,
            name: None,
            parent_reference: None,
            web_url: None,
            download_url: None,
        }
    }
}

impl Default for DriveItem {
    fn default() -> (r: Self)
        ensures
            r == DriveItem::empty(),
    {
        DriveItem {
            audio: None,
            content: None,
            c_tag: None,
            deleted: None,
            description: None,
            file: None,
            file_system_info: None,
            folder: None,
            image: None,
            location: None,
            package: None,
            photo: None,
            publication: None,
            remote_item: None,
            root: None,
            search_result: None,
            shared: None,
            sharepoint_ids: None,
            size: None,
            special_folder: None,
            video: None,
            web_dav_url: None,
            children: None,
            created_by_user: None,
            last_modified_by_user: None,
            permissions: None,
            thumbnails: None,
            versions: None,
            id: None,
            created_by: None,
            created_date_time: None,
            e_tag: None,
            last_modified_by: None,
            last_modified_date_time: None,
            name: None,
            parent_reference: None,
            web_url: None,
            download_url: None,
        }
    }
}

} // verus!
