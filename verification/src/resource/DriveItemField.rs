//! Descriptors of the selectable fields of [`DriveItem`], one unit type each,
//! under the field's own name.

use crate::resource::{
    DriveItem, ItemId, JsonValue, ResourceFieldOf, ResourceFieldTypeOf, Tag, TimestampString, Url, snake_to_camel, snake_to_camel_case,
};
use vstd::prelude::*;

verus! {

/// Descriptor of the field `audio`.
#[allow(non_camel_case_types)]
#[derive(Debug)]
pub struct audio;

impl ResourceFieldOf<DriveItem> for audio {
    open spec fn wire_name(&self) -> Seq<char> {
        snake_to_camel("audio"@)
    }

    fn api_field_name(&self) -> (name: String) {
        snake_to_camel_case("audio")
    }
}

impl ResourceFieldTypeOf<DriveItem> for audio {
    type Type = JsonValue;
}

/// Descriptor of the field `content`.
#[allow(non_camel_case_types)]
#[derive(Debug)]
pub struct content;

impl ResourceFieldOf<DriveItem> for content {
    open spec fn wire_name(&self) -> Seq<char> {
        snake_to_camel("content"@)
    }

    fn api_field_name(&self) -> (name: String) {
        snake_to_camel_case("content")
    }
}

impl ResourceFieldTypeOf<DriveItem> for content {
    type Type = JsonValue;
}

/// Descriptor of the field `c_tag`.
#[allow(non_camel_case_types)]
#[derive(Debug)]
pub struct c_tag;

impl ResourceFieldOf<DriveItem> for c_tag {
    open spec fn wire_name(&self) -> Seq<char> {
        snake_to_camel("c_tag"@)
    }

    fn api_field_name(&self) -> (name: String) {
        snake_to_camel_case("c_tag")
    }
}

impl ResourceFieldTypeOf<DriveItem> for c_tag {
    type Type = Tag;
}

/// Descriptor of the field `deleted`.
#[allow(non_camel_case_types)]
#[derive(Debug)]
pub struct deleted;

impl ResourceFieldOf<DriveItem> for deleted {
    open spec fn wire_name(&self) -> Seq<char> {
        snake_to_camel("deleted"@)
    }

    fn api_field_name(&self) -> (name: String) {
        snake_to_camel_case("deleted")
    }
}

impl ResourceFieldTypeOf<DriveItem> for deleted {
    type Type = JsonValue;
}

/// Descriptor of the field `description`.
#[allow(non_camel_case_types)]
#[derive(Debug)]
pub struct description;

impl ResourceFieldOf<DriveItem> for description {
    open spec fn wire_name(&self) -> Seq<char> {
        snake_to_camel("description"@)
    }

    fn api_field_name(&self) -> (name: String) {
        snake_to_camel_case("description")
    }
}

impl ResourceFieldTypeOf<DriveItem> for description {
    type Type = String;
}

/// Descriptor of the field `file`.
#[allow(non_camel_case_types)]
#[derive(Debug)]
pub struct file;

impl ResourceFieldOf<DriveItem> for file {
    open spec fn wire_name(&self) -> Seq<char> {
        snake_to_camel("file"@)
    }

    fn api_field_name(&self) -> (name: String) {
        snake_to_camel_case("file")
    }
}

impl ResourceFieldTypeOf<DriveItem> for file {
    type Type = JsonValue;
}

/// Descriptor of the field `file_system_info`.
#[allow(non_camel_case_types)]
#[derive(Debug)]
pub struct file_system_info;

impl ResourceFieldOf<DriveItem> for file_system_info {
    open spec fn wire_name(&self) -> Seq<char> {
        snake_to_camel("file_system_info"@)
    }

    fn api_field_name(&self) -> (name: String) {
        snake_to_camel_case("file_system_info")
    }
}

impl ResourceFieldTypeOf<DriveItem> for file_system_info {
    type Type = JsonValue;
}

/// Descriptor of the field `folder`.
#[allow(non_camel_case_types)]
#[derive(Debug)]
pub struct folder;

impl ResourceFieldOf<DriveItem> for folder {
    open spec fn wire_name(&self) -> Seq<char> {
        snake_to_camel("folder"@)
    }

    fn api_field_name(&self) -> (name: String) {
        snake_to_camel_case("folder")
    }
}

impl ResourceFieldTypeOf<DriveItem> for folder {
    type Type = JsonValue;
}

/// Descriptor of the field `image`.
#[allow(non_camel_case_types)]
#[derive(Debug)]
pub struct image;

impl ResourceFieldOf<DriveItem> for image {
    open spec fn wire_name(&self) -> Seq<char> {
        snake_to_camel("image"@)
    }

    fn api_field_name(&self) -> (name: String) {
        snake_to_camel_case("image")
    }
}

impl ResourceFieldTypeOf<DriveItem> for image {
    type Type = JsonValue;
}

/// Descriptor of the field `location`.
#[allow(non_camel_case_types)]
#[derive(Debug)]
pub struct location;

impl ResourceFieldOf<DriveItem> for location {
    open spec fn wire_name(&self) -> Seq<char> {
        snake_to_camel("location"@)
    }

    fn api_field_name(&self) -> (name: String) {
        snake_to_camel_case("location")
    }
}

impl ResourceFieldTypeOf<DriveItem> for location {
    type Type = JsonValue;
}

/// Descriptor of the field `package`.
#[allow(non_camel_case_types)]
#[derive(Debug)]
pub struct package;

impl ResourceFieldOf<DriveItem> for package {
    open spec fn wire_name(&self) -> Seq<char> {
        snake_to_camel("package"@)
    }

    fn api_field_name(&self) -> (name: String) {
        snake_to_camel_case("package")
    }
}

impl ResourceFieldTypeOf<DriveItem> for package {
    type Type = JsonValue;
}

/// Descriptor of the field `photo`.
#[allow(non_camel_case_types)]
#[derive(Debug)]
pub struct photo;

impl ResourceFieldOf<DriveItem> for photo {
    open spec fn wire_name(&self) -> Seq<char> {
        snake_to_camel("photo"@)
    }

    fn api_field_name(&self) -> (name: String) {
        snake_to_camel_case("photo")
    }
}

impl ResourceFieldTypeOf<DriveItem> for photo {
    type Type = JsonValue;
}

/// Descriptor of the field `publication`.
#[allow(non_camel_case_types)]
#[derive(Debug)]
pub struct publication;

impl ResourceFieldOf<DriveItem> for publication {
    open spec fn wire_name(&self) -> Seq<char> {
        snake_to_camel("publication"@)
    }

    fn api_field_name(&self) -> (name: String) {
        snake_to_camel_case("publication")
    }
}

impl ResourceFieldTypeOf<DriveItem> for publication {
    type Type = JsonValue;
}

/// Descriptor of the field `remote_item`.
#[allow(non_camel_case_types)]
#[derive(Debug)]
pub struct remote_item;

impl ResourceFieldOf<DriveItem> for remote_item {
    open spec fn wire_name(&self) -> Seq<char> {
        snake_to_camel("remote_item"@)
    }

    fn api_field_name(&self) -> (name: String) {
        snake_to_camel_case("remote_item")
    }
}

impl ResourceFieldTypeOf<DriveItem> for remote_item {
    type Type = JsonValue;
}

/// Descriptor of the field `root`.
#[allow(non_camel_case_types)]
#[derive(Debug)]
pub struct root;

impl ResourceFieldOf<DriveItem> for root {
    open spec fn wire_name(&self) -> Seq<char> {
        snake_to_camel("root"@)
    }

    fn api_field_name(&self) -> (name: String) {
        snake_to_camel_case("root")
    }
}

impl ResourceFieldTypeOf<DriveItem> for root {
    type Type = JsonValue;
}

/// Descriptor of the field `search_result`.
#[allow(non_camel_case_types)]
#[derive(Debug)]
pub struct search_result;

impl ResourceFieldOf<DriveItem> for search_result {
    open spec fn wire_name(&self) -> Seq<char> {
        snake_to_camel("search_result"@)
    }

    fn api_field_name(&self) -> (name: String) {
        snake_to_camel_case("search_result")
    }
}

impl ResourceFieldTypeOf<DriveItem> for search_result {
    type Type = JsonValue;
}

/// Descriptor of the field `shared`.
#[allow(non_camel_case_types)]
#[derive(Debug)]
pub struct shared;

impl ResourceFieldOf<DriveItem> for shared {
    open spec fn wire_name(&self) -> Seq<char> {
        snake_to_camel("shared"@)
    }

    fn api_field_name(&self) -> (name: String) {
        snake_to_camel_case("shared")
    }
}

impl ResourceFieldTypeOf<DriveItem> for shared {
    type Type = JsonValue;
}

/// Descriptor of the field `sharepoint_ids`.
#[allow(non_camel_case_types)]
#[derive(Debug)]
pub struct sharepoint_ids;

impl ResourceFieldOf<DriveItem> for sharepoint_ids {
    open spec fn wire_name(&self) -> Seq<char> {
        snake_to_camel("sharepoint_ids"@)
    }

    fn api_field_name(&self) -> (name: String) {
        snake_to_camel_case("sharepoint_ids")
    }
}

impl ResourceFieldTypeOf<DriveItem> for sharepoint_ids {
    type Type = JsonValue;
}

/// Descriptor of the field `size`.
#[allow(non_camel_case_types)]
#[derive(Debug)]
pub struct size;

impl ResourceFieldOf<DriveItem> for size {
    open spec fn wire_name(&self) -> Seq<char> {
        snake_to_camel("size"@)
    }

    fn api_field_name(&self) -> (name: String) {
        snake_to_camel_case("size")
    }
}

impl ResourceFieldTypeOf<DriveItem> for size {
    type Type = i64;
}

/// Descriptor of the field `special_folder`.
#[allow(non_camel_case_types)]
#[derive(Debug)]
pub struct special_folder;

impl ResourceFieldOf<DriveItem> for special_folder {
    open spec fn wire_name(&self) -> Seq<char> {
        snake_to_camel("special_folder"@)
    }

    fn api_field_name(&self) -> (name: String) {
        snake_to_camel_case("special_folder")
    }
}

impl ResourceFieldTypeOf<DriveItem> for special_folder {
    type Type = JsonValue;
}

/// Descriptor of the field `video`.
#[allow(non_camel_case_types)]
#[derive(Debug)]
pub struct video;

impl ResourceFieldOf<DriveItem> for video {
    open spec fn wire_name(&self) -> Seq<char> {
        snake_to_camel("video"@)
    }

    fn api_field_name(&self) -> (name: String) {
        snake_to_camel_case("video")
    }
}

impl ResourceFieldTypeOf<DriveItem> for video {
    type Type = JsonValue;
}

/// Descriptor of the field `web_dav_url`.
#[allow(non_camel_case_types)]
#[derive(Debug)]
pub struct web_dav_url;

impl ResourceFieldOf<DriveItem> for web_dav_url {
    open spec fn wire_name(&self) -> Seq<char> {
        snake_to_camel("web_dav_url"@)
    }

    fn api_field_name(&self) -> (name: String) {
        snake_to_camel_case("web_dav_url")
    }
}

impl ResourceFieldTypeOf<DriveItem> for web_dav_url {
    type Type = Url;
}

/// Descriptor of the field `children`.
#[allow(non_camel_case_types)]
#[derive(Debug)]
pub struct children;

impl ResourceFieldOf<DriveItem> for children {
    open spec fn wire_name(&self) -> Seq<char> {
        snake_to_camel("children"@)
    }

    fn api_field_name(&self) -> (name: String) {
        snake_to_camel_case("children")
    }
}

impl ResourceFieldTypeOf<DriveItem> for children {
    type Type = Vec<DriveItem>;
}

/// Descriptor of the field `created_by_user`.
#[allow(non_camel_case_types)]
#[derive(Debug)]
pub struct created_by_user;

impl ResourceFieldOf<DriveItem> for created_by_user {
    open spec fn wire_name(&self) -> Seq<char> {
        snake_to_camel("created_by_user"@)
    }

    fn api_field_name(&self) -> (name: String) {
        snake_to_camel_case("created_by_user")
    }
}

impl ResourceFieldTypeOf<DriveItem> for created_by_user {
    type Type = JsonValue;
}

/// Descriptor of the field `last_modified_by_user`.
#[allow(non_camel_case_types)]
#[derive(Debug)]
pub struct last_modified_by_user;

impl ResourceFieldOf<DriveItem> for last_modified_by_user {
    open spec fn wire_name(&self) -> Seq<char> {
        snake_to_camel("last_modified_by_user"@)
    }

    fn api_field_name(&self) -> (name: String) {
        snake_to_camel_case("last_modified_by_user")
    }
}

impl ResourceFieldTypeOf<DriveItem> for last_modified_by_user {
    type Type = JsonValue;
}

/// Descriptor of the field `permissions`.
#[allow(non_camel_case_types)]
#[derive(Debug)]
pub struct permissions;

impl ResourceFieldOf<DriveItem> for permissions {
    open spec fn wire_name(&self) -> Seq<char> {
        snake_to_camel("permissions"@)
    }

    fn api_field_name(&self) -> (name: String) {
        snake_to_camel_case("permissions")
    }
}

impl ResourceFieldTypeOf<DriveItem> for permissions {
    type Type = JsonValue;
}

/// Descriptor of the field `thumbnails`.
#[allow(non_camel_case_types)]
#[derive(Debug)]
pub struct thumbnails;

impl ResourceFieldOf<DriveItem> for thumbnails {
    open spec fn wire_name(&self) -> Seq<char> {
        snake_to_camel("thumbnails"@)
    }

    fn api_field_name(&self) -> (name: String) {
        snake_to_camel_case("thumbnails")
    }
}

impl ResourceFieldTypeOf<DriveItem> for thumbnails {
    type Type = JsonValue;
}

/// Descriptor of the field `versions`.
#[allow(non_camel_case_types)]
#[derive(Debug)]
pub struct versions;

impl ResourceFieldOf<DriveItem> for versions {
    open spec fn wire_name(&self) -> Seq<char> {
        snake_to_camel("versions"@)
    }

    fn api_field_name(&self) -> (name: String) {
        snake_to_camel_case("versions")
    }
}

impl ResourceFieldTypeOf<DriveItem> for versions {
    type Type = JsonValue;
}

/// Descriptor of the field `id`.
#[allow(non_camel_case_types)]
#[derive(Debug)]
pub struct id;

impl ResourceFieldOf<DriveItem> for id {
    open spec fn wire_name(&self) -> Seq<char> {
        snake_to_camel("id"@)
    }

    fn api_field_name(&self) -> (name: String) {
        snake_to_camel_case("id")
    }
}

impl ResourceFieldTypeOf<DriveItem> for id {
    type Type = ItemId;
}

/// Descriptor of the field `created_by`.
#[allow(non_camel_case_types)]
#[derive(Debug)]
pub struct created_by;

impl ResourceFieldOf<DriveItem> for created_by {
    open spec fn wire_name(&self) -> Seq<char> {
        snake_to_camel("created_by"@)
    }

    fn api_field_name(&self) -> (name: String) {
        snake_to_camel_case("created_by")
    }
}

impl ResourceFieldTypeOf<DriveItem> for created_by {
    type Type = JsonValue;
}

/// Descriptor of the field `created_date_time`.
#[allow(non_camel_case_types)]
#[derive(Debug)]
pub struct created_date_time;

impl ResourceFieldOf<DriveItem> for created_date_time {
    open spec fn wire_name(&self) -> Seq<char> {
        snake_to_camel("created_date_time"@)
    }

    fn api_field_name(&self) -> (name: String) {
        snake_to_camel_case("created_date_time")
    }
}

impl ResourceFieldTypeOf<DriveItem> for created_date_time {
    type Type = TimestampString;
}

/// Descriptor of the field `e_tag`.
#[allow(non_camel_case_types)]
#[derive(Debug)]
pub struct e_tag;

impl ResourceFieldOf<DriveItem> for e_tag {
    open spec fn wire_name(&self) -> Seq<char> {
        snake_to_camel("e_tag"@)
    }

    fn api_field_name(&self) -> (name: String) {
        snake_to_camel_case("e_tag")
    }
}

impl ResourceFieldTypeOf<DriveItem> for e_tag {
    type Type = Tag;
}

/// Descriptor of the field `last_modified_by`.
#[allow(non_camel_case_types)]
#[derive(Debug)]
pub struct last_modified_by;

impl ResourceFieldOf<DriveItem> for last_modified_by {
    open spec fn wire_name(&self) -> Seq<char> {
        snake_to_camel("last_modified_by"@)
    }

    fn api_field_name(&self) -> (name: String) {
        snake_to_camel_case("last_modified_by")
    }
}

impl ResourceFieldTypeOf<DriveItem> for last_modified_by {
    type Type = JsonValue;
}

/// Descriptor of the field `last_modified_date_time`.
#[allow(non_camel_case_types)]
#[derive(Debug)]
pub struct last_modified_date_time;

impl ResourceFieldOf<DriveItem> for last_modified_date_time {
    open spec fn wire_name(&self) -> Seq<char> {
        snake_to_camel("last_modified_date_time"@)
    }

    fn api_field_name(&self) -> (name: String) {
        snake_to_camel_case("last_modified_date_time")
    }
}

impl ResourceFieldTypeOf<DriveItem> for last_modified_date_time {
    type Type = TimestampString;
}

/// Descriptor of the field `name`.
#[allow(non_camel_case_types)]
#[derive(Debug)]
pub struct name;

impl ResourceFieldOf<DriveItem> for name {
    open spec fn wire_name(&self) -> Seq<char> {
        snake_to_camel("name"@)
    }

    fn api_field_name(&self) -> (name: String) {
        snake_to_camel_case("name")
    }
}

impl ResourceFieldTypeOf<DriveItem> for name {
    type Type = String;
}

/// Descriptor of the field `parent_reference`.
#[allow(non_camel_case_types)]
#[derive(Debug)]
pub struct parent_reference;

impl ResourceFieldOf<DriveItem> for parent_reference {
    open spec fn wire_name(&self) -> Seq<char> {
        snake_to_camel("parent_reference"@)
    }

    fn api_field_name(&self) -> (name: String) {
        snake_to_camel_case("parent_reference")
    }
}

impl ResourceFieldTypeOf<DriveItem> for parent_reference {
    type Type = JsonValue;
}

/// Descriptor of the field `web_url`.
#[allow(non_camel_case_types)]
#[derive(Debug)]
pub struct web_url;

impl ResourceFieldOf<DriveItem> for web_url {
    open spec fn wire_name(&self) -> Seq<char> {
        snake_to_camel("web_url"@)
    }

    fn api_field_name(&self) -> (name: String) {
        snake_to_camel_case("web_url")
    }
}

impl ResourceFieldTypeOf<DriveItem> for web_url {
    type Type = Url;
}

} // verus!
