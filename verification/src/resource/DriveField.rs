//! Descriptors of the selectable fields of [`Drive`], one unit type each,
//! under the field's own name.

use crate::resource::{
    Drive, DriveId, DriveItem, JsonValue, ResourceFieldOf, ResourceFieldTypeOf, TimestampString, Url, snake_to_camel, snake_to_camel_case,
};
use vstd::prelude::*;

verus! {

/// Descriptor of the field `id`.
#[allow(non_camel_case_types)]
#[derive(Debug)]
pub struct id;

impl ResourceFieldOf<Drive> for id {
    open spec fn wire_name(&self) -> Seq<char> {
        snake_to_camel("id"@)
    }

    fn api_field_name(&self) -> (name: String) {
        snake_to_camel_case("id")
    }
}

impl ResourceFieldTypeOf<Drive> for id {
    type Type = DriveId;
}

/// Descriptor of the field `created_by`.
#[allow(non_camel_case_types)]
#[derive(Debug)]
pub struct created_by;

impl ResourceFieldOf<Drive> for created_by {
    open spec fn wire_name(&self) -> Seq<char> {
        snake_to_camel("created_by"@)
    }

    fn api_field_name(&self) -> (name: String) {
        snake_to_camel_case("created_by")
    }
}

impl ResourceFieldTypeOf<Drive> for created_by {
    type Type = JsonValue;
}

/// Descriptor of the field `created_date_time`.
#[allow(non_camel_case_types)]
#[derive(Debug)]
pub struct created_date_time;

impl ResourceFieldOf<Drive> for created_date_time {
    open spec fn wire_name(&self) -> Seq<char> {
        snake_to_camel("created_date_time"@)
    }

    fn api_field_name(&self) -> (name: String) {
        snake_to_camel_case("created_date_time")
    }
}

impl ResourceFieldTypeOf<Drive> for created_date_time {
    type Type = TimestampString;
}

/// Descriptor of the field `description`.
#[allow(non_camel_case_types)]
#[derive(Debug)]
pub struct description;

impl ResourceFieldOf<Drive> for description {
    open spec fn wire_name(&self) -> Seq<char> {
        snake_to_camel("description"@)
    }

    fn api_field_name(&self) -> (name: String) {
        snake_to_camel_case("description")
    }
}

impl ResourceFieldTypeOf<Drive> for description {
    type Type = String;
}

/// Descriptor of the field `drive_type`.
#[allow(non_camel_case_types)]
#[derive(Debug)]
pub struct drive_type;

impl ResourceFieldOf<Drive> for drive_type {
    open spec fn wire_name(&self) -> Seq<char> {
        snake_to_camel("drive_type"@)
    }

    fn api_field_name(&self) -> (name: String) {
        snake_to_camel_case("drive_type")
    }
}

impl ResourceFieldTypeOf<Drive> for drive_type {
    type Type = JsonValue;
}

/// Descriptor of the field `items`.
#[allow(non_camel_case_types)]
#[derive(Debug)]
pub struct items;

impl ResourceFieldOf<Drive> for items {
    open spec fn wire_name(&self) -> Seq<char> {
        snake_to_camel("items"@)
    }

    fn api_field_name(&self) -> (name: String) {
        snake_to_camel_case("items")
    }
}

impl ResourceFieldTypeOf<Drive> for items {
    type Type = Vec<DriveItem>;
}

/// Descriptor of the field `last_modified_by`.
#[allow(non_camel_case_types)]
#[derive(Debug)]
pub struct last_modified_by;

impl ResourceFieldOf<Drive> for last_modified_by {
    open spec fn wire_name(&self) -> Seq<char> {
        snake_to_camel("last_modified_by"@)
    }

    fn api_field_name(&self) -> (name: String) {
        snake_to_camel_case("last_modified_by")
    }
}

impl ResourceFieldTypeOf<Drive> for last_modified_by {
    type Type = JsonValue;
}

/// Descriptor of the field `last_modified_date_time`.
#[allow(non_camel_case_types)]
#[derive(Debug)]
pub struct last_modified_date_time;

impl ResourceFieldOf<Drive> for last_modified_date_time {
    open spec fn wire_name(&self) -> Seq<char> {
        snake_to_camel("last_modified_date_time"@)
    }

    fn api_field_name(&self) -> (name: String) {
        snake_to_camel_case("last_modified_date_time")
    }
}

impl ResourceFieldTypeOf<Drive> for last_modified_date_time {
    type Type = TimestampString;
}

/// Descriptor of the field `name`.
#[allow(non_camel_case_types)]
#[derive(Debug)]
pub struct name;

impl ResourceFieldOf<Drive> for name {
    open spec fn wire_name(&self) -> Seq<char> {
        snake_to_camel("name"@)
    }

    fn api_field_name(&self) -> (name: String) {
        snake_to_camel_case("name")
    }
}

impl ResourceFieldTypeOf<Drive> for name {
    type Type = String;
}

/// Descriptor of the field `owner`.
#[allow(non_camel_case_types)]
#[derive(Debug)]
pub struct owner;

impl ResourceFieldOf<Drive> for owner {
    open spec fn wire_name(&self) -> Seq<char> {
        snake_to_camel("owner"@)
    }

    fn api_field_name(&self) -> (name: String) {
        snake_to_camel_case("owner")
    }
}

impl ResourceFieldTypeOf<Drive> for owner {
    type Type = JsonValue;
}

/// Descriptor of the field `quota`.
#[allow(non_camel_case_types)]
#[derive(Debug)]
pub struct quota;

impl ResourceFieldOf<Drive> for quota {
    open spec fn wire_name(&self) -> Seq<char> {
        snake_to_camel("quota"@)
    }

    fn api_field_name(&self) -> (name: String) {
        snake_to_camel_case("quota")
    }
}

impl ResourceFieldTypeOf<Drive> for quota {
    type Type = JsonValue;
}

/// Descriptor of the field `root`.
#[allow(non_camel_case_types)]
#[derive(Debug)]
pub struct root;

impl ResourceFieldOf<Drive> for root {
    open spec fn wire_name(&self) -> Seq<char> {
        snake_to_camel("root"@)
    }

    fn api_field_name(&self) -> (name: String) {
        snake_to_camel_case("root")
    }
}

impl ResourceFieldTypeOf<Drive> for root {
    type Type = DriveItem;
}

/// Descriptor of the field `sharepoint_ids`.
#[allow(non_camel_case_types)]
#[derive(Debug)]
pub struct sharepoint_ids;

impl ResourceFieldOf<Drive> for sharepoint_ids {
    open spec fn wire_name(&self) -> Seq<char> {
        snake_to_camel("sharepoint_ids"@)
    }

    fn api_field_name(&self) -> (name: String) {
        snake_to_camel_case("sharepoint_ids")
    }
}

impl ResourceFieldTypeOf<Drive> for sharepoint_ids {
    type Type = JsonValue;
}

/// Descriptor of the field `special`.
#[allow(non_camel_case_types)]
#[derive(Debug)]
pub struct special;

impl ResourceFieldOf<Drive> for special {
    open spec fn wire_name(&self) -> Seq<char> {
        snake_to_camel("special"@)
    }

    fn api_field_name(&self) -> (name: String) {
        snake_to_camel_case("special")
    }
}

impl ResourceFieldTypeOf<Drive> for special {
    type Type = Vec<DriveItem>;
}

/// Descriptor of the field `system`.
#[allow(non_camel_case_types)]
#[derive(Debug)]
pub struct system;

impl ResourceFieldOf<Drive> for system {
    open spec fn wire_name(&self) -> Seq<char> {
        snake_to_camel("system"@)
    }

    fn api_field_name(&self) -> (name: String) {
        snake_to_camel_case("system")
    }
}

impl ResourceFieldTypeOf<Drive> for system {
    type Type = JsonValue;
}

/// Descriptor of the field `web_url`.
#[allow(non_camel_case_types)]
#[derive(Debug)]
pub struct web_url;

impl ResourceFieldOf<Drive> for web_url {
    open spec fn wire_name(&self) -> Seq<char> {
        snake_to_camel("web_url"@)
    }

    fn api_field_name(&self) -> (name: String) {
        snake_to_camel_case("web_url")
    }
}

impl ResourceFieldTypeOf<Drive> for web_url {
    type Type = Url;
}

} // verus!
