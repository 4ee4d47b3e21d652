use onedrive_api::option::{CollectionOption, ObjectOption, Order};
use onedrive_api::resource::{Drive, DriveField, DriveItem, DriveItemField};

fn pairs(params: Vec<(String, String)>) -> Vec<(String, String)> {
    params
}

fn pair(name: &str, value: &str) -> (String, String) {
    (name.to_owned(), value.to_owned())
}

#[test]
fn no_option_gives_no_parameter() {
    let option: ObjectOption<DriveItem> = ObjectOption::new();
    assert_eq!(pairs(option.params()), vec![]);
    let option: CollectionOption<DriveItem> = CollectionOption::new();
    assert_eq!(pairs(option.params()), vec![]);
    let option: ObjectOption<DriveItem> = ObjectOption::new().select(&[]);
    assert_eq!(pairs(option.params()), vec![]);
}

#[test]
fn select_joins_wire_names_by_commas() {
    let option: ObjectOption<DriveItem> =
        ObjectOption::new().select(&[&DriveItemField::id, &DriveItemField::e_tag]);
    assert_eq!(option.params(), vec![pair("$select", "id,eTag")]);

    let option = option.select(&[&DriveItemField::last_modified_date_time]);
    assert_eq!(
        option.params(),
        vec![pair("$select", "id,eTag,lastModifiedDateTime")]
    );

    let option: ObjectOption<Drive> = ObjectOption::new().select(&[&DriveField::drive_type]);
    assert_eq!(option.params(), vec![pair("$select", "driveType")]);
}

#[test]
fn expand_names_the_field_and_its_options() {
    let option: ObjectOption<DriveItem> =
        ObjectOption::new().expand(&DriveItemField::children, None);
    assert_eq!(option.params(), vec![pair("$expand", "children")]);

    let of_children: ObjectOption<Vec<DriveItem>> =
        ObjectOption::new().select(&[&DriveItemField::id, &DriveItemField::name]);
    let option: ObjectOption<DriveItem> = ObjectOption::new()
        .select(&[&DriveItemField::id])
        .expand(&DriveItemField::children, Some(&of_children))
        .expand(&DriveItemField::thumbnails, None);
    assert_eq!(
        option.params(),
        vec![
            pair("$select", "id"),
            pair("$expand", "children($select=id,name),thumbnails"),
        ]
    );
}

#[test]
fn expansion_in_an_expansion() {
    let of_grandchildren: ObjectOption<Vec<DriveItem>> =
        ObjectOption::new().select(&[&DriveItemField::size]);
    let of_children: ObjectOption<Vec<DriveItem>> = ObjectOption::new()
        .select(&[&DriveItemField::id])
        .expand(&DriveItemField::children, Some(&of_grandchildren));
    let option: ObjectOption<DriveItem> =
        ObjectOption::new().expand(&DriveItemField::children, Some(&of_children));
    assert_eq!(
        option.params(),
        vec![pair(
            "$expand",
            "children($select=id;$expand=children($select=size))"
        )]
    );

    let nothing: ObjectOption<DriveItem> = ObjectOption::new();
    let option: ObjectOption<Drive> = ObjectOption::new().expand(&DriveField::root, Some(&nothing));
    assert_eq!(option.params(), vec![pair("$expand", "root")]);
}

#[test]
fn collection_options_add_order_and_page_size() {
    let option: CollectionOption<DriveItem> = CollectionOption::new()
        .select(&[&DriveItemField::name])
        .expand(&DriveItemField::permissions, None)
        .order_by(&DriveItemField::last_modified_date_time, Order::Descending)
        .page_size(50);
    assert_eq!(
        option.params(),
        vec![
            pair("$select", "name"),
            pair("$expand", "permissions"),
            pair("$orderby", "lastModifiedDateTime desc"),
            pair("$top", "50"),
        ]
    );

    let option: CollectionOption<DriveItem> = CollectionOption::new()
        .order_by(&DriveItemField::size, Order::Descending)
        .order_by(&DriveItemField::name, Order::Ascending)
        .page_size(1)
        .page_size(0);
    assert_eq!(
        option.params(),
        vec![pair("$orderby", "name asc"), pair("$top", "0")]
    );

    let option: CollectionOption<DriveItem> = CollectionOption::new().page_size(u64::MAX);
    assert_eq!(option.params(), vec![pair("$top", "18446744073709551615")]);
}
