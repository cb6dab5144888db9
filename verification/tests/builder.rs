//! Building a preprint's data field by field.

use zotero_data::codec::Wire;
use zotero_data::item::item_data::preprint::{PreprintData, PreprintDataBuilder};
use zotero_data::item::{Creator, CreatorName};
use zotero_data::json::Json;
use zotero_data::shared_fields::Tag;

#[test]
fn nothing_staged_builds_what_the_empty_object_decodes_to() {
    let built = PreprintDataBuilder::default().build();
    let decoded = PreprintData::decode(&Json::Object(vec![])).unwrap();
    assert_eq!(built, decoded);
    assert_eq!(built, PreprintData::default());
    assert_eq!(built.item_type, "preprint");
}

#[test]
fn staged_fields_are_built_and_the_others_defaulted() {
    let mut builder = PreprintDataBuilder::default();
    builder.title("Sparks".to_string()).rights("CC0".to_string());
    let record = builder.build();
    assert_eq!(
        record,
        PreprintData {
            key: String::new(),
            title: "Sparks".to_string(),
            item_type: "preprint".to_string(),
            creators: vec![],
            rights: "CC0".to_string(),
            tags: vec![],
        }
    );
}

#[test]
fn every_field_can_be_staged() {
    let creators = vec![Creator {
        creator_type: "author".to_string(),
        name: CreatorName::Person { first_name: "Ada".to_string(), last_name: "Lovelace".to_string() },
    }];
    let tags = vec![Tag { tag: "t".to_string(), tag_type: Some(1) }];
    let record = PreprintDataBuilder::default()
        .key("K".to_string())
        .title("T".to_string())
        .item_type("report".to_string())
        .creators(creators.clone())
        .rights("R".to_string())
        .tags(tags.clone())
        .build();
    assert_eq!(
        record,
        PreprintData {
            key: "K".to_string(),
            title: "T".to_string(),
            item_type: "report".to_string(),
            creators,
            rights: "R".to_string(),
            tags,
        }
    );
}

#[test]
fn staging_a_field_again_replaces_it() {
    let mut builder = PreprintDataBuilder::default();
    builder.key("first".to_string());
    builder.key("second".to_string());
    assert_eq!(builder.build().key, "second");
}

#[test]
fn builder_can_build_more_than_once() {
    let mut builder = PreprintDataBuilder::default();
    builder.title("one".to_string());
    let first = builder.build();
    builder.title("two".to_string());
    let second = builder.build();
    assert_eq!(first.title, "one");
    assert_eq!(second.title, "two");
    assert_eq!(first.item_type, second.item_type);
}

#[test]
fn built_record_is_written_like_a_decoded_one() {
    let mut builder = PreprintDataBuilder::default();
    builder.key("K".to_string()).tags(vec![Tag { tag: "t".to_string(), tag_type: None }]);
    let built = builder.build();
    let decoded = PreprintData::decode(&built.encode()).unwrap();
    assert_eq!(decoded, built);
    assert_eq!(decoded.encode(), built.encode());
}
