//! Building a preprint's data field by field.

use crate::codec::values_model;
use crate::item::creator::{Creator, CreatorModel};
use crate::item::item_data::preprint::{
    copy_creators, copy_tags, default_preprint, PreprintData, PreprintModel,
};
use crate::shared_fields::{Tag, TagModel};
use vstd::prelude::*;

verus! {

/// What has been staged in a builder so far, as contracts speak of it.
pub struct PreprintBuilderModel {
    pub key: Option<Seq<char>>,
    pub title: Option<Seq<char>>,
    pub item_type: Option<Seq<char>>,
    pub creators: Option<Seq<CreatorModel>>,
    pub rights: Option<Seq<char>>,
    pub tags: Option<Seq<TagModel>>,
}

/// The builder in which nothing is staged.
pub open spec fn nothing_staged() -> PreprintBuilderModel {
    PreprintBuilderModel {
        key: None,
        title: None,
        item_type: None,
        creators: None,
        rights: None,
        tags: None,
    }
}

/// The record that a builder yields: each staged field as staged, every
/// other field as in the record in which nothing is set.
pub open spec fn built(staged: PreprintBuilderModel) -> PreprintModel {
    let unset = default_preprint();
    PreprintModel {
        key: match staged.key {
            Some(key) => key,
            None => unset.key,
        },
        title: match staged.title {
            Some(title) => title,
            None => unset.title,
        },
        item_type: match staged.item_type {
            Some(item_type) => item_type,
            None => unset.item_type,
        },
        creators: match staged.creators {
            Some(creators) => creators,
            None => unset.creators,
        },
        rights: match staged.rights {
            Some(rights) => rights,
            None => unset.rights,
        },
        tags: match staged.tags {
            Some(tags) => tags,
            None => unset.tags,
        },
    }
}

/// Collects the fields of a preprint one by one. A field that was never
/// staged is built as in the record in which nothing is set.
#[derive(Debug)]
pub struct PreprintDataBuilder {
    key: Option<String>,
    title: Option<String>,
    item_type: Option<String>,
    creators: Option<Vec<Creator>>,
    rights: Option<String>,
    tags: Option<Vec<Tag>>,
}

/// A staged text as contracts speak of it.
pub open spec fn staged_text(field: Option<String>) -> Option<Seq<char>> {
    match field {
        Some(text) => Some(text@),
        None => None,
    }
}

/// A staged list as contracts speak of it.
pub open spec fn staged_list<T: View>(field: Option<Vec<T>>) -> Option<Seq<T::V>> {
    match field {
        Some(values) => Some(values_model(values@)),
        None => None,
    }
}

impl View for PreprintDataBuilder {
    type V = PreprintBuilderModel;

    closed spec fn view(&self) -> PreprintBuilderModel {
        PreprintBuilderModel {
            key: staged_text(self.key),
            title: staged_text(self.title),
            item_type: staged_text(self.item_type),
            creators: staged_list(self.creators),
            rights: staged_text(self.rights),
            tags: staged_list(self.tags),
        }
    }
}

impl Default for PreprintDataBuilder {
    fn default() -> (builder: PreprintDataBuilder)
        ensures
            builder@ == nothing_staged(),
    {
        PreprintDataBuilder {
            key: None,
            title: None,
            item_type: None,
            creators: None,
            rights: None,
            tags: None,
        }
    }
}

impl PreprintDataBuilder {
    /// Stages the key.
    pub fn key(&mut self, value: String) -> (staged: &mut PreprintDataBuilder)
        ensures
            staged@ == (PreprintBuilderModel { key: Some(value@), ..old(self)@ }),
            *final(self) == *final(staged),
    {
        self.key = Some(value);
        self
    }

    /// Stages the title.
    pub fn title(&mut self, value: String) -> (staged: &mut PreprintDataBuilder)
        ensures
            staged@ == (PreprintBuilderModel { title: Some(value@), ..old(self)@ }),
            *final(self) == *final(staged),
    {
        self.title = Some(value);
        self
    }

    /// Stages the item type.
    pub fn item_type(&mut self, value: String) -> (staged: &mut PreprintDataBuilder)
        ensures
            staged@ == (PreprintBuilderModel { item_type: Some(value@), ..old(self)@ }),
            *final(self) == *final(staged),
    {
        self.item_type = Some(value);
        self
    }

    /// Stages the creators, in citation order.
    pub fn creators(&mut self, value: Vec<Creator>) -> (staged: &mut PreprintDataBuilder)
        ensures
            staged@ == (PreprintBuilderModel {
                creators: Some(values_model(value@)),
                ..old(self)@
            }),
            *final(self) == *final(staged),
    {
        self.creators = Some(value);
        self
    }

    /// Stages the rights.
    pub fn rights(&mut self, value: String) -> (staged: &mut PreprintDataBuilder)
        ensures
            staged@ == (PreprintBuilderModel { rights: Some(value@), ..old(self)@ }),
            *final(self) == *final(staged),
    {
        self.rights = Some(value);
        self
    }

    /// Stages the tags.
    pub fn tags(&mut self, value: Vec<Tag>) -> (staged: &mut PreprintDataBuilder)
        ensures
            staged@ == (PreprintBuilderModel { tags: Some(values_model(value@)), ..old(self)@ }),
            *final(self) == *final(staged),
    {
        self.tags = Some(value);
        self
    }

    /// The record of what was staged. The builder stays as it is.
    pub fn build(&self) -> (record: PreprintData)
        ensures
            record@ == built(self@),
    {
        let unset = PreprintData::default();
        PreprintData {
            key: match &self.key {
                Some(key) => key.clone(),
                None => unset.key,
            },
            title: match &self.title {
                Some(title) => title.clone(),
                None => unset.title,
            },
            item_type: match &self.item_type {
                Some(item_type) => item_type.clone(),
                None => unset.item_type,
            },
            creators: match &self.creators {
                Some(creators) => copy_creators(creators),
                None => unset.creators,
            },
            rights: match &self.rights {
                Some(rights) => rights.clone(),
                None => unset.rights,
            },
            tags: match &self.tags {
                Some(tags) => copy_tags(tags),
                None => unset.tags,
            },
        }
    }
}

} // verus!
