//! The data record of a preprint.

use crate::codec::{
    lemma_values_equal, list_of, new_object, put_list, put_text, read_list, read_text, text_of, values_model,
    write_list, write_text, Presence, PresenceModel, Wire,
};
use crate::error::{PathModel, SchemaMismatch};
use crate::item::creator::{Creator, CreatorModel};
use crate::json::{Json, JsonModel};
use crate::shared_fields::{ItemCommon, Tag, TagModel};
use vstd::prelude::*;
use vstd::std_specs::cmp::PartialEqSpecImpl;

pub mod builder;
pub mod laws;

pub use builder::{built, nothing_staged, PreprintBuilderModel, PreprintDataBuilder};

verus! {

/// A preprint's data as contracts speak of it.
pub struct PreprintModel {
    pub key: Seq<char>,
    pub title: Seq<char>,
    pub item_type: Seq<char>,
    pub creators: Seq<CreatorModel>,
    pub rights: Seq<char>,
    pub tags: Seq<TagModel>,
}

/// The data of one preprint. The creators stand in citation order.
#[derive(Debug)]
pub struct PreprintData {
    pub key: String,
    pub title: String,
    pub item_type: String,
    pub creators: Vec<Creator>,
    pub rights: String,
    pub tags: Vec<Tag>,
}

impl View for PreprintData {
    type V = PreprintModel;

    open spec fn view(&self) -> PreprintModel {
        PreprintModel {
            key: self.key@,
            title: self.title@,
            item_type: self.item_type@,
            creators: values_model(self.creators@),
            rights: self.rights@,
            tags: values_model(self.tags@),
        }
    }
}

/// The wire name of the key.
pub const KEY: &'static str = "key";

/// The wire name of the title.
pub const TITLE: &'static str = "title";

/// The wire name of the item type.
pub const ITEM_TYPE: &'static str = "itemType";

/// The wire name of the creators.
pub const CREATORS: &'static str = "creators";

/// The wire name of the rights.
pub const RIGHTS: &'static str = "rights";

/// The wire name of the tags.
pub const TAGS: &'static str = "tags";

/// The item type of a preprint as it stands on the wire.
pub const PREPRINT: &'static str = "preprint";

/// The item type of a preprint, which stands for a missing `itemType`.
pub fn default_document_type() -> (tag: String)
    ensures
        tag@ == PREPRINT@,
{
    PREPRINT.to_string()
}

/// The record in which nothing is set: every text empty but the item type,
/// which is that of a preprint, and no creators and no tags.
pub open spec fn default_preprint() -> PreprintModel {
    PreprintModel {
        key: Seq::empty(),
        title: Seq::empty(),
        item_type: PREPRINT@,
        creators: Seq::empty(),
        rights: Seq::empty(),
        tags: Seq::empty(),
    }
}

/// A copy of the creators that stands for the same values.
pub fn copy_creators(creators: &Vec<Creator>) -> (copy: Vec<Creator>)
    ensures
        values_model(copy@) == values_model(creators@),
{
    let copy = creators.clone();
    assert(values_model(copy@) =~= values_model(creators@));
    copy
}

/// A copy of the tags that stands for the same values.
pub fn copy_tags(tags: &Vec<Tag>) -> (copy: Vec<Tag>)
    ensures
        values_model(copy@) == values_model(tags@),
{
    let copy = tags.clone();
    assert(values_model(copy@) =~= values_model(tags@));
    copy
}

impl Clone for PreprintData {
    fn clone(&self) -> (copy: PreprintData)
        ensures
            copy@ == self@,
    {
        PreprintData {
            key: self.key.clone(),
            title: self.title.clone(),
            item_type: self.item_type.clone(),
            creators: copy_creators(&self.creators),
            rights: self.rights.clone(),
            tags: copy_tags(&self.tags),
        }
    }
}

impl PartialEq for PreprintData {
    fn eq(&self, other: &PreprintData) -> (equal: bool) {
        proof {
            lemma_values_equal(self.creators@, other.creators@);
            lemma_values_equal(self.tags@, other.tags@);
        }
        self.key == other.key && self.title == other.title && self.item_type == other.item_type
            && self.creators == other.creators && self.rights == other.rights && self.tags
            == other.tags
    }
}

impl PartialEqSpecImpl for PreprintData {
    open spec fn obeys_eq_spec() -> bool {
        true
    }

    /// Two records are equal exactly if they stand for the same value: field
    /// by field, the creators and the tags in their order.
    open spec fn eq_spec(&self, other: &PreprintData) -> bool {
        self@ == other@
    }
}

impl Eq for PreprintData {

}

impl Default for PreprintData {
    fn default() -> (record: PreprintData)
        ensures
            record@ == default_preprint(),
    {
        let record = PreprintData {
            key: String::new(),
            title: String::new(),
            item_type: default_document_type(),
            creators: Vec::new(),
            rights: String::new(),
            tags: Vec::new(),
        };
        assert(record@.creators =~= Seq::<CreatorModel>::empty());
        assert(record@.tags =~= Seq::<TagModel>::empty());
        record
    }
}

impl Wire for PreprintData {
    /// | field     | wire name  | presence rule     | when absent  |
    /// |-----------|------------|-------------------|--------------|
    /// | key       | `key`      | omit if empty     | empty        |
    /// | title     | `title`    | omit if empty     | empty        |
    /// | item_type | `itemType` | default if absent | `"preprint"` |
    /// | creators  | `creators` | always present    | no creators  |
    /// | rights    | `rights`   | omit if empty     | empty        |
    /// | tags      | `tags`     | always present    | no tags      |
    ///
    /// Members that the table does not name are passed over. The mismatch
    /// reported is that of the first field in the table's order that has one.
    /// A value that is no object is a mismatch at the value itself.
    open spec fn decoded(json: JsonModel) -> Result<PreprintModel, PathModel> {
        match json {
            JsonModel::Object(object) => {
                let key = text_of(object, KEY@, PresenceModel::OmitIfEmpty);
                let title = text_of(object, TITLE@, PresenceModel::OmitIfEmpty);
                let item_type = text_of(
                    object,
                    ITEM_TYPE@,
                    PresenceModel::DefaultIfAbsent(PREPRINT@),
                );
                let creators = list_of::<Creator>(object, CREATORS@);
                let rights = text_of(object, RIGHTS@, PresenceModel::OmitIfEmpty);
                let tags = list_of::<Tag>(object, TAGS@);
                if key is Err {
                    Err(key->Err_0)
                } else if title is Err {
                    Err(title->Err_0)
                } else if item_type is Err {
                    Err(item_type->Err_0)
                } else if creators is Err {
                    Err(creators->Err_0)
                } else if rights is Err {
                    Err(rights->Err_0)
                } else if tags is Err {
                    Err(tags->Err_0)
                } else {
                    Ok(
                        PreprintModel {
                            key: key->Ok_0,
                            title: title->Ok_0,
                            item_type: item_type->Ok_0,
                            creators: creators->Ok_0,
                            rights: rights->Ok_0,
                            tags: tags->Ok_0,
                        },
                    )
                }
            },
            _ => Err(Seq::empty()),
        }
    }

    open spec fn encoded(value: PreprintModel) -> JsonModel {
        let with_key = put_text(Map::empty(), KEY@, PresenceModel::OmitIfEmpty, value.key);
        let with_title = put_text(with_key, TITLE@, PresenceModel::OmitIfEmpty, value.title);
        let with_item_type = put_text(
            with_title,
            ITEM_TYPE@,
            PresenceModel::DefaultIfAbsent(PREPRINT@),
            value.item_type,
        );
        let with_creators = put_list::<Creator>(with_item_type, CREATORS@, value.creators);
        let with_rights = put_text(
            with_creators,
            RIGHTS@,
            PresenceModel::OmitIfEmpty,
            value.rights,
        );
        JsonModel::Object(put_list::<Tag>(with_rights, TAGS@, value.tags))
    }

    fn decode(json: &Json) -> (r: Result<PreprintData, SchemaMismatch>) {
        match json {
            Json::Object(members) => {
                let key = match read_text(members, KEY, Presence::OmitIfEmpty) {
                    Ok(text) => text,
                    Err(e) => { return Err(e); },
                };
                let title = match read_text(members, TITLE, Presence::OmitIfEmpty) {
                    Ok(text) => text,
                    Err(e) => { return Err(e); },
                };
                let item_type = match read_text(
                    members,
                    ITEM_TYPE,
                    Presence::DefaultIfAbsent(PREPRINT),
                ) {
                    Ok(text) => text,
                    Err(e) => { return Err(e); },
                };
                let creators = match read_list::<Creator>(members, CREATORS) {
                    Ok(values) => values,
                    Err(e) => { return Err(e); },
                };
                let rights = match read_text(members, RIGHTS, Presence::OmitIfEmpty) {
                    Ok(text) => text,
                    Err(e) => { return Err(e); },
                };
                let tags = match read_list::<Tag>(members, TAGS) {
                    Ok(values) => values,
                    Err(e) => { return Err(e); },
                };
                Ok(PreprintData { key, title, item_type, creators, rights, tags })
            },
            _ => Err(SchemaMismatch::at_root()),
        }
    }

    fn encode(&self) -> (json: Json)
        ensures
            json@ is Object,
            json@->Object_0.contains_key(CREATORS@) && json@->Object_0[CREATORS@] is List,
            json@->Object_0.contains_key(TAGS@) && json@->Object_0[TAGS@] is List,
    {
        proof {
            laws::lemma_always_written(self@);
        }
        let mut members = new_object();
        write_text(&mut members, KEY, Presence::OmitIfEmpty, &self.key);
        write_text(&mut members, TITLE, Presence::OmitIfEmpty, &self.title);
        write_text(&mut members, ITEM_TYPE, Presence::DefaultIfAbsent(PREPRINT), &self.item_type);
        write_list::<Creator>(&mut members, CREATORS, &self.creators);
        write_text(&mut members, RIGHTS, Presence::OmitIfEmpty, &self.rights);
        write_list::<Tag>(&mut members, TAGS, &self.tags);
        Json::Object(members)
    }
}

impl ItemCommon for PreprintData {
    open spec fn key_model(&self) -> Seq<char> {
        self@.key
    }

    open spec fn item_type_model(&self) -> Seq<char> {
        self@.item_type
    }

    open spec fn tags_model(&self) -> Seq<TagModel> {
        self@.tags
    }

    fn get_key(&self) -> (key: &String) {
        &self.key
    }

    fn set_key(&mut self, key: String)
        ensures
            final(self)@ == (PreprintModel { key: key@, ..old(self)@ }),
    {
        self.key = key;
    }

    fn get_item_type(&self) -> (item_type: &String) {
        &self.item_type
    }

    fn get_tags(&self) -> (tags: &Vec<Tag>) {
        &self.tags
    }

    fn set_tags(&mut self, tags: Vec<Tag>)
        ensures
            final(self)@ == (PreprintModel { tags: values_model(tags@), ..old(self)@ }),
    {
        self.tags = tags;
    }
}

} // verus!
