//! What every item type has in common: tags, and the accessors of the shared
//! fields.

use crate::codec::{
    int_model, int_of, new_object, put_int, put_text, read_int, read_text, text_of, values_model,
    write_int, write_text, Presence, PresenceModel, Wire,
};
use crate::error::{PathModel, SchemaMismatch};
use crate::json::{Json, JsonModel};
use vstd::prelude::*;
use vstd::std_specs::cmp::PartialEqSpecImpl;

verus! {

/// The wire name of a tag's label.
pub const TAG: &'static str = "tag";

/// The wire name of a tag's classification marker.
pub const TAG_TYPE: &'static str = "type";

/// A tag as contracts speak of it.
pub struct TagModel {
    pub tag: Seq<char>,
    pub tag_type: Option<int>,
}

/// A label on an item. `tag_type` is the classification marker; an item that
/// was tagged by hand has none.
#[derive(Debug)]
pub struct Tag {
    pub tag: String,
    pub tag_type: Option<i64>,
}

impl View for Tag {
    type V = TagModel;

    open spec fn view(&self) -> TagModel {
        TagModel { tag: self.tag@, tag_type: int_model(self.tag_type) }
    }
}

impl Clone for Tag {
    fn clone(&self) -> (copy: Tag)
        ensures
            copy@ == self@,
    {
        Tag { tag: self.tag.clone(), tag_type: self.tag_type }
    }
}

impl PartialEq for Tag {
    fn eq(&self, other: &Tag) -> (equal: bool) {
        self.tag == other.tag && self.tag_type == other.tag_type
    }
}

impl PartialEqSpecImpl for Tag {
    open spec fn obeys_eq_spec() -> bool {
        true
    }

    /// Two tags are equal exactly if they stand for the same value.
    open spec fn eq_spec(&self, other: &Tag) -> bool {
        self@ == other@
    }
}

impl Eq for Tag {

}

impl Wire for Tag {
    /// | field    | wire name | presence rule         |
    /// |----------|-----------|-----------------------|
    /// | tag      | `tag`     | always present        |
    /// | tag_type | `type`    | omitted when there is none |
    ///
    /// A value that is no object is a mismatch at the value itself.
    open spec fn decoded(json: JsonModel) -> Result<TagModel, PathModel> {
        match json {
            JsonModel::Object(object) => {
                let tag = text_of(object, TAG@, PresenceModel::Always);
                let tag_type = int_of(object, TAG_TYPE@);
                if tag is Err {
                    Err(tag->Err_0)
                } else if tag_type is Err {
                    Err(tag_type->Err_0)
                } else {
                    Ok(TagModel { tag: tag->Ok_0, tag_type: tag_type->Ok_0 })
                }
            },
            _ => Err(Seq::empty()),
        }
    }

    open spec fn encoded(value: TagModel) -> JsonModel {
        JsonModel::Object(
            put_int(
                put_text(Map::empty(), TAG@, PresenceModel::Always, value.tag),
                TAG_TYPE@,
                value.tag_type,
            ),
        )
    }

    fn decode(json: &Json) -> (r: Result<Tag, SchemaMismatch>) {
        match json {
            Json::Object(members) => {
                let tag = match read_text(members, TAG, Presence::Always) {
                    Ok(text) => text,
                    Err(e) => { return Err(e); },
                };
                let tag_type = match read_int(members, TAG_TYPE) {
                    Ok(value) => value,
                    Err(e) => { return Err(e); },
                };
                Ok(Tag { tag, tag_type })
            },
            _ => Err(SchemaMismatch::at_root()),
        }
    }

    fn encode(&self) -> (json: Json) {
        let mut members = new_object();
        write_text(&mut members, TAG, Presence::Always, &self.tag);
        write_int(&mut members, TAG_TYPE, self.tag_type);
        Json::Object(members)
    }
}

/// The member names of a tag on the wire.
pub open spec fn tag_names() -> Set<Seq<char>> {
    set![TAG@, TAG_TYPE@]
}

/// The two member names of a tag differ.
pub proof fn lemma_tag_names()
    ensures
        TAG@.len() == 3,
        TAG_TYPE@.len() == 4,
{
    reveal_strlit("tag");
    reveal_strlit("type");
}

/// The JSON value has the form in which a tag is written: an object with the
/// label and no member that a tag does not have.
pub open spec fn tag_in_wire_form(json: JsonModel) -> bool {
    &&& json is Object
    &&& json->Object_0.contains_key(TAG@)
    &&& forall|name: Seq<char>| #[trigger]
        json->Object_0.contains_key(name) ==> tag_names().contains(name)
}

/// A tag is read back as it was written.
pub proof fn lemma_tag_decode_encode(tag: TagModel)
    ensures
        Tag::decoded(Tag::encoded(tag)) == Ok::<TagModel, PathModel>(tag),
        tag_in_wire_form(Tag::encoded(tag)),
{
    lemma_tag_names();
    let labelled = put_text(Map::empty(), TAG@, PresenceModel::Always, tag.tag);
    let object = put_int(labelled, TAG_TYPE@, tag.tag_type);
    assert(object.contains_key(TAG@) && object[TAG@] == JsonModel::Text(tag.tag));
    assert(int_of(object, TAG_TYPE@) == Ok::<Option<int>, PathModel>(tag.tag_type));
}

/// A JSON value in the wire form of a tag that decodes is written back as it
/// was read.
pub proof fn lemma_tag_encode_decode(json: JsonModel)
    requires
        Tag::decoded(json) is Ok,
        tag_in_wire_form(json),
    ensures
        Tag::encoded(Tag::decoded(json)->Ok_0) == json,
{
    lemma_tag_names();
    let object = json->Object_0;
    let written = Tag::encoded(Tag::decoded(json)->Ok_0)->Object_0;
    assert forall|name: Seq<char>| written.contains_key(name) <==> object.contains_key(name) by {
        if object.contains_key(name) {
            assert(tag_names().contains(name));
        }
    }
    assert(written =~= object);
}

/// A member that a tag does not have changes nothing in what is decoded.
pub proof fn lemma_tag_ignores_unknown(object: Map<Seq<char>, JsonModel>, name: Seq<char>)
    requires
        !tag_names().contains(name),
    ensures
        Tag::decoded(JsonModel::Object(object.remove(name))) == Tag::decoded(
            JsonModel::Object(object),
        ),
{
}

/// The fields that every item type exposes, so that a caller can read and set
/// them without knowing the type's own fields.
pub trait ItemCommon {
    /// The item's key as contracts speak of it.
    spec fn key_model(&self) -> Seq<char>;

    /// The item's type as contracts speak of it.
    spec fn item_type_model(&self) -> Seq<char>;

    /// The item's tags as contracts speak of them.
    spec fn tags_model(&self) -> Seq<TagModel>;

    fn get_key(&self) -> (key: &String)
        ensures
            key@ == self.key_model(),
    ;

    fn set_key(&mut self, key: String)
        ensures
            final(self).key_model() == key@,
            final(self).item_type_model() == old(self).item_type_model(),
            final(self).tags_model() == old(self).tags_model(),
    ;

    /// The item type is read only: it is fixed when the record is made.
    fn get_item_type(&self) -> (item_type: &String)
        ensures
            item_type@ == self.item_type_model(),
    ;

    fn get_tags(&self) -> (tags: &Vec<Tag>)
        ensures
            values_model(tags@) == self.tags_model(),
    ;

    fn set_tags(&mut self, tags: Vec<Tag>)
        ensures
            final(self).tags_model() == values_model(tags@),
            final(self).key_model() == old(self).key_model(),
            final(self).item_type_model() == old(self).item_type_model(),
    ;
}

} // verus!
