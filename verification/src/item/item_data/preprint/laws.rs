//! What holds of the wire form of a preprint's data, for every record and
//! every payload.

use crate::codec::{
    encoded_list, lemma_decoded_list_elements, lemma_list_decode_encode,
    lemma_list_encode_decode, text_of, PresenceModel, Wire,
};
use crate::error::PathModel;
use crate::item::creator::{
    creator_in_wire_form, lemma_creator_decode_encode, lemma_creator_encode_decode, Creator,
    CreatorModel,
};
use crate::item::item_data::preprint::builder::{built, nothing_staged};
use crate::item::item_data::preprint::{
    default_preprint, PreprintData, PreprintModel, CREATORS, ITEM_TYPE, KEY, PREPRINT, RIGHTS, TAGS,
    TITLE,
};
use crate::json::JsonModel;
use crate::shared_fields::{
    lemma_tag_decode_encode, lemma_tag_encode_decode, tag_in_wire_form, Tag, TagModel,
};
use vstd::prelude::*;

verus! {

/// The member names of a preprint's data on the wire.
pub open spec fn preprint_names() -> Set<Seq<char>> {
    set![KEY@, TITLE@, ITEM_TYPE@, CREATORS@, RIGHTS@, TAGS@]
}

/// The member names of a preprint's data differ from one another.
pub proof fn lemma_preprint_names()
    ensures
        KEY@.len() == 3,
        TITLE@.len() == 5,
        ITEM_TYPE@.len() == 8,
        CREATORS@.len() == 8,
        RIGHTS@.len() == 6,
        TAGS@.len() == 4,
        ITEM_TYPE@[0] == 'i',
        CREATORS@[0] == 'c',
{
    reveal_strlit("key");
    reveal_strlit("title");
    reveal_strlit("itemType");
    reveal_strlit("creators");
    reveal_strlit("rights");
    reveal_strlit("tags");
}

/// The member `name` is not an empty string: a field that is omitted when
/// empty is never written so.
pub open spec fn not_written_empty(object: Map<Seq<char>, JsonModel>, name: Seq<char>) -> bool {
    object.contains_key(name) ==> !(object[name] matches JsonModel::Text(text) && text.len() == 0)
}

/// The member `name` is present, and where it is an array each of its
/// elements meets `form`.
pub open spec fn elements_meet(
    object: Map<Seq<char>, JsonModel>,
    name: Seq<char>,
    form: spec_fn(JsonModel) -> bool,
) -> bool {
    &&& object.contains_key(name)
    &&& object[name] matches JsonModel::List(items) ==> forall|i: int|
        0 <= i < items.len() ==> form(#[trigger] items[i])
}

/// The members that a preprint's data declares stand in the payload as
/// encoding writes them: no empty `key`, `title` or `rights`; `itemType`,
/// `creators` and `tags` present; every creator and every tag in its own wire
/// form. Of other members nothing is asked.
pub open spec fn declared_members_in_wire_form(json: JsonModel) -> bool {
    &&& json is Object
    &&& not_written_empty(json->Object_0, KEY@)
    &&& not_written_empty(json->Object_0, TITLE@)
    &&& not_written_empty(json->Object_0, RIGHTS@)
    &&& json->Object_0.contains_key(ITEM_TYPE@)
    &&& elements_meet(json->Object_0, CREATORS@, |element: JsonModel| creator_in_wire_form(element))
    &&& elements_meet(json->Object_0, TAGS@, |element: JsonModel| tag_in_wire_form(element))
}

/// The payload has no member that a preprint's data does not declare.
pub open spec fn only_declared_members(json: JsonModel) -> bool {
    &&& json is Object
    &&& forall|name: Seq<char>| #[trigger]
        json->Object_0.contains_key(name) ==> preprint_names().contains(name)
}

/// Decoding a payload and encoding the record again gives back the declared
/// members of the payload, each with its value and the arrays in their order,
/// and no other member. This holds of every payload that decodes and whose
/// declared members stand as encoding writes them.
pub proof fn lemma_encode_decode(json: JsonModel)
    requires
        PreprintData::decoded(json) is Ok,
        declared_members_in_wire_form(json),
    ensures
        PreprintData::encoded(PreprintData::decoded(json)->Ok_0) == JsonModel::Object(
            json->Object_0.restrict(preprint_names()),
        ),
{
    lemma_preprint_names();
    let object = json->Object_0;
    let record = PreprintData::decoded(json)->Ok_0;
    let written = PreprintData::encoded(record)->Object_0;
    let creators = object[CREATORS@]->List_0;
    assert forall|i: int|
        0 <= i < creators.len() && Creator::decoded(#[trigger] creators[i]) is Ok implies Creator::encoded(
        Creator::decoded(creators[i])->Ok_0,
    ) == creators[i] by {
        lemma_creator_encode_decode(creators[i]);
    }
    lemma_list_encode_decode::<Creator>(creators);
    let tags = object[TAGS@]->List_0;
    assert forall|i: int|
        0 <= i < tags.len() && Tag::decoded(#[trigger] tags[i]) is Ok implies Tag::encoded(
        Tag::decoded(tags[i])->Ok_0,
    ) == tags[i] by {
        lemma_tag_encode_decode(tags[i]);
    }
    lemma_list_encode_decode::<Tag>(tags);
    assert(written.contains_key(CREATORS@) && written[CREATORS@] == object[CREATORS@]);
    assert(written.contains_key(TAGS@) && written[TAGS@] == object[TAGS@]);
    assert(written.contains_key(ITEM_TYPE@) && written[ITEM_TYPE@] == object[ITEM_TYPE@]);
    assert(written.contains_key(KEY@) <==> object.contains_key(KEY@));
    assert(written.contains_key(TITLE@) <==> object.contains_key(TITLE@));
    assert(written.contains_key(RIGHTS@) <==> object.contains_key(RIGHTS@));
    assert(written =~= object.restrict(preprint_names()));
}

/// Round trip from the wire: a payload that decodes, has only declared
/// members and has them as encoding writes them is encoded again as it came.
pub proof fn lemma_round_trip(json: JsonModel)
    requires
        PreprintData::decoded(json) is Ok,
        declared_members_in_wire_form(json),
        only_declared_members(json),
    ensures
        PreprintData::encoded(PreprintData::decoded(json)->Ok_0) == json,
{
    lemma_encode_decode(json);
    assert(json->Object_0.restrict(preprint_names()) =~= json->Object_0);
}

/// Round trip from memory: every record is decoded from its encoding as it
/// was, and its encoding has only declared members, each as encoding writes
/// it.
pub proof fn lemma_decode_encode(record: PreprintModel)
    ensures
        PreprintData::decoded(PreprintData::encoded(record)) == Ok::<PreprintModel, PathModel>(
            record,
        ),
        declared_members_in_wire_form(PreprintData::encoded(record)),
        only_declared_members(PreprintData::encoded(record)),
{
    lemma_preprint_names();
    let json = PreprintData::encoded(record);
    let written = json->Object_0;
    let creators = encoded_list::<Creator>(record.creators);
    let tags = encoded_list::<Tag>(record.tags);
    assert forall|i: int| 0 <= i < record.creators.len() implies Creator::decoded(
        Creator::encoded(#[trigger] record.creators[i]),
    ) == Ok::<CreatorModel, PathModel>(record.creators[i]) by {
        lemma_creator_decode_encode(record.creators[i]);
    }
    lemma_list_decode_encode::<Creator>(record.creators);
    assert forall|i: int| 0 <= i < record.tags.len() implies Tag::decoded(
        Tag::encoded(#[trigger] record.tags[i]),
    ) == Ok::<TagModel, PathModel>(record.tags[i]) by {
        lemma_tag_decode_encode(record.tags[i]);
    }
    lemma_list_decode_encode::<Tag>(record.tags);
    assert forall|i: int| 0 <= i < creators.len() implies creator_in_wire_form(
        #[trigger] creators[i],
    ) by {
        lemma_creator_decode_encode(record.creators[i]);
    }
    assert forall|i: int| 0 <= i < tags.len() implies tag_in_wire_form(#[trigger] tags[i]) by {
        lemma_tag_decode_encode(record.tags[i]);
    }
    assert(written.contains_key(CREATORS@) && written[CREATORS@] == JsonModel::List(creators));
    assert(written.contains_key(TAGS@) && written[TAGS@] == JsonModel::List(tags));
    assert(written.contains_key(ITEM_TYPE@) && written[ITEM_TYPE@] == JsonModel::Text(
        record.item_type,
    ));
    assert(text_of(written, KEY@, PresenceModel::OmitIfEmpty) == Ok::<Seq<char>, PathModel>(
        record.key,
    )) by {
        if record.key.len() == 0 {
            assert(!written.contains_key(KEY@));
            assert(record.key =~= Seq::<char>::empty());
        } else {
            assert(written[KEY@] == JsonModel::Text(record.key));
        }
    }
    assert(text_of(written, TITLE@, PresenceModel::OmitIfEmpty) == Ok::<Seq<char>, PathModel>(
        record.title,
    )) by {
        if record.title.len() == 0 {
            assert(!written.contains_key(TITLE@));
            assert(record.title =~= Seq::<char>::empty());
        } else {
            assert(written[TITLE@] == JsonModel::Text(record.title));
        }
    }
    assert(text_of(written, RIGHTS@, PresenceModel::OmitIfEmpty) == Ok::<Seq<char>, PathModel>(
        record.rights,
    )) by {
        if record.rights.len() == 0 {
            assert(!written.contains_key(RIGHTS@));
            assert(record.rights =~= Seq::<char>::empty());
        } else {
            assert(written[RIGHTS@] == JsonModel::Text(record.rights));
        }
    }
    assert(not_written_empty(written, KEY@));
    assert(not_written_empty(written, TITLE@));
    assert(not_written_empty(written, RIGHTS@));
}

/// A payload without `itemType` decodes to a record whose item type is that
/// of a preprint.
pub proof fn lemma_missing_item_type(json: JsonModel)
    requires
        json is Object,
        !json->Object_0.contains_key(ITEM_TYPE@),
        PreprintData::decoded(json) is Ok,
    ensures
        PreprintData::decoded(json)->Ok_0.item_type == PREPRINT@,
{
}

/// A payload without `title` decodes to a record with an empty title, and
/// the encoding of that record has no `title` either.
pub proof fn lemma_missing_title(json: JsonModel)
    requires
        json is Object,
        !json->Object_0.contains_key(TITLE@),
        PreprintData::decoded(json) is Ok,
    ensures
        PreprintData::decoded(json)->Ok_0.title == Seq::<char>::empty(),
        PreprintData::encoded(PreprintData::decoded(json)->Ok_0) is Object,
        !PreprintData::encoded(PreprintData::decoded(json)->Ok_0)->Object_0.contains_key(
            TITLE@,
        ),
{
    lemma_preprint_names();
}

/// A field that is omitted when empty is written exactly if it is not empty.
pub proof fn lemma_empty_text_omitted(record: PreprintModel)
    ensures
        PreprintData::encoded(record) is Object,
        PreprintData::encoded(record)->Object_0.contains_key(KEY@) <==> record.key.len() > 0,
        PreprintData::encoded(record)->Object_0.contains_key(TITLE@) <==> record.title.len()
            > 0,
        PreprintData::encoded(record)->Object_0.contains_key(RIGHTS@) <==> record.rights.len()
            > 0,
{
    lemma_preprint_names();
}

/// The encoding of every record has `itemType` as a string and `creators`
/// and `tags` as arrays, also where there is no creator or no tag.
pub proof fn lemma_always_written(record: PreprintModel)
    ensures
        PreprintData::encoded(record) is Object,
        PreprintData::encoded(record)->Object_0.contains_key(ITEM_TYPE@),
        PreprintData::encoded(record)->Object_0[ITEM_TYPE@] == JsonModel::Text(record.item_type),
        PreprintData::encoded(record)->Object_0.contains_key(CREATORS@),
        PreprintData::encoded(record)->Object_0[CREATORS@] == JsonModel::List(
            encoded_list::<Creator>(record.creators),
        ),
        PreprintData::encoded(record)->Object_0.contains_key(TAGS@),
        PreprintData::encoded(record)->Object_0[TAGS@] == JsonModel::List(
            encoded_list::<Tag>(record.tags),
        ),
        encoded_list::<Creator>(record.creators).len() == record.creators.len(),
        encoded_list::<Tag>(record.tags).len() == record.tags.len(),
{
    lemma_preprint_names();
}

/// A member that a preprint's data does not declare changes nothing in what
/// is decoded: the payload with it and the payload without it give the same
/// record, or the same mismatch.
pub proof fn lemma_unknown_member_ignored(object: Map<Seq<char>, JsonModel>, name: Seq<char>)
    requires
        !preprint_names().contains(name),
    ensures
        PreprintData::decoded(JsonModel::Object(object.remove(name))) == PreprintData::decoded(
            JsonModel::Object(object),
        ),
{
}

/// What is decoded depends on the declared members alone.
pub proof fn lemma_decoded_from_declared(object: Map<Seq<char>, JsonModel>)
    ensures
        PreprintData::decoded(JsonModel::Object(object.restrict(preprint_names())))
            == PreprintData::decoded(JsonModel::Object(object)),
{
}

/// A builder in which nothing is staged builds the record in which nothing is
/// set, and that is the record that the empty object decodes to.
pub proof fn lemma_nothing_staged_is_empty_object()
    ensures
        built(nothing_staged()) == default_preprint(),
        PreprintData::decoded(JsonModel::Object(Map::empty())) == Ok::<PreprintModel, PathModel>(
            built(nothing_staged()),
        ),
{
}

/// Decoding keeps the creators and the tags in the order of the payload: as
/// many as elements, and each the decoding of its element.
pub proof fn lemma_order_kept(json: JsonModel)
    requires
        PreprintData::decoded(json) is Ok,
        json->Object_0.contains_key(CREATORS@),
        json->Object_0.contains_key(TAGS@),
    ensures
        json->Object_0[CREATORS@] is List,
        json->Object_0[TAGS@] is List,
        PreprintData::decoded(json)->Ok_0.creators.len()
            == json->Object_0[CREATORS@]->List_0.len(),
        PreprintData::decoded(json)->Ok_0.tags.len() == json->Object_0[TAGS@]->List_0.len(),
        forall|i: int|
            0 <= i < json->Object_0[CREATORS@]->List_0.len() ==> Creator::decoded(
                #[trigger] json->Object_0[CREATORS@]->List_0[i],
            ) == Ok::<CreatorModel, PathModel>(PreprintData::decoded(json)->Ok_0.creators[i]),
        forall|i: int|
            0 <= i < json->Object_0[TAGS@]->List_0.len() ==> Tag::decoded(
                #[trigger] json->Object_0[TAGS@]->List_0[i],
            ) == Ok::<TagModel, PathModel>(PreprintData::decoded(json)->Ok_0.tags[i]),
{
    lemma_decoded_list_elements::<Creator>(json->Object_0[CREATORS@]->List_0);
    lemma_decoded_list_elements::<Tag>(json->Object_0[TAGS@]->List_0);
}

} // verus!
