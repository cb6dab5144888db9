//! A contributor of an item.

use crate::codec::{new_object, put_text, read_text, text_of, write_text, Presence, PresenceModel, Wire};
use crate::error::{PathModel, SchemaMismatch};
use crate::json::{find, Json, JsonModel};
use vstd::prelude::*;
use vstd::std_specs::cmp::PartialEqSpecImpl;

verus! {

/// The wire name of the role.
pub const CREATOR_TYPE: &'static str = "creatorType";

/// The wire name of a person's first name.
pub const FIRST_NAME: &'static str = "firstName";

/// The wire name of a person's last name.
pub const LAST_NAME: &'static str = "lastName";

/// The wire name of the single name of an organization.
pub const NAME: &'static str = "name";

/// A creator's name as contracts speak of it.
pub enum CreatorNameModel {
    Person { first_name: Seq<char>, last_name: Seq<char> },
    Organization { name: Seq<char> },
    Unnamed,
}

/// A creator as contracts speak of it.
pub struct CreatorModel {
    pub creator_type: Seq<char>,
    pub name: CreatorNameModel,
}

/// The name of a creator: a person's two names, the single name of an
/// organization, or none.
#[derive(Debug)]
pub enum CreatorName {
    Person { first_name: String, last_name: String },
    Organization { name: String },
    Unnamed,
}

/// A contributor with the role in which they contributed ("author", "editor").
#[derive(Debug)]
pub struct Creator {
    pub creator_type: String,
    pub name: CreatorName,
}

impl View for CreatorName {
    type V = CreatorNameModel;

    open spec fn view(&self) -> CreatorNameModel {
        match self {
            CreatorName::Person { first_name, last_name } => CreatorNameModel::Person {
                first_name: first_name@,
                last_name: last_name@,
            },
            CreatorName::Organization { name } => CreatorNameModel::Organization { name: name@ },
            CreatorName::Unnamed => CreatorNameModel::Unnamed,
        }
    }
}

impl View for Creator {
    type V = CreatorModel;

    open spec fn view(&self) -> CreatorModel {
        CreatorModel { creator_type: self.creator_type@, name: self.name@ }
    }
}

impl Clone for CreatorName {
    fn clone(&self) -> (copy: CreatorName)
        ensures
            copy@ == self@,
    {
        match self {
            CreatorName::Person { first_name, last_name } => CreatorName::Person {
                first_name: first_name.clone(),
                last_name: last_name.clone(),
            },
            CreatorName::Organization { name } => CreatorName::Organization { name: name.clone() },
            CreatorName::Unnamed => CreatorName::Unnamed,
        }
    }
}

impl Clone for Creator {
    fn clone(&self) -> (copy: Creator)
        ensures
            copy@ == self@,
    {
        Creator { creator_type: self.creator_type.clone(), name: self.name.clone() }
    }
}

impl PartialEq for CreatorName {
    fn eq(&self, other: &CreatorName) -> (equal: bool) {
        match (self, other) {
            (
                CreatorName::Person { first_name, last_name },
                CreatorName::Person { first_name: other_first, last_name: other_last },
            ) => *first_name == *other_first && *last_name == *other_last,
            (CreatorName::Organization { name }, CreatorName::Organization { name: other_name }) => {
                *name == *other_name
            },
            (CreatorName::Unnamed, CreatorName::Unnamed) => true,
            _ => false,
        }
    }
}

impl PartialEqSpecImpl for CreatorName {
    open spec fn obeys_eq_spec() -> bool {
        true
    }

    /// Two names are equal exactly if they stand for the same value.
    open spec fn eq_spec(&self, other: &CreatorName) -> bool {
        self@ == other@
    }
}

impl Eq for CreatorName {

}

impl PartialEq for Creator {
    fn eq(&self, other: &Creator) -> (equal: bool) {
        self.creator_type == other.creator_type && self.name == other.name
    }
}

impl PartialEqSpecImpl for Creator {
    open spec fn obeys_eq_spec() -> bool {
        true
    }

    /// Two creators are equal exactly if they stand for the same value.
    open spec fn eq_spec(&self, other: &Creator) -> bool {
        self@ == other@
    }
}

impl Eq for Creator {

}

/// The object names a person: it has one of the two members of a person's name.
pub open spec fn has_person_name(object: Map<Seq<char>, JsonModel>) -> bool {
    object.contains_key(FIRST_NAME@) || object.contains_key(LAST_NAME@)
}

/// The object names an organization: it has the single name member.
pub open spec fn has_single_name(object: Map<Seq<char>, JsonModel>) -> bool {
    object.contains_key(NAME@)
}

impl Wire for Creator {
    /// | field        | wire name     | presence rule                       |
    /// |--------------|---------------|-------------------------------------|
    /// | creator_type | `creatorType` | always present                      |
    /// | first_name   | `firstName`   | always present in a person's name   |
    /// | last_name    | `lastName`    | always present in a person's name   |
    /// | name         | `name`        | always present in a single name     |
    ///
    /// The members present select the variant: one of `firstName` and
    /// `lastName` a person, whose missing half is empty; `name` an
    /// organization; neither the unnamed creator. Both kinds together are a
    /// mismatch at the creator itself, which is reported after a mismatch in
    /// `creatorType` and before one in a name member.
    open spec fn decoded(json: JsonModel) -> Result<CreatorModel, PathModel> {
        match json {
            JsonModel::Object(object) => {
                let creator_type = text_of(object, CREATOR_TYPE@, PresenceModel::Always);
                let first_name = text_of(object, FIRST_NAME@, PresenceModel::Always);
                let last_name = text_of(object, LAST_NAME@, PresenceModel::Always);
                let name = text_of(object, NAME@, PresenceModel::Always);
                if creator_type is Err {
                    Err(creator_type->Err_0)
                } else if has_person_name(object) && has_single_name(object) {
                    Err(Seq::empty())
                } else if has_person_name(object) {
                    if first_name is Err {
                        Err(first_name->Err_0)
                    } else if last_name is Err {
                        Err(last_name->Err_0)
                    } else {
                        Ok(
                            CreatorModel {
                                creator_type: creator_type->Ok_0,
                                name: CreatorNameModel::Person {
                                    first_name: first_name->Ok_0,
                                    last_name: last_name->Ok_0,
                                },
                            },
                        )
                    }
                } else if has_single_name(object) {
                    if name is Err {
                        Err(name->Err_0)
                    } else {
                        Ok(
                            CreatorModel {
                                creator_type: creator_type->Ok_0,
                                name: CreatorNameModel::Organization { name: name->Ok_0 },
                            },
                        )
                    }
                } else {
                    Ok(
                        CreatorModel {
                            creator_type: creator_type->Ok_0,
                            name: CreatorNameModel::Unnamed,
                        },
                    )
                }
            },
            _ => Err(Seq::empty()),
        }
    }

    open spec fn encoded(value: CreatorModel) -> JsonModel {
        let role = put_text(Map::empty(), CREATOR_TYPE@, PresenceModel::Always, value.creator_type);
        JsonModel::Object(
            match value.name {
                CreatorNameModel::Person { first_name, last_name } => put_text(
                    put_text(role, FIRST_NAME@, PresenceModel::Always, first_name),
                    LAST_NAME@,
                    PresenceModel::Always,
                    last_name,
                ),
                CreatorNameModel::Organization { name } => put_text(
                    role,
                    NAME@,
                    PresenceModel::Always,
                    name,
                ),
                CreatorNameModel::Unnamed => role,
            },
        )
    }

    fn decode(json: &Json) -> (r: Result<Creator, SchemaMismatch>) {
        match json {
            Json::Object(members) => {
                let creator_type = match read_text(members, CREATOR_TYPE, Presence::Always) {
                    Ok(text) => text,
                    Err(e) => { return Err(e); },
                };
                let person = find(members, FIRST_NAME).is_some() || find(
                    members,
                    LAST_NAME,
                ).is_some();
                let single = find(members, NAME).is_some();
                if person && single {
                    Err(SchemaMismatch::at_root())
                } else if person {
                    let first_name = match read_text(members, FIRST_NAME, Presence::Always) {
                        Ok(text) => text,
                        Err(e) => { return Err(e); },
                    };
                    let last_name = match read_text(members, LAST_NAME, Presence::Always) {
                        Ok(text) => text,
                        Err(e) => { return Err(e); },
                    };
                    Ok(Creator { creator_type, name: CreatorName::Person { first_name, last_name } })
                } else if single {
                    let name = match read_text(members, NAME, Presence::Always) {
                        Ok(text) => text,
                        Err(e) => { return Err(e); },
                    };
                    Ok(Creator { creator_type, name: CreatorName::Organization { name } })
                } else {
                    Ok(Creator { creator_type, name: CreatorName::Unnamed })
                }
            },
            _ => Err(SchemaMismatch::at_root()),
        }
    }

    fn encode(&self) -> (json: Json) {
        let mut members = new_object();
        write_text(&mut members, CREATOR_TYPE, Presence::Always, &self.creator_type);
        match &self.name {
            CreatorName::Person { first_name, last_name } => {
                write_text(&mut members, FIRST_NAME, Presence::Always, first_name);
                write_text(&mut members, LAST_NAME, Presence::Always, last_name);
            },
            CreatorName::Organization { name } => {
                write_text(&mut members, NAME, Presence::Always, name);
            },
            CreatorName::Unnamed => {},
        }
        Json::Object(members)
    }
}

/// The member names of a creator on the wire.
pub open spec fn creator_names() -> Set<Seq<char>> {
    set![CREATOR_TYPE@, FIRST_NAME@, LAST_NAME@, NAME@]
}

/// The member names of a creator differ from one another.
pub proof fn lemma_creator_names()
    ensures
        CREATOR_TYPE@.len() == 11,
        FIRST_NAME@.len() == 9,
        LAST_NAME@.len() == 8,
        NAME@.len() == 4,
{
    reveal_strlit("creatorType");
    reveal_strlit("firstName");
    reveal_strlit("lastName");
    reveal_strlit("name");
}

/// The JSON value has the form in which a creator is written: an object with
/// the role, with both halves of a person's name or neither, and with no
/// member that a creator does not have.
pub open spec fn creator_in_wire_form(json: JsonModel) -> bool {
    &&& json is Object
    &&& json->Object_0.contains_key(CREATOR_TYPE@)
    &&& json->Object_0.contains_key(FIRST_NAME@) <==> json->Object_0.contains_key(LAST_NAME@)
    &&& forall|name: Seq<char>| #[trigger]
        json->Object_0.contains_key(name) ==> creator_names().contains(name)
}

/// A creator is read back as it was written.
pub proof fn lemma_creator_decode_encode(creator: CreatorModel)
    ensures
        Creator::decoded(Creator::encoded(creator)) == Ok::<CreatorModel, PathModel>(creator),
        creator_in_wire_form(Creator::encoded(creator)),
{
    lemma_creator_names();
    let object = Creator::encoded(creator)->Object_0;
    assert(object.contains_key(CREATOR_TYPE@) && object[CREATOR_TYPE@] == JsonModel::Text(
        creator.creator_type,
    ));
    match creator.name {
        CreatorNameModel::Person { first_name, last_name } => {
            assert(object.contains_key(FIRST_NAME@) && object[FIRST_NAME@] == JsonModel::Text(
                first_name,
            ));
            assert(object.contains_key(LAST_NAME@) && object[LAST_NAME@] == JsonModel::Text(
                last_name,
            ));
            assert(!object.contains_key(NAME@));
        },
        CreatorNameModel::Organization { name } => {
            assert(object.contains_key(NAME@) && object[NAME@] == JsonModel::Text(name));
            assert(!object.contains_key(FIRST_NAME@));
            assert(!object.contains_key(LAST_NAME@));
        },
        CreatorNameModel::Unnamed => {
            assert(!object.contains_key(NAME@));
            assert(!object.contains_key(FIRST_NAME@));
            assert(!object.contains_key(LAST_NAME@));
        },
    }
}

/// A JSON value in the wire form of a creator that decodes is written back as
/// it was read.
pub proof fn lemma_creator_encode_decode(json: JsonModel)
    requires
        Creator::decoded(json) is Ok,
        creator_in_wire_form(json),
    ensures
        Creator::encoded(Creator::decoded(json)->Ok_0) == json,
{
    lemma_creator_names();
    let object = json->Object_0;
    let written = Creator::encoded(Creator::decoded(json)->Ok_0)->Object_0;
    assert forall|name: Seq<char>| written.contains_key(name) <==> object.contains_key(name) by {
        if object.contains_key(name) {
            assert(creator_names().contains(name));
        }
    }
    assert(written =~= object);
}

/// A member that a creator does not have changes nothing in what is decoded.
pub proof fn lemma_creator_ignores_unknown(object: Map<Seq<char>, JsonModel>, name: Seq<char>)
    requires
        !creator_names().contains(name),
    ensures
        Creator::decoded(JsonModel::Object(object.remove(name))) == Creator::decoded(
            JsonModel::Object(object),
        ),
{
}

} // verus!
