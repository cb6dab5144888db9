//! The rules by which a field appears on the wire, and the routines that read
//! and write one field by its rule. Every record type is decoded and encoded
//! through these, so each rule is stated once.

use crate::error::{PathModel, PathStepModel, SchemaMismatch};
use crate::json::{
    find, items_model, lemma_items_model, lemma_items_step, lemma_members_agree,
    lemma_members_step, list_model, object_model, Json, JsonModel, Member,
};
use vstd::prelude::*;

verus! {

/// The presence rule of a text field, as contracts speak of it.
pub enum PresenceModel {
    Always,
    OmitIfEmpty,
    DefaultIfAbsent(Seq<char>),
}

/// When a text field is written, and what it is read as where the wire lacks it.
#[derive(Debug, Clone, Copy)]
pub enum Presence {
    /// Written even when empty; read as empty when absent.
    Always,
    /// Written only when not empty; read as empty when absent.
    OmitIfEmpty,
    /// Always written; read as the given text when absent.
    DefaultIfAbsent(&'static str),
}

impl View for Presence {
    type V = PresenceModel;

    open spec fn view(&self) -> PresenceModel {
        match self {
            Presence::Always => PresenceModel::Always,
            Presence::OmitIfEmpty => PresenceModel::OmitIfEmpty,
            Presence::DefaultIfAbsent(fallback) => PresenceModel::DefaultIfAbsent(fallback@),
        }
    }
}

/// The text that a field is read as when the wire lacks it.
pub open spec fn absent_text(presence: PresenceModel) -> Seq<char> {
    match presence {
        PresenceModel::DefaultIfAbsent(fallback) => fallback,
        _ => Seq::empty(),
    }
}

/// What reading the text field `name` of an object gives: the rule's text
/// where the member is absent, the member's text where it is a string, and a
/// mismatch at `name` for any other value.
pub open spec fn text_of(
    object: Map<Seq<char>, JsonModel>,
    name: Seq<char>,
    presence: PresenceModel,
) -> Result<Seq<char>, PathModel> {
    if !object.contains_key(name) {
        Ok(absent_text(presence))
    } else {
        match object[name] {
            JsonModel::Text(text) => Ok(text),
            _ => Err(seq![PathStepModel::Key(name)]),
        }
    }
}

/// The object after the text field `name` was written by its rule.
pub open spec fn put_text(
    object: Map<Seq<char>, JsonModel>,
    name: Seq<char>,
    presence: PresenceModel,
    text: Seq<char>,
) -> Map<Seq<char>, JsonModel> {
    if presence is OmitIfEmpty && text.len() == 0 {
        object
    } else {
        object.insert(name, JsonModel::Text(text))
    }
}

/// What reading the optional integer field `name` of an object gives.
pub open spec fn int_of(object: Map<Seq<char>, JsonModel>, name: Seq<char>) -> Result<
    Option<int>,
    PathModel,
> {
    if !object.contains_key(name) {
        Ok(None)
    } else {
        match object[name] {
            JsonModel::Int(n) => Ok(Some(n)),
            _ => Err(seq![PathStepModel::Key(name)]),
        }
    }
}

/// The object after the optional integer field `name` was written: the member
/// is left out where there is no number.
pub open spec fn put_int(object: Map<Seq<char>, JsonModel>, name: Seq<char>, value: Option<int>) -> Map<
    Seq<char>,
    JsonModel,
> {
    match value {
        Some(n) => object.insert(name, JsonModel::Int(n)),
        None => object,
    }
}

/// The result of a decoding step as contracts speak of it.
pub open spec fn outcome<T: View>(r: Result<T, SchemaMismatch>) -> Result<T::V, PathModel> {
    match r {
        Ok(value) => Ok(value@),
        Err(e) => Err(e@),
    }
}

/// The values that a sequence of records stands for, in order.
pub open spec fn values_model<T: View>(values: Seq<T>) -> Seq<T::V> {
    values.map_values(|value: T| value@)
}

/// Two sequences of records stand for the same values exactly if they are
/// equally long and stand for the same value at each place.
pub proof fn lemma_values_equal<T: View>(a: Seq<T>, b: Seq<T>)
    ensures
        values_model(a) == values_model(b) <==> a.len() == b.len() && forall|i: int|
            0 <= i < a.len() ==> (#[trigger] a[i])@ == b[i]@,
{
    if values_model(a) == values_model(b) {
        assert(values_model(a).len() == values_model(b).len());
        assert forall|i: int| 0 <= i < a.len() implies (#[trigger] a[i])@ == b[i]@ by {
            assert(values_model(a)[i] == values_model(b)[i]);
        }
    }
    if a.len() == b.len() && forall|i: int| 0 <= i < a.len() ==> (#[trigger] a[i])@ == b[i]@ {
        assert(values_model(a) =~= values_model(b));
    }
}

/// The result of decoding a list as contracts speak of it.
pub open spec fn list_outcome<T: View>(r: Result<Vec<T>, SchemaMismatch>) -> Result<
    Seq<T::V>,
    PathModel,
> {
    match r {
        Ok(values) => Ok(values_model(values@)),
        Err(e) => Err(e@),
    }
}

/// An optional machine integer as contracts speak of it.
pub open spec fn int_model(value: Option<i64>) -> Option<int> {
    match value {
        Some(n) => Some(n as int),
        None => None,
    }
}

/// The result of reading an optional integer as contracts speak of it.
pub open spec fn int_outcome(r: Result<Option<i64>, SchemaMismatch>) -> Result<
    Option<int>,
    PathModel,
> {
    match r {
        Ok(value) => Ok(int_model(value)),
        Err(e) => Err(e@),
    }
}

/// A type with a wire form. `decoded` and `encoded` say what the wire form
/// means; `decode` and `encode` compute it.
pub trait Wire: View + Sized {
    /// The value that a JSON value decodes to, or the path of the first
    /// mismatch.
    spec fn decoded(json: JsonModel) -> Result<Self::V, PathModel>;

    /// The JSON value that a value is written as.
    spec fn encoded(value: Self::V) -> JsonModel;

    fn decode(json: &Json) -> (r: Result<Self, SchemaMismatch>)
        ensures
            outcome(r) == Self::decoded(json@),
    ;

    fn encode(&self) -> (json: Json)
        ensures
            json@ == Self::encoded(self@),
    ;
}

/// What decoding the elements of an array gives: the decoded elements in
/// order, or the first mismatch under the index of its element.
pub open spec fn decoded_list<T: Wire>(items: Seq<JsonModel>) -> Result<Seq<T::V>, PathModel>
    decreases items.len(),
{
    if items.len() == 0 {
        Ok(Seq::empty())
    } else {
        match decoded_list::<T>(items.drop_last()) {
            Err(path) => Err(path),
            Ok(front) => match T::decoded(items.last()) {
                Err(path) => Err(seq![PathStepModel::Index(items.len() - 1)] + path),
                Ok(value) => Ok(front.push(value)),
            },
        }
    }
}

/// The array that a sequence of values is written as.
pub open spec fn encoded_list<T: Wire>(values: Seq<T::V>) -> Seq<JsonModel> {
    values.map_values(|value: T::V| T::encoded(value))
}

/// What reading the list field `name` of an object gives: no elements where
/// the member is absent, a mismatch at `name` where it is no array, and else
/// what decoding its elements gives, a mismatch put under `name`.
pub open spec fn list_of<T: Wire>(object: Map<Seq<char>, JsonModel>, name: Seq<char>) -> Result<
    Seq<T::V>,
    PathModel,
> {
    if !object.contains_key(name) {
        Ok(Seq::empty())
    } else {
        match object[name] {
            JsonModel::List(items) => match decoded_list::<T>(items) {
                Ok(values) => Ok(values),
                Err(path) => Err(seq![PathStepModel::Key(name)] + path),
            },
            _ => Err(seq![PathStepModel::Key(name)]),
        }
    }
}

/// The object after the list field `name` was written: always present.
pub open spec fn put_list<T: Wire>(
    object: Map<Seq<char>, JsonModel>,
    name: Seq<char>,
    values: Seq<T::V>,
) -> Map<Seq<char>, JsonModel> {
    object.insert(name, JsonModel::List(encoded_list::<T>(values)))
}

/// A mismatch among the first elements is the mismatch of the whole array.
pub proof fn lemma_decoded_list_fault<T: Wire>(items: Seq<JsonModel>, n: int)
    requires
        0 <= n <= items.len(),
        decoded_list::<T>(items.take(n)) is Err,
    ensures
        decoded_list::<T>(items) == decoded_list::<T>(items.take(n)),
    decreases items.len(),
{
    if n < items.len() {
        assert(items.drop_last().take(n) =~= items.take(n));
        lemma_decoded_list_fault::<T>(items.drop_last(), n);
    } else {
        assert(items.take(n) =~= items);
    }
}

/// An array decodes exactly if each of its elements does, and then element by
/// element: as many values as elements, in the order of the elements.
pub proof fn lemma_decoded_list_elements<T: Wire>(items: Seq<JsonModel>)
    ensures
        decoded_list::<T>(items) is Ok <==> forall|i: int|
            0 <= i < items.len() ==> T::decoded(#[trigger] items[i]) is Ok,
        decoded_list::<T>(items) is Ok ==> decoded_list::<T>(items)->Ok_0.len() == items.len(),
        decoded_list::<T>(items) is Ok ==> forall|i: int|
            0 <= i < items.len() ==> T::decoded(#[trigger] items[i]) == Ok::<T::V, PathModel>(
                decoded_list::<T>(items)->Ok_0[i],
            ),
    decreases items.len(),
{
    if items.len() > 0 {
        let front = items.drop_last();
        lemma_decoded_list_elements::<T>(front);
        assert(items[items.len() - 1] == items.last());
        assert forall|i: int| 0 <= i < front.len() implies front[i] == items[i] by {}
        if decoded_list::<T>(items) is Ok {
            assert forall|i: int| 0 <= i < items.len() implies T::decoded(#[trigger] items[i])
                is Ok by {
                if i < front.len() {
                    assert(front[i] == items[i]);
                }
            }
        }
        if forall|i: int| 0 <= i < items.len() ==> T::decoded(#[trigger] items[i]) is Ok {
            assert forall|i: int| 0 <= i < front.len() implies T::decoded(#[trigger] front[i])
                is Ok by {
                assert(front[i] == items[i]);
            }
        }
    }
}

/// The mismatch of an array is that of its first element that has one, under
/// the index of that element.
pub proof fn lemma_decoded_list_first_fault<T: Wire>(items: Seq<JsonModel>, first: int)
    requires
        0 <= first < items.len(),
        T::decoded(items[first]) is Err,
        forall|i: int| 0 <= i < first ==> T::decoded(#[trigger] items[i]) is Ok,
    ensures
        decoded_list::<T>(items) == Err::<Seq<T::V>, PathModel>(
            seq![PathStepModel::Index(first)] + T::decoded(items[first])->Err_0,
        ),
{
    let upto = items.take(first + 1);
    assert(upto.drop_last() =~= items.take(first));
    assert(upto.last() == items[first]);
    assert forall|i: int| 0 <= i < first implies T::decoded(#[trigger] items.take(first)[i])
        is Ok by {
        assert(items.take(first)[i] == items[i]);
    }
    lemma_decoded_list_elements::<T>(items.take(first));
    lemma_decoded_list_fault::<T>(items, first + 1);
}

/// A list is read back as it was written where each of its values is.
pub proof fn lemma_list_decode_encode<T: Wire>(values: Seq<T::V>)
    requires
        forall|i: int|
            0 <= i < values.len() ==> T::decoded(T::encoded(#[trigger] values[i])) == Ok::<
                T::V,
                PathModel,
            >(values[i]),
    ensures
        decoded_list::<T>(encoded_list::<T>(values)) == Ok::<Seq<T::V>, PathModel>(values),
    decreases values.len(),
{
    let items = encoded_list::<T>(values);
    if values.len() > 0 {
        assert(items.drop_last() =~= encoded_list::<T>(values.drop_last()));
        assert(items.last() == T::encoded(values.last()));
        lemma_list_decode_encode::<T>(values.drop_last());
        assert(values.drop_last().push(values.last()) =~= values);
    } else {
        assert(values =~= Seq::<T::V>::empty());
    }
}

/// A list is written back as it was read where each of its elements is.
pub proof fn lemma_list_encode_decode<T: Wire>(items: Seq<JsonModel>)
    requires
        decoded_list::<T>(items) is Ok,
        forall|i: int|
            0 <= i < items.len() && T::decoded(#[trigger] items[i]) is Ok ==> T::encoded(
                T::decoded(items[i])->Ok_0,
            ) == items[i],
    ensures
        encoded_list::<T>(decoded_list::<T>(items)->Ok_0) == items,
{
    lemma_decoded_list_elements::<T>(items);
    let values = decoded_list::<T>(items)->Ok_0;
    assert forall|i: int| 0 <= i < items.len() implies encoded_list::<T>(values)[i]
        == items[i] by {
        assert(T::decoded(items[i]) == Ok::<T::V, PathModel>(values[i]));
    }
    assert(encoded_list::<T>(values) =~= items);
}

/// An object under construction, with no member yet.
pub fn new_object() -> (out: Vec<Member>)
    ensures
        object_model(&out) == Map::<Seq<char>, JsonModel>::empty(),
{
    Vec::new()
}

/// Appends one member to an object under construction.
pub fn put_member(out: &mut Vec<Member>, name: &str, value: Json)
    ensures
        object_model(final(out)) == object_model(old(out)).insert(name@, value@),
{
    let ghost before = *out;
    out.push(Member { name: name.to_owned(), value });
    proof {
        lemma_members_step(out, out.len() as nat);
        lemma_members_agree(&before, out, before.len() as nat);
    }
}

/// Reads the text field `name` by its rule.
pub fn read_text(members: &Vec<Member>, name: &str, presence: Presence) -> (r: Result<
    String,
    SchemaMismatch,
>)
    ensures
        outcome(r) == text_of(object_model(members), name@, presence@),
{
    match find(members, name) {
        None => match presence {
            Presence::DefaultIfAbsent(fallback) => Ok(fallback.to_owned()),
            _ => Ok(String::new()),
        },
        Some(Json::Text(text)) => Ok(text.clone()),
        Some(_) => Err(SchemaMismatch::at_key(name)),
    }
}

/// Writes the text field `name` by its rule.
pub fn write_text(out: &mut Vec<Member>, name: &str, presence: Presence, text: &String)
    ensures
        object_model(final(out)) == put_text(object_model(old(out)), name@, presence@, text@),
{
    let omit = match presence {
        Presence::OmitIfEmpty => text.as_str().is_empty(),
        _ => false,
    };
    if !omit {
        put_member(out, name, Json::Text(text.clone()));
    }
}

/// Reads the optional integer field `name`.
pub fn read_int(members: &Vec<Member>, name: &str) -> (r: Result<Option<i64>, SchemaMismatch>)
    ensures
        int_outcome(r) == int_of(object_model(members), name@),
{
    match find(members, name) {
        None => Ok(None),
        Some(Json::Int(n)) => Ok(Some(*n)),
        Some(_) => Err(SchemaMismatch::at_key(name)),
    }
}

/// Writes the optional integer field `name`.
pub fn write_int(out: &mut Vec<Member>, name: &str, value: Option<i64>)
    ensures
        object_model(final(out)) == put_int(object_model(old(out)), name@, int_model(value)),
{
    match value {
        Some(n) => put_member(out, name, Json::Int(n)),
        None => {},
    }
}

/// Decodes the elements of an array in order and stops at the first mismatch.
pub fn decode_list<T: Wire>(items: &Vec<Json>) -> (r: Result<Vec<T>, SchemaMismatch>)
    ensures
        list_outcome(r) == decoded_list::<T>(list_model(items)),
{
    let mut out: Vec<T> = Vec::new();
    let mut i: usize = 0;
    proof {
        assert(items_model(items, 0) =~= Seq::<JsonModel>::empty());
        assert(values_model(out@) =~= Seq::<T::V>::empty());
    }
    while i < items.len()
        invariant
            i <= items.len(),
            decoded_list::<T>(items_model(items, i as nat)) == Ok::<Seq<T::V>, PathModel>(
                values_model(out@),
            ),
        decreases items.len() - i,
    {
        let ghost front = items_model(items, i as nat);
        let ghost next = items_model(items, (i + 1) as nat);
        proof {
            lemma_items_step(items, (i + 1) as nat);
            assert(next.drop_last() =~= front);
            assert(next.last() == items[i as int]@);
        }
        match T::decode(&items[i]) {
            Ok(value) => {
                proof {
                    assert(values_model(out@.push(value)) =~= values_model(out@).push(value@));
                }
                out.push(value);
            },
            Err(e) => {
                proof {
                    lemma_items_model(items, items.len() as nat);
                    lemma_items_model(items, (i + 1) as nat);
                    assert(list_model(items).take(i + 1) =~= next);
                    lemma_decoded_list_fault::<T>(list_model(items), i + 1);
                }
                return Err(e.under_index(i));
            },
        }
        i += 1;
    }
    Ok(out)
}

/// Encodes the values of a list in order.
pub fn encode_list<T: Wire>(values: &Vec<T>) -> (json: Json)
    ensures
        json@ == JsonModel::List(encoded_list::<T>(values_model(values@))),
{
    let mut items: Vec<Json> = Vec::new();
    let mut i: usize = 0;
    while i < values.len()
        invariant
            i <= values.len(),
            items.len() == i,
            forall|k: int| 0 <= k < i ==> #[trigger] items[k]@ == T::encoded(values[k]@),
        decreases values.len() - i,
    {
        items.push(values[i].encode());
        i += 1;
    }
    proof {
        lemma_items_model(&items, items.len() as nat);
        assert(list_model(&items) =~= encoded_list::<T>(values_model(values@)));
    }
    Json::List(items)
}

/// Reads the list field `name`.
pub fn read_list<T: Wire>(members: &Vec<Member>, name: &str) -> (r: Result<Vec<T>, SchemaMismatch>)
    ensures
        list_outcome(r) == list_of::<T>(object_model(members), name@),
{
    match find(members, name) {
        None => {
            let values: Vec<T> = Vec::new();
            assert(values_model(values@) =~= Seq::<T::V>::empty());
            Ok(values)
        },
        Some(Json::List(items)) => match decode_list::<T>(items) {
            Ok(values) => Ok(values),
            Err(e) => Err(e.under_key(name)),
        },
        Some(_) => Err(SchemaMismatch::at_key(name)),
    }
}

/// Writes the list field `name`, also where the list is empty.
pub fn write_list<T: Wire>(out: &mut Vec<Member>, name: &str, values: &Vec<T>)
    ensures
        object_model(final(out)) == put_list::<T>(
            object_model(old(out)),
            name@,
            values_model(values@),
        ),
{
    put_member(out, name, encode_list::<T>(values));
}

} // verus!
