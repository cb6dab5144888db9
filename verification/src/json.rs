//! A JSON value as the codec reads and writes it.

use vstd::prelude::*;

verus! {

/// The mathematical value of a JSON document. An object is a map from member
/// names to values, so the order of its members is not part of the value.
pub enum JsonModel {
    Null,
    Bool(bool),
    Int(int),
    Real(Seq<char>),
    Text(Seq<char>),
    List(Seq<JsonModel>),
    Object(Map<Seq<char>, JsonModel>),
}

/// One member of a JSON object.
#[derive(Debug, PartialEq, Eq)]
pub struct Member {
    pub name: String,
    pub value: Json,
}

/// A JSON value held in memory. An object keeps its members in the order in
/// which they were given, and `==` compares them in that order; contracts
/// speak of the view, in which the order of members plays no part.
#[derive(Debug, PartialEq, Eq)]
pub enum Json {
    Null,
    Bool(bool),
    /// A number that fits a signed 64-bit integer.
    Int(i64),
    /// Any other number, kept as its literal text.
    Real(String),
    Text(String),
    List(Vec<Json>),
    Object(Vec<Member>),
}

/// The values of the first `n` items, in order.
pub open spec fn items_model(items: &Vec<Json>, n: nat) -> Seq<JsonModel>
    decreases items, n,
{
    if n == 0 || n > items.len() {
        Seq::empty()
    } else {
        items_model(items, (n - 1) as nat).push(items[n - 1].view())
    }
}

/// The map that the first `n` members describe. Where a name occurs twice,
/// the later member counts.
pub open spec fn members_model(members: &Vec<Member>, n: nat) -> Map<Seq<char>, JsonModel>
    decreases members, n,
{
    if n == 0 || n > members.len() {
        Map::empty()
    } else {
        members_model(members, (n - 1) as nat).insert(
            members[n - 1].name@,
            members[n - 1].value.view(),
        )
    }
}

impl View for Json {
    type V = JsonModel;

    open spec fn view(&self) -> JsonModel
        decreases self, 0nat,
    {
        match self {
            Json::Null => JsonModel::Null,
            Json::Bool(b) => JsonModel::Bool(*b),
            Json::Int(n) => JsonModel::Int(*n as int),
            Json::Real(s) => JsonModel::Real(s@),
            Json::Text(s) => JsonModel::Text(s@),
            Json::List(items) => JsonModel::List(items_model(items, items.len() as nat)),
            Json::Object(members) => JsonModel::Object(
                members_model(members, members.len() as nat),
            ),
        }
    }
}

impl JsonModel {
    /// The member `name` of an object; `None` where there is none, and for a
    /// value that is no object.
    pub open spec fn member(self, name: Seq<char>) -> Option<JsonModel> {
        match self {
            JsonModel::Object(members) => if members.contains_key(name) {
                Some(members[name])
            } else {
                None
            },
            _ => None,
        }
    }
}

/// The map that all of `members` describe.
pub open spec fn object_model(members: &Vec<Member>) -> Map<Seq<char>, JsonModel> {
    members_model(members, members.len() as nat)
}

/// The values of all of `items`, in order.
pub open spec fn list_model(items: &Vec<Json>) -> Seq<JsonModel> {
    items_model(items, items.len() as nat)
}

/// One more item adds its value at the end.
pub proof fn lemma_items_step(items: &Vec<Json>, n: nat)
    requires
        0 < n <= items.len(),
    ensures
        items_model(items, n) == items_model(items, (n - 1) as nat).push(items[n - 1]@),
{
    assert(items_model(items, n) == items_model(items, (n - 1) as nat).push(
        items[n - 1].view(),
    ));
}

/// One more member sets its name to its value.
pub proof fn lemma_members_step(members: &Vec<Member>, n: nat)
    requires
        0 < n <= members.len(),
    ensures
        members_model(members, n) == members_model(members, (n - 1) as nat).insert(
            members[n - 1].name@,
            members[n - 1].value@,
        ),
{
    assert(members_model(members, n) == members_model(members, (n - 1) as nat).insert(
        members[n - 1].name@,
        members[n - 1].value.view(),
    ));
}

/// `items_model` keeps length and order.
pub proof fn lemma_items_model(items: &Vec<Json>, n: nat)
    requires
        n <= items.len(),
    ensures
        items_model(items, n).len() == n,
        forall|i: int| 0 <= i < n ==> #[trigger] items_model(items, n)[i] == items[i]@,
    decreases n,
{
    if n > 0 {
        lemma_items_model(items, (n - 1) as nat);
        lemma_items_step(items, n);
    }
}

/// A name is in the map exactly if one of the members bears it.
pub proof fn lemma_members_domain(members: &Vec<Member>, n: nat, name: Seq<char>)
    requires
        n <= members.len(),
    ensures
        members_model(members, n).contains_key(name) <==> exists|k: int|
            0 <= k < n && #[trigger] members[k].name@ == name,
    decreases n,
{
    if n > 0 {
        lemma_members_domain(members, (n - 1) as nat, name);
        lemma_members_step(members, n);
        if members[n - 1].name@ == name {
            assert(0 <= n - 1 < n && members[n - 1].name@ == name);
        }
    }
}

/// The last member that bears a name gives the name its value.
pub proof fn lemma_members_last_wins(members: &Vec<Member>, n: nat, i: int, name: Seq<char>)
    requires
        0 <= i < n <= members.len(),
        members[i].name@ == name,
        forall|k: int| i < k < n ==> #[trigger] members[k].name@ != name,
    ensures
        members_model(members, n).contains_key(name),
        members_model(members, n)[name] == members[i].value@,
    decreases n,
{
    lemma_members_step(members, n);
    if i < n - 1 {
        lemma_members_last_wins(members, (n - 1) as nat, i, name);
    }
}

/// Members that agree in names and values up to `n` describe the same map up
/// to `n`.
pub proof fn lemma_members_agree(a: &Vec<Member>, b: &Vec<Member>, n: nat)
    requires
        n <= a.len(),
        n <= b.len(),
        forall|i: int| 0 <= i < n ==> a[i].name@ == b[i].name@ && a[i].value@ == b[i].value@,
    ensures
        members_model(a, n) == members_model(b, n),
    decreases n,
{
    if n > 0 {
        lemma_members_agree(a, b, (n - 1) as nat);
        lemma_members_step(a, n);
        lemma_members_step(b, n);
    }
}

/// Looks `name` up among the members of an object.
pub fn find<'a>(members: &'a Vec<Member>, name: &str) -> (found: Option<&'a Json>)
    ensures
        found matches Some(value) ==> object_model(members).contains_key(name@)
            && object_model(members)[name@] == value@,
        found is None ==> !object_model(members).contains_key(name@),
{
    let key = name.to_owned();
    let mut i: usize = members.len();
    while i > 0
        invariant
            i <= members.len(),
            key@ == name@,
            forall|k: int| i <= k < members.len() ==> #[trigger] members[k].name@ != name@,
        decreases i,
    {
        i -= 1;
        if members[i].name == key {
            proof {
                lemma_members_last_wins(members, members.len() as nat, i as int, name@);
            }
            return Some(&members[i].value);
        }
    }
    proof {
        lemma_members_domain(members, members.len() as nat, name@);
    }
    None
}

impl Clone for Json {
    fn clone(&self) -> (copy: Json)
        ensures
            copy@ == self@,
        decreases self,
    {
        match self {
            Json::Null => Json::Null,
            Json::Bool(flag) => Json::Bool(*flag),
            Json::Int(n) => Json::Int(*n),
            Json::Real(text) => Json::Real(text.clone()),
            Json::Text(text) => Json::Text(text.clone()),
            Json::List(items) => {
                let mut copies: Vec<Json> = Vec::new();
                let mut i: usize = 0;
                while i < items.len()
                    invariant
                        i <= items.len(),
                        copies.len() == i,
                        self is List,
                        self->List_0 == *items,
                        forall|k: int| 0 <= k < i ==> copies[k]@ == items[k]@,
                    decreases items.len() - i,
                {
                    proof {
                        assert(decreases_to!(*self => self->List_0));
                        assert(decreases_to!(*items => items[i as int]));
                    }
                    copies.push(items[i].clone());
                    i += 1;
                }
                proof {
                    lemma_items_model(items, items.len() as nat);
                    lemma_items_model(&copies, copies.len() as nat);
                    assert(list_model(&copies) =~= list_model(items));
                }
                Json::List(copies)
            },
            Json::Object(members) => {
                let mut copies: Vec<Member> = Vec::new();
                let mut i: usize = 0;
                while i < members.len()
                    invariant
                        i <= members.len(),
                        copies.len() == i,
                        self is Object,
                        self->Object_0 == *members,
                        forall|k: int|
                            0 <= k < i ==> copies[k].name@ == members[k].name@ && copies[k].value@
                                == members[k].value@,
                    decreases members.len() - i,
                {
                    proof {
                        assert(decreases_to!(*self => self->Object_0));
                        assert(decreases_to!(*members => members[i as int]));
                        assert(decreases_to!(members[i as int] => members[i as int].value));
                    }
                    copies.push(
                        Member { name: members[i].name.clone(), value: members[i].value.clone() },
                    );
                    i += 1;
                }
                proof {
                    lemma_members_agree(&copies, members, members.len() as nat);
                }
                Json::Object(copies)
            },
        }
    }
}

impl Clone for Member {
    fn clone(&self) -> (copy: Member)
        ensures
            copy.name@ == self.name@,
            copy.value@ == self.value@,
    {
        Member { name: self.name.clone(), value: self.value.clone() }
    }
}

impl Json {
    /// The member `name` of this value, where it is an object that has one.
    pub fn get(&self, name: &str) -> (found: Option<&Json>)
        ensures
            found matches Some(value) ==> self@.member(name@) == Some(value@),
            found is None ==> self@.member(name@) is None,
    {
        match self {
            Json::Object(members) => find(members, name),
            _ => None,
        }
    }
}

} // verus!
