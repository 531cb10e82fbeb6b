//! A JSON document as plain values.
use crate::scalar::Scalar;
use crate::text::same_text;
use vstd::prelude::*;

verus! {

/// A JSON value. The members of an object have distinct names.
pub enum Json {
    Null,
    Bool(bool),
    Number(Scalar),
    Text(String),
    Array(Vec<Json>),
    Object(Vec<Member>),
}

/// A member of an object.
pub struct Member {
    pub name: String,
    pub value: Json,
}

/// The value of the first member with this name.
pub open spec fn member(members: Seq<Member>, name: Seq<char>) -> Option<Json>
    decreases members.len(),
{
    if members.len() == 0 {
        None
    } else if members[0].name@ == name {
        Some(members[0].value)
    } else {
        member(members.skip(1), name)
    }
}

fn find_member<'a>(members: &'a Vec<Member>, name: &str) -> (r: Option<&'a Json>)
    ensures
        r is Some == member(members@, name@) is Some,
        r matches Some(value) ==> member(members@, name@) == Some(*value),
{
    let mut i: usize = 0;
    proof {
        assert(members@.skip(0) =~= members@);
    }
    while i < members.len()
        invariant
            i <= members.len(),
            member(members@, name@) == member(members@.skip(i as int), name@),
        decreases members.len() - i,
    {
        proof {
            assert(members@.skip(i as int).skip(1) =~= members@.skip(i + 1));
            assert(members@.skip(i as int)[0] == members@[i as int]);
        }
        if same_text(members[i].name.as_str(), name) {
            return Some(&members[i].value);
        }
        i = i + 1;
    }
    None
}

impl Json {
    /// The value of a member; `None` where there is none of this name or the value is no object.
    pub open spec fn field(self, name: Seq<char>) -> Option<Json> {
        match self {
            Json::Object(members) => member(members@, name),
            _ => None,
        }
    }

    /// The truth value of a member, if it has one.
    pub open spec fn bool_field(self, name: Seq<char>) -> Option<bool> {
        match self.field(name) {
            Some(Json::Bool(b)) => Some(b),
            _ => None,
        }
    }

    /// The text of a member, if it has one.
    pub open spec fn text_field(self, name: Seq<char>) -> Option<Seq<char>> {
        match self.field(name) {
            Some(Json::Text(t)) => Some(t@),
            _ => None,
        }
    }

    /// The elements of a member, if it is an array.
    pub open spec fn array_field(self, name: Seq<char>) -> Option<Seq<Json>> {
        match self.field(name) {
            Some(Json::Array(a)) => Some(a@),
            _ => None,
        }
    }

    /// The value of a member; `None` where there is none of this name or the value is no object.
    pub fn get(&self, name: &str) -> (r: Option<&Json>)
        ensures
            r is Some == self.field(name@) is Some,
            r matches Some(value) ==> self.field(name@) == Some(*value),
    {
        match self {
            Json::Object(members) => find_member(members, name),
            _ => None,
        }
    }

    /// The truth value of a member, if it has one.
    pub fn get_bool(&self, name: &str) -> (r: Option<bool>)
        ensures
            r == self.bool_field(name@),
    {
        match self.get(name) {
            Some(Json::Bool(b)) => Some(*b),
            _ => None,
        }
    }

    /// The text of a member, if it has one.
    pub fn get_text(&self, name: &str) -> (r: Option<&String>)
        ensures
            r is Some == self.text_field(name@) is Some,
            r matches Some(text) ==> self.text_field(name@) == Some(text@),
    {
        match self.get(name) {
            Some(Json::Text(t)) => Some(t),
            _ => None,
        }
    }

    /// The elements of a member, if it is an array.
    pub fn get_array(&self, name: &str) -> (r: Option<&Vec<Json>>)
        ensures
            r is Some == self.array_field(name@) is Some,
            r matches Some(elements) ==> self.array_field(name@) == Some(elements@),
    {
        match self.get(name) {
            Some(Json::Array(a)) => Some(a),
            _ => None,
        }
    }
}

/// The first member with a name is the one that is found, and none where no member has it; what is
/// no object has no members.
pub proof fn law_the_first_member_of_a_name_is_found(
    members: Seq<Member>,
    name: Seq<char>,
    at: int,
)
    requires
        0 <= at <= members.len(),
        forall|i: int| 0 <= i < at ==> (#[trigger] members[i]).name@ != name,
        at < members.len() ==> members[at].name@ == name,
    ensures
        at < members.len() ==> member(members, name) == Some(members[at].value),
        at == members.len() ==> member(members, name) is None,
    decreases members.len(),
{
    if at > 0 {
        let rest = members.skip(1);
        assert(members[0].name@ != name);
        assert forall|i: int| 0 <= i < at - 1 implies (#[trigger] rest[i]).name@ != name by {
            assert(rest[i] == members[i + 1]);
        }
        law_the_first_member_of_a_name_is_found(rest, name, at - 1);
    }
}

/// A member is read as a truth value, a text or an array exactly where it is one.
pub proof fn law_a_member_is_read_as_what_it_is(object: Json, name: Seq<char>)
    ensures
        !(object is Object) ==> object.field(name) is None,
        object matches Json::Object(members) ==> object.field(name) == member(members@, name),
        object.bool_field(name) is Some <==> (object.field(name) matches Some(v) && v is Bool),
        object.text_field(name) is Some <==> (object.field(name) matches Some(v) && v is Text),
        object.array_field(name) is Some <==> (object.field(name) matches Some(v) && v is Array),
        object.field(name) matches Some(Json::Bool(b)) ==> object.bool_field(name) == Some(b),
        object.field(name) matches Some(Json::Text(t)) ==> object.text_field(name) == Some(t@),
        object.field(name) matches Some(Json::Array(a)) ==> object.array_field(name) == Some(a@),
{
}

} // verus!
