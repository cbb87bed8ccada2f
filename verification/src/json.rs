//! JSON objects with scalar members, as text.

use vstd::prelude::*;

verus! {

/// `serde_json::Value`, which only this module's wrappers look into.
#[verifier::external_type_specification]
#[verifier::external_body]
pub struct ExValue(serde_json::Value);

/// `serde_json::Map`: the members of a JSON object.
#[verifier::external_type_specification]
#[verifier::external_body]
#[verifier::reject_recursive_types(K)]
#[verifier::reject_recursive_types(V)]
pub struct ExMap<K, V>(serde_json::Map<K, V>);

/// A scalar value of a member.
pub enum Scalar {
    Text(String),
    Number(u64),
    Flag(bool),
}

pub ghost enum ScalarModel {
    Text(Seq<char>),
    Number(u64),
    Flag(bool),
}

impl View for Scalar {
    type V = ScalarModel;

    open spec fn view(&self) -> ScalarModel {
        match self {
            Scalar::Text(s) => ScalarModel::Text(s@),
            Scalar::Number(n) => ScalarModel::Number(*n),
            Scalar::Flag(b) => ScalarModel::Flag(*b),
        }
    }
}

/// The members that an object holds, by name.
pub uninterp spec fn members(
    object: serde_json::Map<String, serde_json::Value>,
) -> Map<Seq<char>, ScalarModel>;

/// The compact text that `serde_json` writes for an object with these members.
pub uninterp spec fn object_text(members: Map<Seq<char>, ScalarModel>) -> Seq<char>;

pub open spec fn no_members() -> Map<Seq<char>, ScalarModel> {
    Map::empty()
}

/// `serde_json::Map::new`: an object without members.
#[verifier::external_body]
pub(crate) fn new_object() -> (res: serde_json::Map<String, serde_json::Value>)
    ensures
        members(res) == no_members(),
{
    serde_json::Map::new()
}

/// `serde_json::Map::insert`: sets one member, whether or not it was there, and keeps
/// the others. The value is a JSON string, a non-negative integer or a boolean.
#[verifier::external_body]
pub(crate) fn insert_member(
    object: &mut serde_json::Map<String, serde_json::Value>,
    name: String,
    value: Scalar,
)
    ensures
        members(*final(object)) == members(*old(object)).insert(name@, value@),
{
    let value = match value {
        Scalar::Text(s) => serde_json::Value::String(s),
        Scalar::Number(n) => serde_json::Value::from(n),
        Scalar::Flag(b) => serde_json::Value::Bool(b),
    };
    object.insert(name, value);
}

/// The `Display` text of a `serde_json::Value::Object`: compact JSON, a function of the
/// members alone, since the map keeps them ordered by name.
#[verifier::external_body]
pub(crate) fn object_to_string(
    object: serde_json::Map<String, serde_json::Value>,
) -> (res: String)
    ensures
        res@ == object_text(members(object)),
{
    serde_json::Value::Object(object).to_string()
}

} // verus!
