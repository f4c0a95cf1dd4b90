use vstd::prelude::*;

verus! {

#[verifier::external_type_specification]
#[verifier::external_body]
pub struct ExJsonValue(serde_json::Value);

#[verifier::external_type_specification]
#[verifier::external_body]
#[verifier::reject_recursive_types(K)]
#[verifier::reject_recursive_types(V)]
pub struct ExJsonMap<K, V>(serde_json::Map<K, V>);

#[verifier::external_type_specification]
#[verifier::external_body]
pub struct ExJsonError(serde_json::Error);

/// The attribute payload of a point: a JSON object.
pub type Attributes = serde_json::Map<String, serde_json::Value>;

/// Whether serde_json reads the text as one JSON object.
pub uninterp spec fn is_json_object_text(s: Seq<char>) -> bool;

/// The keys of the JSON object that a text holds.
pub uninterp spec fn json_object_keys(s: Seq<char>) -> Set<Seq<char>>;

/// The keys that an attribute object holds.
pub uninterp spec fn object_keys(m: serde_json::Map<String, serde_json::Value>) -> Set<Seq<char>>;

/// Relies on serde_json::Map::new: the new object holds no key.
pub assume_specification[ serde_json::Map::<String, serde_json::Value>::new ]() -> (r:
    serde_json::Map<String, serde_json::Value>)
    ensures
        object_keys(r) == Set::<Seq<char>>::empty(),
;

/// Relies on serde_json::from_str: whether the text parses as a JSON
/// object, and which keys that object has, depend on the text alone.
#[verifier::external_body]
fn parse_object(text: &str) -> (r: Result<Attributes, serde_json::Error>)
    ensures
        r is Ok <==> is_json_object_text(text@),
        r matches Ok(m) ==> object_keys(m) == json_object_keys(text@),
{
    serde_json::from_str::<Attributes>(text)
}

/// What to do with a payload that is not a JSON object.
#[derive(Debug, Clone, Copy, PartialEq, Eq, Structural)]
pub enum PayloadPolicy {
    /// Substitute an empty object and keep going.
    Lenient,
    /// Refuse the record.
    Strict,
}

/// A payload that the strict policy refused.
#[derive(Debug, Clone, Copy, PartialEq, Eq, Structural)]
pub enum PayloadError {
    Malformed,
}

/// What a payload settles to: the parsed object, an empty object under the
/// lenient policy, or an error under the strict one.
pub open spec fn settles_as(
    parsed_ok: bool,
    keys: Set<Seq<char>>,
    policy: PayloadPolicy,
    r: Result<Attributes, PayloadError>,
) -> bool {
    if parsed_ok {
        r matches Ok(m) && object_keys(m) == keys
    } else {
        match policy {
            PayloadPolicy::Lenient => match r {
                Ok(m) => object_keys(m) == Set::<Seq<char>>::empty(),
                Err(_) => false,
            },
            PayloadPolicy::Strict => r == Err::<Attributes, PayloadError>(PayloadError::Malformed),
        }
    }
}

/// Settles a parse outcome by the policy.
pub fn settle_payload(parsed: Result<Attributes, serde_json::Error>, policy: PayloadPolicy) -> (r: Result<Attributes, PayloadError>)
    ensures
        parsed matches Ok(m) ==> r == Ok::<Attributes, PayloadError>(m),
        parsed is Err ==> settles_as(false, Set::<Seq<char>>::empty(), policy, r),
{
    match parsed {
        Ok(m) => Ok(m),
        Err(_) => match policy {
            PayloadPolicy::Lenient => Ok(serde_json::Map::new()),
            PayloadPolicy::Strict => Err(PayloadError::Malformed),
        },
    }
}

/// Reads an attribute payload from its JSON text.
pub fn payload_from_json(text: &str, policy: PayloadPolicy) -> (r: Result<Attributes, PayloadError>)
    ensures
        settles_as(is_json_object_text(text@), json_object_keys(text@), policy, r),
{
    settle_payload(parse_object(text), policy)
}

} // verus!
