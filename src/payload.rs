use vstd::prelude::*;

verus! {

#[verifier::external_type_specification]
#[verifier::external_body]
pub struct ExValue(serde_json::Value);

/// The text of a JSON string, `None` for any other kind of value.
pub uninterp spec fn str_of(v: serde_json::Value) -> Option<Seq<char>>;

/// The boolean of a JSON boolean, `None` for any other kind of value.
pub uninterp spec fn bool_of(v: serde_json::Value) -> Option<bool>;

/// The element of a JSON array at a position, `None` for a shorter array or a
/// value that is no array.
pub uninterp spec fn elem_of(v: serde_json::Value, i: usize) -> Option<serde_json::Value>;

/// The member of a JSON object under a key, `None` where there is none or the
/// value is no object.
pub uninterp spec fn member_of(v: serde_json::Value, key: Seq<char>) -> Option<serde_json::Value>;

/// Relies on serde_json::Value::as_str: the text of a JSON string, `None` for
/// any other kind of value.
pub assume_specification<'a>[ serde_json::Value::as_str ](v: &'a serde_json::Value) -> (r: Option<
    &'a str,
>)
    ensures
        match r {
            Some(t) => str_of(*v) == Some(t@),
            None => str_of(*v) is None,
        },
;

/// Relies on serde_json::Value::as_bool: the boolean of a JSON boolean, `None`
/// for any other kind of value.
pub assume_specification[ serde_json::Value::as_bool ](v: &serde_json::Value) -> (r: Option<bool>)
    ensures
        r == bool_of(*v),
;

/// Relies on serde_json::Value::get with a position: the element of an array
/// at that position, `None` for a shorter array or a value that is no array.
#[verifier::external_body]
fn element(v: &serde_json::Value, i: usize) -> (r: Option<&serde_json::Value>)
    ensures
        match r {
            Some(e) => elem_of(*v, i) == Some(*e),
            None => elem_of(*v, i) is None,
        },
{
    v.get(i)
}

/// Relies on serde_json::Value::get with a key: the member of an object under
/// that key, `None` where there is none or the value is no object.
#[verifier::external_body]
fn member<'a>(v: &'a serde_json::Value, key: &str) -> (r: Option<&'a serde_json::Value>)
    ensures
        match r {
            Some(m) => member_of(*v, key@) == Some(*m),
            None => member_of(*v, key@) is None,
        },
{
    v.get(key)
}

/// `text` holds `marker` as a run of consecutive characters.
pub open spec fn has_infix(text: Seq<char>, marker: Seq<char>) -> bool {
    exists|i: int|
        0 <= i && i + marker.len() <= text.len() && #[trigger] text.subrange(i, i + marker.len())
            == marker
}

/// Relies on str::contains with a string pattern: whether the pattern occurs
/// in the text.
#[verifier::external_body]
fn text_contains(text: &str, marker: &str) -> (r: bool)
    ensures
        r == has_infix(text@, marker@),
{
    text.contains(marker)
}

/// The marker that a batch result carries first while its ratings are pending.
pub open spec fn not_ready_marker() -> Seq<char> {
    "NotReady"@
}

/// A batch result is ready unless its first element is a string that holds the
/// pending marker; a missing first element, or one of another kind, counts as
/// ready.
pub fn batch_ready(first_text: Option<&str>) -> (r: bool)
    ensures
        r == match first_text {
            Some(t) => !has_infix(t@, not_ready_marker()),
            None => true,
        },
{
    match first_text {
        Some(t) => !text_contains(t, "NotReady"),
        None => true,
    }
}

/// A batch result is ready unless its first element is a JSON string holding
/// the pending marker.
pub open spec fn batch_ready_of(payload: serde_json::Value) -> bool {
    match elem_of(payload, 0) {
        Some(first) => match str_of(first) {
            Some(t) => !has_infix(t, not_ready_marker()),
            None => true,
        },
        None => true,
    }
}

/// A rating shows the image under review when its `underReview` member is the
/// JSON boolean true.
pub open spec fn under_review_of(payload: serde_json::Value) -> bool {
    match member_of(payload, "underReview"@) {
        Some(flag) => bool_of(flag) == Some(true),
        None => false,
    }
}

/// Applies `batch_ready` to the text of the first element of a batch result.
pub fn batch_payload_ready(payload: &serde_json::Value) -> (r: bool)
    ensures
        r == batch_ready_of(*payload),
{
    let first_text = match element(payload, 0) {
        Some(first) => first.as_str(),
        None => None,
    };
    batch_ready(first_text)
}

/// A flag confirms a review only when it is present and true.
pub fn review_confirmed(flag: Option<bool>) -> (r: bool)
    ensures
        r == (flag == Some(true)),
{
    match flag {
        Some(b) => b,
        None => false,
    }
}

/// Applies `review_confirmed` to the `underReview` member of a rating.
pub fn payload_under_review(payload: &serde_json::Value) -> (r: bool)
    ensures
        r == under_review_of(*payload),
{
    let flag = match member(payload, "underReview") {
        Some(v) => v.as_bool(),
        None => None,
    };
    review_confirmed(flag)
}

} // verus!
