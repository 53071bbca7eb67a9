//! Rules that the data of an event must meet, at its creation and at each update.

use crate::error::ApiError;
use crate::model::EventInput;
use crate::text::{chars_of, char_is_control, is_control_char, trim, trim_seq};
use vstd::prelude::*;
use vstd::string::*;

verus! {

/// `events.name` is `VARCHAR(150)`.
pub const MAX_EVENT_NAME_LENGTH: usize = 150;

/// `events.service_label` is `VARCHAR(128)`.
pub const MAX_SERVICE_LENGTH: usize = 128;

/// `events.location` is `TEXT`, capped to keep the payloads reasonable.
pub const MAX_LOCATION_LENGTH: usize = 255;

/// `events.description` is `TEXT`, capped to keep the payloads reasonable.
pub const MAX_DESCRIPTION_LENGTH: usize = 5000;

/// `c` is `<` or `>`.
pub open spec fn is_angle_bracket(c: char) -> bool {
    c == '<' || c == '>'
}

/// `c` is a line break or a tab.
pub open spec fn is_line_break_or_tab(c: char) -> bool {
    c == '\n' || c == '\r' || c == '\t'
}

/// A label displayed as-is: at most `max` characters, no control character and no `<` / `>`.
pub open spec fn label_ok(value: Seq<char>, max: int) -> bool {
    &&& value.len() <= max
    &&& forall|i: int| 0 <= i < value.len() ==> !is_control_char(#[trigger] value[i])
    &&& forall|i: int| 0 <= i < value.len() ==> !is_angle_bracket(#[trigger] value[i])
}

/// A free-text description: like a label of at most `MAX_DESCRIPTION_LENGTH` characters,
/// but line breaks and tabs are allowed.
pub open spec fn description_ok(value: Seq<char>) -> bool {
    &&& value.len() <= MAX_DESCRIPTION_LENGTH
    &&& forall|i: int|
        0 <= i < value.len() ==> !(is_control_char(#[trigger] value[i]) && !is_line_break_or_tab(
            value[i],
        ))
    &&& forall|i: int| 0 <= i < value.len() ==> !is_angle_bracket(#[trigger] value[i])
}

/// Absent, or present and meeting `ok`.
pub open spec fn absent_or(o: Option<Seq<char>>, ok: spec_fn(Seq<char>) -> bool) -> bool {
    match o {
        None => true,
        Some(t) => ok(t),
    }
}

/// What an event must meet to be written: a name that is not blank once trimmed and is a
/// label of at most 150 characters, an end strictly after the start, a service label of at
/// most 128 characters and a location label of at most 255 characters when present, a valid
/// description when present, and a repetition rule consistent with the start when present.
pub open spec fn event_input_ok(input: crate::model::EventInputView) -> bool {
    &&& trim_seq(input.name).len() > 0
    &&& label_ok(input.name, MAX_EVENT_NAME_LENGTH as int)
    &&& input.start.precedes(input.end)
    &&& absent_or(input.service, |t: Seq<char>| label_ok(t, MAX_SERVICE_LENGTH as int))
    &&& absent_or(input.location, |t: Seq<char>| label_ok(t, MAX_LOCATION_LENGTH as int))
    &&& absent_or(input.description, |t: Seq<char>| description_ok(t))
    &&& match input.recurrence {
        None => true,
        Some(r) => r.valid_for(input.start),
    }
}

/// A text that is a valid label of at most `MAX_DESCRIPTION_LENGTH` characters is a valid
/// description: a description is a label in which line breaks and tabs are also allowed.
pub proof fn lemma_label_is_description(value: Seq<char>)
    ensures
        label_ok(value, MAX_DESCRIPTION_LENGTH as int) ==> description_ok(value),
{
}

/// A label displayed as-is by the fronts: at most `max` characters, no control character
/// (Postgres rejects NUL bytes) and no `<` / `>` (echoed back unescaped in the JSON responses).
pub fn is_valid_label(value: &str, max: usize) -> (r: bool)
    ensures
        r == label_ok(value@, max as int),
{
    let v = chars_of(value);
    if v.len() > max {
        return false;
    }
    let n = v.len();
    let mut i: usize = 0;
    while i < n
        invariant
            n == v@.len(),
            v@ == value@,
            i <= n,
            forall|k: int| 0 <= k < i ==> !is_control_char(#[trigger] v@[k]),
            forall|k: int| 0 <= k < i ==> !is_angle_bracket(#[trigger] v@[k]),
        decreases n - i,
    {
        let c = v[i];
        if char_is_control(c) || c == '<' || c == '>' {
            return false;
        }
        i = i + 1;
    }
    true
}

/// A free-text description: like a label, but line breaks and tabs are allowed.
pub fn is_valid_description(value: &str) -> (r: bool)
    ensures
        r == description_ok(value@),
{
    let v = chars_of(value);
    if v.len() > MAX_DESCRIPTION_LENGTH {
        return false;
    }
    let n = v.len();
    let mut i: usize = 0;
    while i < n
        invariant
            n == v@.len(),
            v@ == value@,
            i <= n,
            forall|k: int|
                0 <= k < i ==> !(is_control_char(#[trigger] v@[k]) && !is_line_break_or_tab(
                    v@[k],
                )),
            forall|k: int| 0 <= k < i ==> !is_angle_bracket(#[trigger] v@[k]),
        decreases n - i,
    {
        let c = v[i];
        if (char_is_control(c) && !(c == '\n' || c == '\r' || c == '\t')) || c == '<' || c
            == '>' {
            return false;
        }
        i = i + 1;
    }
    true
}

/// An optional label: absent, or a label of at most `max` characters.
fn optional_label_ok(value: &Option<String>, max: usize) -> (r: bool)
    ensures
        r == absent_or(
            crate::model::text_opt(*value),
            |t: Seq<char>| label_ok(t, max as int),
        ),
{
    match value {
        None => true,
        Some(t) => is_valid_label(t.as_str(), max),
    }
}

/// Rules shared by event creation and update: `Ok` exactly when the event meets
/// `event_input_ok`, `BadRequest` otherwise.
pub fn validate_event_input(input: &EventInput) -> (r: Result<(), ApiError>)
    ensures
        r is Ok <==> event_input_ok(input@),
        r is Err ==> r == Err::<(), ApiError>(ApiError::BadRequest),
{
    let name_filled = crate::text::trim(input.name.as_str()).unicode_len() > 0;
    let valid = name_filled && is_valid_label(input.name.as_str(), MAX_EVENT_NAME_LENGTH)
        && input.start.is_before(&input.end) && optional_label_ok(
        &input.service,
        MAX_SERVICE_LENGTH,
    ) && optional_label_ok(&input.location, MAX_LOCATION_LENGTH) && match &input.description {
        None => true,
        Some(d) => is_valid_description(d.as_str()),
    } && match &input.recurrence {
        None => true,
        Some(r) => r.is_valid_for(input.start),
    };
    if valid {
        Ok(())
    } else {
        Err(ApiError::BadRequest)
    }
}

} // verus!
