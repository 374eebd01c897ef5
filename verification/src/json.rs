//! JSON documents as the library reads them, and the reading of the container listing
//! out of the report `ansible-playbook` prints with its JSON callback.
use vstd::prelude::*;

verus! {

/// A JSON value. Numbers keep their text; an object keeps its members in order.
#[derive(Debug)]
pub enum JsonValue {
    Null,
    Bool(bool),
    Number(String),
    String(String),
    Array(Vec<JsonValue>),
    Object(Vec<(String, JsonValue)>),
}

/// The position of the first member named `key`, if any.
pub open spec fn first_member(members: Seq<(String, JsonValue)>, key: Seq<char>) -> Option<int> {
    if exists|i: int| 0 <= i < members.len() && #[trigger] members[i].0@ == key {
        Some(
            choose|i: int|
                0 <= i < members.len() && #[trigger] members[i].0@ == key && forall|j: int|
                    0 <= j < i ==> members[j].0@ != key,
        )
    } else {
        None
    }
}

/// `value[key]`: the member named `key` of an object, `null` when there is none or the
/// value is not an object.
pub open spec fn index_key(value: JsonValue, key: Seq<char>) -> JsonValue {
    match value {
        JsonValue::Object(members) => match first_member(members@, key) {
            Some(i) => members@[i].1,
            None => JsonValue::Null,
        },
        _ => JsonValue::Null,
    }
}

/// `value[i]`: the element at `i` of an array, `null` when there is none or the value is
/// not an array.
pub open spec fn index_pos(value: JsonValue, i: int) -> JsonValue {
    match value {
        JsonValue::Array(items) => if 0 <= i < items@.len() {
            items@[i]
        } else {
            JsonValue::Null
        },
        _ => JsonValue::Null,
    }
}

/// The node of the report that lists the containers:
/// `report["plays"][0]["tasks"][0]["hosts"]["localhost"]["stdout_lines"]`.
pub open spec fn stdout_lines_node(report: JsonValue) -> JsonValue {
    index_key(
        index_key(
            index_key(
                index_pos(index_key(index_pos(index_key(report, "plays"@), 0), "tasks"@), 0),
                "hosts"@,
            ),
            "localhost"@,
        ),
        "stdout_lines"@,
    )
}

/// The text of a line: the string itself, or empty for anything that is not a string.
pub open spec fn line_text(value: JsonValue) -> Seq<char> {
    match value {
        JsonValue::String(s) => s@,
        _ => Seq::empty(),
    }
}

proof fn lemma_first_member_found(members: Seq<(String, JsonValue)>, key: Seq<char>, i: int)
    requires
        0 <= i < members.len(),
        members[i].0@ == key,
        forall|j: int| 0 <= j < i ==> members[j].0@ != key,
    ensures
        first_member(members, key) == Some(i),
{
    let k = choose|k: int|
        0 <= k < members.len() && #[trigger] members[k].0@ == key && forall|j: int|
            0 <= j < k ==> members[j].0@ != key;
    assert(0 <= k < members.len() && members[k].0@ == key && forall|j: int|
        0 <= j < k ==> members[j].0@ != key);
    if k < i {
        assert(members[k].0@ != key);
    }
    if i < k {
        assert(members[i].0@ != key);
    }
}

/// `value[key]`, with `None` standing for `null`.
pub fn member<'a>(value: &'a JsonValue, key: &str) -> (r: Option<&'a JsonValue>)
    ensures
        match r {
            Some(v) => *v == index_key(*value, key@),
            None => index_key(*value, key@) == JsonValue::Null,
        },
{
    match value {
        JsonValue::Object(members) => {
            let target = String::from_str(key);
            let mut i: usize = 0;
            while i < members.len()
                invariant
                    *value == JsonValue::Object(*members),
                    i <= members@.len(),
                    target@ == key@,
                    forall|j: int| 0 <= j < i ==> #[trigger] members@[j].0@ != key@,
                decreases members.len() - i,
            {
                if members[i].0 == target {
                    proof {
                        lemma_first_member_found(members@, key@, i as int);
                    }
                    return Some(&members[i].1);
                }
                i = i + 1;
            }
            assert(first_member(members@, key@) is None);
            None
        },
        _ => None,
    }
}

/// `value[i]`, with `None` standing for `null`.
pub fn element<'a>(value: &'a JsonValue, i: usize) -> (r: Option<&'a JsonValue>)
    ensures
        match r {
            Some(v) => *v == index_pos(*value, i as int),
            None => index_pos(*value, i as int) == JsonValue::Null,
        },
{
    match value {
        JsonValue::Array(items) => if i < items.len() {
            Some(&items[i])
        } else {
            None
        },
        _ => None,
    }
}

/// The container lines of a playbook report: the texts under
/// `plays[0].tasks[0].hosts.localhost.stdout_lines` when that is an array (a line that
/// is not a string counts as empty), and none otherwise.
pub fn container_lines(report: &JsonValue) -> (r: Vec<String>)
    ensures
        match stdout_lines_node(*report) {
            JsonValue::Array(items) => r@.len() == items@.len() && forall|i: int|
                0 <= i < items@.len() ==> #[trigger] r@[i]@ == line_text(items@[i]),
            _ => r@.len() == 0,
        },
{
    let mut r: Vec<String> = Vec::new();
    let plays = match member(report, "plays") {
        Some(v) => v,
        None => {
            return r;
        },
    };
    let play = match element(plays, 0) {
        Some(v) => v,
        None => {
            return r;
        },
    };
    let tasks = match member(play, "tasks") {
        Some(v) => v,
        None => {
            return r;
        },
    };
    let task = match element(tasks, 0) {
        Some(v) => v,
        None => {
            return r;
        },
    };
    let hosts = match member(task, "hosts") {
        Some(v) => v,
        None => {
            return r;
        },
    };
    let localhost = match member(hosts, "localhost") {
        Some(v) => v,
        None => {
            return r;
        },
    };
    let lines = match member(localhost, "stdout_lines") {
        Some(v) => v,
        None => {
            return r;
        },
    };
    match lines {
        JsonValue::Array(items) => {
            let mut i: usize = 0;
            while i < items.len()
                invariant
                    i <= items@.len(),
                    r@.len() == i,
                    forall|j: int| 0 <= j < i ==> #[trigger] r@[j]@ == line_text(items@[j]),
                decreases items.len() - i,
            {
                let text = match &items[i] {
                    JsonValue::String(s) => s.clone(),
                    _ => String::new(),
                };
                r.push(text);
                i = i + 1;
            }
            r
        },
        _ => r,
    }
}

/// `serde_json::Value`, carried through as an opaque value.
#[verifier::external_type_specification]
#[verifier::external_body]
pub struct ExSerdeJsonValue(serde_json::Value);

/// `serde_json::Error`, carried through as an opaque value.
#[verifier::external_type_specification]
#[verifier::external_body]
pub struct ExSerdeJsonError(serde_json::Error);

/// What `serde_json::from_str::<serde_json::Value>` makes of `text`, in the library's form
/// (`None` when the text is not one JSON document). It depends on the text alone.
pub uninterp spec fn json_parse(text: Seq<char>) -> Option<JsonValue>;

/// Calls `serde_json::from_str::<serde_json::Value>(text)` and converts the value into the
/// library's form, member by member and element by element.
/// Claimed: the result is `Ok` exactly when `json_parse(text)` is `Some`, and then holds
/// that value. Which error comes back otherwise is left unsaid.
#[verifier::external_body]
fn parse_json(text: &str) -> (r: Result<JsonValue, serde_json::Error>)
    ensures
        match r {
            Ok(v) => json_parse(text@) == Some(v),
            Err(_) => json_parse(text@) is None,
        },
{
    serde_json::from_str::<serde_json::Value>(text).map(json_from_serde)
}

/// Converts a `serde_json::Value` into the library's form: one variant for each variant,
/// numbers by their text.
#[verifier::external_body]
fn json_from_serde(value: serde_json::Value) -> JsonValue {
    match value {
        serde_json::Value::Null => JsonValue::Null,
        serde_json::Value::Bool(b) => JsonValue::Bool(b),
        serde_json::Value::Number(n) => JsonValue::Number(n.to_string()),
        serde_json::Value::String(s) => JsonValue::String(s),
        serde_json::Value::Array(a) => JsonValue::Array(a.into_iter().map(json_from_serde).collect()),
        serde_json::Value::Object(m) => JsonValue::Object(
            m.into_iter().map(|(k, v)| (k, json_from_serde(v))).collect(),
        ),
    }
}

/// Every line parses as JSON.
pub open spec fn all_lines_parse(items: Seq<JsonValue>) -> bool {
    forall|i: int| 0 <= i < items.len() ==> #[trigger] json_parse(line_text(items[i])) is Some
}

/// The containers a listing run reported: its stdout is parsed as a JSON report, and each
/// of the report's container lines is parsed as JSON in turn. The first text that does not
/// parse gives the error.
#[verifier::loop_isolation(false)]
pub fn report_containers(stdout: &str) -> (r: Result<Vec<JsonValue>, serde_json::Error>)
    ensures
        json_parse(stdout@) is None ==> r is Err,
        json_parse(stdout@) matches Some(report) ==> match stdout_lines_node(report) {
            JsonValue::Array(items) => {
                &&& (r is Ok <==> all_lines_parse(items@))
                &&& r matches Ok(v) ==> v@.len() == items@.len() && forall|i: int|
                    0 <= i < items@.len() ==> json_parse(line_text(items@[i])) == Some(
                        #[trigger] v@[i],
                    )
            },
            _ => r matches Ok(v) && v@.len() == 0,
        },
{
    let report = match parse_json(stdout) {
        Ok(v) => v,
        Err(e) => {
            return Err(e);
        },
    };
    let lines = container_lines(&report);
    let ghost node = stdout_lines_node(report);
    let mut values: Vec<JsonValue> = Vec::new();
    let mut i: usize = 0;
    while i < lines.len()
        invariant
            i <= lines@.len(),
            values@.len() == i,
            forall|j: int| 0 <= j < i ==> json_parse(lines@[j]@) == Some(#[trigger] values@[j]),
        decreases lines.len() - i,
    {
        match parse_json(lines[i].as_str()) {
            Ok(v) => {
                values.push(v);
            },
            Err(e) => {
                proof {
                    if let JsonValue::Array(items) = node {
                        assert(json_parse(line_text(items@[i as int])) is None);
                        assert(!all_lines_parse(items@));
                    }
                }
                return Err(e);
            },
        }
        i = i + 1;
    }
    proof {
        if let JsonValue::Array(items) = node {
            assert forall|j: int| 0 <= j < items@.len() implies json_parse(
                line_text(items@[j]),
            ) == Some(#[trigger] values@[j]) by {
                assert(lines@[j]@ == line_text(items@[j]));
            }
            assert forall|j: int| 0 <= j < items@.len() implies #[trigger] json_parse(
                line_text(items@[j]),
            ) is Some by {
                assert(lines@[j]@ == line_text(items@[j]));
                assert(json_parse(lines@[j]@) == Some(values@[j]));
            }
        }
    }
    Ok(values)
}

} // verus!
