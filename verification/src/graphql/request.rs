//! Reading a GraphQL request out of a JSON body: the body's text is parsed
//! as JSON, and the query, the operation name and the variables are read
//! from it, the variables turned into GraphQL input values.
use vstd::prelude::*;

verus! {

/// A JSON number as the JSON reader reports it: whether it is an `i64`,
/// its value as an `i64` if it has one, and the bits of its value as an
/// `f64` if it has one.
pub struct JsonNumber {
    pub is_i64: bool,
    pub as_i64: Option<i64>,
    pub as_f64_bits: Option<u64>,
}

/// A JSON value; an object keeps its members in order.
pub enum JsonValue {
    Null,
    Bool(bool),
    Number(JsonNumber),
    String(String),
    Array(Vec<JsonValue>),
    Object(Vec<(String, JsonValue)>),
}

/// A GraphQL input value; a float is held by the bits of its `f64`.
pub enum InputValue {
    Null,
    Int(i64),
    Float(u64),
    String(String),
    Boolean(bool),
    List(Vec<InputValue>),
    Object(Vec<(String, InputValue)>),
}

/// The variables of a request, by name.
pub type Variables = Vec<(String, InputValue)>;

/// A GraphQL request as read from a body.
pub struct Request {
    pub query: String,
    pub variables: Variables,
    pub operation_name: Option<String>,
}

/// HTTP status of a failed read: the body could not be read.
pub const INTERNAL_SERVER_ERROR: u16 = 500;

/// HTTP status of a refused body: not JSON, or no query in it.
pub const BAD_REQUEST: u16 = 400;

/// What becomes of a request body: a request, a failure with a status and a
/// message, or a hand-over to the next handler (the body is not JSON).
pub enum RequestOutcome {
    Success(Request),
    Failure(u16, String),
    Forward,
}

/// The input value for a JSON number: an integer when the number is an
/// `i64`, otherwise a float when it has an `f64` value, otherwise null.
pub open spec fn number_input(n: JsonNumber) -> InputValue {
    if n.is_i64 {
        match n.as_i64 {
            Some(i) => InputValue::Int(i),
            None => InputValue::Null,
        }
    } else {
        match n.as_f64_bits {
            Some(bits) => InputValue::Float(bits),
            None => InputValue::Null,
        }
    }
}

/// The JSON value that `serde_json` reads from the text `text`, with each
/// object's members in the order in which its map yields them; `None` when
/// the text is not JSON.
pub uninterp spec fn json_of_text(text: Seq<char>) -> Option<JsonValue>;

/// Declares `serde_json::Value`, which the JSON reader yields.
#[verifier::external_type_specification]
#[verifier::external_body]
pub struct ExSerdeJsonValue(serde_json::Value);

/// Converts a `serde_json::Value` into a `JsonValue`, variant for variant,
/// members in the map's order; a number by the results of `is_i64`, `as_i64`
/// and `as_f64`. Nothing is stated of it: the contract of `parse_json`
/// covers the read and this conversion together.
#[verifier::external_body]
fn json_from_serde(value: serde_json::Value) -> JsonValue {
    match value {
        serde_json::Value::Null => JsonValue::Null,
        serde_json::Value::Bool(b) => JsonValue::Bool(b),
        serde_json::Value::Number(n) => JsonValue::Number(JsonNumber {
            is_i64: n.is_i64(),
            as_i64: n.as_i64(),
            as_f64_bits: n.as_f64().map(|x| x.to_bits()),
        }),
        serde_json::Value::String(s) => JsonValue::String(s),
        serde_json::Value::Array(a) => JsonValue::Array(a.into_iter().map(json_from_serde).collect()),
        serde_json::Value::Object(m) => JsonValue::Object(m.into_iter().map(|(k, v)| (k, json_from_serde(v))).collect()),
    }
}

/// Calls `serde_json::from_str::<serde_json::Value>` on `text` and converts
/// the value it reads. The result depends on the text alone, and is named
/// `json_of_text`; JSON's grammar is not restated here.
#[verifier::external_body]
pub fn parse_json(text: &str) -> (res: Option<JsonValue>)
    ensures
        res == json_of_text(text@),
{
    match serde_json::from_str::<serde_json::Value>(text) {
        Ok(value) => Some(json_from_serde(value)),
        Err(_) => None,
    }
}

/// `v` is the input value for the JSON value `j`: the same shape, with
/// the same strings, booleans and numbers, members in the same order.
pub open spec fn converts(j: JsonValue, v: InputValue) -> bool
    decreases j,
{
    match j {
        JsonValue::Null => v is Null,
        JsonValue::Bool(b) => v == InputValue::Boolean(b),
        JsonValue::Number(n) => v == number_input(n),
        JsonValue::String(s) => v == InputValue::String(s),
        JsonValue::Array(a) => match v {
            InputValue::List(l) => {
                &&& l@.len() == a@.len()
                &&& forall|k: int| 0 <= k < a@.len() ==> converts(#[trigger] a@[k], l@[k])
            },
            _ => false,
        },
        JsonValue::Object(o) => match v {
            InputValue::Object(p) => {
                &&& p@.len() == o@.len()
                &&& forall|k: int|
                    0 <= k < o@.len() ==> p@[k].0 == o@[k].0 && converts(
                        (#[trigger] o@[k]).1,
                        p@[k].1,
                    )
            },
            _ => false,
        },
    }
}

/// `p` holds the input values for the members `o` of a JSON object.
pub open spec fn converts_members(o: Seq<(String, JsonValue)>, p: Seq<(String, InputValue)>) -> bool {
    &&& p.len() == o.len()
    &&& forall|k: int| 0 <= k < o.len() ==> p[k].0 == o[k].0 && converts((#[trigger] o[k]).1, p[k].1)
}

/// The member named `key` of the JSON value `j`, when `j` is an object that
/// has one (the first such member).
pub open spec fn json_field(j: JsonValue, key: Seq<char>) -> Option<JsonValue> {
    match j {
        JsonValue::Object(o) => {
            if exists|k: int| 0 <= k < o@.len() && (#[trigger] o@[k]).0@ == key {
                let k = choose|k: int|
                    0 <= k < o@.len() && (#[trigger] o@[k]).0@ == key && forall|m: int|
                        0 <= m < k ==> (#[trigger] o@[m]).0@ != key;
                Some(o@[k].1)
            } else {
                None
            }
        },
        _ => None,
    }
}

/// The string member named `key` of `j`, if there is one.
pub open spec fn json_str_field(j: JsonValue, key: Seq<char>) -> Option<String> {
    match json_field(j, key) {
        Some(JsonValue::String(s)) => Some(s),
        _ => None,
    }
}

/// The variables that a request body `json` carries: the members of its
/// `variables` object, each turned into an input value; none when there is
/// no such object.
pub open spec fn spec_variables(json: JsonValue, vars: Variables) -> bool {
    match json_field(json, "variables"@) {
        Some(JsonValue::Object(o)) => converts_members(o@, vars@),
        _ => vars@.len() == 0,
    }
}

/// The member named `key` of `json`, as `json[key]` finds it.
fn json_member<'a>(json: &'a JsonValue, key: &str) -> (res: Option<&'a JsonValue>)
    ensures
        res matches Some(v) ==> json_field(*json, key@) == Some(*v),
        res is None ==> json_field(*json, key@) is None,
{
    match json {
        JsonValue::Object(o) => {
            let wanted = String::from_str(key);
            let mut i: usize = 0;
            while i < o.len()
                invariant
                    i <= o@.len(),
                    wanted@ == key@,
                    *json == JsonValue::Object(*o),
                    forall|m: int| 0 <= m < i ==> (#[trigger] o@[m]).0@ != key@,
                decreases o@.len() - i,
            {
                if o[i].0 == wanted {
                    proof {
                        let k = choose|k: int|
                            0 <= k < o@.len() && (#[trigger] o@[k]).0@ == key@ && forall|m: int|
                                0 <= m < k ==> (#[trigger] o@[m]).0@ != key@;
                        assert(0 <= i < o@.len() && o@[i as int].0@ == key@);
                        if k < i {
                            assert(o@[k].0@ != key@);
                        }
                        if k > i {
                            assert(o@[i as int].0@ != key@);
                        }
                        assert(k == i);
                        assert(json_field(*json, key@) == Some(o@[i as int].1));
                    }
                    return Some(&o[i].1);
                }
                i = i + 1;
            }
            None
        },
        _ => None,
    }
}

/// The string member named `key` of `json`, as `json[key].as_str()` finds it.
fn json_str_member(json: &JsonValue, key: &str) -> (res: Option<String>)
    ensures
        res == json_str_field(*json, key@),
{
    match json_member(json, key) {
        Some(JsonValue::String(s)) => Some(s.clone()),
        _ => None,
    }
}

/// The input value for a JSON number: an integer when it is an `i64`,
/// otherwise a float, otherwise null.
pub fn convert_serde_number_to_input_value_number(number: &JsonNumber) -> (res: InputValue)
    ensures
        res == number_input(*number),
{
    if number.is_i64 {
        match number.as_i64 {
            Some(i) => return InputValue::Int(i),
            None => return InputValue::Null,
        }
    }
    match number.as_f64_bits {
        Some(bits) => InputValue::Float(bits),
        None => InputValue::Null,
    }
}

/// The input value for a JSON value: the same shape, with the same
/// strings, booleans and numbers, members in the same order.
pub fn convert_serde_value_to_input_value(value: &JsonValue) -> (res: InputValue)
    ensures
        converts(*value, res),
    decreases value, 0nat,
{
    match value {
        JsonValue::Null => InputValue::Null,
        JsonValue::Bool(b) => InputValue::Boolean(*b),
        JsonValue::Number(n) => convert_serde_number_to_input_value_number(n),
        JsonValue::String(s) => InputValue::String(s.clone()),
        JsonValue::Array(a) => convert_serde_array_to_input_value_list(a),
        JsonValue::Object(o) => convert_serde_object_to_input_value_object(o),
    }
}

/// The list input value for the elements of a JSON array.
pub fn convert_serde_array_to_input_value_list(array: &Vec<JsonValue>) -> (res: InputValue)
    ensures
        converts(JsonValue::Array(*array), res),
    decreases array, 0nat,
{
    let mut list: Vec<InputValue> = Vec::new();
    let mut i: usize = 0;
    while i < array.len()
        invariant
            i <= array@.len(),
            list@.len() == i,
            forall|k: int| 0 <= k < i ==> converts(#[trigger] array@[k], list@[k]),
        decreases array@.len() - i,
    {
        assert(decreases_to!(array => array@[i as int]));
        let v = convert_serde_value_to_input_value(&array[i]);
        list.push(v);
        i = i + 1;
    }
    InputValue::List(list)
}

fn convert_members(map: &Vec<(String, JsonValue)>) -> (res: Variables)
    ensures
        converts_members(map@, res@),
    decreases map, 0nat,
{
    let mut out: Vec<(String, InputValue)> = Vec::new();
    let mut i: usize = 0;
    while i < map.len()
        invariant
            i <= map@.len(),
            out@.len() == i,
            forall|k: int|
                0 <= k < i ==> out@[k].0 == map@[k].0 && converts((#[trigger] map@[k]).1, out@[k].1),
        decreases map@.len() - i,
    {
        assert(decreases_to!(map => map@[i as int].1));
        let v = convert_serde_value_to_input_value(&map[i].1);
        out.push((map[i].0.clone(), v));
        i = i + 1;
    }
    out
}

/// The object input value for the members of a JSON object.
pub fn convert_serde_object_to_input_value_object(map: &Vec<(String, JsonValue)>) -> (res: InputValue)
    ensures
        converts(JsonValue::Object(*map), res),
    decreases map, 1nat,
{
    InputValue::Object(convert_members(map))
}

/// The variables of the request body `json`: the members of its
/// `variables` object turned into input values, none when it has no such
/// object.
pub fn convert_serde_value_to_variables(json: &JsonValue) -> (res: Variables)
    ensures
        spec_variables(*json, res),
{
    match json_member(json, "variables") {
        Some(JsonValue::Object(map)) => convert_members(map),
        _ => Vec::new(),
    }
}

impl Request {
    /// Reads a request out of a body. `content_type_is_json` says whether the
    /// body was sent as `application/json`; `body` is the text read, or the
    /// description of the error that stopped the read. The text is parsed as
    /// JSON and then read as `from_json` reads it.
    pub fn from_data(content_type_is_json: bool, body: Result<String, String>) -> (res:
        RequestOutcome)
        ensures
            !content_type_is_json ==> res is Forward,
            content_type_is_json ==> match body {
                Err(e) => res == RequestOutcome::Failure(INTERNAL_SERVER_ERROR, e),
                Ok(text) => read_outcome(json_of_text(text@), res),
            },
    {
        // Ensure the content type is correct before reading the data.
        if !content_type_is_json {
            return RequestOutcome::Forward;
        }
        let text = match body {
            Err(e) => return RequestOutcome::Failure(INTERNAL_SERVER_ERROR, e),
            Ok(text) => text,
        };
        Request::from_json(parse_json(text.as_str()))
    }

    /// Reads a request out of a parsed body: `None` when the body is not
    /// JSON, otherwise its `query` string, its `operationName` string if it
    /// has one, and its `variables` object turned into input values.
    pub fn from_json(json: Option<JsonValue>) -> (res: RequestOutcome)
        ensures
            read_outcome(json, res),
    {
        let json = match json {
            None => {
                return RequestOutcome::Failure(
                    BAD_REQUEST,
                    String::from_str("Body isn't a valid JSON"),
                )
            },
            Some(json) => json,
        };
        let query = match json_str_member(&json, "query") {
            Some(q) => q,
            None => {
                return RequestOutcome::Failure(
                    BAD_REQUEST,
                    String::from_str("Body is missing value for `query`"),
                )
            },
        };
        let operation_name = json_str_member(&json, "operationName");
        let variables = convert_serde_value_to_variables(&json);
        RequestOutcome::Success(Request { query, variables, operation_name })
    }
}

/// `res` is what a body that parsed to `json` (`None`: not JSON) gives.
pub open spec fn read_outcome(json: Option<JsonValue>, res: RequestOutcome) -> bool {
    match json {
        None => res matches RequestOutcome::Failure(status, m) && status == BAD_REQUEST && m@
            == "Body isn't a valid JSON"@,
        Some(json) => match json_str_field(json, "query"@) {
            None => res matches RequestOutcome::Failure(status, m) && status == BAD_REQUEST && m@
                == "Body is missing value for `query`"@,
            Some(q) => res matches RequestOutcome::Success(r) && r.query == q && r.operation_name
                == json_str_field(json, "operationName"@) && spec_variables(json, r.variables),
        },
    }
}

/// A JSON number becomes an integer when it is an `i64`, with that very
/// value; otherwise a float with the very bits of its `f64` value; and null
/// only when the reader gives it no value of the kind it has.
pub proof fn lemma_numbers_keep_their_value(n: JsonNumber)
    ensures
        n.is_i64 && n.as_i64 is Some ==> number_input(n) == InputValue::Int(n.as_i64->0),
        n.is_i64 && n.as_i64 is None ==> number_input(n) is Null,
        !n.is_i64 && n.as_f64_bits is Some ==> number_input(n) == InputValue::Float(n.as_f64_bits->0),
        !n.is_i64 && n.as_f64_bits is None ==> number_input(n) is Null,
{
}

/// The input value for a JSON value mirrors it: null for null, the same
/// boolean, string and number, a list with one converted item for each
/// element in the same order, and an object with one member for each member,
/// under the same key, in the same order.
pub proof fn lemma_conversion_mirrors(j: JsonValue, v: InputValue)
    requires
        converts(j, v),
    ensures
        j is Null ==> v is Null,
        j matches JsonValue::Bool(b) ==> v == InputValue::Boolean(b),
        j matches JsonValue::String(t) ==> v == InputValue::String(t),
        j matches JsonValue::Number(n) ==> (n.is_i64 && n.as_i64 is Some ==> v == InputValue::Int(
            n.as_i64->0,
        )) && (!n.is_i64 && n.as_f64_bits is Some ==> v == InputValue::Float(n.as_f64_bits->0)),
        j matches JsonValue::Array(a) ==> v matches InputValue::List(l) && l@.len() == a@.len() && (
        forall|k: int| 0 <= k < a@.len() ==> converts(#[trigger] a@[k], l@[k])),
        j matches JsonValue::Object(o) ==> v matches InputValue::Object(p) && p@.len() == o@.len()
            && (forall|k: int|
            0 <= k < o@.len() ==> p@[k].0 == (#[trigger] o@[k]).0 && converts(o@[k].1, p@[k].1)),
{
}

/// The member named `key` of an object is its first member with that key;
/// an object without one, or a value that is no object, has none.
pub proof fn lemma_member_lookup(j: JsonValue, key: Seq<char>)
    ensures
        j matches JsonValue::Object(o) ==> forall|k: int|
            0 <= k < o@.len() && (#[trigger] o@[k]).0@ == key && (forall|m: int|
                0 <= m < k ==> (#[trigger] o@[m]).0@ != key) ==> json_field(j, key) == Some(o@[k].1),
        j matches JsonValue::Object(o) ==> (forall|k: int| 0 <= k < o@.len() ==> (#[trigger] o@[k]).0@
            != key) ==> json_field(j, key) is None,
        !(j is Object) ==> json_field(j, key) is None,
{
    if let JsonValue::Object(o) = j {
        assert forall|k: int|
            0 <= k < o@.len() && (#[trigger] o@[k]).0@ == key && (forall|m: int|
                0 <= m < k ==> (#[trigger] o@[m]).0@ != key) implies json_field(j, key) == Some(
            o@[k].1,
        ) by {
            let c = choose|c: int|
                0 <= c < o@.len() && (#[trigger] o@[c]).0@ == key && forall|m: int|
                    0 <= m < c ==> (#[trigger] o@[m]).0@ != key;
            assert(o@[k].0@ == key);
            if c < k {
                assert(o@[c].0@ != key);
            }
            if c > k {
                assert(o@[k].0@ != key);
            }
        }
    }
}

/// Reading a request: a body that is no JSON is a bad request; one whose
/// `query` member is no string is a bad request; otherwise the request has
/// that query, the `operationName` member's string when it is one (whatever
/// else the body holds), and one variable for each member of the
/// `variables` object, under its key and in its order, none when there is
/// no such object.
pub proof fn lemma_request_reading(json: Option<JsonValue>, res: RequestOutcome)
    requires
        read_outcome(json, res),
    ensures
        json is None ==> (res matches RequestOutcome::Failure(status, m) && status == BAD_REQUEST
            && m@ == "Body isn't a valid JSON"@),
        match json {
            None => true,
            Some(j) => match json_field(j, "query"@) {
                Some(JsonValue::String(q)) => res matches RequestOutcome::Success(r) && r.query == q
                    && r.operation_name == (match json_field(j, "operationName"@) {
                    Some(JsonValue::String(name)) => Some(name),
                    _ => None,
                }) && (match json_field(j, "variables"@) {
                    Some(JsonValue::Object(o)) => r.variables@.len() == o@.len() && forall|k: int|
                        0 <= k < o@.len() ==> r.variables@[k].0 == (#[trigger] o@[k]).0 && converts(
                            o@[k].1,
                            r.variables@[k].1,
                        ),
                    _ => r.variables@.len() == 0,
                }),
                _ => res matches RequestOutcome::Failure(status, m) && status == BAD_REQUEST && m@
                    == "Body is missing value for `query`"@,
            },
        },
{
    if let Some(j) = json {
        if let Some(JsonValue::String(q)) = json_field(j, "query"@) {
            assert(json_str_field(j, "query"@) == Some(q));
            assert(res is Success);
            if let RequestOutcome::Success(r) = res {
                assert(r.query == q);
                assert(r.operation_name == json_str_field(j, "operationName"@));
                assert(spec_variables(j, r.variables));
                if let Some(JsonValue::Object(o)) = json_field(j, "variables"@) {
                    assert(converts_members(o@, r.variables@));
                    assert forall|k: int| 0 <= k < o@.len() implies r.variables@[k].0 == (
                    #[trigger] o@[k]).0 && converts(o@[k].1, r.variables@[k].1) by {
                        assert(r.variables@[k].0 == o@[k].0);
                    }
                } else {
                    assert(r.variables@.len() == 0);
                }
                assert(r.operation_name == (match json_field(j, "operationName"@) {
                    Some(JsonValue::String(name)) => Some(name),
                    _ => None,
                }));
            }
        } else {
            assert(json_str_field(j, "query"@) is None);
        }
    }
}

} // verus!
