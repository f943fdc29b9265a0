//! Decoder for charge-point protocol payloads: a JSON array whose first
//! element selects the message kind (call, call result, call error),
//! followed by the unique id and the kind's own fields. The JSON text
//! itself is parsed by serde_json; what this module owns — and states over
//! the named shape of each element of the text — is the framing: which
//! shapes must stand at which positions, and which message they form.

use vstd::prelude::*;

verus! {

/// `serde_json::Value`, declared so parsed JSON values can be carried
/// through the decoder. A value is opaque here: everything the framing
/// reads from one comes out of the trusted reader below as plain values.
#[verifier::external_type_specification]
#[verifier::external_body]
pub struct ExValue(serde_json::Value);

/// `serde_json::Map`, the object payload of a decoded message. Carried
/// through whole; the decoder never looks inside one.
#[verifier::external_type_specification]
#[verifier::external_body]
#[verifier::reject_recursive_types(K)]
#[verifier::reject_recursive_types(V)]
pub struct ExJsonMap<K, V>(serde_json::Map<K, V>);

/// Failure to decode a protocol message: the text is not JSON, or the
/// array does not have the shape of any message kind.
#[derive(Debug)]
pub struct ParseError;

/// A decoded protocol message.
#[derive(Debug)]
pub enum Message {
    Call { unique_id: String, action: String, data: serde_json::Map<String, serde_json::Value> },
    CallResult { unique_id: String, data: serde_json::Map<String, serde_json::Value> },
    CallError { unique_id: String, error_code: String, error_description: String },
}

/// One top-level element of the payload array, as the framing reads it:
/// an integer, a text, an object, a value of some other type, or absent.
pub enum Elem {
    Num(i64),
    Text(String),
    Obj(serde_json::Map<String, serde_json::Value>),
    OtherVal,
    Missing,
}

/// The plain shape of one payload element: all the framing ever reads of
/// it. An object's contents are not part of its shape — the decoder
/// carries them without looking.
pub enum Shape {
    Num(i64),
    Text(Seq<char>),
    Obj,
    OtherVal,
    Missing,
}

/// The shape of element `i` of the JSON text `s`: a name for what
/// serde_json's parse and accessors read there, a function of the text
/// alone. Text that is not JSON, a payload that is not an array, and an
/// index past the end all carry the `Missing` shape.
pub uninterp spec fn json_shape(s: Seq<char>, i: int) -> Shape;

/// The shape of an element as the decoder holds it.
pub open spec fn shape_of(e: Elem) -> Shape {
    match e {
        Elem::Num(n) => Shape::Num(n),
        Elem::Text(s) => Shape::Text(s@),
        Elem::Obj(_) => Shape::Obj,
        Elem::OtherVal => Shape::OtherVal,
        Elem::Missing => Shape::Missing,
    }
}

/// Relies on `serde_json::from_str::<Value>` together with `Value::get`,
/// `Value::as_i64`, `Value::as_str` and `Value::as_object`: reads element
/// `i` of the parsed payload array as its plain shape, which depends on
/// the text and the index alone. A failed parse, a non-array payload and
/// an out-of-range index all come back `Missing`; an integer beyond
/// `i64`, a float, a boolean, null and a nested array come back
/// `OtherVal`.
#[verifier::external_body]
fn decode_element(data: &str, i: usize) -> (e: Elem)
    ensures
        shape_of(e) == json_shape(data@, i as int),
{
    let parsed: Result<serde_json::Value, serde_json::Error> = serde_json::from_str(data);
    match parsed.ok().as_ref().and_then(|v| v.get(i)) {
        None => Elem::Missing,
        Some(x) => match (x.as_i64(), x.as_str(), x.as_object()) {
            (Some(n), _, _) => Elem::Num(n),
            (_, Some(s), _) => Elem::Text(s.to_owned()),
            (_, _, Some(m)) => Elem::Obj(m.clone()),
            _ => Elem::OtherVal,
        },
    }
}

/// Which message the four leading elements of the payload array form:
/// the first element must be the kind number, the second the unique id;
/// kind 2 (call) takes an action text and an object, kind 3 (call
/// result) an object, kind 4 (call error) a code and a description text.
/// Every other shape is a decoding error.
pub open spec fn spec_assemble(e0: Elem, e1: Elem, e2: Elem, e3: Elem) -> Result<
    Message,
    ParseError,
> {
    match (e0, e1) {
        (Elem::Num(t), Elem::Text(unique_id)) => if t == 2 {
            match (e2, e3) {
                (Elem::Text(action), Elem::Obj(data)) => Ok(
                    Message::Call { unique_id, action, data },
                ),
                _ => Err(ParseError),
            }
        } else if t == 3 {
            match e2 {
                Elem::Obj(data) => Ok(Message::CallResult { unique_id, data }),
                _ => Err(ParseError),
            }
        } else if t == 4 {
            match (e2, e3) {
                (Elem::Text(error_code), Elem::Text(error_description)) => Ok(
                    Message::CallError { unique_id, error_code, error_description },
                ),
                _ => Err(ParseError),
            }
        } else {
            Err(ParseError)
        },
        _ => Err(ParseError),
    }
}

/// Whether four element shapes form a message: the same table as
/// `spec_assemble`, read off the shapes alone.
pub open spec fn spec_forms_message(s0: Shape, s1: Shape, s2: Shape, s3: Shape) -> bool {
    match (s0, s1) {
        (Shape::Num(t), Shape::Text(_)) => if t == 2 {
            s2 is Text && s3 is Obj
        } else if t == 3 {
            s2 is Obj
        } else if t == 4 {
            s2 is Text && s3 is Text
        } else {
            false
        },
        _ => false,
    }
}

/// Whether a decoded message carries exactly what four element shapes
/// say: the kind number picks the variant, and each text field equals the
/// text at its position. The object payload has no further shape.
pub open spec fn spec_message_matches(m: Message, s0: Shape, s1: Shape, s2: Shape, s3: Shape) -> bool {
    match m {
        Message::Call { unique_id, action, data: _ } => {
            &&& s0 == Shape::Num(2)
            &&& s1 == Shape::Text(unique_id@)
            &&& s2 == Shape::Text(action@)
            &&& s3 is Obj
        },
        Message::CallResult { unique_id, data: _ } => {
            &&& s0 == Shape::Num(3)
            &&& s1 == Shape::Text(unique_id@)
            &&& s2 is Obj
        },
        Message::CallError { unique_id, error_code, error_description } => {
            &&& s0 == Shape::Num(4)
            &&& s1 == Shape::Text(unique_id@)
            &&& s2 == Shape::Text(error_code@)
            &&& s3 == Shape::Text(error_description@)
        },
    }
}

/// `spec_assemble` agrees with the shape table: it succeeds exactly when
/// the four shapes form a message, and the message it forms carries what
/// the shapes say.
pub proof fn lemma_assemble_matches_shapes(e0: Elem, e1: Elem, e2: Elem, e3: Elem)
    ensures
        spec_assemble(e0, e1, e2, e3) is Ok <==> spec_forms_message(
            shape_of(e0),
            shape_of(e1),
            shape_of(e2),
            shape_of(e3),
        ),
        spec_assemble(e0, e1, e2, e3) is Ok ==> spec_message_matches(
            spec_assemble(e0, e1, e2, e3).unwrap(),
            shape_of(e0),
            shape_of(e1),
            shape_of(e2),
            shape_of(e3),
        ),
{
}

/// Form the message that the four leading elements describe, exactly as
/// `spec_assemble` states it.
pub fn assemble_message(e0: Elem, e1: Elem, e2: Elem, e3: Elem) -> (r: Result<Message, ParseError>)
    ensures
        r == spec_assemble(e0, e1, e2, e3),
{
    match (e0, e1) {
        (Elem::Num(t), Elem::Text(unique_id)) => if t == 2 {
            match (e2, e3) {
                (Elem::Text(action), Elem::Obj(data)) => Ok(
                    Message::Call { unique_id, action, data },
                ),
                _ => Err(ParseError),
            }
        } else if t == 3 {
            match e2 {
                Elem::Obj(data) => Ok(Message::CallResult { unique_id, data }),
                _ => Err(ParseError),
            }
        } else if t == 4 {
            match (e2, e3) {
                (Elem::Text(error_code), Elem::Text(error_description)) => Ok(
                    Message::CallError { unique_id, error_code, error_description },
                ),
                _ => Err(ParseError),
            }
        } else {
            Err(ParseError)
        },
        _ => Err(ParseError),
    }
}

/// Decode one protocol message from JSON text: it succeeds exactly when
/// the named shapes of the four leading elements form a message, and the
/// message returned carries the kind and the texts those shapes name.
/// Everything else — text that is not JSON included, since every element
/// of such text reads as `Missing` — is the one decoding error.
pub fn parse_json(data: &str) -> (r: Result<Message, ParseError>)
    ensures
        r is Ok <==> spec_forms_message(
            json_shape(data@, 0),
            json_shape(data@, 1),
            json_shape(data@, 2),
            json_shape(data@, 3),
        ),
        r is Ok ==> spec_message_matches(
            r.unwrap(),
            json_shape(data@, 0),
            json_shape(data@, 1),
            json_shape(data@, 2),
            json_shape(data@, 3),
        ),
{
    let e0 = decode_element(data, 0);
    let e1 = decode_element(data, 1);
    let e2 = decode_element(data, 2);
    let e3 = decode_element(data, 3);
    proof {
        lemma_assemble_matches_shapes(e0, e1, e2, e3);
    }
    assemble_message(e0, e1, e2, e3)
}

} // verus!
