//! Decoded inbound FIX messages: a message-type tag, a tag/value field list,
//! and the raw text, as handed over by the transport's decoder.

use vstd::prelude::*;

verus! {

/// Relies on str's PartialEq: true exactly when the two texts are equal.
#[verifier::external_body]
fn str_eq(a: &str, b: &str) -> (r: bool)
    ensures
        r == (a@ == b@),
{
    a == b
}

/// FIX field tags that the session engine reads from responses.
#[derive(Clone, Copy, Debug, PartialEq, Eq, Structural)]
pub enum Field {
    TestReqID,
}

/// The numeric wire tag of a field.
pub open spec fn spec_field_tag(f: Field) -> u32 {
    match f {
        Field::TestReqID => 112,
    }
}

/// Model of one decoded tag/value pair.
#[verifier::ext_equal]
pub ghost struct FieldModel {
    pub tag: u32,
    pub value: Seq<char>,
}

/// One decoded tag/value pair of a response.
pub struct FixField {
    tag: u32,
    value: String,
}

impl View for FixField {
    type V = FieldModel;

    closed spec fn view(&self) -> FieldModel {
        FieldModel { tag: self.tag, value: self.value@ }
    }
}

impl FixField {
    pub fn new(tag: u32, value: String) -> (r: Self)
        ensures
            r@ == (FieldModel { tag, value: value@ }),
    {
        FixField { tag, value }
    }
}

/// Model of a decoded response.
#[verifier::ext_equal]
pub ghost struct ResponseModel {
    pub msg_type: Seq<char>,
    pub fields: Seq<FieldModel>,
    pub raw: Seq<char>,
}

/// The value of the first field carrying `tag`, if any.
pub open spec fn lookup_field(fields: Seq<FieldModel>, tag: u32) -> Option<Seq<char>>
    decreases fields.len(),
{
    if fields.len() == 0 {
        None
    } else if fields[0].tag == tag {
        Some(fields[0].value)
    } else {
        lookup_field(fields.drop_first(), tag)
    }
}

/// The value a response carries for a field, if any.
pub open spec fn spec_field_value(m: ResponseModel, f: Field) -> Option<Seq<char>> {
    lookup_field(m.fields, spec_field_tag(f))
}

/// A session-layer Logon acknowledgement.
pub open spec fn spec_is_logon_ack(m: ResponseModel) -> bool {
    m.msg_type == "A"@
}

/// A session-layer Test-Request.
pub open spec fn spec_is_test_request(m: ResponseModel) -> bool {
    m.msg_type == "1"@
}

/// An immutable decoded response from the venue.
pub struct ResponseMessage {
    msg_type: String,
    fields: Vec<FixField>,
    raw: String,
}

impl View for ResponseMessage {
    type V = ResponseModel;

    closed spec fn view(&self) -> ResponseModel {
        ResponseModel {
            msg_type: self.msg_type@,
            fields: self.fields@.map_values(|f: FixField| f@),
            raw: self.raw@,
        }
    }
}

impl ResponseMessage {
    pub fn new(msg_type: String, fields: Vec<FixField>, raw: String) -> (r: Self)
        ensures
            r@ == (ResponseModel {
                msg_type: msg_type@,
                fields: fields@.map_values(|f: FixField| f@),
                raw: raw@,
            }),
    {
        ResponseMessage { msg_type, fields, raw }
    }

    /// The message-type tag of this response.
    pub fn get_message_type(&self) -> (r: &str)
        ensures
            r@ == self@.msg_type,
    {
        self.msg_type.as_str()
    }

    /// The raw decoded text of this response.
    pub fn get_message(&self) -> (r: &str)
        ensures
            r@ == self@.raw,
    {
        self.raw.as_str()
    }

    /// True exactly when this response is a Logon acknowledgement.
    pub fn is_logon_ack(&self) -> (r: bool)
        ensures
            r == spec_is_logon_ack(self@),
    {
        str_eq(self.msg_type.as_str(), "A")
    }

    /// True exactly when this response is a Test-Request.
    pub fn is_test_request(&self) -> (r: bool)
        ensures
            r == spec_is_test_request(self@),
    {
        str_eq(self.msg_type.as_str(), "1")
    }

    /// The value of the first occurrence of `field`, if the response carries
    /// one.
    pub fn get_field_value(&self, field: Field) -> (r: Option<String>)
        ensures
            r is Some <==> spec_field_value(self@, field) is Some,
            r matches Some(v) ==> spec_field_value(self@, field) == Some(v@),
    {
        let tag = match field {
            Field::TestReqID => 112u32,
        };
        let ghost all = self@.fields;
        let n = self.fields.len();
        proof {
            assert(all.skip(0) =~= all);
        }
        for i in 0..n
            invariant
                n == self.fields.len(),
                all == self@.fields,
                tag == spec_field_tag(field),
                lookup_field(all, tag) == lookup_field(all.skip(i as int), tag),
        {
            proof {
                assert(all.skip(i as int)[0] == all[i as int]);
                assert(all.skip(i as int).drop_first() =~= all.skip(i + 1));
            }
            if self.fields[i].tag == tag {
                return Some(self.fields[i].value.clone());
            }
        }
        proof {
            assert(all.skip(n as int) =~= Seq::<FieldModel>::empty());
        }
        None
    }
}

} // verus!
