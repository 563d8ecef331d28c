//! Replies of the store, and how they are normalized into display text.

use vstd::prelude::*;
use vstd::utf8::*;
use crate::err::CusError;
use crate::text::{binary, binary_text, decimal, decimal_text, decode, views};

verus! {

/// One reply of the store.
#[derive(Debug, PartialEq, Eq)]
pub enum Reply {
    /// The store has no value to give.
    Nil,
    /// An integer.
    Int(i64),
    /// A binary blob.
    Data(Vec<u8>),
    /// A list of replies.
    Bulk(Vec<Reply>),
    /// A status line.
    Status(String),
    /// The acknowledgement `OK`.
    Okay,
}

/// `redis::Value`: a reply as the `redis` crate holds it.
#[verifier::external_type_specification]
#[verifier::external_body]
pub struct ExValue(redis::Value);

/// `redis::RedisError`: the error of the `redis` crate.
#[verifier::external_type_specification]
#[verifier::external_body]
pub struct ExRedisError(redis::RedisError);

/// The text that a reply stands for, where it stands for one: a blob that is
/// valid UTF-8, a status line, or the acknowledgement.
pub open spec fn text_of(reply: Reply) -> Option<Seq<char>> {
    match reply {
        Reply::Data(bytes) => if valid_utf8(bytes@) {
            Some(decode_utf8(bytes@))
        } else {
            None
        },
        Reply::Okay => Some("OK"@),
        Reply::Status(line) => Some(line@),
        _ => None,
    }
}

/// Whether each of the items stands for a text.
pub open spec fn all_text(items: Seq<Reply>) -> bool {
    forall|i: int| 0 <= i < items.len() ==> text_of(#[trigger] items[i]) is Some
}

/// The texts that a reply stands for, where it stands for a list of them: a
/// list whose items all stand for a text, a single blob that is valid UTF-8,
/// or no value, which stands for the empty list.
pub open spec fn texts_of(reply: Reply) -> Option<Seq<Seq<char>>> {
    match reply {
        Reply::Data(bytes) => if valid_utf8(bytes@) {
            Some(seq![decode_utf8(bytes@)])
        } else {
            None
        },
        Reply::Bulk(items) => if all_text(items@) {
            Some(Seq::new(items@.len(), |i: int| text_of(items@[i]).unwrap()))
        } else {
            None
        },
        Reply::Nil => Some(Seq::empty()),
        _ => None,
    }
}

/// Reads a reply as a text.
///
/// Trusted: wraps `redis::from_redis_value` for `String`, which decodes a
/// blob as UTF-8, takes a status line as it is and reads the acknowledgement
/// as `OK`; every other reply, and a blob that is not UTF-8, is an error.
#[verifier::external_body]
fn redis_text(reply: &Reply) -> (r: Result<String, redis::RedisError>)
    ensures
        r is Ok <==> text_of(*reply) is Some,
        r matches Ok(text) ==> text_of(*reply) == Some(text@),
{
    redis::from_redis_value::<String>(&reply.to_value())
}

/// Reads a reply as a list of texts.
///
/// Trusted: wraps `redis::from_redis_value` for `Vec<String>`, which reads
/// each item of a list as a text and fails if one of them fails, reads a
/// blob as a list of one text, and no value as the empty list; every other
/// reply is an error.
#[verifier::external_body]
fn redis_texts(reply: &Reply) -> (r: Result<Vec<String>, redis::RedisError>)
    ensures
        r is Ok <==> texts_of(*reply) is Some,
        r matches Ok(list) ==> texts_of(*reply) == Some(views(list@)),
{
    redis::from_redis_value::<Vec<String>>(&reply.to_value())
}

/// The number that a text spells, as `str::parse` reads it for `i64`; `None`
/// where the text spells none.
pub uninterp spec fn parsed_int(text: Seq<char>) -> Option<i64>;

/// The number that a reply stands for, where it stands for one: an integer,
/// or a status line or a blob of valid UTF-8 that spells a number.
pub open spec fn int_of(reply: Reply) -> Option<i64> {
    match reply {
        Reply::Int(n) => Some(n),
        Reply::Status(line) => parsed_int(line@),
        Reply::Data(bytes) => if valid_utf8(bytes@) {
            parsed_int(decode_utf8(bytes@))
        } else {
            None
        },
        _ => None,
    }
}

/// Reads a reply as a number.
///
/// Trusted: wraps `redis::from_redis_value` for `i64`, which takes an
/// integer as it is, parses a status line, and decodes a blob as UTF-8 and
/// parses it; every other reply, and a text that spells no number, is an
/// error.
#[verifier::external_body]
fn redis_int(reply: &Reply) -> (r: Result<i64, redis::RedisError>)
    ensures
        match *reply {
            Reply::Int(n) => r matches Ok(v) && v == n,
            Reply::Status(line) => match r {
                Ok(v) => parsed_int(line@) == Some(v),
                Err(_) => parsed_int(line@) is None,
            },
            Reply::Data(bytes) => match r {
                Ok(v) => valid_utf8(bytes@) && parsed_int(decode_utf8(bytes@)) == Some(v),
                Err(_) => !valid_utf8(bytes@) || parsed_int(decode_utf8(bytes@)) is None,
            },
            _ => r is Err,
        },
{
    redis::from_redis_value::<i64>(&reply.to_value())
}

/// The description of an error of the `redis` crate.
///
/// Trusted: wraps the `Display` of `redis::RedisError`. Nothing is claimed of
/// the text.
#[verifier::external_body]
fn error_text(e: &redis::RedisError) -> String {
    e.to_string()
}

/// The display text of a blob: the text it encodes where it is valid UTF-8,
/// and else the binary notations of its bytes, one after the other.
pub open spec fn blob_text(bytes: Seq<u8>) -> Seq<char> {
    if valid_utf8(bytes) {
        decode_utf8(bytes)
    } else {
        binary_text(bytes)
    }
}

/// The display texts of the blobs among `items`, in order. Items that are no
/// blobs contribute nothing.
pub open spec fn blob_texts(items: Seq<Reply>) -> Seq<Seq<char>>
    decreases items.len(),
{
    if items.len() == 0 {
        Seq::empty()
    } else {
        match items.last() {
            Reply::Data(bytes) => blob_texts(items.drop_last()).push(blob_text(bytes@)),
            _ => blob_texts(items.drop_last()),
        }
    }
}

/// The display texts of a list reply: each item that is a blob gives its
/// text, each item that is itself a list gives the texts of the blobs in it.
/// Anything else, and anything nested deeper, is dropped.
pub open spec fn list_texts(items: Seq<Reply>) -> Seq<Seq<char>>
    decreases items.len(),
{
    if items.len() == 0 {
        Seq::empty()
    } else {
        match items.last() {
            Reply::Data(bytes) => list_texts(items.drop_last()).push(blob_text(bytes@)),
            Reply::Bulk(inner) => list_texts(items.drop_last()) + blob_texts(inner@),
            _ => list_texts(items.drop_last()),
        }
    }
}

/// Renders a blob as its display text.
pub fn render_blob(bytes: &Vec<u8>) -> (text: String)
    ensures
        text@ == blob_text(bytes@),
{
    match decode(bytes) {
        Some(text) => text,
        None => binary(bytes),
    }
}

impl Reply {
    /// The same reply as the `redis` crate holds it.
    ///
    /// Trusted: builds the `redis::Value` of the same variant with the same
    /// fields.
    #[verifier::external_body]
    pub(crate) fn to_value(&self) -> redis::Value {
        match self {
            Reply::Nil => redis::Value::Nil,
            Reply::Int(n) => redis::Value::Int(*n),
            Reply::Data(bytes) => redis::Value::Data(bytes.clone()),
            Reply::Bulk(items) => redis::Value::Bulk(items.iter().map(|r| r.to_value()).collect()),
            Reply::Status(line) => redis::Value::Status(line.clone()),
            Reply::Okay => redis::Value::Okay,
        }
    }

    /// Reads the reply as a text.
    pub fn as_text(&self) -> (r: Result<String, CusError>)
        ensures
            r is Ok <==> text_of(*self) is Some,
            r matches Ok(text) ==> text_of(*self) == Some(text@),
            r matches Err(e) ==> e is ProtocolError,
    {
        match redis_text(self) {
            Ok(text) => Ok(text),
            Err(e) => Err(CusError::ProtocolError(error_text(&e))),
        }
    }

    /// Reads the reply as a list of texts.
    pub fn as_texts(&self) -> (r: Result<Vec<String>, CusError>)
        ensures
            r is Ok <==> texts_of(*self) is Some,
            r matches Ok(list) ==> texts_of(*self) == Some(views(list@)),
            r matches Err(e) ==> e is ProtocolError,
    {
        match redis_texts(self) {
            Ok(list) => Ok(list),
            Err(e) => Err(CusError::ProtocolError(error_text(&e))),
        }
    }

    /// Reads the reply as a number.
    pub fn as_int(&self) -> (r: Result<i64, CusError>)
        ensures
            r is Ok <==> int_of(*self) is Some,
            r matches Ok(n) ==> int_of(*self) == Some(n),
            r matches Err(e) ==> e is ProtocolError,
    {
        match redis_int(self) {
            Ok(n) => Ok(n),
            Err(e) => Err(CusError::ProtocolError(error_text(&e))),
        }
    }

    /// The display texts of a reply, before they are joined.
    pub open spec fn texts(self) -> Seq<Seq<char>> {
        match self {
            Reply::Bulk(items) => list_texts(items@),
            Reply::Int(n) => seq![decimal_text(n as int)],
            Reply::Nil => seq!["nil"@],
            Reply::Data(bytes) => seq![blob_text(bytes@)],
            Reply::Status(line) => seq![line@],
            Reply::Okay => seq!["OK"@],
        }
    }

    /// Normalizes a reply into its display texts.
    pub fn normalize(&self) -> (rep: Vec<String>)
        ensures
            views(rep@) == self.texts(),
    {
        let mut rep: Vec<String> = Vec::new();
        match self {
            Reply::Bulk(items) => {
                let mut i: usize = 0;
                while i < items.len()
                    invariant
                        i <= items.len(),
                        views(rep@) == list_texts(items@.take(i as int)),
                    decreases items.len() - i,
                {
                    let ghost before = views(rep@);
                    match &items[i] {
                        Reply::Data(bytes) => {
                            let text = render_blob(bytes);
                            rep.push(text);
                            assert(views(rep@) == before.push(text@));
                        },
                        Reply::Bulk(inner) => {
                            push_blob_texts(&mut rep, inner);
                        },
                        _ => {},
                    }
                    i += 1;
                    assert(items@.take(i as int).drop_last() == items@.take(i - 1));
                    assert(items@.take(i as int).last() == items@[i - 1]);
                }
                assert(items@.take(items.len() as int) == items@);
            },
            Reply::Int(n) => {
                let text = decimal(*n);
                rep.push(text);
                assert(views(rep@) == seq![text@]);
            },
            Reply::Nil => {
                let text = "nil".to_string();
                rep.push(text);
                assert(views(rep@) == seq![text@]);
            },
            Reply::Data(bytes) => {
                let text = render_blob(bytes);
                rep.push(text);
                assert(views(rep@) == seq![text@]);
            },
            Reply::Status(line) => {
                let text = line.clone();
                rep.push(text);
                assert(views(rep@) == seq![text@]);
            },
            Reply::Okay => {
                let text = "OK".to_string();
                rep.push(text);
                assert(views(rep@) == seq![text@]);
            },
        }
        rep
    }
}

/// Appends the display texts of the blobs among `items`.
fn push_blob_texts(rep: &mut Vec<String>, items: &Vec<Reply>)
    ensures
        views(final(rep)@) == views(old(rep)@) + blob_texts(items@),
{
    let mut i: usize = 0;
    while i < items.len()
        invariant
            i <= items.len(),
            views(rep@) == views(old(rep)@) + blob_texts(items@.take(i as int)),
        decreases items.len() - i,
    {
        let ghost before = views(rep@);
        match &items[i] {
            Reply::Data(bytes) => {
                let text = render_blob(bytes);
                rep.push(text);
                assert(views(rep@) == before.push(text@));
            },
            _ => {},
        }
        i += 1;
        assert(items@.take(i as int).drop_last() == items@.take(i - 1));
        assert(items@.take(i as int).last() == items@[i - 1]);
    }
    assert(items@.take(items.len() as int) == items@);
}

/// A blob that is not valid text, and whose bytes all have their highest bit
/// set, is displayed as binary digits: eight for each byte, and nothing
/// between them. This holds of the blob as a reply and of the blob as an
/// item of a list.
pub proof fn lemma_binary_blob(bytes: Vec<u8>)
    requires
        !valid_utf8(bytes@),
        forall|i: int| 0 <= i < bytes@.len() ==> bytes@[i] >= 128,
    ensures
        Reply::Data(bytes).texts() == seq![binary_text(bytes@)],
        blob_text(bytes@) == binary_text(bytes@),
        blob_text(bytes@).len() == 8 * bytes@.len(),
        crate::text::is_binary(blob_text(bytes@)),
{
    crate::text::lemma_binary_text_len(bytes@);
    crate::text::lemma_binary_text_is_binary(bytes@);
}

} // verus!
