//! The commands of the Top-K sketch and how their replies are read.

use vstd::prelude::*;
use crate::command::{build, build2, build3, cmd_args, text_args};
use crate::err::CusError;
use crate::reply::{int_of, text_of, Reply};
use crate::text::{decimal, decimal_text, views};

verus! {

/// One item of a sketch with its count.
#[derive(Clone, Debug, PartialEq, Eq)]
pub struct Field {
    pub field: String,
    pub value: i64,
}

/// The arguments of the command that creates a sketch.
pub open spec fn reserve_args(
    name: Seq<char>,
    top_k: i64,
    width: i64,
    depth: i64,
    decay: Seq<char>,
) -> Seq<Option<Seq<u8>>> {
    text_args(
        seq![
            "TOPK.RESERVE"@,
            name,
            decimal_text(top_k as int),
            decimal_text(width as int),
            decimal_text(depth as int),
            decay,
        ],
    )
}

/// The command that creates a sketch. The decay is given as the text that
/// stands for it on the wire.
pub fn reserve(name: &str, top_k: i64, width: i64, depth: i64, decay: &str) -> (cmd: redis::Cmd)
    ensures
        cmd_args(cmd) == reserve_args(name@, top_k, width, depth, decay@),
{
    let mut words: Vec<String> = Vec::new();
    words.push(name.to_string());
    words.push(decimal(top_k));
    words.push(decimal(width));
    words.push(decimal(depth));
    words.push(decay.to_string());
    let cmd = build("TOPK.RESERVE", &words);
    assert(seq!["TOPK.RESERVE"@] + views(words@) == seq![
        "TOPK.RESERVE"@,
        name@,
        decimal_text(top_k as int),
        decimal_text(width as int),
        decimal_text(depth as int),
        decay@,
    ]);
    cmd
}

/// The command that lists the items of a sketch with their counts.
pub fn list(name: &str) -> (cmd: redis::Cmd)
    ensures
        cmd_args(cmd) == text_args(seq!["TOPK.LIST"@, name@, "WITHCOUNT"@]),
{
    build3("TOPK.LIST", name, "WITHCOUNT")
}

/// Whether each pair of neighbours among the items, from the first on, is a
/// text and then a number. An item at the end that has no neighbour is not
/// looked at.
pub open spec fn pairs_readable(items: Seq<Reply>) -> bool {
    forall|k: int|
        0 <= k && 2 * k + 1 < items.len() ==> text_of(#[trigger] items[2 * k]) is Some && int_of(
            items[2 * k + 1],
        ) is Some
}

/// Whether the fields are what the pairs among the items say, one for one
/// and in order.
pub open spec fn counts(fields: Seq<Field>, items: Seq<Reply>) -> bool {
    &&& fields.len() == items.len() / 2
    &&& forall|k: int|
        0 <= k < fields.len() ==> (#[trigger] fields[k]).field@ == text_of(items[2 * k]).unwrap()
            && fields[k].value == int_of(items[2 * k + 1]).unwrap()
}

/// Reads a flat list of alternating items and counts.
pub fn read_counts(items: &Vec<Reply>) -> (r: Result<Vec<Field>, CusError>)
    ensures
        r is Ok <==> pairs_readable(items@),
        r matches Ok(fields) ==> counts(fields@, items@),
        r matches Err(e) ==> e is ProtocolError,
{
    let mut fields: Vec<Field> = Vec::new();
    let mut i: usize = 0;
    while i < items.len() && i + 1 < items.len()
        invariant
            i <= items.len(),
            i % 2 == 0,
            fields.len() == i / 2,
            forall|k: int|
                0 <= k && 2 * k + 1 < i ==> text_of(#[trigger] items@[2 * k]) is Some && int_of(
                    items@[2 * k + 1],
                ) is Some,
            forall|k: int|
                0 <= k < fields.len() ==> (#[trigger] fields@[k]).field@ == text_of(
                    items@[2 * k],
                ).unwrap() && fields@[k].value == int_of(items@[2 * k + 1]).unwrap(),
        decreases items.len() - i,
    {
        let field = match items[i].as_text() {
            Ok(text) => text,
            Err(e) => {
                assert(text_of(items@[2 * (i as int / 2)]) is None);
                return Err(e);
            },
        };
        let value = match items[i + 1].as_int() {
            Ok(n) => n,
            Err(e) => {
                assert(int_of(items@[2 * (i as int / 2) + 1]) is None);
                return Err(e);
            },
        };
        fields.push(Field { field: field, value: value });
        i += 2;
    }
    Ok(fields)
}

/// The items of the reply to the listing: those of a list, none where the
/// store has no value, and the blob itself where the reply is a single blob.
/// `None` for any other reply.
pub open spec fn listed(reply: Reply) -> Option<Seq<Reply>> {
    match reply {
        Reply::Bulk(items) => Some(items@),
        Reply::Nil => Some(Seq::empty()),
        Reply::Data(bytes) => Some(seq![reply]),
        _ => None,
    }
}

/// Reads the reply to the listing of a sketch.
pub fn list_with(reply: &Reply) -> (r: Result<Vec<Field>, CusError>)
    ensures
        r is Ok <==> (listed(*reply) matches Some(items) && pairs_readable(items)),
        r matches Ok(fields) ==> counts(fields@, listed(*reply).unwrap()),
        r matches Err(e) ==> e is ProtocolError,
{
    match reply {
        Reply::Bulk(items) => read_counts(items),
        Reply::Nil => Ok(Vec::new()),
        Reply::Data(_) => Ok(Vec::new()),
        _ => Err(CusError::ProtocolError("Response type not vector compatible.".to_string())),
    }
}

/// The command that asks for the parameters of a sketch.
pub fn info(name: &str) -> (cmd: redis::Cmd)
    ensures
        cmd_args(cmd) == text_args(seq!["TOPK.INFO"@, name@]),
{
    build2("TOPK.INFO", name)
}

/// The command that adds an item to a sketch.
pub fn add(name: &str, value: &str) -> (cmd: redis::Cmd)
    ensures
        cmd_args(cmd) == text_args(seq!["TOPK.ADD"@, name@, value@]),
{
    build3("TOPK.ADD", name, value)
}

/// What the reply to adding an item says: `nil` where the store has no
/// value to give, `OK` for every other reply.
pub open spec fn added(reply: Reply) -> Seq<char> {
    if reply is Nil {
        "nil"@
    } else {
        "OK"@
    }
}

/// Reads the reply to adding an item.
pub fn add_with(reply: &Reply) -> (answer: String)
    ensures
        answer@ == added(*reply),
{
    match reply {
        Reply::Nil => "nil".to_string(),
        _ => "OK".to_string(),
    }
}

/// The words that a list of items with their increments is sent as: each
/// item, then its increment in decimal notation.
pub open spec fn increment_words(items: Seq<(String, i64)>) -> Seq<Seq<char>>
    decreases items.len(),
{
    if items.len() == 0 {
        Seq::empty()
    } else {
        increment_words(items.drop_last()).push(items.last().0@).push(
            decimal_text(items.last().1 as int),
        )
    }
}

/// The command that raises the counts of items in a sketch.
pub fn incrby(name: &str, items: &Vec<(String, i64)>) -> (cmd: redis::Cmd)
    ensures
        cmd_args(cmd) == text_args(seq!["TOPK.INCRBY"@, name@] + increment_words(items@)),
{
    let mut words: Vec<String> = Vec::new();
    words.push(name.to_string());
    let mut i: usize = 0;
    while i < items.len()
        invariant
            i <= items.len(),
            views(words@) == seq![name@] + increment_words(items@.take(i as int)),
        decreases items.len() - i,
    {
        let ghost before = views(words@);
        let item = items[i].0.clone();
        let by = decimal(items[i].1);
        words.push(item);
        words.push(by);
        assert(views(words@) == before.push(item@).push(by@));
        i += 1;
        assert(items@.take(i as int).drop_last() == items@.take(i - 1));
    }
    assert(items@.take(items.len() as int) == items@);
    let cmd = build("TOPK.INCRBY", &words);
    assert(seq!["TOPK.INCRBY"@] + views(words@) == seq!["TOPK.INCRBY"@, name@] + increment_words(
        items@,
    ));
    cmd
}

/// The command made of a name, a key and a list of values.
fn keyed(command: &str, name: &str, values: &Vec<String>) -> (cmd: redis::Cmd)
    ensures
        cmd_args(cmd) == text_args(seq![command@, name@] + views(values@)),
{
    let mut words: Vec<String> = Vec::new();
    words.push(name.to_string());
    let mut i: usize = 0;
    while i < values.len()
        invariant
            i <= values.len(),
            views(words@) == seq![name@] + views(values@).take(i as int),
        decreases values.len() - i,
    {
        let ghost before = views(words@);
        let value = values[i].clone();
        words.push(value);
        assert(views(words@) == before.push(value@));
        i += 1;
    }
    assert(views(values@).take(values.len() as int) == views(values@));
    let cmd = build(command, &words);
    assert(seq![command@] + views(words@) == seq![command@, name@] + views(values@));
    cmd
}

/// The command that asks whether items are among the top of a sketch.
pub fn query(name: &str, values: &Vec<String>) -> (cmd: redis::Cmd)
    ensures
        cmd_args(cmd) == text_args(seq!["TOPK.QUERY"@, name@] + views(values@)),
{
    keyed("TOPK.QUERY", name, values)
}

/// The command that asks for the counts of items in a sketch.
pub fn count(name: &str, values: &Vec<String>) -> (cmd: redis::Cmd)
    ensures
        cmd_args(cmd) == text_args(seq!["TOPK.COUNT"@, name@] + views(values@)),
{
    keyed("TOPK.COUNT", name, values)
}

} // verus!
