//! What the replies to `INFO` and `CONFIG GET` say.

use vstd::prelude::*;
use vstd::utf8::*;
use crate::err::CusError;
use crate::fields::Fields;
use crate::reply::{all_text, text_of, texts_of, Reply};
use crate::text::{cut, cut_first, decode, pieces, split, views};

verus! {

/// The fields that a list of lines states: a line with a colon puts what
/// stands behind its first colon under what stands before it. A line without
/// a colon states nothing. Of two lines with the same key the later one
/// counts.
pub open spec fn line_fields(lines: Seq<Seq<char>>) -> Map<Seq<char>, Seq<char>>
    decreases lines.len(),
{
    if lines.len() == 0 {
        Map::empty()
    } else {
        match cut(lines.last(), ':') {
            Some((key, value)) => line_fields(lines.drop_last()).insert(key, value),
            None => line_fields(lines.drop_last()),
        }
    }
}

/// The fields that one `INFO` text states. Its lines end in a carriage
/// return and a line feed.
pub open spec fn info_fields(text: Seq<char>) -> Map<Seq<char>, Seq<char>> {
    line_fields(pieces(text, seq!['\r', '\n']))
}

/// Parses one `INFO` text.
pub fn parse_info(text: &str) -> (fields: Fields)
    ensures
        fields@ == info_fields(text@),
{
    proof {
        reveal_strlit("\r\n");
        assert("\r\n"@ == seq!['\r', '\n']);
    }
    let lines = split(text, "\r\n");
    let mut fields = Fields::new();
    let mut i: usize = 0;
    while i < lines.len()
        invariant
            i <= lines.len(),
            fields@ == line_fields(views(lines@).take(i as int)),
        decreases lines.len() - i,
    {
        match cut_first(lines[i].as_str(), ':') {
            Some((key, value)) => {
                fields.insert(key, value);
            },
            None => {},
        }
        i += 1;
        assert(views(lines@).take(i as int).drop_last() == views(lines@).take(i - 1));
        assert(views(lines@).take(i as int).last() == lines@[i - 1]@);
    }
    assert(views(lines@).take(lines.len() as int) == views(lines@));
    fields
}

/// The sections that a reply to `INFO` holds: one for a single blob, which
/// is what a single node answers, and one for each item of a list, which is
/// what a cluster answers. `None` for a reply of any other shape, and where
/// a blob is not valid text.
pub open spec fn info_of(reply: Reply) -> Option<Seq<Map<Seq<char>, Seq<char>>>> {
    match reply {
        Reply::Data(bytes) => if valid_utf8(bytes@) {
            Some(seq![info_fields(decode_utf8(bytes@))])
        } else {
            None
        },
        Reply::Bulk(items) => if all_text(items@) {
            Some(Seq::new(items@.len(), |i: int| info_fields(text_of(items@[i]).unwrap())))
        } else {
            None
        },
        _ => None,
    }
}

/// The maps that a list of sections stands for.
pub open spec fn section_views(sections: Seq<Fields>) -> Seq<Map<Seq<char>, Seq<char>>> {
    Seq::new(sections.len(), |i: int| sections[i]@)
}

/// Reads the reply to `INFO`.
pub fn read_info(reply: &Reply) -> (r: Result<Vec<Fields>, CusError>)
    ensures
        r is Ok <==> info_of(*reply) is Some,
        r matches Ok(sections) ==> info_of(*reply) == Some(section_views(sections@)),
        r matches Err(e) ==> e is ProtocolError,
{
    match reply {
        Reply::Data(bytes) => {
            match decode(bytes) {
                Some(text) => {
                    let mut sections: Vec<Fields> = Vec::new();
                    sections.push(parse_info(text.as_str()));
                    assert(section_views(sections@) == seq![info_fields(text@)]);
                    Ok(sections)
                },
                None => Err(CusError::ProtocolError("Unexpected reply to INFO".to_string())),
            }
        },
        Reply::Bulk(items) => {
            let mut sections: Vec<Fields> = Vec::new();
            let mut i: usize = 0;
            while i < items.len()
                invariant
                    i <= items.len(),
                    sections.len() == i,
                    *reply == Reply::Bulk(*items),
                    forall|k: int|
                        0 <= k < i ==> text_of(#[trigger] items@[k]) is Some && sections@[k]@
                            == info_fields(text_of(items@[k]).unwrap()),
                decreases items.len() - i,
            {
                match items[i].as_text() {
                    Ok(text) => {
                        sections.push(parse_info(text.as_str()));
                    },
                    Err(e) => {
                        assert(text_of(items@[i as int]) is None);
                        return Err(e);
                    },
                }
                i += 1;
            }
            assert(section_views(sections@) == Seq::new(
                items@.len(),
                |i: int| info_fields(text_of(items@[i]).unwrap()),
            ));
            Ok(sections)
        },
        _ => Err(CusError::ProtocolError("Unexpected reply to INFO".to_string())),
    }
}

/// The server version that a list of sections names: what stands under
/// `redis_version` in the first section, the empty text where nothing does.
pub open spec fn version_of(sections: Seq<Map<Seq<char>, Seq<char>>>) -> Seq<char> {
    if sections.len() > 0 && sections[0].contains_key("redis_version"@) {
        sections[0]["redis_version"@]
    } else {
        Seq::empty()
    }
}

/// Reads the server version out of the sections of `INFO`.
pub fn read_version(sections: &Vec<Fields>) -> (version: String)
    ensures
        version@ == version_of(section_views(sections@)),
{
    if sections.len() > 0 {
        match sections[0].get("redis_version") {
            Some(version) => {
                return version.clone();
            },
            None => {},
        }
    }
    String::new()
}

/// The fields that a flat list of alternating keys and values states. A key
/// at the end that has no value beside it is dropped. Of two pairs with the
/// same key the later one counts.
pub open spec fn paired(words: Seq<Seq<char>>) -> Map<Seq<char>, Seq<char>>
    decreases words.len(),
{
    if words.len() < 2 {
        Map::empty()
    } else if words.len() % 2 == 1 {
        paired(words.drop_last())
    } else {
        paired(words.take(words.len() - 2)).insert(words[words.len() - 2], words.last())
    }
}

/// Pairs up a flat list of alternating keys and values.
pub fn pair_up(words: &Vec<String>) -> (fields: Fields)
    ensures
        fields@ == paired(views(words@)),
{
    let mut fields = Fields::new();
    let mut i: usize = 0;
    while i < words.len() && i + 1 < words.len()
        invariant
            i <= words.len(),
            i % 2 == 0,
            fields@ == paired(views(words@).take(i as int)),
        decreases words.len() - i,
    {
        fields.insert(words[i].clone(), words[i + 1].clone());
        i += 2;
        assert(views(words@).take(i as int).take(i - 2) == views(words@).take(i - 2));
    }
    proof {
        let all = views(words@);
        if i == words.len() {
            assert(all.take(i as int) == all);
        } else {
            assert(all.drop_last() == all.take(i as int));
        }
    }
    fields
}

/// The fields that a reply to `CONFIG GET` states, where it is a list of
/// texts.
pub open spec fn config_of(reply: Reply) -> Option<Map<Seq<char>, Seq<char>>> {
    match texts_of(reply) {
        Some(words) => Some(paired(words)),
        None => None,
    }
}

/// Reads the reply to `CONFIG GET`.
pub fn read_config(reply: &Reply) -> (r: Result<Fields, CusError>)
    ensures
        r is Ok <==> config_of(*reply) is Some,
        r matches Ok(fields) ==> config_of(*reply) == Some(fields@),
        r matches Err(e) ==> e is ProtocolError,
{
    match reply.as_texts() {
        Ok(words) => Ok(pair_up(&words)),
        Err(e) => Err(e),
    }
}

} // verus!
