//! The nodes of a cluster, as `CLUSTER NODES` lists them.

use vstd::prelude::*;
use crate::conn::RedisConnectionParams;
use crate::err::CusError;
use crate::reply::{text_of, Reply};
use crate::text::{blank, is_blank, pieces, split, views};

verus! {

/// One node of a cluster: the fields of its line in the topology, and the
/// parameters of the connection that discovered it.
#[derive(Clone, Debug, PartialEq, Eq)]
pub struct Node {
    /// The node's identifier.
    pub id: String,
    /// The node's address.
    pub host: String,
    /// The node's flags, which name its role.
    pub flags: String,
    /// The identifier of the node's master, or `-`.
    pub master: String,
    pub ping_sent: String,
    pub pong_recv: String,
    pub config_epoch: String,
    pub link_state: String,
    /// The slots that the node serves.
    pub slots: Vec<String>,
    pub params: RedisConnectionParams,
}

/// The word at index `i`, or the empty text where the line has no such word.
pub open spec fn word(words: Seq<Seq<char>>, i: int) -> Seq<char> {
    if 0 <= i < words.len() {
        words[i]
    } else {
        Seq::empty()
    }
}

/// The words of a line: what stands between its single spaces.
pub open spec fn words_of(line: Seq<char>) -> Seq<Seq<char>> {
    pieces(line, seq![' '])
}

/// Whether a node holds what a line of the topology says, for a connection
/// with the given parameters.
pub open spec fn describes(node: Node, line: Seq<char>, params: RedisConnectionParams) -> bool {
    let words = words_of(line);
    &&& node.id@ == word(words, 0)
    &&& node.host@ == word(words, 1)
    &&& node.flags@ == word(words, 2)
    &&& node.master@ == word(words, 3)
    &&& node.ping_sent@ == word(words, 4)
    &&& node.pong_recv@ == word(words, 5)
    &&& node.config_epoch@ == word(words, 6)
    &&& node.link_state@ == word(words, 7)
    &&& views(node.slots@) == if words.len() > 8 {
        words.skip(8)
    } else {
        Seq::empty()
    }
    &&& node.params == params
}

/// The word at index `i`.
fn take_word(words: &Vec<String>, i: usize) -> (w: String)
    ensures
        w@ == word(views(words@), i as int),
{
    if i < words.len() {
        words[i].clone()
    } else {
        String::new()
    }
}

impl Node {
    /// Parses one line of the topology.
    pub fn build(line: String, params: RedisConnectionParams) -> (node: Node)
        ensures
            describes(node, line@, params),
    {
        proof {
            reveal_strlit(" ");
            assert(" "@ == seq![' ']);
        }
        let words = split(line.as_str(), " ");
        let mut slots: Vec<String> = Vec::new();
        let mut i: usize = 8;
        while i < words.len()
            invariant
                8 <= i,
                words.len() > 8 ==> i <= words.len(),
                words.len() > 8 ==> views(slots@) == views(words@).subrange(8, i as int),
                words.len() <= 8 ==> slots@.len() == 0,
            decreases words.len() - i,
        {
            let ghost before = views(slots@);
            let slot = words[i].clone();
            slots.push(slot);
            assert(views(slots@) == before.push(slot@));
            i += 1;
        }
        proof {
            if words.len() > 8 {
                assert(views(words@).subrange(8, words.len() as int) == views(words@).skip(8));
            } else {
                assert(views(slots@) == Seq::<Seq<char>>::empty());
            }
        }
        Node {
            id: take_word(&words, 0),
            host: take_word(&words, 1),
            flags: take_word(&words, 2),
            master: take_word(&words, 3),
            ping_sent: take_word(&words, 4),
            pong_recv: take_word(&words, 5),
            config_epoch: take_word(&words, 6),
            link_state: take_word(&words, 7),
            slots: slots,
            params: params,
        }
    }

    /// A copy of the node.
    pub fn duplicate(&self) -> (copy: Node)
        ensures
            copy.id == self.id,
            copy.host == self.host,
            copy.flags == self.flags,
            copy.master == self.master,
            copy.ping_sent == self.ping_sent,
            copy.pong_recv == self.pong_recv,
            copy.config_epoch == self.config_epoch,
            copy.link_state == self.link_state,
            copy.slots@ == self.slots@,
            copy.params == self.params,
    {
        let mut slots: Vec<String> = Vec::new();
        let mut i: usize = 0;
        while i < self.slots.len()
            invariant
                i <= self.slots.len(),
                slots@ == self.slots@.take(i as int),
            decreases self.slots.len() - i,
        {
            slots.push(self.slots[i].clone());
            i += 1;
        }
        assert(self.slots@.take(self.slots.len() as int) == self.slots@);
        Node {
            id: self.id.clone(),
            host: self.host.clone(),
            flags: self.flags.clone(),
            master: self.master.clone(),
            ping_sent: self.ping_sent.clone(),
            pong_recv: self.pong_recv.clone(),
            config_epoch: self.config_epoch.clone(),
            link_state: self.link_state.clone(),
            slots: slots,
            params: self.params.duplicate(),
        }
    }
}

/// Whether two lists hold the same nodes.
pub open spec fn same_nodes(a: Seq<Node>, b: Seq<Node>) -> bool {
    &&& a.len() == b.len()
    &&& forall|i: int|
        0 <= i < a.len() ==> {
            &&& (#[trigger] a[i]).id == b[i].id
            &&& a[i].host == b[i].host
            &&& a[i].flags == b[i].flags
            &&& a[i].master == b[i].master
            &&& a[i].ping_sent == b[i].ping_sent
            &&& a[i].pong_recv == b[i].pong_recv
            &&& a[i].config_epoch == b[i].config_epoch
            &&& a[i].link_state == b[i].link_state
            &&& a[i].slots@ == b[i].slots@
            &&& a[i].params == b[i].params
        }
}

/// A copy of a list of nodes.
pub fn copy_nodes(nodes: &Vec<Node>) -> (copy: Vec<Node>)
    ensures
        same_nodes(copy@, nodes@),
{
    let mut copy: Vec<Node> = Vec::new();
    let mut i: usize = 0;
    while i < nodes.len()
        invariant
            i <= nodes.len(),
            same_nodes(copy@, nodes@.take(i as int)),
        decreases nodes.len() - i,
    {
        copy.push(nodes[i].duplicate());
        i += 1;
    }
    assert(nodes@.take(nodes.len() as int) == nodes@);
    copy
}

/// The lines among `lines` that hold more than white space, in order.
pub open spec fn filled(lines: Seq<Seq<char>>) -> Seq<Seq<char>>
    decreases lines.len(),
{
    if lines.len() == 0 {
        Seq::empty()
    } else if is_blank(lines.last()) {
        filled(lines.drop_last())
    } else {
        filled(lines.drop_last()).push(lines.last())
    }
}

/// The lines of a topology text that describe a node: the text is cut at its
/// line feeds, and blank lines are skipped.
pub open spec fn node_lines(text: Seq<char>) -> Seq<Seq<char>> {
    filled(pieces(text, seq!['\n']))
}

/// Whether the nodes are those that the lines describe, one for one and in
/// order.
pub open spec fn lists(nodes: Seq<Node>, lines: Seq<Seq<char>>, params: RedisConnectionParams) -> bool {
    &&& nodes.len() == lines.len()
    &&& forall|i: int| 0 <= i < nodes.len() ==> describes(#[trigger] nodes[i], lines[i], params)
}

/// Parses a topology text.
pub fn parse_nodes(text: &str, params: &RedisConnectionParams) -> (nodes: Vec<Node>)
    ensures
        lists(nodes@, node_lines(text@), *params),
{
    proof {
        reveal_strlit("\n");
        assert("\n"@ == seq!['\n']);
    }
    let lines = split(text, "\n");
    let mut nodes: Vec<Node> = Vec::new();
    let mut i: usize = 0;
    while i < lines.len()
        invariant
            i <= lines.len(),
            lists(nodes@, filled(views(lines@).take(i as int)), *params),
        decreases lines.len() - i,
    {
        if !blank(lines[i].as_str()) {
            let node = Node::build(lines[i].clone(), params.duplicate());
            nodes.push(node);
        }
        i += 1;
        assert(views(lines@).take(i as int).drop_last() == views(lines@).take(i - 1));
        assert(views(lines@).take(i as int).last() == lines@[i - 1]@);
    }
    assert(views(lines@).take(lines.len() as int) == views(lines@));
    nodes
}

/// Reads the reply to `CLUSTER NODES`.
pub fn read_nodes(reply: &Reply, params: &RedisConnectionParams) -> (r: Result<Vec<Node>, CusError>)
    ensures
        r is Ok <==> text_of(*reply) is Some,
        r matches Ok(nodes) ==> lists(nodes@, node_lines(text_of(*reply).unwrap()), *params),
        r matches Err(e) ==> e is ProtocolError,
{
    match reply.as_text() {
        Ok(text) => Ok(parse_nodes(text.as_str(), params)),
        Err(e) => Err(e),
    }
}

} // verus!
