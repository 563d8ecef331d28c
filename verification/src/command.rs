//! Commands as the `redis` crate builds them, and their readable form.

use vstd::prelude::*;
use vstd::string::StringSliceAdditionalSpecFns;
use vstd::utf8::*;
use crate::text::{binary_to_redis_str, decode, escaped_text, join, joined, views};

verus! {

/// `redis::Cmd`: a command under construction, a list of arguments of which
/// the first is the command's name.
#[verifier::external_type_specification]
#[verifier::external_body]
pub struct ExCmd(redis::Cmd);

/// The arguments that a command holds, in order: the bytes of an ordinary
/// argument, or `None` where the command holds its cursor placeholder.
pub uninterp spec fn cmd_args(cmd: redis::Cmd) -> Seq<Option<Seq<u8>>>;

/// A command that holds its name and nothing else.
///
/// Trusted: wraps `redis::cmd`, which makes an empty command and appends the
/// name's bytes as its first argument.
#[verifier::external_body]
pub(crate) fn new_cmd(name: &str) -> (cmd: redis::Cmd)
    ensures
        cmd_args(cmd) == seq![Some(name.spec_bytes())],
{
    redis::cmd(name)
}

/// Appends one argument to a command.
///
/// Trusted: wraps `redis::Cmd::arg` on a byte slice, which the crate writes
/// as a single argument holding exactly these bytes.
#[verifier::external_body]
pub(crate) fn push_arg(cmd: &mut redis::Cmd, word: &[u8])
    ensures
        cmd_args(*final(cmd)) == cmd_args(*old(cmd)).push(Some(word@)),
{
    cmd.arg(word);
}

/// The arguments of a command.
///
/// Trusted: wraps `redis::Cmd::args_iter`, which yields the arguments in
/// order, each either `Arg::Simple` with its bytes or `Arg::Cursor`.
#[verifier::external_body]
pub(crate) fn arg_list(cmd: &redis::Cmd) -> (args: Vec<Option<Vec<u8>>>)
    ensures
        arg_views(args@) == cmd_args(*cmd),
{
    cmd.args_iter().map(|a| match a {
        redis::Arg::Simple(bytes) => Some(bytes.to_vec()),
        redis::Arg::Cursor => None,
    }).collect()
}

/// The arguments of a list as byte sequences.
pub open spec fn arg_views(args: Seq<Option<Vec<u8>>>) -> Seq<Option<Seq<u8>>> {
    Seq::new(
        args.len(),
        |i: int|
            match args[i] {
                Some(bytes) => Some(bytes@),
                None => None,
            },
    )
}

/// How one argument reads: as the text it encodes where it is valid UTF-8,
/// in escaped form otherwise.
pub open spec fn arg_text(bytes: Seq<u8>) -> Seq<char> {
    if valid_utf8(bytes) {
        decode_utf8(bytes)
    } else {
        escaped_text(bytes)
    }
}

/// The readable words of a command: one per ordinary argument, in order. The
/// cursor placeholder has no word.
pub open spec fn command_words(args: Seq<Option<Seq<u8>>>) -> Seq<Seq<char>>
    decreases args.len(),
{
    if args.len() == 0 {
        Seq::empty()
    } else {
        match args.last() {
            Some(bytes) => command_words(args.drop_last()).push(arg_text(bytes)),
            None => command_words(args.drop_last()),
        }
    }
}

/// The readable form of a command: its words joined by single spaces.
pub open spec fn command_text(args: Seq<Option<Seq<u8>>>) -> Seq<char> {
    joined(command_words(args), seq![' '])
}

/// Renders the arguments of a command in readable form.
pub fn render_args(args: &Vec<Option<Vec<u8>>>) -> (s: String)
    ensures
        s@ == command_text(arg_views(args@)),
{
    let mut words: Vec<String> = Vec::new();
    let mut i: usize = 0;
    while i < args.len()
        invariant
            i <= args.len(),
            views(words@) == command_words(arg_views(args@).take(i as int)),
        decreases args.len() - i,
    {
        let ghost before = views(words@);
        match &args[i] {
            Some(bytes) => {
                let word = match decode(bytes) {
                    Some(text) => text,
                    None => binary_to_redis_str(bytes),
                };
                assert(word@ == arg_text(bytes@));
                words.push(word);
                assert(views(words@) == before.push(word@));
            },
            None => {},
        }
        i += 1;
        assert(arg_views(args@).take(i as int).drop_last() == arg_views(args@).take(i - 1));
        assert(arg_views(args@).take(i as int).last() == arg_views(args@)[i - 1]);
    }
    assert(arg_views(args@).take(args.len() as int) == arg_views(args@));
    proof {
        reveal_strlit(" ");
        assert(" "@ == seq![' ']);
    }
    join(&words, " ")
}

/// Renders a command in readable form.
pub fn render(cmd: &redis::Cmd) -> (s: String)
    ensures
        s@ == command_text(cmd_args(*cmd)),
{
    let args = arg_list(cmd);
    render_args(&args)
}

/// The arguments of a command that is made of the given words.
pub open spec fn text_args(words: Seq<Seq<char>>) -> Seq<Option<Seq<u8>>> {
    Seq::new(words.len(), |i: int| Some(encode_utf8(words[i])))
}

/// The command made of a name and further words, each one argument.
pub fn build(name: &str, words: &Vec<String>) -> (cmd: redis::Cmd)
    ensures
        cmd_args(cmd) == text_args(seq![name@] + views(words@)),
{
    let mut cmd = new_cmd(name);
    let mut i: usize = 0;
    while i < words.len()
        invariant
            i <= words.len(),
            cmd_args(cmd) == text_args(seq![name@] + views(words@).take(i as int)),
        decreases words.len() - i,
    {
        push_arg(&mut cmd, words[i].as_str().as_bytes());
        i += 1;
        assert(seq![name@] + views(words@).take(i as int) == (seq![name@] + views(words@).take(
            i - 1,
        )).push(words@[i - 1]@));
    }
    assert(views(words@).take(words.len() as int) == views(words@));
    cmd
}

/// The command made of one word.
pub fn build1(name: &str) -> (cmd: redis::Cmd)
    ensures
        cmd_args(cmd) == text_args(seq![name@]),
{
    let words: Vec<String> = Vec::new();
    let cmd = build(name, &words);
    assert(seq![name@] + views(words@) == seq![name@]);
    cmd
}

/// The command made of two words.
pub fn build2(name: &str, first: &str) -> (cmd: redis::Cmd)
    ensures
        cmd_args(cmd) == text_args(seq![name@, first@]),
{
    let mut words: Vec<String> = Vec::new();
    words.push(first.to_string());
    let cmd = build(name, &words);
    assert(seq![name@] + views(words@) == seq![name@, first@]);
    cmd
}

/// The command made of three words.
pub fn build3(name: &str, first: &str, second: &str) -> (cmd: redis::Cmd)
    ensures
        cmd_args(cmd) == text_args(seq![name@, first@, second@]),
{
    let mut words: Vec<String> = Vec::new();
    words.push(first.to_string());
    words.push(second.to_string());
    let cmd = build(name, &words);
    assert(seq![name@] + views(words@) == seq![name@, first@, second@]);
    cmd
}

/// A command that is made of words reads as these words, joined by single
/// spaces.
pub proof fn lemma_text_of_words(words: Seq<Seq<char>>)
    ensures
        command_text(text_args(words)) == joined(words, seq![' ']),
{
    lemma_words_of_text_args(words);
}

/// The readable words of a command that is made of words are these words.
pub proof fn lemma_words_of_text_args(words: Seq<Seq<char>>)
    ensures
        command_words(text_args(words)) == words,
    decreases words.len(),
{
    broadcast use {encode_utf8_valid_utf8, encode_utf8_decode_utf8};

    if words.len() == 0 {
        assert(command_words(text_args(words)) == words);
    } else {
        lemma_words_of_text_args(words.drop_last());
        assert(text_args(words).drop_last() == text_args(words.drop_last()));
        assert(text_args(words).last() == Some(encode_utf8(words.last())));
        assert(arg_text(encode_utf8(words.last())) == words.last());
        assert(words.drop_last().push(words.last()) == words);
    }
}

} // verus!
