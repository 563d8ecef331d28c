use redis_conn::command::{build, build1, build2, build3, render, render_args};
use redis_conn::err::CusError;
use redis_conn::reply::{render_blob, Reply};
use redis_conn::text::join;

fn blob(text: &str) -> Reply {
    Reply::Data(text.as_bytes().to_vec())
}

fn response(reply: &Reply) -> String {
    join(&reply.normalize(), " ")
}

#[test]
fn integer_reply_normalizes_to_decimal_text() {
    assert_eq!(Reply::Int(42).normalize(), vec!["42"]);
    assert_eq!(Reply::Int(-7).normalize(), vec!["-7"]);
}

#[test]
fn nil_reply_normalizes_to_nil() {
    assert_eq!(Reply::Nil.normalize(), vec!["nil"]);
}

#[test]
fn acknowledgement_normalizes_to_ok() {
    assert_eq!(Reply::Okay.normalize(), vec!["OK"]);
}

#[test]
fn status_reply_normalizes_to_its_text() {
    assert_eq!(Reply::Status("PONG".to_string()).normalize(), vec!["PONG"]);
}

#[test]
fn text_blob_normalizes_to_its_text() {
    assert_eq!(blob("héllo wörld").normalize(), vec!["héllo wörld"]);
    assert_eq!(blob("").normalize(), vec![""]);
}

#[test]
fn binary_blob_degrades_to_binary_digits() {
    let reply = Reply::Data(vec![0xff, 0xfe]);
    let texts = reply.normalize();
    assert_eq!(texts, vec!["1111111111111110"]);
    assert_eq!(texts[0].len(), 2 * 8);
}

#[test]
fn binary_blob_of_high_bytes_has_eight_digits_per_byte() {
    let bytes: Vec<u8> = vec![0x80, 0xff, 0xc0, 0xaa, 0xf0];
    assert!(String::from_utf8(bytes.clone()).is_err());
    let texts = Reply::Data(bytes.clone()).normalize();
    assert_eq!(texts.len(), 1);
    assert_eq!(texts[0].len(), bytes.len() * 8);
    assert!(texts[0].chars().all(|c| c == '0' || c == '1'));
}

#[test]
fn binary_blob_with_a_low_byte_is_not_padded() {
    assert_eq!(Reply::Data(vec![0xff, 0x01]).normalize(), vec!["111111111"]);
}

#[test]
fn flat_list_gives_the_texts_of_its_blobs() {
    let reply = Reply::Bulk(vec![blob("a"), blob("b"), blob("c")]);
    assert_eq!(reply.normalize(), vec!["a", "b", "c"]);
    assert_eq!(response(&reply), "a b c");
}

#[test]
fn two_level_list_is_flattened() {
    let reply = Reply::Bulk(vec![
        Reply::Bulk(vec![blob("a"), blob("b")]),
        Reply::Bulk(vec![blob("c"), blob("d")]),
    ]);
    assert_eq!(reply.normalize(), vec!["a", "b", "c", "d"]);
    assert_eq!(response(&reply), "a b c d");
}

#[test]
fn mixed_list_keeps_the_order_of_its_leaves() {
    let reply = Reply::Bulk(vec![
        blob("x"),
        Reply::Bulk(vec![blob("y"), blob("z")]),
        blob("w"),
    ]);
    assert_eq!(response(&reply), "x y z w");
}

#[test]
fn list_drops_what_is_no_blob() {
    let reply = Reply::Bulk(vec![
        Reply::Int(1),
        blob("kept"),
        Reply::Nil,
        Reply::Status("s".to_string()),
        Reply::Okay,
        Reply::Bulk(vec![Reply::Int(2), blob("inner"), Reply::Okay]),
    ]);
    assert_eq!(reply.normalize(), vec!["kept", "inner"]);
}

#[test]
fn list_drops_what_is_nested_deeper_than_two_levels() {
    let reply = Reply::Bulk(vec![Reply::Bulk(vec![
        blob("second"),
        Reply::Bulk(vec![blob("third")]),
    ])]);
    assert_eq!(reply.normalize(), vec!["second"]);
}

#[test]
fn empty_list_normalizes_to_nothing() {
    let reply = Reply::Bulk(vec![]);
    assert!(reply.normalize().is_empty());
    assert_eq!(response(&reply), "");
}

#[test]
fn binary_blobs_in_a_list_degrade_like_a_single_blob() {
    let reply = Reply::Bulk(vec![
        blob("text"),
        Reply::Data(vec![0xff, 0x01]),
        Reply::Bulk(vec![Reply::Data(vec![0x80]), blob("inner")]),
    ]);
    assert_eq!(reply.normalize(), vec!["text", "111111111", "10000000", "inner"]);
}

#[test]
fn blob_is_rendered_as_text_or_as_binary_digits() {
    assert_eq!(render_blob(&"héllo".as_bytes().to_vec()), "héllo");
    assert_eq!(render_blob(&vec![0xc3]), "11000011");
    assert_eq!(render_blob(&vec![]), "");
}

#[test]
fn as_text_reads_blobs_status_lines_and_the_acknowledgement() {
    assert_eq!(blob("text").as_text(), Ok("text".to_string()));
    assert_eq!(Reply::Status("QUEUED".to_string()).as_text(), Ok("QUEUED".to_string()));
    assert_eq!(Reply::Okay.as_text(), Ok("OK".to_string()));
}

#[test]
fn as_text_refuses_other_replies() {
    assert!(matches!(Reply::Nil.as_text(), Err(CusError::ProtocolError(_))));
    assert!(matches!(Reply::Int(1).as_text(), Err(CusError::ProtocolError(_))));
    assert!(matches!(Reply::Bulk(vec![]).as_text(), Err(CusError::ProtocolError(_))));
    assert!(matches!(Reply::Data(vec![0xff]).as_text(), Err(CusError::ProtocolError(_))));
}

#[test]
fn as_texts_reads_lists_blobs_and_nil() {
    let list = Reply::Bulk(vec![blob("a"), Reply::Okay, Reply::Status("s".to_string())]);
    assert_eq!(list.as_texts(), Ok(vec!["a".to_string(), "OK".to_string(), "s".to_string()]));
    assert_eq!(blob("one").as_texts(), Ok(vec!["one".to_string()]));
    assert_eq!(Reply::Nil.as_texts(), Ok(vec![]));
    assert_eq!(Reply::Bulk(vec![]).as_texts(), Ok(vec![]));
}

#[test]
fn as_texts_refuses_other_replies() {
    assert!(matches!(Reply::Int(1).as_texts(), Err(CusError::ProtocolError(_))));
    assert!(matches!(Reply::Okay.as_texts(), Err(CusError::ProtocolError(_))));
    assert!(matches!(Reply::Status("s".to_string()).as_texts(), Err(CusError::ProtocolError(_))));
    assert!(matches!(Reply::Data(vec![0xff]).as_texts(), Err(CusError::ProtocolError(_))));
    let list = Reply::Bulk(vec![blob("a"), Reply::Int(2)]);
    assert!(matches!(list.as_texts(), Err(CusError::ProtocolError(_))));
    let nested = Reply::Bulk(vec![Reply::Bulk(vec![blob("a")])]);
    assert!(matches!(nested.as_texts(), Err(CusError::ProtocolError(_))));
}

#[test]
fn as_int_reads_integers_and_texts_that_spell_one() {
    assert_eq!(Reply::Int(-3).as_int(), Ok(-3));
    assert_eq!(blob("12").as_int(), Ok(12));
    assert_eq!(Reply::Status("7".to_string()).as_int(), Ok(7));
}

#[test]
fn as_int_refuses_other_replies() {
    assert!(matches!(blob("twelve").as_int(), Err(CusError::ProtocolError(_))));
    assert!(matches!(Reply::Nil.as_int(), Err(CusError::ProtocolError(_))));
    assert!(matches!(Reply::Okay.as_int(), Err(CusError::ProtocolError(_))));
    assert!(matches!(Reply::Bulk(vec![Reply::Int(1)]).as_int(), Err(CusError::ProtocolError(_))));
    assert!(matches!(Reply::Data(vec![0xff]).as_int(), Err(CusError::ProtocolError(_))));
}

#[test]
fn built_commands_are_those_of_the_redis_crate() {
    assert_eq!(build1("info").get_packed_command(), redis::cmd("info").get_packed_command());
    assert_eq!(
        build2("CLUSTER", "nodes").get_packed_command(),
        redis::cmd("CLUSTER").arg("nodes").get_packed_command()
    );
    assert_eq!(
        build3("config", "get", "max*").get_packed_command(),
        redis::cmd("config").arg("get").arg("max*").get_packed_command()
    );
    let words = vec!["k".to_string(), "".to_string(), "v w".to_string()];
    assert_eq!(
        build("SET", &words).get_packed_command(),
        redis::cmd("SET").arg("k").arg("").arg("v w").get_packed_command()
    );
    assert_eq!(
        build1("PING").get_packed_command(),
        b"*1\r\n$4\r\nPING\r\n".to_vec()
    );
}

#[test]
fn command_reads_as_its_words_joined_by_spaces() {
    assert_eq!(render(&build3("SET", "key", "value")), "SET key value");
    assert_eq!(render(&build1("PING")), "PING");
    assert_eq!(render(redis::cmd("select").arg(3u8)), "select 3");
    assert_eq!(render(redis::cmd("LPUSH").arg("list").arg(&["a", "b"])), "LPUSH list a b");
    assert_eq!(render(&redis::Cmd::new()), "");
}

#[test]
fn command_renders_binary_arguments_escaped() {
    let mut cmd = redis::cmd("SET");
    cmd.arg("k").arg(&[0xffu8, b'a', 0x00][..]);
    assert_eq!(render(&cmd), "SET k \\xffa\\x00");
}

#[test]
fn command_text_skips_the_cursor() {
    let mut cmd = redis::cmd("SCAN");
    cmd.cursor_arg(0).arg("MATCH").arg("*");
    assert_eq!(render(&cmd), "SCAN MATCH *");
    assert_eq!(
        render_args(&vec![Some(b"SCAN".to_vec()), None, Some(b"COUNT".to_vec())]),
        "SCAN COUNT"
    );
}

#[test]
fn empty_arguments_are_kept_as_empty_words() {
    assert_eq!(render(redis::cmd("SET").arg("").arg("v")), "SET  v");
}

#[test]
fn errors_describe_themselves() {
    assert_eq!(CusError::Timeout.describe(), "Connection Timeout");
    assert_eq!(CusError::NotFound.describe(), "Connection Not Found");
    assert_eq!(CusError::NotCluster.describe(), "Not a Cluster Server");
    assert_eq!(CusError::ConnectFailed("refused".to_string()).describe(), "refused");
    assert_eq!(CusError::ProtocolError("ERR unknown".to_string()).describe(), "ERR unknown");
    assert_eq!(CusError::SerializationError("bad json".to_string()).describe(), "bad json");
}
