use redis_conn::command::{build1, build2, render};
use redis_conn::conn::{
    Attempt, ConnectionManager, ConnectionWrapper, RedisConnection, RedisConnectionParams,
    RedisParam, Topology,
};
use redis_conn::err::CusError;
use redis_conn::model::{Command, Exchange};
use redis_conn::reply::Reply;

fn params(host: &str, cluster: bool) -> RedisConnectionParams {
    RedisConnectionParams {
        redis_params: RedisParam {
            tcp_host: host.to_string(),
            tcp_port: 6379,
            username: None,
            password: None,
            is_cluster: cluster,
        },
        ssh_params: None,
        model_name: host.to_string(),
        is_cluster: cluster,
    }
}

fn wrapper(name: &str, host: &str, cluster: bool) -> ConnectionWrapper {
    let (w, _) = ConnectionWrapper::build_as(
        name.to_string(),
        RedisConnection::build(params(host, cluster)),
        Attempt::Connected(()),
        "2024-05-06 07:08:09".to_string(),
    )
    .unwrap();
    w
}

fn manager_with(id: u32, cluster: bool) -> ConnectionManager {
    let mut m = ConnectionManager::new();
    m.add(id, wrapper("conn", "h1", cluster));
    m
}

fn ok(reply: Reply) -> Exchange {
    Exchange { outcome: Ok(reply), started: 10, ended: 25, created_at: "later".to_string() }
}

fn failed(cause: &str) -> Exchange {
    Exchange { outcome: Err(cause.to_string()), started: 10, ended: 25, created_at: "later".to_string() }
}

fn blob(text: &str) -> Reply {
    Reply::Data(text.as_bytes().to_vec())
}

fn packed(cmd: &redis::Cmd) -> Vec<u8> {
    cmd.get_packed_command()
}

#[test]
fn new_manager_is_empty() {
    let m = ConnectionManager::new();
    assert!(m.map.is_empty());
    assert!(m.get_tx().is_none());
    assert!(m.get_conns().is_empty());
}

#[test]
fn add_registers_and_hands_out_the_naming_command() {
    let mut m = ConnectionManager::new();
    let cmd = m.add(1, wrapper("a", "h1", false));
    assert_eq!(packed(&cmd), packed(redis::cmd("CLIENT").arg("SETNAME").arg("tauri-redis")));
    assert!(m.map.contains_key(&1));
    assert_eq!(m.map.len(), 1);
}

#[test]
fn add_replaces_what_stood_under_the_id() {
    let mut m = ConnectionManager::new();
    m.add(1, wrapper("old", "h1", false));
    m.add(1, wrapper("new", "h2", true));
    assert_eq!(m.map.len(), 1);
    assert_eq!(m.map[&1].id, "new");
}

#[test]
fn execute_on_unknown_id_is_not_found() {
    let m = ConnectionManager::new();
    assert!(matches!(m.execute(9, 0), Err(CusError::NotFound)));
    let r = m.execute_with(9, &build1("PING"), ok(Reply::Okay));
    assert_eq!(r.result, Err(CusError::NotFound));
    assert_eq!(r.record, None);
}

#[test]
fn execute_after_remove_is_not_found() {
    let mut m = manager_with(4, false);
    assert!(matches!(m.execute(4, 0), Ok(None)));
    m.remove(4);
    assert!(matches!(m.execute(4, 0), Err(CusError::NotFound)));
    assert!(matches!(m.execute(4, 7), Err(CusError::NotFound)));
    assert_eq!(m.execute_with(4, &build1("PING"), ok(Reply::Okay)).result, Err(CusError::NotFound));
    assert!(matches!(m.get_info(4), Err(CusError::NotFound)));
    assert!(matches!(m.get_version(4), Err(CusError::NotFound)));
    assert!(matches!(m.get_config(4, "*"), Err(CusError::NotFound)));
    assert!(matches!(m.get_nodes(4), Err(CusError::NotFound)));
    assert!(matches!(m.set_name(4, "n"), Err(CusError::NotFound)));
    assert_eq!(m.get_info_with(4, ok(blob("a:b"))).result.err(), Some(CusError::NotFound));
    assert_eq!(m.get_version_with(4, ok(blob("a:b"))).result, Err(CusError::NotFound));
    assert_eq!(m.get_config_with(4, "*", ok(Reply::Nil)).result.err(), Some(CusError::NotFound));
    assert_eq!(m.get_nodes_with(4, ok(blob("a b"))).result, Err(CusError::NotFound));
    assert_eq!(m.select_with(4, 1, ok(Reply::Okay)).result, Err(CusError::NotFound));
    assert_eq!(m.set_name_with(4, "n", ok(Reply::Okay)).result, Err(CusError::NotFound));
}

#[test]
fn remove_closes_the_tunnel() {
    let mut c = RedisConnection::build(params("h1", false));
    let (tx, rx) = tokio::sync::oneshot::channel::<ssh_jumper::model::SshForwarderEnd>();
    c.store_addr("127.0.0.1".to_string(), 5000, rx);
    let mut m = ConnectionManager::new();
    let (transport, _) = m.connect(1, c, Attempt::Connected(7u8), "now".to_string()).unwrap();
    assert_eq!(transport, 7);
    assert!(!tx.is_closed());
    m.remove(1);
    assert!(tx.is_closed());
    assert!(m.map.is_empty());
}

#[test]
fn remove_of_unknown_id_changes_nothing() {
    let mut m = manager_with(1, false);
    m.remove(2);
    assert_eq!(m.map.len(), 1);
}

#[test]
fn select_is_planned_once_for_a_new_database() {
    let mut m = manager_with(1, false);
    let plan = m.execute(1, 3).unwrap();
    let select = plan.expect("a switch is due");
    assert_eq!(packed(&select), packed(redis::cmd("select").arg(3u8)));
    assert_eq!(m.map[&1].db, 0);
    let done = m.select_with(1, 3, ok(Reply::Okay));
    assert_eq!(done.result, Ok(()));
    assert_eq!(m.map[&1].db, 3);
    assert!(matches!(m.execute(1, 3), Ok(None)));
    assert!(matches!(m.execute(1, 3), Ok(None)));
}

#[test]
fn select_is_planned_again_for_another_database() {
    let mut m = manager_with(1, false);
    m.select_with(1, 3, ok(Reply::Okay));
    let back = m.execute(1, 0).unwrap().expect("a switch is due");
    assert_eq!(packed(&back), packed(redis::cmd("select").arg(0u8)));
    let far = m.execute(1, 255).unwrap().expect("a switch is due");
    assert_eq!(render(&far), "select 255");
}

#[test]
fn no_select_is_planned_for_the_selected_database() {
    let m = manager_with(1, false);
    assert!(matches!(m.execute(1, 0), Ok(None)));
}

#[test]
fn failed_select_leaves_the_database_as_it_was() {
    let mut m = manager_with(1, false);
    let done = m.select_with(1, 99, failed("ERR DB index is out of range"));
    assert_eq!(done.result, Err(CusError::ProtocolError("ERR DB index is out of range".to_string())));
    assert_eq!(m.map[&1].db, 0);
    assert!(matches!(m.execute(1, 99), Ok(Some(_))));
}

#[test]
fn cluster_never_plans_a_select() {
    let mut m = manager_with(1, true);
    for db in [0u8, 1, 7, 255] {
        assert!(matches!(m.execute(1, db), Ok(None)));
    }
    m.select_with(1, 5, ok(Reply::Okay));
    assert!(matches!(m.execute(1, 9), Ok(None)));
}

#[test]
fn execute_with_hands_out_the_reply() {
    let m = manager_with(1, false);
    let r = m.execute_with(1, &build2("GET", "k"), ok(blob("v")));
    assert_eq!(r.result, Ok(blob("v")));
    assert_eq!(r.record, None);
}

#[test]
fn execute_with_turns_a_failure_into_a_protocol_error() {
    let m = manager_with(1, false);
    let r = m.execute_with(1, &build2("GET", "k"), failed("WRONGTYPE"));
    assert_eq!(r.result, Err(CusError::ProtocolError("WRONGTYPE".to_string())));
}

#[test]
fn records_go_to_the_subscriber_when_one_is_attached() {
    let mut m = manager_with(1, false);
    let (tx, _rx) = tokio::sync::mpsc::channel::<Command>(4);
    m.set_tx(tx);
    assert!(m.get_tx().is_some());
    let r = m.execute_with(1, &build2("GET", "k"), ok(blob("v")));
    let record = r.record.expect("a record for the subscriber");
    assert_eq!(record.cmd, "GET k");
    assert_eq!(record.response, "v");
    assert_eq!(record.host, "redis://h1:6379");
    assert_eq!(record.created_at, "later");
    assert_eq!(record.duration, 15);
    assert_eq!(record.id.len(), 32);
}

#[test]
fn records_are_made_for_failures_too() {
    let mut m = manager_with(1, false);
    let (tx, _rx) = tokio::sync::mpsc::channel::<Command>(4);
    m.set_tx(tx);
    let r = m.execute_with(1, &build1("BOGUS"), failed("ERR unknown command"));
    let record = r.record.expect("a record for the subscriber");
    assert_eq!(record.cmd, "BOGUS");
    assert_eq!(record.response, "ERR unknown command");
    assert!(r.result.is_err());
}

#[test]
fn only_the_latest_subscriber_is_attached() {
    let mut m = manager_with(1, false);
    let (first, _rx1) = tokio::sync::mpsc::channel::<Command>(1);
    let (second, _rx2) = tokio::sync::mpsc::channel::<Command>(1);
    m.set_tx(first.clone());
    m.set_tx(second.clone());
    assert!(m.get_tx().unwrap().same_channel(&second));
    assert!(!m.get_tx().unwrap().same_channel(&first));
}

#[test]
fn detaching_the_subscriber_stops_the_records() {
    let mut m = manager_with(1, false);
    let (tx, _rx) = tokio::sync::mpsc::channel::<Command>(4);
    m.set_tx(tx);
    m.remove_tx();
    assert!(m.get_tx().is_none());
    assert_eq!(m.execute_with(1, &build1("PING"), ok(Reply::Okay)).record, None);
    m.remove_tx();
    assert!(m.get_tx().is_none());
}

#[test]
fn no_record_for_an_unknown_connection() {
    let mut m = ConnectionManager::new();
    let (tx, _rx) = tokio::sync::mpsc::channel::<Command>(4);
    m.set_tx(tx);
    let r = m.execute_with(1, &build1("PING"), ok(Reply::Okay));
    assert_eq!(r.record, None);
}

#[test]
fn naming_command_is_planned_and_taken_in() {
    let mut m = manager_with(1, false);
    let (tx, _rx) = tokio::sync::mpsc::channel::<Command>(4);
    m.set_tx(tx);
    let cmd = m.set_name(1, "worker").unwrap();
    assert_eq!(packed(&cmd), packed(redis::cmd("CLIENT").arg("SETNAME").arg("worker")));
    let done = m.set_name_with(1, "worker", ok(Reply::Okay));
    assert_eq!(done.result, Ok(()));
    assert_eq!(done.record.unwrap().cmd, "CLIENT SETNAME worker");
    let done = m.set_name_with(1, "worker", failed("ERR"));
    assert_eq!(done.result, Err(CusError::ProtocolError("ERR".to_string())));
}

#[test]
fn info_is_asked_for_and_read() {
    let mut m = manager_with(1, false);
    let (tx, _rx) = tokio::sync::mpsc::channel::<Command>(4);
    m.set_tx(tx);
    let cmd = m.get_info(1).unwrap();
    assert_eq!(packed(&cmd), packed(&redis::cmd("info")));
    let done = m.get_info_with(1, ok(blob("redis_version:7.2.0\r\nrole:master\r\n")));
    let sections = done.result.unwrap();
    assert_eq!(sections.len(), 1);
    assert_eq!(sections[0].get("role"), Some(&"master".to_string()));
    let record = done.record.unwrap();
    assert_eq!(record.cmd, "info");
    assert_eq!(record.response, "redis_version:7.2.0\r\nrole:master\r\n");
}

#[test]
fn info_of_unexpected_shape_is_a_protocol_error() {
    let m = manager_with(1, false);
    let done = m.get_info_with(1, ok(Reply::Int(1)));
    assert!(matches!(done.result, Err(CusError::ProtocolError(_))));
    let done = m.get_info_with(1, failed("broken pipe"));
    assert_eq!(done.result.err(), Some(CusError::ProtocolError("broken pipe".to_string())));
}

#[test]
fn version_is_asked_for_and_read() {
    let m = manager_with(1, false);
    assert_eq!(packed(&m.get_version(1).unwrap()), packed(&redis::cmd("info")));
    let done = m.get_version_with(1, ok(blob("redis_version:7.2.0\r\n")));
    assert_eq!(done.result, Ok("7.2.0".to_string()));
    let done = m.get_version_with(1, ok(blob("role:master\r\n")));
    assert_eq!(done.result, Ok("".to_string()));
    let done = m.get_version_with(1, ok(Reply::Okay));
    assert!(matches!(done.result, Err(CusError::ProtocolError(_))));
}

#[test]
fn config_is_asked_for_and_read() {
    let mut m = manager_with(1, false);
    let (tx, _rx) = tokio::sync::mpsc::channel::<Command>(4);
    m.set_tx(tx);
    let cmd = m.get_config(1, "max*").unwrap();
    assert_eq!(packed(&cmd), packed(redis::cmd("config").arg("get").arg("max*")));
    let reply = Reply::Bulk(vec![blob("maxclients"), blob("10000"), blob("odd")]);
    let done = m.get_config_with(1, "max*", ok(reply));
    let fields = done.result.unwrap();
    assert_eq!(fields.get("maxclients"), Some(&"10000".to_string()));
    assert_eq!(fields.get("odd"), None);
    let record = done.record.unwrap();
    assert_eq!(record.cmd, "config get max*");
    assert_eq!(record.response, "maxclients 10000 odd");
}

#[test]
fn nodes_are_not_asked_of_a_single_node() {
    let mut m = manager_with(1, false);
    assert!(matches!(m.get_nodes(1), Err(CusError::NotCluster)));
    let (tx, _rx) = tokio::sync::mpsc::channel::<Command>(4);
    m.set_tx(tx);
    let done = m.get_nodes_with(1, ok(blob("a h1 master")));
    assert_eq!(done.result, Err(CusError::NotCluster));
    assert_eq!(done.record, None);
    assert!(m.map[&1].nodes.is_none());
}

#[test]
fn nodes_are_asked_for_once() {
    let mut m = manager_with(1, true);
    match m.get_nodes(1).unwrap() {
        Topology::Ask(cmd) => {
            assert_eq!(packed(&cmd), packed(redis::cmd("CLUSTER").arg("nodes")));
        }
        Topology::Known(_) => panic!("nothing is known yet"),
    }
    let text = "a 10.0.0.1:7000 master - 0 0 1 connected 0-100\nb 10.0.0.2:7000 slave a 0 0 1 connected\n";
    let done = m.get_nodes_with(1, ok(blob(text)));
    let nodes = done.result.unwrap();
    assert_eq!(nodes.len(), 2);
    assert_eq!(nodes[0].params, params("h1", true));
    match m.get_nodes(1).unwrap() {
        Topology::Known(known) => assert_eq!(known, nodes),
        Topology::Ask(_) => panic!("the nodes are known"),
    }
    match m.get_nodes(1).unwrap() {
        Topology::Known(known) => assert_eq!(known.len(), 2),
        Topology::Ask(_) => panic!("the nodes are known"),
    }
}

#[test]
fn an_empty_topology_is_kept_too() {
    let mut m = manager_with(1, true);
    let done = m.get_nodes_with(1, ok(blob("\n")));
    assert_eq!(done.result, Ok(vec![]));
    assert!(matches!(m.get_nodes(1), Ok(Topology::Known(known)) if known.is_empty()));
}

#[test]
fn failed_topology_query_keeps_nothing() {
    let mut m = manager_with(1, true);
    let done = m.get_nodes_with(1, failed("CLUSTERDOWN"));
    assert_eq!(done.result, Err(CusError::ProtocolError("CLUSTERDOWN".to_string())));
    assert!(matches!(m.get_nodes(1), Ok(Topology::Ask(_))));
    let done = m.get_nodes_with(1, ok(Reply::Int(3)));
    assert!(matches!(done.result, Err(CusError::ProtocolError(_))));
    assert!(matches!(m.get_nodes(1), Ok(Topology::Ask(_))));
}

#[test]
fn topology_survives_a_database_switch() {
    let mut m = manager_with(1, true);
    m.get_nodes_with(1, ok(blob("a h master")));
    m.select_with(1, 2, ok(Reply::Okay));
    assert!(matches!(m.get_nodes(1), Ok(Topology::Known(known)) if known.len() == 1));
    assert_eq!(m.map[&1].db, 2);
}

#[test]
fn summaries_list_every_connection() {
    let mut m = ConnectionManager::new();
    m.add(1, wrapper("first", "h1", false));
    let mut c = RedisConnection::build(params("h2", true));
    let (_tx, rx) = tokio::sync::oneshot::channel::<ssh_jumper::model::SshForwarderEnd>();
    c.store_addr("127.0.0.1".to_string(), 41000, rx);
    let (w, _) = ConnectionWrapper::build_as("second".to_string(), c, Attempt::Connected(()), "t2".to_string()).unwrap();
    m.add(2, w);
    let mut list = m.get_conns();
    list.sort_by(|a, b| a.id.cmp(&b.id));
    assert_eq!(list.len(), 2);
    assert_eq!(list[0].id, "first");
    assert_eq!(list[0].host, "redis://h1:6379");
    assert_eq!(list[0].created_at, "2024-05-06 07:08:09");
    assert_eq!(list[0].types, "normal");
    assert_eq!(list[0].proxy, None);
    assert_eq!(list[1].id, "second");
    assert_eq!(list[1].host, "redis://h2:6379");
    assert_eq!(list[1].created_at, "t2");
    assert_eq!(list[1].types, "cluster");
    assert_eq!(list[1].proxy, Some("127.0.0.1:41000".to_string()));
}

#[test]
fn connect_registers_a_connection_that_stands() {
    let mut m = ConnectionManager::new();
    let (transport, cmd) = m
        .connect(5, RedisConnection::build(params("h5", false)), Attempt::Connected("t"), "now".to_string())
        .unwrap();
    assert_eq!(transport, "t");
    assert_eq!(render(&cmd), "CLIENT SETNAME tauri-redis");
    assert_eq!(m.map[&5].db, 0);
    assert_eq!(m.map[&5].created_at, "now");
    assert_eq!(m.map[&5].id.len(), 32);
}

#[test]
fn connect_registers_nothing_on_timeout() {
    let mut m = manager_with(1, false);
    let r = m.connect(2, RedisConnection::build(params("slow", false)), Attempt::<()>::TimedOut, "now".to_string());
    assert!(matches!(r, Err(CusError::Timeout)));
    assert_eq!(m.map.len(), 1);
    assert!(!m.map.contains_key(&2));
    assert!(matches!(m.execute(2, 0), Err(CusError::NotFound)));
}

#[test]
fn connect_registers_nothing_on_failure() {
    let mut m = ConnectionManager::new();
    let r = m.connect(
        2,
        RedisConnection::build(params("down", true)),
        Attempt::<()>::Failed("refused".to_string()),
        "now".to_string(),
    );
    assert!(matches!(r, Err(CusError::ConnectFailed(cause)) if cause == "refused"));
    assert!(m.map.is_empty());
}
