use rust_webserver::commands::{room_key, InfoCommandDel, InfoCommandGet, InfoCommandPublish, InfoCommandSet};

#[test]
fn room_key_prefix() {
    assert_eq!(room_key("abc"), "production::room_key::abc");
    assert_eq!(room_key(""), "production::room_key::");
}

#[test]
fn room_keys_of_different_rooms_differ() {
    assert_ne!(room_key("a"), room_key("b"));
    assert_ne!(room_key("ab"), room_key("a"));
}

#[test]
fn get_command_packs_name_and_key() {
    let c = InfoCommandGet { command: "GET".to_string(), arg: "k1".to_string(), arg2: Some("unused".to_string()) };
    assert_eq!(c.to_cmd().get_packed_command(), b"*2\r\n$3\r\nGET\r\n$2\r\nk1\r\n".to_vec());
}

#[test]
fn set_pipeline_packs_one_set() {
    let c = InfoCommandSet { command: "ignored".to_string(), arg: "key".to_string(), arg2: "{}".to_string() };
    assert_eq!(
        c.to_pipeline().get_packed_pipeline(),
        b"*3\r\n$3\r\nSET\r\n$3\r\nkey\r\n$2\r\n{}\r\n".to_vec()
    );
    assert_eq!(c.to_pipeline().cmd_iter().count(), 1);
}

#[test]
fn del_pipeline_packs_one_del() {
    let c = InfoCommandDel { command: "DEL".to_string(), arg: "key".to_string() };
    assert_eq!(c.to_pipeline().get_packed_pipeline(), b"*2\r\n$3\r\nDEL\r\n$3\r\nkey\r\n".to_vec());
}

#[test]
fn publish_pipeline_packs_channel_and_message() {
    let c = InfoCommandPublish { command: "PUBLISH".to_string(), channel: "ch".to_string(), message: "é".to_string() };
    assert_eq!(
        c.to_pipeline().get_packed_pipeline(),
        "*3\r\n$7\r\npublish\r\n$2\r\nch\r\n$2\r\né\r\n".as_bytes().to_vec()
    );
}
