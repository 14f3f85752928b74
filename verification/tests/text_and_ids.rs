use matrix_onebot::ids::{check_user_id, resolve_homeserver, server_name_of, user_name_of, Homeserver};
use matrix_onebot::text::{fill_placeholder, first_index_of, same_text, skip_past, take_until};

#[test]
fn first_index_of_finds_first_occurrence() {
    assert_eq!(first_index_of("a:b:c", ':'), 1);
    assert_eq!(first_index_of("abc", ':'), 3);
    assert_eq!(first_index_of("", ':'), 0);
    assert_eq!(first_index_of("用户:服务器", ':'), 2);
}

#[test]
fn take_until_and_skip_past_cut_at_first_occurrence() {
    assert_eq!(take_until("alice:example.org", ':'), "alice");
    assert_eq!(take_until("alice", ':'), "alice");
    assert_eq!(skip_past("@alice:example.org", ':'), Some("example.org"));
    assert_eq!(skip_past("@alice:a:b", ':'), Some("a:b"));
    assert_eq!(skip_past("alice", ':'), None);
}

#[test]
fn same_text_compares_characters() {
    assert!(same_text("@a:b", "@a:b"));
    assert!(!same_text("@a:b", "@a:c"));
    assert!(!same_text("@a:b", "@a:bc"));
    assert!(same_text("", ""));
}

#[test]
fn fill_placeholder_replaces_every_occurrence() {
    assert_eq!(
        fill_placeholder("错误: 数据库表 {table} 插入失败", "{table}", "matrix_events"),
        "错误: 数据库表 matrix_events 插入失败"
    );
    assert_eq!(fill_placeholder("{table}/{table}", "{table}", "t"), "t/t");
    assert_eq!(fill_placeholder("no placeholder", "{table}", "t"), "no placeholder");
}

#[test]
fn fill_placeholder_agrees_with_str_replace() {
    let cases = [
        ("aaa", "aa", "b"),
        ("abcabc", "bc", "XY"),
        ("ab", "", "-"),
        ("", "", "-"),
        ("", "x", "y"),
        ("{ta{table}ble}", "{table}", ""),
        ("查询失败: {error}", "{error}", "无"),
    ];
    for (s, pat, rep) in cases {
        assert_eq!(fill_placeholder(s, pat, rep), s.replace(pat, rep), "{s:?} {pat:?} {rep:?}");
    }
}

#[test]
fn user_name_of_matches_split_form() {
    for id in ["@alice:example.org", "@bob:matrix.org:8448", "x@y@z", "@@a:b", "a@", "@:srv"] {
        let expected = id.split("@").collect::<Vec<&str>>()[1].split(":").collect::<Vec<&str>>()[0];
        assert_eq!(user_name_of(id), expected, "{id}");
    }
    assert_eq!(user_name_of("@alice:example.org"), "alice");
}

#[test]
fn server_name_of_takes_text_after_first_colon() {
    assert_eq!(server_name_of("@alice:example.org"), "example.org");
    assert_eq!(server_name_of("@alice:example.org:8448"), "example.org:8448");
}

#[test]
fn check_user_id_accepts_valid_ids_only() {
    assert!(check_user_id("@alice:example.org").is_ok());
    assert!(check_user_id("alice:example.org").is_err());
    assert!(check_user_id("@alice").is_err());
    assert!(check_user_id("").is_err());
}

#[test]
fn resolve_homeserver_prefers_configured_domain() {
    match resolve_homeserver("@alice:example.org", "") {
        Ok(Homeserver::OfUserId(name)) => assert_eq!(name, "example.org"),
        other => panic!("unexpected {other:?}"),
    }
    match resolve_homeserver("@alice:example.org", "matrix.example.org") {
        Ok(Homeserver::Given(name)) => assert_eq!(name, "matrix.example.org"),
        other => panic!("unexpected {other:?}"),
    }
    let err = resolve_homeserver("alice", "").unwrap_err();
    assert!(!err.is_empty());
}
