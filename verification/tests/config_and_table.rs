use matrix_onebot::config::{lang_file_path, load_step, Config, Lang, LoadAttempt, LoadStep, LogLevel, MetaConfig, OBConfig};
use matrix_onebot::table::{handle_query_row_result, query_event_is_in_db, take_in_event, Event, EventIntake, RowLookup};

#[test]
fn onebot_config_defaults() {
    let c = OBConfig::default();
    assert_eq!(c.query_self_event_interval_secs, 1);
    assert!(c.is_intercept_self_message);
    assert!(c.is_message_forward_struct);
    assert!(!c.is_alt_message_forward_struct);
}

#[test]
fn meta_config_and_log_level_defaults() {
    assert_eq!(LogLevel::default(), LogLevel::Info);
    let m = MetaConfig::default();
    assert_eq!(m.log_level, LogLevel::Info);
    assert_eq!(m.log_path, "");
}

#[test]
fn config_defaults() {
    let c = Config::default();
    assert_eq!(c.full_user_id, "");
    assert_eq!(c.password, "");
    assert_eq!(c.server_domain, "");
    assert_eq!(c.lang_file, "zh-cn.toml");
    assert_eq!(c.onebot.query_self_event_interval_secs, 1);
    assert_eq!(c.meta.log_level, LogLevel::Info);
}

#[test]
fn lang_defaults() {
    let l = Lang::default();
    assert_eq!(l.error_matrix_login_failed, "错误: 登录失败");
    assert_eq!(l.error_database_table_insert_failed, "错误: 数据库表 {table} 插入失败");
    assert_eq!(l.error_database_table_query_failed, "错误: 数据库表 {table} 查询失败: {error}");
    assert_eq!(l.error_database_migrate_failed, "错误: 数据库迁移失败, 从 {ver} 版本");
}

#[test]
fn lang_path_is_under_lang_directory() {
    assert_eq!(lang_file_path("zh-cn.toml"), "lang/zh-cn.toml");
}

#[test]
fn load_steps() {
    assert_eq!(load_step(LoadAttempt::Loaded), LoadStep::UseLoaded);
    assert_eq!(load_step(LoadAttempt::Malformed), LoadStep::Fail);
    assert_eq!(load_step(LoadAttempt::Unreadable), LoadStep::CreateDefault);
}

#[test]
fn query_row_results() {
    let ev = Event { event_id: "$e".to_string(), ty: "message".to_string(), timestamp: 5 };
    match handle_query_row_result::<Event, String>(RowLookup::Found(ev)) {
        Ok(Some(e)) => assert_eq!(e.event_id, "$e"),
        _ => panic!("row lost"),
    }
    assert!(matches!(handle_query_row_result::<Event, String>(RowLookup::NoRows), Ok(None)));
    match handle_query_row_result::<Event, String>(RowLookup::Failed("disk".to_string())) {
        Err(e) => assert_eq!(e, "disk"),
        _ => panic!("error lost"),
    }
}

#[test]
fn event_presence() {
    let ev = Event { event_id: "$e".to_string(), ty: "member".to_string(), timestamp: 1 };
    assert!(query_event_is_in_db(&Some(ev)));
    assert!(!query_event_is_in_db(&None));
}

#[test]
fn recorded_events_are_skipped() {
    let ev = Event { event_id: "$e".to_string(), ty: "message".to_string(), timestamp: 1 };
    assert_eq!(take_in_event(&Some(ev)), EventIntake::Skip);
    assert_eq!(take_in_event(&None), EventIntake::RecordAndHandle);
}

#[test]
fn each_event_id_is_handled_at_most_once() {
    let mut recorded: Vec<String> = vec!["$old".to_string()];
    let incoming = ["$a", "$old", "$b", "$a", "$b", "$c"];
    let mut handled = Vec::new();
    for id in incoming {
        let queried = recorded
            .iter()
            .find(|r| r.as_str() == id)
            .map(|r| Event { event_id: r.clone(), ty: "message".to_string(), timestamp: 0 });
        if take_in_event(&queried) == EventIntake::RecordAndHandle {
            recorded.push(id.to_string());
            handled.push(id);
        }
    }
    assert_eq!(handled, vec!["$a", "$b", "$c"]);
}
