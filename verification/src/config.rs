//! Configuration model: the account, OneBot and logging settings with their
//! defaults, the language file's messages, and the decisions taken while
//! loading a configuration file.

use vstd::prelude::*;
use vstd::string::*;

verus! {

/// How much the bridge logs.
#[derive(Clone, Copy, Debug, PartialEq, Eq)]
pub enum LogLevel {
    Trace,
    Debug,
    Info,
    Warn,
    Error,
}

impl Default for LogLevel {
    fn default() -> (r: Self)
        ensures
            r == LogLevel::Info,
    {
        LogLevel::Info
    }
}

/// Logging settings.
#[derive(Debug)]
pub struct MetaConfig {
    pub log_level: LogLevel,
    pub log_path: String,
}

impl Default for MetaConfig {
    fn default() -> (r: Self)
        ensures
            r.log_level == LogLevel::Info,
            r.log_path@ == Seq::<char>::empty(),
    {
        MetaConfig { log_level: LogLevel::Info, log_path: String::new() }
    }
}

/// Settings of the OneBot side of the bridge.
#[derive(Debug)]
pub struct OBConfig {
    /// Seconds between two looks for the bridge's own event in the event table.
    pub query_self_event_interval_secs: u64,
    /// Whether messages sent by the bridge's own account are kept from the application.
    pub is_intercept_self_message: bool,
    /// Whether `message` carries the data structure (else a readable string).
    pub is_message_forward_struct: bool,
    /// Whether `alt_message` carries the data structure (else a readable string).
    pub is_alt_message_forward_struct: bool,
}

impl Default for OBConfig {
    fn default() -> (r: Self)
        ensures
            r.query_self_event_interval_secs == 1,
            r.is_intercept_self_message,
            r.is_message_forward_struct,
            !r.is_alt_message_forward_struct,
    {
        OBConfig {
            query_self_event_interval_secs: 1,
            is_intercept_self_message: true,
            is_message_forward_struct: true,
            is_alt_message_forward_struct: false,
        }
    }
}

/// The default language file's name.
pub open spec fn default_lang_file() -> Seq<char> {
    "zh-cn.toml"@
}

/// The bridge's configuration: the account to log in with, the language
/// file, and the OneBot and logging settings. The OneBot connection settings
/// belong to the OneBot implementation and are kept beside this value by the
/// program that runs the bridge.
#[derive(Debug)]
pub struct Config {
    /// The account's full user id, such as `@alice:example.org`.
    pub full_user_id: String,
    pub password: String,
    /// The server to connect to, when it is not the one of the user id.
    pub server_domain: String,
    /// The language file, under `lang/`.
    pub lang_file: String,
    pub onebot: OBConfig,
    pub meta: MetaConfig,
}

impl Default for Config {
    fn default() -> (r: Self)
        ensures
            r.full_user_id@ == Seq::<char>::empty(),
            r.password@ == Seq::<char>::empty(),
            r.server_domain@ == Seq::<char>::empty(),
            r.lang_file@ == default_lang_file(),
            r.onebot.query_self_event_interval_secs == 1,
            r.onebot.is_intercept_self_message,
            r.onebot.is_message_forward_struct,
            !r.onebot.is_alt_message_forward_struct,
            r.meta.log_level == LogLevel::Info,
            r.meta.log_path@ == Seq::<char>::empty(),
    {
        proof {
            reveal_strlit("zh-cn.toml");
        }
        Config {
            full_user_id: String::new(),
            password: String::new(),
            server_domain: String::new(),
            lang_file: "zh-cn.toml".to_owned(),
            onebot: OBConfig::default(),
            meta: MetaConfig::default(),
        }
    }
}

/// The messages of a language file. Those about a table hold the placeholder
/// `{table}`; the one about a failed query also `{error}`, the one about a
/// failed migration `{ver}`.
#[derive(Debug)]
pub struct Lang {
    pub error_matrix_login_failed: String,
    pub error_matrix_add_event_handler_failed: String,
    pub error_matrix_sync_failed: String,
    pub error_matrix_login_user_id_is_none: String,
    pub error_database_connection_failed: String,
    pub error_database_table_init_failed: String,
    pub error_database_table_insert_failed: String,
    pub error_database_table_query_failed: String,
    pub error_database_table_delete_failed: String,
    pub error_database_table_edit_failed: String,
    pub error_database_migrate_failed: String,
}

impl Default for Lang {
    fn default() -> (r: Self)
        ensures
            r.error_matrix_login_failed@ == "错误: 登录失败"@,
            r.error_matrix_add_event_handler_failed@ == "错误: 事件处理器添加失败"@,
            r.error_matrix_sync_failed@ == "错误: 同步失败"@,
            r.error_matrix_login_user_id_is_none@ == "错误: 未填写登录 Matrix 的用户FullId"@,
            r.error_database_connection_failed@ == "错误: 数据库连接失败"@,
            r.error_database_table_init_failed@ == "错误: 数据库表 {table} 初始化失败"@,
            r.error_database_table_insert_failed@ == "错误: 数据库表 {table} 插入失败"@,
            r.error_database_table_query_failed@ == "错误: 数据库表 {table} 查询失败: {error}"@,
            r.error_database_table_delete_failed@ == "错误: 数据库表 {table} 删除(行)失败"@,
            r.error_database_table_edit_failed@ == "错误: 数据库表 {table} 修改失败"@,
            r.error_database_migrate_failed@ == "错误: 数据库迁移失败, 从 {ver} 版本"@,
    {
        Lang {
            error_matrix_login_failed: "错误: 登录失败".to_owned(),
            error_matrix_add_event_handler_failed: "错误: 事件处理器添加失败".to_owned(),
            error_matrix_sync_failed: "错误: 同步失败".to_owned(),
            error_matrix_login_user_id_is_none: "错误: 未填写登录 Matrix 的用户FullId".to_owned(),
            error_database_connection_failed: "错误: 数据库连接失败".to_owned(),
            error_database_table_init_failed: "错误: 数据库表 {table} 初始化失败".to_owned(),
            error_database_table_insert_failed: "错误: 数据库表 {table} 插入失败".to_owned(),
            error_database_table_query_failed: "错误: 数据库表 {table} 查询失败: {error}".to_owned(),
            error_database_table_delete_failed: "错误: 数据库表 {table} 删除(行)失败".to_owned(),
            error_database_table_edit_failed: "错误: 数据库表 {table} 修改失败".to_owned(),
            error_database_migrate_failed: "错误: 数据库迁移失败, 从 {ver} 版本".to_owned(),
        }
    }
}

/// The path of a language file, relative to the working directory.
pub fn lang_file_path(lang_file: &str) -> (r: String)
    ensures
        r@ == "lang/"@ + lang_file@,
{
    let mut path = String::from_str("lang/");
    path.append(lang_file);
    path
}

/// How reading a configuration file went.
#[derive(Clone, Copy, Debug, PartialEq, Eq)]
pub enum LoadAttempt {
    /// The file was read and its contents parsed.
    Loaded,
    /// The file was read but its contents did not parse.
    Malformed,
    /// The file could not be opened or read.
    Unreadable,
}

/// What to do after an attempt to read a configuration file.
#[derive(Clone, Copy, Debug, PartialEq, Eq)]
pub enum LoadStep {
    /// Use what was read.
    UseLoaded,
    /// Give up with the parse error.
    Fail,
    /// Write the defaults to the file and use them.
    CreateDefault,
}

/// A file that does not parse is an error; one that cannot be read is
/// replaced by the defaults, which are written to it.
pub fn load_step(attempt: LoadAttempt) -> (r: LoadStep)
    ensures
        r == match attempt {
            LoadAttempt::Loaded => LoadStep::UseLoaded,
            LoadAttempt::Malformed => LoadStep::Fail,
            LoadAttempt::Unreadable => LoadStep::CreateDefault,
        },
{
    match attempt {
        LoadAttempt::Loaded => LoadStep::UseLoaded,
        LoadAttempt::Malformed => LoadStep::Fail,
        LoadAttempt::Unreadable => LoadStep::CreateDefault,
    }
}

} // verus!
