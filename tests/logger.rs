use overbot::accounts::{Accounts, AccountsConfig, AccountsError};
use overbot::logger::{Cache, CacheAppenderDeserializer, CachedLogRecord, LogLevel, LogView, LOG_VIEW_BUFFER};

fn rec(level: LogLevel, msg: &str) -> CachedLogRecord {
    CachedLogRecord::new(level, msg.to_string())
}

#[test]
fn appender_keeps_last_count_records() {
    let mut cache = Cache::new();
    let appender = CacheAppenderDeserializer.deserialize(&mut cache, "log".to_string(), 2);
    appender.append(&mut cache, rec(LogLevel::Info, "a"));
    appender.append(&mut cache, rec(LogLevel::Info, "b"));
    appender.append(&mut cache, rec(LogLevel::Warn, "c"));
    let buf = &cache.buffers[appender.buffer];
    assert_eq!(buf.len(), 2);
    assert_eq!(buf[0].msg(), "b");
    assert_eq!(buf[1].msg(), "c");
    assert_eq!(buf[1].level(), LogLevel::Warn);
}

#[test]
fn appender_with_zero_count_keeps_newest() {
    let mut cache = Cache::new();
    let appender = CacheAppenderDeserializer.deserialize(&mut cache, "none".to_string(), 0);
    appender.append(&mut cache, rec(LogLevel::Info, "a"));
    appender.append(&mut cache, rec(LogLevel::Info, "b"));
    assert_eq!(cache.buffers[appender.buffer].len(), 1);
    assert_eq!(cache.buffers[appender.buffer][0].msg(), "b");
}

#[test]
fn named_buffers_are_shared() {
    let mut cache = Cache::new();
    let a = cache.get_or_create("x".to_string());
    let b = cache.get_or_create("y".to_string());
    let c = cache.get_or_create("x".to_string());
    assert_eq!(a, c);
    assert_ne!(a, b);
    assert_eq!(cache.names.len(), 2);
}

#[test]
fn log_view_shows_newest_first_up_to_level() {
    let mut cache = Cache::new();
    let mut view = LogView::attach(&mut cache);
    assert_eq!(cache.names[view.buffer], LOG_VIEW_BUFFER);
    assert_eq!(view.max_level(), LogLevel::Info);
    for (level, msg) in [
        (LogLevel::Error, "e"),
        (LogLevel::Debug, "d"),
        (LogLevel::Info, "i"),
        (LogLevel::Warn, "w"),
        (LogLevel::Trace, "t"),
    ] {
        cache.append(view.buffer, 10, rec(level, msg));
    }
    let shown: Vec<String> = view.visible_records(&cache.buffers[view.buffer], 2).iter().map(|r| r.msg().to_string()).collect();
    assert_eq!(shown, vec!["w".to_string(), "i".to_string()]);
    let all: Vec<String> = view.visible_records(&cache.buffers[view.buffer], 10).iter().map(|r| r.msg().to_string()).collect();
    assert_eq!(all, vec!["w".to_string(), "i".to_string(), "e".to_string()]);
    view.set_max_level(LogLevel::Trace);
    assert_eq!(view.visible_records(&cache.buffers[view.buffer], 10).len(), 5);
    assert_eq!(view.visible_records(&cache.buffers[view.buffer], 0).len(), 0);
    assert_eq!(view.required_size(100, 2), (70, 2));
}

#[test]
fn level_order_and_default_record() {
    assert!(LogLevel::Error.at_most(LogLevel::Info));
    assert!(!LogLevel::Debug.at_most(LogLevel::Info));
    assert_eq!(LogLevel::Trace.rank(), 5);
    let d = CachedLogRecord::default();
    assert_eq!(d.level(), LogLevel::Trace);
    assert_eq!(d.msg(), "");
}

#[test]
fn login_names() {
    assert_eq!(Accounts::is_valid_name("alice_01"), Ok(()));
    assert_eq!(Accounts::is_valid_name(""), Ok(()));
    assert_eq!(
        Accounts::is_valid_name("bad name"),
        Err(AccountsError::InvalidLoginName("bad name".to_string()))
    );
    assert!(Accounts::is_valid_name("é").is_err());
    let _ = AccountsConfig::new();
}
