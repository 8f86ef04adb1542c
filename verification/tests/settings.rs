use mi::settings::{default_db_path, log_filter, mask, LogFilter};

#[test]
fn mask_shows_only_last_four() {
    assert_eq!(mask("abcdefgh"), "****efgh");
    assert_eq!(mask("abcde"), "*bcde");
    assert_eq!(mask("abcd"), "****");
    assert_eq!(mask("ab"), "**");
    assert_eq!(mask(""), "");
    assert_eq!(mask("xéé"), "*éé");
}

#[test]
fn default_database_path() {
    assert_eq!(default_db_path(), "mi.db");
}

#[test]
fn verbosity_selects_filter() {
    assert_eq!(log_filter(0, false), LogFilter::EnvOr("warn"));
    assert_eq!(log_filter(1, false), LogFilter::EnvOr("info"));
    assert_eq!(log_filter(2, false), LogFilter::EnvOr("debug"));
    assert_eq!(log_filter(9, false), LogFilter::EnvOr("trace"));
    assert_eq!(log_filter(3, true), LogFilter::Fixed("error"));
}
