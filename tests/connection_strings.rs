use pg_helper::{connectionstring, connectionstring_with_db, is_blank, ConnectionProperties};

fn props<'a>(host: &'a str, name: &'a str, user: &'a str, password: &'a str) -> ConnectionProperties<'a> {
    ConnectionProperties { db_host: host, db_name: name, db_username: user, db_password: password }
}

#[test]
fn server_string_with_all_parts() {
    assert_eq!(connectionstring(&props("h", "", "u", "p")), "host=h user=u password=p");
}

#[test]
fn server_string_with_host_only() {
    assert_eq!(connectionstring(&props("h", "", "", "")), "host=h");
}

#[test]
fn server_string_all_empty() {
    assert_eq!(connectionstring(&props("", "", "", "")), "");
}

#[test]
fn server_string_ignores_name() {
    assert_eq!(connectionstring(&props("h", "app", "u", "p")), "host=h user=u password=p");
}

#[test]
fn server_string_skips_blank_values() {
    assert_eq!(connectionstring(&props("  ", "", "u", "\t")), " user=u");
    assert_eq!(connectionstring(&props("db.local", "", " ", "secret")), "host=db.local password=secret");
}

#[test]
fn database_string_appends_name() {
    assert_eq!(
        connectionstring_with_db(&props("h", "app", "u", "p")),
        "host=h user=u password=p dbname=app"
    );
}

#[test]
fn database_string_without_name_is_server_string() {
    let p = props("h", "", "u", "p");
    assert_eq!(connectionstring_with_db(&p), connectionstring(&p));
    let q = props("h", "   ", "u", "p");
    assert_eq!(connectionstring_with_db(&q), "host=h user=u password=p");
}

#[test]
fn database_string_name_only() {
    assert_eq!(connectionstring_with_db(&props("", "app", "", "")), " dbname=app");
}

#[test]
fn blank_detection() {
    assert!(is_blank(""));
    assert!(is_blank(" \t\n"));
    assert!(is_blank("\u{a0}\u{3000}"));
    assert!(!is_blank(" a "));
    assert!(!is_blank("x"));
}
