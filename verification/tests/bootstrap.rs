use rocket_sync_db_pools::rusqlite::Connection;
use translatabase::schema::APP_PAGE;
use translatabase::{
    create_lang, create_word_class, delete_lang, ensure_schema, get_langs, get_word_classes, index,
    Failure, LangIn, LangOut, Redirect, Status, WordClassIn, WordClassOut,
};

fn refused<T>(outcome: Result<T, Failure>) -> bool {
    matches!(outcome, Err(Failure { status: Status { code: 500 }, .. }))
}

fn schema_of(conn: &Connection) -> Vec<(String, String, String)> {
    let mut statement = conn
        .prepare("select type, name, sql from sqlite_master where name not like 'sqlite_%' order by name;")
        .unwrap();
    let rows = statement
        .query_map((), |row| Ok((row.get(0)?, row.get(1)?, row.get(2)?)))
        .unwrap();
    rows.map(|row| row.unwrap()).collect()
}

#[test]
fn bootstrap_creates_the_two_tables_and_their_rules() {
    let conn = Connection::open_in_memory().unwrap();
    assert_eq!(schema_of(&conn), vec![]);
    assert_eq!(ensure_schema(&conn), Ok(()));
    let schema = schema_of(&conn);
    let names: Vec<(&str, &str)> =
        schema.iter().map(|(kind, name, _)| (kind.as_str(), name.as_str())).collect();
    assert_eq!(
        names,
        vec![
            ("table", "language"),
            ("trigger", "language_delete_takes_word_classes"),
            ("table", "word_class"),
            ("trigger", "word_class_insert_needs_language"),
            ("trigger", "word_class_update_needs_language"),
        ]
    );
}

#[test]
fn the_rules_hold_on_a_session_that_did_not_run_the_bootstrap() {
    let store = "file:translatabase_rules?mode=memory&cache=shared";
    let first = Connection::open(store).unwrap();
    assert_eq!(ensure_schema(&first), Ok(()));
    assert_eq!(create_lang(&first, &LangIn { name: "French".to_string() }), Ok(1));
    assert_eq!(
        create_word_class(&first, &WordClassIn { lang_id: 1, name: "Verb".to_string() }),
        Ok(1)
    );
    let second = Connection::open(store).unwrap();
    assert!(refused(create_word_class(&second, &WordClassIn { lang_id: 2, name: "Noun".to_string() })));
    assert_eq!(delete_lang(&second, 1), Ok(()));
    assert_eq!(get_word_classes(&second, None), Ok(vec![]));
    assert_eq!(get_word_classes(&first, None), Ok(vec![]));
    assert_eq!(get_langs(&first), Ok(vec![]));
}

#[test]
fn bootstrap_run_again_leaves_the_schema_as_it_was() {
    let conn = Connection::open_in_memory().unwrap();
    assert_eq!(ensure_schema(&conn), Ok(()));
    let once = schema_of(&conn);
    for _ in 0..5 {
        assert_eq!(ensure_schema(&conn), Ok(()));
        assert_eq!(schema_of(&conn), once);
    }
}

#[test]
fn bootstrap_run_again_keeps_the_rows() {
    let conn = Connection::open_in_memory().unwrap();
    assert_eq!(ensure_schema(&conn), Ok(()));
    let french = create_lang(&conn, &LangIn { name: "French".to_string() }).unwrap();
    let verb =
        create_word_class(&conn, &WordClassIn { lang_id: french, name: "Verb".to_string() })
            .unwrap();
    assert_eq!(ensure_schema(&conn), Ok(()));
    assert_eq!(ensure_schema(&conn), Ok(()));
    assert_eq!(
        get_langs(&conn),
        Ok(vec![LangOut { id: french, name: "French".to_string() }])
    );
    assert_eq!(
        get_word_classes(&conn, None),
        Ok(vec![WordClassOut { id: verb, lang_id: french, name: "Verb".to_string() }])
    );
    assert_eq!(create_lang(&conn, &LangIn { name: "German".to_string() }), Ok(french + 1));
}

#[test]
fn bootstrap_failure_is_an_internal_error() {
    let conn = Connection::open_in_memory().unwrap();
    conn.execute_batch("create table other (x); create index language on other (x);").unwrap();
    assert!(refused(ensure_schema(&conn)));
    assert!(refused(index(&conn)));
}

#[test]
fn index_prepares_the_store_and_redirects_to_the_app_page() {
    let conn = Connection::open_in_memory().unwrap();
    assert_eq!(index(&conn), Ok(Redirect { target: "app.html".to_string() }));
    assert_eq!(get_langs(&conn), Ok(vec![]));
    assert_eq!(index(&conn), Ok(Redirect { target: "app.html".to_string() }));
    assert_eq!(APP_PAGE, "app.html");
}

#[test]
fn bootstrap_failure_says_why() {
    let conn = Connection::open_in_memory().unwrap();
    conn.execute_batch("create table other (x); create index language on other (x);").unwrap();
    assert_eq!(
        ensure_schema(&conn),
        Err(Failure {
            status: Status::internal_server_error(),
            cause: "there is already an index named language".to_string(),
        })
    );
    assert_eq!(index(&conn), ensure_schema(&conn).map(|()| Redirect::to("app.html")));
}
