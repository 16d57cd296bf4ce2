use zero2prod::provision::create_database_statement;

#[test]
fn statement_quotes_the_name() {
    assert_eq!(
        create_database_statement("5f0c9e6a-9d2b-4a43-8a4e-0f5a3f0a7b21"),
        "CREATE DATABASE \"5f0c9e6a-9d2b-4a43-8a4e-0f5a3f0a7b21\";"
    );
}

#[test]
fn statement_doubles_quotes_in_the_name() {
    assert_eq!(create_database_statement("a\"b"), "CREATE DATABASE \"a\"\"b\";");
}

#[test]
fn statement_for_empty_name() {
    assert_eq!(create_database_statement(""), "CREATE DATABASE \"\";");
}
