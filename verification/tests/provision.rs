use uuid::Uuid;
use zero2prod::provision::{create_database, database_name, fresh_database_name};

#[test]
fn a_database_is_named_after_its_identifier() {
    assert_eq!(
        database_name(0x936da01f9abd4d9d80c702af85c822a8),
        "936da01f-9abd-4d9d-80c7-02af85c822a8"
    );
    assert_eq!(database_name(0), "00000000-0000-0000-0000-000000000000");
    assert_eq!(database_name(u128::MAX), "ffffffff-ffff-ffff-ffff-ffffffffffff");
    assert_eq!(
        database_name(0x0123456789abcdef0123456789abcdef),
        "01234567-89ab-cdef-0123-456789abcdef"
    );
}

#[test]
fn a_fresh_name_is_that_of_a_random_identifier() {
    let (id, name) = fresh_database_name();
    assert_eq!(name, database_name(id));
    assert_eq!(36, name.len());
    assert_eq!(4, (id >> 76) & 0xf);
    assert_eq!(2, (id >> 62) & 0x3);
    let parsed = Uuid::parse_str(&name).unwrap();
    assert_eq!(id, parsed.as_u128());
    assert_eq!(4, parsed.get_version_num());
}

#[test]
fn two_runs_get_databases_of_their_own() {
    let (first_id, first) = fresh_database_name();
    let (second_id, second) = fresh_database_name();
    assert_ne!(first_id, second_id);
    assert_ne!(first, second);
    assert_ne!(create_database(&first), create_database(&second));
    assert_ne!(database_name(1), database_name(2));
    assert_ne!(database_name(1), database_name(1 << 127));
}

#[test]
fn the_statement_quotes_the_name() {
    assert_eq!(create_database("newsletter"), "CREATE DATABASE \"newsletter\";");
    assert_eq!(
        create_database(&database_name(0x936da01f9abd4d9d80c702af85c822a8)),
        "CREATE DATABASE \"936da01f-9abd-4d9d-80c7-02af85c822a8\";"
    );
    assert_eq!(create_database(""), "CREATE DATABASE \"\";");
}
