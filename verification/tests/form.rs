use zero2prod::form::{FormData, ValidationError};

fn pairs(list: &[(&str, &str)]) -> Vec<(String, String)> {
    list.iter().map(|(k, v)| (k.to_string(), v.to_string())).collect()
}

#[test]
fn parse_decodes_percent_escapes_and_plus_signs() {
    let form = FormData::parse(b"name=Frodo%20Baggins&email=frodo.baggins%40gmail.com").unwrap();
    assert_eq!(form.name(), "Frodo Baggins");
    assert_eq!(form.email(), "frodo.baggins@gmail.com");

    let form = FormData::parse(b"email=u%2Bv%40x.y&name=Ursula+Le+Guin").unwrap();
    assert_eq!(form.email(), "u+v@x.y");
    assert_eq!(form.name(), "Ursula Le Guin");
}

#[test]
fn parse_takes_the_fields_in_either_order_and_passes_over_others() {
    let form = FormData::parse(b"email=a@b.c&name=Ann").unwrap();
    assert_eq!((form.email(), form.name()), ("a@b.c", "Ann"));
    let form = FormData::parse(b"name=Ann&email=a@b.c").unwrap();
    assert_eq!((form.email(), form.name()), ("a@b.c", "Ann"));
    let form = FormData::parse(b"x=1&name=Ann&&y=2&email=a@b.c&z").unwrap();
    assert_eq!((form.email(), form.name()), ("a@b.c", "Ann"));
}

#[test]
fn parse_decodes_the_names_of_pairs_too() {
    let form = FormData::parse(b"%65mail=a@b.c&n%61me=Ann").unwrap();
    assert_eq!((form.email(), form.name()), ("a@b.c", "Ann"));
    assert_eq!(FormData::parse(b"Email=a@b.c&name=Ann").unwrap_err(), ValidationError::MissingEmail);
}

#[test]
fn parse_keeps_bytes_that_are_no_escape() {
    let form = FormData::parse(b"name=100%&email=a%zzb").unwrap();
    assert_eq!((form.email(), form.name()), ("a%zzb", "100%"));
    let form = FormData::parse(b"name=%ff&email=a").unwrap();
    assert_eq!(form.name(), "\u{fffd}");
}

#[test]
fn parse_reports_each_error() {
    assert_eq!(FormData::parse(b"").unwrap_err(), ValidationError::MissingEmail);
    assert_eq!(FormData::parse(b"name=Ann").unwrap_err(), ValidationError::MissingEmail);
    assert_eq!(FormData::parse(b"email=a@b.c").unwrap_err(), ValidationError::MissingName);
    assert_eq!(FormData::parse(b"email=&name=Ann").unwrap_err(), ValidationError::EmptyEmail);
    assert_eq!(FormData::parse(b"email&name=Ann").unwrap_err(), ValidationError::EmptyEmail);
    assert_eq!(FormData::parse(b"email=a@b.c&name=").unwrap_err(), ValidationError::EmptyName);
    assert_eq!(
        FormData::parse(b"email=a@b.c&email=a@b.c&name=Ann").unwrap_err(),
        ValidationError::RepeatedField
    );
    assert_eq!(
        FormData::parse(b"email=a@b.c&name=Ann&name=").unwrap_err(),
        ValidationError::RepeatedField
    );
}

#[test]
fn errors_come_in_a_fixed_order() {
    // repeated before missing
    assert_eq!(FormData::parse(b"name=a&name=b").unwrap_err(), ValidationError::RepeatedField);
    // missing before empty
    assert_eq!(FormData::parse(b"name=").unwrap_err(), ValidationError::MissingEmail);
    assert_eq!(FormData::parse(b"email=").unwrap_err(), ValidationError::MissingName);
    // the address before the name
    assert_eq!(FormData::parse(b"name=&email=").unwrap_err(), ValidationError::EmptyEmail);
}

#[test]
fn from_pairs_picks_the_two_fields() {
    let form = FormData::from_pairs(&pairs(&[("name", "Ann"), ("other", "x"), ("email", "a@b.c")])).unwrap();
    assert_eq!((form.email(), form.name()), ("a@b.c", "Ann"));
    assert_eq!(FormData::from_pairs(&pairs(&[])).unwrap_err(), ValidationError::MissingEmail);
    assert_eq!(
        FormData::from_pairs(&pairs(&[("email", "a@b.c")])).unwrap_err(),
        ValidationError::MissingName
    );
    assert_eq!(
        FormData::from_pairs(&pairs(&[("email", ""), ("email", "a"), ("name", "")])).unwrap_err(),
        ValidationError::RepeatedField
    );
    assert_eq!(
        FormData::from_pairs(&pairs(&[("email", "a"), ("name", "")])).unwrap_err(),
        ValidationError::EmptyName
    );
}

#[test]
fn new_wants_both_fields_filled() {
    let form = FormData::new("a@b.c".to_string(), "Ann".to_string()).unwrap();
    assert_eq!((form.email(), form.name()), ("a@b.c", "Ann"));
    assert_eq!(
        FormData::new(String::new(), "Ann".to_string()).unwrap_err(),
        ValidationError::EmptyEmail
    );
    assert_eq!(
        FormData::new("a@b.c".to_string(), String::new()).unwrap_err(),
        ValidationError::EmptyName
    );
    assert_eq!(FormData::new(String::new(), String::new()).unwrap_err(), ValidationError::EmptyEmail);
    // no format is asked of either field
    assert!(FormData::new(" ".to_string(), "@".to_string()).is_ok());
}
