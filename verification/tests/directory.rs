use divera_reports::divera::schema::response::Consumer;
use divera_reports::reports::directory::{resolve_user, UserDirectory};

fn jane() -> Consumer {
    Consumer {
        firstname: "Jane".to_string(),
        lastname: "Doe".to_string(),
        stdformat_name: "Jane D.".to_string(),
    }
}

fn john() -> Consumer {
    Consumer {
        firstname: "John".to_string(),
        lastname: "Roe".to_string(),
        stdformat_name: "John R.".to_string(),
    }
}

#[test]
fn placeholder_is_the_default_consumer() {
    let user = Consumer::default();
    assert_eq!(user.firstname, "Unbekannt");
    assert_eq!(user.lastname, "Unbekannt");
    assert_eq!(user.stdformat_name, "Unknown U.");
}

#[test]
fn consumer_clone_keeps_every_field() {
    assert_eq!(jane().clone(), jane());
}

#[test]
fn directory_holds_what_was_inserted() {
    let mut directory = UserDirectory::new();
    assert_eq!(directory.len(), 0);
    assert_eq!(directory.get("5"), None);
    directory.insert("5".to_string(), jane());
    directory.insert("6".to_string(), john());
    assert_eq!(directory.len(), 2);
    assert_eq!(directory.get("5"), Some(&jane()));
    assert_eq!(directory.get("6"), Some(&john()));
    assert_eq!(directory.get("7"), None);
    directory.insert("5".to_string(), john());
    assert_eq!(directory.len(), 2);
    assert_eq!(directory.get("5"), Some(&john()));
}

#[test]
fn resolve_user_finds_the_entry_under_the_decimal_rendering() {
    let mut directory = UserDirectory::new();
    directory.insert("5".to_string(), jane());
    directory.insert("-3".to_string(), john());
    directory.insert("1700000000".to_string(), john());
    assert_eq!(resolve_user(&directory, 5), jane());
    assert_eq!(resolve_user(&directory, -3), john());
    assert_eq!(resolve_user(&directory, 1700000000), john());
}

#[test]
fn resolve_user_substitutes_the_placeholder() {
    let mut directory = UserDirectory::new();
    directory.insert("5".to_string(), jane());
    let user = resolve_user(&directory, 6);
    assert_eq!(user.firstname, "Unbekannt");
    assert_eq!(user.lastname, "Unbekannt");
    assert_eq!(user.stdformat_name, "Unknown U.");
    assert_eq!(resolve_user(&UserDirectory::new(), 5), Consumer::default());
}

#[test]
fn resolve_user_ignores_keys_that_are_no_decimal_rendering() {
    let mut directory = UserDirectory::new();
    directory.insert("05".to_string(), jane());
    directory.insert("+5".to_string(), jane());
    directory.insert("5.0".to_string(), jane());
    directory.insert(" 5".to_string(), jane());
    assert_eq!(resolve_user(&directory, 5), Consumer::default());
}
