use rotseq::config::{index_file, pkg_folder, server_port, DEFAULT_PORT};

#[test]
fn port_defaults_when_unset() {
    assert_eq!(server_port(None), 3333);
    assert_eq!(DEFAULT_PORT, 3333);
}

#[test]
fn port_is_read_when_valid() {
    assert_eq!(server_port(Some(String::from("8080"))), 8080);
    assert_eq!(server_port(Some(String::from("+80"))), 80);
    assert_eq!(server_port(Some(String::from("65535"))), 65535);
    assert_eq!(server_port(Some(String::from("0"))), 0);
}

#[test]
fn port_defaults_when_invalid() {
    assert_eq!(server_port(Some(String::new())), 3333);
    assert_eq!(server_port(Some(String::from("65536"))), 3333);
    assert_eq!(server_port(Some(String::from("-80"))), 3333);
    assert_eq!(server_port(Some(String::from(" 80"))), 3333);
    assert_eq!(server_port(Some(String::from("+"))), 3333);
    assert_eq!(server_port(Some(String::from("http"))), 3333);
}

#[test]
fn folders_default_when_unset() {
    assert_eq!(pkg_folder(None), "./client/pkg");
    assert_eq!(index_file(None), "./client/index.html");
}

#[test]
fn folders_are_taken_as_given() {
    assert_eq!(pkg_folder(Some(String::from("/srv/pkg"))), "/srv/pkg");
    assert_eq!(index_file(Some(String::from("page.html"))), "page.html");
}
