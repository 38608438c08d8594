use tun::error::{Error, ErrorKind};

#[test]
fn descriptions() {
    assert_eq!(ErrorKind::NameTooLong(16).description(), "Interface name too long");
    assert_eq!(ErrorKind::Open.description(), "Error while opening the device");
    assert_eq!(ErrorKind::Create.description(), "Error while creating the device");
    assert_eq!(ErrorKind::AddIp.description(), "Error while adding an IP to the interface");
}

#[test]
fn message_of_a_long_name_gives_the_length() {
    assert_eq!(ErrorKind::NameTooLong(16).to_string(), "Interface name too long (16 >= 16)");
    assert_eq!(ErrorKind::NameTooLong(105).to_string(), "Interface name too long (105 >= 16)");
    assert_eq!(ErrorKind::NameTooLong(9).to_string(), "Interface name too long (9 >= 16)");
    assert_eq!(ErrorKind::NameTooLong(0).to_string(), "Interface name too long (0 >= 16)");
    assert_eq!(ErrorKind::NameTooLong(1000).to_string(), "Interface name too long (1000 >= 16)");
    assert_eq!(
        ErrorKind::NameTooLong(usize::MAX).to_string(),
        format!("Interface name too long ({} >= 16)", usize::MAX)
    );
}

#[test]
fn message_of_the_other_kinds_is_the_description() {
    assert_eq!(ErrorKind::Open.to_string(), "Error while opening the device");
    assert_eq!(ErrorKind::Create.to_string(), "Error while creating the device");
    assert_eq!(ErrorKind::AddIp.to_string(), "Error while adding an IP to the interface");
}

#[test]
fn error_speaks_for_its_kind() {
    let error = Error { kind: ErrorKind::AddIp, cause: Some(1) };
    assert_eq!(error.description(), "Error while adding an IP to the interface");
    assert_eq!(error.to_string(), "Error while adding an IP to the interface");
    let error = Error { kind: ErrorKind::NameTooLong(20), cause: None };
    assert_eq!(error.to_string(), "Interface name too long (20 >= 16)");
}
