use cf_update_backend::error::{Error, ErrorKind};

#[test]
fn new_keeps_kind_and_message() {
    let e = Error::new(ErrorKind::SSHError, String::from("boom"));
    assert_eq!(e.kind, ErrorKind::SSHError);
    assert_eq!(e.message, "boom");
}

#[test]
fn to_text_joins_kind_sentence_and_message() {
    let e = Error::new(ErrorKind::IOError, String::from("disk full"));
    assert_eq!(e.to_text(), "Error during IO operation - disk full");
    let e = Error::new(ErrorKind::IOErrorNonFatal, String::from("x"));
    assert_eq!(e.to_text(), "Non fatal error during IO operation - x");
    let e = Error::new(ErrorKind::CompilerError, String::from("y"));
    assert_eq!(e.to_text(), "Error during script compilation - y");
    let e = Error::new(ErrorKind::SSHError, String::new());
    assert_eq!(e.to_text(), "Error during SSH - ");
    let e = Error::new(ErrorKind::CfError, String::from("z"));
    assert_eq!(e.to_text(), "Error during Cloudflare check - z");
}
