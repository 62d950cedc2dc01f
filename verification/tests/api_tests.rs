use pty_shell::api::Api;

#[test]
fn base_url() {
    let base = "http://www.example.com";
    let a = Api::new(base).unwrap();
    assert_eq!(a.base_url(), "http://www.example.com/".as_bytes().to_vec());
}

#[test]
fn normalized_base_url() {
    let base = "http://www.example.com/bar";
    let a = Api::new(base).unwrap();
    assert_eq!(a.base_url(), format!("{}/", base).into_bytes());
}

#[test]
fn authentication_url() {
    let base = "http://www.example.com";
    let a = Api::new(base).unwrap();
    assert_eq!(
        a.authentication_url(),
        "http://www.example.com/connect/".as_bytes().to_vec()
    );
}

#[test]
fn normalized_authentication_url() {
    let base = "http://www.example.com/whatever";
    let a = Api::new(base).unwrap();
    assert_eq!(
        a.authentication_url(),
        "http://www.example.com/whatever/connect/".as_bytes().to_vec()
    );
}

#[test]
fn upload_url() {
    let base = "http://www.example.com";
    let a = Api::new(base).unwrap();
    assert_eq!(
        a.upload_url(),
        "http://www.example.com/api/asciicasts".as_bytes().to_vec()
    );
}

#[test]
fn normalized_upload_url() {
    let base = "http://www.example.com/blah";
    let a = Api::new(base).unwrap();
    assert_eq!(
        a.upload_url(),
        "http://www.example.com/blah/api/asciicasts".as_bytes().to_vec()
    );
}

#[test]
fn rejects_a_relative_address() {
    assert!(Api::new("not an absolute url").is_err());
}
