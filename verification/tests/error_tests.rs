use neural_net::error::AIError;

#[test]
fn err_pass() {
    let err = AIError::new(&format!("testing error {}", "123456".to_string()));
    assert_eq!(err.description(), "testing error 123456");
    assert_eq!(err.description(), "testing error 123456");
}
