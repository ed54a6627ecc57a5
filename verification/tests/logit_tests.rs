use cherry_bot::logit::Logit;

#[test]
fn test_logit() {
    let err_res: std::io::Result<()> = Err(std::io::ErrorKind::Other.into());
    let tagged = err_res.logit("message");
    assert!(tagged.is_err());
    assert_eq!(tagged.unwrap_err().kind(), std::io::ErrorKind::Other);
}

#[test]
fn logit_warn_keeps_the_value() {
    let ok: Result<u32, String> = Ok(7);
    assert_eq!(ok.logit_warn("ignored"), Ok(7));
}
