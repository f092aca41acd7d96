use ccargo::target_name::TargetName;

#[test]
fn from_str() {
    assert!(TargetName::from_str(b"pkg::lib").is_ok());
    assert!(TargetName::from_str(b"pkg::").is_err());
    assert!(TargetName::from_str(b"::lib").is_err());
    assert!(TargetName::from_str(b"pkg:lib").is_err());
    assert!(TargetName::from_str(b"").is_err());
    let t = TargetName::from_str(b"pkg::lib").unwrap();
    let u = TargetName::new(b"pkg".to_vec(), b"lib".to_vec());
    assert_eq!(t.package(), u.package());
    assert_eq!(t.target(), u.target());
    assert_eq!(b"pkg::lib".to_vec(), t.render());
}
