use via::allow::{get, post, Mask, MethodNotAllowed};
use via::error::Error;

#[test]
fn mask_from_method_names() {
    assert_eq!(Mask::from_method("GET").as_str(), Some("GET"));
    assert_eq!(Mask::from_method("TRACE").as_str(), Some("TRACE"));
    assert_eq!(Mask::from_method("BREW").as_str(), None);
    let both = Mask::from_method("GET").union(Mask::from_method("POST"));
    assert!(both.contains(&Mask::from_method("GET")));
    assert!(both.contains(&Mask::from_method("POST")));
    assert!(!both.contains(&Mask::from_method("PUT")));
    assert_eq!(both.as_str(), None);
}

#[test]
fn allow_header_lists_methods_in_bit_order() {
    let allow = Mask::from_method("POST").union(Mask::from_method("GET"));
    let refused = MethodNotAllowed::new(allow, Mask::from_method("PUT"));
    assert_eq!(refused.allows(), Some("GET, POST".to_owned()));
    assert_eq!(refused.message(), "method not allowed: \"PUT\"");
}

#[test]
fn empty_mask_has_no_allow_header() {
    let refused = MethodNotAllowed::new(Mask::from_method("BREW"), Mask::from_method("BREW"));
    assert_eq!(refused.allows(), None);
    assert_eq!(refused.message(), "method not allowed");
}

#[test]
fn branch_selects_its_methods() {
    let branch = get("index").post("create");
    assert!(branch.selects("POST"));
    assert!(!branch.selects("GET"));
    assert!(branch.or_else().selects("GET"));
    assert!(!branch.or_else().selects("DELETE"));
    assert_eq!(*branch.middleware().middleware(), "create");
}

#[test]
fn or_deny_refuses_other_methods_with_405() {
    let branch = get("index").post("create").or_deny();
    assert!(branch.selects("GET"));
    assert!(!branch.selects("DELETE"));
    let refused = branch.or_else().refuse("DELETE");
    assert_eq!(refused.allows(), Some("GET, POST".to_owned()));
    let error = Error::method_not_allowed(refused);
    assert_eq!(error.status(), 405);
    assert_eq!(error.message(), "method not allowed: \"DELETE\"");
}

#[test]
fn unknown_methods_select_no_branch() {
    let branch = get("index");
    assert!(!branch.selects("PURGE"));
    let denied = get("index").or_deny();
    assert!(!denied.selects("PURGE"));
    let refused = denied.or_else().refuse("PURGE");
    assert_eq!(refused.allows(), Some("GET".to_owned()));
    assert_eq!(refused.message(), "method not allowed");
    assert_eq!(Mask::empty().bits(), 0);
    assert_eq!(Mask::from_bits_retain(4).as_str(), Some("GET"));
}
