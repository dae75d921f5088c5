use via::allow::{get, post};
use via::resource::ResourceBuilder;

#[test]
fn resource_or_deny_keeps_paths_and_methods() {
    let resource = ResourceBuilder::collection("/posts", get("index").post("create"))
        .member("/posts/:id", get("show"))
        .or_deny();
    assert_eq!(resource.collection.path, "/posts");
    assert_eq!(resource.member.path, "/posts/:id");
    assert!(resource.collection.middleware.selects("POST"));
    assert!(!resource.member.middleware.selects("POST"));
    let refused = resource.member.middleware.or_else().refuse("POST");
    assert_eq!(refused.allows(), Some("GET".to_owned()));
    let _ = post(());
}
