use libproduct::ProductName;

#[test]
fn test_base_case() {
    let name = ProductName::new("dev.thmsn.standard", "0.1.0", None);
    assert_eq!(name.render_name(), "dev.thmsn.standard");
}

#[test]
fn test_base_with_as_case() {
    let name = ProductName::new("dev.thmsn.as", "0.1.0", None);
    assert_eq!(name.render_name(), "dev.thmsn.as");
}

#[test]
fn test_ext_case() {
    let base = ProductName::new("dev.thmsn.ext", "0.1.0", None);
    let name = base.with("app");
    assert_eq!(name.render_name(), "dev.thmsn.ext.app");
}

#[test]
fn test_ext_with_as_case() {
    let base = ProductName::new("dev.thmsn.ext", "0.1.0", None);
    let name = base.with("app_with_as");
    assert_eq!(name.render_name(), "dev.thmsn.ext.app_with_as");
}

#[test]
fn test_ext_with_ext_on_ext_case() {
    let base = ProductName::new("dev.thmsn.ext", "0.1.0", None);
    let first = base.with("app");
    let name = first.with("another_ext");
    assert_eq!(name.render_name(), "dev.thmsn.ext.app.another_ext");
}

#[test]
fn render_name_joins_extensions_in_append_order() {
    let mut name = ProductName::new("base", "1.0.0", None);
    name = name.with("one");
    name = name.with("two");
    name = name.with("three");
    assert_eq!(name.render_name(), "base.one.two.three");
}

#[test]
fn with_never_mutates_its_receiver() {
    let base = ProductName::new("dev.thmsn.shared", "0.1.0", None);
    let left = base.with("left");
    let right = base.with("right");
    assert_eq!(base.render_name(), "dev.thmsn.shared");
    assert_eq!(left.render_name(), "dev.thmsn.shared.left");
    assert_eq!(right.render_name(), "dev.thmsn.shared.right");
    let left_deeper = left.with("deeper");
    assert_eq!(left.render_name(), "dev.thmsn.shared.left");
    assert_eq!(left_deeper.render_name(), "dev.thmsn.shared.left.deeper");
    assert_eq!(right.render_name(), "dev.thmsn.shared.right");
}

#[test]
fn empty_segments_are_kept_verbatim() {
    let name = ProductName::new("", "1.0.0", None);
    assert_eq!(name.render_name(), "");
    let name = name.with("");
    assert_eq!(name.render_name(), ".");
    let name = name.with("x");
    assert_eq!(name.render_name(), "..x");
}

#[test]
fn resolved_version_falls_back_without_build_record() {
    let name = ProductName::new("dev.thmsn.app", "3.2.1", None);
    assert_eq!(name.resolved_version(), "3.2.1");
}
