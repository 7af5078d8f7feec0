use connector_integration::text::join;
use connector_integration::text::text_eq;

#[test]
fn equal_texts_are_equal() {
    assert!(text_eq("", ""));
    assert!(text_eq("adyen", "adyen"));
    assert!(text_eq("zażółć", "zażółć"));
}

#[test]
fn different_texts_are_different() {
    assert!(!text_eq("adyen", "adyen_test"));
    assert!(!text_eq("adyen", "adyeN"));
    assert!(!text_eq("a", ""));
    assert!(!text_eq("", "a"));
    assert!(!text_eq("é", "e"));
    assert!(!text_eq("stripe", "strip"));
}

#[test]
fn join_puts_head_before_tail() {
    assert_eq!(join("https://pos.example/", "api/pay/EYV3DPay"), "https://pos.example/api/pay/EYV3DPay");
    assert_eq!(join("", "tail"), "tail");
    assert_eq!(join("head", ""), "head");
    assert_eq!(join("", ""), "");
}
