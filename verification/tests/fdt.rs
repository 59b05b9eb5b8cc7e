use fdt_edit::{Node, Property};
use k3_drivers::fdt::{
    has_compatible, has_prop, prop_bytes, prop_str, prop_str_list, prop_u32, prop_u32_list,
    same_str,
};

fn node(data: &[u8]) -> Node {
    let mut node = Node::new("device");
    node.set_property(Property::new("value", data.to_vec()));
    node
}

#[test]
fn properties_are_found_by_name() {
    let node = node(&[1, 2]);
    assert!(has_prop(&node, "value"));
    assert!(!has_prop(&node, "other"));
    assert_eq!(prop_bytes(&node, "value"), Some(vec![1, 2]));
    assert_eq!(prop_bytes(&node, "other"), None);
}

#[test]
fn numbers_are_big_endian() {
    assert_eq!(prop_u32(&node(&[1, 2, 3, 4]), "value"), Some(0x0102_0304));
    assert_eq!(prop_u32(&node(&[1, 2, 3]), "value"), None);
    assert_eq!(prop_u32(&node(&[0; 8]), "value"), None);
    assert_eq!(prop_u32(&node(&[]), "other"), None);
    assert_eq!(prop_u32_list(&node(&[0, 0, 0, 1, 0, 0, 1, 0, 9]), "value"), vec![1, 0x100]);
    assert!(prop_u32_list(&node(&[]), "other").is_empty());
}

#[test]
fn numbers_agree_with_the_node() {
    for data in [&[1u8, 2, 3, 4][..], &[1, 2, 3], &[0; 9], &[]] {
        let node = node(data);
        let property = node.get_property("value").unwrap();
        assert_eq!(prop_u32(&node, "value"), property.get_u32());
        assert_eq!(prop_u32_list(&node, "value"), property.get_u32_iter().collect::<Vec<_>>());
    }
}

#[test]
fn strings_end_with_a_nul() {
    assert_eq!(prop_str(&node(b"rgmii\0"), "value"), Some("rgmii".to_string()));
    assert_eq!(prop_str(&node(b"rgmii"), "value"), None);
    assert_eq!(prop_str(&node(b"a\0b\0"), "value"), None);
    assert_eq!(prop_str(&node(&[0xff, 0]), "value"), None);
    assert_eq!(
        prop_str_list(&node(b"snps,dwmac\0spacemit,k3-gmac\0rest"), "value"),
        vec!["snps,dwmac".to_string(), "spacemit,k3-gmac".to_string()]
    );
    assert!(prop_str_list(&node(&[]), "other").is_empty());
}

#[test]
fn compatible_strings_are_compared() {
    let mut node = Node::new("device");
    assert!(!has_compatible(&node, "spacemit,k3-gmac"));
    node.set_property(Property::new("compatible", b"a\0spacemit,k3-gmac\0".to_vec()));
    assert!(has_compatible(&node, "spacemit,k3-gmac"));
    assert!(!has_compatible(&node, "spacemit,k3"));
    assert!(same_str("a", "a"));
    assert!(!same_str("a", "ab"));
}
