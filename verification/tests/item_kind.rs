use docsrs_cli::error::ErrorKind;
use docsrs_cli::item_kind::{rustc_crate_name, ItemKind};

#[test]
fn hyphen_to_underscore() {
    assert_eq!(rustc_crate_name("async-trait"), "async_trait");
    assert_eq!(rustc_crate_name("serde"), "serde");
}

#[test]
fn fn_aliases() {
    assert_eq!(ItemKind::parse("fn").unwrap(), ItemKind::Fn);
    assert_eq!(ItemKind::parse("function").unwrap(), ItemKind::Fn);
    assert_eq!(ItemKind::parse("method").unwrap(), ItemKind::Fn);
    let (k, echo) = ItemKind::parse_with_echo("method").unwrap();
    assert_eq!(k, ItemKind::Fn);
    assert_eq!(echo, "method");
    let (_, echo) = ItemKind::parse_with_echo("fn").unwrap();
    assert_eq!(echo, "fn");
}

#[test]
fn href_classifier() {
    assert_eq!(ItemKind::from_href("fn.foo.html"), Some(ItemKind::Fn));
    assert_eq!(ItemKind::from_href("union.U.html"), Some(ItemKind::Union));
    assert_eq!(ItemKind::from_href("attr.async_trait.html"), Some(ItemKind::Attribute));
    assert_eq!(ItemKind::from_href("derive.Serialize.html"), Some(ItemKind::Derive));
    assert_eq!(ItemKind::from_href("de/trait.Deserialize.html"), Some(ItemKind::Trait));
    assert_eq!(ItemKind::from_href("unknown.html"), None);
}

#[test]
fn constant_prefix_modern_and_legacy() {
    assert_eq!(ItemKind::file_prefix(ItemKind::Constant), Some("constant"));
    assert_eq!(ItemKind::from_href("constant.MAX.html"), Some(ItemKind::Constant));
    assert_eq!(ItemKind::from_href("constant._SC_OPEN_MAX.html"), Some(ItemKind::Constant));
    assert_eq!(ItemKind::from_href("const.MAX.html"), Some(ItemKind::Constant));
    assert_eq!(ItemKind::parse("const").unwrap(), ItemKind::Constant);
    assert_eq!(ItemKind::parse("constant").unwrap(), ItemKind::Constant);
    assert_eq!(ItemKind::Constant.as_str(), "constant");
}

#[test]
fn member_only_kinds_own_no_page() {
    assert!(!ItemKind::Variant.owns_page());
    assert!(!ItemKind::StructField.owns_page());
    assert_eq!(ItemKind::Variant.file_prefix(), None);
    assert_eq!(ItemKind::StructField.file_prefix(), None);
    for k in [
        ItemKind::Module,
        ItemKind::Struct,
        ItemKind::Trait,
        ItemKind::Enum,
        ItemKind::Union,
        ItemKind::Fn,
        ItemKind::Type,
        ItemKind::Constant,
        ItemKind::Static,
        ItemKind::Macro,
        ItemKind::Attribute,
        ItemKind::Derive,
    ] {
        assert!(k.owns_page(), "{k:?} should own a page");
        assert!(k.file_prefix().is_some(), "{k:?} needs a file prefix");
    }
}

#[test]
fn variant_and_field_aliases() {
    assert_eq!(ItemKind::parse("variant").unwrap(), ItemKind::Variant);
    assert_eq!(ItemKind::parse("structfield").unwrap(), ItemKind::StructField);
    assert_eq!(ItemKind::parse("field").unwrap(), ItemKind::StructField);
    let (_, echo) = ItemKind::parse_with_echo("field").unwrap();
    assert_eq!(echo, "structfield");
}

#[test]
fn member_anchors_classify_only_when_the_file_name_is_silent() {
    assert_eq!(ItemKind::from_href("enum.Option.html#variant.Some"), Some(ItemKind::Enum));
    assert_eq!(ItemKind::from_href("#variant.Some"), Some(ItemKind::Variant));
    assert_eq!(ItemKind::from_href("#structfield.start"), Some(ItemKind::StructField));
    assert_eq!(ItemKind::from_href("#method.new"), Some(ItemKind::Fn));
}

// Library-specific checks beyond the original suite.

#[test]
fn every_kind_token_parses_back_and_every_page_href_classifies() {
    let all = [
        ItemKind::Module,
        ItemKind::Struct,
        ItemKind::Trait,
        ItemKind::Enum,
        ItemKind::Union,
        ItemKind::Fn,
        ItemKind::Type,
        ItemKind::Constant,
        ItemKind::Static,
        ItemKind::Macro,
        ItemKind::Attribute,
        ItemKind::Derive,
        ItemKind::Variant,
        ItemKind::StructField,
    ];
    for k in all {
        assert_eq!(ItemKind::parse(k.as_str()).unwrap(), k);
        if k.owns_page() && k != ItemKind::Module {
            let href = format!("{}.Name.html", k.file_prefix().unwrap());
            assert_eq!(ItemKind::from_href(&href), Some(k), "{href}");
        }
    }
    assert_eq!(ItemKind::parse("  STRUCT ").unwrap(), ItemKind::Struct);
    let e = ItemKind::parse("Widget").unwrap_err();
    assert_eq!(e.kind(), ErrorKind::InvalidInput);
    assert!(e.message().contains("widget"));
    assert_eq!(ItemKind::from_href("sub/dir/index.html"), Some(ItemKind::Module));
}
