use aegis::vortex::{
    context_document, dependency_table, file_api, is_noise_dir, parse_source, mod_candidates, module_skeleton, project_tree,
    public_signature, public_submodules, with_token_footer, trim_quotes, tree_line, AttrSummary, DepSpec,
    ItemKind, ItemSummary, TreeEntry,
};

fn item(kind: ItemKind, public: bool, name: Option<&str>) -> ItemSummary {
    ItemSummary {
        kind,
        public,
        name: name.map(|n| n.to_string()),
        generic_params: 0,
        generics: String::new(),
        signature: String::new(),
        attr_paths: Vec::new(),
        inline_body: false,
    }
}

#[test]
fn tree_lines_indent_by_depth() {
    assert_eq!(tree_line(1, "src", true), "├── src/\n");
    assert_eq!(tree_line(2, "main.rs", false), "│   ├── main.rs\n");
    assert_eq!(tree_line(0, "x", false), "── x\n");
    assert!(is_noise_dir("target"));
    assert!(!is_noise_dir("src"));
}

#[test]
fn project_tree_skips_noise() {
    let entries = vec![
        TreeEntry { depth: 1, name: "src".to_string(), is_dir: true },
        TreeEntry { depth: 2, name: "lib.rs".to_string(), is_dir: false },
        TreeEntry { depth: 1, name: "target".to_string(), is_dir: true },
    ];
    assert_eq!(project_tree(&entries), "```\n.\n├── src/\n│   ├── lib.rs\n```\n");
}

#[test]
fn dependency_ledger_sorted_by_name() {
    let deps = vec![
        ("serde".to_string(), DepSpec::Table(Some("1.0".to_string()))),
        ("anyhow".to_string(), DepSpec::Text("1".to_string())),
        ("local".to_string(), DepSpec::Table(None)),
        ("odd".to_string(), DepSpec::Other),
    ];
    assert_eq!(
        dependency_table("demo", "0.1.0", &deps),
        "### Project: demo v0.1.0\n\n| Dependency | Version |\n| --- | --- |\n\
         | anyhow | 1 |\n| local | inline/path |\n| odd | unknown |\n| serde | 1.0 |\n"
    );
}

#[test]
fn public_items_get_signatures() {
    let mut f = item(ItemKind::Fn, true, Some("public_fn"));
    f.signature = "fn public_fn (a : i32) -> bool".to_string();
    assert_eq!(public_signature(&f).unwrap(), "fn public_fn (a : i32) -> bool");
    assert!(public_signature(&item(ItemKind::Struct, false, Some("PrivateStruct"))).is_none());
    let mut s = item(ItemKind::Struct, true, Some("Bin"));
    s.generic_params = 1;
    s.generics = "< T >".to_string();
    assert_eq!(public_signature(&s).unwrap(), "struct Bin< T >");
    assert_eq!(public_signature(&item(ItemKind::Enum, true, Some("E"))).unwrap(), "enum E");
    assert_eq!(public_signature(&item(ItemKind::Trait, true, Some("T"))).unwrap(), "trait T");
    assert_eq!(public_signature(&item(ItemKind::Mod, true, Some("a"))).unwrap(), "pub mod a");
    let mut m = item(ItemKind::Macro, false, Some("my_macro"));
    assert!(public_signature(&m).is_none());
    m.attr_paths.push("macro_export".to_string());
    assert_eq!(public_signature(&m).unwrap(), "macro_rules! my_macro");
    assert!(public_signature(&item(ItemKind::Other, true, Some("x"))).is_none());
}

#[test]
fn module_skeleton_lists_docs_and_items() {
    let attrs = vec![
        AttrSummary { path: "doc".to_string(), value: Some("\" Module level doc\"".to_string()) },
        AttrSummary { path: "allow".to_string(), value: None },
    ];
    let mut f = item(ItemKind::Fn, true, Some("f"));
    f.signature = "fn f ()".to_string();
    let items = vec![f, item(ItemKind::Struct, false, Some("Hidden"))];
    assert_eq!(
        module_skeleton("\"src/lib.rs\"", &attrs, &items),
        "#### Module: \"src/lib.rs\"\n>  Module level doc\n```rust\nfn f ();\n```\n"
    );
    assert_eq!(trim_quotes("\"\"x\"\""), "x");
    assert_eq!(trim_quotes("\"\""), "");
}

#[test]
fn submodules_and_their_files() {
    let mut inline = item(ItemKind::Mod, true, Some("inner"));
    inline.inline_body = true;
    let items = vec![item(ItemKind::Mod, true, Some("a")), item(ItemKind::Mod, false, Some("b")), inline];
    assert_eq!(public_submodules(&items), vec!["a".to_string()]);
    assert_eq!(mod_candidates("src", "lib", false, "a"), vec!["src/a.rs".to_string(), "src/a/mod.rs".to_string()]);
    assert_eq!(
        mod_candidates("src", "foo", false, "bar"),
        vec!["src/foo/bar.rs".to_string(), "src/foo/bar/mod.rs".to_string()]
    );
}

#[test]
fn snapshot_document_and_token_seal() {
    let doc = context_document("T", "D", &vec!["S1".to_string(), "S2".to_string()]);
    assert_eq!(
        doc,
        "# Vortex🌀 LLM Context Snapshot\n\n## Project Tree Map\nT\n## Dependency Ledger\nD\n## Public API Skeleton\nS1\nS2\n"
    );
    assert_eq!(
        with_token_footer("hello world", 42),
        "hello world\n\n---\n**Total Tokens (Gemini Proxy/o200k):** 42\n"
    );
}


#[test]
fn test_api_extractor_public_items() {
    let code = r#"
            //! Module level doc
            pub struct PublicStruct { pub field: i32 }
            struct PrivateStruct;
            pub fn public_fn(a: i32) -> bool { true }
            fn private_fn() {}
            pub enum PublicEnum { Variant }
        "#;

    let (_attrs, items) = parse_source(code).expect("valid Rust");
    let mut extracted = Vec::new();
    for item in &items {
        if let Some(sig) = public_signature(item) {
            extracted.push(sig);
        }
    }

    assert_eq!(extracted.len(), 3);
    assert!(extracted.iter().any(|s| s.contains("struct PublicStruct")));
    assert!(extracted.iter().any(|s| s.contains("fn public_fn")));
    assert!(extracted.iter().any(|s| s.contains("enum PublicEnum")));
    assert!(!extracted.iter().any(|s| s.contains("PrivateStruct")));
}

#[test]
fn test_macro_export_extraction() {
    let code = r#"
            #[macro_export]
            macro_rules! my_macro { () => {} }
            
            macro_rules! private_macro { () => {} }
        "#;

    let (_attrs, items) = parse_source(code).expect("valid Rust");
    let mut extracted = Vec::new();
    for item in &items {
        if let Some(sig) = public_signature(item) {
            extracted.push(sig);
        }
    }

    assert_eq!(extracted.len(), 1);
    assert!(extracted[0].contains("macro_rules! my_macro"));
    assert!(!extracted[0].contains("private_macro"));
}

#[test]
fn file_api_renders_skeleton_and_submodules() {
    let code = "//! Top doc\npub mod a;\nmod b;\npub mod inline_one { }\npub fn f() {}\n";
    let (skeleton, subs) = file_api("\"src/lib.rs\"", code).unwrap();
    assert_eq!(subs, vec!["a".to_string()]);
    assert!(skeleton.starts_with("#### Module: \"src/lib.rs\"\n"));
    assert!(skeleton.contains("pub mod a;"));
    assert!(skeleton.contains("fn f ()"));
    assert!(file_api("x", "fn (").is_none());
}
