//! Vortex: the context snapshot of a Rust project for a language model — its file tree, its
//! dependency ledger, the public API of its modules (read from their source text), and the size
//! of the whole in tokens.

use vstd::prelude::*;
use crate::metadata::{key_views, strictly_ascending, Metadata};
use crate::num::u64_to_string;
use crate::extraction::{joined_path, path_join};
use crate::text::{append, clone_opt, concat, decimal, opt_view, owned, str_eq};
use quote::ToTokens;
use syn::{Item, Visibility};

verus! {

// ---- the project tree ----

/// One entry of the project walk: its depth below the root, its file name, and whether it is a
/// directory.
#[derive(Debug)]
pub struct TreeEntry {
    pub depth: usize,
    pub name: String,
    pub is_dir: bool,
}

/// The directories left out of the tree as noise.
pub open spec fn noise_dir(name: Seq<char>) -> bool {
    name == "venv"@ || name == ".venv"@ || name == "node_modules"@ || name == "target"@
}

/// `n` levels of indentation.
pub open spec fn tree_indent(n: nat) -> Seq<char>
    decreases n,
{
    if n == 0 {
        Seq::empty()
    } else {
        tree_indent((n - 1) as nat) + "│   "@
    }
}

/// The tree line of an entry: indented one level less than its depth, a branch mark below the
/// root, and a slash after a directory's name.
pub open spec fn tree_line_text(depth: nat, name: Seq<char>, is_dir: bool) -> Seq<char> {
    tree_indent(if depth >= 1 { (depth - 1) as nat } else { 0 })
        + (if depth > 0 { "├"@ } else { Seq::empty() })
        + "── "@ + name + (if is_dir { "/\n"@ } else { "\n"@ })
}

/// The lines of the first `n` entries, noise left out.
pub open spec fn tree_body(es: Seq<TreeEntry>, n: int) -> Seq<char>
    decreases n,
{
    if n <= 0 {
        Seq::empty()
    } else {
        let e = es[n - 1];
        tree_body(es, n - 1) + if noise_dir(e.name@) {
            Seq::empty()
        } else {
            tree_line_text(e.depth as nat, e.name@, e.is_dir)
        }
    }
}

/// The project tree of a walk, as a fenced block under the root `.`.
pub open spec fn tree_text(es: Seq<TreeEntry>) -> Seq<char> {
    "```\n.\n"@ + tree_body(es, es.len() as int) + "```\n"@
}

/// Whether a file name is one of the noise directories.
pub fn is_noise_dir(name: &str) -> (b: bool)
    ensures
        b == noise_dir(name@),
{
    proof {
        reveal_strlit("venv");
        reveal_strlit(".venv");
        reveal_strlit("node_modules");
        reveal_strlit("target");
    }
    str_eq(name, "venv") || str_eq(name, ".venv") || str_eq(name, "node_modules") || str_eq(name, "target")
}

/// The tree line of one entry.
pub fn tree_line(depth: usize, name: &str, is_dir: bool) -> (s: String)
    ensures
        s@ == tree_line_text(depth as nat, name@, is_dir),
{
    let levels: usize = if depth >= 1 { depth - 1 } else { 0 };
    let mut s = String::new();
    proof {
        reveal_strlit("");
        assert(s@ =~= tree_indent(0));
    }
    let mut i: usize = 0;
    while i < levels
        invariant
            0 <= i <= levels,
            s@ == tree_indent(i as nat),
        decreases levels - i,
    {
        append(&mut s, "│   ");
        i += 1;
    }
    if depth > 0 {
        append(&mut s, "├");
    } else {
        proof {
            assert(s@ + Seq::<char>::empty() =~= s@);
        }
    }
    append(&mut s, "── ");
    append(&mut s, name);
    if is_dir {
        append(&mut s, "/\n");
    } else {
        append(&mut s, "\n");
    }
    proof {
        let pre: Seq<char> = if depth > 0 { "├"@ } else { Seq::empty() };
        let post: Seq<char> = if is_dir { "/\n"@ } else { "\n"@ };
        assert(s@ =~= tree_indent(levels as nat) + pre + "── "@ + name@ + post);
    }
    s
}

/// The project tree: a fenced block under the root `.`, a line per walked entry, the noise
/// directories left out.
pub fn project_tree(entries: &Vec<TreeEntry>) -> (s: String)
    ensures
        s@ == tree_text(entries@),
{
    let mut body = String::new();
    proof {
        reveal_strlit("");
        assert(body@ =~= tree_body(entries@, 0));
    }
    let mut i: usize = 0;
    while i < entries.len()
        invariant
            0 <= i <= entries@.len(),
            body@ == tree_body(entries@, i as int),
        decreases entries@.len() - i,
    {
        let e = &entries[i];
        if !is_noise_dir(e.name.as_str()) {
            let line = tree_line(e.depth, e.name.as_str(), e.is_dir);
            append(&mut body, line.as_str());
        } else {
            proof {
                assert(body@ + Seq::<char>::empty() =~= body@);
            }
        }
        i += 1;
    }
    let head = concat("```\n.\n", body.as_str());
    concat(head.as_str(), "```\n")
}

// ---- the dependency ledger ----

/// How a dependency is declared: by a version string, by a table, or otherwise.
#[derive(Debug)]
pub enum DepSpec {
    Text(String),
    /// A table, with its `version` entry where that is a string.
    Table(Option<String>),
    Other,
}

/// The version the ledger shows for a dependency.
pub open spec fn dep_version(d: DepSpec) -> Seq<char> {
    match d {
        DepSpec::Text(v) => v@,
        DepSpec::Table(Some(v)) => v@,
        DepSpec::Table(None) => "inline/path"@,
        DepSpec::Other => "unknown"@,
    }
}

/// Dependency name to the version shown, a later declaration of a name replacing an earlier one.
pub open spec fn dep_map(deps: Seq<(String, DepSpec)>) -> Map<Seq<char>, Seq<char>>
    decreases deps.len(),
{
    if deps.len() == 0 {
        Map::empty()
    } else {
        dep_map(deps.drop_last()).insert(deps.last().0@, dep_version(deps.last().1))
    }
}

/// The table rows for the names `ks`, in that order.
pub open spec fn dep_rows(ks: Seq<Seq<char>>, m: Map<Seq<char>, Seq<char>>) -> Seq<char>
    decreases ks.len(),
{
    if ks.len() == 0 {
        Seq::empty()
    } else {
        dep_rows(ks.drop_last(), m) + "| "@ + ks.last() + " | "@ + m[ks.last()] + " |\n"@
    }
}

/// The heading of the ledger of a package.
pub open spec fn dep_header(name: Seq<char>, version: Seq<char>) -> Seq<char> {
    "### Project: "@ + name + " v"@ + version + "\n\n| Dependency | Version |\n| --- | --- |\n"@
}

fn version_text(d: &DepSpec) -> (s: String)
    ensures
        s@ == dep_version(*d),
{
    match d {
        DepSpec::Text(v) => owned(v.as_str()),
        DepSpec::Table(Some(v)) => owned(v.as_str()),
        DepSpec::Table(None) => {
            proof { reveal_strlit("inline/path"); }
            owned("inline/path")
        }
        DepSpec::Other => {
            proof { reveal_strlit("unknown"); }
            owned("unknown")
        }
    }
}

/// The dependency ledger of package `name` at `version`: a table of the dependencies in
/// ascending order of name, each with the version it is declared with, `inline/path` for a table
/// without one, `unknown` for anything else.
pub fn dependency_table(name: &str, version: &str, deps: &Vec<(String, DepSpec)>) -> (s: String)
    ensures
        exists|ks: Seq<Seq<char>>| {
            &&& strictly_ascending(ks)
            &&& (forall|k: Seq<char>| ks.contains(k) <==> dep_map(deps@).contains_key(k))
            &&& s@ == dep_header(name@, version@) + #[trigger] dep_rows(ks, dep_map(deps@))
        },
{
    let mut m = Metadata::new();
    let mut i: usize = 0;
    while i < deps.len()
        invariant
            0 <= i <= deps@.len(),
            m@ == dep_map(deps@.take(i as int)),
        decreases deps@.len() - i,
    {
        let v = version_text(&deps[i].1);
        m.insert(owned(deps[i].0.as_str()), v);
        proof {
            assert(deps@.take(i + 1).drop_last() =~= deps@.take(i as int));
        }
        i += 1;
    }
    proof {
        assert(deps@.take(deps@.len() as int) =~= deps@);
    }
    let keys = m.sorted_keys();
    let ghost ks = key_views(keys@);
    let ghost dm = dep_map(deps@);
    let mut s = String::new();
    append(&mut s, "### Project: ");
    append(&mut s, name);
    append(&mut s, " v");
    append(&mut s, version);
    append(&mut s, "\n\n| Dependency | Version |\n| --- | --- |\n");
    proof {
        reveal_strlit("");
        assert(s@ =~= dep_header(name@, version@));
        assert(ks.take(0) =~= Seq::<Seq<char>>::empty());
        assert(s@ =~= dep_header(name@, version@) + dep_rows(ks.take(0), dm));
    }
    let mut j: usize = 0;
    while j < keys.len()
        invariant
            0 <= j <= keys@.len(),
            ks == key_views(keys@),
            m@ == dm,
            forall|k: Seq<char>| ks.contains(k) <==> dm.contains_key(k),
            s@ == dep_header(name@, version@) + dep_rows(ks.take(j as int), dm),
        decreases keys@.len() - j,
    {
        let k = &keys[j];
        assert(ks[j as int] == k@);
        assert(ks.contains(k@));
        let v = match m.get(k.as_str()) {
            Some(v) => owned(v.as_str()),
            None => {
                assert(false);
                String::new()
            }
        };
        append(&mut s, "| ");
        append(&mut s, k.as_str());
        append(&mut s, " | ");
        append(&mut s, v.as_str());
        append(&mut s, " |\n");
        proof {
            let t = ks.take(j + 1);
            assert(t.drop_last() =~= ks.take(j as int));
            assert(t.last() == k@);
        }
        j += 1;
    }
    proof {
        assert(ks.take(keys@.len() as int) =~= ks);
    }
    s
}

// ---- the public API of a module ----

/// The kinds of top-level items the API skeleton distinguishes.
#[derive(Debug, Clone, Copy, PartialEq, Eq, Structural)]
pub enum ItemKind {
    Fn,
    Struct,
    Enum,
    Trait,
    Macro,
    Mod,
    Other,
}

/// What the skeleton reads of one top-level item, as the parser renders it: whether it is `pub`,
/// its name (a macro may have none), the number of its generic parameters and their rendering,
/// the rendering of a function's signature, the paths of its attributes, and whether a module's
/// body is written inline.
#[derive(Debug)]
pub struct ItemSummary {
    pub kind: ItemKind,
    pub public: bool,
    pub name: Option<String>,
    pub generic_params: usize,
    pub generics: String,
    pub signature: String,
    pub attr_paths: Vec<String>,
    pub inline_body: bool,
}

/// A module-level attribute as the parser renders it: its path, and the value of a `name = value`
/// attribute.
#[derive(Debug)]
pub struct AttrSummary {
    pub path: String,
    pub value: Option<String>,
}

/// The views of texts.
pub open spec fn text_views(v: Seq<String>) -> Seq<Seq<char>> {
    v.map_values(|s: String| s@)
}

/// The name followed by the generic parameters, where there are any.
pub open spec fn with_generics(head: Seq<char>, name: Seq<char>, it: ItemSummary) -> Seq<char> {
    head + name + if it.generic_params > 0 { it.generics@ } else { Seq::empty() }
}

/// The line the skeleton shows for an item, if any: the signature of a public function; the
/// name and generics of a public struct or enum; the name of a public trait; an exported macro's
/// name; a public module's declaration.
pub open spec fn api_line(it: ItemSummary) -> Option<Seq<char>> {
    match (it.kind, it.name) {
        (ItemKind::Fn, _) => if it.public { Some(it.signature@) } else { None },
        (ItemKind::Struct, Some(n)) => if it.public { Some(with_generics("struct "@, n@, it)) } else { None },
        (ItemKind::Enum, Some(n)) => if it.public { Some(with_generics("enum "@, n@, it)) } else { None },
        (ItemKind::Trait, Some(n)) => if it.public { Some("trait "@ + n@) } else { None },
        (ItemKind::Macro, Some(n)) => if text_views(it.attr_paths@).contains("macro_export"@) {
            Some("macro_rules! "@ + n@)
        } else {
            None
        },
        (ItemKind::Mod, Some(n)) => if it.public { Some("pub mod "@ + n@) } else { None },
        _ => None,
    }
}

fn has_path(paths: &Vec<String>, p: &str) -> (b: bool)
    ensures
        b == text_views(paths@).contains(p@),
{
    let mut i: usize = 0;
    while i < paths.len()
        invariant
            0 <= i <= paths@.len(),
            forall|k: int| 0 <= k < i ==> paths@[k]@ != p@,
        decreases paths@.len() - i,
    {
        if str_eq(paths[i].as_str(), p) {
            assert(text_views(paths@)[i as int] == p@);
            return true;
        }
        i += 1;
    }
    proof {
        if text_views(paths@).contains(p@) {
            let k = choose|k: int| 0 <= k < text_views(paths@).len() && text_views(paths@)[k] == p@;
            assert(paths@[k]@ == p@);
        }
    }
    false
}

fn named_with_generics(head: &str, name: &str, it: &ItemSummary) -> (s: String)
    ensures
        s@ == with_generics(head@, name@, *it),
{
    let mut s = concat(head, name);
    if it.generic_params > 0 {
        append(&mut s, it.generics.as_str());
    } else {
        proof {
            assert(s@ + Seq::<char>::empty() =~= s@);
        }
    }
    s
}

/// The line the API skeleton shows for an item, if any.
pub fn public_signature(it: &ItemSummary) -> (r: Option<String>)
    ensures
        match r {
            Some(s) => api_line(*it) == Some(s@),
            None => api_line(*it) is None,
        },
{
    match (&it.kind, &it.name) {
        (ItemKind::Fn, _) => if it.public { Some(owned(it.signature.as_str())) } else { None },
        (ItemKind::Struct, Some(n)) => if it.public { Some(named_with_generics("struct ", n.as_str(), it)) } else { None },
        (ItemKind::Enum, Some(n)) => if it.public { Some(named_with_generics("enum ", n.as_str(), it)) } else { None },
        (ItemKind::Trait, Some(n)) => if it.public { Some(concat("trait ", n.as_str())) } else { None },
        (ItemKind::Macro, Some(n)) => {
            if has_path(&it.attr_paths, "macro_export") {
                Some(concat("macro_rules! ", n.as_str()))
            } else {
                None
            }
        }
        (ItemKind::Mod, Some(n)) => if it.public { Some(concat("pub mod ", n.as_str())) } else { None },
        _ => None,
    }
}

/// A text with every leading and trailing `"` removed (`trim_matches('"')`).
pub open spec fn strip_quotes(s: Seq<char>) -> Seq<char>
    decreases s.len(),
{
    if s.len() > 0 && s[0] == '"' {
        strip_quotes(s.drop_first())
    } else if s.len() > 0 && s.last() == '"' {
        strip_quotes(s.drop_last())
    } else {
        s
    }
}

/// The quote-free core of a text.
pub fn trim_quotes(s: &str) -> (r: String)
    ensures
        r@ == strip_quotes(s@),
{
    let v = crate::text::chars_of(s);
    let mut a: usize = 0;
    let mut b: usize = v.len();
    assert(v@.subrange(0, v@.len() as int) =~= v@);
    while a < b && v[a] == '"'
        invariant
            0 <= a <= b <= v@.len(),
            b == v@.len(),
            strip_quotes(v@.subrange(a as int, b as int)) == strip_quotes(v@),
        decreases b - a,
    {
        assert(v@.subrange(a as int, b as int).drop_first() =~= v@.subrange(a + 1, b as int));
        a += 1;
    }
    while a < b && v[b - 1] == '"'
        invariant
            0 <= a <= b <= v@.len(),
            strip_quotes(v@.subrange(a as int, b as int)) == strip_quotes(v@),
            a < b ==> v@[a as int] != '"',
        decreases b - a,
    {
        assert(v@.subrange(a as int, b as int).drop_last() =~= v@.subrange(a as int, b - 1));
        b -= 1;
    }
    proof {
        let t = v@.subrange(a as int, b as int);
        assert(t.len() == 0 || (t[0] != '"' && t.last() != '"'));
    }
    let r = crate::text::string_from_chars(v.as_slice().split_at(b).0.split_at(a).1);
    assert(r@ =~= v@.subrange(a as int, b as int));
    r
}

/// The documentation lines of the first `n` attributes: each `doc` attribute with a value, its
/// quotes removed, quoted as `> `.
pub open spec fn doc_lines(attrs: Seq<AttrSummary>, n: int) -> Seq<char>
    decreases n,
{
    if n <= 0 {
        Seq::empty()
    } else {
        let a = attrs[n - 1];
        doc_lines(attrs, n - 1) + match a.value {
            Some(v) => if a.path@ == "doc"@ { "> "@ + strip_quotes(v@) + "\n"@ } else { Seq::empty() },
            None => Seq::empty(),
        }
    }
}

/// The signature lines of the first `n` items: each shown item's line and a semicolon.
pub open spec fn api_lines(items: Seq<ItemSummary>, n: int) -> Seq<char>
    decreases n,
{
    if n <= 0 {
        Seq::empty()
    } else {
        api_lines(items, n - 1) + match api_line(items[n - 1]) {
            Some(l) => l + ";\n"@,
            None => Seq::empty(),
        }
    }
}

/// The skeleton of a module, headed by its path as rendered for display.
pub open spec fn skeleton_text(path_shown: Seq<char>, attrs: Seq<AttrSummary>, items: Seq<ItemSummary>) -> Seq<char> {
    "#### Module: "@ + path_shown + "\n"@ + doc_lines(attrs, attrs.len() as int)
        + "```rust\n"@ + api_lines(items, items.len() as int) + "```\n"@
}

/// The API skeleton of a module: its heading, its documentation, and the lines of its shown
/// items in a Rust block.
pub fn module_skeleton(path_shown: &str, attrs: &Vec<AttrSummary>, items: &Vec<ItemSummary>) -> (s: String)
    ensures
        s@ == skeleton_text(path_shown@, attrs@, items@),
{
    let mut s = concat("#### Module: ", path_shown);
    append(&mut s, "\n");
    let ghost head = s@;
    proof {
        assert(s@ =~= head + doc_lines(attrs@, 0));
    }
    let mut i: usize = 0;
    while i < attrs.len()
        invariant
            0 <= i <= attrs@.len(),
            s@ == head + doc_lines(attrs@, i as int),
        decreases attrs@.len() - i,
    {
        let a = &attrs[i];
        match &a.value {
            Some(v) => {
                if str_eq(a.path.as_str(), "doc") {
                    append(&mut s, "> ");
                    let t = trim_quotes(v.as_str());
                    append(&mut s, t.as_str());
                    append(&mut s, "\n");
                } else {
                    assert(s@ + Seq::<char>::empty() =~= s@);
                }
            }
            None => {
                assert(s@ + Seq::<char>::empty() =~= s@);
            }
        }
        proof { reveal_strlit("doc"); }
        i += 1;
    }
    append(&mut s, "```rust\n");
    let ghost mid = s@;
    proof {
        assert(s@ =~= mid + api_lines(items@, 0));
    }
    let mut j: usize = 0;
    while j < items.len()
        invariant
            0 <= j <= items@.len(),
            s@ == mid + api_lines(items@, j as int),
        decreases items@.len() - j,
    {
        match public_signature(&items[j]) {
            Some(l) => {
                append(&mut s, l.as_str());
                append(&mut s, ";\n");
            }
            None => {
                assert(s@ + Seq::<char>::empty() =~= s@);
            }
        }
        j += 1;
    }
    append(&mut s, "```\n");
    s
}

/// The modules an item list declares in other files: the public modules without an inline body.
pub open spec fn external_module(it: ItemSummary) -> bool {
    it.kind == ItemKind::Mod && it.public && !it.inline_body && it.name is Some
}

/// The names of the first `n` items that declare public modules in other files, in order.
pub open spec fn external_modules(items: Seq<ItemSummary>, n: int) -> Seq<Seq<char>>
    decreases n,
{
    if n <= 0 {
        Seq::empty()
    } else {
        let it = items[n - 1];
        external_modules(items, n - 1) + if external_module(it) {
            match it.name {
                Some(x) => seq![x@],
                None => Seq::empty(),
            }
        } else {
            Seq::empty()
        }
    }
}

/// The public modules an item list declares in other files, in order.
pub fn public_submodules(items: &Vec<ItemSummary>) -> (names: Vec<String>)
    ensures
        text_views(names@) == external_modules(items@, items@.len() as int),
{
    let mut names: Vec<String> = Vec::new();
    let mut i: usize = 0;
    while i < items.len()
        invariant
            0 <= i <= items@.len(),
            text_views(names@) == external_modules(items@, i as int),
        decreases items@.len() - i,
    {
        let it = &items[i];
        let ghost before = text_views(names@);
        if it.kind == ItemKind::Mod && it.public && !it.inline_body {
            match &it.name {
                Some(n) => {
                    names.push(owned(n.as_str()));
                    assert(text_views(names@) =~= before + seq![n@]);
                }
                None => {
                    assert(text_views(names@) =~= before + Seq::<Seq<char>>::empty());
                }
            }
        } else {
            assert(text_views(names@) =~= before + Seq::<Seq<char>>::empty());
        }
        i += 1;
    }
    names
}

// ---- where a module's file is ----

/// The files that may hold module `m` declared in a file of stem `stem` inside `dir`: beside the
/// declaring file when that is a crate root (`main`, `lib`) or a `mod.rs`, in the directory named
/// after it otherwise; first `m.rs`, then `m/mod.rs`.
pub open spec fn module_candidates(dir: Seq<char>, stem: Seq<char>, parent_is_mod_file: bool, m: Seq<char>) -> Seq<Seq<char>> {
    let base = if stem == "main"@ || stem == "lib"@ || parent_is_mod_file { dir } else { joined_path(dir, stem) };
    seq![joined_path(base, m + ".rs"@), joined_path(joined_path(base, m), "mod.rs"@)]
}

/// The candidate files of a module declared in the file of stem `stem` inside `dir`
/// (`parent_is_mod_file`: that file is a `mod.rs`), in the order they are tried.
pub fn mod_candidates(dir: &str, stem: &str, parent_is_mod_file: bool, module: &str) -> (c: Vec<String>)
    ensures
        text_views(c@) == module_candidates(dir@, stem@, parent_is_mod_file, module@),
{
    proof {
        reveal_strlit("main");
        reveal_strlit("lib");
    }
    let base = if str_eq(stem, "main") || str_eq(stem, "lib") || parent_is_mod_file {
        owned(dir)
    } else {
        path_join(dir, stem)
    };
    let file = concat(module, ".rs");
    let first = path_join(base.as_str(), file.as_str());
    let sub = path_join(base.as_str(), module);
    let second = path_join(sub.as_str(), "mod.rs");
    let mut c: Vec<String> = Vec::new();
    c.push(first);
    c.push(second);
    assert(text_views(c@) =~= module_candidates(dir@, stem@, parent_is_mod_file, module@));
    c
}

// ---- the snapshot ----

/// The skeletons, each followed by a line break.
pub open spec fn joined_skeletons(sk: Seq<Seq<char>>) -> Seq<char>
    decreases sk.len(),
{
    if sk.len() == 0 {
        Seq::empty()
    } else {
        joined_skeletons(sk.drop_last()) + sk.last() + "\n"@
    }
}

/// The snapshot document: the tree, the dependency ledger, and the API skeletons.
pub open spec fn context_text(tree: Seq<char>, deps: Seq<char>, sk: Seq<Seq<char>>) -> Seq<char> {
    "# Vortex🌀 LLM Context Snapshot\n\n## Project Tree Map\n"@ + tree + "\n## Dependency Ledger\n"@ + deps
        + "\n## Public API Skeleton\n"@ + joined_skeletons(sk)
}

/// The snapshot document of a project.
pub fn context_document(tree: &str, deps: &str, skeletons: &Vec<String>) -> (s: String)
    ensures
        s@ == context_text(tree@, deps@, text_views(skeletons@)),
{
    let mut s = concat("# Vortex🌀 LLM Context Snapshot\n\n## Project Tree Map\n", tree);
    append(&mut s, "\n## Dependency Ledger\n");
    append(&mut s, deps);
    append(&mut s, "\n## Public API Skeleton\n");
    let ghost head = s@;
    proof {
        assert(text_views(skeletons@).take(0) =~= Seq::<Seq<char>>::empty());
        assert(s@ =~= head + joined_skeletons(text_views(skeletons@).take(0)));
    }
    let mut i: usize = 0;
    while i < skeletons.len()
        invariant
            0 <= i <= skeletons@.len(),
            s@ == head + joined_skeletons(text_views(skeletons@).take(i as int)),
        decreases skeletons@.len() - i,
    {
        append(&mut s, skeletons[i].as_str());
        append(&mut s, "\n");
        proof {
            let t = text_views(skeletons@).take(i + 1);
            assert(t.drop_last() =~= text_views(skeletons@).take(i as int));
            assert(t.last() == skeletons@[i as int]@);
        }
        i += 1;
    }
    proof {
        assert(text_views(skeletons@).take(skeletons@.len() as int) =~= text_views(skeletons@));
    }
    s
}

// ---- reading a module's source ----

/// What the skeleton reads of an item, as plain values: kind, `pub`, name, number of generic
/// parameters, their rendering, a function's signature, attribute paths, inline module body.
pub type ItemView = (ItemKind, bool, Option<Seq<char>>, nat, Seq<char>, Seq<char>, Seq<Seq<char>>, bool);

/// An attribute as plain values: its path and the value of a `name = value` attribute.
pub open spec fn attr_view(a: AttrSummary) -> (Seq<char>, Option<Seq<char>>) {
    (a.path@, opt_view(a.value))
}

/// An item summary as plain values.
pub open spec fn item_view(it: ItemSummary) -> ItemView {
    (it.kind, it.public, opt_view(it.name), it.generic_params as nat, it.generics@, it.signature@,
        text_views(it.attr_paths@), it.inline_body)
}

/// What `syn::parse_file` makes of a source text, rendered with `quote`: the module-level
/// attributes and the top-level items; `None` where the text is not a Rust file.
pub uninterp spec fn parsed_file(source: Seq<char>) -> Option<(Seq<(Seq<char>, Option<Seq<char>>)>, Seq<ItemView>)>;

/// The plain values of parsed summaries.
pub open spec fn summaries_view(r: Option<(Vec<AttrSummary>, Vec<ItemSummary>)>) -> Option<(Seq<(Seq<char>, Option<Seq<char>>)>, Seq<ItemView>)> {
    match r {
        Some((a, it)) => Some((a@.map_values(|x: AttrSummary| attr_view(x)), it@.map_values(|x: ItemSummary| item_view(x)))),
        None => None,
    }
}

/// `syn::parse_file`: the module-level attributes, each path and `name = value` value rendered
/// with `quote`.
#[verifier::external_body]
fn file_attrs(source: &str) -> (r: Option<Vec<AttrSummary>>)
    ensures
        match parsed_file(source@) {
            Some(p) => r matches Some(v) && v@.map_values(|x: AttrSummary| attr_view(x)) == p.0,
            None => r is None,
        },
{
    let t = syn::parse_file(source).ok()?;
    Some(t.attrs.iter().map(|a| AttrSummary {
        path: a.path().to_token_stream().to_string(),
        value: a.meta.require_name_value().ok().map(|nv| nv.value.to_token_stream().to_string()),
    }).collect())
}

/// `syn::parse_file`: the kind of each top-level item.
#[verifier::external_body]
fn item_kinds(source: &str) -> (r: Option<Vec<ItemKind>>)
    ensures
        match parsed_file(source@) {
            Some(p) => r matches Some(v) && v@.len() == p.1.len()
                && forall|k: int| 0 <= k < v@.len() ==> v@[k] == #[trigger] p.1[k].0,
            None => r is None,
        },
{
    let t = syn::parse_file(source).ok()?;
    Some(t.items.iter().map(|i| match i {
        Item::Fn(_) => ItemKind::Fn,
        Item::Struct(_) => ItemKind::Struct,
        Item::Enum(_) => ItemKind::Enum,
        Item::Trait(_) => ItemKind::Trait,
        Item::Macro(_) => ItemKind::Macro,
        Item::Mod(_) => ItemKind::Mod,
        _ => ItemKind::Other,
    }).collect())
}

/// `syn::parse_file`: whether each function, struct, enum, trait or module is `pub`.
#[verifier::external_body]
fn item_publics(source: &str) -> (r: Option<Vec<bool>>)
    ensures
        match parsed_file(source@) {
            Some(p) => r matches Some(v) && v@.len() == p.1.len()
                && forall|k: int| 0 <= k < v@.len() ==> v@[k] == #[trigger] p.1[k].1,
            None => r is None,
        },
{
    let t = syn::parse_file(source).ok()?;
    Some(t.items.iter().map(|i| match i {
        Item::Fn(x) => matches!(x.vis, Visibility::Public(_)),
        Item::Struct(x) => matches!(x.vis, Visibility::Public(_)),
        Item::Enum(x) => matches!(x.vis, Visibility::Public(_)),
        Item::Trait(x) => matches!(x.vis, Visibility::Public(_)),
        Item::Mod(x) => matches!(x.vis, Visibility::Public(_)),
        _ => false,
    }).collect())
}

/// `syn::parse_file`: the name of each function, struct, enum, trait, macro or module.
#[verifier::external_body]
fn item_names(source: &str) -> (r: Option<Vec<Option<String>>>)
    ensures
        match parsed_file(source@) {
            Some(p) => r matches Some(v) && v@.len() == p.1.len()
                && forall|k: int| 0 <= k < v@.len() ==> opt_view(v@[k]) == #[trigger] p.1[k].2,
            None => r is None,
        },
{
    let t = syn::parse_file(source).ok()?;
    Some(t.items.iter().map(|i| match i {
        Item::Fn(x) => Some(x.sig.ident.to_string()),
        Item::Struct(x) => Some(x.ident.to_string()),
        Item::Enum(x) => Some(x.ident.to_string()),
        Item::Trait(x) => Some(x.ident.to_string()),
        Item::Macro(x) => x.ident.as_ref().map(|n| n.to_string()),
        Item::Mod(x) => Some(x.ident.to_string()),
        _ => None,
    }).collect())
}

/// `syn::parse_file`: each struct's and enum's number of generic parameters and their rendering,
/// and each function's signature, rendered with `quote`.
#[verifier::external_body]
fn item_shapes(source: &str) -> (r: Option<Vec<(usize, String, String)>>)
    ensures
        match parsed_file(source@) {
            Some(p) => r matches Some(v) && v@.len() == p.1.len()
                && forall|k: int| 0 <= k < v@.len() ==> v@[k].0 as nat == #[trigger] p.1[k].3
                    && v@[k].1@ == p.1[k].4 && v@[k].2@ == p.1[k].5,
            None => r is None,
        },
{
    let t = syn::parse_file(source).ok()?;
    Some(t.items.iter().map(|i| match i {
        Item::Fn(x) => (0, String::new(), x.sig.to_token_stream().to_string()),
        Item::Struct(x) => (x.generics.params.len(), x.generics.to_token_stream().to_string(), String::new()),
        Item::Enum(x) => (x.generics.params.len(), x.generics.to_token_stream().to_string(), String::new()),
        _ => (0, String::new(), String::new()),
    }).collect())
}

/// `syn::parse_file`: each macro's attribute paths, rendered with `quote`, and whether each
/// module's body is written inline.
#[verifier::external_body]
fn item_extras(source: &str) -> (r: Option<Vec<(Vec<String>, bool)>>)
    ensures
        match parsed_file(source@) {
            Some(p) => r matches Some(v) && v@.len() == p.1.len()
                && forall|k: int| 0 <= k < v@.len() ==> text_views(v@[k].0@) == #[trigger] p.1[k].6
                    && v@[k].1 == p.1[k].7,
            None => r is None,
        },
{
    let t = syn::parse_file(source).ok()?;
    Some(t.items.iter().map(|i| match i {
        Item::Macro(x) => (x.attrs.iter().map(|a| a.path().to_token_stream().to_string()).collect(), false),
        Item::Mod(x) => (Vec::new(), x.content.is_some()),
        _ => (Vec::new(), false),
    }).collect())
}

fn clone_texts(v: &Vec<String>) -> (r: Vec<String>)
    ensures
        text_views(r@) == text_views(v@),
{
    let mut r: Vec<String> = Vec::new();
    let mut i: usize = 0;
    while i < v.len()
        invariant
            0 <= i <= v@.len(),
            text_views(r@) == text_views(v@).take(i as int),
        decreases v@.len() - i,
    {
        let ghost prev = r@;
        let t = owned(v[i].as_str());
        r.push(t);
        assert(text_views(r@) =~= text_views(prev).push(t@));
        i += 1;
        assert(text_views(v@).take(i as int) =~= text_views(v@).take(i - 1).push(v@[i - 1]@));
    }
    assert(text_views(v@).take(v@.len() as int) =~= text_views(v@));
    r
}

/// The module-level attributes and top-level items of a Rust source text; `None` where it is not
/// a Rust file.
pub fn parse_source(source: &str) -> (r: Option<(Vec<AttrSummary>, Vec<ItemSummary>)>)
    ensures
        summaries_view(r) == parsed_file(source@),
{
    let attrs = match file_attrs(source) { Some(a) => a, None => { return None; } };
    let kinds = match item_kinds(source) { Some(a) => a, None => { return None; } };
    let publics = match item_publics(source) { Some(a) => a, None => { return None; } };
    let names = match item_names(source) { Some(a) => a, None => { return None; } };
    let shapes = match item_shapes(source) { Some(a) => a, None => { return None; } };
    let extras = match item_extras(source) { Some(a) => a, None => { return None; } };
    let ghost p = parsed_file(source@)->0;
    let n = kinds.len();
    let mut items: Vec<ItemSummary> = Vec::new();
    let mut k: usize = 0;
    while k < n
        invariant
            0 <= k <= n,
            parsed_file(source@) == Some(p),
            n == p.1.len() && kinds@.len() == n && publics@.len() == n && names@.len() == n,
            shapes@.len() == n && extras@.len() == n,
            forall|j: int| 0 <= j < n ==> kinds@[j] == #[trigger] p.1[j].0,
            forall|j: int| 0 <= j < n ==> publics@[j] == #[trigger] p.1[j].1,
            forall|j: int| 0 <= j < n ==> opt_view(names@[j]) == #[trigger] p.1[j].2,
            forall|j: int| 0 <= j < n ==> shapes@[j].0 as nat == #[trigger] p.1[j].3 && shapes@[j].1@ == p.1[j].4
                && shapes@[j].2@ == p.1[j].5,
            forall|j: int| 0 <= j < n ==> text_views(extras@[j].0@) == #[trigger] p.1[j].6 && extras@[j].1 == p.1[j].7,
            items@.len() == k,
            forall|j: int| 0 <= j < k ==> item_view(#[trigger] items@[j]) == p.1[j],
        decreases n - k,
    {
        let it = ItemSummary {
            kind: kinds[k],
            public: publics[k],
            name: clone_opt(&names[k]),
            generic_params: shapes[k].0,
            generics: owned(shapes[k].1.as_str()),
            signature: owned(shapes[k].2.as_str()),
            attr_paths: clone_texts(&extras[k].0),
            inline_body: extras[k].1,
        };
        assert(p.1[k as int].0 == kinds@[k as int]);
        assert(p.1[k as int].1 == publics@[k as int]);
        assert(p.1[k as int].2 == opt_view(names@[k as int]));
        assert(p.1[k as int].3 == shapes@[k as int].0 as nat);
        assert(p.1[k as int].6 == text_views(extras@[k as int].0@));
        assert(item_view(it) == p.1[k as int]);
        items.push(it);
        k += 1;
    }
    let r = Some((attrs, items));
    assert(items@.map_values(|x: ItemSummary| item_view(x)) =~= p.1);
    r
}

/// Whether summaries are what the parse of a source text gave.
pub open spec fn parsed_as(source: Seq<char>, a: Seq<AttrSummary>, it: Seq<ItemSummary>) -> bool {
    parsed_file(source) == Some((a.map_values(|x: AttrSummary| attr_view(x)), it.map_values(|x: ItemSummary| item_view(x))))
}

/// The API skeleton of a module's source text, shown under `path_shown`, and the public modules
/// it declares in other files; `None` where the text is not a Rust file.
pub fn file_api(path_shown: &str, source: &str) -> (r: Option<(String, Vec<String>)>)
    ensures
        r is None <==> parsed_file(source@) is None,
        r matches Some(x) ==> exists|a: Seq<AttrSummary>, it: Seq<ItemSummary>|
            parsed_as(source@, a, it) && x.0@ == #[trigger] skeleton_text(path_shown@, a, it)
                && text_views(x.1@) == external_modules(it, it.len() as int),
{
    match parse_source(source) {
        Some((attrs, items)) => {
            let s = module_skeleton(path_shown, &attrs, &items);
            let subs = public_submodules(&items);
            assert(parsed_as(source@, attrs@, items@));
            assert(s@ == skeleton_text(path_shown@, attrs@, items@));
            Some((s, subs))
        }
        None => None,
    }
}

/// The closing line that reports a snapshot's size in tokens.
pub open spec fn token_footer(n: nat) -> Seq<char> {
    "\n\n---\n**Total Tokens (Gemini Proxy/o200k):** "@ + decimal(n) + "\n"@
}

/// The snapshot of size `n` tokens, with its size line.
pub fn with_token_footer(doc: &str, n: usize) -> (s: String)
    ensures
        s@ == doc@ + token_footer(n as nat),
{
    let mut s = concat(doc, "\n\n---\n**Total Tokens (Gemini Proxy/o200k):** ");
    let d = u64_to_string(n as u64);
    append(&mut s, d.as_str());
    append(&mut s, "\n");
    s
}

} // verus!
