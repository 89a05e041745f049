use depclean::dependencies::{
    is_subpath_import, is_used_dependency, Lockfiles, PackageJSON, PackageJSONBuilder,
    PackageJSONContainer, PkgManager,
};
use depclean::runtime::Runtime;
use depclean::syntax::{
    AstKind, CallExpression, Expression, IdentifierReference, ModuleRecord, Semantic,
};
use depclean::walk::{collect_paths, WalkController, WalkEntry, WalkState};
use depclean::DepClean;

fn s(t: &str) -> String {
    t.to_string()
}

fn strings(v: &[&str]) -> Vec<String> {
    v.iter().map(|t| s(t)).collect()
}

fn sorted(mut v: Vec<String>) -> Vec<String> {
    v.sort();
    v
}

fn container(declared: &[&str]) -> PackageJSONContainer {
    let mut builder = PackageJSONBuilder::new();
    let deps = declared.iter().map(|d| (s(d), s("^1.0.0"))).collect();
    builder.with_package_json(PackageJSON { dependencies: deps }, s("{}"));
    builder.build()
}

fn unused(declared: &[&str], used: &[&str]) -> Vec<String> {
    let mut c = container(declared);
    c.compute_unused_deps(&strings(used));
    sorted(c.unused_dependencies().clone())
}

#[test]
fn subpath_reconciliation() {
    assert_eq!(unused(&["lodash"], &["lodash/fp"]), Vec::<String>::new());
}

#[test]
fn exact_match_reconciliation() {
    assert_eq!(unused(&["react"], &[]), vec![s("react")]);
    assert_eq!(unused(&["react"], &["react"]), Vec::<String>::new());
}

#[test]
fn empty_used_set_reports_every_dependency() {
    assert_eq!(unused(&["a", "b", "@s/c"], &[]), strings(&["@s/c", "a", "b"]));
}

#[test]
fn prefix_without_separator_is_not_a_use() {
    assert_eq!(unused(&["lodash"], &["lodashx", "lodash-es/fp"]), vec![s("lodash")]);
    assert_eq!(unused(&["lodash/fp"], &["lodash"]), vec![s("lodash/fp")]);
}

#[test]
fn scoped_packages() {
    assert_eq!(unused(&["@scope/pkg"], &["@scope/pkg/sub/deep"]), Vec::<String>::new());
    assert_eq!(unused(&["@scope/pkg"], &["@scope/pkgs"]), vec![s("@scope/pkg")]);
    assert_eq!(unused(&["@scope/pkg", "@scope/other"], &["@scope/pkg"]), vec![s("@scope/other")]);
}

#[test]
fn subpath_predicate() {
    assert!(is_subpath_import("lodash/fp", "lodash"));
    assert!(is_subpath_import("lodash/", "lodash"));
    assert!(!is_subpath_import("lodash", "lodash"));
    assert!(!is_subpath_import("lodashfp", "lodash"));
    assert!(!is_subpath_import("lo", "lodash"));
    assert!(is_used_dependency(&s("a"), &strings(&["b", "a"])));
    assert!(is_used_dependency(&s("a"), &strings(&["b", "a/x"])));
    assert!(!is_used_dependency(&s("a"), &strings(&["b", "ab"])));
}

#[test]
fn builder_without_manifest_declares_nothing() {
    let mut c = PackageJSONBuilder::new().build();
    c.compute_unused_deps(&strings(&["x"]));
    assert!(c.unused_dependencies().is_empty());
    let mut c = PackageJSONContainer::new();
    c.compute_unused_deps(&vec![]);
    assert!(c.unused_dependencies().is_empty());
}

#[test]
fn repeated_manifest_keys_are_declared_once() {
    assert_eq!(unused(&["a", "a", "b"], &["b"]), vec![s("a")]);
}

#[test]
fn union_is_order_independent() {
    let a = strings(&["x", "y"]);
    let b = strings(&["y", "z/w"]);
    let clean = DepClean::new();
    let ab = sorted(clean.check(&vec![a.clone(), b.clone()]));
    let ba = sorted(clean.check(&vec![b, a]));
    assert_eq!(ab, ba);
    assert_eq!(ab, strings(&["x", "y", "z/w"]));
    assert_eq!(clean.check(&vec![]), Vec::<String>::new());
}

#[test]
fn end_to_end_scenario() {
    // package.json: {"dependencies": {"a": "^1.0.0", "b": "^2.0.0"}}
    let mut builder = PackageJSONBuilder::new();
    let manifest = PackageJSON {
        dependencies: vec![(s("a"), s("^1.0.0")), (s("b"), s("^2.0.0"))],
    };
    builder.with_package_json(manifest, s(r#"{"dependencies": {"a": "^1.0.0", "b": "^2.0.0"}}"#));
    let mut c = builder.build();
    // index.js: import a from 'a'; require('./local');
    let source = Semantic {
        module_record: ModuleRecord { requested_modules: strings(&["a"]) },
        nodes: vec![AstKind::CallExpression(CallExpression {
            callee: Expression::Identifier(IdentifierReference {
                name: s("require"),
                refers_to_global: true,
            }),
            arguments: vec![Expression::StringLiteral(s("./local"))],
        })],
    };
    let clean = DepClean::new();
    let rt: &Runtime = clean.runtime();
    let mut results = vec![];
    for (path, parsed) in [("index.js", Some(source)), ("README.md", None)] {
        if let Some(r) = rt.process_path(path, parsed) {
            results.push(r);
        }
    }
    let used = clean.check(&results);
    c.compute_unused_deps(&used);
    assert_eq!(c.unused_dependencies().clone(), vec![s("b")]);
}

#[test]
fn uninstall_commands() {
    assert_eq!(PkgManager::Npm.get_uninstall_cmd(), "npm uninstall");
    assert_eq!(PkgManager::Yarn.get_uninstall_cmd(), "yarn remove");
    assert_eq!(PkgManager::Pnpm.get_uninstall_cmd(), "pnpm remove");
    assert_eq!(PkgManager::Bun.get_uninstall_cmd(), "bun remove");
}

#[test]
fn package_manager_detection() {
    let none = Lockfiles { yarn: false, pnpm: false, npm: false, bun: false };
    let all = Lockfiles { yarn: true, pnpm: true, npm: true, bun: true };
    assert_eq!(PkgManager::new_from_path(&all, Some("bun")), PkgManager::Yarn);
    let l = Lockfiles { yarn: false, ..all };
    assert_eq!(PkgManager::new_from_path(&l, None), PkgManager::Pnpm);
    let l = Lockfiles { npm: true, bun: true, ..none };
    assert_eq!(PkgManager::new_from_path(&l, Some("yarn")), PkgManager::Npm);
    let l = Lockfiles { bun: true, ..none };
    assert_eq!(PkgManager::new_from_path(&l, None), PkgManager::Bun);
    assert_eq!(PkgManager::new_from_path(&none, Some("pnpm")), PkgManager::Pnpm);
    assert_eq!(PkgManager::new_from_path(&none, Some("pnpm@8.6.0")), PkgManager::Npm);
    assert_eq!(PkgManager::new_from_path(&none, None), PkgManager::Npm);
}

#[test]
fn package_manager_names() {
    assert_eq!(PkgManager::from_name("npm"), Some(PkgManager::Npm));
    assert_eq!(PkgManager::from_name("yarn"), Some(PkgManager::Yarn));
    assert_eq!(PkgManager::from_name("pnpm"), Some(PkgManager::Pnpm));
    assert_eq!(PkgManager::from_name("bun"), Some(PkgManager::Bun));
    assert_eq!(PkgManager::from_name("Bun"), None);
    assert_eq!("yarn".parse::<PkgManager>(), Ok(PkgManager::Yarn));
    assert_eq!("deno".parse::<PkgManager>(), Err(()));
    assert_eq!(PkgManager::default(), PkgManager::Npm);
}

#[test]
fn walk_keeps_files_only() {
    let mut w = WalkController::new();
    let file = WalkEntry { path: s("src/a.js"), is_dir: Some(false) };
    let dir = WalkEntry { path: s("src"), is_dir: Some(true) };
    let unknown = WalkEntry { path: s("-"), is_dir: None };
    assert_eq!(w.visit(Some(dir)), WalkState::Continue);
    assert_eq!(w.visit(Some(file)), WalkState::Continue);
    assert_eq!(w.visit(Some(unknown)), WalkState::Continue);
    assert_eq!(w.visit(None), WalkState::Skip);
    assert_eq!(w.take_paths(), vec![s("src/a.js")]);
    assert_eq!(w.take_paths(), Vec::<String>::new());
}

#[test]
fn walk_batches_are_merged_without_repeats() {
    let batches = vec![strings(&["a", "b"]), strings(&[]), strings(&["b", "c", "a"])];
    assert_eq!(sorted(collect_paths(&batches)), strings(&["a", "b", "c"]));
}

#[test]
fn package_manager_from_manifest() {
    let none = Lockfiles { yarn: false, pnpm: false, npm: false, bun: false };
    let raw = r#"{"name": "x", "packageManager": "yarn"}"#;
    assert_eq!(PkgManager::from_manifest(&none, raw), PkgManager::Yarn);
    let raw = r#"{"packageManager": "pnpm@8.6.0"}"#;
    assert_eq!(PkgManager::from_manifest(&none, raw), PkgManager::Npm);
    assert_eq!(PkgManager::from_manifest(&none, r#"{"dependencies": {}}"#), PkgManager::Npm);
    assert_eq!(PkgManager::from_manifest(&none, "not json"), PkgManager::Npm);
    assert_eq!(PkgManager::from_manifest(&none, r#"{"packageManager": 3}"#), PkgManager::Npm);
    let bun = Lockfiles { bun: true, ..none };
    assert_eq!(PkgManager::from_manifest(&bun, r#"{"packageManager": "yarn"}"#), PkgManager::Bun);
}
