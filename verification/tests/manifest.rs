use dprint_locator::manifest::{document_lists, worktree_dprint_binary_exists};
use zed_extension_api::serde_json::{from_str, Value};

fn text(json: &str) -> Result<String, String> {
    Ok(json.to_string())
}

fn missing() -> Result<String, String> {
    Err("no such file".to_string())
}

#[test]
fn package_json_dependency_is_declared() {
    let package = text(r#"{"name": "site", "dependencies": {"dprint": "^0.50.0"}}"#);
    assert!(worktree_dprint_binary_exists(&package, &missing(), "dprint"));
}

#[test]
fn package_json_dev_dependency_is_declared() {
    let package = text(r#"{"devDependencies": {"typescript": "5", "dprint": "0.49.0"}}"#);
    assert!(worktree_dprint_binary_exists(&package, &missing(), "dprint"));
}

#[test]
fn deno_json_import_is_declared() {
    let deno = text(r#"{"imports": {"dprint": "npm:dprint@0.50.0"}}"#);
    assert!(worktree_dprint_binary_exists(&missing(), &deno, "dprint"));
}

#[test]
fn either_manifest_suffices() {
    let package = text(r#"{"dependencies": {"dprint": "1"}}"#);
    let deno = text(r#"{"imports": {"dprint": "npm:dprint"}}"#);
    let empty = text("{}");
    assert!(worktree_dprint_binary_exists(&package, &empty, "dprint"));
    assert!(worktree_dprint_binary_exists(&empty, &deno, "dprint"));
    assert!(worktree_dprint_binary_exists(&package, &deno, "dprint"));
    assert!(!worktree_dprint_binary_exists(&empty, &empty, "dprint"));
}

#[test]
fn missing_manifests_declare_nothing() {
    assert!(!worktree_dprint_binary_exists(&missing(), &missing(), "dprint"));
}

#[test]
fn malformed_manifests_declare_nothing() {
    let package = text(r#"{"dependencies": {"dprint": "1"}"#);
    let deno = text("imports: dprint");
    assert!(!worktree_dprint_binary_exists(&package, &deno, "dprint"));
    assert!(!worktree_dprint_binary_exists(&text(""), &text(""), "dprint"));
}

#[test]
fn other_packages_declare_nothing() {
    let package =
        text(r#"{"dependencies": {"dprint-cli": "1"}, "devDependencies": {"prettier": "3"}}"#);
    let deno = text(r#"{"imports": {"std": "jsr:@std/path"}}"#);
    assert!(!worktree_dprint_binary_exists(&package, &deno, "dprint"));
}

#[test]
fn null_entry_declares_too() {
    let package = text(r#"{"dependencies": {"dprint": null}}"#);
    assert!(worktree_dprint_binary_exists(&package, &missing(), "dprint"));
    let package = text(r#"{"devDependencies": {"dprint": null}}"#);
    assert!(worktree_dprint_binary_exists(&package, &missing(), "dprint"));
    let deno = text(r#"{"imports": {"dprint": null}}"#);
    assert!(worktree_dprint_binary_exists(&missing(), &deno, "dprint"));
}

#[test]
fn any_value_behind_the_key_declares() {
    for value in ["null", "false", "0", "\"\"", "[]", "{}"] {
        let package = text(&format!(r#"{{"dependencies": {{"dprint": {}}}}}"#, value));
        assert!(worktree_dprint_binary_exists(&package, &missing(), "dprint"));
    }
}

#[test]
fn empty_sections_declare_nothing() {
    let package = text(r#"{"dependencies": {}, "devDependencies": {}}"#);
    let deno = text(r#"{"imports": {}}"#);
    assert!(!worktree_dprint_binary_exists(&package, &deno, "dprint"));
}

#[test]
fn sections_that_are_no_objects_declare_nothing() {
    for section in ["[\"dprint\"]", "\"dprint\"", "true", "7", "null"] {
        let package = text(&format!(r#"{{"dependencies": {}}}"#, section));
        assert!(!worktree_dprint_binary_exists(&package, &missing(), "dprint"));
    }
}

#[test]
fn documents_that_are_no_objects_declare_nothing() {
    for document in ["[]", "\"dprint\"", "null", "1"] {
        assert!(!worktree_dprint_binary_exists(&text(document), &text(document), "dprint"));
    }
}

#[test]
fn each_manifest_has_its_own_sections() {
    let imports = text(r#"{"imports": {"dprint": "npm:dprint"}}"#);
    let dependencies = text(r#"{"dependencies": {"dprint": "1"}}"#);
    let dev_dependencies = text(r#"{"devDependencies": {"dprint": "1"}}"#);
    assert!(!worktree_dprint_binary_exists(&imports, &missing(), "dprint"));
    assert!(!worktree_dprint_binary_exists(&missing(), &dependencies, "dprint"));
    assert!(!worktree_dprint_binary_exists(&missing(), &dev_dependencies, "dprint"));
}

#[test]
fn the_package_name_is_the_one_asked_for() {
    let package = text(r#"{"dependencies": {"prettier": "3"}}"#);
    assert!(worktree_dprint_binary_exists(&package, &missing(), "prettier"));
    assert!(!worktree_dprint_binary_exists(&package, &missing(), "dprint"));
}

#[test]
fn nested_declarations_do_not_count() {
    let package = text(r#"{"workspaces": {"dependencies": {"dprint": "1"}}}"#);
    assert!(!worktree_dprint_binary_exists(&package, &missing(), "dprint"));
}

#[test]
fn document_lists_a_member_whatever_it_is() {
    let document: Value = from_str(r#"{"a": {"b": 1, "c": null}, "d": [1], "e": null}"#).unwrap();
    assert!(document_lists(&document, "a", "b"));
    assert!(document_lists(&document, "a", "c"));
    assert!(!document_lists(&document, "a", "x"));
    assert!(!document_lists(&document, "a", "a"));
    assert!(!document_lists(&document, "d", "0"));
    assert!(!document_lists(&document, "e", "b"));
    assert!(!document_lists(&document, "x", "b"));
    assert!(!document_lists(&document, "b", "a"));
}

#[test]
fn document_lists_nothing_in_values_that_are_no_objects() {
    for json in ["null", "true", "3", "\"a\"", "[{\"a\": {\"b\": 1}}]"] {
        let document: Value = from_str(json).unwrap();
        assert!(!document_lists(&document, "a", "b"));
    }
}
