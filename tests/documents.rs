use markdown_vault::documents::{
    document_file_name, document_path, list_documents, loaded_document, markdown_documents,
    markdown_stem, registry_path, user_directory,
};
use markdown_vault::error::StoreError;

fn strings(v: &[&str]) -> Vec<String> {
    v.iter().map(|s| s.to_string()).collect()
}

#[test]
fn save_and_load_address_the_same_file() {
    assert_eq!(document_path("u", "note"), strings(&["markdown_files", "u", "note.md"]));
    assert_eq!(user_directory("u"), strings(&["markdown_files", "u"]));
    assert_eq!(registry_path(), strings(&["markdown_files", "markdown_config.json"]));
    assert_eq!(document_file_name("x"), "x.md");
}

#[test]
fn loading_returns_file_content() {
    assert_eq!(loaded_document(Ok("# title\nbody".to_string())), Ok("# title\nbody".to_string()));
}

#[test]
fn loading_missing_document_is_not_found() {
    match loaded_document(Err("No such file or directory".to_string())) {
        Err(StoreError::NotFound(m)) => assert_eq!(m, "No such file or directory"),
        other => panic!("unexpected {:?}", other),
    }
}

#[test]
fn listing_saved_documents_gives_their_names() {
    let entries = vec![document_file_name("a"), document_file_name("b")];
    let mut names = markdown_documents(&entries);
    names.sort();
    assert_eq!(names, strings(&["a", "b"]));
}

#[test]
fn listing_skips_other_entries() {
    let entries = strings(&["a.md", "notes.txt", ".md", "b.MD", "x.tar.md", "..md", "md"]);
    assert_eq!(markdown_documents(&entries), strings(&["a", "x.tar", "."]));
}

#[test]
fn listing_missing_directory_is_not_found() {
    match list_documents(None) {
        Err(StoreError::NotFound(m)) => assert_eq!(m, "User directory not found."),
        other => panic!("unexpected {:?}", other),
    }
    assert_eq!(list_documents(Some(strings(&["c.md"]))), Ok(strings(&["c"])));
    assert_eq!(list_documents(Some(vec![])), Ok(vec![]));
}

#[test]
fn stems_of_entries() {
    assert_eq!(markdown_stem("day.md"), Some("day".to_string()));
    assert_eq!(markdown_stem("day.mdx"), None);
    assert_eq!(markdown_stem("é.md"), Some("é".to_string()));
}
