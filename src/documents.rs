use vstd::prelude::*;
use vstd::string::*;

use crate::error::StoreError;

verus! {

/// Directory, relative to the working directory, under which everything is stored.
pub const STORE_ROOT: &'static str = "markdown_files";

/// File name of the registry document inside the store root.
pub const REGISTRY_FILE: &'static str = "markdown_config.json";

/// The extension that marks a document file, dot included.
pub open spec fn md_suffix() -> Seq<char> {
    seq!['.', 'm', 'd']
}

/// The file that holds document `name`.
pub open spec fn file_name_of(name: Seq<char>) -> Seq<char> {
    name + md_suffix()
}

/// The document name a directory entry stands for, if any: the entry must
/// end in `.md` with at least one character before the extension.
pub open spec fn stem_of(entry: Seq<char>) -> Option<Seq<char>> {
    if entry.len() > 3 && entry.subrange(entry.len() - 3, entry.len() as int) == md_suffix() {
        Some(entry.subrange(0, entry.len() - 3))
    } else {
        None
    }
}

/// The document names found among directory entries, in entry order.
pub open spec fn listing(entries: Seq<Seq<char>>) -> Seq<Seq<char>>
    decreases entries.len(),
{
    if entries.len() == 0 {
        seq![]
    } else {
        let rest = listing(entries.drop_last());
        match stem_of(entries.last()) {
            Some(stem) => rest.push(stem),
            None => rest,
        }
    }
}

/// The file name under which document `name` is stored.
pub fn document_file_name(name: &str) -> (r: String)
    ensures
        r@ == file_name_of(name@),
{
    proof {
        reveal_strlit(".md");
    }
    String::from_str(name).concat(".md")
}

/// Path components, from the working directory, of `user`'s directory.
pub fn user_directory(user: &str) -> (r: Vec<String>)
    ensures
        r.deep_view() == seq![STORE_ROOT@, user@],
{
    let r = vec![String::from_str(STORE_ROOT), String::from_str(user)];
    assert(r.deep_view() =~= seq![STORE_ROOT@, user@]);
    r
}

/// Path components, from the working directory, of the file that holds
/// document `name` of `user`. Saving and loading both go through it.
pub fn document_path(user: &str, name: &str) -> (r: Vec<String>)
    ensures
        r.deep_view() == seq![STORE_ROOT@, user@, file_name_of(name@)],
{
    let r = vec![String::from_str(STORE_ROOT), String::from_str(user), document_file_name(name)];
    assert(r.deep_view() =~= seq![STORE_ROOT@, user@, file_name_of(name@)]);
    r
}

/// Path components, from the working directory, of the registry document.
pub fn registry_path() -> (r: Vec<String>)
    ensures
        r.deep_view() == seq![STORE_ROOT@, REGISTRY_FILE@],
{
    let r = vec![String::from_str(STORE_ROOT), String::from_str(REGISTRY_FILE)];
    assert(r.deep_view() =~= seq![STORE_ROOT@, REGISTRY_FILE@]);
    r
}

/// The document name that directory entry `entry` stands for, if any.
pub fn markdown_stem(entry: &str) -> (r: Option<String>)
    ensures
        match r {
            Some(s) => stem_of(entry@) == Some(s@),
            None => stem_of(entry@) is None,
        },
{
    let n = entry.unicode_len();
    if n > 3 && entry.get_char(n - 3) == '.' && entry.get_char(n - 2) == 'm' && entry.get_char(n
        - 1) == 'd' {
        let stem = entry.substring_char(0, n - 3);
        assert(entry@.subrange(n - 3, n as int) =~= md_suffix());
        Some(String::from_str(stem))
    } else {
        proof {
            if n > 3 {
                let tail = entry@.subrange(n - 3, n as int);
                if tail == md_suffix() {
                    assert(tail[0] == entry@[n - 3]);
                    assert(tail[1] == entry@[n - 2]);
                    assert(tail[2] == entry@[n - 1]);
                }
            }
        }
        None
    }
}

/// The names of the documents among the entries of a user's directory, in
/// the order the entries come.
pub fn markdown_documents(entries: &Vec<String>) -> (r: Vec<String>)
    ensures
        r.deep_view() == listing(entries.deep_view()),
{
    let mut r: Vec<String> = Vec::new();
    let mut i: usize = 0;
    while i < entries.len()
        invariant
            i <= entries.len(),
            r.deep_view() == listing(entries.deep_view().take(i as int)),
        decreases entries.len() - i,
    {
        let ghost prefix = entries.deep_view().take(i as int);
        let ghost next = entries.deep_view().take(i + 1);
        assert(next.drop_last() =~= prefix);
        assert(next.last() == entries[i as int]@);
        match markdown_stem(entries[i].as_str()) {
            Some(stem) => {
                r.push(stem);
                assert(r.deep_view() =~= listing(prefix).push(stem@));
            },
            None => {},
        }
        i = i + 1;
    }
    assert(entries.deep_view().take(entries.len() as int) =~= entries.deep_view());
    r
}

/// The documents of a user, from the entries of the user's directory, or
/// `None` when that directory does not exist.
pub fn list_documents(entries: Option<Vec<String>>) -> (r: Result<Vec<String>, StoreError>)
    ensures
        match entries {
            Some(e) => r matches Ok(names) && names.deep_view() == listing(e.deep_view()),
            None => r matches Err(StoreError::NotFound(m)) && m@ == "User directory not found."@,
        },
{
    match entries {
        Some(e) => Ok(markdown_documents(&e)),
        None => Err(StoreError::NotFound(String::from_str("User directory not found."))),
    }
}

/// The outcome of loading a document, from the outcome of reading its file:
/// a file that cannot be opened or read is reported as not found.
pub fn loaded_document(read: Result<String, String>) -> (r: Result<String, StoreError>)
    ensures
        match read {
            Ok(content) => r == Ok::<String, StoreError>(content),
            Err(detail) => r == Err::<String, StoreError>(StoreError::NotFound(detail)),
        },
{
    match read {
        Ok(content) => Ok(content),
        Err(detail) => Err(StoreError::NotFound(detail)),
    }
}

/// A document saved under a non-empty name is listed under that same name.
pub proof fn lemma_saved_name_listed(name: Seq<char>)
    requires
        name.len() > 0,
    ensures
        stem_of(file_name_of(name)) == Some(name),
{
    let f = file_name_of(name);
    assert(f.subrange(f.len() - 3, f.len() as int) =~= md_suffix());
    assert(f.subrange(0, f.len() - 3) =~= name);
}

/// A directory holding exactly the files of documents saved under non-empty
/// names lists exactly those names, whatever the registry recorded.
pub proof fn lemma_listing_of_saved(names: Seq<Seq<char>>)
    requires
        forall|i: int| 0 <= i < names.len() ==> #[trigger] names[i].len() > 0,
    ensures
        listing(names.map_values(|n: Seq<char>| file_name_of(n))) == names,
    decreases names.len(),
{
    let files = names.map_values(|n: Seq<char>| file_name_of(n));
    if names.len() > 0 {
        let init = names.drop_last();
        assert(files.drop_last() =~= init.map_values(|n: Seq<char>| file_name_of(n)));
        assert(forall|i: int| 0 <= i < init.len() ==> #[trigger] init[i] == names[i]);
        lemma_listing_of_saved(init);
        lemma_saved_name_listed(names.last());
        assert(listing(files) =~= init.push(names.last()));
        assert(init.push(names.last()) =~= names);
    } else {
        assert(files =~= Seq::<Seq<char>>::empty());
    }
}

} // verus!
