//! Choosing the source files among the files found under a folder.
//!
//! Walking the folder is left to the caller. What is decided here is which
//! of the paths found name source files: those whose extension is on a
//! fixed list. Paths use `/` between their components.

use crate::text::{chars_of, last_index, rfind_char, same_chars, texts, views};
use vstd::prelude::*;
use vstd::slice::slice_subrange;

verus! {

/// The extensions that mark a source file.
pub open spec fn source_extensions() -> Seq<Seq<char>> {
    seq![
        "rs"@,
        "py"@,
        "js"@,
        "ts"@,
        "java"@,
        "cpp"@,
        "c"@,
        "cs"@,
        "go"@,
        "rb"@,
        "php"@,
        "swift"@,
        "kt"@,
        "scala"@,
    ]
}

/// The last component of `path`: what follows its last `/`, or all of it
/// where it has none.
pub open spec fn file_name(path: Seq<char>) -> Seq<char> {
    match last_index(path, '/') {
        Some(slash) => path.subrange(slash + 1, path.len() as int),
        None => path,
    }
}

/// The extension of `path`: what follows the last `.` of its file name.
/// A file name without a `.`, or whose only `.` is its first character, has
/// no extension.
pub open spec fn extension(path: Seq<char>) -> Option<Seq<char>> {
    let name = file_name(path);
    match last_index(name, '.') {
        Some(dot) => if dot > 0 {
            Some(name.subrange(dot + 1, name.len() as int))
        } else {
            None
        },
        None => None,
    }
}

/// `path` has an extension, and it is on the list of source extensions.
pub open spec fn is_source_file(path: Seq<char>) -> bool {
    extension(path) matches Some(ext) && source_extensions().contains(ext)
}

/// The source files among `paths`, in the order in which they stand there.
pub open spec fn source_files(paths: Seq<Seq<char>>) -> Seq<Seq<char>> {
    paths.filter(|path: Seq<char>| is_source_file(path))
}

/// The list of source extensions, as characters.
pub fn source_extension_list() -> (list: Vec<Vec<char>>)
    ensures
        views(list@) == source_extensions(),
{
    let mut list: Vec<Vec<char>> = Vec::new();
    list.push(chars_of("rs"));
    list.push(chars_of("py"));
    list.push(chars_of("js"));
    list.push(chars_of("ts"));
    list.push(chars_of("java"));
    list.push(chars_of("cpp"));
    list.push(chars_of("c"));
    list.push(chars_of("cs"));
    list.push(chars_of("go"));
    list.push(chars_of("rb"));
    list.push(chars_of("php"));
    list.push(chars_of("swift"));
    list.push(chars_of("kt"));
    list.push(chars_of("scala"));
    assert(views(list@) =~= source_extensions());
    list
}

/// Finds the extension of `path`.
pub fn extension_of<'a>(path: &'a [char]) -> (ext: Option<&'a [char]>)
    ensures
        (match ext {
            Some(found) => extension(path@) == Some(found@),
            None => extension(path@) is None,
        }),
{
    let n: usize = path.len();
    let name: &[char] = match rfind_char(path, '/') {
        Some(slash) => slice_subrange(path, slash + 1, n),
        None => path,
    };
    assert(name@ == file_name(path@));
    match rfind_char(name, '.') {
        Some(dot) => {
            if dot > 0 {
                Some(slice_subrange(name, dot + 1, name.len()))
            } else {
                None
            }
        },
        None => None,
    }
}

/// Decides whether `path` names a source file, given the list of source
/// extensions.
fn has_source_extension(path: &[char], extensions: &Vec<Vec<char>>) -> (b: bool)
    requires
        views(extensions@) == source_extensions(),
    ensures
        b == is_source_file(path@),
{
    match extension_of(path) {
        None => false,
        Some(ext) => {
            let mut k: usize = 0;
            while k < extensions.len()
                invariant
                    k <= extensions.len(),
                    views(extensions@) == source_extensions(),
                    extension(path@) == Some(ext@),
                    forall|j: int| 0 <= j < k ==> source_extensions()[j] != ext@,
                decreases extensions.len() - k,
            {
                assert(views(extensions@)[k as int] == extensions@[k as int]@);
                if same_chars(ext, extensions[k].as_slice()) {
                    assert(source_extensions()[k as int] == ext@);
                    return true;
                }
                k += 1;
            }
            false
        },
    }
}

/// Decides whether `path` names a source file.
pub fn is_source_path(path: &str) -> (b: bool)
    ensures
        b == is_source_file(path@),
{
    let extensions = source_extension_list();
    let path_chars = chars_of(path);
    has_source_extension(path_chars.as_slice(), &extensions)
}

/// Keeps the source files among the paths that were found, in the order in
/// which they were found.
pub fn build_source_file_list(found: &[String]) -> (files: Vec<String>)
    ensures
        texts(files@) == source_files(texts(found@)),
{
    let extensions = source_extension_list();
    let mut files: Vec<String> = Vec::new();
    let mut i: usize = 0;
    proof {
        reveal(Seq::filter);
        assert(texts(found@).take(0) =~= Seq::empty());
        assert(texts(files@) =~= Seq::empty());
    }
    while i < found.len()
        invariant
            i <= found.len(),
            views(extensions@) == source_extensions(),
            texts(files@) == source_files(texts(found@).take(i as int)),
        decreases found.len() - i,
    {
        let path = &found[i];
        let path_chars = chars_of(path.as_str());
        let keep = has_source_extension(path_chars.as_slice(), &extensions);
        proof {
            assert(texts(found@).take(i + 1) =~= texts(found@).take(i as int).push(path@));
            texts(found@).take(i as int).lemma_filter_push(
                path@,
                |p: Seq<char>| is_source_file(p),
            );
        }
        if keep {
            let ghost before = texts(files@);
            files.push(path.clone());
            assert(texts(files@) =~= before.push(path@));
        }
        i += 1;
    }
    assert(texts(found@).take(found@.len() as int) =~= texts(found@));
    files
}

} // verus!
