//! File-name patterns and the skip and inclusion filter built on them.
//!
//! A pattern is a small subset of glob syntax. `*.ext` matches by extension;
//! a pattern with exactly one `*` matches by prefix and suffix; anything
//! else, including a pattern with several `*`, is looked up literally as a
//! substring. The last rule is deliberate: patterns with more than one
//! wildcard are not expanded.

use crate::text::{
    chars_of, contains, contains_chars, ends_with, ends_with_chars, find_char, first_index,
    last_index, rfind_char, split, split_chars, starts_with, starts_with_chars, texts, trim,
    trim_chars, views,
};
use vstd::prelude::*;
use vstd::slice::slice_subrange;

verus! {

/// The two characters that open an extension pattern.
pub open spec fn extension_marker() -> Seq<char> {
    seq!['*', '.']
}

/// The pattern holds exactly one `*`.
pub open spec fn has_single_wildcard(pattern: Seq<char>) -> bool {
    first_index(pattern, '*') is Some && first_index(pattern, '*') == last_index(pattern, '*')
}

/// Whether `file` matches `pattern`.
pub open spec fn matches(file: Seq<char>, pattern: Seq<char>) -> bool {
    if starts_with(pattern, extension_marker()) {
        ends_with(file, pattern.subrange(1, pattern.len() as int))
    } else if has_single_wildcard(pattern) {
        let star = first_index(pattern, '*')->0;
        starts_with(file, pattern.subrange(0, star)) && ends_with(
            file,
            pattern.subrange(star + 1, pattern.len() as int),
        )
    } else {
        contains(file, pattern)
    }
}

/// Decides whether `file` matches `pattern`, both given as characters.
pub fn matches_chars(file: &[char], pattern: &[char]) -> (b: bool)
    ensures
        b == matches(file@, pattern@),
{
    let n: usize = pattern.len();
    if n >= 2 && pattern[0] == '*' && pattern[1] == '.' {
        assert(pattern@.subrange(0, 2) =~= extension_marker());
        return ends_with_chars(file, slice_subrange(pattern, 1, n));
    }
    assert(!starts_with(pattern@, extension_marker())) by {
        if starts_with(pattern@, extension_marker()) {
            assert(pattern@.subrange(0, 2)[0] == '*');
            assert(pattern@.subrange(0, 2)[1] == '.');
        }
    }
    let first = find_char(pattern, '*');
    let last = rfind_char(pattern, '*');
    match (first, last) {
        (Some(star), Some(other)) => {
            if star == other {
                starts_with_chars(file, slice_subrange(pattern, 0, star)) && ends_with_chars(
                    file,
                    slice_subrange(pattern, star + 1, n),
                )
            } else {
                contains_chars(file, pattern)
            }
        },
        _ => contains_chars(file, pattern),
    }
}

/// Decides whether the path `file` matches `pattern`.
pub fn matches_pattern(file: &str, pattern: &str) -> (b: bool)
    ensures
        b == matches(file@, pattern@),
{
    let file_chars = chars_of(file);
    let pattern_chars = chars_of(pattern);
    matches_chars(file_chars.as_slice(), pattern_chars.as_slice())
}


/// The patterns that an inclusion list names: its comma-separated pieces,
/// each without surrounding white space.
pub open spec fn include_patterns(list: Seq<char>) -> Seq<Seq<char>> {
    split(list, ',').map_values(|piece: Seq<char>| trim(piece))
}

/// `file` matches at least one of `patterns`.
pub open spec fn matches_any(file: Seq<char>, patterns: Seq<Seq<char>>) -> bool {
    exists|k: int| 0 <= k < patterns.len() && matches(file, #[trigger] patterns[k])
}

/// Whether the filter lets `file` through: it must not match the skip
/// pattern, and it must match one of the patterns of the inclusion list, where given.
pub open spec fn keeps(
    file: Seq<char>,
    skip: Option<Seq<char>>,
    inclusion: Option<Seq<char>>,
) -> bool {
    &&& skip matches Some(pattern) ==> !matches(file, pattern)
    &&& inclusion matches Some(list) ==> matches_any(file, include_patterns(list))
}

/// The files that the filter lets through, in the order in which they stand in `files`.
pub open spec fn filtered(
    files: Seq<Seq<char>>,
    skip: Option<Seq<char>>,
    inclusion: Option<Seq<char>>,
) -> Seq<Seq<char>> {
    files.filter(|file: Seq<char>| keeps(file, skip, inclusion))
}

/// The character sequence of an optional string slice.
pub open spec fn optional_text(o: Option<&str>) -> Option<Seq<char>> {
    match o {
        Some(s) => Some(s@),
        None => None,
    }
}

/// Filtering a list extended by one file decides on that file alone.
pub proof fn lemma_filtered_push(
    files: Seq<Seq<char>>,
    file: Seq<char>,
    skip: Option<Seq<char>>,
    inclusion: Option<Seq<char>>,
)
    ensures
        filtered(files.push(file), skip, inclusion) == (if keeps(file, skip, inclusion) {
            filtered(files, skip, inclusion).push(file)
        } else {
            filtered(files, skip, inclusion)
        }),
{
    files.lemma_filter_push(file, |f: Seq<char>| keeps(f, skip, inclusion));
}

/// The filter keeps nothing of an empty list.
pub proof fn lemma_filtered_empty(skip: Option<Seq<char>>, inclusion: Option<Seq<char>>)
    ensures
        filtered(Seq::empty(), skip, inclusion) == Seq::<Seq<char>>::empty(),
{
    reveal(Seq::filter);
}

/// Filtering is idempotent: what the filter let through once, it lets
/// through again unchanged.
pub proof fn lemma_filter_idempotent(
    files: Seq<Seq<char>>,
    skip: Option<Seq<char>>,
    inclusion: Option<Seq<char>>,
)
    ensures
        filtered(filtered(files, skip, inclusion), skip, inclusion) == filtered(files, skip, inclusion),
    decreases files.len(),
{
    if files.len() == 0 {
        lemma_filtered_empty(skip, inclusion);
        assert(files =~= Seq::empty());
    } else {
        let init = files.drop_last();
        let last = files.last();
        assert(files =~= init.push(last));
        lemma_filtered_push(init, last, skip, inclusion);
        lemma_filter_idempotent(init, skip, inclusion);
        if keeps(last, skip, inclusion) {
            lemma_filtered_push(filtered(init, skip, inclusion), last, skip, inclusion);
        }
    }
}

/// An extension pattern `*.ext` matches exactly the files that end with
/// `.ext`.
pub proof fn lemma_extension_pattern(file: Seq<char>, ext: Seq<char>)
    ensures
        matches(file, seq!['*', '.'] + ext) == ends_with(file, seq!['.'] + ext),
{
    let pattern = seq!['*', '.'] + ext;
    assert(pattern.subrange(0, 2) =~= extension_marker());
    assert(pattern.subrange(1, pattern.len() as int) =~= seq!['.'] + ext);
}

/// A pattern `pre*post` with a single wildcard matches exactly the files
/// that start with `pre` and end with `post`.
pub proof fn lemma_single_wildcard_pattern(file: Seq<char>, pre: Seq<char>, post: Seq<char>)
    requires
        !pre.contains('*'),
        !post.contains('*'),
    ensures
        matches(file, pre + seq!['*'] + post) == (starts_with(file, pre) && ends_with(file, post)),
{
    let pattern = pre + seq!['*'] + post;
    let star = pre.len() as int;
    assert(pattern[star] == '*');
    assert(pattern.subrange(0, star) =~= pre);
    assert(pattern.subrange(star + 1, pattern.len() as int) =~= post);
    if starts_with(pattern, extension_marker()) {
        assert(pattern.subrange(0, 2)[0] == '*');
        assert(pattern[0] == '*');
        if pre.len() > 0 {
            assert(pre[0] == pattern[0]);
            assert(pre.contains('*'));
        }
        assert(pre =~= Seq::<char>::empty());
        assert(file.subrange(0, 0) =~= pre);
    } else {
        assert forall|j: int| 0 <= j < pattern.len() && j != star implies pattern[j] != '*' by {
            if j < star {
                assert(pattern[j] == pre[j]);
                if pre[j] == '*' {
                    assert(pre.contains('*'));
                }
            } else {
                assert(pattern[j] == post[j - star - 1]);
                if post[j - star - 1] == '*' {
                    assert(post.contains('*'));
                }
            }
        }
        assert(pattern.contains('*'));
        crate::text::lemma_first_index_unique(pattern, '*', star);
        crate::text::lemma_last_index_unique(pattern, '*', star);
    }
}

/// Decides whether `file` matches one of `patterns`.
pub fn matches_any_chars(file: &[char], patterns: &Vec<Vec<char>>) -> (b: bool)
    ensures
        b == matches_any(file@, views(patterns@)),
{
    let mut k: usize = 0;
    while k < patterns.len()
        invariant
            k <= patterns.len(),
            forall|j: int| 0 <= j < k ==> !matches(file@, #[trigger] views(patterns@)[j]),
        decreases patterns.len() - k,
    {
        if matches_chars(file, patterns[k].as_slice()) {
            assert(matches(file@, views(patterns@)[k as int]));
            return true;
        }
        k += 1;
    }
    false
}

/// Reads an inclusion list into its patterns.
pub fn parse_include_patterns(list: &str) -> (r: Vec<Vec<char>>)
    ensures
        views(r@) == include_patterns(list@),
{
    let list_chars = chars_of(list);
    let pieces = split_chars(list_chars.as_slice(), ',');
    let mut patterns: Vec<Vec<char>> = Vec::new();
    let mut k: usize = 0;
    while k < pieces.len()
        invariant
            k <= pieces.len(),
            views(pieces@) == split(list@, ','),
            views(patterns@) == include_patterns(list@).take(k as int),
        decreases pieces.len() - k,
    {
        let trimmed = trim_chars(pieces[k].as_slice());
        let ghost before = views(patterns@);
        let ghost piece = trimmed@;
        patterns.push(trimmed);
        proof {
            assert(views(pieces@)[k as int] == pieces@[k as int]@);
            assert(include_patterns(list@)[k as int] == piece);
            assert(views(patterns@) =~= before.push(piece));
            assert(include_patterns(list@).take(k + 1) =~= include_patterns(list@).take(
                k as int,
            ).push(piece));
        }
        k += 1;
    }
    assert(include_patterns(list@).take(k as int) =~= include_patterns(list@));
    patterns
}

/// Applies the optional skip pattern and the optional inclusion list to
/// `files`. A file is dropped if it matches the skip pattern, or if an
/// inclusion list is given and the file matches none of its patterns. The
/// files that remain keep their order.
pub fn apply_file_filters(
    files: &[String],
    skip_pattern: Option<&str>,
    include_pattern: Option<&str>,
) -> (kept: Vec<String>)
    ensures
        texts(kept@) == filtered(
            texts(files@),
            optional_text(skip_pattern),
            optional_text(include_pattern),
        ),
{
    let ghost skip = optional_text(skip_pattern);
    let ghost inclusion = optional_text(include_pattern);
    let skip_chars: Option<Vec<char>> = match skip_pattern {
        Some(p) => Some(chars_of(p)),
        None => None,
    };
    let patterns: Option<Vec<Vec<char>>> = match include_pattern {
        Some(list) => Some(parse_include_patterns(list)),
        None => None,
    };
    let mut kept: Vec<String> = Vec::new();
    let mut i: usize = 0;
    proof {
        lemma_filtered_empty(skip, inclusion);
        assert(texts(files@).take(0) =~= Seq::empty());
        assert(texts(kept@) =~= Seq::empty());
    }
    while i < files.len()
        invariant
            i <= files.len(),
            skip == optional_text(skip_pattern),
            inclusion == optional_text(include_pattern),
            skip_chars is Some <==> skip is Some,
            skip_chars matches Some(p) ==> skip == Some(p@),
            patterns is Some <==> inclusion is Some,
            patterns matches Some(ps) ==> include_patterns(inclusion->0) == views(ps@),
            texts(kept@) == filtered(texts(files@).take(i as int), skip, inclusion),
        decreases files.len() - i,
    {
        let file = &files[i];
        let file_chars = chars_of(file.as_str());
        let skipped = match &skip_chars {
            Some(p) => matches_chars(file_chars.as_slice(), p.as_slice()),
            None => false,
        };
        let included = match &patterns {
            Some(ps) => matches_any_chars(file_chars.as_slice(), ps),
            None => true,
        };
        proof {
            assert(texts(files@).take(i + 1) =~= texts(files@).take(i as int).push(file@));
            lemma_filtered_push(texts(files@).take(i as int), file@, skip, inclusion);
            assert((!skipped && included) == keeps(file@, skip, inclusion));
        }
        if !skipped && included {
            let ghost before = texts(kept@);
            kept.push(file.clone());
            assert(texts(kept@) =~= before.push(file@));
        }
        i += 1;
    }
    assert(texts(files@).take(files@.len() as int) =~= texts(files@));
    kept
}

} // verus!
