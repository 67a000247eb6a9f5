//! Archive file names: `<container name><sanitized mount path>.tar`.

use vstd::prelude::*;

verus! {

/// `String::push` appends one character to the end of the string.
pub assume_specification[ String::push ](s: &mut String, ch: char)
    ensures
        final(s)@ == old(s)@.push(ch),
;

/// A mount path with every `/` replaced by `_`.
pub open spec fn sanitized(path: Seq<char>) -> Seq<char> {
    Seq::new(path.len(), |i: int| if path[i] == '/' { '_' } else { path[i] })
}

/// The name of the archive that holds one mount of one container.
pub open spec fn archive_file_name(container: Seq<char>, mount: Seq<char>) -> Seq<char> {
    container + sanitized(mount) + ".tar"@
}

/// Whether `c` occurs nowhere in `text`.
pub open spec fn free_of(text: Seq<char>, c: char) -> bool {
    forall|i: int| 0 <= i < text.len() ==> text[i] != c
}

/// Sanitize a path into part of the backup file name.
pub fn sanitize(s: &str) -> (flat: String)
    ensures
        flat@ == sanitized(s@),
{
    let mut flat = String::new();
    for c in it: s.chars()
        invariant
            it.seq() == s@,
            flat@ == sanitized(s@.take(it.index())),
    {
        if c == '/' {
            flat.push('_');
        } else {
            flat.push(c);
        }
    }
    flat
}

/// The file name of the archive of `mount` in the container called
/// `container`.
pub fn archive_name(container: &str, mount: &str) -> (file: String)
    ensures
        file@ == archive_file_name(container@, mount@),
{
    let mut file = container.to_owned();
    let flat = sanitize(mount);
    file.append(flat.as_str());
    file.append(".tar");
    file
}

/// Sanitizing keeps the length, and leaves no path separator: the file name
/// made from it names no directory.
pub proof fn lemma_sanitized_is_flat(path: Seq<char>)
    ensures
        sanitized(path).len() == path.len(),
        free_of(sanitized(path), '/'),
{
}

/// Sanitizing is idempotent: a sanitized path is left as it is.
pub proof fn lemma_sanitize_idempotent(path: Seq<char>)
    ensures
        sanitized(sanitized(path)) == sanitized(path),
{
}

/// A path without a separator is its own sanitized form.
pub proof fn lemma_sanitize_fixes_flat(path: Seq<char>)
    requires
        free_of(path, '/'),
    ensures
        sanitized(path) == path,
{
}

/// On paths that hold no underscore, sanitizing is injective: two such
/// paths with the same sanitized form are the same path.
pub proof fn lemma_sanitize_injective(a: Seq<char>, b: Seq<char>)
    requires
        free_of(a, '_'),
        free_of(b, '_'),
        sanitized(a) == sanitized(b),
    ensures
        a == b,
{
    assert(a.len() == sanitized(a).len());
    assert(b.len() == sanitized(b).len());
    assert forall|i: int| 0 <= i < a.len() implies a[i] == b[i] by {
        assert(sanitized(a)[i] == if a[i] == '/' { '_' } else { a[i] });
        assert(sanitized(b)[i] == if b[i] == '/' { '_' } else { b[i] });
    }
    assert(a =~= b);
}

/// Within one container, two mounts whose paths hold no underscore get
/// different archives unless they are the same mount path.
pub proof fn lemma_archive_names_distinct(container: Seq<char>, a: Seq<char>, b: Seq<char>)
    requires
        free_of(a, '_'),
        free_of(b, '_'),
        archive_file_name(container, a) == archive_file_name(container, b),
    ensures
        a == b,
{
    let tar = ".tar"@;
    let left = archive_file_name(container, a);
    let right = archive_file_name(container, b);
    assert(left.len() == container.len() + a.len() + tar.len());
    assert(right.len() == container.len() + b.len() + tar.len());
    assert forall|i: int| 0 <= i < sanitized(a).len() implies sanitized(a)[i] == sanitized(b)[i] by {
        assert(left[container.len() + i] == sanitized(a)[i]);
        assert(right[container.len() + i] == sanitized(b)[i]);
    }
    assert(sanitized(a) =~= sanitized(b));
    lemma_sanitize_injective(a, b);
}

} // verus!
