//! File-name handling shared by the client and the server: taking a file's
//! name out of a path, splitting a name into stem and extension, and
//! joining the parts back together.

use vstd::prelude::*;
use crate::textutil::{first_index_of, last_index_of, lemma_first_index_of_props,
    lemma_last_index_of_props, find_char, rfind_char};

verus! {

/// Whether `s` can stand as one file name directly under a directory: it
/// is not empty, holds no slash, and is neither `.` nor `..`, so a path
/// built from it names nothing outside that directory.
pub open spec fn safe_name_spec(s: Seq<char>) -> bool {
    &&& s.len() > 0
    &&& (forall|i: int| 0 <= i < s.len() ==> s[i] != '/')
    &&& s != seq!['.']
    &&& s != seq!['.', '.']
}

/// Decides whether `name` is a plain file name, as `safe_name_spec` says.
pub fn is_safe_name(name: &str) -> (r: bool)
    ensures
        r == safe_name_spec(name@),
{
    proof {
        lemma_first_index_of_props(name@, '/');
    }
    let n = name.unicode_len();
    if n == 0 {
        return false;
    }
    if find_char(name, '/').is_some() {
        proof {
            let i = first_index_of(name@, '/');
            assert(name@[i] == '/');
        }
        return false;
    }
    if n == 1 && name.get_char(0) == '.' {
        proof {
            assert(name@ =~= seq!['.']);
        }
        return false;
    }
    if n == 2 && name.get_char(0) == '.' && name.get_char(1) == '.' {
        proof {
            assert(name@ =~= seq!['.', '.']);
        }
        return false;
    }
    proof {
        if name@ == seq!['.'] {
            assert(name@.len() == 1 && name@[0] == '.');
        }
        if name@ == seq!['.', '.'] {
            assert(name@.len() == 2 && name@[0] == '.' && name@[1] == '.');
        }
    }
    true
}

/// The part of a path after its last slash: the file's own name.
pub open spec fn base_name_spec(path: Seq<char>) -> Seq<char> {
    path.subrange(last_index_of(path, '/') + 1, path.len() as int)
}

/// The part of `path` after its last slash: the file's own name.
pub fn file_name_of_path(path: &str) -> (r: String)
    ensures
        r@ == base_name_spec(path@),
{
    proof {
        lemma_last_index_of_props(path@, '/');
    }
    let n = path.unicode_len();
    match rfind_char(path, '/') {
        Option::Some(i) => path.substring_char(i + 1, n).to_owned(),
        Option::None => {
            proof {
                assert(path@.subrange(0, path@.len() as int) =~= path@);
            }
            path.to_owned()
        },
    }
}

/// Splits a file name at its last dot into stem and extension; nothing
/// comes back when the name has no dot.
pub fn split_base_ext(name: &str) -> (r: Option<(String, String)>)
    ensures
        r is Some <==> last_index_of(name@, '.') >= 0,
        r is Some ==> ({
            let i = last_index_of(name@, '.');
            r.unwrap().0@ == name@.subrange(0, i) && r.unwrap().1@ == name@.subrange(
                i + 1,
                name@.len() as int,
            )
        }),
{
    proof {
        lemma_last_index_of_props(name@, '.');
    }
    let n = name.unicode_len();
    match rfind_char(name, '.') {
        Option::Some(i) => Option::Some(
            (name.substring_char(0, i).to_owned(), name.substring_char(i + 1, n).to_owned()),
        ),
        Option::None => Option::None,
    }
}

/// Joins a stem and an extension into one display name, `stem.ext`.
pub fn make_file_name(stem: &str, ext: &str) -> (r: String)
    ensures
        r@ == stem@ + seq!['.'] + ext@,
{
    proof {
        reveal_strlit(".");
    }
    let mut s = stem.to_owned();
    s.append(".");
    s.append(ext);
    proof {
        assert(s@ =~= stem@ + seq!['.'] + ext@);
    }
    s
}

/// Joins a directory and a file name into one path, `dir/name`.
pub fn join_path(dir: &str, name: &str) -> (r: String)
    ensures
        r@ == dir@ + seq!['/'] + name@,
{
    proof {
        reveal_strlit("/");
    }
    let mut s = dir.to_owned();
    s.append("/");
    s.append(name);
    proof {
        assert(s@ =~= dir@ + seq!['/'] + name@);
    }
    s
}

/// A name with an extension is put back together exactly by joining its
/// stem and extension with a dot: a file uploaded under a split name is
/// stored, and later listed, under its original name.
pub proof fn lemma_split_combine_identity(name: Seq<char>)
    requires
        last_index_of(name, '.') >= 0,
    ensures
        ({
            let i = last_index_of(name, '.');
            name.subrange(0, i) + seq!['.'] + name.subrange(i + 1, name.len() as int) == name
        }),
{
    lemma_last_index_of_props(name, '.');
    let i = last_index_of(name, '.');
    assert(name.subrange(0, i) + seq!['.'] + name.subrange(i + 1, name.len() as int) =~= name);
}

/// An upload is stored under the uploaded file's own name: the path the
/// server writes from the upload's stem and extension headers is exactly
/// `dir/name`, for the file name `name` of the uploaded path.
pub proof fn lemma_stored_name_is_uploaded_name(dir: Seq<char>, path: Seq<char>)
    requires
        last_index_of(base_name_spec(path), '.') >= 0,
    ensures
        ({
            let name = base_name_spec(path);
            let i = last_index_of(name, '.');
            dir + seq!['/'] + name.subrange(0, i) + seq!['.'] + name.subrange(
                i + 1,
                name.len() as int,
            ) == dir + seq!['/'] + name
        }),
{
    let name = base_name_spec(path);
    let i = last_index_of(name, '.');
    lemma_split_combine_identity(name);
    assert(dir + seq!['/'] + name.subrange(0, i) + seq!['.'] + name.subrange(
        i + 1,
        name.len() as int,
    ) =~= dir + seq!['/'] + (name.subrange(0, i) + seq!['.'] + name.subrange(
        i + 1,
        name.len() as int,
    )));
    assert(dir + seq!['/'] + name =~= dir + seq!['/'] + (name.subrange(0, i) + seq!['.']
        + name.subrange(i + 1, name.len() as int)));
}

} // verus!
