//! Text: comparison, lower case, and the last component of a path.

use vstd::prelude::*;

verus! {

/// What `str::to_lowercase` makes of a text: each character replaced by its
/// Unicode lower case form.
pub uninterp spec fn lowercase_of(text: Seq<char>) -> Seq<char>;

/// `str::to_lowercase`. Trusted: the result is a function of the text
/// alone, named [`lowercase_of`].
#[verifier::external_body]
pub(crate) fn lowercase(text: &str) -> (r: String)
    ensures
        r@ == lowercase_of(text@),
{
    text.to_lowercase()
}

/// Whether two texts hold the same characters.
pub fn same_text(a: &str, b: &str) -> (r: bool)
    ensures
        r == (a@ == b@),
{
    a.to_owned() == b.to_owned()
}

/// Whether a path ends in what names nothing: a separator, or a component
/// `.` behind a separator.
pub open spec fn ends_in_filler(path: Seq<char>) -> bool {
    ||| path.len() >= 1 && path.last() == '/'
    ||| path.len() >= 2 && path.last() == '.' && path[path.len() - 2] == '/'
}

/// The path up to the end of its last component.
pub open spec fn trimmed(path: Seq<char>) -> Seq<char>
    decreases path.len(),
{
    if ends_in_filler(path) {
        trimmed(path.drop_last())
    } else {
        path
    }
}

/// Where the part of a path behind its last separator begins.
pub open spec fn name_start(path: Seq<char>) -> int
    decreases path.len(),
{
    if path.len() == 0 || path.last() == '/' {
        path.len() as int
    } else {
        name_start(path.drop_last())
    }
}

/// The last component of a path with `/` as separator: what stands behind
/// the last separator, trailing separators and `.` components set aside.
/// There is none where that is nothing, `.` or `..`.
pub open spec fn file_name_of(path: Seq<char>) -> Option<Seq<char>> {
    let kept = trimmed(path);
    let name = kept.subrange(name_start(kept), kept.len() as int);
    if name.len() == 0 || name == seq!['.'] || name == seq!['.', '.'] {
        None
    } else {
        Some(name)
    }
}

/// Whether the first `end` characters of a path end in what names nothing.
fn filler_before(path: &str, end: usize) -> (r: bool)
    requires
        end <= path@.len(),
    ensures
        r == ends_in_filler(path@.take(end as int)),
{
    if end >= 1 && path.get_char(end - 1) == '/' {
        true
    } else {
        end >= 2 && path.get_char(end - 1) == '.' && path.get_char(end - 2) == '/'
    }
}

/// The last component of a path with `/` as separator.
pub fn file_name(path: &str) -> (r: Option<String>)
    ensures
        r is Some <==> file_name_of(path@) is Some,
        r matches Some(name) ==> file_name_of(path@) == Some(name@),
{
    let length = path.unicode_len();
    let mut end = length;
    assert(path@.take(end as int) =~= path@);
    while filler_before(path, end)
        invariant
            end <= length,
            length == path@.len(),
            trimmed(path@) == trimmed(path@.take(end as int)),
        decreases end,
    {
        assert(path@.take(end as int).drop_last() =~= path@.take(end as int - 1));
        end -= 1;
    }
    let ghost kept = path@.take(end as int);
    assert(trimmed(path@) == kept);
    let mut start = end;
    while start > 0 && path.get_char(start - 1) != '/'
        invariant
            start <= end <= length,
            length == path@.len(),
            kept == path@.take(end as int),
            name_start(kept) == name_start(path@.take(start as int)),
        decreases start,
    {
        assert(path@.take(start as int).drop_last() =~= path@.take(start as int - 1));
        start -= 1;
    }
    assert(name_start(kept) == start);
    let ghost name = kept.subrange(start as int, end as int);
    assert(name =~= path@.subrange(start as int, end as int));
    let size = end - start;
    if size == 0 {
        None
    } else if size == 1 && path.get_char(start) == '.' {
        assert(name =~= seq!['.']);
        None
    } else if size == 2 && path.get_char(start) == '.' && path.get_char(start + 1) == '.' {
        assert(name =~= seq!['.', '.']);
        None
    } else {
        assert(name != seq!['.']) by {
            if name == seq!['.'] {
                assert(name.len() == 1 && name[0] == '.');
            }
        }
        assert(name != seq!['.', '.']) by {
            if name == seq!['.', '.'] {
                assert(name.len() == 2 && name[0] == '.' && name[1] == '.');
            }
        }
        Some(path.substring_char(start, end).to_owned())
    }
}

} // verus!
