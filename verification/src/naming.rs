//! Deriving a clip's display name from its source path.
//!
//! The display name is the final path component: what follows the last `/`,
//! after trailing separators and trailing `.` components (the current
//! directory, which names nothing of its own) are ignored. A path that then
//! ends in no usable component — empty, or a final component of `..` — has
//! no file name, and the name falls back to a fixed placeholder.

use vstd::prelude::*;

verus! {

/// The fixed placeholder name of a path with no file-name component.
pub open spec fn placeholder_name() -> Seq<char> {
    "Undefined"@
}

/// Whether `s` ends in a lone `.` component: a final `.` that stands alone,
/// either as the whole of `s` or right after a `/`.
pub open spec fn ends_with_lone_dot(s: Seq<char>) -> bool {
    s.len() > 0 && s[s.len() - 1] == '.' && (s.len() == 1 || s[s.len() - 2] == '/')
}

/// `s` without its trailing `/` characters and trailing lone `.`
/// components, stripped alternately until neither remains.
pub open spec fn trim_trailing_slashes_and_dots(s: Seq<char>) -> Seq<char>
    decreases s.len(),
{
    if s.len() > 0 && (s[s.len() - 1] == '/' || ends_with_lone_dot(s)) {
        trim_trailing_slashes_and_dots(s.drop_last())
    } else {
        s
    }
}

/// The index right after the last `/` in `s`, or 0 when `s` has none.
pub open spec fn after_last_slash(s: Seq<char>) -> int
    decreases s.len(),
{
    if s.len() == 0 {
        0
    } else if s[s.len() - 1] == '/' {
        s.len() as int
    } else {
        after_last_slash(s.drop_last())
    }
}

/// A component that counts as no file name: empty, or the parent
/// directory, which names no file of its own.
pub open spec fn is_unusable_component(c: Seq<char>) -> bool {
    c.len() == 0 || c == ".."@
}

/// The final path component of `s`, or `None` when `s` has no file name.
pub open spec fn spec_file_name(s: Seq<char>) -> Option<Seq<char>> {
    let t = trim_trailing_slashes_and_dots(s);
    let c = t.subrange(after_last_slash(t), t.len() as int);
    if is_unusable_component(c) {
        None
    } else {
        Some(c)
    }
}

/// The display name of a clip loaded from path `s`: its final path
/// component, or the placeholder when there is none.
pub open spec fn spec_clip_name(s: Seq<char>) -> Seq<char> {
    match spec_file_name(s) {
        Some(c) => c,
        None => placeholder_name(),
    }
}

/// `after_last_slash` stays within the sequence.
proof fn lemma_after_last_slash_bounds(s: Seq<char>)
    ensures
        0 <= after_last_slash(s) <= s.len(),
    decreases s.len(),
{
    if s.len() > 0 && s[s.len() - 1] != '/' {
        lemma_after_last_slash_bounds(s.drop_last());
    }
}

/// Returns the final path component of `path`, or `None` when the path has
/// no file-name component.
pub fn file_name_of(path: &str) -> (r: Option<&str>)
    ensures
        r is Some <==> spec_file_name(path@) is Some,
        r is Some ==> r.unwrap()@ == spec_file_name(path@).unwrap(),
{
    let n: usize = path.unicode_len();
    proof {
        assert(path@.subrange(0, n as int) =~= path@);
    }
    // Ignore trailing separators and trailing `.` components.
    let mut end: usize = n;
    while end > 0 && (path.get_char(end - 1) == '/' || (path.get_char(end - 1) == '.' && (end == 1
        || path.get_char(end - 2) == '/')))
        invariant
            end <= n,
            n == path@.len(),
            trim_trailing_slashes_and_dots(path@) == trim_trailing_slashes_and_dots(path@.subrange(0, end as int)),
        decreases end,
    {
        proof {
            assert(path@.subrange(0, end as int).drop_last() =~= path@.subrange(
                0,
                end as int - 1,
            ));
        }
        end = end - 1;
    }
    let ghost t = path@.subrange(0, end as int);
    proof {
        assert(trim_trailing_slashes_and_dots(path@) == t);
    }
    // Find where the component after the last separator begins.
    let mut cut: usize = 0;
    let mut i: usize = 0;
    while i < end
        invariant
            cut <= i <= end <= n,
            n == path@.len(),
            cut == after_last_slash(path@.subrange(0, i as int)),
        decreases end - i,
    {
        proof {
            assert(path@.subrange(0, i as int + 1).drop_last() =~= path@.subrange(0, i as int));
        }
        if path.get_char(i) == '/' {
            cut = i + 1;
        }
        i = i + 1;
    }
    let component = path.substring_char(cut, end);
    proof {
        lemma_after_last_slash_bounds(t);
        assert(component@ =~= t.subrange(after_last_slash(t), t.len() as int));
    }
    let len: usize = component.unicode_len();
    if len == 0 {
        None
    } else if len == 2 && component.get_char(0) == '.' && component.get_char(1) == '.' {
        proof {
            reveal_strlit("..");
            assert(component@ =~= ".."@);
        }
        None
    } else {
        proof {
            reveal_strlit("..");
            assert(!is_unusable_component(component@));
        }
        Some(component)
    }
}

/// Returns the display name of a clip loaded from `path`: the final path
/// component, or the fixed placeholder string when the path has none.
pub fn clip_name(path: &str) -> (r: &str)
    ensures
        r@ == spec_clip_name(path@),
{
    match file_name_of(path) {
        Some(n) => n,
        None => "Undefined",
    }
}

} // verus!
