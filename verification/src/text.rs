use vstd::prelude::*;
use vstd::string::StrSliceExecFns;

verus! {

/// Character-wise equality of two string slices, decided over their views.
pub fn str_eq(a: &str, b: &str) -> (r: bool)
    ensures
        r == (a@ == b@),
{
    let a_len = a.unicode_len();
    let b_len = b.unicode_len();
    if a_len != b_len {
        return false;
    }
    let mut i: usize = 0;
    while i < a_len
        invariant
            a_len == a@.len(),
            b_len == b@.len(),
            a_len == b_len,
            i <= a_len,
            forall|j: int| 0 <= j < i ==> a@[j] == b@[j],
        decreases a_len - i,
    {
        if a.get_char(i) != b.get_char(i) {
            return false;
        }
        i += 1;
    }
    proof {
        assert(a@ =~= b@);
    }
    true
}

/// `s` with every trailing `/` removed.
pub open spec fn strip_trailing_slashes(s: Seq<char>) -> Seq<char>
    decreases s.len(),
{
    if s.len() > 0 && s.last() == '/' {
        strip_trailing_slashes(s.drop_last())
    } else {
        s
    }
}

/// The suffix of `s` after its last `/`; `s` itself when it has none.
pub open spec fn after_last_slash(s: Seq<char>) -> Seq<char>
    decreases s.len(),
{
    if s.len() == 0 {
        s
    } else if s.last() == '/' {
        Seq::empty()
    } else {
        after_last_slash(s.drop_last()).push(s.last())
    }
}

/// The final component of a path: trailing separators are ignored, and a
/// path whose remaining last component is empty, `.` or `..` has none.
pub open spec fn file_name_spec(path: Seq<char>) -> Option<Seq<char>> {
    let name = after_last_slash(strip_trailing_slashes(path));
    if name.len() == 0 || name == "."@ || name == ".."@ {
        None
    } else {
        Some(name)
    }
}

/// The final component of `path`, when it has one.
pub fn file_name(path: &str) -> (r: Option<String>)
    ensures
        match r {
            Some(n) => file_name_spec(path@) == Some(n@),
            None => file_name_spec(path@) is None,
        },
{
    let len = path.unicode_len();
    let mut end = len;
    proof {
        assert(path@.take(end as int) =~= path@);
    }
    while end > 0 && path.get_char(end - 1) == '/'
        invariant
            end <= len,
            len == path@.len(),
            strip_trailing_slashes(path@) == strip_trailing_slashes(path@.take(end as int)),
        decreases end,
    {
        proof {
            assert(path@.take(end as int).drop_last() =~= path@.take(end - 1));
            assert(path@.take(end as int).last() == path@[end - 1]);
        }
        end -= 1;
    }
    proof {
        if end > 0 {
            assert(path@.take(end as int).last() == path@[end - 1]);
        }
        assert(strip_trailing_slashes(path@) == path@.take(end as int));
        assert(after_last_slash(path@.take(end as int))
            =~= after_last_slash(path@.take(end as int)) + path@.subrange(end as int, end as int));
    }
    let mut start = end;
    while start > 0 && path.get_char(start - 1) != '/'
        invariant
            start <= end,
            end <= len,
            len == path@.len(),
            after_last_slash(path@.take(end as int))
                == after_last_slash(path@.take(start as int))
                    + path@.subrange(start as int, end as int),
        decreases start,
    {
        proof {
            assert(path@.take(start as int).drop_last() =~= path@.take(start - 1));
            assert(path@.take(start as int).last() == path@[start - 1]);
            assert(after_last_slash(path@.take(start as int))
                == after_last_slash(path@.take(start - 1)).push(path@[start - 1]));
            assert(after_last_slash(path@.take(start - 1)).push(path@[start - 1])
                + path@.subrange(start as int, end as int)
                =~= after_last_slash(path@.take(start - 1))
                    + path@.subrange(start - 1, end as int));
        }
        start -= 1;
    }
    proof {
        if start == 0 {
            assert(path@.take(0).len() == 0);
            assert(after_last_slash(path@.take(0)) + path@.subrange(0, end as int)
                =~= path@.subrange(0, end as int));
        } else {
            assert(path@.take(start as int).last() == path@[start - 1]);
            assert(after_last_slash(path@.take(start as int)) =~= Seq::<char>::empty());
            assert(Seq::<char>::empty() + path@.subrange(start as int, end as int)
                =~= path@.subrange(start as int, end as int));
        }
        assert(after_last_slash(strip_trailing_slashes(path@))
            == path@.subrange(start as int, end as int));
    }
    if end == start {
        return None;
    }
    let name = path.substring_char(start, end);
    if str_eq(name, ".") || str_eq(name, "..") {
        return None;
    }
    Some(name.to_owned())
}

/// The final component of a path, or the fallback filename when none exists.
pub open spec fn display_name_spec(path: Seq<char>) -> Seq<char> {
    match file_name_spec(path) {
        Some(n) => n,
        None => crate::constants::spec_fallback_filename(),
    }
}

/// The final component of `path`, or the fallback filename when none exists.
pub fn file_name_or_fallback(path: &str) -> (r: String)
    ensures
        r@ == display_name_spec(path@),
{
    match file_name(path) {
        Some(n) => n,
        None => crate::constants::fallback_filename().to_owned(),
    }
}

/// The decimal digit character for `d`.
pub open spec fn digit_char(d: int) -> char {
    if d == 0 { '0' }
    else if d == 1 { '1' }
    else if d == 2 { '2' }
    else if d == 3 { '3' }
    else if d == 4 { '4' }
    else if d == 5 { '5' }
    else if d == 6 { '6' }
    else if d == 7 { '7' }
    else if d == 8 { '8' }
    else { '9' }
}

/// The decimal representation of `n`, most significant digit first.
pub open spec fn dec_str(n: nat) -> Seq<char>
    decreases n,
{
    if n < 10 {
        seq![digit_char(n as int)]
    } else {
        dec_str(n / 10) + seq![digit_char((n % 10) as int)]
    }
}

/// The decimal digit character for `d` as executable code.
fn digit_str(d: u64) -> (s: &'static str)
    requires
        d < 10,
    ensures
        s@.len() == 1,
        s@[0] == digit_char(d as int),
{
    match d {
        0 => { proof { reveal_strlit("0"); } "0" }
        1 => { proof { reveal_strlit("1"); } "1" }
        2 => { proof { reveal_strlit("2"); } "2" }
        3 => { proof { reveal_strlit("3"); } "3" }
        4 => { proof { reveal_strlit("4"); } "4" }
        5 => { proof { reveal_strlit("5"); } "5" }
        6 => { proof { reveal_strlit("6"); } "6" }
        7 => { proof { reveal_strlit("7"); } "7" }
        8 => { proof { reveal_strlit("8"); } "8" }
        _ => { proof { reveal_strlit("9"); } "9" }
    }
}

/// Render `n` in decimal.
pub fn u64_to_string(n: u64) -> (r: String)
    ensures
        r@ == dec_str(n as nat),
    decreases n,
{
    let d = digit_str(n % 10);
    if n < 10 {
        proof {
            assert(d@ =~= seq![digit_char(n as int)]);
        }
        d.to_owned()
    } else {
        let rest = u64_to_string(n / 10);
        let r = rest.concat(d);
        proof {
            assert(r@ =~= dec_str(n as nat));
        }
        r
    }
}

} // verus!
