use std::io::Write;
use vstd::prelude::*;

verus! {

use vstd::string::StrSliceExecFns;

/// Relies on `uuid::Uuid::new_v4` and its `Display` form: a fresh
/// random version-4 identifier rendered as 36 hyphenated hexadecimal
/// characters. The value is random, so nothing beyond its length is
/// promised.
#[verifier::external_body]
pub(crate) fn fresh_request_extra() -> (r: String)
    ensures
        r@.len() == 36,
{
    uuid::Uuid::new_v4().to_string()
}

/// Relies on `std::io::Stdin::read_line`: one line from standard
/// input, or an empty string when reading fails. What arrives depends
/// on the user, so nothing is promised of the value.
#[verifier::external_body]
fn read_input_line() -> String {
    let mut line = String::new();
    match std::io::stdin().read_line(&mut line) {
        Ok(_) => line,
        Err(_) => String::new(),
    }
}

/// Relies on `std::io::Stdout`: writes one line to standard output.
#[verifier::external_body]
pub(crate) fn print_line(msg: &str) {
    let _ = writeln!(std::io::stdout(), "{}", msg);
}

/// Relies on `std::io::Stderr`: writes one line to standard error.
#[verifier::external_body]
pub(crate) fn print_error_line(msg: &str) {
    let _ = writeln!(std::io::stderr(), "{}", msg);
}

/// A space, tab, carriage return or line feed.
pub open spec fn is_blank(c: char) -> bool {
    c == ' ' || c == '\t' || c == '\r' || c == '\n'
}

/// `s` without its leading blanks.
pub open spec fn trim_front(s: Seq<char>) -> Seq<char>
    decreases s.len(),
{
    if s.len() > 0 && is_blank(s[0]) {
        trim_front(s.drop_first())
    } else {
        s
    }
}

/// `s` without its trailing blanks.
pub open spec fn trim_back(s: Seq<char>) -> Seq<char>
    decreases s.len(),
{
    if s.len() > 0 && is_blank(s.last()) {
        trim_back(s.drop_last())
    } else {
        s
    }
}

/// `s` without its leading and trailing blanks.
pub open spec fn trim_spec(s: Seq<char>) -> Seq<char> {
    trim_back(trim_front(s))
}

/// Dropping a wholly blank prefix does not change the trimmed front.
proof fn lemma_trim_front_skip(s: Seq<char>, i: int)
    requires
        0 <= i <= s.len(),
        forall|k: int| 0 <= k < i ==> is_blank(s[k]),
    ensures
        trim_front(s) == trim_front(s.skip(i)),
    decreases i,
{
    if i > 0 {
        assert(s.drop_first() =~= s.skip(1));
        lemma_trim_front_skip(s.drop_first(), i - 1);
        assert(s.drop_first().skip(i - 1) =~= s.skip(i));
    } else {
        assert(s.skip(0) =~= s);
    }
}

/// Dropping a wholly blank suffix does not change the trimmed back.
proof fn lemma_trim_back_take(s: Seq<char>, j: int)
    requires
        0 <= j <= s.len(),
        forall|k: int| j <= k < s.len() ==> is_blank(s[k]),
    ensures
        trim_back(s) == trim_back(s.take(j)),
    decreases s.len() - j,
{
    if j < s.len() {
        lemma_trim_back_take(s.drop_last(), j);
        assert(s.drop_last().take(j) =~= s.take(j));
    } else {
        assert(s.take(j) =~= s);
    }
}

fn is_blank_char(c: char) -> (r: bool)
    ensures
        r == is_blank(c),
{
    c == ' ' || c == '\t' || c == '\r' || c == '\n'
}

/// `s` without its leading and trailing blanks.
pub fn trim_blank(s: &str) -> (r: String)
    ensures
        r@ == trim_spec(s@),
{
    let n = s.unicode_len();
    let mut i: usize = 0;
    while i < n && is_blank_char(s.get_char(i))
        invariant
            i <= n,
            n == s@.len(),
            forall|k: int| 0 <= k < i ==> is_blank(s@[k]),
        decreases n - i,
    {
        i += 1;
    }
    let mut j: usize = n;
    while j > i && is_blank_char(s.get_char(j - 1))
        invariant
            i <= j <= n,
            n == s@.len(),
            forall|k: int| j <= k < n ==> is_blank(s@[k]),
        decreases j,
    {
        j -= 1;
    }
    let mid = s.substring_char(i, j);
    let r = mid.to_string();
    proof {
        let t = s@.skip(i as int);
        lemma_trim_front_skip(s@, i as int);
        if i < n {
            assert(t[0] == s@[i as int]);
            assert(trim_front(t) == t);
        } else {
            assert(t =~= Seq::<char>::empty());
            assert(trim_front(t) == t);
        }
        lemma_trim_back_take(t, j - i);
        assert(t.take(j - i) =~= s@.subrange(i as int, j as int));
        let m = s@.subrange(i as int, j as int);
        if j > i {
            assert(m.last() == s@[j - 1]);
            assert(trim_back(m) == m);
        } else {
            assert(m =~= Seq::<char>::empty());
            assert(trim_back(m) == m);
        }
        assert(trim_spec(s@) == m);
    }
    r
}

/// Splits `input` at the first occurrence of `sep` and returns the two
/// halves, each without surrounding blanks; `None` when `sep` does not
/// occur.
pub fn split_string(input: &str, sep: char) -> (r: Option<(String, String)>)
    ensures
        match input@.index_of_first(sep) {
            Some(k) => match r {
                Some(pair) => pair.0@ == trim_spec(input@.take(k)) && pair.1@ == trim_spec(
                    input@.skip(k + 1),
                ),
                None => false,
            },
            None => r is None,
        },
{
    let n = input.unicode_len();
    let mut i: usize = 0;
    while i < n && input.get_char(i) != sep
        invariant
            i <= n,
            n == input@.len(),
            forall|k: int| 0 <= k < i ==> input@[k] != sep,
        decreases n - i,
    {
        i += 1;
    }
    proof {
        input@.index_of_first_ensures(sep);
    }
    if i == n {
        proof {
            assert(!input@.contains(sep));
        }
        None
    } else {
        proof {
            assert(input@.contains(sep)) by {
                assert(input@[i as int] == sep);
            }
            let fi: int = input@.index_of_first(sep)->0;
            assert(fi == i) by {
                if fi < i {
                    assert(input@[fi] != sep);
                }
            }
        }
        let left = trim_blank(input.substring_char(0, i));
        let right = trim_blank(input.substring_char(i + 1, n));
        proof {
            assert(input@.subrange(0, i as int) =~= input@.take(i as int));
            assert(input@.subrange(i + 1, n as int) =~= input@.skip(i + 1));
        }
        Some((left, right))
    }
}

/// Reads one line from standard input and returns it without
/// surrounding blanks. The value depends on what the user types, so
/// nothing is promised of it.
pub fn wait_input_sync() -> String {
    let line = read_input_line();
    trim_blank(line.as_str())
}

} // verus!
