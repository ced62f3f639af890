//! Decimal text of integers and the `<namespace>.<field>` form of parameter names.
use vstd::prelude::*;
use vstd::string::*;

verus! {

/// The views of a list of strings.
pub open spec fn views(v: Seq<String>) -> Seq<Seq<char>> {
    v.map_values(|s: String| s@)
}

/// The character of decimal digit `d`.
pub open spec fn digit_char(d: int) -> char {
    if d == 0 {
        '0'
    } else if d == 1 {
        '1'
    } else if d == 2 {
        '2'
    } else if d == 3 {
        '3'
    } else if d == 4 {
        '4'
    } else if d == 5 {
        '5'
    } else if d == 6 {
        '6'
    } else if d == 7 {
        '7'
    } else if d == 8 {
        '8'
    } else {
        '9'
    }
}

/// The decimal digits of `n`, without leading zeros.
pub open spec fn nat_text(n: nat) -> Seq<char>
    decreases n,
{
    if n < 10 {
        seq![digit_char(n as int)]
    } else {
        nat_text((n / 10) as nat) + seq![digit_char((n % 10) as int)]
    }
}

/// The decimal text of `n`, with a leading `-` when it is negative.
pub open spec fn int_text(n: int) -> Seq<char> {
    if n < 0 {
        seq!['-'] + nat_text((-n) as nat)
    } else {
        nat_text(n as nat)
    }
}

fn digit_str(d: u64) -> (r: &'static str)
    requires
        d < 10,
    ensures
        r@ == seq![digit_char(d as int)],
{
    proof {
        reveal_strlit("0");
        reveal_strlit("1");
        reveal_strlit("2");
        reveal_strlit("3");
        reveal_strlit("4");
        reveal_strlit("5");
        reveal_strlit("6");
        reveal_strlit("7");
        reveal_strlit("8");
        reveal_strlit("9");
    }
    let r = if d == 0 {
        "0"
    } else if d == 1 {
        "1"
    } else if d == 2 {
        "2"
    } else if d == 3 {
        "3"
    } else if d == 4 {
        "4"
    } else if d == 5 {
        "5"
    } else if d == 6 {
        "6"
    } else if d == 7 {
        "7"
    } else if d == 8 {
        "8"
    } else {
        "9"
    };
    assert(r@ =~= seq![digit_char(d as int)]);
    r
}

fn push_digits(n: u64, out: &mut String)
    ensures
        final(out)@ == old(out)@ + nat_text(n as nat),
    decreases n,
{
    if n >= 10 {
        push_digits(n / 10, out);
    }
    out.append(digit_str(n % 10));
    assert(final(out)@ =~= old(out)@ + nat_text(n as nat));
}

/// The decimal text of an unsigned integer.
pub fn u64_text(n: u64) -> (r: String)
    ensures
        r@ == int_text(n as int),
{
    let mut s = String::new();
    push_digits(n, &mut s);
    assert(s@ =~= nat_text(n as nat));
    s
}

/// The decimal text of a signed integer.
pub fn i64_text(n: i64) -> (r: String)
    ensures
        r@ == int_text(n as int),
{
    let mut s = String::new();
    if n < 0 {
        s.append("-");
        proof {
            reveal_strlit("-");
        }
        let m: u64 = (0i128 - n as i128) as u64;
        push_digits(m, &mut s);
        assert(s@ =~= seq!['-'] + nat_text((-n) as nat));
    } else {
        push_digits(n as u64, &mut s);
        assert(s@ =~= nat_text(n as nat));
    }
    s
}

/// `i` is the position of the first `.` in `s`.
pub open spec fn is_first_dot(s: Seq<char>, i: int) -> bool {
    &&& 0 <= i < s.len()
    &&& s[i] == '.'
    &&& forall|j: int| 0 <= j < i ==> s[j] != '.'
}

/// `s` holds a `.`: it has the form `<namespace>.<field>`.
pub open spec fn is_namespaced(s: Seq<char>) -> bool {
    exists|i: int| 0 <= i < s.len() && s[i] == '.'
}

/// The position of the first `.` in a namespaced name.
pub open spec fn first_dot(s: Seq<char>) -> int {
    choose|i: int| is_first_dot(s, i)
}

/// The namespace of a namespaced name: what stands before its first `.`.
pub open spec fn namespace_of(s: Seq<char>) -> Seq<char> {
    s.take(first_dot(s))
}

/// The field of a name: what stands after its first `.`, or the whole name.
pub open spec fn field_of(s: Seq<char>) -> Seq<char> {
    if is_namespaced(s) {
        s.skip(first_dot(s) + 1)
    } else {
        s
    }
}

/// The first dot is unique, and there is one in every namespaced name.
pub proof fn lemma_first_dot(s: Seq<char>, i: int)
    requires
        is_first_dot(s, i),
    ensures
        is_namespaced(s),
        first_dot(s) == i,
{
    assert(is_first_dot(s, first_dot(s)));
    let k = first_dot(s);
    if k < i {
        assert(s[k] != '.');
    } else if i < k {
        assert(s[i] != '.');
    }
}

/// Finds the first `.` of `s`, if any.
pub fn find_dot(s: &str) -> (r: Option<usize>)
    ensures
        r is None <==> !is_namespaced(s@),
        r matches Some(i) ==> is_first_dot(s@, i as int),
{
    let n = s.unicode_len();
    let mut i: usize = 0;
    while i < n
        invariant
            n == s@.len(),
            0 <= i <= n,
            forall|j: int| 0 <= j < i ==> s@[j] != '.',
        decreases n - i,
    {
        if s.get_char(i) == '.' {
            return Some(i);
        }
        i += 1;
    }
    None
}

/// Splits a parameter name into its namespace, if any, and its field.
pub fn split_name(s: &str) -> (r: (Option<String>, String))
    ensures
        r.0 is None <==> !is_namespaced(s@),
        r.0 matches Some(ns) ==> ns@ == namespace_of(s@),
        r.1@ == field_of(s@),
{
    match find_dot(s) {
        None => (None, s.to_string()),
        Some(i) => {
            proof {
                lemma_first_dot(s@, i as int);
            }
            let n = s.unicode_len();
            let ns = s.substring_char(0, i).to_string();
            let field = s.substring_char(i + 1, n).to_string();
            assert(ns@ =~= namespace_of(s@));
            assert(field@ =~= field_of(s@));
            (Some(ns), field)
        },
    }
}

} // verus!
