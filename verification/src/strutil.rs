//! Verified building blocks for the string manipulation the generator needs:
//! equality, concatenation, joining path/package segments, locating and
//! replacing separator characters, and rendering small numbers in decimal.

use vstd::prelude::*;
use vstd::string::*;

verus! {

/// Relies on std's String::push: appends exactly the one character `c` at the
/// end of the string.
#[verifier::external_body]
pub fn push_char(s: &mut String, c: char)
    ensures
        final(s)@ == old(s)@.push(c),
{
    s.push(c);
}

/// A copy of a vector of strings with the same contents.
pub fn clone_string_vec(v: &Vec<String>) -> (r: Vec<String>)
    ensures
        r.deep_view() == v.deep_view(),
{
    let mut out: Vec<String> = Vec::new();
    let mut i: usize = 0;
    while i < v.len()
        invariant
            i <= v@.len(),
            out@.len() == i,
            forall|j: int| 0 <= j < i ==> out@[j]@ == v@[j]@,
        decreases v@.len() - i,
    {
        out.push(v[i].clone());
        i = i + 1;
    }
    proof {
        assert(out.deep_view() =~= v.deep_view());
    }
    out
}

/// Character-wise string equality, decided executably.
pub fn str_eq(a: &str, b: &str) -> (r: bool)
    ensures
        r == (a@ == b@),
{
    let la = a.unicode_len();
    let lb = b.unicode_len();
    if la != lb {
        assert(a@ != b@) by {
            assert(a@.len() != b@.len());
        }
        return false;
    }
    let mut i: usize = 0;
    while i < la
        invariant
            la == a@.len(),
            la == b@.len(),
            i <= la,
            forall|j: int| 0 <= j < i ==> a@[j] == b@[j],
        decreases la - i,
    {
        if a.get_char(i) != b.get_char(i) {
            return false;
        }
        i = i + 1;
    }
    proof {
        assert(a@ =~= b@);
    }
    true
}

/// Concatenation of two string slices into an owned string.
pub fn str_concat(a: &str, b: &str) -> (r: String)
    ensures
        r@ == a@ + b@,
{
    let mut s = a.to_owned();
    s.append(b);
    s
}

/// True iff `a` starts with `prefix`.
pub fn str_starts_with(a: &str, prefix: &str) -> (r: bool)
    ensures
        r == (a@.len() >= prefix@.len() && a@.subrange(0, prefix@.len() as int) == prefix@),
{
    let la = a.unicode_len();
    let lp = prefix.unicode_len();
    if la < lp {
        return false;
    }
    let head = a.substring_char(0, lp);
    str_eq(head, prefix)
}

/// The index of the last occurrence of `c` in `s`, if any.
pub open spec fn spec_rfind(s: Seq<char>, c: char) -> Option<int>
    decreases s.len(),
{
    if s.len() == 0 {
        None
    } else if s.last() == c {
        Some(s.len() - 1)
    } else {
        spec_rfind(s.drop_last(), c)
    }
}

/// A prefix that still holds every occurrence of `c` has the same last one.
pub proof fn lemma_rfind_prefix(s: Seq<char>, c: char, i: int)
    requires
        0 <= i <= s.len(),
        forall|j: int| i <= j < s.len() ==> s[j] != c,
    ensures
        spec_rfind(s, c) == spec_rfind(s.subrange(0, i), c),
    decreases s.len() - i,
{
    if i < s.len() {
        assert(s.subrange(0, s.len() as int) =~= s);
        lemma_rfind_prefix(s, c, i + 1);
        assert(s.subrange(0, i + 1).drop_last() =~= s.subrange(0, i));
    } else {
        assert(s.subrange(0, i) =~= s);
    }
}

/// Where the last occurrence stands, nothing follows it and `c` is there.
pub proof fn lemma_rfind_is_last(s: Seq<char>, c: char)
    ensures
        match spec_rfind(s, c) {
            Some(i) => 0 <= i < s.len() && s[i] == c && (forall|j: int|
                i < j < s.len() ==> s[j] != c),
            None => forall|j: int| 0 <= j < s.len() ==> s[j] != c,
        },
    decreases s.len(),
{
    if s.len() > 0 && s.last() != c {
        lemma_rfind_is_last(s.drop_last(), c);
        assert(forall|j: int| 0 <= j < s.len() - 1 ==> s.drop_last()[j] == s[j]);
    }
}

/// Index of the last occurrence of `c` in `s`, if any.
pub fn rfind_char(s: &str, c: char) -> (r: Option<usize>)
    ensures
        match r {
            Some(i) => spec_rfind(s@, c) == Some(i as int),
            None => spec_rfind(s@, c) is None,
        },
{
    let n = s.unicode_len();
    let mut i: usize = n;
    while i > 0
        invariant
            n == s@.len(),
            i <= n,
            forall|j: int| i <= j < n ==> s@[j] != c,
        decreases i,
    {
        i = i - 1;
        if s.get_char(i) == c {
            proof {
                lemma_rfind_prefix(s@, c, i + 1 as int);
                assert(s@.subrange(0, i + 1 as int).last() == s@[i as int]);
            }
            return Some(i);
        }
    }
    proof {
        lemma_rfind_prefix(s@, c, 0);
    }
    None
}

/// The leading directory part of a path-like string: everything before the
/// last separator, or empty when there is none.
pub open spec fn spec_parent(s: Seq<char>) -> Seq<char> {
    match spec_rfind(s, '/') {
        Some(i) => s.subrange(0, i),
        None => Seq::empty(),
    }
}

/// The trailing file part of a path-like string: everything after the last
/// separator, or the whole string when there is none.
pub open spec fn spec_file_name(s: Seq<char>) -> Seq<char> {
    match spec_rfind(s, '/') {
        Some(i) => s.subrange(i + 1, s.len() as int),
        None => s,
    }
}

/// The leading directory part of a path-like string.
pub fn parent_of(s: &str) -> (r: String)
    ensures
        r@ == spec_parent(s@),
{
    match rfind_char(s, '/') {
        Some(i) => {
            proof {
                lemma_rfind_is_last(s@, '/');
            }
            s.substring_char(0, i).to_owned()
        },
        None => String::new(),
    }
}

/// The trailing file part of a path-like string.
pub fn file_name_of(s: &str) -> (r: String)
    ensures
        r@ == spec_file_name(s@),
{
    let n = s.unicode_len();
    match rfind_char(s, '/') {
        Some(i) => {
            proof {
                lemma_rfind_is_last(s@, '/');
            }
            s.substring_char(i + 1, n).to_owned()
        },
        None => s.to_owned(),
    }
}

/// Joining a relative component onto a root path: the component alone when
/// the root is empty, with no separator doubled when the root ends in one.
pub open spec fn spec_path_join(root: Seq<char>, name: Seq<char>) -> Seq<char> {
    if root.len() == 0 {
        name
    } else if root.last() == '/' {
        root + name
    } else {
        root + seq!['/'] + name
    }
}

/// Join a relative component onto a root path.
pub fn path_join(root: &str, name: &str) -> (r: String)
    ensures
        r@ == spec_path_join(root@, name@),
{
    let n = root.unicode_len();
    if n == 0 {
        name.to_owned()
    } else if root.get_char(n - 1) == '/' {
        str_concat(root, name)
    } else {
        let mut out = root.to_owned();
        push_char(&mut out, '/');
        out.append(name);
        proof {
            assert(out@ =~= root@ + seq!['/'] + name@);
        }
        out
    }
}

/// The character of one decimal digit.
pub open spec fn spec_digit(d: int) -> char {
    if d == 0 {
        '0'
    } else if d == 1 {
        '1'
    } else if d == 2 {
        '2'
    } else if d == 3 {
        '3'
    } else if d == 4 {
        '4'
    } else if d == 5 {
        '5'
    } else if d == 6 {
        '6'
    } else if d == 7 {
        '7'
    } else if d == 8 {
        '8'
    } else {
        '9'
    }
}

/// The decimal rendering of a non-negative number.
pub open spec fn spec_dec(n: int) -> Seq<char>
    decreases n,
{
    if n < 10 {
        seq![spec_digit(n)]
    } else {
        spec_dec(n / 10).push(spec_digit(n % 10))
    }
}

/// The character of one decimal digit.
fn digit_char_of(d: usize) -> (c: char)
    requires
        d < 10,
    ensures
        c == spec_digit(d as int),
{
    match d {
        0 => '0',
        1 => '1',
        2 => '2',
        3 => '3',
        4 => '4',
        5 => '5',
        6 => '6',
        7 => '7',
        8 => '8',
        _ => '9',
    }
}

/// The decimal rendering of a number.
pub fn usize_to_dec(n: usize) -> (r: String)
    ensures
        r@ == spec_dec(n as int),
    decreases n,
{
    if n < 10 {
        let mut s = String::new();
        push_char(&mut s, digit_char_of(n));
        proof {
            assert(s@ =~= seq![spec_digit(n as int)]);
        }
        s
    } else {
        let mut s = usize_to_dec(n / 10);
        push_char(&mut s, digit_char_of(n % 10));
        s
    }
}

/// The numeric value of one decimal digit character; anything else counts
/// as zero.
pub open spec fn spec_digit_value(c: char) -> int {
    if c == '1' {
        1
    } else if c == '2' {
        2
    } else if c == '3' {
        3
    } else if c == '4' {
        4
    } else if c == '5' {
        5
    } else if c == '6' {
        6
    } else if c == '7' {
        7
    } else if c == '8' {
        8
    } else if c == '9' {
        9
    } else {
        0
    }
}

/// The numeric value of a decimal rendering.
pub open spec fn spec_dec_value(s: Seq<char>) -> int
    decreases s.len(),
{
    if s.len() == 0 {
        0
    } else {
        spec_dec_value(s.drop_last()) * 10 + spec_digit_value(s.last())
    }
}

/// Rendering a number in decimal and reading the text back yields the
/// number: the value transform that carries 64-bit values through text is
/// lossless.
pub proof fn lemma_dec_round_trip(n: int)
    requires
        n >= 0,
    ensures
        spec_dec_value(spec_dec(n)) == n,
    decreases n,
{
    if n < 10 {
        lemma_digit_value(n);
        assert(spec_dec_value(Seq::<char>::empty()) == 0);
        assert(spec_dec(n).drop_last() =~= Seq::<char>::empty());
        assert(spec_dec(n).last() == spec_digit(n));
    } else {
        lemma_dec_round_trip(n / 10);
        lemma_digit_value(n % 10);
        assert(spec_dec(n).drop_last() =~= spec_dec(n / 10));
        assert(spec_dec(n).last() == spec_digit(n % 10));
    }
}

/// Reading a digit character back yields the digit.
proof fn lemma_digit_value(d: int)
    requires
        0 <= d < 10,
    ensures
        spec_digit_value(spec_digit(d)) == d,
{
    if d == 0 {
        assert(spec_digit(0) == '0');
        assert(spec_digit_value('0') == 0);
    }
}

/// Whether some string of the vector has the given characters.
pub fn vec_contains_str(v: &Vec<String>, s: &str) -> (r: bool)
    ensures
        r == v.deep_view().contains(s@),
{
    let mut i: usize = 0;
    while i < v.len()
        invariant
            i <= v@.len(),
            forall|j: int| 0 <= j < i ==> v@[j]@ != s@,
        decreases v@.len() - i,
    {
        if str_eq(v[i].as_str(), s) {
            assert(v.deep_view()[i as int] == s@);
            return true;
        }
        i = i + 1;
    }
    proof {
        assert forall|j: int| 0 <= j < v.deep_view().len() implies v.deep_view()[j] != s@ by {
            assert(v@[j]@ != s@);
        }
    }
    false
}

/// The characters of `s` with every occurrence of `from` replaced by `to`.
pub open spec fn spec_replace_char(s: Seq<char>, from: char, to: char) -> Seq<char> {
    s.map_values(|x: char| if x == from { to } else { x })
}

/// Replace every occurrence of the character `from` with `to`.
pub fn replace_char(s: &str, from: char, to: char) -> (r: String)
    ensures
        r@ == spec_replace_char(s@, from, to),
{
    let n = s.unicode_len();
    let mut out = String::new();
    let mut buf = String::new();
    let mut i: usize = 0;
    while i < n
        invariant
            n == s@.len(),
            i <= n,
            out@ == spec_replace_char(s@.subrange(0, i as int), from, to),
        decreases n - i,
    {
        let piece = s.substring_char(i, i + 1);
        let c = piece.get_char(0);
        proof {
            assert(piece@[0] == s@[i as int]);
        }
        if c == from {
            push_char(&mut out, to);
        } else {
            out.append(piece);
        }
        proof {
            assert(spec_replace_char(s@.subrange(0, i + 1 as int), from, to) =~= spec_replace_char(
                s@.subrange(0, i as int),
                from,
                to,
            ) + spec_replace_char(seq![s@[i as int]], from, to));
            assert(spec_replace_char(seq![s@[i as int]], from, to) =~= seq![
                if s@[i as int] == from {
                    to
                } else {
                    s@[i as int]
                },
            ]);
        }
        i = i + 1;
    }
    proof {
        assert(s@.subrange(0, n as int) =~= s@);
    }
    out
}

/// The joining of a sequence of segments with a separator between neighbours:
/// empty for no segments, and otherwise the first segment followed by
/// separator-prefixed copies of the rest.
pub open spec fn spec_join(segs: Seq<Seq<char>>, sep: Seq<char>) -> Seq<char>
    decreases segs.len(),
{
    if segs.len() == 0 {
        Seq::empty()
    } else if segs.len() == 1 {
        segs[0]
    } else {
        spec_join(segs.drop_last(), sep) + sep + segs.last()
    }
}

/// Join the segments of `segs` with `sep` between neighbours.
pub fn join_strings(segs: &Vec<String>, sep: &str) -> (r: String)
    ensures
        r@ == spec_join(segs.deep_view(), sep@),
{
    let ghost model = segs.deep_view();
    let mut out = String::new();
    let mut i: usize = 0;
    while i < segs.len()
        invariant
            i <= segs@.len(),
            model == segs.deep_view(),
            out@ == spec_join(model.subrange(0, i as int), sep@),
        decreases segs@.len() - i,
    {
        if i > 0 {
            out.append(sep);
        }
        out.append(segs[i].as_str());
        proof {
            let pre = model.subrange(0, i as int);
            let post = model.subrange(0, i + 1 as int);
            assert(post.drop_last() =~= pre);
            assert(post.last() == model[i as int]);
            if i == 0 {
                assert(post.len() == 1);
                assert(spec_join(post, sep@) == model[0]);
            }
        }
        i = i + 1;
    }
    proof {
        assert(model.subrange(0, segs@.len() as int) =~= model);
    }
    out
}

} // verus!
