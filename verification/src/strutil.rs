//! Verified string building: decimal rendering of numbers, joining filter
//! lists, and title sanitization.

use vstd::prelude::*;

verus! {

/// Relies on `String::push` from std: it appends the given character to the
/// end of the string.
#[verifier::external_body]
pub(crate) fn push_char(s: &mut String, c: char)
    ensures
        final(s)@ == old(s)@.push(c),
{
    s.push(c);
}

/// Append a borrowed argument to an argument list.
pub(crate) fn push_arg(args: &mut Vec<String>, a: &str)
    ensures
        final(args).deep_view() == old(args).deep_view().push(a@),
{
    args.push(String::from_str(a));
    proof {
        assert(final(args).deep_view() =~= old(args).deep_view().push(a@));
    }
}

/// Append an owned argument to an argument list.
pub(crate) fn push_owned(args: &mut Vec<String>, a: String)
    ensures
        final(args).deep_view() == old(args).deep_view().push(a@),
{
    let ghost av = a@;
    args.push(a);
    proof {
        assert(final(args).deep_view() =~= old(args).deep_view().push(av));
    }
}

/// Append a whole argument list.
pub(crate) fn append_args(args: &mut Vec<String>, mut other: Vec<String>)
    ensures
        final(args).deep_view() == old(args).deep_view() + other.deep_view(),
{
    let ghost ov = other.deep_view();
    args.append(&mut other);
    proof {
        assert(final(args).deep_view() =~= old(args).deep_view() + ov);
    }
}

/// The decimal digit character of a value below ten.
pub open spec fn spec_digit_char(d: int) -> char {
    if d == 0 {
        '0'
    } else if d == 1 {
        '1'
    } else if d == 2 {
        '2'
    } else if d == 3 {
        '3'
    } else if d == 4 {
        '4'
    } else if d == 5 {
        '5'
    } else if d == 6 {
        '6'
    } else if d == 7 {
        '7'
    } else if d == 8 {
        '8'
    } else {
        '9'
    }
}

/// The decimal rendering of a nonnegative integer, without leading zeros
/// (a lone zero for 0).
pub open spec fn spec_decimal(n: int) -> Seq<char>
    decreases n,
{
    if n < 10 {
        seq![spec_digit_char(n)]
    } else {
        spec_decimal(n / 10).push(spec_digit_char(n % 10))
    }
}

fn digit_char(d: u64) -> (c: char)
    requires
        d < 10,
    ensures
        c == spec_digit_char(d as int),
{
    match d {
        0 => '0',
        1 => '1',
        2 => '2',
        3 => '3',
        4 => '4',
        5 => '5',
        6 => '6',
        7 => '7',
        8 => '8',
        _ => '9',
    }
}

/// Render a number in decimal.
pub fn u64_to_string(n: u64) -> (s: String)
    ensures
        s@ == spec_decimal(n as int),
    decreases n,
{
    if n < 10 {
        let mut s = String::new();
        push_char(&mut s, digit_char(n));
        proof {
            assert(s@ =~= spec_decimal(n as int));
        }
        s
    } else {
        let mut s = u64_to_string(n / 10);
        push_char(&mut s, digit_char(n % 10));
        s
    }
}

/// The parts joined with the separator between consecutive parts.
pub open spec fn spec_join(parts: Seq<Seq<char>>, sep: Seq<char>) -> Seq<char>
    decreases parts.len(),
{
    if parts.len() == 0 {
        Seq::empty()
    } else if parts.len() == 1 {
        parts[0]
    } else {
        parts[0] + sep + spec_join(parts.drop_first(), sep)
    }
}

/// Appending one more part to a joined list appends a separator (when the
/// list was nonempty) and the part.
proof fn lemma_join_push(parts: Seq<Seq<char>>, sep: Seq<char>, x: Seq<char>)
    ensures
        spec_join(parts.push(x), sep) == if parts.len() == 0 {
            x
        } else {
            (spec_join(parts, sep) + sep + x)
        },
    decreases parts.len(),
{
    if parts.len() == 0 {
        assert(parts.push(x) =~= seq![x]);
        assert(spec_join(seq![x], sep) == x);
    } else {
        lemma_join_push(parts.drop_first(), sep, x);
        assert(parts.push(x).drop_first() =~= parts.drop_first().push(x));
        if parts.len() == 1 {
            assert(parts.drop_first().len() == 0);
            assert(spec_join(parts, sep) == parts[0]);
            assert(spec_join(parts.push(x), sep) =~= parts[0] + sep + x);
        } else {
            assert(spec_join(parts.push(x), sep) =~= spec_join(parts, sep) + sep + x);
        }
    }
}

/// Join the parts with the separator.
pub fn join(parts: &Vec<String>, sep: &str) -> (r: String)
    ensures
        r@ == spec_join(parts.deep_view(), sep@),
{
    let mut r = String::new();
    let mut i: usize = 0;
    while i < parts.len()
        invariant
            i <= parts.len(),
            parts.deep_view().len() == parts.len(),
            r@ == spec_join(parts.deep_view().take(i as int), sep@),
        decreases parts.len() - i,
    {
        proof {
            lemma_join_push(parts.deep_view().take(i as int), sep@, parts.deep_view()[i as int]);
            assert(parts.deep_view().take(i as int).push(parts.deep_view()[i as int]) =~= parts
                .deep_view()
                .take(i + 1));
            assert(parts.deep_view()[i as int] == parts[i as int]@);
        }
        if i > 0 {
            r.append(sep);
        }
        r.append(parts[i].as_str());
        i += 1;
    }
    proof {
        assert(parts.deep_view().take(parts.len() as int) =~= parts.deep_view());
    }
    r
}

/// Title sanitization for use in a file name: path separators become
/// hyphens and spaces become underscores.
pub open spec fn spec_sanitize_char(c: char) -> char {
    if c == '/' {
        '-'
    } else if c == ' ' {
        '_'
    } else {
        c
    }
}

/// The title with every character sanitized.
pub open spec fn spec_sanitize(s: Seq<char>) -> Seq<char> {
    s.map_values(|c: char| spec_sanitize_char(c))
}

/// Sanitize a title for use as the stem of the output file name.
pub fn sanitize_title(title: &str) -> (r: String)
    ensures
        r@ == spec_sanitize(title@),
{
    let n = title.unicode_len();
    let mut r = String::new();
    let mut i: usize = 0;
    while i < n
        invariant
            i <= n,
            n == title@.len(),
            r@ == spec_sanitize(title@.take(i as int)),
        decreases n - i,
    {
        let c = title.get_char(i);
        let c2 = if c == '/' {
            '-'
        } else if c == ' ' {
            '_'
        } else {
            c
        };
        push_char(&mut r, c2);
        proof {
            assert(spec_sanitize(title@.take(i + 1)) =~= spec_sanitize(title@.take(i as int)).push(
                spec_sanitize_char(title@[i as int]),
            ));
        }
        i += 1;
    }
    proof {
        assert(title@.take(n as int) =~= title@);
    }
    r
}

} // verus!
