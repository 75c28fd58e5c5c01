//! Text building blocks: decimal rendering of integers, `Debug`-style quoting
//! and joining, each specified over `Seq<char>`.

use vstd::prelude::*;

verus! {

/// The ASCII digit for a value below ten.
pub open spec fn digit_char(d: nat) -> char {
    if d == 0 { '0' }
    else if d == 1 { '1' }
    else if d == 2 { '2' }
    else if d == 3 { '3' }
    else if d == 4 { '4' }
    else if d == 5 { '5' }
    else if d == 6 { '6' }
    else if d == 7 { '7' }
    else if d == 8 { '8' }
    else { '9' }
}

/// The decimal notation of a natural number, without sign or leading zeros.
pub open spec fn decimal(n: nat) -> Seq<char>
    decreases n,
{
    if n < 10 {
        seq![digit_char(n)]
    } else {
        decimal(n / 10).push(digit_char(n % 10))
    }
}

fn digit(d: u64) -> (r: &'static str)
    requires
        d < 10,
    ensures
        r@ == seq![digit_char(d as nat)],
{
    proof {
        reveal_strlit("0");
        reveal_strlit("1");
        reveal_strlit("2");
        reveal_strlit("3");
        reveal_strlit("4");
        reveal_strlit("5");
        reveal_strlit("6");
        reveal_strlit("7");
        reveal_strlit("8");
        reveal_strlit("9");
    }
    if d == 0 { "0" }
    else if d == 1 { "1" }
    else if d == 2 { "2" }
    else if d == 3 { "3" }
    else if d == 4 { "4" }
    else if d == 5 { "5" }
    else if d == 6 { "6" }
    else if d == 7 { "7" }
    else if d == 8 { "8" }
    else { "9" }
}

/// Appends the character `c`, one of the brackets `[`, `]`, `{` and `}`.
pub(crate) fn push_bracket(s: &mut String, c: char)
    requires
        c == '[' || c == ']' || c == '{' || c == '}',
    ensures
        final(s)@ == old(s)@.push(c),
{
    proof {
        reveal_strlit("[");
        reveal_strlit("]");
        reveal_strlit("{");
        reveal_strlit("}");
    }
    if c == '[' {
        s.append("[");
    } else if c == ']' {
        s.append("]");
    } else if c == '{' {
        s.append("{");
    } else {
        s.append("}");
    }
}

/// The number a string of characters denotes when read as a base-10
/// numeral, each character counting as its distance from `'0'`.
pub open spec fn numeral_value(s: Seq<char>) -> int
    decreases s.len(),
{
    if s.len() == 0 {
        0
    } else {
        numeral_value(s.drop_last()) * 10 + (s.last() as int - '0' as int)
    }
}

/// Every character of `s` is one of the ASCII digits `0` to `9`.
pub open spec fn all_ascii_digits(s: Seq<char>) -> bool {
    forall|i: int| 0 <= i < s.len() ==> ('0' as int) <= #[trigger] (s[i] as int) <= ('9' as int)
}

/// The digit for `d` is the character `d` places after `'0'`.
pub proof fn lemma_digit_char(d: nat)
    requires
        d < 10,
    ensures
        digit_char(d) as int == '0' as int + d,
{
}

/// `decimal(n)` is the base-10 numeral of `n`: it is made of ASCII digits,
/// reads back as `n`, and has no leading zero. Hence distinct numbers have
/// distinct notations.
pub proof fn lemma_decimal_notation(n: nat)
    ensures
        all_ascii_digits(decimal(n)),
        numeral_value(decimal(n)) == n,
        decimal(n).len() >= 1,
        n >= 1 ==> decimal(n)[0] != '0',
    decreases n,
{
    if n < 10 {
        lemma_digit_char(n);
        assert(decimal(n).drop_last() =~= Seq::<char>::empty());
        assert(numeral_value(decimal(n)) == numeral_value(Seq::<char>::empty()) * 10
            + (decimal(n).last() as int - '0' as int));
    } else {
        let prev = decimal(n / 10);
        lemma_decimal_notation(n / 10);
        lemma_digit_char(n % 10);
        assert(decimal(n).drop_last() =~= prev);
        assert(decimal(n).last() == digit_char(n % 10));
        assert(numeral_value(decimal(n)) == numeral_value(prev) * 10 + (n % 10));
        assert((n / 10) * 10 + n % 10 == n);
        assert(decimal(n)[0] == prev[0]);
        assert forall|i: int| 0 <= i < decimal(n).len() implies
            ('0' as int) <= #[trigger] (decimal(n)[i] as int) <= ('9' as int) by {
            if i < prev.len() {
                assert(decimal(n)[i] == prev[i]);
            }
        }
    }
}

/// Distinct numbers have distinct decimal notations.
pub proof fn lemma_decimal_injective(a: nat, b: nat)
    requires
        decimal(a) == decimal(b),
    ensures
        a == b,
{
    lemma_decimal_notation(a);
    lemma_decimal_notation(b);
}

/// Appends the decimal notation of `n` to `s`.
pub fn push_decimal(s: &mut String, n: u64)
    ensures
        final(s)@ == old(s)@ + decimal(n as nat),
    decreases n,
{
    if n >= 10 {
        push_decimal(s, n / 10);
    }
    s.append(digit(n % 10));
    assert(n >= 10 ==> decimal(n as nat) == decimal((n / 10) as nat).push(digit_char((n % 10) as nat)));
}

/// What `{:?}` prints for a string: the string in double quotes, with
/// quotes, backslashes and non-printable characters escaped.
pub uninterp spec fn debug_quoted(s: Seq<char>) -> Seq<char>;

/// The `{:?}` rendering of a string (`<str as Debug>::fmt`).
#[verifier::external_body]
pub(crate) fn debug_quote(s: &str) -> (r: String)
    ensures
        r@ == debug_quoted(s@),
{
    format!("{:?}", s)
}

/// `items` joined with `sep` between neighbours.
pub open spec fn join(items: Seq<Seq<char>>, sep: Seq<char>) -> Seq<char>
    decreases items.len(),
{
    if items.len() == 0 {
        Seq::empty()
    } else if items.len() == 1 {
        items[0]
    } else {
        join(items.drop_last(), sep) + sep + items.last()
    }
}

/// One step of `join`: adding an item at the end.
pub proof fn lemma_join_push(items: Seq<Seq<char>>, sep: Seq<char>, x: Seq<char>)
    ensures
        join(items.push(x), sep) == (if items.len() == 0 { x } else { join(items, sep) + sep + x }),
{
    assert(items.push(x).drop_last() =~= items);
}

/// `{:?}` of a list of strings: `["a", "b"]`.
pub open spec fn debug_list(items: Seq<Seq<char>>) -> Seq<char> {
    seq!['['] + join(items.map_values(|x: Seq<char>| debug_quoted(x)), ", "@) + seq![']']
}

/// Appends `{:?}` of a list of strings to `out`.
pub fn push_debug_list(out: &mut String, items: &Vec<String>)
    ensures
        final(out)@ == old(out)@ + debug_list(items@.map_values(|x: String| x@)),
{
    let ghost start = out@;
    let ghost views = items@.map_values(|x: String| x@);
    let ghost quoted = views.map_values(|x: Seq<char>| debug_quoted(x));
    push_bracket(out, '[');
    let mut i: usize = 0;
    while i < items.len()
        invariant
            i <= items.len(),
            views == items@.map_values(|x: String| x@),
            quoted == views.map_values(|x: Seq<char>| debug_quoted(x)),
            out@ == start + seq!['['] + join(quoted.take(i as int), ", "@),
        decreases items.len() - i,
    {
        let q = debug_quote(items[i].as_str());
        proof {
            lemma_join_push(quoted.take(i as int), ", "@, quoted[i as int]);
            assert(quoted.take(i as int).push(quoted[i as int]) =~= quoted.take(i + 1));
        }
        if i > 0 {
            out.append(", ");
        }
        out.append(q.as_str());
        i = i + 1;
    }
    assert(quoted.take(i as int) =~= quoted);
    push_bracket(out, ']');
    assert(out@ =~= start + debug_list(views));
}

} // verus!
