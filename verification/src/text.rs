//! Text building blocks shared by every emitter: numerals, template
//! substitution and joining.
use vstd::prelude::*;
use vstd::std_specs::iter::IteratorSpec;
use vstd::string::*;

verus! {

/// `String::push` appends one character to the end of the string.
pub assume_specification[ String::push ](s: &mut String, c: char)
    ensures
        final(s)@ == old(s)@.push(c),
;

/// The character that stands for the digit `d` in bases up to sixteen.
pub open spec fn digit_char(d: nat) -> char
    recommends
        d < 16,
{
    if d == 0 {
        '0'
    } else if d == 1 {
        '1'
    } else if d == 2 {
        '2'
    } else if d == 3 {
        '3'
    } else if d == 4 {
        '4'
    } else if d == 5 {
        '5'
    } else if d == 6 {
        '6'
    } else if d == 7 {
        '7'
    } else if d == 8 {
        '8'
    } else if d == 9 {
        '9'
    } else if d == 10 {
        'a'
    } else if d == 11 {
        'b'
    } else if d == 12 {
        'c'
    } else if d == 13 {
        'd'
    } else if d == 14 {
        'e'
    } else {
        'f'
    }
}

/// The decimal numeral of `n`, most significant digit first, without
/// leading zeros; zero is the single digit `0`.
pub open spec fn decimal(n: nat) -> Seq<char>
    decreases n,
{
    if n < 10 {
        seq![digit_char(n)]
    } else {
        decimal(n / 10).push(digit_char(n % 10))
    }
}

/// The lower-case hexadecimal numeral of `n`, without leading zeros.
pub open spec fn hexadecimal(n: nat) -> Seq<char>
    decreases n,
{
    if n < 16 {
        seq![digit_char(n)]
    } else {
        hexadecimal(n / 16).push(digit_char(n % 16))
    }
}

/// The text of a boolean: `true` or `false`.
pub open spec fn boolean(b: bool) -> Seq<char> {
    if b {
        "true"@
    } else {
        "false"@
    }
}

/// `template` with every occurrence of the placeholder `{}` replaced by
/// `value`, scanning from the left.
pub open spec fn fill(template: Seq<char>, value: Seq<char>) -> Seq<char>
    decreases template.len(),
{
    if template.len() == 0 {
        Seq::empty()
    } else if template.len() >= 2 && template[0] == '{' && template[1] == '}' {
        value + fill(template.skip(2), value)
    } else {
        seq![template[0]] + fill(template.skip(1), value)
    }
}

/// The template that is nothing but the placeholder leaves a value as
/// it is.
pub proof fn lemma_identity_template(value: Seq<char>)
    ensures
        fill("{}"@, value) == value,
{
    reveal_strlit("{}");
    reveal_with_fuel(fill, 2);
    assert("{}"@.skip(2) =~= Seq::<char>::empty());
    assert(value + Seq::<char>::empty() =~= value);
}

/// The parts in order with `separator` between each two neighbours.
pub open spec fn joined(parts: Seq<Seq<char>>, separator: Seq<char>) -> Seq<char>
    decreases parts.len(),
{
    if parts.len() == 0 {
        Seq::empty()
    } else if parts.len() == 1 {
        parts[0]
    } else {
        joined(parts.drop_last(), separator) + separator + parts.last()
    }
}

/// `text` with `width` spaces inserted after every line feed.
pub open spec fn indented(text: Seq<char>, width: nat) -> Seq<char>
    decreases text.len(),
{
    if text.len() == 0 {
        Seq::empty()
    } else if text.last() == '\n' {
        indented(text.drop_last(), width).push('\n') + Seq::new(width, |i: int| ' ')
    } else {
        indented(text.drop_last(), width).push(text.last())
    }
}

fn digit(d: u64) -> (c: char)
    requires
        d < 16,
    ensures
        c == digit_char(d as nat),
{
    if d == 0 {
        '0'
    } else if d == 1 {
        '1'
    } else if d == 2 {
        '2'
    } else if d == 3 {
        '3'
    } else if d == 4 {
        '4'
    } else if d == 5 {
        '5'
    } else if d == 6 {
        '6'
    } else if d == 7 {
        '7'
    } else if d == 8 {
        '8'
    } else if d == 9 {
        '9'
    } else if d == 10 {
        'a'
    } else if d == 11 {
        'b'
    } else if d == 12 {
        'c'
    } else if d == 13 {
        'd'
    } else if d == 14 {
        'e'
    } else {
        'f'
    }
}

fn push_decimal(out: &mut String, n: usize)
    ensures
        final(out)@ == old(out)@ + decimal(n as nat),
    decreases n,
{
    if n < 10 {
        out.push(digit(n as u64));
    } else {
        push_decimal(out, n / 10);
        out.push(digit((n % 10) as u64));
    }
}

fn push_hexadecimal(out: &mut String, n: u64)
    ensures
        final(out)@ == old(out)@ + hexadecimal(n as nat),
    decreases n,
{
    if n < 16 {
        out.push(digit(n));
    } else {
        push_hexadecimal(out, n / 16);
        out.push(digit(n % 16));
    }
}

/// Writes `n` as a decimal numeral.
pub fn decimal_string(n: usize) -> (s: String)
    ensures
        s@ == decimal(n as nat),
{
    let mut out = String::new();
    push_decimal(&mut out, n);
    out
}

/// Writes `n` as a lower-case hexadecimal numeral.
pub fn hexadecimal_string(n: u64) -> (s: String)
    ensures
        s@ == hexadecimal(n as nat),
{
    let mut out = String::new();
    push_hexadecimal(&mut out, n);
    out
}

/// Writes a boolean as `true` or `false`.
pub fn boolean_string(b: bool) -> (s: String)
    ensures
        s@ == boolean(b),
{
    if b {
        String::from_str("true")
    } else {
        String::from_str("false")
    }
}

/// Whether two texts are the same.
pub fn same(a: &str, b: &str) -> (r: bool)
    ensures
        r == (a@ == b@),
{
    String::from_str(a).eq(&String::from_str(b))
}

/// The characters of `s`, in order.
pub fn chars_of(s: &str) -> (v: Vec<char>)
    ensures
        v@ == s@,
{
    broadcast use vstd::string::group_string_axioms;

    let mut out: Vec<char> = Vec::new();
    let mut it = s.chars();
    let ghost mut idx: int = 0;
    loop
        invariant
            0 <= idx <= s@.len(),
            it.obeys_prophetic_iter_laws(),
            it.remaining() == s@.skip(idx),
            out@ == s@.take(idx),
        ensures
            out@ == s@,
        decreases s@.len() - idx,
    {
        match it.next() {
            Some(c) => {
                out.push(c);
                proof {
                    assert(s@.take(idx + 1) == s@.take(idx).push(s@[idx]));
                    assert(s@.skip(idx).drop_first() == s@.skip(idx + 1));
                    idx = idx + 1;
                }
            },
            None => {
                assert(s@.take(idx) == s@);
                break ;
            },
        }
    }
    out
}

/// Replaces every `{}` in `template` by `value`.
pub fn substitute(template: &str, value: &str) -> (s: String)
    ensures
        s@ == fill(template@, value@),
{
    let chars = chars_of(template);
    let mut out = String::new();
    let mut i: usize = 0;
    assert(chars@.skip(0) == chars@);
    while i < chars.len()
        invariant
            0 <= i <= chars.len(),
            chars@ == template@,
            out@ + fill(chars@.skip(i as int), value@) == fill(template@, value@),
        decreases chars.len() - i,
    {
        let ghost rest = chars@.skip(i as int);
        let ghost before = out@;
        if chars[i] == '{' && i + 1 < chars.len() && chars[i + 1] == '}' {
            out.append(value);
            proof {
                assert(rest.skip(2) == chars@.skip(i + 2));
                assert(before + (value@ + fill(rest.skip(2), value@)) == (before + value@) + fill(
                    rest.skip(2),
                    value@,
                ));
            }
            i = i + 2;
        } else {
            out.push(chars[i]);
            proof {
                assert(rest.skip(1) == chars@.skip(i + 1));
                assert(before + (seq![rest[0]] + fill(rest.skip(1), value@)) == before.push(rest[0])
                    + fill(rest.skip(1), value@));
            }
            i = i + 1;
        }
    }
    out
}

/// Joins `parts` with `separator` between neighbours.
pub fn join(parts: &Vec<String>, separator: &str) -> (s: String)
    ensures
        s@ == joined(parts.deep_view(), separator@),
{
    let mut out = String::new();
    let mut i: usize = 0;
    while i < parts.len()
        invariant
            0 <= i <= parts.len(),
            out@ == joined(parts.deep_view().take(i as int), separator@),
        decreases parts.len() - i,
    {
        let ghost before = parts.deep_view().take(i as int);
        let ghost after = parts.deep_view().take(i + 1);
        if i > 0 {
            out.append(separator);
        }
        out.append(parts[i].as_str());
        proof {
            assert(after.drop_last() == before);
            assert(after.last() == parts[i as int]@);
        }
        i = i + 1;
    }
    proof {
        assert(parts.deep_view().take(parts.len() as int) == parts.deep_view());
    }
    out
}

/// Appends `text` to the list `lines`.
pub fn push_text(lines: &mut Vec<String>, text: String)
    ensures
        final(lines).deep_view() == old(lines).deep_view().push(text@),
{
    let ghost before = lines.deep_view();
    lines.push(text);
    assert(lines.deep_view() =~= before.push(text@));
}

/// Appends a copy of every text of `more` to the list `lines`.
pub fn extend_texts(lines: &mut Vec<String>, more: &Vec<String>)
    ensures
        final(lines).deep_view() == old(lines).deep_view() + more.deep_view(),
{
    let ghost before = lines.deep_view();
    let mut i: usize = 0;
    assert(more.deep_view().take(0) =~= Seq::<Seq<char>>::empty());
    assert(before + Seq::<Seq<char>>::empty() =~= before);
    while i < more.len()
        invariant
            0 <= i <= more.len(),
            lines.deep_view() == before + more.deep_view().take(i as int),
        decreases more.len() - i,
    {
        push_text(lines, more[i].clone());
        assert(more.deep_view().take(i + 1) =~= more.deep_view().take(i as int).push(more[i as int]@));
        assert(before + more.deep_view().take(i + 1) =~= (before + more.deep_view().take(i as int)).push(
            more[i as int]@,
        ));
        i = i + 1;
    }
    assert(more.deep_view().take(more.len() as int) =~= more.deep_view());
}

/// Inserts `width` spaces after every line feed of `text`.
pub fn indent(text: &str, width: usize) -> (s: String)
    ensures
        s@ == indented(text@, width as nat),
{
    let chars = chars_of(text);
    let mut out = String::new();
    let mut i: usize = 0;
    while i < chars.len()
        invariant
            0 <= i <= chars.len(),
            chars@ == text@,
            out@ == indented(text@.take(i as int), width as nat),
        decreases chars.len() - i,
    {
        let ghost before = text@.take(i as int);
        let ghost after = text@.take(i + 1);
        proof {
            assert(after.drop_last() == before);
            assert(after.last() == chars[i as int]);
        }
        out.push(chars[i]);
        if chars[i] == '\n' {
            let ghost base = out@;
            let mut k: usize = 0;
            while k < width
                invariant
                    0 <= k <= width,
                    out@ == base + Seq::new(k as nat, |j: int| ' '),
                decreases width - k,
            {
                out.push(' ');
                k = k + 1;
            }
        }
        i = i + 1;
    }
    proof {
        assert(text@.take(chars.len() as int) == text@);
    }
    out
}

} // verus!
