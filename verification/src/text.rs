//! Text building blocks: decimal numerals, joining lines, substrings.
use vstd::prelude::*;

verus! {

/// The character of a decimal digit.
pub open spec fn digit_char(d: nat) -> char {
    if d == 0 { '0' }
    else if d == 1 { '1' }
    else if d == 2 { '2' }
    else if d == 3 { '3' }
    else if d == 4 { '4' }
    else if d == 5 { '5' }
    else if d == 6 { '6' }
    else if d == 7 { '7' }
    else if d == 8 { '8' }
    else { '9' }
}

/// The value of a decimal digit character (10 for any other character).
pub open spec fn char_digit(c: char) -> nat {
    if c == '0' { 0 }
    else if c == '1' { 1 }
    else if c == '2' { 2 }
    else if c == '3' { 3 }
    else if c == '4' { 4 }
    else if c == '5' { 5 }
    else if c == '6' { 6 }
    else if c == '7' { 7 }
    else if c == '8' { 8 }
    else if c == '9' { 9 }
    else { 10 }
}

/// The decimal numeral of `n`: no sign, no leading zero.
pub open spec fn decimal(n: nat) -> Seq<char>
    decreases n,
{
    if n < 10 {
        seq![digit_char(n)]
    } else {
        decimal(n / 10).push(digit_char(n % 10))
    }
}

/// The number that a string of decimal digits denotes.
pub open spec fn numeral_value(s: Seq<char>) -> nat
    decreases s.len(),
{
    if s.len() == 0 {
        0
    } else {
        numeral_value(s.drop_last()) * 10 + char_digit(s.last())
    }
}

fn digit(d: u64) -> (c: &'static str)
    requires
        d < 10,
    ensures
        c@ == seq![digit_char(d as nat)],
{
    if d == 0 {
        proof { reveal_strlit("0"); }
        "0"
    } else if d == 1 {
        proof { reveal_strlit("1"); }
        "1"
    } else if d == 2 {
        proof { reveal_strlit("2"); }
        "2"
    } else if d == 3 {
        proof { reveal_strlit("3"); }
        "3"
    } else if d == 4 {
        proof { reveal_strlit("4"); }
        "4"
    } else if d == 5 {
        proof { reveal_strlit("5"); }
        "5"
    } else if d == 6 {
        proof { reveal_strlit("6"); }
        "6"
    } else if d == 7 {
        proof { reveal_strlit("7"); }
        "7"
    } else if d == 8 {
        proof { reveal_strlit("8"); }
        "8"
    } else {
        proof { reveal_strlit("9"); }
        "9"
    }
}

/// The decimal numeral of `n`, as `n.to_string()` writes it.
pub fn decimal_string(n: u64) -> (s: String)
    ensures
        s@ == decimal(n as nat),
    decreases n,
{
    if n < 10 {
        let mut s = String::new();
        s.append(digit(n));
        assert(s@ =~= seq![digit_char(n as nat)]);
        s
    } else {
        let mut s = decimal_string(n / 10);
        s.append(digit(n % 10));
        s
    }
}

/// A decimal numeral is made of digits only, has no leading zero, and it
/// denotes the number it was written for: reading `decimal(n)` back gives `n`.
pub proof fn lemma_decimal_round_trip(n: nat)
    ensures
        decimal(n).len() >= 1,
        forall|i: int| 0 <= i < decimal(n).len() ==> char_digit(#[trigger] decimal(n)[i]) < 10,
        numeral_value(decimal(n)) == n,
        n > 0 ==> decimal(n)[0] != '0',
    decreases n,
{
    if n < 10 {
        let s = decimal(n);
        assert(s.drop_last() =~= Seq::<char>::empty());
        assert(numeral_value(s.drop_last()) == 0);
    } else {
        lemma_decimal_round_trip(n / 10);
        let s = decimal(n);
        assert(s.drop_last() =~= decimal(n / 10));
        assert(n == (n / 10) * 10 + n % 10);
    }
}

} // verus!

verus! {

/// The texts of `items` with `sep` between each two of them.
pub open spec fn join(items: Seq<Seq<char>>, sep: Seq<char>) -> Seq<char>
    decreases items.len(),
{
    if items.len() == 0 {
        Seq::empty()
    } else if items.len() == 1 {
        items[0]
    } else {
        join(items.drop_last(), sep) + sep + items.last()
    }
}

/// `items.join(sep)`.
pub fn join_strings(items: &Vec<String>, sep: &str) -> (res: String)
    ensures
        res@ == join(items.deep_view(), sep@),
{
    let mut res = String::new();
    let n = items.len();
    for i in 0..n
        invariant
            n == items.len(),
            res@ == join(items.deep_view().take(i as int), sep@),
    {
        let ghost prefix = items.deep_view().take(i as int);
        let ghost next = items.deep_view().take(i + 1);
        assert(next.drop_last() =~= prefix);
        assert(next.last() == items[i as int]@);
        if i != 0 {
            res.append(sep);
        } else {
            assert(next =~= seq![items[i as int]@]);
        }
        res.append(items[i].as_str());
    }
    assert(items.deep_view().take(n as int) =~= items.deep_view());
    res
}

} // verus!

verus! {

/// `needle` occurs in `hay` as a run of consecutive characters.
pub open spec fn contains(hay: Seq<char>, needle: Seq<char>) -> bool {
    exists|i: int| 0 <= i && i + needle.len() <= hay.len() && #[trigger] hay.subrange(i, i + needle.len()) == needle
}

/// A text occurs in any text that is built around it.
pub proof fn lemma_contains_middle(a: Seq<char>, b: Seq<char>, c: Seq<char>)
    ensures
        contains(a + b + c, b),
{
    let h = a + b + c;
    assert(h.subrange(a.len() as int, (a.len() + b.len()) as int) =~= b);
}

/// Occurrence carries over to a longer text: what occurs in `b` occurs in
/// `a + b + c`.
pub proof fn lemma_contains_within(a: Seq<char>, b: Seq<char>, c: Seq<char>, needle: Seq<char>)
    requires
        contains(b, needle),
    ensures
        contains(a + b + c, needle),
{
    let i = choose|i: int| 0 <= i && i + needle.len() <= b.len() && #[trigger] b.subrange(i, i + needle.len()) == needle;
    let h = a + b + c;
    assert(h.subrange(a.len() + i, a.len() + i + needle.len()) =~= b.subrange(i, i + needle.len()));
}

/// Joining one more item appends the separator and the item.
pub proof fn lemma_join_push(items: Seq<Seq<char>>, sep: Seq<char>, x: Seq<char>)
    ensures
        join(items.push(x), sep) == if items.len() == 0 { x } else { join(items, sep) + sep + x },
{
    if items.len() == 0 {
        assert(items.push(x) =~= seq![x]);
    } else {
        assert(items.push(x).drop_last() =~= items);
    }
}

/// Every item of a joined list occurs in the joined text.
pub proof fn lemma_join_contains_item(items: Seq<Seq<char>>, sep: Seq<char>, k: int)
    requires
        0 <= k < items.len(),
    ensures
        contains(join(items, sep), items[k]),
    decreases items.len(),
{
    if items.len() == 1 {
        lemma_contains_middle(Seq::empty(), items[0], Seq::empty());
        assert(Seq::<char>::empty() + items[0] + Seq::<char>::empty() =~= items[0]);
    } else if k == items.len() - 1 {
        lemma_contains_middle(join(items.drop_last(), sep) + sep, items.last(), Seq::empty());
        assert(join(items.drop_last(), sep) + sep + items.last() + Seq::<char>::empty()
            =~= join(items, sep));
    } else {
        lemma_join_contains_item(items.drop_last(), sep, k);
        lemma_contains_within(Seq::empty(), join(items.drop_last(), sep), sep + items.last(), items[k]);
        assert(Seq::<char>::empty() + join(items.drop_last(), sep) + (sep + items.last())
            =~= join(items, sep));
    }
}

} // verus!

verus! {

/// Calls `String::push`, which appends the character at the end of the
/// string: the contract claims the new text is the old one followed by `c`.
#[verifier::external_body]
fn push_char(s: &mut String, c: char)
    ensures
        final(s)@ == old(s)@.push(c),
{
    s.push(c)
}

/// A lowercase hexadecimal digit of a value below 16.
pub open spec fn hex_digit(d: nat) -> char {
    if d < 10 {
        digit_char(d)
    } else if d == 10 {
        'a'
    } else if d == 11 {
        'b'
    } else if d == 12 {
        'c'
    } else if d == 13 {
        'd'
    } else if d == 14 {
        'e'
    } else {
        'f'
    }
}

fn hex_char(d: u8) -> (c: char)
    requires
        d < 16,
    ensures
        c == hex_digit(d as nat),
{
    if d == 0 { '0' }
    else if d == 1 { '1' }
    else if d == 2 { '2' }
    else if d == 3 { '3' }
    else if d == 4 { '4' }
    else if d == 5 { '5' }
    else if d == 6 { '6' }
    else if d == 7 { '7' }
    else if d == 8 { '8' }
    else if d == 9 { '9' }
    else if d == 10 { 'a' }
    else if d == 11 { 'b' }
    else if d == 12 { 'c' }
    else if d == 13 { 'd' }
    else if d == 14 { 'e' }
    else { 'f' }
}

/// How one byte is shown in a byte-string escape: `\n \r \t \\ \" \0`
/// for those bytes, printable ASCII as itself, any other byte as `\x` and
/// two lowercase hex digits.
pub open spec fn escaped_byte(b: u8) -> Seq<char> {
    if b == 10 {
        seq!['\\', 'n']
    } else if b == 13 {
        seq!['\\', 'r']
    } else if b == 9 {
        seq!['\\', 't']
    } else if b == 92 {
        seq!['\\', '\\']
    } else if b == 34 {
        seq!['\\', '"']
    } else if b == 0 {
        seq!['\\', '0']
    } else if 0x20 <= b < 0x7f {
        seq![b as char]
    } else {
        seq!['\\', 'x', hex_digit((b / 16) as nat), hex_digit((b % 16) as nat)]
    }
}

/// The escapes of a run of bytes, in order.
pub open spec fn escaped_bytes(bs: Seq<u8>) -> Seq<char>
    decreases bs.len(),
{
    if bs.len() == 0 {
        Seq::empty()
    } else {
        escaped_bytes(bs.drop_last()) + escaped_byte(bs.last())
    }
}

fn push_escaped_byte(s: &mut String, b: u8)
    ensures
        final(s)@ == old(s)@ + escaped_byte(b),
{
    if b == 10 {
        s.append("\\n");
        proof { reveal_strlit("\\n"); }
    } else if b == 13 {
        s.append("\\r");
        proof { reveal_strlit("\\r"); }
    } else if b == 9 {
        s.append("\\t");
        proof { reveal_strlit("\\t"); }
    } else if b == 92 {
        s.append("\\\\");
        proof { reveal_strlit("\\\\"); }
    } else if b == 34 {
        s.append("\\\"");
        proof { reveal_strlit("\\\""); }
    } else if b == 0 {
        s.append("\\0");
        proof { reveal_strlit("\\0"); }
    } else if 0x20 <= b && b < 0x7f {
        push_char(s, b as char);
    } else {
        s.append("\\x");
        proof { reveal_strlit("\\x"); }
        push_char(s, hex_char(b / 16));
        push_char(s, hex_char(b % 16));
    }
    assert(final(s)@ =~= old(s)@ + escaped_byte(b));
}

/// The bytes of `bs` written with byte-string escapes.
pub fn escape_bytes(bs: &[u8]) -> (res: String)
    ensures
        res@ == escaped_bytes(bs@),
{
    let mut res = String::new();
    let n = bs.len();
    for i in 0..n
        invariant
            n == bs@.len(),
            res@ == escaped_bytes(bs@.take(i as int)),
    {
        assert(bs@.take(i + 1).drop_last() =~= bs@.take(i as int));
        push_escaped_byte(&mut res, bs[i]);
    }
    assert(bs@.take(n as int) =~= bs@);
    res
}

} // verus!
