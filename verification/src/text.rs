//! The text forms that stage keys, harvest records and tags are written in.

use vstd::prelude::*;

verus! {

/// `String::push` appends one character.
pub assume_specification[ String::push ](s: &mut String, c: char)
    ensures
        final(s)@ == old(s)@.push(c),
;

/// What `Debug` of `str` writes: the text in double quotes, with quotes,
/// backslashes and unprintable characters escaped.
pub uninterp spec fn str_debug(text: Seq<char>) -> Seq<char>;

/// `format!("{:?}", text)`, that is `<str as Debug>::fmt`. The contract claims
/// only that the result is determined by the text.
#[verifier::external_body]
pub(crate) fn debug_str(text: &str) -> (r: String)
    ensures
        r@ == str_debug(text@),
{
    format!("{:?}", text)
}

/// The character of a digit below sixteen, in lower case.
pub open spec fn digit_char(digit: nat) -> char {
    if digit < 10 {
        ('0' as nat + digit) as char
    } else {
        ('a' as nat + digit - 10) as char
    }
}

/// `n` in base ten, without leading zeros.
pub open spec fn decimal(n: nat) -> Seq<char>
    decreases n,
{
    if n < 10 {
        seq![digit_char(n)]
    } else {
        decimal(n / 10).push(digit_char(n % 10))
    }
}

/// `n` in base ten, with a minus sign where it is negative.
pub open spec fn signed_decimal(n: int) -> Seq<char> {
    if n < 0 {
        seq!['-'] + decimal((-n) as nat)
    } else {
        decimal(n as nat)
    }
}

/// The last `width` digits of `n` in base sixteen, zeros included.
pub open spec fn padded_hex(n: nat, width: nat) -> Seq<char>
    decreases width,
{
    if width == 0 {
        Seq::empty()
    } else {
        padded_hex(n / 16, (width - 1) as nat).push(digit_char(n % 16))
    }
}

/// `true` or `false`.
pub open spec fn bool_text(b: bool) -> Seq<char> {
    if b {
        "true"@
    } else {
        "false"@
    }
}

/// The items one after the other, with `", "` between them.
pub open spec fn joined(items: Seq<Seq<char>>) -> Seq<char>
    decreases items.len(),
{
    if items.len() == 0 {
        Seq::empty()
    } else if items.len() == 1 {
        items[0]
    } else {
        joined(items.drop_last()) + ", "@ + items.last()
    }
}

/// What `Debug` of a slice writes, given what it writes of each item.
pub open spec fn list_debug(items: Seq<Seq<char>>) -> Seq<char> {
    "["@ + joined(items) + "]"@
}

/// The texts that a sequence of strings holds.
pub open spec fn texts(strings: Seq<String>) -> Seq<Seq<char>> {
    Seq::new(strings.len(), |i: int| strings[i]@)
}

/// The text that an optional string holds.
pub open spec fn option_text(string: Option<String>) -> Option<Seq<char>> {
    match string {
        Some(s) => Some(s@),
        None => None,
    }
}

/// What `Debug` of an option writes, given what it writes of the value.
pub open spec fn option_debug(value: Option<Seq<char>>) -> Seq<char> {
    match value {
        Some(v) => "Some("@ + v + ")"@,
        None => "None"@,
    }
}

/// What `Debug` of an optional text writes.
pub open spec fn option_str_debug(text: Option<Seq<char>>) -> Seq<char> {
    match text {
        Some(t) => option_debug(Some(str_debug(t))),
        None => option_debug(None),
    }
}

fn digit(d: u64) -> (c: char)
    requires
        d < 16,
    ensures
        c == digit_char(d as nat),
{
    if d == 0 {
        '0'
    } else if d == 1 {
        '1'
    } else if d == 2 {
        '2'
    } else if d == 3 {
        '3'
    } else if d == 4 {
        '4'
    } else if d == 5 {
        '5'
    } else if d == 6 {
        '6'
    } else if d == 7 {
        '7'
    } else if d == 8 {
        '8'
    } else if d == 9 {
        '9'
    } else if d == 10 {
        'a'
    } else if d == 11 {
        'b'
    } else if d == 12 {
        'c'
    } else if d == 13 {
        'd'
    } else if d == 14 {
        'e'
    } else {
        'f'
    }
}

/// Appends `n` in base ten.
pub fn push_decimal(s: &mut String, n: u64)
    ensures
        final(s)@ == old(s)@ + decimal(n as nat),
    decreases n,
{
    if n >= 10 {
        push_decimal(s, n / 10);
    }
    s.push(digit(n % 10));
}

/// Appends the last `width` digits of `n` in base sixteen.
pub fn push_padded_hex(s: &mut String, n: u64, width: u32)
    ensures
        final(s)@ == old(s)@ + padded_hex(n as nat, width as nat),
    decreases width,
{
    if width > 0 {
        push_padded_hex(s, n / 16, width - 1);
        s.push(digit(n % 16));
    }
}

/// Appends `true` or `false`.
pub fn push_bool(s: &mut String, b: bool)
    ensures
        final(s)@ == old(s)@ + bool_text(b),
{
    if b {
        s.append("true");
    } else {
        s.append("false");
    }
}

/// What `Debug` of an option writes, from what it writes of the value.
pub fn option_from_text(value: &Option<String>) -> (r: String)
    ensures
        r@ == option_debug(option_text(*value)),
{
    let mut r = String::new();
    match value {
        Some(v) => {
            r.append("Some(");
            r.append(v.as_str());
            r.append(")");
        },
        None => {
            r.append("None");
        },
    }
    r
}

/// What `Debug` of an optional text writes.
pub fn debug_option_str(text: &Option<String>) -> (r: String)
    ensures
        r@ == option_str_debug(option_text(*text)),
{
    match text {
        Some(t) => option_from_text(&Some(debug_str(t.as_str()))),
        None => option_from_text(&None),
    }
}

/// What `Debug` of a slice writes, from what it writes of each item.
pub fn debug_list(items: &Vec<String>) -> (r: String)
    ensures
        r@ == list_debug(texts(items@)),
{
    let mut r = String::new();
    r.append("[");
    let mut i: usize = 0;
    while i < items.len()
        invariant
            i <= items.len(),
            r@ == "["@ + joined(texts(items@).take(i as int)),
        decreases items.len() - i,
    {
        proof {
            lemma_joined_step(texts(items@), i as int);
        }
        if i > 0 {
            r.append(", ");
        }
        r.append(items[i].as_str());
        i += 1;
    }
    proof {
        assert(texts(items@).take(i as int) == texts(items@));
    }
    r.append("]");
    r
}

/// One more item at the end of a joined list.
proof fn lemma_joined_step(items: Seq<Seq<char>>, i: int)
    requires
        0 <= i < items.len(),
    ensures
        joined(items.take(i + 1)) == if i == 0 {
            items[0]
        } else {
            joined(items.take(i)) + ", "@ + items[i]
        },
{
    assert(items.take(i + 1).drop_last() == items.take(i));
}

/// Padded hex has the asked width and holds hex digits only.
pub proof fn lemma_padded_hex_digits(n: nat, width: nat)
    ensures
        padded_hex(n, width).len() == width,
        forall|i: int|
            0 <= i < width ==> ('0' <= #[trigger] padded_hex(n, width)[i] <= '9' || 'a'
                <= padded_hex(n, width)[i] <= 'f'),
    decreases width,
{
    if width > 0 {
        lemma_padded_hex_digits(n / 16, (width - 1) as nat);
    }
}

/// Padded hex tells apart the numbers that fit its width.
pub proof fn lemma_padded_hex_injective(a: nat, b: nat, width: nat)
    requires
        padded_hex(a, width) == padded_hex(b, width),
        a < vstd::arithmetic::power::pow(16, width),
        b < vstd::arithmetic::power::pow(16, width),
    ensures
        a == b,
    decreases width,
{
    reveal(vstd::arithmetic::power::pow);
    if width > 0 {
        let w = (width - 1) as nat;
        let pa = padded_hex(a / 16, w);
        let pb = padded_hex(b / 16, w);
        assert(pa.push(digit_char(a % 16)).drop_last() == pa);
        assert(pb.push(digit_char(b % 16)).drop_last() == pb);
        assert(pa.push(digit_char(a % 16)).last() == digit_char(a % 16));
        assert(pb.push(digit_char(b % 16)).last() == digit_char(b % 16));
        lemma_padded_hex_injective(a / 16, b / 16, w);
    }
}

/// A number in base ten is not empty and holds digits only.
pub proof fn lemma_decimal_digits(n: nat)
    ensures
        decimal(n).len() > 0,
        forall|i: int| 0 <= i < decimal(n).len() ==> '0' <= #[trigger] decimal(n)[i] <= '9',
    decreases n,
{
    if n >= 10 {
        lemma_decimal_digits(n / 10);
    }
}

/// Base ten tells all numbers apart.
pub proof fn lemma_decimal_injective(a: nat, b: nat)
    requires
        decimal(a) == decimal(b),
    ensures
        a == b,
    decreases a,
{
    assert(decimal(a).last() == digit_char(a % 10));
    assert(decimal(b).last() == digit_char(b % 10));
    if a >= 10 || b >= 10 {
        if a >= 10 {
            lemma_decimal_digits(a / 10);
        }
        if b >= 10 {
            lemma_decimal_digits(b / 10);
        }
        assert(a >= 10 && b >= 10);
        assert(decimal(a).drop_last() == decimal(a / 10));
        assert(decimal(b).drop_last() == decimal(b / 10));
        lemma_decimal_injective(a / 10, b / 10);
    }
}

/// Two texts that agree after some point agree before it.
pub proof fn lemma_cancel_end(a: Seq<char>, b: Seq<char>, end: Seq<char>)
    requires
        a + end == b + end,
    ensures
        a == b,
{
    assert((a + end).len() == a.len() + end.len());
    assert((b + end).len() == b.len() + end.len());
    assert forall|i: int| 0 <= i < a.len() implies a[i] == b[i] by {
        assert((a + end)[i] == a[i]);
        assert((b + end)[i] == b[i]);
    }
    assert(a =~= b);
}

/// Two texts that agree up to some point agree after it.
pub proof fn lemma_cancel_start(start: Seq<char>, a: Seq<char>, b: Seq<char>)
    requires
        start + a == start + b,
    ensures
        a == b,
{
    assert((start + a).skip(start.len() as int) == a);
    assert((start + b).skip(start.len() as int) == b);
}

/// A number that stands at the end of a text, after something other than a
/// digit, can be read back.
pub proof fn lemma_number_at_end(a: Seq<char>, m: nat, b: Seq<char>, n: nat)
    requires
        a + decimal(m) == b + decimal(n),
        a.len() > 0,
        b.len() > 0,
        !('0' <= a.last() <= '9'),
        !('0' <= b.last() <= '9'),
    ensures
        a == b,
        m == n,
{
    lemma_decimal_digits(m);
    lemma_decimal_digits(n);
    let whole_a = a + decimal(m);
    let whole_b = b + decimal(n);
    assert(whole_a.len() == a.len() + decimal(m).len());
    assert(whole_b.len() == b.len() + decimal(n).len());
    assert(whole_a[a.len() - 1] == a.last());
    assert(whole_b[b.len() - 1] == b.last());
    if a.len() < b.len() {
        assert(whole_a[b.len() - 1] == decimal(m)[b.len() - 1 - a.len()]);
    } else if b.len() < a.len() {
        assert(whole_b[a.len() - 1] == decimal(n)[a.len() - 1 - b.len()]);
    }
    assert(whole_a.skip(a.len() as int) == decimal(m));
    assert(whole_b.skip(b.len() as int) == decimal(n));
    lemma_cancel_end(a, b, decimal(m));
    lemma_decimal_injective(m, n);
}

/// `true` or `false` at the end of a text can be read back.
pub proof fn lemma_bool_at_end(a: Seq<char>, x: bool, b: Seq<char>, y: bool)
    requires
        a + bool_text(x) == b + bool_text(y),
    ensures
        a == b,
        x == y,
{
    reveal_strlit("true");
    reveal_strlit("false");
    let whole_a = a + bool_text(x);
    let whole_b = b + bool_text(y);
    assert(whole_a[whole_a.len() - 2] == bool_text(x)[bool_text(x).len() - 2]);
    assert(whole_b[whole_b.len() - 2] == bool_text(y)[bool_text(y).len() - 2]);
    lemma_cancel_end(a, b, bool_text(x));
}

/// Appending is associative.
pub proof fn lemma_append_assoc(a: Seq<char>, b: Seq<char>, c: Seq<char>)
    ensures
        a + b + c == a + (b + c),
{
}

} // verus!
