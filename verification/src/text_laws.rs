//! What holds of the text forms: numbers are read back from their digits, and the
//! text of a list grows item by item.

use crate::text;
use vstd::prelude::*;

verus! {

/// The number that a text of decimal digits stands for.
pub open spec fn number_of(digits: Seq<char>) -> int
    decreases digits.len(),
{
    if digits.len() == 0 {
        0
    } else {
        10 * number_of(digits.drop_last()) + (digits.last() as int - '0' as int)
    }
}

/// Whether a text is how `n` is usually written: decimal digits without leading
/// zeros.
pub open spec fn is_numeral(digits: Seq<char>, n: int) -> bool {
    &&& digits.len() > 0
    &&& forall|i: int| 0 <= i < digits.len() ==> '0' <= #[trigger] digits[i] <= '9'
    &&& digits.len() > 1 ==> digits[0] != '0'
    &&& number_of(digits) == n
}

/// Whether a text is how `n` is usually written, with a minus sign where it is
/// negative.
pub open spec fn is_signed_numeral(written: Seq<char>, n: int) -> bool {
    if n < 0 {
        written.len() > 0 && written[0] == '-' && is_numeral(written.skip(1), -n)
    } else {
        is_numeral(written, n)
    }
}

/// The number that a text of lower-case hex digits stands for.
pub open spec fn hex_number_of(digits: Seq<char>) -> int
    decreases digits.len(),
{
    if digits.len() == 0 {
        0
    } else {
        let c = digits.last();
        let value = if '0' <= c <= '9' {
            c as int - '0' as int
        } else {
            c as int - 'a' as int + 10
        };
        16 * hex_number_of(digits.drop_last()) + value
    }
}

/// The text of a list of `count` items with one more item at its end.
pub open spec fn one_more(list: Seq<char>, count: nat, item: Seq<char>) -> Seq<char> {
    if count == 0 {
        "["@ + item + "]"@
    } else {
        list.drop_last() + ", "@ + item + "]"@
    }
}

/// The digits of a number stand for that number.
pub proof fn law_decimal_is_read_back(n: nat)
    ensures
        is_numeral(text::decimal(n), n as int),
        n > 0 ==> text::decimal(n)[0] != '0',
    decreases n,
{
    let digits = text::decimal(n);
    text::lemma_decimal_digits(n);
    if n >= 10 {
        law_decimal_is_read_back(n / 10);
        assert(digits.drop_last() == text::decimal(n / 10));
        assert(digits[0] == text::decimal(n / 10)[0]);
    } else {
        assert(digits.drop_last() == Seq::<char>::empty());
        assert(number_of(Seq::<char>::empty()) == 0);
    }
}

/// The digits of a signed number stand for that number.
pub proof fn law_signed_decimal_is_read_back(n: int)
    ensures
        is_signed_numeral(text::signed_decimal(n), n),
{
    if n < 0 {
        law_decimal_is_read_back((-n) as nat);
        assert(text::signed_decimal(n).skip(1) == text::decimal((-n) as nat));
    } else {
        law_decimal_is_read_back(n as nat);
    }
}

/// Appending a number appends its numeral and changes nothing before it.
pub proof fn law_push_decimal_appends_the_number(s: &mut String, n: u64)
    requires
        call_ensures(text::push_decimal, (s, n), ()),
    ensures
        final(s)@.len() > old(s)@.len(),
        final(s)@.take(old(s)@.len() as int) == old(s)@,
        is_numeral(final(s)@.skip(old(s)@.len() as int), n as int),
{
    law_decimal_is_read_back(n as nat);
    assert(final(s)@.skip(old(s)@.len() as int) == text::decimal(n as nat));
}

/// Padded hex stands for what of the number fits its width.
pub proof fn law_padded_hex_is_read_back(n: nat, width: nat)
    ensures
        text::padded_hex(n, width).len() == width,
        hex_number_of(text::padded_hex(n, width)) == n as int % vstd::arithmetic::power::pow(
            16,
            width,
        ),
    decreases width,
{
    reveal(vstd::arithmetic::power::pow);
    if width == 0 {
        assert(n as int % 1 == 0);
    } else {
        let w = (width - 1) as nat;
        law_padded_hex_is_read_back(n / 16, w);
        let digits = text::padded_hex(n, width);
        assert(digits.drop_last() == text::padded_hex(n / 16, w));
        vstd::arithmetic::power::lemma_pow_positive(16, w);
        vstd::arithmetic::div_mod::lemma_breakdown(
            n as int,
            16,
            vstd::arithmetic::power::pow(16, w),
        );
    }
}

/// Appending hex digits of a number appends what of it fits the width, and
/// changes nothing before it.
pub proof fn law_push_padded_hex_appends_the_number(s: &mut String, n: u64, width: u32)
    requires
        call_ensures(text::push_padded_hex, (s, n, width), ()),
    ensures
        final(s)@.len() == old(s)@.len() + width,
        final(s)@.take(old(s)@.len() as int) == old(s)@,
        hex_number_of(final(s)@.skip(old(s)@.len() as int)) == n as int
            % vstd::arithmetic::power::pow(16, width as nat),
        forall|i: int|
            old(s)@.len() <= i < final(s)@.len() ==> ('0' <= #[trigger] final(s)@[i] <= '9' || 'a'
                <= final(s)@[i] <= 'f'),
{
    law_padded_hex_is_read_back(n as nat, width as nat);
    text::lemma_padded_hex_digits(n as nat, width as nat);
    let digits = text::padded_hex(n as nat, width as nat);
    assert(final(s)@.skip(old(s)@.len() as int) == digits);
    assert forall|i: int| old(s)@.len() <= i < final(s)@.len() implies ('0'
        <= #[trigger] final(s)@[i] <= '9' || 'a' <= final(s)@[i] <= 'f') by {
        assert(final(s)@[i] == digits[i - old(s)@.len()]);
    }
}

/// A truth value is appended as the word for it.
pub proof fn law_push_bool_appends_the_word(s: &mut String, b: bool)
    requires
        call_ensures(text::push_bool, (s, b), ()),
    ensures
        b ==> final(s)@ == old(s)@ + "true"@,
        !b ==> final(s)@ == old(s)@ + "false"@,
{
}

/// An option shows whether it holds something, and what.
pub proof fn law_options_show_their_value(value: Option<String>, r: String)
    requires
        call_ensures(text::option_from_text, (&value,), r),
    ensures
        value is None ==> r@ == "None"@,
        value matches Some(v) ==> r@ == "Some("@ + v@ + ")"@,
{
}

/// An optional text shows quoted and escaped.
pub proof fn law_optional_texts_show_quoted(value: Option<String>, r: String)
    requires
        call_ensures(text::debug_option_str, (&value,), r),
    ensures
        value is None ==> r@ == "None"@,
        value matches Some(v) ==> r@ == "Some("@ + text::str_debug(v@) + ")"@,
{
}

/// One more item at the end of a list.
pub proof fn lemma_list_push(items: Seq<Seq<char>>, item: Seq<char>)
    ensures
        text::list_debug(Seq::<Seq<char>>::empty()) == "[]"@,
        text::list_debug(items.push(item)) == one_more(text::list_debug(items), items.len(), item),
{
    reveal_strlit("[");
    reveal_strlit("]");
    reveal_strlit("[]");
    let longer = items.push(item);
    assert(longer.drop_last() == items);
    assert(longer.last() == item);
    let list = text::list_debug(items);
    assert(list.drop_last() == "["@ + text::joined(items));
    if items.len() > 0 {
        text::lemma_append_assoc("["@, text::joined(items) + ", "@, item);
        text::lemma_append_assoc("["@, text::joined(items), ", "@);
    }
}

/// The text of a list grows item by item: no item is left out, and their order is
/// kept.
pub proof fn law_lists_grow_item_by_item(
    items: Vec<String>,
    longer: Vec<String>,
    item: String,
    list: String,
    longer_list: String,
)
    requires
        call_ensures(text::debug_list, (&items,), list),
        call_ensures(text::debug_list, (&longer,), longer_list),
        longer@ == items@.push(item),
    ensures
        items@.len() == 0 ==> list@ == "[]"@,
        longer_list@ == one_more(list@, items@.len(), item@),
{
    assert(text::texts(longer@) == text::texts(items@).push(item@));
    lemma_list_push(text::texts(items@), item@);
    if items@.len() == 0 {
        assert(text::texts(items@) == Seq::<Seq<char>>::empty());
    }
}

proof fn lemma_joined_one_differs(a: Seq<Seq<char>>, b: Seq<Seq<char>>, i: int)
    requires
        0 <= i < a.len(),
        a.len() == b.len(),
        forall|j: int| 0 <= j < a.len() && j != i ==> #[trigger] a[j] == b[j],
        text::joined(a) == text::joined(b),
    ensures
        a[i] == b[i],
    decreases a.len(),
{
    if a.len() > 1 {
        let start_a = text::joined(a.drop_last()) + ", "@;
        let start_b = text::joined(b.drop_last()) + ", "@;
        if i == a.len() - 1 {
            assert(a.drop_last() == b.drop_last());
            text::lemma_cancel_start(start_a, a.last(), b.last());
        } else {
            assert(a.last() == b.last());
            text::lemma_cancel_end(start_a, start_b, a.last());
            text::lemma_cancel_end(
                text::joined(a.drop_last()),
                text::joined(b.drop_last()),
                ", "@,
            );
            lemma_joined_one_differs(a.drop_last(), b.drop_last(), i);
        }
    }
}

/// Each item shows in the text of a list: lists that agree on all items but one
/// and have the same text agree on that one too.
pub proof fn lemma_list_one_differs(a: Seq<Seq<char>>, b: Seq<Seq<char>>, i: int)
    requires
        0 <= i < a.len(),
        a.len() == b.len(),
        forall|j: int| 0 <= j < a.len() && j != i ==> #[trigger] a[j] == b[j],
        text::list_debug(a) == text::list_debug(b),
    ensures
        a[i] == b[i],
{
    text::lemma_cancel_end("["@ + text::joined(a), "["@ + text::joined(b), "]"@);
    text::lemma_cancel_start("["@, text::joined(a), text::joined(b));
    lemma_joined_one_differs(a, b, i);
}

/// The number of items shows: a list that goes on has a longer text, unless all
/// that it goes on with is one empty item after nothing.
pub proof fn lemma_list_longer(a: Seq<Seq<char>>, b: Seq<Seq<char>>)
    requires
        a.len() < b.len(),
        forall|j: int| 0 <= j < a.len() ==> #[trigger] a[j] == b[j],
        a.len() > 0 || b[0].len() > 0,
    ensures
        text::list_debug(a).len() < text::list_debug(b).len(),
    decreases b.len(),
{
    reveal_strlit("[");
    reveal_strlit("]");
    reveal_strlit(", ");
    let shorter = b.drop_last();
    assert(shorter.push(b.last()) == b);
    lemma_list_push(shorter, b.last());
    if a.len() < shorter.len() {
        assert forall|j: int| 0 <= j < a.len() implies #[trigger] a[j] == shorter[j] by {
            assert(a[j] == b[j]);
        }
        lemma_list_longer(a, shorter);
    } else {
        assert forall|j: int| 0 <= j < a.len() implies #[trigger] a[j] == shorter[j] by {
            assert(a[j] == b[j]);
        }
        assert(a == shorter);
    }
}

} // verus!
