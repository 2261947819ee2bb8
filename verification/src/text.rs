//! Numbers written as text.

use vstd::prelude::*;
use vstd::string::StringExecFns;

verus! {

/// The decimal digit of the value `d`, which is below 10, as a character.
pub open spec fn spec_digit_char(d: nat) -> char {
    ((0x30 + d) as u8) as char
}

/// The number `n` written in decimal digits, without leading zeros.
pub open spec fn spec_decimal_text(n: nat) -> Seq<char>
    decreases n,
{
    if n < 10 {
        seq![spec_digit_char(n)]
    } else {
        spec_decimal_text(n / 10).push(spec_digit_char(n % 10))
    }
}

/// The decimal digit of the value `d`, as text.
fn digit_text(d: usize) -> (r: &'static str)
    requires
        d < 10,
    ensures
        r@ == seq![spec_digit_char(d as nat)],
{
    proof {
        reveal_strlit("0");
        reveal_strlit("1");
        reveal_strlit("2");
        reveal_strlit("3");
        reveal_strlit("4");
        reveal_strlit("5");
        reveal_strlit("6");
        reveal_strlit("7");
        reveal_strlit("8");
        reveal_strlit("9");
    }
    let r = match d {
        0 => "0",
        1 => "1",
        2 => "2",
        3 => "3",
        4 => "4",
        5 => "5",
        6 => "6",
        7 => "7",
        8 => "8",
        _ => "9",
    };
    r
}

/// Writes the number `n` in decimal digits, without leading zeros.
pub fn decimal_text(n: usize) -> (r: String)
    ensures
        r@ == spec_decimal_text(n as nat),
    decreases n,
{
    if n < 10 {
        String::from_str(digit_text(n))
    } else {
        let head = decimal_text(n / 10);
        let r = head.concat(digit_text(n % 10));
        r
    }
}

/// The texts `items` one after the other, with `separator` between them.
pub open spec fn spec_join(items: Seq<Seq<char>>, separator: Seq<char>) -> Seq<char>
    decreases items.len(),
{
    if items.len() == 0 {
        Seq::<char>::empty()
    } else if items.len() == 1 {
        items[0]
    } else {
        spec_join(items.drop_last(), separator) + separator + items.last()
    }
}

/// Writes the texts `items` one after the other, with `separator` between
/// them.
pub fn join(items: &Vec<String>, separator: &str) -> (r: String)
    ensures
        r@ == spec_join(items.deep_view(), separator@),
{
    let ghost all = items.deep_view();
    let mut joined = String::new();
    let mut k: usize = 0;
    while k < items.len()
        invariant
            k <= items.len(),
            all == items.deep_view(),
            all.len() == items.len(),
            joined@ == spec_join(all.take(k as int), separator@),
        decreases items.len() - k,
    {
        let item = &items[k];
        proof {
            let next = all.take(k + 1);
            assert(next.drop_last() == all.take(k as int));
        }
        if k > 0 {
            joined = joined.concat(separator).concat(item.as_str());
        } else {
            joined = joined.concat(item.as_str());
        }
        k += 1;
    }
    assert(all.take(k as int) == all);
    joined
}

/// The texts `items` one after the other, each followed by `end`.
pub open spec fn spec_concat_all(items: Seq<Seq<char>>, end: Seq<char>) -> Seq<char>
    decreases items.len(),
{
    if items.len() == 0 {
        Seq::<char>::empty()
    } else {
        spec_concat_all(items.drop_last(), end) + items.last() + end
    }
}

/// Writes the texts `items` one after the other, each followed by `end`.
pub fn concat_all(items: &Vec<String>, end: &str) -> (r: String)
    ensures
        r@ == spec_concat_all(items.deep_view(), end@),
{
    let ghost all = items.deep_view();
    let mut whole = String::new();
    let mut k: usize = 0;
    while k < items.len()
        invariant
            k <= items.len(),
            all == items.deep_view(),
            all.len() == items.len(),
            whole@ == spec_concat_all(all.take(k as int), end@),
        decreases items.len() - k,
    {
        let item = &items[k];
        proof {
            let next = all.take(k + 1);
            assert(next.drop_last() == all.take(k as int));
        }
        whole = whole.concat(item.as_str()).concat(end);
        k += 1;
    }
    assert(all.take(k as int) == all);
    whole
}

} // verus!
