//! Addresses of remote fetches: `<query id>/<stage number>/<consumer>`.
use vstd::prelude::*;

verus! {

pub open spec fn digit_char(d: nat) -> char {
    if d == 0 { '0' }
    else if d == 1 { '1' }
    else if d == 2 { '2' }
    else if d == 3 { '3' }
    else if d == 4 { '4' }
    else if d == 5 { '5' }
    else if d == 6 { '6' }
    else if d == 7 { '7' }
    else if d == 8 { '8' }
    else { '9' }
}

/// Decimal digits of `n`, most significant first.
pub open spec fn decimal(n: nat) -> Seq<char>
    decreases n,
{
    if n < 10 {
        seq![digit_char(n)]
    } else {
        decimal(n / 10).push(digit_char(n % 10))
    }
}

/// The address under which the consumer `consumer` receives the rows of
/// stage number `stage` of query `query_id`.
pub open spec fn fetch_name_of(query_id: Seq<char>, stage: nat, consumer: Seq<char>) -> Seq<char> {
    query_id + seq!['/'] + decimal(stage) + seq!['/'] + consumer
}

fn digit_str(d: usize) -> (r: &'static str)
    requires
        d < 10,
    ensures
        r@ == seq![digit_char(d as nat)],
{
    proof {
        reveal_strlit("0");
        reveal_strlit("1");
        reveal_strlit("2");
        reveal_strlit("3");
        reveal_strlit("4");
        reveal_strlit("5");
        reveal_strlit("6");
        reveal_strlit("7");
        reveal_strlit("8");
        reveal_strlit("9");
    }
    if d == 0 { "0" }
    else if d == 1 { "1" }
    else if d == 2 { "2" }
    else if d == 3 { "3" }
    else if d == 4 { "4" }
    else if d == 5 { "5" }
    else if d == 6 { "6" }
    else if d == 7 { "7" }
    else if d == 8 { "8" }
    else { "9" }
}

/// Decimal representation of `n`.
pub fn decimal_string(n: usize) -> (r: String)
    ensures
        r@ == decimal(n as nat),
    decreases n,
{
    if n < 10 {
        String::from_str(digit_str(n))
    } else {
        let head = decimal_string(n / 10);
        head.concat(digit_str(n % 10))
    }
}

/// Builds the fetch address of stage `stage` of `query_id` for `consumer`.
pub fn fetch_name(query_id: &String, stage: usize, consumer: &String) -> (r: String)
    ensures
        r@ == fetch_name_of(query_id@, stage as nat, consumer@),
{
    proof {
        reveal_strlit("/");
    }
    let digits = decimal_string(stage);
    let r = query_id.clone().concat("/").concat(digits.as_str()).concat("/").concat(consumer.as_str());
    r
}

} // verus!
