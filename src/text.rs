use vstd::prelude::*;

verus! {

/// The character that writes the decimal digit `d`.
pub open spec fn digit_char(d: nat) -> char {
    if d == 0 {
        '0'
    } else if d == 1 {
        '1'
    } else if d == 2 {
        '2'
    } else if d == 3 {
        '3'
    } else if d == 4 {
        '4'
    } else if d == 5 {
        '5'
    } else if d == 6 {
        '6'
    } else if d == 7 {
        '7'
    } else if d == 8 {
        '8'
    } else {
        '9'
    }
}

/// The decimal form of `n`: no sign, no leading zeros, `"0"` for zero.
pub open spec fn decimal_of(n: nat) -> Seq<char>
    decreases n,
{
    if n < 10 {
        seq![digit_char(n)]
    } else {
        decimal_of(n / 10).push(digit_char(n % 10))
    }
}

fn digit_str(d: u32) -> (r: &'static str)
    requires
        d < 10,
    ensures
        r@ == seq![digit_char(d as nat)],
{
    proof {
        reveal_strlit("0");
        reveal_strlit("1");
        reveal_strlit("2");
        reveal_strlit("3");
        reveal_strlit("4");
        reveal_strlit("5");
        reveal_strlit("6");
        reveal_strlit("7");
        reveal_strlit("8");
        reveal_strlit("9");
    }
    if d == 0 {
        "0"
    } else if d == 1 {
        "1"
    } else if d == 2 {
        "2"
    } else if d == 3 {
        "3"
    } else if d == 4 {
        "4"
    } else if d == 5 {
        "5"
    } else if d == 6 {
        "6"
    } else if d == 7 {
        "7"
    } else if d == 8 {
        "8"
    } else {
        "9"
    }
}

/// Writes `n` in decimal.
pub fn to_decimal(n: u32) -> (r: String)
    ensures
        r@ == decimal_of(n as nat),
    decreases n,
{
    if n < 10 {
        String::from_str(digit_str(n))
    } else {
        let mut s = to_decimal(n / 10);
        s.append(digit_str(n % 10));
        s
    }
}

/// `base`, a slash, then `route`.
pub open spec fn endpoint_url_of(base: Seq<char>, route: Seq<char>) -> Seq<char> {
    base + seq!['/'] + route
}

/// The address of `route` under the controller's base address.
pub fn endpoint_url(base: &str, route: &str) -> (r: String)
    ensures
        r@ == endpoint_url_of(base@, route@),
{
    proof {
        reveal_strlit("/");
    }
    let mut url = String::from_str(base);
    url.append("/");
    url.append(route);
    url
}

/// The value of an `Authorization` header that carries `token` as a bearer
/// credential.
pub open spec fn bearer_of(token: Seq<char>) -> Seq<char> {
    seq!['B', 'e', 'a', 'r', 'e', 'r', ' '] + token
}

/// Builds the `Authorization` value for `token`.
pub fn bearer_credential(token: &str) -> (r: String)
    ensures
        r@ == bearer_of(token@),
{
    proof {
        reveal_strlit("Bearer ");
    }
    let mut value = String::from_str("Bearer ");
    value.append(token);
    value
}

} // verus!
