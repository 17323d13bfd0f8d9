use vstd::prelude::*;

verus! {

/// The character of a decimal digit.
pub open spec fn digit_char(d: int) -> char {
    (48 + d) as char
}

/// The decimal representation of a natural number, most significant digit
/// first, without leading zeros ("0" for zero).
pub open spec fn decimal(n: nat) -> Seq<char>
    decreases n,
{
    if n < 10 {
        seq![digit_char(n as int)]
    } else {
        decimal(n / 10).push(digit_char((n % 10) as int))
    }
}

/// The prefix of every peer id.
pub open spec fn peer_id_prefix() -> Seq<char> {
    seq!['p', 'e', 'e', 'r', '_', '_']
}

/// The id given to the peer that connected from `port`.
pub open spec fn peer_id_of(port: u16) -> Seq<char> {
    peer_id_prefix() + decimal(port as nat)
}

/// The one-character string of a decimal digit.
fn digit_str(d: u16) -> (s: &'static str)
    requires
        d < 10,
    ensures
        s@ == seq![digit_char(d as int)],
{
    proof {
        reveal_strlit("0");
        reveal_strlit("1");
        reveal_strlit("2");
        reveal_strlit("3");
        reveal_strlit("4");
        reveal_strlit("5");
        reveal_strlit("6");
        reveal_strlit("7");
        reveal_strlit("8");
        reveal_strlit("9");
    }
    if d == 0 {
        "0"
    } else if d == 1 {
        "1"
    } else if d == 2 {
        "2"
    } else if d == 3 {
        "3"
    } else if d == 4 {
        "4"
    } else if d == 5 {
        "5"
    } else if d == 6 {
        "6"
    } else if d == 7 {
        "7"
    } else if d == 8 {
        "8"
    } else {
        "9"
    }
}

/// Appends the decimal representation of `n` to `s`.
pub fn push_decimal(s: &mut String, n: u16)
    ensures
        final(s)@ == old(s)@ + decimal(n as nat),
    decreases n,
{
    if n >= 10 {
        push_decimal(s, n / 10);
        s.append(digit_str(n % 10));
        proof {
            assert(decimal(n as nat) == decimal((n / 10) as nat).push(digit_char((n % 10) as int)));
        }
    } else {
        s.append(digit_str(n));
    }
}

/// The id of the peer that connected from `port`: `peer__` followed by the
/// port in decimal, as in `peer__8080`.
pub fn peer_id(port: u16) -> (id: String)
    ensures
        id@ == peer_id_of(port),
{
    proof {
        reveal_strlit("peer__");
    }
    let mut id = String::from_str("peer__");
    push_decimal(&mut id, port);
    id
}

} // verus!

verus! {

/// The number a sequence of decimal digits stands for, reading each
/// character `c` as the digit `c - '0'`, most significant digit first.
pub open spec fn numeral_value(s: Seq<char>) -> int
    decreases s.len(),
{
    if s.len() == 0 {
        0
    } else {
        numeral_value(s.drop_last()) * 10 + (s.last() as int - '0' as int)
    }
}

/// Every character is one of `'0'` to `'9'`.
pub open spec fn all_digits(s: Seq<char>) -> bool {
    forall|i: int| 0 <= i < s.len() ==> '0' <= #[trigger] s[i] <= '9'
}

/// The decimal representation of `n` is the usual one: it is made of the
/// characters `'0'` to `'9'`, read back as a base-10 numeral it is `n`, and it
/// has no leading zero (it starts with `'0'` only when it is `"0"` itself).
pub proof fn law_decimal_is_base_ten(n: nat)
    ensures
        decimal(n).len() >= 1,
        all_digits(decimal(n)),
        numeral_value(decimal(n)) == n,
        decimal(n)[0] == '0' <==> n == 0,
        decimal(n)[0] == '0' ==> decimal(n).len() == 1,
    decreases n,
{
    let d = decimal(n);
    if n < 10 {
        assert(d =~= seq![digit_char(n as int)]);
        assert(d.drop_last() =~= Seq::<char>::empty());
        assert(numeral_value(d.drop_last()) == 0);
        assert(digit_char(n as int) as int == 48 + n);
        assert(d.last() == digit_char(n as int));
    } else {
        law_decimal_is_base_ten(n / 10);
        let p = decimal(n / 10);
        assert(d == p.push(digit_char((n % 10) as int)));
        assert(d.drop_last() =~= p);
        assert(digit_char((n % 10) as int) as int == 48 + n % 10);
        assert(d[0] == p[0]);
        assert(numeral_value(d) == numeral_value(p) * 10 + (n % 10) as int);
        assert(n == (n / 10) * 10 + n % 10);
        assert forall|i: int| 0 <= i < d.len() implies '0' <= #[trigger] d[i] <= '9' by {
            if i < p.len() {
                assert(d[i] == p[i]);
            }
        }
    }
}

/// The id of the peer that connected from `port` is `peer__` followed by the
/// port written in base 10, without leading zeros.
pub proof fn law_peer_id_names_the_port(port: u16)
    ensures
        peer_id_of(port).len() > 6,
        peer_id_of(port).subrange(0, 6) == seq!['p', 'e', 'e', 'r', '_', '_'],
        all_digits(peer_id_of(port).subrange(6, peer_id_of(port).len() as int)),
        numeral_value(peer_id_of(port).subrange(6, peer_id_of(port).len() as int)) == port,
        peer_id_of(port)[6] == '0' ==> port == 0 && peer_id_of(port).len() == 7,
{
    law_decimal_is_base_ten(port as nat);
    let s = peer_id_of(port);
    assert(s.subrange(0, 6) =~= seq!['p', 'e', 'e', 'r', '_', '_']);
    assert(s.subrange(6, s.len() as int) =~= decimal(port as nat));
}

} // verus!
