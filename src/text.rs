use vstd::prelude::*;

verus! {

/// The decimal digits, in order of value.
pub open spec fn digits() -> Seq<char> {
    seq!['0', '1', '2', '3', '4', '5', '6', '7', '8', '9']
}

/// Decimal notation of a natural number, without leading zeros.
pub open spec fn decimal(n: nat) -> Seq<char>
    decreases n,
{
    if n < 10 {
        seq![digits()[n as int]]
    } else {
        decimal(n / 10).push(digits()[(n % 10) as int])
    }
}

/// A run of `k` spaces.
pub open spec fn spaces(k: nat) -> Seq<char> {
    Seq::new(k, |i: int| ' ')
}

/// `s` followed by spaces up to `width` characters; `s` itself when it is
/// already that wide.
pub open spec fn padded(s: Seq<char>, width: nat) -> Seq<char> {
    if s.len() < width {
        s + spaces((width - s.len()) as nat)
    } else {
        s
    }
}

fn digit_text(d: u64) -> (r: &'static str)
    requires
        d < 10,
    ensures
        r@ == seq![digits()[d as int]],
{
    let all = "0123456789";
    proof {
        reveal_strlit("0123456789");
    }
    assert(all@ =~= digits());
    let r = all.substring_char(d as usize, d as usize + 1);
    assert(r@ =~= seq![digits()[d as int]]);
    r
}

/// Decimal notation of `n`.
pub fn decimal_text(n: u64) -> (r: String)
    ensures
        r@ == decimal(n as nat),
{
    let mut m: u64 = n;
    let mut acc = String::new();
    while m >= 10
        invariant
            decimal(n as nat) == decimal(m as nat) + acc@,
        decreases m,
    {
        let mut s = String::from_str(digit_text(m % 10));
        s.append(acc.as_str());
        assert(decimal(m as nat) == decimal((m / 10) as nat).push(digits()[(m % 10) as int]));
        assert(decimal(m as nat) + acc@ =~= decimal((m / 10) as nat) + s@);
        acc = s;
        m = m / 10;
    }
    let mut s = String::from_str(digit_text(m));
    s.append(acc.as_str());
    s
}

/// `s` padded with spaces to `width` characters.
pub fn pad_text(s: &str, width: usize) -> (r: String)
    ensures
        r@ == padded(s@, width as nat),
{
    let mut r = String::from_str(s);
    let len = s.unicode_len();
    let mut k: usize = len;
    while k < width
        invariant
            len == s@.len(),
            len <= k || width <= len,
            k < width ==> len <= k,
            len < width ==> k <= width,
            len < width ==> r@ == s@ + spaces((k - len) as nat),
            width <= len ==> r@ == s@,
        decreases width - k,
    {
        proof {
            reveal_strlit(" ");
        }
        r.append(" ");
        assert(r@ =~= s@ + spaces((k + 1 - len) as nat));
        k = k + 1;
    }
    proof {
        if len < width {
            assert(k == width);
        }
    }
    r
}

} // verus!
