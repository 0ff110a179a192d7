//! Text that the memos are made of: decimal numbers, and the cluster's name
//! as the endpoint's address shows it.

use vstd::prelude::*;
use vstd::string::*;

verus! {

/// The character of a decimal digit.
pub open spec fn digit_char(d: nat) -> char {
    if d == 0 {
        '0'
    } else if d == 1 {
        '1'
    } else if d == 2 {
        '2'
    } else if d == 3 {
        '3'
    } else if d == 4 {
        '4'
    } else if d == 5 {
        '5'
    } else if d == 6 {
        '6'
    } else if d == 7 {
        '7'
    } else if d == 8 {
        '8'
    } else {
        '9'
    }
}

/// A number in decimal, without leading zeros.
pub open spec fn decimal_of(n: nat) -> Seq<char>
    decreases n,
{
    if n < 10 {
        seq![digit_char(n)]
    } else {
        decimal_of(n / 10).push(digit_char(n % 10))
    }
}

/// Whether `pattern` occurs in `text`.
pub open spec fn has_substring(text: Seq<char>, pattern: Seq<char>) -> bool {
    exists|i: int|
        0 <= i && i + pattern.len() <= text.len() && #[trigger] text.subrange(
            i,
            i + pattern.len(),
        ) == pattern
}

/// The name under which a cluster is reported, by its endpoint's address.
pub open spec fn cluster_name_of(url: Seq<char>) -> Seq<char> {
    if has_substring(url, "mainnet-beta.solana.com"@) {
        "mainnet-beta"@
    } else if has_substring(url, "testnet.solana.com"@) {
        "testnet"@
    } else if has_substring(url, "devnet.solana.com"@) {
        "devnet"@
    } else {
        "unknown"@
    }
}

/// `str::contains` with a string pattern. Trusted: it is true exactly when
/// the pattern matches a part of the text.
#[verifier::external_body]
fn str_contains(text: &str, pattern: &str) -> (r: bool)
    ensures
        r == has_substring(text@, pattern@),
{
    text.contains(pattern)
}

fn digit_text(d: u64) -> (r: &'static str)
    requires
        d < 10,
    ensures
        r@ == seq![digit_char(d as nat)],
{
    proof {
        reveal_strlit("0");
        reveal_strlit("1");
        reveal_strlit("2");
        reveal_strlit("3");
        reveal_strlit("4");
        reveal_strlit("5");
        reveal_strlit("6");
        reveal_strlit("7");
        reveal_strlit("8");
        reveal_strlit("9");
        assert("0"@ =~= seq!['0']);
        assert("1"@ =~= seq!['1']);
        assert("2"@ =~= seq!['2']);
        assert("3"@ =~= seq!['3']);
        assert("4"@ =~= seq!['4']);
        assert("5"@ =~= seq!['5']);
        assert("6"@ =~= seq!['6']);
        assert("7"@ =~= seq!['7']);
        assert("8"@ =~= seq!['8']);
        assert("9"@ =~= seq!['9']);
    }
    if d == 0 {
        "0"
    } else if d == 1 {
        "1"
    } else if d == 2 {
        "2"
    } else if d == 3 {
        "3"
    } else if d == 4 {
        "4"
    } else if d == 5 {
        "5"
    } else if d == 6 {
        "6"
    } else if d == 7 {
        "7"
    } else if d == 8 {
        "8"
    } else {
        "9"
    }
}

/// Writes a number in decimal.
pub fn decimal_text(n: u64) -> (r: String)
    ensures
        r@ == decimal_of(n as nat),
    decreases n,
{
    if n < 10 {
        String::from_str(digit_text(n))
    } else {
        let head = decimal_text(n / 10);
        let r = head.concat(digit_text(n % 10));
        proof {
            assert(r@ =~= decimal_of((n / 10) as nat).push(digit_char((n % 10) as nat)));
        }
        r
    }
}

/// The name under which a cluster is reported, by its endpoint's address.
pub fn metrics_cluster_name(url: &str) -> (r: String)
    ensures
        r@ == cluster_name_of(url@),
{
    if str_contains(url, "mainnet-beta.solana.com") {
        String::from_str("mainnet-beta")
    } else if str_contains(url, "testnet.solana.com") {
        String::from_str("testnet")
    } else if str_contains(url, "devnet.solana.com") {
        String::from_str("devnet")
    } else {
        String::from_str("unknown")
    }
}

} // verus!
