//! Server configuration, captured once at startup and passed by value.
//! Reading the environment is the caller's business; the library only
//! holds the values and renders the bind address.

use vstd::prelude::*;
use crate::text::{push_char, str_append};

verus! {

/// Map selection: the static file, or procedural generation from a
/// seed.
#[derive(Debug, Clone)]
pub struct MapConfig {
    pub use_procedural: bool,
    pub procedural_seed: Option<u32>,
    pub procedural_width: u32,
    pub procedural_height: u32,
}

/// The server's startup configuration.
#[derive(Debug, Clone)]
pub struct Config {
    pub host: String,
    pub port: u16,
    pub max_players: usize,
    pub tick_rate: u64,
    pub log_level: String,
    pub map: MapConfig,
}

/// The decimal digit character of a value below ten.
pub open spec fn digit_char(d: int) -> char {
    if d == 0 { '0' } else if d == 1 { '1' } else if d == 2 { '2' } else if d == 3 { '3' }
    else if d == 4 { '4' } else if d == 5 { '5' } else if d == 6 { '6' } else if d == 7 { '7' }
    else if d == 8 { '8' } else { '9' }
}

/// The decimal rendering of a natural number, most significant digit
/// first.
pub open spec fn decimal_spec(n: int) -> Seq<char>
    decreases n,
{
    if n < 10 {
        seq![digit_char(n)]
    } else {
        decimal_spec(n / 10).push(digit_char(n % 10))
    }
}

/// Render a value in decimal.
pub fn decimal_of_u32(n: u32) -> (r: String)
    ensures
        r@ == decimal_spec(n as int),
{
    proof {
        vstd::arithmetic::div_mod::lemma_div_pos_is_pos(n as int, 10);
    }
    decimal_digits(n)
}

/// Render a port number in decimal.
fn decimal_of_u16(n: u16) -> (r: String)
    ensures
        r@ == decimal_spec(n as int),
{
    decimal_digits(n as u32)
}

/// Render a natural number in decimal, most significant digit first.
fn decimal_digits(n: u32) -> (r: String)
    ensures
        r@ == decimal_spec(n as int),
{
    let mut digits: Vec<char> = Vec::new();
    let mut rest: u32 = n;
    loop
        invariant_except_break
            decimal_spec(n as int) == decimal_spec(rest as int) + digits@,
        ensures
            decimal_spec(n as int) == digits@,
        decreases rest,
    {
        let d: u32 = rest % 10;
        let ghost pre = digits@;
        let ghost pre_rest = rest as int;
        let c: char = match d {
            0 => '0', 1 => '1', 2 => '2', 3 => '3', 4 => '4',
            5 => '5', 6 => '6', 7 => '7', 8 => '8', _ => '9',
        };
        digits.insert(0, c);
        rest = rest / 10;
        proof {
            vstd::arithmetic::div_mod::lemma_mod_bound(pre_rest, 10);
            vstd::arithmetic::div_mod::lemma_div_pos_is_pos(pre_rest, 10);
            assert(c == digit_char(pre_rest % 10));
            assert(digits@ =~= seq![c] + pre);
        }
        if rest == 0 {
            proof {
                if pre_rest >= 10 {
                    vstd::arithmetic::div_mod::lemma_div_is_ordered(10, pre_rest, 10);
                    assert(pre_rest / 10 >= 1);
                    assert(false);
                }
                assert(pre_rest % 10 == pre_rest) by {
                    vstd::arithmetic::div_mod::lemma_small_mod(pre_rest as nat, 10);
                }
                assert(decimal_spec(pre_rest) =~= seq![digit_char(pre_rest)]);
                assert(decimal_spec(n as int) =~= digits@);
            }
            break;
        }
        proof {
            if pre_rest < 10 {
                vstd::arithmetic::div_mod::lemma_basic_div(pre_rest, 10);
                assert(false);
            }
            assert(decimal_spec(pre_rest)
                == decimal_spec(pre_rest / 10).push(digit_char(pre_rest % 10)));
            assert(decimal_spec(rest as int) + digits@
                =~= (decimal_spec(rest as int).push(c)) + pre);
        }
    }
    let mut s = String::new();
    let mut i: usize = 0;
    while i < digits.len()
        invariant
            0 <= i <= digits@.len(),
            s@ == digits@.subrange(0, i as int),
        decreases digits@.len() - i,
    {
        push_char(&mut s, digits[i]);
        proof {
            assert(s@ =~= digits@.subrange(0, i + 1));
        }
        i = i + 1;
    }
    proof {
        assert(s@ =~= digits@);
    }
    s
}

impl Config {
    /// The address the server binds: the host, a colon, and the port in
    /// decimal.
    pub fn bind_address(&self) -> (r: String)
        ensures
            r@ == self.host@ + seq![':'] + decimal_spec(self.port as int),
    {
        let mut s = self.host.clone();
        str_append(&mut s, ":");
        let port = decimal_of_u16(self.port);
        str_append(&mut s, port.as_str());
        proof {
            reveal_strlit(":");
            assert(s@ =~= self.host@ + seq![':'] + decimal_spec(self.port as int));
        }
        s
    }
}

} // verus!
