//! The address the listener binds to, and the address that names the
//! relational store in a failure.

use vstd::prelude::*;
use vstd::string::StringExecFns;
use crate::config::{Config, DatabaseSetting};

verus! {

/// The character of a decimal digit.
pub open spec fn digit_char(d: nat) -> char
    recommends
        d < 10,
{
    if d == 0 {
        '0'
    } else if d == 1 {
        '1'
    } else if d == 2 {
        '2'
    } else if d == 3 {
        '3'
    } else if d == 4 {
        '4'
    } else if d == 5 {
        '5'
    } else if d == 6 {
        '6'
    } else if d == 7 {
        '7'
    } else if d == 8 {
        '8'
    } else {
        '9'
    }
}

/// A number in decimal, without leading zeros.
pub open spec fn decimal(n: nat) -> Seq<char>
    decreases n,
{
    if n < 10 {
        seq![digit_char(n)]
    } else {
        decimal(n / 10).push(digit_char(n % 10))
    }
}

/// The address `host:port` of a configuration.
pub open spec fn address_of(config: Config) -> Seq<char> {
    config.application.host@ + seq![':'] + decimal(config.application.port as nat)
}

/// The text `host:port/name` that names a relational store. It holds no
/// credentials.
pub open spec fn database_target_of(setting: DatabaseSetting) -> Seq<char> {
    setting.host@ + seq![':'] + decimal(setting.port as nat) + seq!['/'] + setting.database_name@
}

fn digit_str(d: u16) -> (r: &'static str)
    requires
        d < 10,
    ensures
        r@ == seq![digit_char(d as nat)],
{
    proof {
        reveal_strlit("0");
        reveal_strlit("1");
        reveal_strlit("2");
        reveal_strlit("3");
        reveal_strlit("4");
        reveal_strlit("5");
        reveal_strlit("6");
        reveal_strlit("7");
        reveal_strlit("8");
        reveal_strlit("9");
    }
    let r = if d == 0 {
        "0"
    } else if d == 1 {
        "1"
    } else if d == 2 {
        "2"
    } else if d == 3 {
        "3"
    } else if d == 4 {
        "4"
    } else if d == 5 {
        "5"
    } else if d == 6 {
        "6"
    } else if d == 7 {
        "7"
    } else if d == 8 {
        "8"
    } else {
        "9"
    };
    assert(r@ =~= seq![digit_char(d as nat)]);
    r
}

/// Appends `n` in decimal to `text`.
fn push_decimal(text: String, n: u16) -> (r: String)
    ensures
        r@ == text@ + decimal(n as nat),
    decreases n,
{
    if n < 10 {
        text.concat(digit_str(n))
    } else {
        let head = push_decimal(text, n / 10);
        let r = head.concat(digit_str(n % 10));
        assert(r@ =~= text@ + decimal(n as nat));
        r
    }
}

/// The address to bind the listener to: the configured host, a colon and the
/// configured port in decimal. Port 0 leaves the choice of port to the
/// system.
pub fn bind_address(config: &Config) -> (r: String)
    ensures
        r@ == address_of(*config),
{
    proof {
        reveal_strlit(":");
    }
    let host = config.application.host.clone().concat(":");
    assert(host@ =~= config.application.host@ + seq![':']);
    push_decimal(host, config.application.port)
}

/// The text that names the relational store in a failure: host, port and
/// database name, without credentials.
pub fn database_target(setting: &DatabaseSetting) -> (r: String)
    ensures
        r@ == database_target_of(*setting),
{
    proof {
        reveal_strlit(":");
        reveal_strlit("/");
    }
    let host = setting.host.clone().concat(":");
    assert(host@ =~= setting.host@ + seq![':']);
    let port = push_decimal(host, setting.port).concat("/");
    assert(port@ =~= setting.host@ + seq![':'] + decimal(setting.port as nat) + seq!['/']);
    port.concat(setting.database_name.as_str())
}

} // verus!
