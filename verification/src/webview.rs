//! The webview's URL and events.
//!
//! In webview mode the external installer runs a local web server and
//! publishes its port and landing page in a small info file.  The hosting
//! shell reads that file; this module builds the URL the webview is pointed
//! at — always localhost, whatever address the file claims — and defines
//! the events the installer flow sends to the webview window.

use vstd::prelude::*;

verus! {

/// An event sent to the webview window.
#[derive(Debug)]
pub enum UserEvent {
    /// Point the webview at this URL.
    NavigateToURL(String),
    /// Show or hide the webview window.
    SetVisible(bool),
}

/// The decimal digit characters of `n`, most significant first.
pub open spec fn decimal_digits(n: nat) -> Seq<char>
    decreases n,
{
    if n < 10 {
        seq![digit_char(n)]
    } else {
        decimal_digits(n / 10).push(digit_char(n % 10))
    }
}

/// The character for one decimal digit.
pub open spec fn digit_char(d: nat) -> char {
    if d == 0 {
        '0'
    } else if d == 1 {
        '1'
    } else if d == 2 {
        '2'
    } else if d == 3 {
        '3'
    } else if d == 4 {
        '4'
    } else if d == 5 {
        '5'
    } else if d == 6 {
        '6'
    } else if d == 7 {
        '7'
    } else if d == 8 {
        '8'
    } else {
        '9'
    }
}

fn digit_string(d: usize) -> (s: String)
    requires
        d < 10,
    ensures
        s@ =~= seq![digit_char(d as nat)],
{
    let s = match d {
        0 => String::from_str("0"),
        1 => String::from_str("1"),
        2 => String::from_str("2"),
        3 => String::from_str("3"),
        4 => String::from_str("4"),
        5 => String::from_str("5"),
        6 => String::from_str("6"),
        7 => String::from_str("7"),
        8 => String::from_str("8"),
        _ => String::from_str("9"),
    };
    proof {
        reveal_strlit("0");
        reveal_strlit("1");
        reveal_strlit("2");
        reveal_strlit("3");
        reveal_strlit("4");
        reveal_strlit("5");
        reveal_strlit("6");
        reveal_strlit("7");
        reveal_strlit("8");
        reveal_strlit("9");
    }
    s
}

/// `n` written in decimal.
pub fn usize_to_decimal(n: usize) -> (s: String)
    ensures
        s@ == decimal_digits(n as nat),
    decreases n,
{
    if n < 10 {
        digit_string(n)
    } else {
        let mut s = usize_to_decimal(n / 10);
        let digit = digit_string(n % 10);
        s.append(digit.as_str());
        proof {
            assert(s@ =~= decimal_digits(n as nat));
        }
        s
    }
}

/// The URL the webview is pointed at for a server on the given port and
/// landing page: always localhost, whatever address the server's info file
/// claims.
pub open spec fn server_url_spec(port: nat, page: Seq<char>) -> Seq<char> {
    "http://127.0.0.1:"@ + decimal_digits(port) + "/"@ + page
}

/// Build the webview URL from the port and landing page the installer's
/// web server published.
pub fn server_url(port: usize, page: &String) -> (url: String)
    ensures
        url@ == server_url_spec(port as nat, page@),
{
    let mut url = String::from_str("http://127.0.0.1:");
    let port_digits = usize_to_decimal(port);
    url.append(port_digits.as_str());
    url.append("/");
    url.append(page.as_str());
    proof {
        assert(url@ =~= server_url_spec(port as nat, page@));
    }
    url
}

} // verus!
