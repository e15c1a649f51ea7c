//! The server endpoint: a fixed localhost host/port pair and the three
//! strings built from it — the readiness-probe URL, the shutdown URL, and
//! the script that navigates the display surface to the server.

use vstd::prelude::*;
use vstd::string::StringExecFns;

verus! {

/// The character for a single decimal digit.
pub open spec fn digit_char(d: nat) -> char {
    if d == 0 {
        '0'
    } else if d == 1 {
        '1'
    } else if d == 2 {
        '2'
    } else if d == 3 {
        '3'
    } else if d == 4 {
        '4'
    } else if d == 5 {
        '5'
    } else if d == 6 {
        '6'
    } else if d == 7 {
        '7'
    } else if d == 8 {
        '8'
    } else {
        '9'
    }
}

/// Decimal digits of `n`, most significant first, without leading zeros.
pub open spec fn dec_digits(n: nat) -> Seq<char>
    decreases n,
{
    if n < 10 {
        seq![digit_char(n)]
    } else {
        dec_digits(n / 10).push(digit_char(n % 10))
    }
}

/// The one-character string for a decimal digit.
fn digit_str(d: u8) -> (s: &'static str)
    requires
        d < 10,
    ensures
        s@ == seq![digit_char(d as nat)],
{
    proof {
        reveal_strlit("0");
        reveal_strlit("1");
        reveal_strlit("2");
        reveal_strlit("3");
        reveal_strlit("4");
        reveal_strlit("5");
        reveal_strlit("6");
        reveal_strlit("7");
        reveal_strlit("8");
        reveal_strlit("9");
    }
    let s: &'static str = match d {
        0 => "0",
        1 => "1",
        2 => "2",
        3 => "3",
        4 => "4",
        5 => "5",
        6 => "6",
        7 => "7",
        8 => "8",
        _ => "9",
    };
    proof {
        assert(s@ =~= seq![digit_char(d as nat)]);
    }
    s
}

/// Decimal rendering of a 16-bit number, e.g. the server port.
pub fn u16_to_string(n: u16) -> (s: String)
    ensures
        s@ == dec_digits(n as nat),
    decreases n,
{
    if n < 10 {
        digit_str(n as u8).to_owned()
    } else {
        let mut s = u16_to_string(n / 10);
        s.append(digit_str((n % 10) as u8));
        proof {
            assert(dec_digits(n as nat) =~= dec_digits((n / 10) as nat) + seq![
                digit_char((n % 10) as nat),
            ]);
        }
        s
    }
}

/// Characters of `http://localhost:<port>/`, the readiness-probe target.
pub open spec fn root_url_chars(port: u16) -> Seq<char> {
    "http://localhost:"@ + dec_digits(port as nat) + "/"@
}

/// Characters of `http://localhost:<port>/shutdown`, the graceful-stop target.
pub open spec fn shutdown_url_chars(port: u16) -> Seq<char> {
    "http://localhost:"@ + dec_digits(port as nat) + "/shutdown"@
}

/// Characters of the navigation command handed to the display surface once
/// the server is ready.
pub open spec fn redirect_script_chars(port: u16) -> Seq<char> {
    "window.location.href = 'http://localhost:"@ + dec_digits(port as nat) + "'"@
}

/// An immutable host/port pair; the host is fixed to localhost, so only the
/// port is carried.
pub struct ServerEndpoint {
    pub port: u16,
}

impl ServerEndpoint {
    pub fn new(port: u16) -> (e: Self)
        ensures
            e.port == port,
    {
        ServerEndpoint { port }
    }

    /// URL probed by the readiness poller.
    pub fn readiness_url(&self) -> (s: String)
        ensures
            s@ == root_url_chars(self.port),
    {
        let mut s = "http://localhost:".to_owned();
        let digits = u16_to_string(self.port);
        s.append(digits.as_str());
        s.append("/");
        proof {
            assert(s@ =~= root_url_chars(self.port));
        }
        s
    }

    /// URL the shutdown coordinator posts to.
    pub fn shutdown_url(&self) -> (s: String)
        ensures
            s@ == shutdown_url_chars(self.port),
    {
        let mut s = "http://localhost:".to_owned();
        let digits = u16_to_string(self.port);
        s.append(digits.as_str());
        s.append("/shutdown");
        proof {
            assert(s@ =~= shutdown_url_chars(self.port));
        }
        s
    }

    /// Script evaluated on the display surface to redirect it to the server.
    pub fn redirect_script(&self) -> (s: String)
        ensures
            s@ == redirect_script_chars(self.port),
    {
        let mut s = "window.location.href = 'http://localhost:".to_owned();
        let digits = u16_to_string(self.port);
        s.append(digits.as_str());
        s.append("'");
        proof {
            assert(s@ =~= redirect_script_chars(self.port));
        }
        s
    }
}

} // verus!
