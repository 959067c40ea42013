//! The decisions of a toy web service: which page a request asks for, and
//! the text of the response that carries the page.

use vstd::prelude::*;
use vstd::string::StringSliceAdditionalSpecFns;

verus! {

/// What a request asks for.
#[derive(Clone, Copy, Debug, PartialEq, Eq, Structural)]
pub enum Route {
    /// The front page.
    Home,
    /// The front page, served after a pause.
    Sleep,
    /// Anything else.
    NotFound,
}

/// The first line of a request for the front page, as bytes.
pub open spec fn home_line() -> Seq<u8> {
    "GET / HTTP/1.1\r\n".spec_bytes()
}

/// The first line of a request for the slow page, as bytes.
pub open spec fn sleep_line() -> Seq<u8> {
    "GET /sleep HTTP/1.1\r\n".spec_bytes()
}

/// The route of a request, decided by the bytes it begins with.
pub open spec fn route_of(request: Seq<u8>) -> Route {
    if home_line().is_prefix_of(request) {
        Route::Home
    } else if sleep_line().is_prefix_of(request) {
        Route::Sleep
    } else {
        Route::NotFound
    }
}

/// The decimal digit for `d`.
pub open spec fn digit_char(d: nat) -> char {
    if d == 0 {
        '0'
    } else if d == 1 {
        '1'
    } else if d == 2 {
        '2'
    } else if d == 3 {
        '3'
    } else if d == 4 {
        '4'
    } else if d == 5 {
        '5'
    } else if d == 6 {
        '6'
    } else if d == 7 {
        '7'
    } else if d == 8 {
        '8'
    } else {
        '9'
    }
}

/// The decimal numeral of `n`, without leading zeros.
pub open spec fn decimal(n: nat) -> Seq<char>
    decreases n,
{
    if n < 10 {
        seq![digit_char(n)]
    } else {
        decimal(n / 10).push(digit_char(n % 10))
    }
}

/// The text of a response: the status line, the length of the body in
/// bytes, an empty line, and the body.
pub open spec fn response_text(status_line: Seq<char>, body_bytes: nat, body: Seq<char>) -> Seq<
    char,
> {
    status_line + "\r\nContent-Length: "@ + decimal(body_bytes) + "\r\n\r\n"@ + body
}

/// Whether `bytes` begins with `prefix`.
pub fn starts_with(bytes: &[u8], prefix: &[u8]) -> (found: bool)
    ensures
        found == prefix@.is_prefix_of(bytes@),
{
    if prefix.len() > bytes.len() {
        return false;
    }
    let mut i: usize = 0;
    while i < prefix.len()
        invariant
            i <= prefix@.len() <= bytes@.len(),
            forall|k: int| 0 <= k < i ==> prefix@[k] == bytes@[k],
        decreases prefix@.len() - i,
    {
        if prefix[i] != bytes[i] {
            assert(bytes@.subrange(0, prefix@.len() as int)[i as int] != prefix@[i as int]);
            return false;
        }
        i += 1;
    }
    assert(prefix@ =~= bytes@.subrange(0, prefix@.len() as int));
    true
}

/// Decides the route of a request from the bytes that were read.
pub fn route(request: &[u8]) -> (route: Route)
    ensures
        route == route_of(request@),
{
    if starts_with(request, "GET / HTTP/1.1\r\n".as_bytes()) {
        Route::Home
    } else if starts_with(request, "GET /sleep HTTP/1.1\r\n".as_bytes()) {
        Route::Sleep
    } else {
        Route::NotFound
    }
}

impl Route {
    /// The status line that answers a request for this route.
    pub fn status_line(self) -> (line: &'static str)
        ensures
            line@ == if self == Route::NotFound {
                "HTTP/1.1 400 NOT FOUND"@
            } else {
                "HTTP/1.1 200 OK"@
            },
    {
        match self {
            Route::Home => "HTTP/1.1 200 OK",
            Route::Sleep => "HTTP/1.1 200 OK",
            Route::NotFound => "HTTP/1.1 400 NOT FOUND",
        }
    }

    /// The file that holds the page for this route.
    pub fn filename(self) -> (name: &'static str)
        ensures
            name@ == if self == Route::NotFound {
                "resources/404.html"@
            } else {
                "resources/hello.html"@
            },
    {
        match self {
            Route::Home => "resources/hello.html",
            Route::Sleep => "resources/hello.html",
            Route::NotFound => "resources/404.html",
        }
    }

    /// How many seconds the service pauses before it answers.
    pub fn pause_seconds(self) -> (seconds: u64)
        ensures
            seconds == if self == Route::Sleep {
                5u64
            } else {
                0u64
            },
    {
        match self {
            Route::Sleep => 5,
            _ => 0,
        }
    }
}

/// The one-character text of the digit `d`.
fn digit_text(d: usize) -> (text: &'static str)
    requires
        d < 10,
    ensures
        text@ == seq![digit_char(d as nat)],
{
    proof {
        reveal_strlit("0");
        reveal_strlit("1");
        reveal_strlit("2");
        reveal_strlit("3");
        reveal_strlit("4");
        reveal_strlit("5");
        reveal_strlit("6");
        reveal_strlit("7");
        reveal_strlit("8");
        reveal_strlit("9");
    }
    let text = if d == 0 {
        "0"
    } else if d == 1 {
        "1"
    } else if d == 2 {
        "2"
    } else if d == 3 {
        "3"
    } else if d == 4 {
        "4"
    } else if d == 5 {
        "5"
    } else if d == 6 {
        "6"
    } else if d == 7 {
        "7"
    } else if d == 8 {
        "8"
    } else {
        "9"
    };
    assert(text@ =~= seq![digit_char(d as nat)]);
    text
}

/// Writes `n` as a decimal numeral.
pub fn decimal_text(n: usize) -> (text: String)
    ensures
        text@ == decimal(n as nat),
    decreases n,
{
    if n < 10 {
        String::from_str(digit_text(n))
    } else {
        let mut text = decimal_text(n / 10);
        text.append(digit_text(n % 10));
        assert(text@ =~= decimal(n as nat));
        text
    }
}

/// Builds the response that carries `body` under `status_line`.
pub fn response(status_line: &str, body: &str) -> (text: String)
    ensures
        text@ == response_text(status_line@, body.len() as nat, body@),
{
    let mut text = String::from_str(status_line);
    text.append("\r\nContent-Length: ");
    let length = decimal_text(body.len());
    text.append(length.as_str());
    text.append("\r\n\r\n");
    text.append(body);
    text
}

} // verus!
