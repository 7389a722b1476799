//! The local record of a verified identity.

use vstd::prelude::*;
use vstd::string::StringExecFns;

verus! {

/// A user as the rest of the service sees one.
#[derive(PartialEq, Eq)]
pub struct User {
    /// Assigned when the email is first seen; never changes.
    pub id: i32,
    /// The verified email: the durable key of the identity.
    pub email: String,
    /// The access token of the latest login.
    pub access_token: String,
}

/// A user as plain values.
pub struct UserModel {
    pub id: int,
    pub email: Seq<char>,
    pub access_token: Seq<char>,
}

impl View for User {
    type V = UserModel;

    open spec fn view(&self) -> UserModel {
        UserModel { id: self.id as int, email: self.email@, access_token: self.access_token@ }
    }
}

impl Clone for User {
    fn clone(&self) -> (copy: Self)
        ensures
            copy == *self,
    {
        User { id: self.id, email: self.email.clone(), access_token: self.access_token.clone() }
    }
}

/// The decimal digit for a number below ten.
pub open spec fn digit(d: nat) -> char {
    if d == 0 {
        '0'
    } else if d == 1 {
        '1'
    } else if d == 2 {
        '2'
    } else if d == 3 {
        '3'
    } else if d == 4 {
        '4'
    } else if d == 5 {
        '5'
    } else if d == 6 {
        '6'
    } else if d == 7 {
        '7'
    } else if d == 8 {
        '8'
    } else {
        '9'
    }
}

/// A natural number in decimal, without leading zeros.
pub open spec fn natural_text(n: nat) -> Seq<char>
    decreases n,
{
    if n < 10 {
        seq![digit(n)]
    } else {
        natural_text(n / 10).push(digit(n % 10))
    }
}

/// An integer in decimal, with a minus sign where it is negative.
pub open spec fn decimal_text(n: int) -> Seq<char> {
    if n < 0 {
        seq!['-'] + natural_text((-n) as nat)
    } else {
        natural_text(n as nat)
    }
}

/// A text as `{:?}` prints a string: in double quotes, with the characters
/// escaped that Rust escapes there.
pub uninterp spec fn quoted_text(text: Seq<char>) -> Seq<char>;

fn digit_text(d: u32) -> (text: &'static str)
    requires
        d < 10,
    ensures
        text@ == seq![digit(d as nat)],
{
    proof {
        reveal_strlit("0");
        reveal_strlit("1");
        reveal_strlit("2");
        reveal_strlit("3");
        reveal_strlit("4");
        reveal_strlit("5");
        reveal_strlit("6");
        reveal_strlit("7");
        reveal_strlit("8");
        reveal_strlit("9");
    }
    let text = if d == 0 {
        "0"
    } else if d == 1 {
        "1"
    } else if d == 2 {
        "2"
    } else if d == 3 {
        "3"
    } else if d == 4 {
        "4"
    } else if d == 5 {
        "5"
    } else if d == 6 {
        "6"
    } else if d == 7 {
        "7"
    } else if d == 8 {
        "8"
    } else {
        "9"
    };
    assert(text@ =~= seq![digit(d as nat)]);
    text
}

fn natural(n: u32) -> (text: String)
    ensures
        text@ == natural_text(n as nat),
    decreases n,
{
    if n < 10 {
        digit_text(n).to_owned()
    } else {
        let mut text = natural(n / 10);
        text.append(digit_text(n % 10));
        assert(text@ =~= natural_text((n / 10) as nat).push(digit((n % 10) as nat)));
        text
    }
}

fn decimal(n: i32) -> (text: String)
    ensures
        text@ == decimal_text(n as int),
{
    if n < 0 {
        let magnitude: u32 = (-(n as i64)) as u32;
        let mut text = "-".to_owned();
        text.append(natural(magnitude).as_str());
        proof {
            reveal_strlit("-");
            assert(text@ =~= seq!['-'] + natural_text((-n) as nat));
        }
        text
    } else {
        natural(n as u32)
    }
}

/// `Debug` of `str`: the text between double quotes, escaped.
#[verifier::external_body]
fn quoted(text: &str) -> (quoted: String)
    ensures
        quoted@ == quoted_text(text@),
{
    format!("{:?}", text)
}

impl User {
    /// What `describe` returns: the identifier and the email as they are, the
    /// access token replaced by a fixed word.
    pub open spec fn description(self) -> Seq<char> {
        "User { id: "@ + decimal_text(self.id as int) + ", email: "@ + quoted_text(self.email@)
            + ", access_token: \"[redacted]\" }"@
    }

    /// The user in words, for introspection. The access token is left out.
    pub fn describe(&self) -> (text: String)
        ensures
            text@ == self.description(),
    {
        let mut text = "User { id: ".to_owned();
        text.append(decimal(self.id).as_str());
        text.append(", email: ");
        text.append(quoted(self.email.as_str()).as_str());
        text.append(", access_token: \"[redacted]\" }");
        text
    }

    /// The identifier that a session is bound to.
    pub fn id(&self) -> (id: i32)
        ensures
            id == self.id,
    {
        self.id
    }

    /// The bytes that a session captures at login and compares on every later
    /// request: the access token. A new login replaces the token, so sessions
    /// that captured the old one stop matching.
    pub fn session_auth_hash(&self) -> (signal: &[u8])
        ensures
            signal@ == vstd::utf8::encode_utf8(self.access_token@),
    {
        self.access_token.as_str().as_bytes()
    }
}

} // verus!
