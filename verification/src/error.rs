//! Why a device could not be brought up.

use vstd::prelude::*;
use vstd::string::StringExecFns;

verus! {

/// What failed.
#[derive(Clone, Copy, Debug, PartialEq, Eq, Structural)]
pub enum ErrorKind {
    /// The requested name has this many bytes, and sixteen or more do not fit.
    NameTooLong(usize),
    /// The control device file could not be opened.
    Open,
    /// The kernel refused to create the device, to switch its descriptor to
    /// non-blocking mode, or to have it registered.
    Create,
    /// An address or flags control call failed.
    AddIp,
}

/// A failed construction: what failed, and the code of the operating
/// system's error where one caused it.
#[derive(Clone, Copy, Debug, PartialEq, Eq)]
pub struct Error {
    pub kind: ErrorKind,
    pub cause: Option<i32>,
}

/// The decimal digit `d`.
pub open spec fn spec_digit(d: nat) -> char
    recommends
        d < 10,
{
    if d == 0 {
        '0'
    } else if d == 1 {
        '1'
    } else if d == 2 {
        '2'
    } else if d == 3 {
        '3'
    } else if d == 4 {
        '4'
    } else if d == 5 {
        '5'
    } else if d == 6 {
        '6'
    } else if d == 7 {
        '7'
    } else if d == 8 {
        '8'
    } else {
        '9'
    }
}

/// The number `n` written in decimal, without leading zeros.
pub open spec fn spec_decimal(n: nat) -> Seq<char>
    decreases n,
{
    if n < 10 {
        seq![spec_digit(n)]
    } else {
        spec_decimal(n / 10).push(spec_digit(n % 10))
    }
}

fn digit(d: usize) -> (text: &'static str)
    requires
        d < 10,
    ensures
        text@ == seq![spec_digit(d as nat)],
{
    proof {
        reveal_strlit("0");
        reveal_strlit("1");
        reveal_strlit("2");
        reveal_strlit("3");
        reveal_strlit("4");
        reveal_strlit("5");
        reveal_strlit("6");
        reveal_strlit("7");
        reveal_strlit("8");
        reveal_strlit("9");
    }
    let text = if d == 0 {
        "0"
    } else if d == 1 {
        "1"
    } else if d == 2 {
        "2"
    } else if d == 3 {
        "3"
    } else if d == 4 {
        "4"
    } else if d == 5 {
        "5"
    } else if d == 6 {
        "6"
    } else if d == 7 {
        "7"
    } else if d == 8 {
        "8"
    } else {
        "9"
    };
    assert(text@ =~= seq![spec_digit(d as nat)]);
    text
}

fn decimal(n: usize) -> (text: String)
    ensures
        text@ == spec_decimal(n as nat),
    decreases n,
{
    if n < 10 {
        String::from_str(digit(n))
    } else {
        let mut text = decimal(n / 10);
        text.append(digit(n % 10));
        text
    }
}

impl ErrorKind {
    /// What failed, in a few words.
    pub open spec fn spec_description(self) -> Seq<char> {
        match self {
            ErrorKind::NameTooLong(_) => "Interface name too long"@,
            ErrorKind::Open => "Error while opening the device"@,
            ErrorKind::Create => "Error while creating the device"@,
            ErrorKind::AddIp => "Error while adding an IP to the interface"@,
        }
    }

    /// What failed, in full: for a name that is too long, the description
    /// and the length that was refused; for the others, the description.
    pub open spec fn spec_message(self) -> Seq<char> {
        match self {
            ErrorKind::NameTooLong(len) => "Interface name too long ("@ + spec_decimal(len as nat)
                + " >= 16)"@,
            _ => self.spec_description(),
        }
    }

    /// What failed, in a few words.
    pub fn description(&self) -> (text: &'static str)
        ensures
            text@ == self.spec_description(),
    {
        match self {
            ErrorKind::NameTooLong(_) => "Interface name too long",
            ErrorKind::Open => "Error while opening the device",
            ErrorKind::Create => "Error while creating the device",
            ErrorKind::AddIp => "Error while adding an IP to the interface",
        }
    }

    /// What failed, in full.
    pub fn to_string(&self) -> (text: String)
        ensures
            text@ == self.spec_message(),
    {
        match self {
            ErrorKind::NameTooLong(len) => {
                let mut text = String::from_str("Interface name too long (");
                let number = decimal(*len);
                text.append(number.as_str());
                text.append(" >= 16)");
                text
            },
            _ => String::from_str(self.description()),
        }
    }
}

impl Error {
    /// What failed, in a few words.
    pub fn description(&self) -> (text: &'static str)
        ensures
            text@ == self.kind.spec_description(),
    {
        self.kind.description()
    }

    /// What failed, in full.
    pub fn to_string(&self) -> (text: String)
        ensures
            text@ == self.kind.spec_message(),
    {
        self.kind.to_string()
    }
}

} // verus!
