use vstd::prelude::*;

verus! {

/// The character of a decimal digit `d < 10`.
pub open spec fn digit_char(d: nat) -> char {
    seq!['0', '1', '2', '3', '4', '5', '6', '7', '8', '9'][d as int]
}

/// The decimal notation of `n`, most significant digit first, without
/// leading zeros (`0` is written `"0"`).
pub open spec fn decimal(n: nat) -> Seq<char>
    decreases n,
{
    if n < 10 {
        seq![digit_char(n)]
    } else {
        decimal(n / 10).push(digit_char(n % 10))
    }
}

/// A source position: a file and a line in it.
///
/// Equality, ordering and hashing go by the file, then the line.
#[derive(Clone, Copy, PartialEq, Eq, PartialOrd, Ord, Hash, Debug)]
pub struct CodeTrace {
    file: &'static str,
    line: u32,
}

impl CodeTrace {
    /// The file of this position, as characters.
    pub closed spec fn file(self) -> Seq<char> {
        self.file@
    }

    /// The line of this position.
    pub closed spec fn line(self) -> u32 {
        self.line
    }

    /// The position at `line` of `file`.
    pub fn new(file: &'static str, line: u32) -> (r: CodeTrace)
        ensures
            r.file() == file@,
            r.line() == line,
    {
        CodeTrace { file, line }
    }

    /// The textual form `<file>:<line>`, the line in decimal.
    pub fn to_string(&self) -> (r: String)
        ensures
            r@ == self.file() + seq![':'] + decimal(self.line() as nat),
    {
        let mut s = String::from_str(self.file);
        proof {
            reveal_strlit(":");
        }
        s.append(":");
        append_decimal(&mut s, self.line);
        s
    }
}

/// The one-character string of the digit `d`.
fn digit_str(d: u32) -> (r: &'static str)
    requires
        d < 10,
    ensures
        r@ == seq![digit_char(d as nat)],
{
    proof {
        reveal_strlit("0");
        reveal_strlit("1");
        reveal_strlit("2");
        reveal_strlit("3");
        reveal_strlit("4");
        reveal_strlit("5");
        reveal_strlit("6");
        reveal_strlit("7");
        reveal_strlit("8");
        reveal_strlit("9");
    }
    match d {
        0 => "0",
        1 => "1",
        2 => "2",
        3 => "3",
        4 => "4",
        5 => "5",
        6 => "6",
        7 => "7",
        8 => "8",
        _ => "9",
    }
}

/// Appends the decimal notation of `n` to `s`.
fn append_decimal(s: &mut String, n: u32)
    ensures
        final(s)@ == old(s)@ + decimal(n as nat),
    decreases n,
{
    if n >= 10 {
        append_decimal(s, n / 10);
    }
    s.append(digit_str(n % 10));
    proof {
        if n >= 10 {
            assert(decimal(n as nat) == decimal((n / 10) as nat).push(digit_char((n % 10) as nat)));
        }
    }
}

} // verus!
