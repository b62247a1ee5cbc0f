//! What can go wrong: a configuration that does not fit its layout, and a
//! clock that cannot be trusted.
use vstd::prelude::*;
use vstd::string::StringExecFns;

verus! {

/// A configuration whose instance id does not fit the width chosen for it.
/// Each variant carries the id that was given, the largest id the width
/// admits, and the least width that would admit the given id.
#[derive(Debug)]
pub enum SnowflakeError {
    DatacenterIDOutOfRange((u64, u64, u32)),
    WorkerIDOutOfRange((u64, u64, u32)),
}

/// A clock reading on which no identifier can be minted. None of these can
/// be mended by another configuration: a generator that reports one has left
/// its state untouched and should no longer be used.
#[derive(Debug, Clone, Copy, PartialEq, Eq)]
pub enum ClockFault {
    /// The clock reads earlier than the last identifier minted.
    MovedBackwards,
    /// The clock reads earlier than the Unix epoch.
    BeforeUnixEpoch,
    /// The sequence of the current millisecond is used up and the clock did
    /// not advance within the polling budget.
    Stalled,
}

/// The character that writes the digit `d`.
pub open spec fn digit_char(d: nat) -> char {
    if d == 0 {
        '0'
    } else if d == 1 {
        '1'
    } else if d == 2 {
        '2'
    } else if d == 3 {
        '3'
    } else if d == 4 {
        '4'
    } else if d == 5 {
        '5'
    } else if d == 6 {
        '6'
    } else if d == 7 {
        '7'
    } else if d == 8 {
        '8'
    } else {
        '9'
    }
}

/// `n` written in base ten, without leading zeros.
pub open spec fn decimal(n: nat) -> Seq<char>
    decreases n,
{
    if n < 10 {
        seq![digit_char(n)]
    } else {
        decimal(n / 10).push(digit_char(n % 10))
    }
}

/// The message of an out-of-range error for the field called `field`.
pub open spec fn out_of_range_message(field: Seq<char>, given: u64, max: u64, bits: u32) -> Seq<
    char,
> {
    field + " ("@ + decimal(given as nat) + ") out of range ("@ + decimal(max as nat)
        + "), recommend using "@ + decimal(bits as nat) + " bits"@
}

fn digit_str(d: u64) -> (r: &'static str)
    requires
        d < 10,
    ensures
        r@ == seq![digit_char(d as nat)],
{
    proof {
        reveal_strlit("0");
        reveal_strlit("1");
        reveal_strlit("2");
        reveal_strlit("3");
        reveal_strlit("4");
        reveal_strlit("5");
        reveal_strlit("6");
        reveal_strlit("7");
        reveal_strlit("8");
        reveal_strlit("9");
    }
    let r = if d == 0 {
        "0"
    } else if d == 1 {
        "1"
    } else if d == 2 {
        "2"
    } else if d == 3 {
        "3"
    } else if d == 4 {
        "4"
    } else if d == 5 {
        "5"
    } else if d == 6 {
        "6"
    } else if d == 7 {
        "7"
    } else if d == 8 {
        "8"
    } else {
        "9"
    };
    assert(r@ =~= seq![digit_char(d as nat)]);
    r
}

/// Appends `n` in base ten to `out`.
fn push_decimal(out: &mut String, n: u64)
    ensures
        final(out)@ == old(out)@ + decimal(n as nat),
    decreases n,
{
    if n >= 10 {
        push_decimal(out, n / 10);
    }
    let ghost before = out@;
    out.append(digit_str(n % 10));
    proof {
        if n >= 10 {
            assert(before + seq![digit_char((n % 10) as nat)] =~= old(out)@ + decimal(n as nat));
        } else {
            assert(before + seq![digit_char((n % 10) as nat)] =~= old(out)@ + decimal(n as nat));
        }
    }
}

fn render(field: &str, given: u64, max: u64, bits: u32) -> (r: String)
    ensures
        r@ == out_of_range_message(field@, given, max, bits),
{
    let mut out = String::from_str(field);
    out.append(" (");
    push_decimal(&mut out, given);
    out.append(") out of range (");
    push_decimal(&mut out, max);
    out.append("), recommend using ");
    push_decimal(&mut out, bits as u64);
    out.append(" bits");
    out
}

impl SnowflakeError {
    /// The text of the message.
    pub open spec fn message(self) -> Seq<char> {
        match self {
            SnowflakeError::DatacenterIDOutOfRange(e) => out_of_range_message(
                "datacenter_id"@,
                e.0,
                e.1,
                e.2,
            ),
            SnowflakeError::WorkerIDOutOfRange(e) => out_of_range_message(
                "worker_id"@,
                e.0,
                e.1,
                e.2,
            ),
        }
    }

    /// The message: the field's name, the id given, the largest id that
    /// fits, and the width recommended in its place.
    pub fn to_string(&self) -> (r: String)
        ensures
            r@ == self.message(),
    {
        match self {
            SnowflakeError::DatacenterIDOutOfRange(e) => render("datacenter_id", e.0, e.1, e.2),
            SnowflakeError::WorkerIDOutOfRange(e) => render("worker_id", e.0, e.1, e.2),
        }
    }
}

} // verus!
