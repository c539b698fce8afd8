//! What a host is told when the player panics.
use vstd::prelude::*;

verus! {

/// Where a panic happened.
#[derive(Copy, Clone, Debug, PartialEq, Eq)]
pub struct PanicLocation<'a> {
    pub file: &'a str,
    pub line: u32,
}

/// The digit of a number below ten.
pub open spec fn digit(value: nat) -> char {
    (('0' as nat) + value) as char
}

/// A number in decimal, without leading zeros.
pub open spec fn decimal(value: nat) -> Seq<char>
    decreases value,
{
    if value < 10 {
        seq![digit(value)]
    } else {
        decimal(value / 10).push(digit(value % 10))
    }
}

/// The number that a decimal text stands for.
pub open spec fn decimal_value(text: Seq<char>) -> int
    decreases text.len(),
{
    if text.len() == 0 {
        0
    } else {
        decimal_value(text.drop_last()) * 10 + (text.last() as int - '0' as int)
    }
}

/// The text of a digit.
fn digit_text(value: u32) -> (text: &'static str)
    requires
        value < 10,
    ensures
        text@ == seq![digit(value as nat)],
{
    proof {
        reveal_strlit("0");
        reveal_strlit("1");
        reveal_strlit("2");
        reveal_strlit("3");
        reveal_strlit("4");
        reveal_strlit("5");
        reveal_strlit("6");
        reveal_strlit("7");
        reveal_strlit("8");
        reveal_strlit("9");
    }
    match value {
        0 => "0",
        1 => "1",
        2 => "2",
        3 => "3",
        4 => "4",
        5 => "5",
        6 => "6",
        7 => "7",
        8 => "8",
        _ => "9",
    }
}

/// Appends a number in decimal.
fn push_decimal(text: &mut String, value: u32)
    ensures
        final(text)@ == old(text)@ + decimal(value as nat),
    decreases value,
{
    if value >= 10 {
        push_decimal(text, value / 10);
    }
    text.append(digit_text(value % 10));
    assert(text@ =~= old(text)@ + decimal(value as nat));
}

/// Decimal text stands for the number that it was made of.
pub proof fn decimal_reads_back(value: nat)
    ensures
        decimal_value(decimal(value)) == value,
    decreases value,
{
    reveal_with_fuel(decimal_value, 2);
    if value < 10 {
        assert(decimal(value).drop_last() =~= seq![]);
    } else {
        decimal_reads_back(value / 10);
        assert(decimal(value).drop_last() =~= decimal(value / 10));
    }
}

/// Decimal text has digits alone, at least one, and no zero in front of others. With
/// what it reads back as, that leaves one text for each number.
pub proof fn decimal_has_no_leading_zeros(value: nat)
    ensures
        decimal(value).len() > 0,
        forall|i: int|
            0 <= i < decimal(value).len() ==> '0' <= #[trigger] decimal(value)[i] <= '9',
        decimal(value)[0] == '0' ==> value == 0 && decimal(value).len() == 1,
    decreases value,
{
    if value >= 10 {
        decimal_has_no_leading_zeros(value / 10);
    }
}

/// The name of a thread in a report.
pub open spec fn thread_name(thread: Option<&str>) -> Seq<char> {
    match thread {
        Some(name) => name@,
        None => "<unnamed>"@,
    }
}

/// The message of a panic in a report: its payload as a literal, else its payload as
/// a formatted text.
pub open spec fn panic_message(literal: Option<&str>, formatted: Option<&str>) -> Seq<char> {
    match (literal, formatted) {
        (Some(message), _) => message@,
        (None, Some(message)) => message@,
        (None, None) => "Box<Any>"@,
    }
}

/// The place of a panic in a report.
pub open spec fn panic_place(location: Option<PanicLocation>) -> Seq<char> {
    match location {
        Some(location) => ": "@ + location.file@ + ":"@ + decimal(location.line as nat),
        None => seq![],
    }
}

/// A report of a panic: the thread, the message, the place where it is known, and,
/// on lines of their own, the frames of the call stack.
///
/// `literal` and `formatted` are the panic's payload where it is a literal, and
/// where it is a formatted text.
pub fn panic_report(
    thread: Option<&str>,
    literal: Option<&str>,
    formatted: Option<&str>,
    location: Option<PanicLocation>,
    backtrace: &str,
) -> (report: String)
    ensures
        report@ == "thread '"@ + thread_name(thread) + "' panicked at '"@ + panic_message(
            literal,
            formatted,
        ) + "'"@ + panic_place(location) + "\n"@ + backtrace@,
{
    let mut report = String::new();
    report.append("thread '");
    report.append(
        match thread {
            Some(name) => name,
            None => "<unnamed>",
        },
    );
    report.append("' panicked at '");
    report.append(
        match literal {
            Some(message) => message,
            None => match formatted {
                Some(message) => message,
                None => "Box<Any>",
            },
        },
    );
    report.append("'");
    let ghost head = report@;
    if let Some(location) = location {
        report.append(": ");
        report.append(location.file);
        report.append(":");
        push_decimal(&mut report, location.line);
    }
    assert(report@ =~= head + panic_place(location));
    report.append("\n");
    report.append(backtrace);
    assert(head =~= "thread '"@ + thread_name(thread) + "' panicked at '"@ + panic_message(
        literal,
        formatted,
    ) + "'"@);
    report
}

/// A report names the thread where it has a name, gives the literal message where there
/// is one, else the formatted one, and gives the place where it is known, as the file,
/// a colon and the line.
pub proof fn reports_say_what_is_known(
    name: &str,
    message: &str,
    formatted: Option<&str>,
    location: PanicLocation,
)
    ensures
        thread_name(Some(name)) == name@,
        thread_name(None) == "<unnamed>"@,
        panic_message(Some(message), formatted) == message@,
        panic_message(None, Some(message)) == message@,
        panic_message(None, None) == "Box<Any>"@,
        panic_place(None).len() == 0,
        ({
            let place = panic_place(Some(location));
            let line = place.skip(location.file@.len() as int + 3);
            &&& place.take(2) == ": "@
            &&& place.subrange(2, 2 + location.file@.len() as int) == location.file@
            &&& place[2 + location.file@.len() as int] == ':'
            &&& decimal_value(line) == location.line
            &&& line == decimal(location.line as nat)
        }),
{
    reveal_strlit(": ");
    reveal_strlit(":");
    decimal_reads_back(location.line as nat);
    let place = panic_place(Some(location));
    assert(place.take(2) =~= ": "@);
    assert(place.subrange(2, 2 + location.file@.len() as int) =~= location.file@);
    assert(place.skip(location.file@.len() as int + 3) =~= decimal(location.line as nat));
}

/// What the host's crash callback is called with, if it is called. Where an
/// exception is pending, the host will find that on its own.
pub fn crash_notice(exception_pending: bool, report: String) -> (notice: Option<String>)
    ensures
        notice == if exception_pending {
            None
        } else {
            Some(report)
        },
{
    if exception_pending {
        None
    } else {
        Some(report)
    }
}

} // verus!
