//! The RFC 5424 line encoder: decimal rendering of the priority value and
//! assembly of the full wire-format line, with the NIL token `-` standing
//! in for every absent optional header field.

use vstd::prelude::*;
use crate::codes::Facility;
use crate::codes::Severity;
use crate::codes::priority_spec;

verus! {

/// The decimal digit character for a value below ten.
pub open spec fn digit_char(d: nat) -> char {
    if d == 0 {
        '0'
    } else if d == 1 {
        '1'
    } else if d == 2 {
        '2'
    } else if d == 3 {
        '3'
    } else if d == 4 {
        '4'
    } else if d == 5 {
        '5'
    } else if d == 6 {
        '6'
    } else if d == 7 {
        '7'
    } else if d == 8 {
        '8'
    } else {
        '9'
    }
}

/// The decimal rendering of a natural number, most significant digit first,
/// with no leading zero except for the number zero itself.
pub open spec fn dec_spec(n: nat) -> Seq<char>
    decreases n,
{
    if n < 10 {
        seq![digit_char(n)]
    } else {
        dec_spec(n / 10) + seq![digit_char(n % 10)]
    }
}

/// A one-character string slice holding the decimal digit for `d`.
fn digit_str(d: u8) -> (r: &'static str)
    requires
        d < 10,
    ensures
        r@ == seq![digit_char(d as nat)],
{
    proof {
        reveal_strlit("0");
        reveal_strlit("1");
        reveal_strlit("2");
        reveal_strlit("3");
        reveal_strlit("4");
        reveal_strlit("5");
        reveal_strlit("6");
        reveal_strlit("7");
        reveal_strlit("8");
        reveal_strlit("9");
    }
    let r: &'static str = match d {
        0 => "0",
        1 => "1",
        2 => "2",
        3 => "3",
        4 => "4",
        5 => "5",
        6 => "6",
        7 => "7",
        8 => "8",
        _ => "9",
    };
    proof {
        assert(r@ =~= seq![digit_char(d as nat)]);
    }
    r
}

/// Renders a byte as its decimal digits.
pub fn dec_u8(n: u8) -> (r: String)
    ensures
        r@ == dec_spec(n as nat),
    decreases n,
{
    if n < 10 {
        digit_str(n).to_owned()
    } else {
        let mut r = dec_u8(n / 10);
        r.append(digit_str(n % 10));
        r
    }
}

/// An optional header field as text: the configured token, or `None` when
/// the field is unset.
pub open spec fn opt_text(field: Option<&str>) -> Option<Seq<char>> {
    match field {
        Option::Some(t) => Option::Some(t@),
        Option::None => Option::None,
    }
}

/// The rendering of one optional header field: its token when set, the NIL
/// token `-` when absent.
pub open spec fn field_spec(field: Option<Seq<char>>) -> Seq<char> {
    match field {
        Option::Some(t) => t,
        Option::None => seq!['-'],
    }
}

/// The fixed head of a line: the priority in angle brackets, the version
/// digit `1`, a space, and the timestamp.
pub open spec fn header_spec(facility: Facility, severity: Severity, timestamp: Seq<char>) -> Seq<
    char,
> {
    seq!['<'] + dec_spec(priority_spec(facility, severity) as nat) + seq!['>', '1', ' '] + timestamp
}

/// The complete RFC 5424 wire line:
/// `<PRI>1 TIMESTAMP HOST APP-NAME PROCID MSGID MSG`, each optional field
/// rendered by [`field_spec`] and the message text appended unescaped.
pub open spec fn line_spec(
    facility: Facility,
    severity: Severity,
    timestamp: Seq<char>,
    host: Option<Seq<char>>,
    app: Option<Seq<char>>,
    pid: Option<Seq<char>>,
    msgid: Option<Seq<char>>,
    msg: Seq<char>,
) -> Seq<char> {
    header_spec(facility, severity, timestamp) + seq![' '] + field_spec(host) + seq![' ']
        + field_spec(app) + seq![' '] + field_spec(pid) + seq![' '] + field_spec(msgid) + seq![' ']
        + msg
}

/// Law: the encoder is deterministic. Two lines rendered from identical
/// header values, an identical timestamp and an identical message are the
/// same text, character for character.
pub proof fn lemma_line_deterministic(
    facility: Facility,
    severity: Severity,
    timestamp: Seq<char>,
    host: Option<Seq<char>>,
    app: Option<Seq<char>>,
    pid: Option<Seq<char>>,
    msgid: Option<Seq<char>>,
    msg: Seq<char>,
    r1: Seq<char>,
    r2: Seq<char>,
)
    requires
        r1 == line_spec(facility, severity, timestamp, host, app, pid, msgid, msg),
        r2 == line_spec(facility, severity, timestamp, host, app, pid, msgid, msg),
    ensures
        r1 == r2,
{
}

/// Law: NIL substitution. When no optional header field is set, the line is
/// the fixed header followed by the four NIL tokens `-`, one per field
/// position, and then the message.
pub proof fn lemma_nil_substitution(
    facility: Facility,
    severity: Severity,
    timestamp: Seq<char>,
    msg: Seq<char>,
)
    ensures
        line_spec(
            facility,
            severity,
            timestamp,
            Option::None,
            Option::None,
            Option::None,
            Option::None,
            msg,
        ) == header_spec(facility, severity, timestamp) + seq![' ', '-', ' ', '-', ' ', '-', ' ', '-', ' '] + msg,
{
    assert(line_spec(
        facility,
        severity,
        timestamp,
        Option::None,
        Option::None,
        Option::None,
        Option::None,
        msg,
    ) =~= header_spec(facility, severity, timestamp) + seq![' ', '-', ' ', '-', ' ', '-', ' ', '-', ' '] + msg);
}

/// Law: field presence. Setting exactly one optional header field changes
/// only that field's position relative to the all-NIL baseline; every other
/// field position still renders the NIL token.
pub proof fn lemma_single_field_presence(
    facility: Facility,
    severity: Severity,
    timestamp: Seq<char>,
    token: Seq<char>,
    msg: Seq<char>,
)
    ensures
        line_spec(
            facility,
            severity,
            timestamp,
            Option::Some(token),
            Option::None,
            Option::None,
            Option::None,
            msg,
        ) == header_spec(facility, severity, timestamp) + seq![' '] + token + seq![' ', '-', ' ', '-', ' ', '-', ' '] + msg,
        line_spec(
            facility,
            severity,
            timestamp,
            Option::None,
            Option::Some(token),
            Option::None,
            Option::None,
            msg,
        ) == header_spec(facility, severity, timestamp) + seq![' ', '-', ' '] + token + seq![' ', '-', ' ', '-', ' '] + msg,
        line_spec(
            facility,
            severity,
            timestamp,
            Option::None,
            Option::None,
            Option::Some(token),
            Option::None,
            msg,
        ) == header_spec(facility, severity, timestamp) + seq![' ', '-', ' ', '-', ' '] + token + seq![' ', '-', ' '] + msg,
        line_spec(
            facility,
            severity,
            timestamp,
            Option::None,
            Option::None,
            Option::None,
            Option::Some(token),
            msg,
        ) == header_spec(facility, severity, timestamp) + seq![' ', '-', ' ', '-', ' ', '-', ' '] + token + seq![' '] + msg,
{
    assert(line_spec(
        facility,
        severity,
        timestamp,
        Option::Some(token),
        Option::None,
        Option::None,
        Option::None,
        msg,
    ) =~= header_spec(facility, severity, timestamp) + seq![' '] + token + seq![' ', '-', ' ', '-', ' ', '-', ' '] + msg);
    assert(line_spec(
        facility,
        severity,
        timestamp,
        Option::None,
        Option::Some(token),
        Option::None,
        Option::None,
        msg,
    ) =~= header_spec(facility, severity, timestamp) + seq![' ', '-', ' '] + token + seq![' ', '-', ' ', '-', ' '] + msg);
    assert(line_spec(
        facility,
        severity,
        timestamp,
        Option::None,
        Option::None,
        Option::Some(token),
        Option::None,
        msg,
    ) =~= header_spec(facility, severity, timestamp) + seq![' ', '-', ' ', '-', ' '] + token + seq![' ', '-', ' '] + msg);
    assert(line_spec(
        facility,
        severity,
        timestamp,
        Option::None,
        Option::None,
        Option::None,
        Option::Some(token),
        msg,
    ) =~= header_spec(facility, severity, timestamp) + seq![' ', '-', ' ', '-', ' ', '-', ' '] + token + seq![' '] + msg);
}

/// The rendering of one optional field, as executable code.
fn field_or_nil<'a>(field: Option<&'a str>) -> (r: &'a str)
    ensures
        r@ == field_spec(opt_text(field)),
{
    proof {
        reveal_strlit("-");
    }
    match field {
        Option::Some(t) => t,
        Option::None => {
            let nil = "-";
            proof {
                assert(nil@ =~= seq!['-']);
            }
            nil
        },
    }
}

/// Assembles the full wire line for the given header values and message.
///
/// The timestamp is taken as already-rendered text; the encoder is a pure
/// function of its arguments, so equal inputs always give the identical
/// line.
pub fn encode_line(
    facility: Facility,
    severity: Severity,
    timestamp: &str,
    host: Option<&str>,
    app: Option<&str>,
    pid: Option<&str>,
    msgid: Option<&str>,
    msg: &str,
) -> (r: String)
    ensures
        r@ == line_spec(
            facility,
            severity,
            timestamp@,
            opt_text(host),
            opt_text(app),
            opt_text(pid),
            opt_text(msgid),
            msg@,
        ),
{
    proof {
        reveal_strlit("<");
        reveal_strlit(">1 ");
        reveal_strlit(" ");
        assert("<"@ =~= seq!['<']);
        assert(">1 "@ =~= seq!['>', '1', ' ']);
        assert(" "@ =~= seq![' ']);
    }
    let mut r = "<".to_owned();
    let pri = dec_u8(facility.code() | severity.code());
    r.append(pri.as_str());
    r.append(">1 ");
    r.append(timestamp);
    r.append(" ");
    r.append(field_or_nil(host));
    r.append(" ");
    r.append(field_or_nil(app));
    r.append(" ");
    r.append(field_or_nil(pid));
    r.append(" ");
    r.append(field_or_nil(msgid));
    r.append(" ");
    r.append(msg);
    r
}

} // verus!
