//! What callers can rely on of time, text, passwords, cookies and mail, said of
//! the calls themselves.

use axum_extra::extract::CookieJar;
use vstd::prelude::*;

use crate::auth::AuthError;
use crate::clock::Timestamp;
use crate::cookie::{
    cookies_in, session_cookie, session_id_of, without_session_id, SameSite, SessionCookie,
};
use crate::mail::{
    conclude_mail, prepare_mail, prepare_mail_at, rendered_mail, send_otp_email, send_reset_email,
    MailError, MailSettings, MailVariables, OutgoingMail, RenderedMail,
};
use crate::password::{
    argon2_accepts, argon2_hash, check_password, conclude_check, fits_argon2, hash_with_salt,
    is_phc_string, is_salt,
};
use crate::phc::{check_lanes, lanes_fit};
use crate::reply::{StatusCode, StatusReply};
use crate::room::guarantees::nanos_between;
use crate::state::AppState;
use crate::text::{
    decimal_value, fields_of, parse_port, port_number, same_ignoring_case, trim_trailing_slashes,
    without_trailing_slashes, write_digit, write_six_digits,
};

verus! {

/// A point in time is made of just the seconds and nanoseconds that were given,
/// if the calendar has it: between the years -262143 and 262142, with more than a
/// second of nanoseconds only in the last second of a minute.
pub proof fn points_are_made_as_given(secs: i64, nanos: u32, point: Option<Timestamp>)
    requires
        call_ensures(Timestamp::new, (secs, nanos), point),
    ensures
        point is Some <==> -8334601228800 <= secs <= 8210266876799 && (nanos < 1000000000 || (nanos
            < 2000000000 && secs % 60 == 59)),
        point matches Some(point) ==> point.secs == secs && point.nanos == nanos,
{
}

/// Points in time are ordered as the numbers that count their nanoseconds, a leap
/// second making its second twice as long.
pub proof fn points_are_ordered_by_their_count(a: &Timestamp, b: &Timestamp, earlier: bool)
    requires
        call_ensures(Timestamp::is_before, (a, b), earlier),
        a.nanos < 2000000000,
        b.nanos < 2000000000,
    ensures
        earlier <==> a.secs * 2000000000 + a.nanos < b.secs * 2000000000 + b.nanos,
{
}

/// Adding seconds moves the seconds by as many and leaves the nanoseconds. A move
/// out of a leap second leaves that second, and backwards it passes the second
/// that the leap second is counted with.
pub proof fn adding_moves_by_the_span(start: &Timestamp, span: i64, fits: bool, later: Timestamp)
    requires
        start.wf(),
        call_ensures(Timestamp::can_add_seconds, (start, span), fits),
        fits ==> call_ensures(Timestamp::add_seconds, (start, span), later),
    ensures
        start.nanos < 1000000000 ==> (fits <==> -9223372036854775 <= span <= 9223372036854775
            && -8334601228800 <= start.secs + span <= 8210266876799),
        start.nanos >= 1000000000 ==> (fits <==> -9223372036854775 <= span <= 9223372036854775
            && (if span < 0 {
            -8334601228800 <= start.secs + span + 1
        } else {
            start.secs + span <= 8210266876799
        })),
        fits && start.nanos < 1000000000 ==> later.secs == start.secs + span && later.nanos
            == start.nanos,
        fits && start.nanos >= 1000000000 && span > 0 ==> later.secs == start.secs + span
            && later.nanos == start.nanos - 1000000000,
        fits && start.nanos >= 1000000000 && span < 0 ==> later.secs == start.secs + span + 1
            && later.nanos == start.nanos - 1000000000,
        fits && span == 0 ==> later == *start,
{
}

/// The seconds between two points are the nanoseconds between them, divided and
/// rounded towards zero.
pub proof fn spans_are_rounded_towards_zero(end: &Timestamp, start: &Timestamp, span: i64)
    requires
        start.wf(),
        end.wf(),
        call_ensures(Timestamp::whole_seconds_since, (end, start), span),
    ensures
        nanos_between(*start, *end) >= 0 ==> span >= 0 && span * 1000000000 <= nanos_between(
            *start,
            *end,
        ) && nanos_between(*start, *end) < (span + 1) * 1000000000,
        nanos_between(*start, *end) < 0 ==> span <= 0 && (span - 1) * 1000000000 < nanos_between(
            *start,
            *end,
        ) && nanos_between(*start, *end) <= span * 1000000000,
{
}

/// Six digits, weighed by their places, give the number that was written.
pub proof fn written_digits_weigh_what_was_written(value: u32, text: String)
    requires
        value < 1000000,
        call_ensures(write_six_digits, (value,), text),
    ensures
        text@.len() == 6,
        forall|i: int| 0 <= i < 6 ==> '0' <= #[trigger] text@[i] <= '9',
        (text@[0] as int - 48) * 100000 + (text@[1] as int - 48) * 10000 + (text@[2] as int - 48)
            * 1000 + (text@[3] as int - 48) * 100 + (text@[4] as int - 48) * 10 + (text@[5] as int
            - 48) == value,
{
    let v = value as int;
    assert(v / 100000 == 0 * 10 + (v / 100000) % 10);
    assert(v / 10000 == (v / 100000) * 10 + (v / 10000) % 10);
    assert(v / 1000 == (v / 10000) * 10 + (v / 1000) % 10);
    assert(v / 100 == (v / 1000) * 10 + (v / 100) % 10);
    assert(v / 10 == (v / 100) * 10 + (v / 10) % 10);
    assert(v == (v / 10) * 10 + v % 10);
}

/// One digit is written as the character that stands for it.
pub proof fn single_digits_are_written(value: u32, text: String)
    requires
        value < 10,
        call_ensures(write_digit, (value,), text),
    ensures
        text@.len() == 1,
        text@[0] as int == 48 + value,
{
}

/// A port that was read from a text is ten times the port read without its last
/// digit, and that digit; it is refused from 65536 on.
pub proof fn ports_grow_by_their_digits(
    fewer: &str,
    more: &str,
    digit: char,
    before: Option<u16>,
    after: Option<u16>,
)
    requires
        call_ensures(parse_port, (fewer,), before),
        call_ensures(parse_port, (more,), after),
        more@ == fewer@.push(digit),
        '0' <= digit <= '9',
        before is Some,
    ensures
        before->0 * 10 + (digit as int - 48) < 65536 ==> after is Some && after->0 == before->0 * 10
            + (digit as int - 48),
        before->0 * 10 + (digit as int - 48) >= 65536 ==> after is None,
{
    let plus = fewer@[0] == '+';
    let short = if plus {
        fewer@.skip(1)
    } else {
        fewer@
    };
    let long = if more@[0] == '+' {
        more@.skip(1)
    } else {
        more@
    };
    assert(fewer@.len() > 0);
    assert(more@[0] == fewer@[0]);
    assert(long =~= short.push(digit));
    assert(long.drop_last() =~= short);
    assert forall|i: int| 0 <= i < long.len() implies crate::text::is_digit(
        #[trigger] long[i],
    ) by {
        if i < short.len() {
            assert(long[i] == short[i]);
        }
    }
    digits_are_no_less_than_zero(short);
    assert(decimal_value(long) == decimal_value(short) * 10 + (digit as int - 48));
}

/// A single digit, alone or after a plus sign, is read as its value.
pub proof fn single_digits_are_ports(text: &str, digit: char, port: Option<u16>)
    requires
        call_ensures(parse_port, (text,), port),
        '0' <= digit <= '9',
        text@ == seq![digit] || text@ == seq!['+', digit],
    ensures
        port is Some && port->0 == digit as int - 48,
{
    let digits = seq![digit];
    if text@ == seq!['+', digit] {
        assert(text@.skip(1) =~= digits);
    }
    assert(digits.drop_last() =~= Seq::<char>::empty());
    assert(decimal_value(digits.drop_last()) == 0);
    assert(decimal_value(digits) == digit as int - 48);
}

/// Only digits, perhaps after a plus sign, are a port, and at least one; once the
/// number is too large, further digits do not make it a port.
pub proof fn other_texts_are_no_ports(
    text: &str,
    port: Option<u16>,
    more: &str,
    digit: char,
    after: Option<u16>,
)
    requires
        call_ensures(parse_port, (text,), port),
        call_ensures(parse_port, (more,), after),
        more@ == text@.push(digit),
    ensures
        text@.len() == 0 ==> port is None,
        text@ == seq!['+'] ==> port is None,
        forall|i: int|
            0 <= i < text@.len() && !('0' <= #[trigger] text@[i] <= '9') && !(i == 0 && text@[i]
                == '+') ==> port is None,
        port is None && after is Some ==> text@.len() == 0 || text@ == seq!['+'],
{
    if exists|i: int|
        0 <= i < text@.len() && !('0' <= #[trigger] text@[i] <= '9') && !(i == 0 && text@[i]
            == '+') {
        let i = choose|i: int|
            0 <= i < text@.len() && !('0' <= #[trigger] text@[i] <= '9') && !(i == 0 && text@[i]
                == '+');
        if text@[0] == '+' {
            assert(text@.skip(1)[i - 1] == text@[i]);
        }
        assert(port is None);
    }
    if text@ == seq!['+'] {
        assert(text@.skip(1).len() == 0);
    }
    if after is Some && text@.len() > 0 && text@ != seq!['+'] {
        let plus = text@[0] == '+';
        assert(more@[0] == text@[0]);
        let short = if plus {
            text@.skip(1)
        } else {
            text@
        };
        let long = if plus {
            more@.skip(1)
        } else {
            more@
        };
        assert(long =~= short.push(digit));
        assert(long.drop_last() =~= short);
        if short.len() == 0 {
            assert(text@ =~= seq!['+']);
        }
        assert forall|i: int| 0 <= i < short.len() implies crate::text::is_digit(
            #[trigger] short[i],
        ) by {
            assert(crate::text::is_digit(long[i]));
        }
        digits_are_no_less_than_zero(short);
        assert(crate::text::is_digit(long[short.len() as int]));
        assert(decimal_value(long) == decimal_value(short) * 10 + (digit as int - 48));
        assert(decimal_value(short) <= decimal_value(long));
    }
}

proof fn digits_are_no_less_than_zero(digits: Seq<char>)
    requires
        forall|i: int| 0 <= i < digits.len() ==> crate::text::is_digit(#[trigger] digits[i]),
    ensures
        decimal_value(digits) >= 0,
    decreases digits.len(),
{
    if digits.len() > 0 {
        let rest = digits.drop_last();
        assert forall|i: int| 0 <= i < rest.len() implies crate::text::is_digit(
            #[trigger] rest[i],
        ) by {
            assert(rest[i] == digits[i]);
        }
        digits_are_no_less_than_zero(rest);
        assert(crate::text::is_digit(digits[digits.len() - 1]));
    }
}

/// Trimming takes slashes and nothing else off the end of a text, and all of
/// them.
pub proof fn trimming_takes_all_slashes_and_nothing_else(text: &str, trimmed: String)
    requires
        call_ensures(trim_trailing_slashes, (text,), trimmed),
    ensures
        trimmed@.is_prefix_of(text@),
        forall|i: int| trimmed@.len() <= i < text@.len() ==> #[trigger] text@[i] == '/',
        trimmed@.len() > 0 ==> trimmed@.last() != '/',
{
    trimmed_text(text@);
}

proof fn trimmed_text(text: Seq<char>)
    ensures
        without_trailing_slashes(text).is_prefix_of(text),
        forall|i: int|
            without_trailing_slashes(text).len() <= i < text.len() ==> #[trigger] text[i] == '/',
        without_trailing_slashes(text).len() > 0 ==> without_trailing_slashes(text).last() != '/',
    decreases text.len(),
{
    if text.len() > 0 && text.last() == '/' {
        let rest = text.drop_last();
        trimmed_text(rest);
        let base = without_trailing_slashes(text);
        assert(base =~= text.subrange(0, base.len() as int)) by {
            assert(base =~= rest.subrange(0, base.len() as int));
        }
        assert forall|i: int| base.len() <= i < text.len() implies #[trigger] text[i] == '/' by {
            if i < rest.len() {
                assert(rest[i] == text[i]);
            }
        }
    }
}

/// Two texts agree up to case just if each pair of characters is the same, or one
/// is an ASCII capital and the other its small letter.
pub proof fn only_ascii_letters_lose_their_case(left: &str, right: &str, same: bool)
    requires
        call_ensures(same_ignoring_case, (left, right), same),
    ensures
        same <==> left@.len() == right@.len() && forall|i: int|
            0 <= i < left@.len() ==> (#[trigger] left@[i]) == right@[i] || ('A' <= left@[i] <= 'Z'
                && right@[i] as int == left@[i] as int + 32) || ('A' <= right@[i] <= 'Z'
                && left@[i] as int == right@[i] as int + 32),
{
    if left@.len() == right@.len() {
        assert forall|i: int| 0 <= i < left@.len() implies ((#[trigger] left@[i]) == right@[i] || (
        'A' <= left@[i] <= 'Z' && right@[i] as int == left@[i] as int + 32) || ('A' <= right@[i]
            <= 'Z' && left@[i] as int == right@[i] as int + 32)) == (crate::text::ascii_lower(
            left@[i],
        ) == crate::text::ascii_lower(right@[i])) by {
        }
        if same {
            assert forall|i: int| 0 <= i < left@.len() implies (#[trigger] left@[i]) == right@[i]
                || ('A' <= left@[i] <= 'Z' && right@[i] as int == left@[i] as int + 32) || ('A'
                <= right@[i] <= 'Z' && left@[i] as int == right@[i] as int + 32) by {
                assert(crate::text::ascii_lower(left@[i]) == crate::text::ascii_lower(right@[i]));
            }
        }
    }
}

/// Whether a text holds no character `c`.
pub open spec fn lacks(text: Seq<char>, c: char) -> bool {
    forall|i: int| 0 <= i < text.len() ==> #[trigger] text[i] != c
}

proof fn text_without_separators_is_one_field(text: Seq<char>, c: char)
    requires
        lacks(text, c),
    ensures
        fields_of(text, c) == seq![text],
    decreases text.len(),
{
    if text.len() > 0 {
        let rest = text.drop_last();
        assert(lacks(rest, c)) by {
            assert forall|i: int| 0 <= i < rest.len() implies #[trigger] rest[i] != c by {
                assert(rest[i] == text[i]);
            }
        }
        text_without_separators_is_one_field(rest, c);
        assert(text[text.len() - 1] != c);
        assert(rest.push(text.last()) =~= text);
        assert(fields_of(text, c) =~= seq![text]);
    } else {
        assert(text =~= Seq::empty());
        assert(fields_of(text, c) =~= seq![text]);
    }
}

proof fn fields_are_joined(left: Seq<char>, right: Seq<char>, c: char)
    ensures
        fields_of(left.push(c) + right, c) == fields_of(left, c) + fields_of(right, c),
    decreases right.len(),
{
    let text = left.push(c) + right;
    if right.len() == 0 {
        assert(text =~= left.push(c));
        assert(text.drop_last() =~= left);
        assert(fields_of(text, c) =~= fields_of(left, c) + fields_of(right, c));
    } else {
        let rest = right.drop_last();
        fields_are_joined(left, rest, c);
        assert(text.drop_last() =~= left.push(c) + rest);
        assert(text.last() == right.last());
        there_is_a_field(rest, c);
        let before = fields_of(left, c);
        let after = fields_of(rest, c);
        if right.last() == c {
            assert((before + after).push(Seq::empty()) =~= before + after.push(Seq::empty()));
        } else {
            let grown = after.last().push(right.last());
            assert((before + after).last() == after.last());
            assert((before + after).update((before + after).len() - 1, grown) =~= before
                + after.update(after.len() - 1, grown));
        }
    }
}

proof fn there_is_a_field(text: Seq<char>, c: char)
    ensures
        fields_of(text, c).len() > 0,
    decreases text.len(),
{
    if text.len() > 0 {
        there_is_a_field(text.drop_last(), c);
    }
}

proof fn last_parameter_decides(before: Seq<Seq<char>>, lanes: Seq<char>)
    ensures
        crate::phc::last_lanes_fit(before.push(seq!['p', '='] + lanes)) <==> lanes.len() <= 8,
{
    let last = seq!['p', '='] + lanes;
    assert(before.push(last).last() == last);
    assert(last[0] == 'p' && last[1] == '=');
}

/// A PHC string with a version.
pub open spec fn versioned_phc(
    algorithm: Seq<char>,
    version: Seq<char>,
    parameters: Seq<char>,
    rest: Seq<char>,
) -> Seq<char> {
    (seq!['$'] + algorithm).push('$') + ((seq!['v', '='] + version).push('$') + (parameters.push(
        '$',
    ) + rest))
}

/// A PHC string without a version.
pub open spec fn unversioned_phc(
    algorithm: Seq<char>,
    parameters: Seq<char>,
    rest: Seq<char>,
) -> Seq<char> {
    (seq!['$'] + algorithm).push('$') + (parameters.push('$') + rest)
}

proof fn algorithm_comes_first(algorithm: Seq<char>, after: Seq<char>)
    requires
        lacks(algorithm, '$'),
    ensures
        fields_of((seq!['$'] + algorithm).push('$') + after, '$') == seq![
            Seq::<char>::empty(),
            algorithm,
        ] + fields_of(after, '$'),
{
    let empty = Seq::<char>::empty();
    let head = seq!['$'] + algorithm;
    assert(head =~= empty.push('$') + algorithm);
    fields_are_joined(empty, algorithm, '$');
    text_without_separators_is_one_field(empty, '$');
    text_without_separators_is_one_field(algorithm, '$');
    fields_are_joined(head, after, '$');
    assert(seq![empty] + seq![algorithm] =~= seq![empty, algorithm]);
}

proof fn parameters_come_after_the_version(
    algorithm: Seq<char>,
    version: Seq<char>,
    parameters: Seq<char>,
    rest: Seq<char>,
)
    requires
        lacks(algorithm, '$'),
        lacks(version, '$'),
        lacks(version, ','),
        lacks(parameters, '$'),
        parameters.contains('='),
    ensures
        crate::phc::parameters(
            fields_of(versioned_phc(algorithm, version, parameters, rest), '$'),
        ) == parameters,
{
    let named = seq!['v', '='] + version;
    let tail = parameters.push('$') + rest;
    algorithm_comes_first(algorithm, named.push('$') + tail);
    assert forall|i: int| 0 <= i < named.len() implies #[trigger] named[i] != '$' && named[i]
        != ',' by {
        if i >= 2 {
            assert(named[i] == version[i - 2]);
        }
    }
    fields_are_joined(named, tail, '$');
    text_without_separators_is_one_field(named, '$');
    fields_are_joined(parameters, rest, '$');
    text_without_separators_is_one_field(parameters, '$');
    let fields = fields_of(versioned_phc(algorithm, version, parameters, rest), '$');
    assert(fields == seq![Seq::<char>::empty(), algorithm] + (seq![named] + (seq![parameters]
        + fields_of(rest, '$'))));
    assert(fields[2] == named && fields[3] == parameters);
    assert(named[0] == 'v' && named[1] == '=');
    assert(!named.contains(','));
}

proof fn parameters_come_after_the_algorithm(
    algorithm: Seq<char>,
    parameters: Seq<char>,
    rest: Seq<char>,
)
    requires
        lacks(algorithm, '$'),
        lacks(parameters, '$'),
        parameters.contains('='),
        parameters[0] != 'v' || parameters[1] != '=',
    ensures
        crate::phc::parameters(fields_of(unversioned_phc(algorithm, parameters, rest), '$'))
            == parameters,
{
    algorithm_comes_first(algorithm, parameters.push('$') + rest);
    fields_are_joined(parameters, rest, '$');
    text_without_separators_is_one_field(parameters, '$');
    let fields = fields_of(unversioned_phc(algorithm, parameters, rest), '$');
    assert(fields == seq![Seq::<char>::empty(), algorithm] + (seq![parameters] + fields_of(
        rest,
        '$',
    )));
    assert(fields[2] == parameters);
}

/// A number of lanes that stands last among the parameters decides, whatever
/// stands before it and whatever salt and hash come after: it may have eight
/// digits and no more.
pub proof fn last_number_of_lanes_decides(
    phc: &str,
    alone: &str,
    algorithm: Seq<char>,
    version: Seq<char>,
    before: Seq<char>,
    lanes: Seq<char>,
    rest: Seq<char>,
    fit: bool,
    fit_alone: bool,
)
    requires
        call_ensures(check_lanes, (phc,), fit),
        call_ensures(check_lanes, (alone,), fit_alone),
        lacks(algorithm, '$'),
        lacks(version, '$'),
        lacks(version, ','),
        lacks(before, '$'),
        lacks(lanes, '$'),
        lacks(lanes, ','),
        phc@ == versioned_phc(
            algorithm,
            version,
            before.push(',') + (seq!['p', '='] + lanes),
            rest,
        ),
        alone@ == versioned_phc(algorithm, version, seq!['p', '='] + lanes, rest),
    ensures
        fit <==> lanes.len() <= 8,
        fit_alone <==> lanes.len() <= 8,
{
    let named = seq!['p', '='] + lanes;
    let parameters = before.push(',') + named;
    assert forall|i: int| 0 <= i < named.len() implies #[trigger] named[i] != '$' && named[i]
        != ',' by {
        if i >= 2 {
            assert(named[i] == lanes[i - 2]);
        }
    }
    assert forall|i: int| 0 <= i < parameters.len() implies #[trigger] parameters[i] != '$' by {
        if i < before.len() {
            assert(parameters[i] == before[i]);
        } else if i > before.len() {
            assert(parameters[i] == named[i - before.len() - 1]);
        }
    }
    assert(named[1] == '=');
    assert(parameters[before.len() as int + 2] == named[1]);
    parameters_come_after_the_version(algorithm, version, parameters, rest);
    parameters_come_after_the_version(algorithm, version, named, rest);
    fields_are_joined(before, named, ',');
    text_without_separators_is_one_field(named, ',');
    assert(fields_of(before, ',') + seq![named] =~= fields_of(before, ',').push(named));
    last_parameter_decides(fields_of(before, ','), lanes);
    assert(seq![named] =~= Seq::<Seq<char>>::empty().push(named));
    last_parameter_decides(Seq::empty(), lanes);
}

/// A further parameter that is not a number of lanes makes no difference to
/// whether the lanes fit, and neither does leaving the version out.
pub proof fn other_parts_of_a_hash_make_no_difference(
    fewer: &str,
    more: &str,
    unversioned: &str,
    algorithm: Seq<char>,
    version: Seq<char>,
    parameters: Seq<char>,
    further: Seq<char>,
    rest: Seq<char>,
    fit: bool,
    fit_more: bool,
    fit_unversioned: bool,
)
    requires
        call_ensures(check_lanes, (fewer,), fit),
        call_ensures(check_lanes, (more,), fit_more),
        call_ensures(check_lanes, (unversioned,), fit_unversioned),
        lacks(algorithm, '$'),
        lacks(version, '$'),
        lacks(version, ','),
        lacks(parameters, '$'),
        lacks(further, '$'),
        lacks(further, ','),
        parameters.contains('='),
        parameters[0] != 'v' || parameters[1] != '=',
        further.len() < 2 || further[0] != 'p' || further[1] != '=',
        fewer@ == versioned_phc(algorithm, version, parameters, rest),
        more@ == versioned_phc(algorithm, version, parameters.push(',') + further, rest),
        unversioned@ == unversioned_phc(algorithm, parameters, rest),
    ensures
        fit_more == fit,
        fit_unversioned == fit,
{
    let longer = parameters.push(',') + further;
    assert forall|i: int| 0 <= i < longer.len() implies #[trigger] longer[i] != '$' by {
        if i < parameters.len() {
            assert(longer[i] == parameters[i]);
        } else if i > parameters.len() {
            assert(longer[i] == further[i - parameters.len() - 1]);
        }
    }
    let k = parameters.index_of('=');
    assert(longer[k] == parameters[k]);
    parameters_come_after_the_version(algorithm, version, parameters, rest);
    parameters_come_after_the_version(algorithm, version, longer, rest);
    parameters_come_after_the_algorithm(algorithm, parameters, rest);
    fields_are_joined(parameters, further, ',');
    text_without_separators_is_one_field(further, ',');
    let known = fields_of(parameters, ',');
    assert(known + seq![further] =~= known.push(further));
    assert(known.push(further).drop_last() =~= known);
}

/// What checking a password leads to says whether the stored text could be read
/// and whether the password belongs to it: success only if both.
pub proof fn checks_pass_only_for_the_right_password(
    hash: &str,
    password: &str,
    res: Result<(), AuthError>,
    readable: bool,
    accepted: bool,
    concluded: Result<(), AuthError>,
    fit: bool,
)
    requires
        call_ensures(check_password, (hash, password), res),
        call_ensures(conclude_check, (readable, accepted), concluded),
        call_ensures(check_lanes, (hash,), fit),
    ensures
        res is Ok ==> is_phc_string(hash@) && argon2_accepts(password@, hash@),
        is_phc_string(hash@) && fit && argon2_accepts(password@, hash@) ==> res is Ok,
        is_phc_string(hash@) && !(fit && argon2_accepts(password@, hash@)) ==> res == Err::<
            (),
            AuthError,
        >(AuthError::InvalidCredentials),
        !is_phc_string(hash@) ==> res == Err::<(), AuthError>(AuthError::HashError),
        concluded is Ok <==> readable && accepted,
        concluded == Err::<(), AuthError>(AuthError::HashError) <==> !readable,
        fit <==> lanes_fit(hash@),
{
}

/// A hash made with a proper salt is what Argon2 makes of the password and that
/// salt, and the password passes the check against it.
pub proof fn hashes_accept_their_password(
    password: &str,
    salt: &str,
    hashed: Result<String, AuthError>,
    stored: &str,
    checked: Result<(), AuthError>,
)
    requires
        call_ensures(hash_with_salt, (password, salt), hashed),
        call_ensures(check_password, (stored, password), checked),
    ensures
        hashed is Ok <==> argon2_hash(password@, salt@) is Some,
        hashed matches Ok(hash) ==> argon2_hash(password@, salt@) == Some(hash@),
        hashed matches Err(e) ==> e == AuthError::HashError,
        is_salt(salt@) ==> (hashed is Ok <==> fits_argon2(password@)),
        is_salt(salt@) ==> (hashed matches Ok(hash) ==> (hash@ == stored@ ==> checked is Ok)),
{
}

/// Each status has the number that HTTP gives it.
pub proof fn statuses_have_their_numbers(status: &StatusCode, number: u16)
    requires
        call_ensures(StatusCode::as_u16, (status,), number),
    ensures
        status is Created <==> number == 201,
        status is BadRequest <==> number == 400,
        status is Unauthorized <==> number == 401,
        status is TooManyRequests <==> number == 429,
        status is InternalServerError <==> number == 500,
{
}

/// Short answers say what they were made to say, and no more.
pub proof fn short_answers_say_no_more(
    success: bool,
    message: &str,
    ttl: i32,
    plain: StatusReply,
    worded: StatusReply,
    timed: StatusReply,
)
    requires
        call_ensures(StatusReply::plain, (success,), plain),
        call_ensures(StatusReply::with_message, (success, message), worded),
        call_ensures(StatusReply::with_ttl, (ttl,), timed),
    ensures
        plain.success == success,
        plain.message is None,
        plain.default_ttl_seconds is None,
        worded.success == success,
        worded.message matches Some(text) && text@ == message@,
        worded.default_ttl_seconds is None,
        timed.success,
        timed.message is None,
        timed.default_ttl_seconds == Some(ttl),
{
}

/// A session id goes into its cookie as it is, under its name, for a day.
pub proof fn cookies_carry_their_session_id(session_id: &str, cookie: SessionCookie)
    requires
        forall|i: int|
            0 <= i < session_id@.len() ==> '!' <= #[trigger] session_id@[i] <= '~'
                && session_id@[i] != ';',
        call_ensures(session_cookie, (session_id,), cookie),
    ensures
        cookie.name@ == "session_id"@,
        cookie.value@ == session_id@,
        cookie.http_only == Some(true),
        cookie.same_site == Some(SameSite::Lax),
        cookie.path matches Some(path) && path@ == "/"@,
        cookie.max_age_seconds matches Some(age) && age == 24 * 60 * 60,
{
}

/// The session id is what the cookie of that name holds, and taking it out leaves
/// every other cookie.
pub proof fn session_ids_are_read_and_taken_out(
    jar: CookieJar,
    id: Option<String>,
    rest: CookieJar,
    gone: Option<String>,
)
    requires
        call_ensures(session_id_of, (&jar,), id),
        call_ensures(without_session_id, (jar,), rest),
        call_ensures(session_id_of, (&rest,), gone),
    ensures
        id is Some <==> cookies_in(jar).contains_key("session_id"@),
        id matches Some(id) ==> id@ == cookies_in(jar)["session_id"@],
        gone is None,
        forall|name: Seq<char>|
            name != "session_id"@ ==> (#[trigger] cookies_in(rest).contains_key(name)
                <==> cookies_in(jar).contains_key(name)) && (cookies_in(jar).contains_key(name)
                ==> cookies_in(rest)[name] == cookies_in(jar)[name]),
{
}

/// A server that has just started has no sockets, no sessions, no logins that
/// wait and no codes.
pub proof fn servers_start_empty(state: AppState)
    requires
        call_ensures(AppState::new, (), state),
    ensures
        forall|id: u128| !(#[trigger] state.connections@.contains_key(id)),
        forall|id: Seq<char>| !(#[trigger] state.sessions@.contains_key(id)),
        forall|id: Seq<char>| !(#[trigger] state.temp_sessions@.contains_key(id)),
        forall|id: u128| !(#[trigger] state.otp_store@.contains_key(id)),
{
}

/// Whether `settings` are those of `variables`, all of which are needed but for
/// the name, the mode and the leave to accept invalid certificates.
pub open spec fn are_settings_of(settings: MailSettings, variables: MailVariables) -> bool {
    &&& variables.host matches Some(host) && host@ == settings.host@
    &&& variables.port matches Some(port) && port_number(port@) == Some(settings.port)
    &&& variables.user matches Some(user) && user@ == settings.user@
    &&& variables.password matches Some(password) && password@ == settings.password@
    &&& variables.from_email matches Some(email) && email@ == settings.from_email@
    &&& variables.from_name matches Some(name) ==> name@ == settings.from_name@
    &&& variables.from_name is None ==> settings.from_name@ == "Realtime Chat"@
    &&& settings.security is Wrapper <==> (variables.mode matches Some(mode) && (mode@
        == "wrapper"@ || mode@ == "smtps"@))
    &&& settings.security is Plain <==> (variables.mode matches Some(mode) && (mode@
        == "insecure"@ || mode@ == "plain"@))
    &&& settings.accept_invalid_certs <==> (variables.accept_invalid_certs matches Some(value) && (
    value@ == "1"@ || is_true(value@)))
}

/// Whether a text is `true`, in capitals, small letters or both.
pub open spec fn is_true(text: Seq<char>) -> bool {
    &&& text.len() == 4
    &&& text[0] == 't' || text[0] == 'T'
    &&& text[1] == 'r' || text[1] == 'R'
    &&& text[2] == 'u' || text[2] == 'U'
    &&& text[3] == 'e' || text[3] == 'E'
}

/// Whether no mail can be sent with `variables`, and `error` is the first reason.
pub open spec fn is_first_fault(error: MailError, variables: MailVariables) -> bool {
    let port_is_read = variables.port matches Some(port) && port_number(port@) is Some;
    &&& error is MissingHost <==> variables.host is None
    &&& error is MissingPort <==> variables.host is Some && variables.port is None
    &&& error is InvalidPort <==> variables.host is Some && variables.port is Some && !port_is_read
    &&& error is MissingUser <==> variables.host is Some && port_is_read && variables.user is None
    &&& error is MissingPassword <==> variables.host is Some && port_is_read && variables.user
        is Some && variables.password is None
    &&& error is MissingSender <==> variables.host is Some && port_is_read && variables.user
        is Some && variables.password is Some && variables.from_email is None
}

/// Whether `variables` say all that is needed to send mail.
pub open spec fn are_complete(variables: MailVariables) -> bool {
    &&& variables.host is Some
    &&& variables.port matches Some(port) && port_number(port@) is Some
    &&& variables.user is Some
    &&& variables.password is Some
    &&& variables.from_email is Some
}

proof fn distinct_modes()
    ensures
        "wrapper"@ != "insecure"@,
        "wrapper"@ != "plain"@,
        "smtps"@ != "insecure"@,
        "smtps"@ != "plain"@,
{
    reveal_strlit("wrapper");
    reveal_strlit("smtps");
    reveal_strlit("insecure");
    reveal_strlit("plain");
    assert("wrapper"@.len() == 7 && "insecure"@.len() == 8 && "plain"@.len() == 5
        && "smtps"@.len() == 5);
    assert("smtps"@[0] == 's' && "plain"@[0] == 'p');
}

proof fn truth_ignores_case(value: Seq<char>)
    ensures
        crate::text::equal_ignoring_case(value, "true"@) <==> is_true(value),
{
    reveal_strlit("true");
    let word = "true"@;
    assert(word.len() == 4 && word[0] == 't' && word[1] == 'r' && word[2] == 'u' && word[3]
        == 'e');
    if crate::text::equal_ignoring_case(value, word) {
        assert(crate::text::ascii_lower(value[0]) == crate::text::ascii_lower(word[0]));
        assert(crate::text::ascii_lower(value[1]) == crate::text::ascii_lower(word[1]));
        assert(crate::text::ascii_lower(value[2]) == crate::text::ascii_lower(word[2]));
        assert(crate::text::ascii_lower(value[3]) == crate::text::ascii_lower(word[3]));
    }
}

proof fn settings_given(variables: MailVariables, settings: MailSettings)
    requires
        variables.give(settings),
    ensures
        are_settings_of(settings, variables),
        are_complete(variables),
{
    distinct_modes();
    if variables.accept_invalid_certs is Some {
        truth_ignores_case(variables.accept_invalid_certs->0@);
    }
}

/// Settings are read from the variables if all that is needed is there, and the
/// first thing that is missing or wrong is named if not.
pub proof fn settings_are_read_from_the_variables(
    variables: MailVariables,
    res: Result<MailSettings, MailError>,
)
    requires
        call_ensures(MailSettings::from_variables, (variables,), res),
    ensures
        res is Ok <==> are_complete(variables),
        res matches Ok(settings) ==> are_settings_of(settings, variables),
        res matches Err(e) ==> is_first_fault(e, variables),
{
    if res is Ok {
        settings_given(variables, res->Ok_0);
    }
}

/// The port in the settings is the one that is read from the variable.
pub proof fn ports_are_read_alike(text: &str, port: Option<u16>)
    requires
        call_ensures(parse_port, (text,), port),
    ensures
        port == port_number(text@),
{
}

/// A mail that could be put together goes out with its settings; one that could
/// not is an error.
pub proof fn mails_go_out_as_they_were_made(
    settings: MailSettings,
    mail: Option<RenderedMail>,
    res: Result<OutgoingMail, MailError>,
)
    requires
        call_ensures(conclude_mail, (settings, mail), res),
    ensures
        res is Ok <==> mail is Some,
        res matches Ok(outgoing) ==> outgoing.settings == settings && Some(outgoing.mail) == mail,
        res matches Err(e) ==> e == MailError::InvalidMessage,
{
}

/// Whether `res` is a plain text mail from the configured sender to the given
/// recipient, with the given subject, body and date, or the reason why there is
/// none.
pub open spec fn is_mail_to(
    res: Result<OutgoingMail, MailError>,
    variables: MailVariables,
    to_name: Seq<char>,
    to_email: Seq<char>,
    subject: Seq<char>,
    body: Seq<char>,
    sent_at: u64,
) -> bool {
    let from_name = match variables.from_name {
        Some(name) => name@,
        None => "Realtime Chat"@,
    };
    let made = rendered_mail(
        from_name + " <"@ + variables.from_email->0@ + ">"@,
        to_name + " <"@ + to_email + ">"@,
        subject,
        body,
        sent_at,
    );
    &&& res is Ok <==> are_complete(variables) && made is Some
    &&& res matches Ok(outgoing) ==> are_settings_of(outgoing.settings, variables) && made
        == Some((outgoing.mail.sender@, outgoing.mail.recipient@, outgoing.mail.content@))
    &&& res matches Err(e) ==> {
        &&& !are_complete(variables) ==> is_first_fault(e, variables)
        &&& are_complete(variables) ==> e == MailError::InvalidMessage
    }
}

proof fn mail_is_to(
    res: Result<OutgoingMail, MailError>,
    variables: MailVariables,
    to_name: Seq<char>,
    to_email: Seq<char>,
    subject: Seq<char>,
    body: Seq<char>,
    sent_at: u64,
)
    requires
        crate::mail::is_mail(res, variables, to_name, to_email, subject, body, sent_at),
    ensures
        is_mail_to(res, variables, to_name, to_email, subject, body, sent_at),
{
    if res is Ok {
        settings_given(variables, res->Ok_0.settings);
    }
}

/// Mails go from the configured sender to the given recipient, with the given
/// words and date; past the year 9999 there is no date for them.
pub proof fn mails_are_put_together_as_asked(
    variables: MailVariables,
    to_name: &str,
    to_email: &str,
    subject: &str,
    body: &str,
    sent_at: u64,
    dated: Result<OutgoingMail, MailError>,
    now: Timestamp,
    res: Result<OutgoingMail, MailError>,
)
    requires
        sent_at < 253402300800,
        call_ensures(prepare_mail, (variables, to_name, to_email, subject, body, sent_at), dated),
        now.is_reading(),
        call_ensures(prepare_mail_at, (variables, to_name, to_email, subject, body, now), res),
    ensures
        is_mail_to(dated, variables, to_name@, to_email@, subject@, body@, sent_at),
        now.secs < 253402300800 || !are_complete(variables) ==> is_mail_to(
            res,
            variables,
            to_name@,
            to_email@,
            subject@,
            body@,
            now.secs as u64,
        ),
        now.secs >= 253402300800 && are_complete(variables) ==> res == Err::<
            OutgoingMail,
            MailError,
        >(MailError::ClockOutOfRange),
{
    mail_is_to(dated, variables, to_name@, to_email@, subject@, body@, sent_at);
    if variables.fault() is Some || now.secs < 253402300800 {
        mail_is_to(res, variables, to_name@, to_email@, subject@, body@, now.secs as u64);
    }
}

/// Whether `res` is a mail with the given words that is sent now.
pub open spec fn is_mail_now(
    res: Result<OutgoingMail, MailError>,
    variables: MailVariables,
    to_name: Seq<char>,
    to_email: Seq<char>,
    subject: Seq<char>,
    body: Seq<char>,
) -> bool {
    exists|now: Timestamp| #[trigger]
        now.is_reading() && {
            &&& now.secs < 253402300800 || !are_complete(variables) ==> is_mail_to(
                res,
                variables,
                to_name,
                to_email,
                subject,
                body,
                now.secs as u64,
            )
            &&& now.secs >= 253402300800 && are_complete(variables) ==> res == Err::<
                OutgoingMail,
                MailError,
            >(MailError::ClockOutOfRange)
        }
}

proof fn mail_is_now(
    res: Result<OutgoingMail, MailError>,
    variables: MailVariables,
    to_name: Seq<char>,
    to_email: Seq<char>,
    subject: Seq<char>,
    body: Seq<char>,
)
    requires
        exists|now: Timestamp| #[trigger]
            now.is_reading() && crate::mail::is_mail_at(
                res,
                variables,
                to_name,
                to_email,
                subject,
                body,
                now,
            ),
    ensures
        is_mail_now(res, variables, to_name, to_email, subject, body),
{
    let now = choose|now: Timestamp| #[trigger]
        now.is_reading() && crate::mail::is_mail_at(
            res,
            variables,
            to_name,
            to_email,
            subject,
            body,
            now,
        );
    if variables.fault() is Some || now.secs < 253402300800 {
        mail_is_to(res, variables, to_name, to_email, subject, body, now.secs as u64);
    }
    assert(now.is_reading());
}

/// The mail with a code greets its user by name and carries the code; the mail
/// with a link carries the link.
pub proof fn mails_carry_their_code_or_link(
    variables: MailVariables,
    to_email: &str,
    to_name: &str,
    code: &str,
    link: &str,
    with_code: Result<OutgoingMail, MailError>,
    with_link: Result<OutgoingMail, MailError>,
)
    requires
        call_ensures(send_otp_email, (variables, to_email, to_name, code), with_code),
        call_ensures(send_reset_email, (variables, to_email, to_name, link), with_link),
    ensures
        is_mail_now(
            with_code,
            variables,
            to_name@,
            to_email@,
            "Your Login Verification Code"@,
            "Hello "@ + to_name@ + ",\n\nYour verification code is: "@ + code@
                + "\n\nThis code will expire in 10 minutes.\nIf you didn't request this code, please ignore this email.\n\nBest regards,\nCode Exploration Real Time Chat Team"@,
        ),
        is_mail_now(
            with_link,
            variables,
            to_name@,
            to_email@,
            "Password Reset Request"@,
            "Hello "@ + to_name@
                + ",\n\nWe received a request to reset your password.\n\nClick the link to set a new password (valid for 30 minutes):\n"@
                + link@ + "\n\nIf you did not request this, you can ignore this email."@,
        ),
{
    mail_is_now(
        with_code,
        variables,
        to_name@,
        to_email@,
        crate::mail::otp_subject(),
        crate::mail::otp_body(to_name@, code@),
    );
    mail_is_now(
        with_link,
        variables,
        to_name@,
        to_email@,
        crate::mail::reset_subject(),
        crate::mail::reset_body(to_name@, link@),
    );
}

} // verus!
