//! Checks on the card data of a delegate-payment request.

use vstd::prelude::*;

use crate::clock::{
    date_reading, is_clock_date, lemma_utc_date_monotone, utc_month_of, utc_today, utc_year_of,
};
use crate::errors::{
    card_fault, invalid_card, invalid_request, opt_text, outcome, request_fault, AppError, ErrorView,
};
use crate::models::PaymentMethod;
use crate::text::{
    all_digit_chars, all_digits, byte_len, decimal_value, digit_of, digit_value, digits_of, is_digit,
    keep_digits, lemma_digits_one_byte_each, opt_str, same_text,
};
use crate::validation::parse::{
    lemma_plain_digits_parse_as_their_value, parse_i32, parse_i32_spec, parse_u32, parse_u32_spec,
};

verus! {

/// The contribution of one digit to the Luhn sum: doubled digits above 9 lose 9.
pub open spec fn luhn_term(c: char, doubled: bool) -> int {
    let n = digit_value(c);
    if doubled {
        if 2 * n > 9 {
            2 * n - 9
        } else {
            2 * n
        }
    } else {
        n
    }
}

/// The Luhn sum of a digit string read from the right; `doubled` says whether its last digit
/// is doubled, and every other digit leftwards is doubled in turn.
pub open spec fn luhn_sum(d: Seq<char>, doubled: bool) -> int
    decreases d.len(),
{
    if d.len() == 0 {
        0
    } else {
        luhn_term(d.last(), doubled) + luhn_sum(d.drop_last(), !doubled)
    }
}

/// What [`validate_card_number`] answers for a card number.
pub open spec fn card_number_result(number: Seq<char>) -> Result<(), ErrorView> {
    let d = keep_digits(number);
    if d.len() < 13 || d.len() > 19 {
        Err(card_fault("Card number must be between 13 and 19 digits"@, "payment_method.number"@))
    } else if luhn_sum(d, false) % 10 != 0 {
        Err(card_fault("Card number failed Luhn validation"@, "payment_method.number"@))
    } else {
        Ok(())
    }
}

/// Validates a card number with the Luhn algorithm. Characters other than ASCII digits
/// (spaces, dashes) are ignored; 13 to 19 digits must remain.
pub fn validate_card_number(number: &str) -> (r: Result<(), AppError>)
    ensures
        outcome(r) == card_number_result(number@),
{
    let cleaned = digits_of(number);
    let n = cleaned.len();
    if n < 13 || n > 19 {
        return Err(
            invalid_card("Card number must be between 13 and 19 digits", "payment_method.number"),
        );
    }
    let mut sum: u32 = 0;
    let mut alternate = false;
    let mut j: usize = n;
    assert(cleaned@.take(n as int) =~= cleaned@);
    while j > 0
        invariant
            j <= n,
            n == cleaned@.len(),
            n <= 19,
            all_digits(cleaned@),
            sum <= 9 * (n - j),
            sum + luhn_sum(cleaned@.take(j as int), alternate) == luhn_sum(cleaned@, false),
        decreases j,
    {
        let c = cleaned[j - 1];
        assert(cleaned@.take(j as int).drop_last() =~= cleaned@.take(j - 1));
        let mut v = digit_of(c);
        if alternate {
            v = v * 2;
            if v > 9 {
                v = v - 9;
            }
        }
        sum = sum + v;
        alternate = !alternate;
        j = j - 1;
    }
    if sum % 10 != 0 {
        return Err(invalid_card("Card number failed Luhn validation", "payment_method.number"));
    }
    Ok(())
}

/// Separators do not matter: card numbers with the same digits in the same order are judged
/// alike.
pub proof fn lemma_card_number_ignores_separators(a: Seq<char>, b: Seq<char>)
    requires
        keep_digits(a) == keep_digits(b),
    ensures
        card_number_result(a) == card_number_result(b),
{
}

/// The weight of a digit in the Luhn checksum by its position counted from the right (the
/// check digit is at position 0): digits at odd positions count double, less 9 when doubling
/// gives more than 9; the others count as they are.
pub open spec fn luhn_weight(c: char, from_right: int) -> int {
    let n = c as int - '0' as int;
    if from_right % 2 == 1 {
        if n >= 5 {
            2 * n - 9
        } else {
            2 * n
        }
    } else {
        n
    }
}

/// The weights of the digits of `d` read from the left, positions counted from the right and
/// moved on by one when `shifted`.
pub open spec fn luhn_weights_from_left(d: Seq<char>, shifted: bool) -> int
    decreases d.len(),
{
    if d.len() == 0 {
        0
    } else {
        luhn_weight(d[0], d.len() - 1 + if shifted {
            1int
        } else {
            0int
        }) + luhn_weights_from_left(d.drop_first(), shifted)
    }
}

/// The Luhn checksum of a string of digits: the sum of the weights of all its digits.
pub open spec fn luhn_checksum(d: Seq<char>) -> int {
    luhn_weights_from_left(d, false)
}

/// Taking the last digit off the left-to-right sum: it weighs as position 0 (or 1 when
/// shifted), and the others move one position down.
proof fn lemma_luhn_weights_last(d: Seq<char>, shifted: bool)
    requires
        d.len() > 0,
    ensures
        luhn_weights_from_left(d, shifted) == luhn_weights_from_left(d.drop_last(), !shifted)
            + luhn_weight(d.last(), if shifted {
            1int
        } else {
            0int
        }),
    decreases d.len(),
{
    if d.len() == 1 {
        assert(d.drop_first().len() == 0);
        assert(d.drop_last().len() == 0);
        assert(luhn_weights_from_left(d.drop_first(), shifted) == 0);
        assert(luhn_weights_from_left(d.drop_last(), !shifted) == 0);
        assert(d.last() == d[0]);
    } else {
        let d1 = d.drop_first();
        let dl = d.drop_last();
        let o: int = if shifted {
            1int
        } else {
            0int
        };
        let p: int = d.len() - 1;
        lemma_luhn_weights_last(d1, shifted);
        assert(dl.drop_first() =~= d1.drop_last());
        assert(dl[0] == d[0]);
        assert(d1.last() == d.last());
        assert((p + o) % 2 == (p - 1 + (1 - o)) % 2);
        assert(luhn_weight(d[0], p + o) == luhn_weight(dl[0], dl.len() - 1 + if !shifted {
            1int
        } else {
            0int
        }));
        assert(luhn_weights_from_left(dl, !shifted) == luhn_weight(dl[0], dl.len() - 1 + if !shifted {
            1int
        } else {
            0int
        }) + luhn_weights_from_left(dl.drop_first(), !shifted));
    }
}

/// The right-to-left Luhn sum is the checksum.
proof fn lemma_luhn_sum_is_checksum(d: Seq<char>, doubled: bool)
    ensures
        luhn_sum(d, doubled) == luhn_weights_from_left(d, doubled),
    decreases d.len(),
{
    if d.len() > 0 {
        lemma_luhn_sum_is_checksum(d.drop_last(), !doubled);
        lemma_luhn_weights_last(d, doubled);
    }
}

/// A card number is accepted exactly when, separators aside, it has 13 to 19 digits and their
/// Luhn checksum is a multiple of 10; else it is refused for its length when that is out of
/// range, and for its checksum otherwise.
pub proof fn lemma_card_number_rule(number: Seq<char>)
    ensures
        ({
            let d = keep_digits(number);
            &&& card_number_result(number) is Ok <==> (13 <= d.len() <= 19 && luhn_checksum(d) % 10
                == 0)
            &&& !(13 <= d.len() <= 19) ==> card_number_result(number) == Err::<(), ErrorView>(
                card_fault(
                    "Card number must be between 13 and 19 digits"@,
                    "payment_method.number"@,
                ),
            )
            &&& 13 <= d.len() <= 19 && luhn_checksum(d) % 10 != 0 ==> card_number_result(number)
                == Err::<(), ErrorView>(
                card_fault("Card number failed Luhn validation"@, "payment_method.number"@),
            )
        }),
{
    lemma_luhn_sum_is_checksum(keep_digits(number), false);
}

/// The expiry month and year as parsed: `None` when either is missing (nothing to check),
/// else (month, year), or the error of the first part that does not parse or is out of range.
pub open spec fn parsed_expiry(exp_month: Option<Seq<char>>, exp_year: Option<Seq<char>>) -> Result<
    Option<(int, int)>,
    ErrorView,
> {
    match (exp_month, exp_year) {
        (Some(m), Some(y)) => match parse_u32_spec(m) {
            None => Err(card_fault("Invalid expiry month"@, "payment_method.exp_month"@)),
            Some(mv) => if mv < 1 || mv > 12 {
                Err(
                    card_fault(
                        "Expiry month must be between 01 and 12"@,
                        "payment_method.exp_month"@,
                    ),
                )
            } else {
                match parse_i32_spec(y) {
                    None => Err(card_fault("Invalid expiry year"@, "payment_method.exp_year"@)),
                    Some(yv) => if byte_len(y) != 4 {
                        Err(card_fault("Expiry year must be 4 digits"@, "payment_method.exp_year"@))
                    } else {
                        Ok(Some((mv as int, yv as int)))
                    },
                }
            },
        },
        _ => Ok(None),
    }
}

/// The refusal when the clock cannot be read (before the epoch, or past what `chrono` holds).
pub open spec fn clock_fault() -> ErrorView {
    ErrorView::ProcessingError("System clock is out of range"@)
}

/// What [`validate_expiry`] answers when the clock reads `today`, a UTC (year, month), or
/// cannot be read: a card expires at the end of its month.
pub open spec fn expiry_result(
    exp_month: Option<Seq<char>>,
    exp_year: Option<Seq<char>>,
    today: Option<(int, int)>,
) -> Result<(), ErrorView> {
    match parsed_expiry(exp_month, exp_year) {
        Err(e) => Err(e),
        Ok(None) => Ok(()),
        Ok(Some((mv, yv))) => match today {
            None => Err(clock_fault()),
            Some((year, month)) => if yv < year || (yv == year && mv < month) {
                Err(card_fault("Card has expired"@, "payment_method.exp_year"@))
            } else {
                Ok(())
            },
        },
    }
}

/// The error of an unreadable clock.
pub fn clock_error() -> (e: AppError)
    ensures
        e@ == clock_fault(),
{
    AppError::ProcessingError(String::from_str("System clock is out of range"))
}

/// Parses the expiry month and year; `None` when either is missing.
pub fn parse_expiry(exp_month: Option<&str>, exp_year: Option<&str>) -> (r: Result<
    Option<(u32, i32)>,
    AppError,
>)
    ensures
        match (r, parsed_expiry(opt_str(exp_month), opt_str(exp_year))) {
            (Ok(None), Ok(None)) => true,
            (Ok(Some((m, y))), Ok(Some((pm, py)))) => m as int == pm && y as int == py,
            (Err(e), Err(pe)) => e@ == pe,
            _ => false,
        },
{
    let month_str = match exp_month {
        Some(m) => m,
        None => return Ok(None),
    };
    let year_str = match exp_year {
        Some(y) => y,
        None => return Ok(None),
    };
    let month = match parse_u32(month_str) {
        Some(m) => m,
        None => return Err(invalid_card("Invalid expiry month", "payment_method.exp_month")),
    };
    if month < 1 || month > 12 {
        return Err(
            invalid_card("Expiry month must be between 01 and 12", "payment_method.exp_month"),
        );
    }
    let year = match parse_i32(year_str) {
        Some(y) => y,
        None => return Err(invalid_card("Invalid expiry year", "payment_method.exp_year")),
    };
    if year_str.len() != 4 {
        return Err(invalid_card("Expiry year must be 4 digits", "payment_method.exp_year"));
    }
    Ok(Some((month, year)))
}

/// The expiry check against `today` once the month and year have parsed.
fn check_expiry(
    exp_month: Option<&str>,
    exp_year: Option<&str>,
    parsed: Option<(u32, i32)>,
    today: Option<(i32, u32)>,
) -> (r: Result<(), AppError>)
    requires
        match parsed_expiry(opt_str(exp_month), opt_str(exp_year)) {
            Ok(None) => parsed is None,
            Ok(Some((pm, py))) => parsed matches Some((m, y)) && m as int == pm && y as int == py,
            Err(_) => false,
        },
    ensures
        outcome(r) == expiry_result(
            opt_str(exp_month),
            opt_str(exp_year),
            date_reading(today),
        ),
{
    match parsed {
        None => Ok(()),
        Some((month, year)) => match today {
            None => Err(clock_error()),
            Some((current_year, current_month)) => {
                if year < current_year || (year == current_year && month < current_month) {
                    Err(invalid_card("Card has expired", "payment_method.exp_year"))
                } else {
                    Ok(())
                }
            },
        },
    }
}

/// Validates the expiry month and year against a reading of the current UTC (year, month),
/// or `None` where the clock could not be read. The reading is consulted only once both parts
/// have parsed.
pub fn validate_expiry_on(
    exp_month: Option<&str>,
    exp_year: Option<&str>,
    today: Option<(i32, u32)>,
) -> (r: Result<(), AppError>)
    ensures
        outcome(r) == expiry_result(opt_str(exp_month), opt_str(exp_year), date_reading(today)),
{
    let parsed = parse_expiry(exp_month, exp_year)?;
    check_expiry(exp_month, exp_year, parsed, today)
}

/// Validates the expiry month and year against the given current UTC year and month.
/// Either part missing means there is nothing to check.
pub fn validate_expiry_at(
    exp_month: Option<&str>,
    exp_year: Option<&str>,
    current_year: i32,
    current_month: u32,
) -> (r: Result<(), AppError>)
    ensures
        outcome(r) == expiry_result(
            opt_str(exp_month),
            opt_str(exp_year),
            Some((current_year as int, current_month as int)),
        ),
{
    validate_expiry_on(exp_month, exp_year, Some((current_year, current_month)))
}

/// Validates the expiry month and year against the current UTC date, read from the clock.
pub fn validate_expiry(exp_month: Option<&str>, exp_year: Option<&str>) -> (r: Result<
    (),
    AppError,
>)
    ensures
        exists|today: Option<(int, int)>|
            is_clock_date(today) && outcome(r) == expiry_result(
                opt_str(exp_month),
                opt_str(exp_year),
                today,
            ),
{
    let today = utc_today();
    let r = validate_expiry_on(exp_month, exp_year, today);
    assert(is_clock_date(date_reading(today)));
    r
}

/// A card that has expired stays expired as time passes: if the clock at `s1` finds it
/// expired, so does the clock at any later `s2`; and one still valid at `s2` was valid at every
/// earlier `s1`.
pub proof fn lemma_expired_card_stays_expired(
    exp_month: Option<Seq<char>>,
    exp_year: Option<Seq<char>>,
    s1: int,
    s2: int,
)
    requires
        s1 <= s2,
    ensures
        ({
            let at1 = expiry_result(exp_month, exp_year, Some((utc_year_of(s1), utc_month_of(s1))));
            let at2 = expiry_result(exp_month, exp_year, Some((utc_year_of(s2), utc_month_of(s2))));
            &&& at1 == Err::<(), ErrorView>(card_fault("Card has expired"@, "payment_method.exp_year"@))
                ==> at2 == at1
            &&& at2 is Ok ==> at1 is Ok
        }),
{
    lemma_utc_date_monotone(s1, s2);
}

/// Short digit strings have small values: up to four digits stay below 10000.
proof fn lemma_short_decimal_value(d: Seq<char>)
    requires
        all_digits(d),
    ensures
        0 <= decimal_value(d),
        d.len() <= 1 ==> decimal_value(d) < 10,
        d.len() <= 2 ==> decimal_value(d) < 100,
        d.len() <= 3 ==> decimal_value(d) < 1000,
        d.len() <= 4 ==> decimal_value(d) < 10000,
    decreases d.len(),
{
    if d.len() > 0 {
        assert(all_digits(d.drop_last()));
        assert(is_digit(d.last()));
        lemma_short_decimal_value(d.drop_last());
    }
}

/// An expiry written in digits is judged by the numbers it spells: a month of 1 to 12 and a
/// four-digit year are the card's last valid month, compared with the UTC (year, month) read
/// from the clock; the card has expired exactly when that month is past. Without a clock
/// reading such an expiry is refused with the clock fault.
pub proof fn lemma_expiry_judged_by_value(
    month: Seq<char>,
    year: Seq<char>,
    current_year: int,
    current_month: int,
)
    requires
        month.len() > 0,
        all_digits(month),
        1 <= decimal_value(month) <= 12,
        year.len() == 4,
        all_digits(year),
    ensures
        expiry_result(Some(month), Some(year), Some((current_year, current_month))) == if decimal_value(
            year,
        ) < current_year || (decimal_value(year) == current_year && decimal_value(month)
            < current_month) {
            Err::<(), ErrorView>(card_fault("Card has expired"@, "payment_method.exp_year"@))
        } else {
            Ok(())
        },
        expiry_result(Some(month), Some(year), None) == Err::<(), ErrorView>(clock_fault()),
{
    lemma_plain_digits_parse_as_their_value(month);
    lemma_plain_digits_parse_as_their_value(year);
    lemma_short_decimal_value(year);
    lemma_digits_one_byte_each(year);
    assert(byte_len(year) == 4);
}

/// A present CVC is accepted exactly when it has 3 or 4 bytes, all ASCII digits; an absent one
/// is accepted. A refused CVC is refused as invalid card data about `payment_method.cvc`.
pub proof fn lemma_cvc_rule(cvc: Seq<char>)
    ensures
        cvc_result(Some(cvc)) is Ok <==> (3 <= byte_len(cvc) <= 4 && all_digits(cvc)),
        cvc_result(Some(cvc)) matches Err(e) ==> e matches ErrorView::InvalidCard { param, .. }
            && param == Some("payment_method.cvc"@),
        cvc_result(None) is Ok,
{
}

/// A present IIN is accepted exactly when it has at most 6 bytes, all ASCII digits; an absent
/// one is accepted.
pub proof fn lemma_iin_rule(iin: Seq<char>)
    ensures
        iin_result(Some(iin)) is Ok <==> (byte_len(iin) <= 6 && all_digits(iin)),
        iin_result(Some(iin)) matches Err(e) ==> e matches ErrorView::InvalidCard { param, .. }
            && param == Some("payment_method.iin"@),
        iin_result(None) is Ok,
{
}

/// Displayed last digits are accepted exactly when they have at most 4 bytes, all ASCII
/// digits; absent ones are accepted.
pub proof fn lemma_last4_rule(last4: Seq<char>)
    ensures
        last4_result(Some(last4)) is Ok <==> (byte_len(last4) <= 4 && all_digits(last4)),
        last4_result(Some(last4)) matches Err(e) ==> e matches ErrorView::InvalidCard {
            param,
            ..
        } && param == Some("payment_method.display_last4"@),
        last4_result(None) is Ok,
{
}

/// What [`validate_cvc`] answers: a present CVC has 3 or 4 bytes, all ASCII digits.
pub open spec fn cvc_result(cvc: Option<Seq<char>>) -> Result<(), ErrorView> {
    match cvc {
        Some(c) => if byte_len(c) < 3 || byte_len(c) > 4 {
            Err(card_fault("CVC must be 3 or 4 digits"@, "payment_method.cvc"@))
        } else if !all_digits(c) {
            Err(card_fault("CVC must contain only digits"@, "payment_method.cvc"@))
        } else {
            Ok(())
        },
        None => Ok(()),
    }
}

/// Validates the CVC, if one is given: 3 or 4 digits.
pub fn validate_cvc(cvc: Option<&str>) -> (r: Result<(), AppError>)
    ensures
        outcome(r) == cvc_result(opt_str(cvc)),
{
    if let Some(cvc_str) = cvc {
        if cvc_str.len() < 3 || cvc_str.len() > 4 {
            return Err(invalid_card("CVC must be 3 or 4 digits", "payment_method.cvc"));
        }
        if !all_digit_chars(cvc_str) {
            return Err(invalid_card("CVC must contain only digits", "payment_method.cvc"));
        }
    }
    Ok(())
}

/// What [`validate_iin`] answers: a present IIN has at most 6 bytes, all ASCII digits.
pub open spec fn iin_result(iin: Option<Seq<char>>) -> Result<(), ErrorView> {
    match iin {
        Some(s) => if byte_len(s) > 6 {
            Err(card_fault("IIN must be at most 6 digits"@, "payment_method.iin"@))
        } else if !all_digits(s) {
            Err(card_fault("IIN must contain only digits"@, "payment_method.iin"@))
        } else {
            Ok(())
        },
        None => Ok(()),
    }
}

/// Validates the issuer identification number, if one is given: at most 6 digits.
pub fn validate_iin(iin: Option<&str>) -> (r: Result<(), AppError>)
    ensures
        outcome(r) == iin_result(opt_str(iin)),
{
    if let Some(iin_str) = iin {
        if iin_str.len() > 6 {
            return Err(invalid_card("IIN must be at most 6 digits", "payment_method.iin"));
        }
        if !all_digit_chars(iin_str) {
            return Err(invalid_card("IIN must contain only digits", "payment_method.iin"));
        }
    }
    Ok(())
}

/// What [`validate_last4`] answers: a present value has at most 4 bytes, all ASCII digits.
pub open spec fn last4_result(last4: Option<Seq<char>>) -> Result<(), ErrorView> {
    match last4 {
        Some(s) => if byte_len(s) > 4 {
            Err(card_fault("Last 4 must be at most 4 digits"@, "payment_method.display_last4"@))
        } else if !all_digits(s) {
            Err(card_fault("Last 4 must contain only digits"@, "payment_method.display_last4"@))
        } else {
            Ok(())
        },
        None => Ok(()),
    }
}

/// Validates the displayed last four digits, if given: at most 4 digits.
pub fn validate_last4(last4: Option<&str>) -> (r: Result<(), AppError>)
    ensures
        outcome(r) == last4_result(opt_str(last4)),
{
    if let Some(last4_str) = last4 {
        if last4_str.len() > 4 {
            return Err(
                invalid_card("Last 4 must be at most 4 digits", "payment_method.display_last4"),
            );
        }
        if !all_digit_chars(last4_str) {
            return Err(
                invalid_card("Last 4 must contain only digits", "payment_method.display_last4"),
            );
        }
    }
    Ok(())
}

/// `a` where it is an error, else `b`: checks run in order and the first failure answers.
pub open spec fn then_check(a: Result<(), ErrorView>, b: Result<(), ErrorView>) -> Result<
    (),
    ErrorView,
> {
    if a is Err {
        a
    } else {
        b
    }
}

/// What [`validate_payment_method`] answers when the clock reads `today` (see
/// [`expiry_result`]).
pub open spec fn payment_method_result(pm: PaymentMethod, today: Option<(int, int)>) -> Result<
    (),
    ErrorView,
> {
    if pm.payment_type@ != "card"@ {
        Err(request_fault("Payment method type must be 'card'"@, "payment_method.type"@))
    } else {
        then_check(
            card_number_result(pm.number@),
            then_check(
                expiry_result(opt_text(pm.exp_month), opt_text(pm.exp_year), today),
                then_check(
                    cvc_result(opt_text(pm.cvc)),
                    then_check(
                        iin_result(opt_text(pm.iin)),
                        last4_result(opt_text(pm.display_last4)),
                    ),
                ),
            ),
        )
    }
}

/// Borrows the text of an optional string.
pub fn opt_as_str(o: &Option<String>) -> (r: Option<&str>)
    ensures
        opt_str(r) == opt_text(*o),
{
    match o {
        Some(s) => Some(s.as_str()),
        None => None,
    }
}

/// Validates a whole payment method against a reading of the current UTC (year, month), or
/// `None` where the clock could not be read: its type, number, expiry, CVC, IIN and displayed
/// last four digits, in that order.
pub fn validate_payment_method_on(pm: &PaymentMethod, today: Option<(i32, u32)>) -> (r: Result<
    (),
    AppError,
>)
    ensures
        outcome(r) == payment_method_result(*pm, date_reading(today)),
{
    if !same_text(pm.payment_type.as_str(), "card") {
        return Err(invalid_request("Payment method type must be 'card'", "payment_method.type"));
    }
    validate_card_number(pm.number.as_str())?;
    validate_expiry_on(opt_as_str(&pm.exp_month), opt_as_str(&pm.exp_year), today)?;
    validate_cvc(opt_as_str(&pm.cvc))?;
    validate_iin(opt_as_str(&pm.iin))?;
    validate_last4(opt_as_str(&pm.display_last4))?;
    Ok(())
}

/// Validates a whole payment method against the given current UTC year and month.
pub fn validate_payment_method_at(pm: &PaymentMethod, current_year: i32, current_month: u32) -> (r:
    Result<(), AppError>)
    ensures
        outcome(r) == payment_method_result(
            *pm,
            Some((current_year as int, current_month as int)),
        ),
{
    validate_payment_method_on(pm, Some((current_year, current_month)))
}

/// Validates a whole payment method, reading the current UTC date from the clock for the
/// expiry check.
pub fn validate_payment_method(pm: &PaymentMethod) -> (r: Result<(), AppError>)
    ensures
        exists|today: Option<(int, int)>|
            is_clock_date(today) && outcome(r) == payment_method_result(*pm, today),
{
    let today = utc_today();
    let r = validate_payment_method_on(pm, today);
    assert(is_clock_date(date_reading(today)));
    r
}

} // verus!
