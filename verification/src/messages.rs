//! The lines that make a failed check known.
use vstd::prelude::*;
use crate::plan::{FailureReport, FailureReportView};
use crate::runner::Outcome;

verus! {

/// The decimal digit `d` (0 to 9) as text.
pub open spec fn digit_text(d: int) -> Seq<char> {
    if d == 0 {
        "0"@
    } else if d == 1 {
        "1"@
    } else if d == 2 {
        "2"@
    } else if d == 3 {
        "3"@
    } else if d == 4 {
        "4"@
    } else if d == 5 {
        "5"@
    } else if d == 6 {
        "6"@
    } else if d == 7 {
        "7"@
    } else if d == 8 {
        "8"@
    } else {
        "9"@
    }
}

/// The decimal digits of `n`, most significant first, without leading zeros.
pub open spec fn digits_of(n: nat) -> Seq<char>
    decreases n,
{
    if n < 10 {
        digit_text(n as int)
    } else {
        digits_of(n / 10) + digit_text((n % 10) as int)
    }
}

/// `n` written in decimal, with a leading `-` when negative (as `Display`
/// writes an integer).
pub open spec fn decimal_of(n: int) -> Seq<char> {
    if n < 0 {
        "-"@ + digits_of((-n) as nat)
    } else {
        digits_of(n as nat)
    }
}

fn digit_str(d: u64) -> (r: &'static str)
    requires
        d < 10,
    ensures
        r@ == digit_text(d as int),
{
    if d == 0 {
        "0"
    } else if d == 1 {
        "1"
    } else if d == 2 {
        "2"
    } else if d == 3 {
        "3"
    } else if d == 4 {
        "4"
    } else if d == 5 {
        "5"
    } else if d == 6 {
        "6"
    } else if d == 7 {
        "7"
    } else if d == 8 {
        "8"
    } else {
        "9"
    }
}

fn append_digits(s: &mut String, n: u64)
    ensures
        final(s)@ == old(s)@ + digits_of(n as nat),
    decreases n,
{
    if n >= 10 {
        append_digits(s, n / 10);
        s.append(digit_str(n % 10));
        assert(final(s)@ =~= old(s)@ + digits_of(n as nat));
    } else {
        s.append(digit_str(n));
    }
}

/// Writes `n` in decimal.
pub fn decimal(n: i64) -> (r: String)
    ensures
        r@ == decimal_of(n as int),
{
    if n < 0 {
        let magnitude: u64 = if n == i64::MIN {
            9223372036854775808u64
        } else {
            (0 - n) as u64
        };
        let mut s = String::from_str("-");
        append_digits(&mut s, magnitude);
        s
    } else {
        let mut s = String::new();
        append_digits(&mut s, n as u64);
        assert(s@ =~= decimal_of(n as int));
        s
    }
}

/// What is made known of a failed check.
pub enum Notice {
    /// Nothing.
    Nothing,
    /// This line is printed.
    Print(String),
    /// The program panics with this message.
    Panic(String),
}

pub enum NoticeView {
    Nothing,
    Print(Seq<char>),
    Panic(Seq<char>),
}

impl View for Notice {
    type V = NoticeView;

    open spec fn view(&self) -> NoticeView {
        match self {
            Notice::Nothing => NoticeView::Nothing,
            Notice::Print(s) => NoticeView::Print(s@),
            Notice::Panic(s) => NoticeView::Panic(s@),
        }
    }
}

/// The message of `unwrap` on an error with this text.
pub open spec fn unwrap_err_message(error: Seq<char>) -> Seq<char> {
    "called `Result::unwrap()` on an `Err` value: "@ + error
}

/// The message of `unwrap` on a missing value.
pub open spec fn unwrap_none_message() -> Seq<char> {
    "called `Option::unwrap()` on a `None` value"@
}

/// The message of indexing a list of `len` items at position `index`, when
/// `index` is past its end.
pub open spec fn index_message(len: int, index: int) -> Seq<char> {
    "index out of bounds: the len is "@ + decimal_of(len) + " but the index is "@ + decimal_of(
        index,
    )
}

/// The message of `unwrap` on what a call returned: its error's text, or the
/// message for a missing value.
pub open spec fn unwrap_message(detail: Option<Seq<char>>) -> Seq<char> {
    match detail {
        Some(d) => unwrap_err_message(d),
        None => unwrap_none_message(),
    }
}

/// The error text, in single quotes when `quoted`.
pub open spec fn detail_text(detail: Option<Seq<char>>, quoted: bool) -> Seq<char> {
    let d = match detail {
        Some(d) => d,
        None => Seq::empty(),
    };
    if quoted {
        "'"@ + d + "'"@
    } else {
        d
    }
}

/// What is made known when a step with `report` fails with `outcome`;
/// `detail` is the text of the error the call left behind (`None` when the
/// call returned no value at all).
pub open spec fn notice_of(
    report: FailureReportView,
    outcome: Outcome,
    detail: Option<Seq<char>>,
) -> NoticeView {
    match report {
        FailureReportView::Silent => NoticeView::Nothing,
        FailureReportView::Print(m) => NoticeView::Print(m),
        FailureReportView::Panic(m) => NoticeView::Panic(
            match outcome {
                Outcome::Code(c) => m + ": "@ + decimal_of(c as int),
                _ => m,
            },
        ),
        FailureReportView::PrintWithDetail { prefix, quoted } => NoticeView::Print(
            prefix + ": "@ + detail_text(detail, quoted),
        ),
        FailureReportView::Unwrap => NoticeView::Panic(unwrap_message(detail)),
        FailureReportView::IndexOrUnwrap { index } => NoticeView::Panic(
            match outcome {
                Outcome::Count(Some(len)) => index_message(len as int, index as int),
                _ => unwrap_message(detail),
            },
        ),
    }
}

/// The view of an optional string slice.
pub open spec fn opt_str_view(detail: Option<&str>) -> Option<Seq<char>> {
    match detail {
        Some(d) => Some(d@),
        None => None,
    }
}

/// Composes what is made known when a step with `report` fails with
/// `outcome`, given the text of the error the call left behind, if any.
pub fn failure_notice(report: &FailureReport, outcome: Outcome, detail: Option<&str>) -> (r: Notice)
    ensures
        r@ == notice_of(report@, outcome, opt_str_view(detail)),
{
    match report {
        FailureReport::Silent => Notice::Nothing,
        FailureReport::Print(m) => Notice::Print(m.clone()),
        FailureReport::Panic(m) => {
            let mut s = m.clone();
            match outcome {
                Outcome::Code(c) => {
                    s.append(": ");
                    let digits = decimal(c);
                    s.append(digits.as_str());
                },
                _ => {},
            }
            Notice::Panic(s)
        },
        FailureReport::PrintWithDetail { prefix, quoted } => {
            let mut s = prefix.clone();
            s.append(": ");
            if *quoted {
                s.append("'");
            }
            match detail {
                Some(d) => s.append(d),
                None => {},
            }
            if *quoted {
                s.append("'");
            }
            proof {
                let d = match detail {
                    Some(d) => d@,
                    None => Seq::<char>::empty(),
                };
                if *quoted {
                    assert(s@ =~= prefix@ + ": "@ + ("'"@ + d + "'"@));
                } else {
                    assert(s@ =~= prefix@ + ": "@ + d);
                }
            }
            Notice::Print(s)
        },
        FailureReport::Unwrap => Notice::Panic(unwrap_text(detail)),
        FailureReport::IndexOrUnwrap { index } => match outcome {
            Outcome::Count(Some(len)) => {
                let mut s = String::from_str("index out of bounds: the len is ");
                append_digits(&mut s, len);
                s.append(" but the index is ");
                append_digits(&mut s, *index as u64);
                assert(s@ =~= index_message(len as int, *index as int));
                Notice::Panic(s)
            },
            _ => Notice::Panic(unwrap_text(detail)),
        },
    }
}

/// The message of `unwrap` on what a call returned.
fn unwrap_text(detail: Option<&str>) -> (r: String)
    ensures
        r@ == unwrap_message(opt_str_view(detail)),
{
    match detail {
        Some(d) => {
            let mut s = String::from_str("called `Result::unwrap()` on an `Err` value: ");
            s.append(d);
            s
        },
        None => String::from_str("called `Option::unwrap()` on a `None` value"),
    }
}

} // verus!
