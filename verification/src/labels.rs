//! Label values attached to every request observation, and how each one is
//! derived.

use vstd::prelude::*;
use vstd::string::StringExecFns;

verus! {

/// One decimal digit rendered as a character.
pub open spec fn decimal_digit(d: int) -> char
    recommends
        0 <= d < 10,
{
    if d == 0 {
        '0'
    } else if d == 1 {
        '1'
    } else if d == 2 {
        '2'
    } else if d == 3 {
        '3'
    } else if d == 4 {
        '4'
    } else if d == 5 {
        '5'
    } else if d == 6 {
        '6'
    } else if d == 7 {
        '7'
    } else if d == 8 {
        '8'
    } else {
        '9'
    }
}

/// The three decimal digits of a three-digit status code, most significant
/// first.
pub open spec fn status_code_digits(code: int) -> Seq<char>
    recommends
        100 <= code <= 999,
{
    seq![decimal_digit(code / 100), decimal_digit((code / 10) % 10), decimal_digit(code % 10)]
}

fn digit_literal(d: u16) -> (r: &'static str)
    requires
        d < 10,
    ensures
        r@ == seq![decimal_digit(d as int)],
{
    proof {
        reveal_strlit("0");
        reveal_strlit("1");
        reveal_strlit("2");
        reveal_strlit("3");
        reveal_strlit("4");
        reveal_strlit("5");
        reveal_strlit("6");
        reveal_strlit("7");
        reveal_strlit("8");
        reveal_strlit("9");
    }
    let r: &'static str = if d == 0 {
        "0"
    } else if d == 1 {
        "1"
    } else if d == 2 {
        "2"
    } else if d == 3 {
        "3"
    } else if d == 4 {
        "4"
    } else if d == 5 {
        "5"
    } else if d == 6 {
        "6"
    } else if d == 7 {
        "7"
    } else if d == 8 {
        "8"
    } else {
        "9"
    };
    proof {
        assert(r@ =~= seq![decimal_digit(d as int)]);
    }
    r
}

/// Renders a three-digit HTTP status code as the string used for the
/// `status` label: always exactly the three decimal digits of the code.
pub fn status_label(code: u16) -> (r: String)
    requires
        100 <= code <= 999,
    ensures
        r@ == status_code_digits(code as int),
        r@.len() == 3,
{
    let hundreds: u16 = code / 100;
    let tens: u16 = (code / 10) % 10;
    let ones: u16 = code % 10;
    let mut label = String::from_str(digit_literal(hundreds));
    label.append(digit_literal(tens));
    label.append(digit_literal(ones));
    proof {
        assert(label@ =~= status_code_digits(code as int));
    }
    label
}

/// Chooses the `path` label for a request: the route template the router
/// matched, when there is one, else the raw request path. The template keeps
/// label cardinality bounded; the raw-path fallback for unmatched routes can
/// grow cardinality under scanning traffic and is a deliberate tradeoff.
pub fn derive_path_label(matched_route: Option<String>, raw_path: String) -> (r: String)
    ensures
        r@ == match matched_route {
            Some(template) => template@,
            None => raw_path@,
        },
{
    match matched_route {
        Some(template) => template,
        None => raw_path,
    }
}

/// The label values recorded with one completed request.
pub struct RequestLabels {
    pub method: String,
    pub path: String,
    pub status: String,
}

/// The ghost image of a request's label values.
pub struct RequestLabelsView {
    pub method: Seq<char>,
    pub path: Seq<char>,
    pub status: Seq<char>,
}

impl View for RequestLabels {
    type V = RequestLabelsView;

    open spec fn view(&self) -> RequestLabelsView {
        RequestLabelsView { method: self.method@, path: self.path@, status: self.status@ }
    }
}

} // verus!
