//! Block range resolution: from a range expression and a module's initial
//! block to the window `[start, stop)` of blocks to stream.
//!
//! A range expression has the shape `[<start>][:<stop>]`. Each side is empty,
//! an absolute number, or `+` and a count. Without a colon the whole
//! expression is the stop side. A stop of `0` means that the stream is unbounded.

use crate::package::{declared_module, ModuleView, Package};
use crate::text::{chars_of, find_char, first_index_of};
use vstd::prelude::*;

verus! {

/// Why a block range could not be resolved.
pub enum RangeError {
    /// The package declares no module of this name.
    ModuleNotFound(String),
    /// The start side of the expression, which is not a valid integer.
    InvalidStart(String),
    /// The stop side of the expression, which is not a valid integer.
    InvalidStop(String),
    /// The start block does not fit in a signed 64-bit number.
    StartOutOfRange,
    /// The stop block does not fit in an unsigned 64-bit number.
    StopOutOfRange,
}

/// What a `RangeError` is, as plain values.
pub enum RangeErrorView {
    ModuleNotFound(Seq<char>),
    InvalidStart(Seq<char>),
    InvalidStop(Seq<char>),
    StartOutOfRange,
    StopOutOfRange,
}

impl View for RangeError {
    type V = RangeErrorView;

    open spec fn view(&self) -> RangeErrorView {
        match self {
            RangeError::ModuleNotFound(name) => RangeErrorView::ModuleNotFound(name@),
            RangeError::InvalidStart(token) => RangeErrorView::InvalidStart(token@),
            RangeError::InvalidStop(token) => RangeErrorView::InvalidStop(token@),
            RangeError::StartOutOfRange => RangeErrorView::StartOutOfRange,
            RangeError::StopOutOfRange => RangeErrorView::StopOutOfRange,
        }
    }
}

/// Whether `c` is one of the ten decimal digits.
pub open spec fn is_digit(c: char) -> bool {
    '0' <= c && c <= '9'
}

/// The number that the digit `c` stands for.
pub open spec fn digit_value(c: char) -> int {
    c as int - '0' as int
}

/// Whether `s` holds decimal digits only.
pub open spec fn all_digits(s: Seq<char>) -> bool {
    forall|i: int| 0 <= i < s.len() ==> is_digit(#[trigger] s[i])
}

/// The number that the digits of `s` write in base ten.
pub open spec fn decimal_value(s: Seq<char>) -> int
    decreases s.len(),
{
    if s.len() == 0 {
        0
    } else {
        10 * decimal_value(s.drop_last()) + digit_value(s.last())
    }
}

/// The value of an unsigned literal: one or more digits that write a number
/// of at most 64 bits.
pub open spec fn unsigned_literal(s: Seq<char>) -> Option<int> {
    if s.len() > 0 && all_digits(s) && decimal_value(s) <= u64::MAX {
        Some(decimal_value(s))
    } else {
        None
    }
}

/// The value of a signed literal: an optional minus sign and an unsigned
/// literal, within the signed 64-bit numbers.
pub open spec fn signed_literal(s: Seq<char>) -> Option<int> {
    if s.len() > 0 && s[0] == '-' {
        match unsigned_literal(s.skip(1)) {
            Some(magnitude) if -magnitude >= i64::MIN => Some(-magnitude),
            _ => None,
        }
    } else {
        match unsigned_literal(s) {
            Some(value) if value <= i64::MAX => Some(value),
            _ => None,
        }
    }
}

/// The number of `+` signs at the beginning of `s`.
pub open spec fn leading_pluses(s: Seq<char>) -> int
    decreases s.len(),
{
    if s.len() > 0 && s[0] == '+' {
        1 + leading_pluses(s.drop_first())
    } else {
        0
    }
}

/// The count of a relative token `+N`: the unsigned literal behind its `+` signs.
pub open spec fn relative_count(token: Seq<char>) -> Option<int> {
    unsigned_literal(token.skip(leading_pluses(token)))
}

/// The two sides of a range expression: what stands before and after its
/// first colon, or an empty start and the whole expression when it has none.
pub open spec fn split_range(expr: Seq<char>) -> (Seq<char>, Seq<char>) {
    let colon = first_index_of(expr, ':');
    if colon < expr.len() {
        (expr.take(colon), expr.skip(colon + 1))
    } else {
        (Seq::empty(), expr)
    }
}

/// The start block that `token` asks for in a module that begins at `initial_block`.
pub open spec fn resolve_start(initial_block: int, token: Seq<char>) -> Result<
    int,
    RangeErrorView,
> {
    if token.len() == 0 {
        if initial_block <= i64::MAX {
            Ok(initial_block)
        } else {
            Err(RangeErrorView::StartOutOfRange)
        }
    } else if token[0] == '+' {
        match relative_count(token) {
            None => Err(RangeErrorView::InvalidStart(token)),
            Some(count) => if initial_block + count <= i64::MAX {
                Ok(initial_block + count)
            } else {
                Err(RangeErrorView::StartOutOfRange)
            },
        }
    } else {
        match signed_literal(token) {
            None => Err(RangeErrorView::InvalidStart(token)),
            Some(start) => Ok(start),
        }
    }
}

/// The stop block that `token` asks for in a range that begins at `start`.
pub open spec fn resolve_stop(start: int, token: Seq<char>) -> Result<int, RangeErrorView> {
    if token.len() == 0 || token == seq!['-'] {
        Ok(0)
    } else if token[0] == '+' {
        match relative_count(token) {
            None => Err(RangeErrorView::InvalidStop(token)),
            Some(count) => if 0 <= start + count <= u64::MAX {
                Ok(start + count)
            } else {
                Err(RangeErrorView::StopOutOfRange)
            },
        }
    } else {
        match unsigned_literal(token) {
            None => Err(RangeErrorView::InvalidStop(token)),
            Some(stop) => Ok(stop),
        }
    }
}

/// The block range that `expr` asks for in a module that begins at `initial_block`.
pub open spec fn resolve_range(initial_block: int, expr: Seq<char>) -> Result<
    (int, int),
    RangeErrorView,
> {
    let (start_token, stop_token) = split_range(expr);
    match resolve_start(initial_block, start_token) {
        Err(e) => Err(e),
        Ok(start) => match resolve_stop(start, stop_token) {
            Err(e) => Err(e),
            Ok(stop) => Ok((start, stop)),
        },
    }
}

/// The range expression of a call: empty when the caller gave none.
pub open spec fn range_text(range: Option<&str>) -> Seq<char> {
    match range {
        Some(expr) => expr@,
        None => Seq::empty(),
    }
}

/// The block range that `expr` asks for in the module `module_name` of a package.
pub open spec fn block_range(
    modules: Seq<ModuleView>,
    module_name: Seq<char>,
    expr: Seq<char>,
) -> Result<(int, int), RangeErrorView> {
    match declared_module(modules, module_name) {
        None => Err(RangeErrorView::ModuleNotFound(module_name)),
        Some(module) => resolve_range(module.initial_block as int, expr),
    }
}

/// What an executable result is, as plain values.
pub open spec fn range_result_view(result: Result<(i64, u64), RangeError>) -> Result<
    (int, int),
    RangeErrorView,
> {
    match result {
        Ok((start, stop)) => Ok((start as int, stop as int)),
        Err(e) => Err(e@),
    }
}

/// A digit string is worth at least as much as each of its beginnings.
proof fn lemma_decimal_value_grows(s: Seq<char>, n: int)
    requires
        all_digits(s),
        0 <= n <= s.len(),
    ensures
        0 <= decimal_value(s.take(n)) <= decimal_value(s),
    decreases s.len(),
{
    if n == s.len() {
        assert(s.take(n) =~= s);
        if s.len() > 0 {
            lemma_decimal_value_grows(s.drop_last(), n - 1);
        }
    } else {
        let front = s.drop_last();
        assert(front.take(n) =~= s.take(n));
        lemma_decimal_value_grows(front, n);
    }
}

/// Reads the unsigned literal that `chars` holds from index `from` on.
fn parse_unsigned(chars: &Vec<char>, from: usize) -> (value: Option<u64>)
    requires
        from <= chars.len(),
    ensures
        match value {
            Some(v) => unsigned_literal(chars@.skip(from as int)) == Some(v as int),
            None => unsigned_literal(chars@.skip(from as int)) is None,
        },
{
    let ghost body = chars@.skip(from as int);
    if from == chars.len() {
        return None;
    }
    let mut value: u64 = 0;
    let mut i: usize = from;
    while i < chars.len()
        invariant
            from <= i <= chars.len(),
            body == chars@.skip(from as int),
            all_digits(body.take(i - from)),
            value == decimal_value(body.take(i - from)),
        decreases chars.len() - i,
    {
        let c = chars[i];
        if c < '0' || c > '9' {
            assert(!is_digit(body[i - from]));
            return None;
        }
        let digit: u64 = (c as u32 - '0' as u32) as u64;
        let ghost longer = body.take(i - from + 1);
        proof {
            assert(longer.drop_last() =~= body.take(i - from));
            if all_digits(body) {
                lemma_decimal_value_grows(body, i - from + 1);
            }
        }
        let scaled = match value.checked_mul(10) {
            Some(scaled) => scaled,
            None => {
                return None;
            },
        };
        value = match scaled.checked_add(digit) {
            Some(sum) => sum,
            None => {
                return None;
            },
        };
        i += 1;
    }
    assert(body.take(i - from) =~= body);
    Some(value)
}

/// Reads the signed literal that `chars` holds.
fn parse_signed(chars: &Vec<char>) -> (value: Option<i64>)
    ensures
        match value {
            Some(v) => signed_literal(chars@) == Some(v as int),
            None => signed_literal(chars@) is None,
        },
{
    if chars.len() > 0 && chars[0] == '-' {
        match parse_unsigned(chars, 1) {
            Some(magnitude) => {
                if magnitude <= 9223372036854775807 {
                    Some(-(magnitude as i64))
                } else if magnitude == 9223372036854775808 {
                    Some(i64::MIN)
                } else {
                    None
                }
            },
            None => None,
        }
    } else {
        assert(chars@.skip(0) =~= chars@);
        match parse_unsigned(chars, 0) {
            Some(value) => {
                if value <= 9223372036854775807 {
                    Some(value as i64)
                } else {
                    None
                }
            },
            None => None,
        }
    }
}

/// Reads the count of the relative token that `chars` holds.
fn parse_relative(chars: &Vec<char>) -> (count: Option<u64>)
    ensures
        match count {
            Some(n) => relative_count(chars@) == Some(n as int),
            None => relative_count(chars@) is None,
        },
{
    let mut i: usize = 0;
    assert(chars@.skip(0) =~= chars@);
    while i < chars.len() && chars[i] == '+'
        invariant
            i <= chars.len(),
            leading_pluses(chars@) == i + leading_pluses(chars@.skip(i as int)),
        decreases chars.len() - i,
    {
        proof {
            let rest = chars@.skip(i as int);
            assert(rest.drop_first() =~= chars@.skip(i + 1));
        }
        i += 1;
    }
    parse_unsigned(chars, i)
}

/// Resolves the start side of a range expression.
pub fn read_start(initial_block: u64, token: &str) -> (result: Result<i64, RangeError>)
    ensures
        match result {
            Ok(start) => resolve_start(initial_block as int, token@) == Ok::<int, RangeErrorView>(
                start as int,
            ),
            Err(e) => resolve_start(initial_block as int, token@) == Err::<int, RangeErrorView>(e@),
        },
{
    let chars = chars_of(token);
    if chars.len() == 0 {
        if initial_block <= 9223372036854775807 {
            Ok(initial_block as i64)
        } else {
            Err(RangeError::StartOutOfRange)
        }
    } else if chars[0] == '+' {
        match parse_relative(&chars) {
            None => Err(RangeError::InvalidStart(String::from_str(token))),
            Some(count) => match initial_block.checked_add(count) {
                Some(start) if start <= 9223372036854775807 => Ok(start as i64),
                _ => Err(RangeError::StartOutOfRange),
            },
        }
    } else {
        match parse_signed(&chars) {
            None => Err(RangeError::InvalidStart(String::from_str(token))),
            Some(start) => Ok(start),
        }
    }
}

/// Resolves the stop side of a range expression whose start is `start`.
pub fn read_stop(start: i64, token: &str) -> (result: Result<u64, RangeError>)
    ensures
        match result {
            Ok(stop) => resolve_stop(start as int, token@) == Ok::<int, RangeErrorView>(
                stop as int,
            ),
            Err(e) => resolve_stop(start as int, token@) == Err::<int, RangeErrorView>(e@),
        },
{
    let chars = chars_of(token);
    if chars.len() == 0 || (chars.len() == 1 && chars[0] == '-') {
        assert(chars.len() == 1 && chars@[0] == '-' ==> chars@ =~= seq!['-']);
        Ok(0)
    } else if chars[0] == '+' {
        match parse_relative(&chars) {
            None => Err(RangeError::InvalidStop(String::from_str(token))),
            Some(count) => {
                if start >= 0 {
                    match (start as u64).checked_add(count) {
                        Some(stop) => Ok(stop),
                        None => Err(RangeError::StopOutOfRange),
                    }
                } else {
                    let below_zero: u64 = (-(start + 1)) as u64 + 1;
                    if count >= below_zero {
                        Ok(count - below_zero)
                    } else {
                        Err(RangeError::StopOutOfRange)
                    }
                }
            },
        }
    } else {
        assert(chars@.skip(0) =~= chars@);
        match parse_unsigned(&chars, 0) {
            None => Err(RangeError::InvalidStop(String::from_str(token))),
            Some(stop) => Ok(stop),
        }
    }
}

/// Resolves a range expression in a module that begins at `initial_block`.
pub fn resolve_block_range(initial_block: u64, expr: &str) -> (result: Result<
    (i64, u64),
    RangeError,
>)
    ensures
        range_result_view(result) == resolve_range(initial_block as int, expr@),
{
    let chars = chars_of(expr);
    let colon = find_char(&chars, ':');
    let n = chars.len();
    let (start_token, stop_token) = if colon < n {
        (expr.substring_char(0, colon), expr.substring_char(colon + 1, n))
    } else {
        ("", expr)
    };
    proof {
        reveal_strlit("");
    }
    let start = match read_start(initial_block, start_token) {
        Ok(start) => start,
        Err(e) => {
            return Err(e);
        },
    };
    match read_stop(start, stop_token) {
        Ok(stop) => Ok((start, stop)),
        Err(e) => Err(e),
    }
}

/// Resolves the block range of a call: the module `module_name` of `pkg`
/// gives the initial block, and `range` the expression, taken as empty where
/// the caller gave none.
pub fn read_block_range(pkg: &Package, module_name: &str, range: Option<&str>) -> (result: Result<
    (i64, u64),
    RangeError,
>)
    ensures
        range_result_view(result) == block_range(pkg@, module_name@, range_text(range)),
{
    let module = match pkg.find_module(module_name) {
        Some(module) => module,
        None => {
            return Err(RangeError::ModuleNotFound(String::from_str(module_name)));
        },
    };
    let expr = match range {
        Some(expr) => expr,
        None => "",
    };
    proof {
        reveal_strlit("");
    }
    resolve_block_range(module.initial_block, expr)
}

/// The text that describes a range error, with the token that caused it.
pub open spec fn range_error_text(e: RangeErrorView) -> Seq<char> {
    match e {
        RangeErrorView::ModuleNotFound(name) => "module '"@ + name + "' not found in package"@,
        RangeErrorView::InvalidStart(token) => "argument <start> is not a valid integer: "@ + token,
        RangeErrorView::InvalidStop(token) => "argument <stop> is not a valid integer: "@ + token,
        RangeErrorView::StartOutOfRange => "argument <start> is out of range"@,
        RangeErrorView::StopOutOfRange => "argument <stop> is out of range"@,
    }
}

impl RangeError {
    /// The text that describes the error.
    pub fn message(&self) -> (text: String)
        ensures
            text@ == range_error_text(self@),
    {
        match self {
            RangeError::ModuleNotFound(name) => {
                let mut text = String::from_str("module '");
                text.append(name.as_str());
                text.append("' not found in package");
                text
            },
            RangeError::InvalidStart(token) => {
                let mut text = String::from_str("argument <start> is not a valid integer: ");
                text.append(token.as_str());
                text
            },
            RangeError::InvalidStop(token) => {
                let mut text = String::from_str("argument <stop> is not a valid integer: ");
                text.append(token.as_str());
                text
            },
            RangeError::StartOutOfRange => String::from_str("argument <start> is out of range"),
            RangeError::StopOutOfRange => String::from_str("argument <stop> is out of range"),
        }
    }
}

} // verus!
