//! Speed parameters for the cooler and validation of user-supplied values.

use vstd::prelude::*;
use vstd::string::StringExecFns;

verus! {

/// Lowest speed percentage the device accepts.
pub const MIN_SPEED: u8 = 10;

/// Highest speed percentage the device accepts.
pub const MAX_SPEED: u8 = 100;

/// Which of the two controllable parameters a value belongs to.
#[derive(Clone, Copy, Debug, PartialEq, Eq, Structural)]
pub enum ParamKind {
    Fan,
    Pump,
}

/// A validated device parameter: a speed percentage tagged with the
/// controller it is meant for. Values are only ever constructed in the
/// range [`MIN_SPEED`, `MAX_SPEED`].
#[derive(Clone, Copy, Debug, PartialEq, Eq, Structural)]
pub enum DeviceParam {
    FanSpeed(u8),
    PumpSpeed(u8),
}

impl DeviceParam {
    /// The speed percentage carried by the parameter.
    pub open spec fn spec_speed(self) -> u8 {
        match self {
            DeviceParam::FanSpeed(v) => v,
            DeviceParam::PumpSpeed(v) => v,
        }
    }

    /// The controller the parameter addresses.
    pub open spec fn spec_kind(self) -> ParamKind {
        match self {
            DeviceParam::FanSpeed(_) => ParamKind::Fan,
            DeviceParam::PumpSpeed(_) => ParamKind::Pump,
        }
    }

    /// A parameter is valid when its speed lies in the accepted range.
    pub open spec fn valid(self) -> bool {
        MIN_SPEED <= self.spec_speed() <= MAX_SPEED
    }

    pub fn speed(&self) -> (v: u8)
        ensures
            v == self.spec_speed(),
    {
        match self {
            DeviceParam::FanSpeed(v) => *v,
            DeviceParam::PumpSpeed(v) => *v,
        }
    }

    pub fn kind(&self) -> (k: ParamKind)
        ensures
            k == self.spec_kind(),
    {
        match self {
            DeviceParam::FanSpeed(_) => ParamKind::Fan,
            DeviceParam::PumpSpeed(_) => ParamKind::Pump,
        }
    }
}

/// The parameter carrying speed `v` for controller `kind`.
pub open spec fn tagged_param(kind: ParamKind, v: u8) -> DeviceParam {
    match kind {
        ParamKind::Fan => DeviceParam::FanSpeed(v),
        ParamKind::Pump => DeviceParam::PumpSpeed(v),
    }
}

/// A decimal digit.
pub open spec fn is_decimal_digit(c: char) -> bool {
    '0' <= c && c <= '9'
}

/// The numeric value of a decimal digit.
pub open spec fn digit_val(c: char) -> int {
    c as int - '0' as int
}

/// Whether every character of `s` is a decimal digit.
pub open spec fn all_digits(s: Seq<char>) -> bool {
    forall|i: int| 0 <= i < s.len() ==> is_decimal_digit(#[trigger] s[i])
}

/// The number written in decimal by the digits of `s`.
pub open spec fn digits_val(s: Seq<char>) -> int
    decreases s.len(),
{
    if s.len() == 0 {
        0
    } else {
        digits_val(s.drop_last()) * 10 + digit_val(s.last())
    }
}

/// What parsing `s` as a `u8` yields: the value of its digits when `s`
/// is a nonempty string of decimal digits whose value fits in a `u8`,
/// and nothing otherwise.
pub open spec fn spec_parse_u8(s: Seq<char>) -> Option<u8> {
    if s.len() > 0 && all_digits(s) && digits_val(s) <= 255 {
        Some(digits_val(s) as u8)
    } else {
        None
    }
}

proof fn lemma_digits_val_nonneg(s: Seq<char>)
    requires
        all_digits(s),
    ensures
        digits_val(s) >= 0,
    decreases s.len(),
{
    if s.len() > 0 {
        assert(all_digits(s.drop_last()));
        lemma_digits_val_nonneg(s.drop_last());
    }
}

proof fn lemma_digits_val_prefix_le(s: Seq<char>, k: int)
    requires
        all_digits(s),
        0 <= k <= s.len(),
    ensures
        digits_val(s.subrange(0, k)) <= digits_val(s),
    decreases s.len() - k,
{
    if k == s.len() {
        assert(s.subrange(0, k) =~= s);
    } else {
        let t = s.drop_last();
        assert(all_digits(t));
        assert(t.subrange(0, k) =~= s.subrange(0, k));
        lemma_digits_val_prefix_le(t, k);
        lemma_digits_val_nonneg(t);
    }
}

/// Parses a string as a decimal `u8`: accepts exactly the nonempty
/// strings of decimal digits whose value is at most 255.
pub fn parse_u8(s: &str) -> (r: Option<u8>)
    ensures
        r == spec_parse_u8(s@),
{
    let n = s.unicode_len();
    if n == 0 {
        return None;
    }
    let mut acc: u16 = 0;
    let mut i: usize = 0;
    while i < n
        invariant
            n == s@.len(),
            0 <= i <= n,
            all_digits(s@.subrange(0, i as int)),
            acc == digits_val(s@.subrange(0, i as int)),
            acc <= 255,
        decreases n - i,
    {
        let c = s.get_char(i);
        if !('0' <= c && c <= '9') {
            assert(!is_decimal_digit(s@[i as int]));
            return None;
        }
        let d: u16 = (c as u32 - 48) as u16;
        let next: u16 = acc * 10 + d;
        proof {
            assert(s@.subrange(0, i + 1).drop_last() =~= s@.subrange(0, i as int));
            assert(s@.subrange(0, i + 1).last() == s@[i as int]);
        }
        if next > 255 {
            proof {
                if all_digits(s@) && digits_val(s@) <= 255 {
                    lemma_digits_val_prefix_le(s@, i + 1);
                }
            }
            return None;
        }
        acc = next;
        i = i + 1;
    }
    proof {
        assert(s@.subrange(0, n as int) =~= s@);
        lemma_digits_val_nonneg(s@);
    }
    Some(acc as u8)
}

/// The digit character for a value below ten.
pub open spec fn spec_digit_char(d: int) -> char {
    if d == 0 {
        '0'
    } else if d == 1 {
        '1'
    } else if d == 2 {
        '2'
    } else if d == 3 {
        '3'
    } else if d == 4 {
        '4'
    } else if d == 5 {
        '5'
    } else if d == 6 {
        '6'
    } else if d == 7 {
        '7'
    } else if d == 8 {
        '8'
    } else {
        '9'
    }
}

/// The decimal rendering of a byte value, without leading zeros.
pub open spec fn spec_u8_chars(v: int) -> Seq<char> {
    if v < 10 {
        seq![spec_digit_char(v)]
    } else if v < 100 {
        seq![spec_digit_char(v / 10), spec_digit_char(v % 10)]
    } else {
        seq![spec_digit_char(v / 100), spec_digit_char((v / 10) % 10), spec_digit_char(v % 10)]
    }
}

fn digit_str(d: u8) -> (r: &'static str)
    requires
        d < 10,
    ensures
        r@ =~= seq![spec_digit_char(d as int)],
{
    let r = match d {
        0 => "0",
        1 => "1",
        2 => "2",
        3 => "3",
        4 => "4",
        5 => "5",
        6 => "6",
        7 => "7",
        8 => "8",
        _ => "9",
    };
    proof {
        reveal_strlit("0");
        reveal_strlit("1");
        reveal_strlit("2");
        reveal_strlit("3");
        reveal_strlit("4");
        reveal_strlit("5");
        reveal_strlit("6");
        reveal_strlit("7");
        reveal_strlit("8");
        reveal_strlit("9");
    }
    r
}

/// Renders a byte value in decimal, without leading zeros.
pub fn u8_to_string(v: u8) -> (r: String)
    ensures
        r@ == spec_u8_chars(v as int),
{
    let mut out = String::new();
    if v >= 100 {
        out.append(digit_str(v / 100));
    }
    if v >= 10 {
        out.append(digit_str((v / 10) % 10));
    }
    out.append(digit_str(v % 10));
    proof {
        assert(out@ =~= spec_u8_chars(v as int));
    }
    out
}

/// Why a supplied value was rejected.
#[derive(Clone, Copy, Debug, PartialEq, Eq, Structural)]
pub enum ValidationReason {
    /// The value was not a decimal number that fits the parameter.
    ParseError,
    /// The value was a number outside the accepted range.
    RangeError,
}

/// A rejected command-line value: the offending value as text, the
/// parameter it was supplied for, and why it was rejected.
#[derive(Debug)]
pub struct CliValidationError {
    pub value: String,
    pub param: ParamKind,
    pub reason: ValidationReason,
}

/// The mathematical content of a [`CliValidationError`].
pub struct SpecValidationError {
    pub value: Seq<char>,
    pub param: ParamKind,
    pub reason: ValidationReason,
}

impl View for CliValidationError {
    type V = SpecValidationError;

    open spec fn view(&self) -> SpecValidationError {
        SpecValidationError { value: self.value@, param: self.param, reason: self.reason }
    }
}

impl CliValidationError {
    /// The rejection reason in words, as shown to the user.
    pub fn reason_text(&self) -> (r: String)
        ensures
            self.reason == ValidationReason::RangeError ==> r@ == "out of range"@,
            self.reason == ValidationReason::ParseError ==> r@ == "not a number"@,
    {
        match self.reason {
            ValidationReason::RangeError => String::from_str("out of range"),
            ValidationReason::ParseError => String::from_str("not a number"),
        }
    }
}

impl ParamKind {
    /// The long command-line flag that sets this parameter.
    pub fn flag_name(&self) -> (r: String)
        ensures
            *self == ParamKind::Fan ==> r@ == "fan-speed"@,
            *self == ParamKind::Pump ==> r@ == "pump-speed"@,
    {
        match self {
            ParamKind::Fan => String::from_str("fan-speed"),
            ParamKind::Pump => String::from_str("pump-speed"),
        }
    }
}

/// What validating the text `s` for parameter `kind` yields: the tagged
/// parameter when `s` is a decimal number in the accepted range, a
/// parse rejection carrying `s` itself when it is not a number, and a
/// range rejection carrying the number's decimal rendering otherwise.
pub open spec fn spec_check(kind: ParamKind, s: Seq<char>) -> Result<
    DeviceParam,
    SpecValidationError,
> {
    match spec_parse_u8(s) {
        Option::None => Result::Err(
            SpecValidationError { value: s, param: kind, reason: ValidationReason::ParseError },
        ),
        Option::Some(v) => if MIN_SPEED <= v && v <= MAX_SPEED {
            Result::Ok(tagged_param(kind, v))
        } else {
            Result::Err(
                SpecValidationError {
                    value: spec_u8_chars(v as int),
                    param: kind,
                    reason: ValidationReason::RangeError,
                },
            )
        },
    }
}

/// Accepts a parsed value for `kind` exactly when it lies in
/// [`MIN_SPEED`, `MAX_SPEED`]; every value below or above the range is
/// rejected as out of range, for the fan and the pump parameter alike.
pub fn check_range(kind: ParamKind, v: u8) -> (r: Result<DeviceParam, CliValidationError>)
    ensures
        MIN_SPEED <= v <= MAX_SPEED ==> r is Ok && r->Ok_0 == tagged_param(kind, v)
            && r->Ok_0.valid(),
        v < MIN_SPEED || v > MAX_SPEED ==> r is Err && r->Err_0@.reason
            == ValidationReason::RangeError && r->Err_0@.param == kind && r->Err_0@.value
            == spec_u8_chars(v as int),
{
    if MIN_SPEED <= v && v <= MAX_SPEED {
        Ok(
            match kind {
                ParamKind::Fan => DeviceParam::FanSpeed(v),
                ParamKind::Pump => DeviceParam::PumpSpeed(v),
            },
        )
    } else {
        Err(
            CliValidationError {
                value: u8_to_string(v),
                param: kind,
                reason: ValidationReason::RangeError,
            },
        )
    }
}

/// Validates the raw text supplied for one parameter, as
/// [`spec_check`] describes: parse, then range-check.
pub fn parse_param(kind: ParamKind, raw: &str) -> (r: Result<DeviceParam, CliValidationError>)
    ensures
        r is Ok <==> spec_check(kind, raw@) is Ok,
        r is Ok ==> r->Ok_0 == spec_check(kind, raw@)->Ok_0 && r->Ok_0.valid(),
        r is Err ==> r->Err_0@ == spec_check(kind, raw@)->Err_0,
{
    match parse_u8(raw) {
        Some(v) => check_range(kind, v),
        None => Err(
            CliValidationError {
                value: raw.to_owned(),
                param: kind,
                reason: ValidationReason::ParseError,
            },
        ),
    }
}

/// The view of an optional flag value.
pub open spec fn opt_view(o: Option<&str>) -> Option<Seq<char>> {
    match o {
        Option::None => Option::None,
        Option::Some(s) => Option::Some(s@),
    }
}

/// What validating both flag values yields: the fan parameter (when
/// given) followed by the pump parameter (when given), or the first
/// rejection, the fan's before the pump's.
pub open spec fn spec_validate(fan: Option<Seq<char>>, pump: Option<Seq<char>>) -> Result<
    Seq<DeviceParam>,
    SpecValidationError,
> {
    let fan_part = match fan {
        Option::None => Result::<Seq<DeviceParam>, SpecValidationError>::Ok(Seq::empty()),
        Option::Some(s) => match spec_check(ParamKind::Fan, s) {
            Result::Ok(p) => Result::Ok(seq![p]),
            Result::Err(e) => Result::Err(e),
        },
    };
    match fan_part {
        Result::Err(e) => Result::Err(e),
        Result::Ok(ps) => match pump {
            Option::None => Result::Ok(ps),
            Option::Some(s) => match spec_check(ParamKind::Pump, s) {
                Result::Ok(p) => Result::Ok(ps.push(p)),
                Result::Err(e) => Result::Err(e),
            },
        },
    }
}

/// Validates the values supplied for the fan and pump flags, in that
/// order, and returns the validated parameters or the first rejection.
/// Every returned parameter lies in the accepted range.
pub fn validate(fan: Option<&str>, pump: Option<&str>) -> (r: Result<
    Vec<DeviceParam>,
    CliValidationError,
>)
    ensures
        r is Ok <==> spec_validate(opt_view(fan), opt_view(pump)) is Ok,
        r is Ok ==> r->Ok_0@ == spec_validate(opt_view(fan), opt_view(pump))->Ok_0,
        r is Err ==> r->Err_0@ == spec_validate(opt_view(fan), opt_view(pump))->Err_0,
        r is Ok ==> forall|i: int| 0 <= i < r->Ok_0@.len() ==> (#[trigger] r->Ok_0@[i]).valid(),
{
    let mut params: Vec<DeviceParam> = Vec::new();
    if let Some(f) = fan {
        match parse_param(ParamKind::Fan, f) {
            Ok(p) => params.push(p),
            Err(e) => {
                return Err(e);
            },
        }
    }
    if let Some(p) = pump {
        match parse_param(ParamKind::Pump, p) {
            Ok(dp) => params.push(dp),
            Err(e) => {
                return Err(e);
            },
        }
    }
    proof {
        assert(params@ =~= spec_validate(opt_view(fan), opt_view(pump))->Ok_0);
    }
    Ok(params)
}

/// Whether neither speed flag was given, in which case the program only
/// prints its usage text and never touches the device.
pub fn no_options_present(fan_given: bool, pump_given: bool) -> (r: bool)
    ensures
        r == (!fan_given && !pump_given),
{
    !(fan_given || pump_given)
}

} // verus!
