//! The thermostat: a setpoint and mode holder driven by parsed text
//! commands. Temperatures are held in hundredths of a degree so that
//! setpoints and unit conversions stay exact integer arithmetic.

use vstd::prelude::*;
use vstd::string::StringSliceAdditionalSpecFns;

verus! {

/// The unit a thermostat reports and accepts temperatures in.
#[derive(Clone, Copy, Debug, PartialEq, Eq, Structural)]
pub enum TemperatureUnits {
    Celsius,
    Fahrenheit,
}

impl Default for TemperatureUnits {
    /// The standard unit is Celsius.
    fn default() -> (r: Self)
        ensures
            r == TemperatureUnits::Celsius,
    {
        TemperatureUnits::Celsius
    }
}

/// The operating mode of the thermostat.
#[derive(Clone, Copy, Debug, PartialEq, Eq, Structural)]
pub enum ThermostatMode {
    Off,
}

impl Default for ThermostatMode {
    /// A thermostat starts out switched off.
    fn default() -> (r: Self)
        ensures
            r == ThermostatMode::Off,
    {
        ThermostatMode::Off
    }
}

/// A parsed thermostat command.
#[derive(Clone, Copy, Debug, PartialEq, Eq, Structural)]
pub enum ThermostatCommand {
    /// Set the target temperature, in hundredths of a degree.
    SetTemperature(i32),
}

/// An ASCII whitespace byte, as a token separator.
pub open spec fn is_space(b: u8) -> bool {
    b == 32 || (9 <= b <= 13)
}

/// An ASCII decimal digit.
pub open spec fn is_digit(b: u8) -> bool {
    48 <= b <= 57
}

/// The first index at or after `i` whose byte is not whitespace, or the
/// end of the sequence.
pub open spec fn ws_end(s: Seq<u8>, i: int) -> int
    decreases s.len() - i,
{
    if 0 <= i < s.len() && is_space(s[i]) {
        ws_end(s, i + 1)
    } else {
        i
    }
}

/// The first index at or after `i` whose byte is whitespace, or the end
/// of the sequence: the end of the token starting at `i`.
pub open spec fn token_end(s: Seq<u8>, i: int) -> int
    decreases s.len() - i,
{
    if 0 <= i < s.len() && !is_space(s[i]) {
        token_end(s, i + 1)
    } else {
        i
    }
}

/// The first index in `[i, j)` holding an ASCII dot, or `j`.
pub open spec fn dot_pos(s: Seq<u8>, i: int, j: int) -> int
    decreases j - i,
{
    if i < j && s[i] != 46 {
        dot_pos(s, i + 1, j)
    } else {
        i
    }
}

/// Every byte in `[i, j)` is a decimal digit.
pub open spec fn all_digits_range(s: Seq<u8>, i: int, j: int) -> bool {
    forall|k: int| i <= k < j ==> is_digit(#[trigger] s[k])
}

/// The value of the decimal digits in `[i, j)`, most significant first.
pub open spec fn digits_val_range(s: Seq<u8>, i: int, j: int) -> int
    decreases j - i,
{
    if i >= j {
        0
    } else {
        digits_val_range(s, i, j - 1) * 10 + (s[j - 1] - 48)
    }
}

/// The value of at most two fractional digits in `[i, j)`, scaled to
/// hundredths.
pub open spec fn frac_scaled_range(s: Seq<u8>, i: int, j: int) -> int {
    if j <= i {
        0
    } else if j == i + 1 {
        (s[i] - 48) * 10
    } else {
        (s[i] - 48) * 10 + (s[i + 1] - 48)
    }
}

/// `10^n`.
pub open spec fn pow10(n: int) -> int
    decreases n,
{
    if n <= 0 {
        1
    } else {
        10 * pow10(n - 1)
    }
}

/// The magnitude the digit span `[i, j)` denotes, in hundredths: one to
/// seven integer digits, optionally followed by a dot and one or two
/// fractional digits. Anything else denotes nothing.
pub open spec fn spec_magnitude_at(s: Seq<u8>, i: int, j: int) -> Option<int> {
    let d = dot_pos(s, i, j);
    if 1 <= d - i <= 7 && all_digits_range(s, i, d) && (d == j || (1 <= j - (d + 1) <= 2
        && all_digits_range(s, d + 1, j))) {
        Some(digits_val_range(s, i, d) * 100 + frac_scaled_range(s, d + 1, j))
    } else {
        None
    }
}

/// The signed decimal value the span `[i, j)` denotes, in hundredths: an
/// optional leading minus sign followed by a magnitude.
pub open spec fn spec_number_at(s: Seq<u8>, i: int, j: int) -> Option<int> {
    if i < j && s[i] == 45 {
        match spec_magnitude_at(s, i + 1, j) {
            Some(m) => Some(-m),
            None => None,
        }
    } else {
        spec_magnitude_at(s, i, j)
    }
}

/// The command keyword that sets the target temperature.
pub open spec fn spec_keyword() -> Seq<u8> {
    seq![116u8, 101u8, 109u8, 112u8, 101u8, 114u8, 97u8, 116u8, 117u8, 114u8, 101u8]
}

/// The setpoint a command line denotes, in hundredths of a degree: the
/// keyword, then one number token, and nothing further but whitespace.
pub open spec fn spec_parse_command(s: Seq<u8>) -> Option<int> {
    let i1 = ws_end(s, 0);
    let i2 = token_end(s, i1);
    let i3 = ws_end(s, i2);
    let i4 = token_end(s, i3);
    let i5 = ws_end(s, i4);
    if s.subrange(i1, i2) == spec_keyword() && i5 == s.len() {
        spec_number_at(s, i3, i4)
    } else {
        None
    }
}

/// Whether `b` is an ASCII whitespace byte.
fn is_space_byte(b: u8) -> (r: bool)
    ensures
        r == is_space(b),
{
    b == 32 || (9 <= b && b <= 13)
}

/// Advance past whitespace, starting at `from`.
fn skip_spaces(s: &[u8], from: usize) -> (r: usize)
    requires
        from <= s@.len(),
    ensures
        r == ws_end(s@, from as int),
        from <= r <= s@.len(),
{
    let mut i: usize = from;
    while i < s.len() && is_space_byte(s[i])
        invariant
            from <= i <= s@.len(),
            ws_end(s@, from as int) == ws_end(s@, i as int),
        decreases s@.len() - i,
    {
        i = i + 1;
    }
    i
}

/// Advance past the token starting at `from`.
fn scan_token(s: &[u8], from: usize) -> (r: usize)
    requires
        from <= s@.len(),
    ensures
        r == token_end(s@, from as int),
        from <= r <= s@.len(),
{
    let mut i: usize = from;
    while i < s.len() && !is_space_byte(s[i])
        invariant
            from <= i <= s@.len(),
            token_end(s@, from as int) == token_end(s@, i as int),
        decreases s@.len() - i,
    {
        i = i + 1;
    }
    i
}

/// Find the first dot in `[from, to)`, or `to`.
fn find_dot(s: &[u8], from: usize, to: usize) -> (r: usize)
    requires
        from <= to <= s@.len(),
    ensures
        r == dot_pos(s@, from as int, to as int),
        from <= r <= to,
{
    let mut i: usize = from;
    while i < to && s[i] != 46
        invariant
            from <= i <= to <= s@.len(),
            dot_pos(s@, from as int, to as int) == dot_pos(s@, i as int, to as int),
        decreases to - i,
    {
        i = i + 1;
    }
    i
}

/// `10^n` is positive.
proof fn lemma_pow10_pos(n: int)
    ensures
        pow10(n) >= 1,
    decreases (if n <= 0 { 0int } else { n }),
{
    if n > 0 {
        lemma_pow10_pos(n - 1);
    }
}

/// `10^n` grows with `n`.
proof fn lemma_pow10_mono(a: int, b: int)
    requires
        0 <= a <= b,
    ensures
        pow10(a) <= pow10(b),
    decreases b - a,
{
    if a < b {
        lemma_pow10_mono(a, b - 1);
        lemma_pow10_pos(b - 1);
    }
}

/// Parse the magnitude denoted by `[from, to)`, in hundredths.
#[verifier::loop_isolation(false)]
fn parse_magnitude(s: &[u8], from: usize, to: usize) -> (r: Option<u32>)
    requires
        from <= to <= s@.len(),
    ensures
        r is Some <==> spec_magnitude_at(s@, from as int, to as int) is Some,
        r matches Some(v) ==> Some(v as int) == spec_magnitude_at(s@, from as int, to as int),
        r matches Some(v) ==> v <= 999999999,
{
    proof {
        reveal_with_fuel(pow10, 9);
    }
    let d: usize = find_dot(s, from, to);
    if d - from < 1 || d - from > 7 {
        return None;
    }
    let mut acc: u32 = 0;
    let mut k: usize = from;
    while k < d
        invariant
            from <= k <= d,
            d <= to <= s@.len(),
            1 <= d - from <= 7,
            all_digits_range(s@, from as int, k as int),
            acc == digits_val_range(s@, from as int, k as int),
            acc < pow10(k - from),
            pow10(7) == 10000000,
        decreases d - k,
    {
        let b: u8 = s[k];
        if b < 48 || b > 57 {
            proof {
                assert(!is_digit(s@[k as int]));
                assert(!all_digits_range(s@, from as int, d as int));
            }
            return None;
        }
        proof {
            lemma_pow10_mono(k - from, 6);
            assert(pow10(6) == 1000000) by {
                reveal_with_fuel(pow10, 8);
            }
        }
        acc = acc * 10 + ((b - 48) as u32);
        k = k + 1;
    }
    if d == to {
        return Some(acc * 100);
    }
    let flen: usize = to - d - 1;
    if flen < 1 || flen > 2 {
        return None;
    }
    let b1: u8 = s[d + 1];
    if b1 < 48 || b1 > 57 {
        proof {
            assert(!is_digit(s@[d + 1]));
            assert(!all_digits_range(s@, d + 1 as int, to as int));
        }
        return None;
    }
    let mut frac: u32 = ((b1 - 48) as u32) * 10;
    if flen == 2 {
        let b2: u8 = s[d + 2];
        if b2 < 48 || b2 > 57 {
            proof {
                assert(!is_digit(s@[d + 2]));
                assert(!all_digits_range(s@, d + 1 as int, to as int));
            }
            return None;
        }
        frac = frac + ((b2 - 48) as u32);
    }
    proof {
        assert(all_digits_range(s@, d + 1 as int, to as int));
    }
    Some(acc * 100 + frac)
}

/// Parse the signed decimal value denoted by `[from, to)`, in hundredths.
fn parse_number(s: &[u8], from: usize, to: usize) -> (r: Option<i32>)
    requires
        from <= to <= s@.len(),
    ensures
        r is Some <==> spec_number_at(s@, from as int, to as int) is Some,
        r matches Some(v) ==> Some(v as int) == spec_number_at(s@, from as int, to as int),
{
    let negative: bool = from < to && s[from] == 45;
    let start: usize = if negative {
        from + 1
    } else {
        from
    };
    match parse_magnitude(s, start, to) {
        None => None,
        Some(m) => if negative {
            Some(-(m as i32))
        } else {
            Some(m as i32)
        },
    }
}

/// The keyword bytes as a vector.
fn keyword_vec() -> (v: Vec<u8>)
    ensures
        v@ == spec_keyword(),
{
    let mut v: Vec<u8> = Vec::new();
    v.push(116);
    v.push(101);
    v.push(109);
    v.push(112);
    v.push(101);
    v.push(114);
    v.push(97);
    v.push(116);
    v.push(117);
    v.push(114);
    v.push(101);
    proof {
        assert(v@ =~= spec_keyword());
    }
    v
}

impl ThermostatCommand {
    /// Parse a command line.
    ///
    /// A line sets the target temperature exactly when it holds the
    /// keyword and then one decimal number token (at most seven integer
    /// digits and at most two fractional digits, an optional leading
    /// minus sign), with nothing else but whitespace around them. The
    /// parsed setpoint is in hundredths of a degree; any other line is
    /// rejected.
    #[verifier::loop_isolation(false)]
    pub fn parse(command: &str) -> (r: Result<Self, ()>)
        ensures
            r is Ok <==> spec_parse_command(command.spec_bytes()) is Some,
            r matches Ok(c) ==> c == ThermostatCommand::SetTemperature(
                spec_parse_command(command.spec_bytes()).unwrap() as i32,
            ),
    {
        let s: &[u8] = command.as_bytes();
        let n: usize = s.len();
        let i1: usize = skip_spaces(s, 0);
        let i2: usize = scan_token(s, i1);
        proof {
            assert(spec_keyword().len() == 11);
        }
        if i2 - i1 != 11 {
            proof {
                assert(s@.subrange(i1 as int, i2 as int).len() != spec_keyword().len());
            }
            return Err(());
        }
        let kw: Vec<u8> = keyword_vec();
        let mut j: usize = 0;
        while j < 11
            invariant
                i1 + 11 == i2,
                i2 <= s@.len(),
                j <= 11,
                kw@ == spec_keyword(),
                forall|q: int| 0 <= q < j ==> s@[i1 + q] == #[trigger] spec_keyword()[q],
            decreases 11 - j,
        {
            if s[i1 + j] != kw[j] {
                proof {
                    assert(s@.subrange(i1 as int, i2 as int)[j as int] == s@[i1 + j]);
                    assert(s@.subrange(i1 as int, i2 as int) != spec_keyword());
                }
                return Err(());
            }
            j = j + 1;
        }
        proof {
            assert(s@.subrange(i1 as int, i2 as int) =~= spec_keyword());
        }
        let i3: usize = skip_spaces(s, i2);
        let i4: usize = scan_token(s, i3);
        let i5: usize = skip_spaces(s, i4);
        if i5 != n {
            return Err(());
        }
        match parse_number(s, i3, i4) {
            None => Err(()),
            Some(v) => Ok(ThermostatCommand::SetTemperature(v)),
        }
    }
}

/// Converting a Celsius value to Fahrenheit, both in hundredths of a
/// degree, rounding toward zero.
pub open spec fn spec_to_fahrenheit(t: int) -> int {
    if t >= 0 {
        t * 9 / 5 + 3200
    } else {
        3200 - (-t) * 9 / 5
    }
}

/// Converting a Fahrenheit value to Celsius, both in hundredths of a
/// degree, rounding toward zero.
pub open spec fn spec_to_celsius(t: int) -> int {
    if t >= 3200 {
        (t - 3200) * 5 / 9
    } else {
        -((3200 - t) * 5 / 9)
    }
}

/// The thermostat: holds the target setpoint and the operating mode.
/// The setpoint is kept in hundredths of a degree in standard units
/// (Celsius).
pub struct Thermostat {
    /// Target temperature in hundredths of a degree Celsius.
    pub target_temperature: i32,
    /// The operating mode.
    pub mode: ThermostatMode,
    /// The unit this thermostat reports and accepts temperatures in.
    pub temperature_units: TemperatureUnits,
}

impl Thermostat {
    /// One pass of the control loop. There is no regulation logic yet:
    /// the pass does nothing and always succeeds.
    pub fn run(&mut self) -> (r: Result<(), ()>)
        ensures
            r is Ok,
            *final (self) == *old(self),
    {
        Ok(())
    }

    /// Apply a parsed command: a setpoint command stores its value; the
    /// mode and units are never touched.
    pub fn execute(&mut self, command: ThermostatCommand)
        ensures
            final (self).mode == old(self).mode,
            final (self).temperature_units == old(self).temperature_units,
            command matches ThermostatCommand::SetTemperature(t) ==> final (
                self).target_temperature == t,
    {
        match command {
            ThermostatCommand::SetTemperature(t) => {
                self.target_temperature = t;
            },
        }
    }

    /// Convert a standard-unit (Celsius) temperature into this
    /// thermostat's unit. Hundredths of a degree; the bound keeps the
    /// scaled arithmetic inside the machine integer range.
    pub fn convert_temperature_from_std_units(&self, temperature: i32) -> (r: i32)
        requires
            -100000000 <= temperature <= 100000000,
        ensures
            self.temperature_units is Celsius ==> r == temperature,
            self.temperature_units is Fahrenheit ==> r == spec_to_fahrenheit(temperature as int),
    {
        match self.temperature_units {
            TemperatureUnits::Celsius => temperature,
            TemperatureUnits::Fahrenheit => {
                if temperature >= 0 {
                    let m: u32 = (temperature as u32) * 9 / 5;
                    (m as i32) + 3200
                } else {
                    let m: u32 = ((-temperature) as u32) * 9 / 5;
                    3200 - (m as i32)
                }
            },
        }
    }

    /// Convert a temperature in this thermostat's unit into standard
    /// units (Celsius). Hundredths of a degree; the bound keeps the
    /// scaled arithmetic inside the machine integer range.
    pub fn convert_temperature_to_std_units(&self, temperature: i32) -> (r: i32)
        requires
            -100000000 <= temperature <= 100000000,
        ensures
            self.temperature_units is Celsius ==> r == temperature,
            self.temperature_units is Fahrenheit ==> r == spec_to_celsius(temperature as int),
    {
        match self.temperature_units {
            TemperatureUnits::Celsius => temperature,
            TemperatureUnits::Fahrenheit => {
                if temperature >= 3200 {
                    let d: u32 = (temperature - 3200) as u32;
                    (d * 5 / 9) as i32
                } else {
                    let d: u32 = (3200 - temperature) as u32;
                    -((d * 5 / 9) as i32)
                }
            },
        }
    }
}

/// Builds a `Thermostat`, fixing the defaults: an initial setpoint of
/// twenty degrees and the off mode.
pub struct ThermostatBuilder {
    /// The setpoint the built thermostat starts with, in hundredths of a
    /// degree Celsius.
    pub target_temperature: i32,
    /// The mode the built thermostat starts in.
    pub default_mode: ThermostatMode,
    /// The unit the built thermostat uses.
    pub default_units: TemperatureUnits,
}

impl ThermostatBuilder {
    /// A builder with the default setpoint of twenty degrees, the off
    /// mode, and Celsius units.
    pub fn new() -> (b: Self)
        ensures
            b.target_temperature == 2000,
            b.default_mode == ThermostatMode::Off,
            b.default_units == TemperatureUnits::Celsius,
    {
        ThermostatBuilder {
            target_temperature: 2000,
            default_mode: ThermostatMode::default(),
            default_units: TemperatureUnits::default(),
        }
    }

    /// Choose the unit the built thermostat will use.
    pub fn with_units(self, units: TemperatureUnits) -> (b: Self)
        ensures
            b.target_temperature == self.target_temperature,
            b.default_mode == self.default_mode,
            b.default_units == units,
    {
        ThermostatBuilder {
            target_temperature: self.target_temperature,
            default_mode: self.default_mode,
            default_units: units,
        }
    }

    /// Accepts a sensor pairing request and discards the builder; the
    /// built thermostat does not yet own a sensor, so nothing is
    /// recorded.
    pub fn with_sensor(self) {
    }

    /// Build the thermostat from the recorded defaults.
    pub fn build(self) -> (t: Thermostat)
        ensures
            t.target_temperature == self.target_temperature,
            t.mode == self.default_mode,
            t.temperature_units == self.default_units,
    {
        Thermostat {
            target_temperature: self.target_temperature,
            mode: self.default_mode,
            temperature_units: self.default_units,
        }
    }
}

} // verus!
