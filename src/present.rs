//! Derived views of a report: unit conversions, compass sectors and text.
use vstd::prelude::*;
use vstd::arithmetic::div_mod::{lemma_fundamental_div_mod, lemma_fundamental_div_mod_converse, lemma_mod_bound};
use crate::model::{in_range, ApiError, Weather, Wind};

verus! {

/// A full turn, in thousandths of a degree.
pub const FULL_TURN: i64 = 360_000;

/// The width of one compass sector, in thousandths of a degree.
pub const SECTOR_WIDTH: i64 = 45_000;

/// A wind direction's compass sector, with the direction reduced to a turn
/// and the speed as given (both in thousandths).
pub enum WindDisplay {
    N(i64, i64),
    NE(i64, i64),
    E(i64, i64),
    SE(i64, i64),
    S(i64, i64),
    SW(i64, i64),
    W(i64, i64),
    NW(i64, i64),
}

impl WindDisplay {
    /// Index of the sector, clockwise from north.
    pub open spec fn sector(self) -> int {
        match self {
            WindDisplay::N(..) => 0,
            WindDisplay::NE(..) => 1,
            WindDisplay::E(..) => 2,
            WindDisplay::SE(..) => 3,
            WindDisplay::S(..) => 4,
            WindDisplay::SW(..) => 5,
            WindDisplay::W(..) => 6,
            WindDisplay::NW(..) => 7,
        }
    }

    pub open spec fn direction(self) -> i64 {
        match self {
            WindDisplay::N(d, _) => d,
            WindDisplay::NE(d, _) => d,
            WindDisplay::E(d, _) => d,
            WindDisplay::SE(d, _) => d,
            WindDisplay::S(d, _) => d,
            WindDisplay::SW(d, _) => d,
            WindDisplay::W(d, _) => d,
            WindDisplay::NW(d, _) => d,
        }
    }

    pub open spec fn speed(self) -> i64 {
        match self {
            WindDisplay::N(_, s) => s,
            WindDisplay::NE(_, s) => s,
            WindDisplay::E(_, s) => s,
            WindDisplay::SE(_, s) => s,
            WindDisplay::S(_, s) => s,
            WindDisplay::SW(_, s) => s,
            WindDisplay::W(_, s) => s,
            WindDisplay::NW(_, s) => s,
        }
    }
}

/// Whether a reduced direction `x` lies in sector `k`: the sector centred on
/// `45 * k` degrees, open below and closed above, so that a boundary belongs
/// to the sector counter-clockwise of it.
pub open spec fn in_sector(k: int, x: int) -> bool {
    if k == 0 {
        (0 <= x <= 22_500) || (337_500 < x < 360_000)
    } else {
        45_000 * k - 22_500 < x <= 45_000 * k + 22_500
    }
}

/// The sector of a direction in thousandths of a degree.
pub open spec fn sector_of(deg: int) -> int {
    (deg % 360_000 + 22_499) / 45_000 % 8
}

/// Label of sector `k`.
pub open spec fn label_of(k: int) -> Seq<char> {
    if k == 0 {
        "N"@
    } else if k == 1 {
        "NE"@
    } else if k == 2 {
        "E"@
    } else if k == 3 {
        "SE"@
    } else if k == 4 {
        "S"@
    } else if k == 5 {
        "SW"@
    } else if k == 6 {
        "W"@
    } else {
        "NW"@
    }
}

/// Thousandths of a degree Fahrenheit for thousandths of a kelvin, rounded down.
pub open spec fn fahrenheit_milli(kelvin: int) -> int {
    kelvin * 9 / 5 - 459_670
}

/// Thousandths of a mile per hour for thousandths of a metre per second, by
/// the factor 11/25, rounded down.
pub open spec fn mph_milli(speed: int) -> int {
    speed * 11 / 25
}

/// Whole units for thousandths, to the nearest, halves upward.
pub open spec fn round_milli(m: int) -> int {
    (m + 500) / 1000
}

/// Decimal text of a digit.
pub open spec fn digit_text(d: int) -> Seq<char> {
    "0123456789"@.subrange(d, d + 1)
}

/// Decimal text of a natural number, without leading zeros.
pub open spec fn nat_text(n: nat) -> Seq<char>
    decreases n,
{
    if n < 10 {
        digit_text(n as int)
    } else {
        nat_text(n / 10) + digit_text((n % 10) as int)
    }
}

/// Decimal text of an integer, with `-` before a negative one.
pub open spec fn int_text(v: int) -> Seq<char> {
    if v < 0 {
        "-"@ + nat_text((-v) as nat)
    } else {
        nat_text(v as nat)
    }
}

/// The three lines shown for a report.
pub open spec fn summary_text(w: Weather) -> Seq<char> {
    w.name@ + "\n"@ + int_text(round_milli(fahrenheit_milli(w.conditions.temp as int))) + " °F\n"@
        + "Wind "@ + int_text(round_milli(mph_milli(w.wind.speed as int))) + " mph "@ + label_of(
        sector_of(w.wind.deg as int),
    )
}

/// Every direction falls in the sector that `sector_of` names, one of eight.
pub proof fn lemma_sector_total(deg: int)
    ensures
        0 <= sector_of(deg) < 8,
        in_sector(sector_of(deg), deg % 360_000),
{
    let x = deg % 360_000;
    lemma_mod_bound(deg, 360_000);
    let y = (x + 22_499) / 45_000;
    lemma_fundamental_div_mod(x + 22_499, 45_000);
    lemma_mod_bound(x + 22_499, 45_000);
    assert(0 <= y <= 8);
    lemma_mod_bound(y, 8);
    if y == 8 {
        lemma_fundamental_div_mod_converse(y, 8, 1, 0);
    } else {
        lemma_fundamental_div_mod_converse(y, 8, 0, y);
    }
}

/// No direction lies in two sectors.
pub proof fn lemma_sector_unique(k1: int, k2: int, x: int)
    requires
        0 <= k1 < 8,
        0 <= k2 < 8,
        0 <= x < 360_000,
        in_sector(k1, x),
        in_sector(k2, x),
    ensures
        k1 == k2,
{
}

/// Floor division.
pub fn floor_div(a: i64, b: i64) -> (r: i64)
    requires
        b > 0,
        a > i64::MIN,
    ensures
        r == a / b,
{
    if a >= 0 {
        a / b
    } else {
        let n: i64 = 0 - a;
        let q: i64 = (n - 1) / b + 1;
        proof {
            let m = (n - 1) % b as int;
            lemma_fundamental_div_mod(n - 1, b as int);
            lemma_mod_bound(n - 1, b as int);
            assert(a == -(q as int) * b + (b - 1 - m)) by (nonlinear_arith)
                requires
                    n - 1 == b * ((n - 1) / b as int) + m,
                    q == (n - 1) / b as int + 1,
                    a == -n,
            ;
            lemma_fundamental_div_mod_converse(a as int, b as int, -(q as int), b - 1 - m);
        }
        0 - q
    }
}

/// The text of one digit.
fn digit_str(d: u64) -> (r: &'static str)
    requires
        d < 10,
    ensures
        r@ == digit_text(d as int),
{
    let all = "0123456789";
    proof {
        reveal_strlit("0123456789");
    }
    all.substring_char(d as usize, d as usize + 1)
}

/// Decimal text of a natural number.
pub fn nat_string(n: u64) -> (r: String)
    ensures
        r@ == nat_text(n as nat),
    decreases n,
{
    if n < 10 {
        String::from_str(digit_str(n))
    } else {
        let mut r = nat_string(n / 10);
        r.append(digit_str(n % 10));
        r
    }
}

/// Decimal text of an integer.
pub fn int_string(v: i64) -> (r: String)
    requires
        v > i64::MIN,
    ensures
        r@ == int_text(v as int),
{
    if v < 0 {
        let mut r = String::from_str("-");
        let digits = nat_string((0 - v) as u64);
        r.append(digits.as_str());
        r
    } else {
        nat_string(v as u64)
    }
}

impl Wind {
    /// The compass sector of the direction, reduced to one turn, with the speed.
    pub fn display(&self) -> (r: WindDisplay)
        requires
            self.wf(),
        ensures
            r.sector() == sector_of(self.deg as int),
            r.direction() == self.deg as int % 360_000,
            r.speed() == self.speed,
    {
        let turns = floor_div(self.deg, FULL_TURN);
        let x = self.deg - turns * FULL_TURN;
        proof {
            lemma_fundamental_div_mod(self.deg as int, 360_000);
            lemma_mod_bound(self.deg as int, 360_000);
        }
        let k = (x + 22_499) / SECTOR_WIDTH % 8;
        let s = self.speed;
        if k == 0 {
            WindDisplay::N(x, s)
        } else if k == 1 {
            WindDisplay::NE(x, s)
        } else if k == 2 {
            WindDisplay::E(x, s)
        } else if k == 3 {
            WindDisplay::SE(x, s)
        } else if k == 4 {
            WindDisplay::S(x, s)
        } else if k == 5 {
            WindDisplay::SW(x, s)
        } else if k == 6 {
            WindDisplay::W(x, s)
        } else {
            WindDisplay::NW(x, s)
        }
    }
}

impl WindDisplay {
    /// The sector's label: N, NE, E, SE, S, SW, W or NW.
    pub fn label(&self) -> (r: &'static str)
        ensures
            r@ == label_of(self.sector()),
    {
        match self {
            WindDisplay::N(..) => "N",
            WindDisplay::NE(..) => "NE",
            WindDisplay::E(..) => "E",
            WindDisplay::SE(..) => "SE",
            WindDisplay::S(..) => "S",
            WindDisplay::SW(..) => "SW",
            WindDisplay::W(..) => "W",
            WindDisplay::NW(..) => "NW",
        }
    }

    /// `Wind <mph> mph <label>`, the speed rounded to whole miles per hour.
    pub fn text(&self) -> (r: String)
        requires
            in_range(self.speed()),
        ensures
            r@ == "Wind "@ + int_text(round_milli(mph_milli(self.speed() as int))) + " mph "@
                + label_of(self.sector()),
    {
        let s = match self {
            WindDisplay::N(_, s) => *s,
            WindDisplay::NE(_, s) => *s,
            WindDisplay::E(_, s) => *s,
            WindDisplay::SE(_, s) => *s,
            WindDisplay::S(_, s) => *s,
            WindDisplay::SW(_, s) => *s,
            WindDisplay::W(_, s) => *s,
            WindDisplay::NW(_, s) => *s,
        };
        let mph = floor_div(s * 11, 25);
        let whole = floor_div(mph + 500, 1000);
        let mut r = String::from_str("Wind ");
        let n = int_string(whole);
        r.append(n.as_str());
        r.append(" mph ");
        r.append(self.label());
        r
    }
}

impl Weather {
    /// The name of the nearest city.
    pub fn city(&self) -> (r: &str)
        ensures
            r@ == self.name@,
    {
        self.name.as_str()
    }

    /// Temperature in thousandths of a degree Fahrenheit.
    pub fn temperature(&self) -> (r: i64)
        requires
            self.wf(),
        ensures
            r == fahrenheit_milli(self.conditions.temp as int),
    {
        floor_div(self.conditions.temp * 9, 5) - 459_670
    }

    /// The wind's compass sector and speed.
    pub fn wind(&self) -> (r: WindDisplay)
        requires
            self.wf(),
        ensures
            r.sector() == sector_of(self.wind.deg as int),
            r.direction() == self.wind.deg as int % 360_000,
            r.speed() == self.wind.speed,
    {
        self.wind.display()
    }

    /// Three lines: the city, the temperature in whole degrees Fahrenheit,
    /// and the wind.
    pub fn summary(&self) -> (r: String)
        requires
            self.wf(),
        ensures
            r@ == summary_text(*self),
    {
        let mut r = String::from_str(self.city());
        r.append("\n");
        let t = floor_div(self.temperature() + 500, 1000);
        let ts = int_string(t);
        r.append(ts.as_str());
        r.append(" °F\n");
        let w = self.wind().text();
        r.append(w.as_str());
        proof {
            assert(r@ =~= self.name@ + "\n"@ + int_text(round_milli(fahrenheit_milli(self.conditions.temp as int)))
                + " °F\n"@ + ("Wind "@ + int_text(round_milli(mph_milli(self.wind.speed as int)))
                + " mph "@ + label_of(sector_of(self.wind.deg as int))));
        }
        r
    }
}

impl ApiError {
    /// `<code>: <message>`.
    pub fn text(&self) -> (r: String)
        ensures
            r@ == int_text(self.code as int) + ": "@ + self.message@,
    {
        let mut r = int_string(self.code as i64);
        r.append(": ");
        r.append(self.message.as_str());
        r
    }
}

} // verus!
