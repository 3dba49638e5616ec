//! A "stretchy" value with lower and upper bounds and an optional desired value.
//!
//! Used to represent whitespace amounts: different rules may place constraints on the
//! minimum and maximum allowed amount, and the desired value is used when it lies between
//! the bounds.
use vstd::prelude::*;
use vstd::std_specs::cmp::{PartialEqSpecImpl, PartialOrdSpecImpl};
use vstd::std_specs::convert::{FromSpecImpl, IntoSpecImpl};
use vstd::std_specs::ops::AddSpecImpl;
use core::cmp::Ordering;

verus! {

/// The plain contents of a [`Constrained`]: lower bound, upper bound and desired value.
#[derive(Debug, Clone, Copy, PartialEq, Eq)]
pub struct ConstrainedModel {
    pub min: u8,
    pub max: u8,
    pub desired: Option<u8>,
}

impl ConstrainedModel {
    /// The lower bound does not exceed the upper bound.
    pub open spec fn wf(self) -> bool {
        self.min <= self.max
    }
}

pub open spec fn max_u8(a: u8, b: u8) -> u8 {
    if a >= b { a } else { b }
}

pub open spec fn min_u8(a: u8, b: u8) -> u8 {
    if a <= b { a } else { b }
}

/// The larger of two optional values, where an absent value is smaller than any present one.
pub open spec fn max_desired(a: Option<u8>, b: Option<u8>) -> Option<u8> {
    match (a, b) {
        (None, None) => None,
        (None, Some(y)) => Some(y),
        (Some(x), None) => Some(x),
        (Some(x), Some(y)) => Some(max_u8(x, y)),
    }
}

/// `v` brought into `lo..=hi`.
pub open spec fn clamp_u8(v: u8, lo: u8, hi: u8) -> u8 {
    if v < lo {
        lo
    } else if v > hi {
        hi
    } else {
        v
    }
}

/// No constraint at all.
pub open spec fn unconstrained() -> ConstrainedModel {
    ConstrainedModel { min: 0, max: 255, desired: None }
}

/// Both constraints at once: the tighter bounds of the two, the larger desired value; where
/// the new lower bound exceeds the new upper bound, the upper bound grows to meet it.
pub open spec fn combined(a: ConstrainedModel, b: ConstrainedModel) -> ConstrainedModel {
    let lo = max_u8(a.min, b.min);
    let hi = min_u8(a.max, b.max);
    ConstrainedModel {
        min: lo,
        max: if lo > hi { lo } else { hi },
        desired: max_desired(a.desired, b.desired),
    }
}

/// The resolved value: the desired value brought into the bounds, or the lower bound when
/// nothing is desired.
pub open spec fn resolved(c: ConstrainedModel) -> u8 {
    match c.desired {
        Some(d) => clamp_u8(d, c.min, c.max),
        None => c.min,
    }
}

/// Comparison of constrained values: by their desired values alone.
pub open spec fn desired_order(a: Option<u8>, b: Option<u8>) -> Ordering {
    match (a, b) {
        (None, None) => Ordering::Equal,
        (None, Some(_)) => Ordering::Less,
        (Some(_), None) => Ordering::Greater,
        (Some(x), Some(y)) => if x < y {
            Ordering::Less
        } else if x > y {
            Ordering::Greater
        } else {
            Ordering::Equal
        },
    }
}

/// Whether a plain amount `n` is acceptable for `c`: inside the bounds, and equal to the
/// desired value when there is one.
pub open spec fn accepts(c: ConstrainedModel, n: usize) -> bool {
    &&& c.min <= n <= c.max
    &&& match c.desired {
        Some(d) => d == n,
        None => true,
    }
}

/// The decimal digit character for `d < 10`.
pub open spec fn digit_char(d: nat) -> char {
    (48 + d) as char
}

/// The decimal representation of `n`, without leading zeros.
pub open spec fn decimal(n: nat) -> Seq<char>
    decreases n,
{
    if n < 10 {
        seq![digit_char(n)]
    } else {
        decimal(n / 10).push(digit_char(n % 10))
    }
}

/// The debugging text of a constrained value: the desired value (or `?`), then `≥min` where
/// the lower bound is not 0 and `≤max` where the upper bound is not 255.
pub open spec fn debug_text(c: ConstrainedModel) -> Seq<char> {
    let head = match c.desired {
        Some(v) => decimal(v as nat),
        None => seq!['?'],
    };
    let low = if c.min != 0 {
        seq!['\u{2265}'] + decimal(c.min as nat)
    } else {
        Seq::<char>::empty()
    };
    let high = if c.max != 255 {
        seq!['\u{2264}'] + decimal(c.max as nat)
    } else {
        Seq::<char>::empty()
    };
    head + low + high
}

fn digit_str(d: u8) -> (r: &'static str)
    requires
        d < 10,
    ensures
        r@ == seq![digit_char(d as nat)],
{
    proof {
        reveal_strlit("0");
        reveal_strlit("1");
        reveal_strlit("2");
        reveal_strlit("3");
        reveal_strlit("4");
        reveal_strlit("5");
        reveal_strlit("6");
        reveal_strlit("7");
        reveal_strlit("8");
        reveal_strlit("9");
    }
    match d {
        0 => "0",
        1 => "1",
        2 => "2",
        3 => "3",
        4 => "4",
        5 => "5",
        6 => "6",
        7 => "7",
        8 => "8",
        _ => "9",
    }
}

/// Appends the decimal representation of `n` to `out`.
fn write_decimal(out: &mut String, n: u8)
    ensures
        final(out)@ == old(out)@ + decimal(n as nat),
{
    proof {
        reveal_with_fuel(decimal, 3);
    }
    if n >= 100 {
        out.append(digit_str(n / 100));
        out.append(digit_str((n / 10) % 10));
        out.append(digit_str(n % 10));
        assert(decimal((n / 10) as nat) == seq![digit_char((n / 100) as nat), digit_char(((n / 10) % 10) as nat)]);
    } else if n >= 10 {
        out.append(digit_str(n / 10));
        out.append(digit_str(n % 10));
    } else {
        out.append(digit_str(n));
    }
}

/// A whitespace amount with lower and upper bounds and an optional desired value.
#[derive(Clone, Copy)]
pub struct Constrained {
    min: u8,
    max: u8,
    desired: Option<u8>,
}

impl View for Constrained {
    type V = ConstrainedModel;

    closed spec fn view(&self) -> ConstrainedModel {
        ConstrainedModel { min: self.min, max: self.max, desired: self.desired }
    }
}

impl Constrained {
    #[verifier::type_invariant]
    spec fn bounds_ordered(self) -> bool {
        self.min <= self.max
    }

    /// No constraint: bounds `0..=255` and no desired value.
    pub fn new() -> (r: Self)
        ensures
            r@ == unconstrained(),
    {
        Self { min: u8::MIN, max: u8::MAX, desired: None }
    }

    /// An unconstrained(!) desired value.
    pub fn desired(value: u8) -> (r: Self)
        ensures
            r@ == (ConstrainedModel { desired: Some(value), ..unconstrained() }),
    {
        let mut me = Self::new();
        me.desired = Some(value);
        me
    }

    /// A value of at least `value`, with nothing desired.
    pub fn at_least(value: u8) -> (r: Self)
        ensures
            r@ == (ConstrainedModel { min: value, ..unconstrained() }),
    {
        let mut me = Self::new();
        me.min = value;
        me
    }

    /// A value of at most `value`, with nothing desired.
    pub fn at_most(value: u8) -> (r: Self)
        ensures
            r@ == (ConstrainedModel { max: value, ..unconstrained() }),
    {
        let mut me = Self::new();
        me.max = value;
        me
    }

    /// A value between `min` and `max`; when `min > max` the upper bound grows to `min`.
    pub fn between(min: u8, max: u8) -> (r: Self)
        ensures
            r@ == combined(
                ConstrainedModel { min: min, ..unconstrained() },
                ConstrainedModel { max: max, ..unconstrained() },
            ),
            r@ == (ConstrainedModel {
                min: min,
                max: if min <= max { max } else { min },
                desired: None,
            }),
    {
        Self::at_least(min) + Self::at_most(max)
    }

    /// The value, by priority:
    /// 1. the desired value, if it lies within the bounds;
    /// 2. if the desired value lies outside the bounds, the bound that it ran against;
    /// 3. if there is no desired value, the lower bound.
    pub fn value(&self) -> (r: u8)
        ensures
            r == resolved(self@),
            self@.min <= r <= self@.max,
            self@.desired is None ==> r == self@.min,
            self@.desired matches Some(d) ==> {
                &&& (self@.min <= d <= self@.max ==> r == d)
                &&& (d > self@.max ==> r == self@.max)
                &&& (d < self@.min ==> r == self@.min)
            },
    {
        proof {
            use_type_invariant(self);
        }
        match self.desired {
            Some(it) => if it < self.min {
                self.min
            } else if it > self.max {
                self.max
            } else {
                it
            },
            None => self.min,
        }
    }

    /// Adds the constraints of `other` to this value.
    pub fn combine_mut(&mut self, other: Constrained)
        ensures
            final(self)@ == combined(old(self)@, other@),
    {
        let min = Ord::max(self.min, other.min);
        let mut max = Ord::min(self.max, other.max);
        if min > max {
            // ensure that min never exceeds max, by growing max.
            max = min;
        }
        let desired = Ord::max(self.desired, other.desired);
        *self = Constrained { min, max, desired };
    }

    /// This value with the constraints of `other` added.
    pub fn combine(&self, other: &Constrained) -> (r: Self)
        ensures
            r@ == combined(self@, other@),
    {
        let mut new = self.clone();
        new.combine_mut(other.clone());
        new
    }
}

impl core::ops::Add for Constrained {
    type Output = Self;

    fn add(self, rhs: Self) -> (r: Self)
        ensures
            r@ == combined(self@, rhs@),
    {
        self.combine(&rhs)
    }
}

impl AddSpecImpl for Constrained {
    open spec fn obeys_add_spec() -> bool {
        true
    }

    open spec fn add_req(self, rhs: Self) -> bool {
        true
    }

    closed spec fn add_spec(self, rhs: Self) -> Self {
        let m = combined(self@, rhs@);
        Constrained { min: m.min, max: m.max, desired: m.desired }
    }
}


impl core::ops::AddAssign for Constrained {
    fn add_assign(&mut self, rhs: Self)
        ensures
            final(self)@ == combined(old(self)@, rhs@),
    {
        self.combine_mut(rhs)
    }
}

impl From<u8> for Constrained {
    fn from(value: u8) -> (r: Self)
        ensures
            r@ == (ConstrainedModel { desired: Some(value), ..unconstrained() }),
    {
        Constrained::desired(value)
    }
}

impl FromSpecImpl<u8> for Constrained {
    open spec fn obeys_from_spec() -> bool {
        true
    }

    closed spec fn from_spec(value: u8) -> Self {
        Constrained { min: 0, max: 255, desired: Some(value) }
    }
}

impl From<usize> for Constrained {
    /// A desired value, saturated at 255.
    fn from(value: usize) -> (r: Self)
        ensures
            r@ == (ConstrainedModel {
                desired: Some(if value <= 255 { value as u8 } else { 255u8 }),
                ..unconstrained()
            }),
    {
        Constrained::desired(value.min(u8::MAX as usize) as u8)
    }
}

impl FromSpecImpl<usize> for Constrained {
    open spec fn obeys_from_spec() -> bool {
        true
    }

    closed spec fn from_spec(value: usize) -> Self {
        Constrained {
            min: 0,
            max: 255,
            desired: Some(if value <= 255 { value as u8 } else { 255u8 }),
        }
    }
}

impl Into<u8> for Constrained {
    fn into(self) -> u8 {
        self.value()
    }
}

impl IntoSpecImpl<u8> for Constrained {
    open spec fn obeys_into_spec() -> bool {
        true
    }

    open spec fn into_spec(self) -> u8 {
        resolved(self@)
    }
}

impl PartialEq<Constrained> for Constrained {
    /// Two constrained values are equal when they desire the same value.
    fn eq(&self, other: &Constrained) -> (r: bool)
        ensures
            r == (self@.desired == other@.desired),
    {
        self.desired.eq(&other.desired)
    }
}

impl PartialEqSpecImpl<Constrained> for Constrained {
    open spec fn obeys_eq_spec() -> bool {
        true
    }

    open spec fn eq_spec(&self, other: &Constrained) -> bool {
        self@.desired == other@.desired
    }
}

impl PartialEq<usize> for Constrained {
    /// A plain amount equals a constrained value when it lies within the bounds and, if a
    /// value is desired, is that value.
    fn eq(&self, other: &usize) -> (r: bool)
        ensures
            r == accepts(self@, *other),
            r ==> self@.min <= *other && *other <= self@.max,
            r && self@.desired is Some ==> self@.desired == Some(*other as u8),
            !r ==> (*other < self@.min || *other > self@.max
                || (self@.desired is Some && self@.desired != Some(*other as u8))),
    {
        if *other < (self.min as usize) || *other > (self.max as usize) {
            return false;
        } else if let Some(desired) = self.desired {
            let other_n = *other as u8;
            desired == other_n
        } else {
            true
        }
    }
}

impl PartialEqSpecImpl<usize> for Constrained {
    open spec fn obeys_eq_spec() -> bool {
        true
    }

    open spec fn eq_spec(&self, other: &usize) -> bool {
        accepts(self@, *other)
    }
}

impl Eq for Constrained {
}

impl PartialOrd<Constrained> for Constrained {
    /// Orders constrained values by their desired values, an absent one first.
    fn partial_cmp(&self, other: &Constrained) -> (r: Option<Ordering>)
        ensures
            r == Some(desired_order(self@.desired, other@.desired)),
            match (self@.desired, other@.desired) {
                (Some(x), Some(y)) => (r == Some(Ordering::Less) <==> x < y) && (r == Some(Ordering::Greater) <==> x > y)
                    && (r == Some(Ordering::Equal) <==> x == y),
                (None, Some(_)) => r == Some(Ordering::Less),
                (Some(_), None) => r == Some(Ordering::Greater),
                (None, None) => r == Some(Ordering::Equal),
            },
    {
        self.desired.partial_cmp(&other.desired)
    }
}

impl PartialOrdSpecImpl<Constrained> for Constrained {
    open spec fn obeys_partial_cmp_spec() -> bool {
        true
    }

    open spec fn partial_cmp_spec(&self, other: &Constrained) -> Option<Ordering> {
        Some(desired_order(self@.desired, other@.desired))
    }
}

impl Constrained {
    /// The lower bound.
    pub fn min_value(&self) -> (r: u8)
        ensures
            r == self@.min,
    {
        self.min
    }

    /// The upper bound.
    pub fn max_value(&self) -> (r: u8)
        ensures
            r == self@.max,
    {
        self.max
    }

    /// The desired value, if any.
    pub fn desired_value(&self) -> (r: Option<u8>)
        ensures
            r == self@.desired,
    {
        self.desired
    }

    /// The lower bound never exceeds the upper bound.
    pub fn bounds_are_ordered(&self)
        ensures
            self@.wf(),
    {
        proof {
            use_type_invariant(self);
        }
    }

    /// The text that debugging output shows for this value, such as `3≥1≤5` or `?`.
    pub fn debug_string(&self) -> (r: String)
        ensures
            r@ == debug_text(self@),
    {
        let mut out = String::new();
        if let Some(value) = self.desired {
            write_decimal(&mut out, value);
        } else {
            out.append("?");
            proof {
                reveal_strlit("?");
            }
        }
        if self.min != u8::MIN {
            out.append("\u{2265}");
            proof {
                reveal_strlit("\u{2265}");
            }
            write_decimal(&mut out, self.min);
        }
        if self.max != u8::MAX {
            out.append("\u{2264}");
            proof {
                reveal_strlit("\u{2264}");
            }
            write_decimal(&mut out, self.max);
        }
        out
    }

    /// Total order of constrained values, consistent with `partial_cmp`: by the desired
    /// values, an absent one first.
    pub fn cmp(&self, other: &Self) -> (r: Ordering)
        ensures
            r == desired_order(self@.desired, other@.desired),
            match (self@.desired, other@.desired) {
                (Some(x), Some(y)) => (r == Ordering::Less <==> x < y) && (r == Ordering::Greater <==> x > y)
                    && (r == Ordering::Equal <==> x == y),
                (None, Some(_)) => r == Ordering::Less,
                (Some(_), None) => r == Ordering::Greater,
                (None, None) => r == Ordering::Equal,
            },
    {
        self.desired.cmp(&other.desired)
    }
}

/// A desired value `n` with no bounds resolves to `n`.
pub proof fn law_unconstrained_value(n: u8)
    ensures
        resolved(ConstrainedModel { desired: Some(n), ..unconstrained() }) == n,
{
}

/// The resolved value of a well-formed constrained value lies within its bounds.
pub proof fn law_value_within_bounds(c: ConstrainedModel)
    requires
        c.wf(),
    ensures
        c.min <= resolved(c) <= c.max,
{
}

/// Without a desired value, the value is the lower bound.
pub proof fn law_value_without_desired_is_min(c: ConstrainedModel)
    requires
        c.desired is None,
    ensures
        resolved(c) == c.min,
{
}

/// A desired value `n` combined with an upper bound `max` resolves to the smaller of the two.
pub proof fn law_unconstrained_plus_at_most(n: u8, max: u8)
    ensures
        resolved(
            combined(
                ConstrainedModel { desired: Some(n), ..unconstrained() },
                ConstrainedModel { max: max, ..unconstrained() },
            ),
        ) == (if n <= max { n } else { max }),
{
}

/// A desired value `n` combined with a lower bound `min` resolves to the larger of the two.
pub proof fn law_unconstrained_plus_at_least(n: u8, min: u8)
    ensures
        resolved(
            combined(
                ConstrainedModel { desired: Some(n), ..unconstrained() },
                ConstrainedModel { min: min, ..unconstrained() },
            ),
        ) == (if n >= min { n } else { min }),
{
}

/// Combining keeps the larger desired value, an absent one being the smallest.
pub proof fn law_plus_desired_is_always_max(a: ConstrainedModel, b: ConstrainedModel)
    ensures
        combined(a, b).desired == match (a.desired, b.desired) {
            (Some(x), Some(y)) => Some(if x >= y { x } else { y }),
            (Some(x), None) => Some(x),
            (None, Some(y)) => Some(y),
            (None, None) => None::<u8>,
        },
{
}

/// Combining keeps the larger lower bound.
pub proof fn law_plus_min_is_biggest_possible(a: ConstrainedModel, b: ConstrainedModel)
    ensures
        combined(a, b).min >= a.min,
        combined(a, b).min >= b.min,
        combined(a, b).min == a.min || combined(a, b).min == b.min,
{
}

/// When the bounds of two well-formed values overlap, combining keeps the smaller upper
/// bound.
pub proof fn law_plus_max_is_smallest_possible(a: ConstrainedModel, b: ConstrainedModel)
    requires
        a.wf(),
        b.wf(),
        a.min <= b.max,
        b.min <= a.max,
    ensures
        combined(a, b).max <= a.max,
        combined(a, b).max <= b.max,
        combined(a, b).max == a.max || combined(a, b).max == b.max,
{
}

/// When one lower bound exceeds the other upper bound, the lower bound wins and the upper
/// bound grows to meet it.
pub proof fn law_plus_conflict_grows_max(a: ConstrainedModel, b: ConstrainedModel)
    requires
        a.min > b.max || b.min > a.max,
    ensures
        combined(a, b).min == combined(a, b).max,
        combined(a, b).max >= a.min,
        combined(a, b).max >= b.min,
        combined(a, b).max == a.min || combined(a, b).max == b.min,
{
}

/// Combining always yields a well-formed value.
pub proof fn law_combined_is_well_formed(a: ConstrainedModel, b: ConstrainedModel)
    ensures
        combined(a, b).wf(),
{
}

/// Combining is commutative.
pub proof fn law_combine_commutative(a: ConstrainedModel, b: ConstrainedModel)
    ensures
        combined(a, b) == combined(b, a),
{
}

/// Combining well-formed values is associative.
pub proof fn law_combine_associative(a: ConstrainedModel, b: ConstrainedModel, c: ConstrainedModel)
    requires
        a.wf(),
        b.wf(),
        c.wf(),
    ensures
        combined(combined(a, b), c) == combined(a, combined(b, c)),
{
}

/// The unconstrained value is an identity for combining well-formed values.
pub proof fn law_unconstrained_is_identity(a: ConstrainedModel)
    requires
        a.wf(),
    ensures
        combined(a, unconstrained()) == a,
        combined(unconstrained(), a) == a,
{
}

/// Combining a well-formed value with itself changes nothing.
pub proof fn law_combine_idempotent(a: ConstrainedModel)
    requires
        a.wf(),
    ensures
        combined(a, a) == a,
{
}

/// The order of constrained values is a total order whose equal elements are exactly the
/// values that compare equal with `==`.
pub proof fn law_order_is_total(a: Option<u8>, b: Option<u8>, c: Option<u8>)
    ensures
        (desired_order(a, b) == Ordering::Equal) <==> a == b,
        (desired_order(a, b) == Ordering::Less) <==> (desired_order(b, a) == Ordering::Greater),
        desired_order(a, b) != Ordering::Greater && desired_order(b, c) != Ordering::Greater
            ==> desired_order(a, c) != Ordering::Greater,
{
}

/// The unconstrained value has the widest bounds and desires nothing.
pub proof fn law_unconstrained_is_widest()
    ensures
        unconstrained().min == 0,
        unconstrained().max == 255,
        unconstrained().desired is None,
{
}

/// Combining keeps a desired value when there is one: the result desires something exactly
/// when one of the inputs does, it is at least each desired value present, and it is one
/// of them.
pub proof fn law_combined_desired_is_largest_present(a: ConstrainedModel, b: ConstrainedModel)
    ensures
        combined(a, b).desired is Some <==> (a.desired is Some || b.desired is Some),
        combined(a, b).desired matches Some(d) ==> {
            &&& (a.desired matches Some(x) ==> d >= x)
            &&& (b.desired matches Some(y) ==> d >= y)
            &&& (a.desired == Some(d) || b.desired == Some(d))
        },
{
}

/// The value of a well-formed constrained value with a desired value `d`: `d` itself when
/// it lies within the bounds, otherwise the bound that it ran against.
pub proof fn law_value_runs_against_bounds(c: ConstrainedModel, d: u8)
    requires
        c.wf(),
        c.desired == Some(d),
    ensures
        c.min <= d <= c.max ==> resolved(c) == d,
        d > c.max ==> resolved(c) == c.max,
        d < c.min ==> resolved(c) == c.min,
{
}

/// An amount equals a constrained value only when it lies within the bounds, and, where a
/// value is desired, only when it is that value; every such amount equals it.
pub proof fn law_accepted_amounts(c: ConstrainedModel, n: usize)
    ensures
        accepts(c, n) ==> c.min <= n && n <= c.max,
        accepts(c, n) && c.desired is Some ==> c.desired == Some(n as u8) && n <= 255,
        (c.min <= n && n <= c.max && (c.desired is None || c.desired == Some(n as u8)))
            ==> accepts(c, n),
{
}

/// Constrained values are ordered as their desired values are, an absent one first.
pub proof fn law_order_follows_desired(x: u8, y: u8)
    ensures
        (desired_order(Some(x), Some(y)) == Ordering::Less) <==> x < y,
        (desired_order(Some(x), Some(y)) == Ordering::Greater) <==> x > y,
        (desired_order(Some(x), Some(y)) == Ordering::Equal) <==> x == y,
        desired_order(None, Some(y)) == Ordering::Less,
        desired_order(Some(x), None) == Ordering::Greater,
        desired_order(None::<u8>, None::<u8>) == Ordering::Equal,
{
}

/// The decimal text of a byte: one, two or three digit characters, most significant first,
/// with no leading zero.
pub proof fn law_decimal_digits(n: u8)
    ensures
        n < 10 ==> decimal(n as nat) == seq![(48 + n) as char],
        10 <= n < 100 ==> decimal(n as nat) == seq![(48 + n / 10) as char, (48 + n % 10) as char],
        100 <= n ==> decimal(n as nat) == seq![
            (48 + n / 100) as char,
            (48 + (n / 10) % 10) as char,
            (48 + n % 10) as char,
        ],
{
    reveal_with_fuel(decimal, 3);
    if n >= 100 {
        assert(decimal((n / 10) as nat) == seq![(48 + n / 100) as char, (48 + (n / 10) % 10) as char]);
    }
}

/// The decimal text of a number is made of digit characters only, and is never empty.
pub proof fn law_decimal_is_digits(n: nat)
    ensures
        decimal(n).len() > 0,
        forall|i: int| 0 <= i < decimal(n).len() ==> '0' <= #[trigger] decimal(n)[i] <= '9',
    decreases n,
{
    if n >= 10 {
        law_decimal_is_digits(n / 10);
    }
}

/// The debugging text starts with `?` exactly when nothing is desired (and otherwise with
/// the desired value's first digit); it shows `≥` exactly when there is a lower bound other
/// than 0, and `≤` exactly when there is an upper bound other than 255.
pub proof fn law_debug_text_marks(c: ConstrainedModel)
    ensures
        (debug_text(c)[0] == '?') <==> c.desired is None,
        c.desired matches Some(v) ==> debug_text(c)[0] == decimal(v as nat)[0],
        (exists|i: int| 0 <= i < debug_text(c).len() && debug_text(c)[i] == '\u{2265}')
            <==> c.min != 0,
        (exists|i: int| 0 <= i < debug_text(c).len() && debug_text(c)[i] == '\u{2264}')
            <==> c.max != 255,
{
    law_decimal_is_digits(c.min as nat);
    law_decimal_is_digits(c.max as nat);
    let head = match c.desired {
        Some(v) => decimal(v as nat),
        None => seq!['?'],
    };
    if let Some(v) = c.desired {
        law_decimal_is_digits(v as nat);
    }
    let low = if c.min != 0 {
        seq!['\u{2265}'] + decimal(c.min as nat)
    } else {
        Seq::<char>::empty()
    };
    let high = if c.max != 255 {
        seq!['\u{2264}'] + decimal(c.max as nat)
    } else {
        Seq::<char>::empty()
    };
    let t = debug_text(c);
    assert(t == head + low + high);
    assert forall|i: int| 0 <= i < head.len() implies head[i] != '\u{2265}' && head[i] != '\u{2264}' by {
        if c.desired is Some {
            let v = c.desired.unwrap();
            assert('0' <= decimal(v as nat)[i] <= '9');
        }
    }
    assert forall|i: int| 0 <= i < low.len() implies low[i] != '\u{2264}' by {
        if i > 0 {
            assert(low[i] == decimal(c.min as nat)[i - 1]);
        }
    }
    assert forall|i: int| 0 <= i < high.len() implies high[i] != '\u{2265}' by {
        if i > 0 {
            assert(high[i] == decimal(c.max as nat)[i - 1]);
        }
    }
    assert forall|i: int| 0 < i < low.len() implies low[i] != '\u{2265}' by {
        assert(low[i] == decimal(c.min as nat)[i - 1]);
    }
    assert forall|i: int| 0 < i < high.len() implies high[i] != '\u{2264}' by {
        assert(high[i] == decimal(c.max as nat)[i - 1]);
    }
    if c.min != 0 {
        assert(t[head.len() as int] == '\u{2265}');
    }
    if c.max != 255 {
        assert(t[(head.len() + low.len()) as int] == '\u{2264}');
    }
    assert(t[0] == head[0]);
}

} // verus!
