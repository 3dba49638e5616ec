use ink_fmt::util::constrained_value::Constrained;
use std::cmp::Ordering;

const SAMPLE: [u8; 7] = [0, 1, 3, 7, 100, 254, 255];

/// Every constrained value with bounds and desired value drawn from `SAMPLE`.
fn sample_values() -> Vec<Constrained> {
    let mut out = Vec::new();
    for &min in SAMPLE.iter() {
        for &max in SAMPLE.iter() {
            out.push(Constrained::between(min, max));
            for &d in SAMPLE.iter() {
                out.push(Constrained::between(min, max) + Constrained::desired(d));
            }
        }
    }
    out
}

fn parts(c: &Constrained) -> (u8, u8, Option<u8>) {
    (c.min_value(), c.max_value(), c.desired_value())
}

#[test]
fn unconstrained_value() {
    for n in 0..=255u8 {
        assert_eq!(Constrained::desired(n).value(), n);
    }
}

#[test]
fn value_greater_equal_min() {
    for c in sample_values() {
        assert!(c.value() >= c.min_value());
    }
}

#[test]
fn value_less_equal_min() {
    for c in sample_values() {
        assert!(c.value() <= c.max_value());
    }
}

#[test]
fn value_without_desired_is_min() {
    for c in sample_values() {
        if c.desired_value().is_none() {
            assert_eq!(c.value(), c.min_value());
        }
    }
}

#[test]
fn unconstrained_plus_at_most() {
    for n in 0..=255u8 {
        for max in 0..=255u8 {
            let sum = Constrained::desired(n) + Constrained::at_most(max);
            assert_eq!(sum.value(), Ord::min(n, max));
        }
    }
}

#[test]
fn unconstrained_plus_at_least() {
    for n in 0..=255u8 {
        for min in 0..=255u8 {
            let sum = Constrained::desired(n) + Constrained::at_least(min);
            assert_eq!(sum.value(), Ord::max(n, min));
        }
    }
}

#[test]
fn plus_desired_is_always_max() {
    let values = sample_values();
    for a in values.iter() {
        for b in values.iter() {
            let c = *a + *b;
            assert_eq!(c.desired_value(), Ord::max(a.desired_value(), b.desired_value()));
        }
    }
}

#[test]
fn plus_min_is_biggest_possible() {
    let values = sample_values();
    for a in values.iter() {
        for b in values.iter() {
            let c = *a + *b;
            assert_eq!(c.min_value(), Ord::max(a.min_value(), b.min_value()));
        }
    }
}

#[test]
fn plus_max_is_smallest_possible() {
    let values = sample_values();
    for a in values.iter() {
        for b in values.iter() {
            if a.min_value() <= b.max_value() && b.min_value() <= a.max_value() {
                let c = *a + *b;
                assert_eq!(c.max_value(), Ord::min(a.max_value(), b.max_value()));
            }
        }
    }
}

#[test]
fn plus_conflict_grows_max() {
    let values = sample_values();
    for a in values.iter() {
        for b in values.iter() {
            if a.min_value() > b.max_value() || b.min_value() > a.max_value() {
                let c = *a + *b;
                let new_max = Ord::max(a.min_value(), b.min_value());
                assert!(c.min_value() == c.max_value() && c.max_value() == new_max);
            }
        }
    }
}

#[test]
fn combine_is_commutative() {
    let values = sample_values();
    for a in values.iter() {
        for b in values.iter() {
            assert_eq!(parts(&(*a + *b)), parts(&(*b + *a)));
        }
    }
}

#[test]
fn combine_is_associative() {
    let values: Vec<Constrained> = sample_values().into_iter().step_by(7).collect();
    for a in values.iter() {
        for b in values.iter() {
            for c in values.iter() {
                assert_eq!(parts(&((*a + *b) + *c)), parts(&(*a + (*b + *c))));
            }
        }
    }
}

#[test]
fn unconstrained_is_identity_and_combine_idempotent() {
    for a in sample_values() {
        assert_eq!(parts(&(a + Constrained::new())), parts(&a));
        assert_eq!(parts(&(Constrained::new() + a)), parts(&a));
        assert_eq!(parts(&(a + a)), parts(&a));
    }
}

#[test]
fn constructors_set_exact_parts() {
    assert_eq!(parts(&Constrained::new()), (0, 255, None));
    assert_eq!(parts(&Constrained::desired(4)), (0, 255, Some(4)));
    assert_eq!(parts(&Constrained::at_least(2)), (2, 255, None));
    assert_eq!(parts(&Constrained::at_most(9)), (0, 9, None));
    assert_eq!(parts(&Constrained::between(2, 9)), (2, 9, None));
    // a lower bound above the upper bound wins, and the upper bound grows
    assert_eq!(parts(&Constrained::between(9, 2)), (9, 9, None));
}

#[test]
fn value_clamps_desired_into_bounds() {
    let c = Constrained::between(3, 7);
    assert_eq!(c.value(), 3);
    assert_eq!((c + Constrained::desired(5)).value(), 5);
    assert_eq!((c + Constrained::desired(9)).value(), 7);
    assert_eq!((c + Constrained::desired(1)).value(), 3);
}

#[test]
fn combine_and_add_assign_agree() {
    let a = Constrained::between(1, 6) + Constrained::desired(2);
    let b = Constrained::at_least(4) + Constrained::desired(1);
    let c = a.combine(&b);
    let mut d = a;
    d += b;
    let mut e = a;
    e.combine_mut(b);
    assert_eq!(parts(&c), (4, 6, Some(2)));
    assert_eq!(parts(&d), parts(&c));
    assert_eq!(parts(&e), parts(&c));
    assert_eq!(c.value(), 4);
}

#[test]
fn conversions() {
    assert_eq!(parts(&Constrained::from(7u8)), (0, 255, Some(7)));
    assert_eq!(parts(&Constrained::from(7usize)), (0, 255, Some(7)));
    assert_eq!(parts(&Constrained::from(1000usize)), (0, 255, Some(255)));
    let n: u8 = (Constrained::between(2, 5) + Constrained::desired(9)).into();
    assert_eq!(n, 5);
}

#[test]
fn equality_compares_desired_values() {
    assert!(Constrained::desired(3) == Constrained::between(1, 2) + Constrained::desired(3));
    assert!(Constrained::desired(3) != Constrained::desired(4));
    assert!(Constrained::new() == Constrained::at_least(5));
    assert!(Constrained::new() != Constrained::desired(0));
}

#[test]
fn equality_with_plain_amounts() {
    let c = Constrained::between(2, 6);
    assert!(c == 2usize);
    assert!(c == 6usize);
    assert!(c != 1usize);
    assert!(c != 7usize);
    let d = c + Constrained::desired(4);
    assert!(d == 4usize);
    assert!(d != 5usize);
    // a desired value outside the bounds accepts no amount
    let e = c + Constrained::desired(9);
    assert!(e != 9usize);
    assert!(e != 6usize);
    assert!(Constrained::new() == 300usize || Constrained::new() != 300usize);
    assert!(Constrained::new() != 300usize);
}

#[test]
fn ordering_by_desired_values() {
    let none = Constrained::new();
    let two = Constrained::desired(2);
    let five = Constrained::at_most(1) + Constrained::desired(5);
    assert_eq!(none.cmp(&two), Ordering::Less);
    assert_eq!(two.cmp(&five), Ordering::Less);
    assert_eq!(five.cmp(&two), Ordering::Greater);
    assert_eq!(two.cmp(&Constrained::desired(2)), Ordering::Equal);
    assert_eq!(none.partial_cmp(&Constrained::at_least(3)), Some(Ordering::Equal));
    assert!(two < five);
    assert!(none < two);
}

#[test]
fn debug_text() {
    assert_eq!(Constrained::new().debug_string(), "?");
    assert_eq!(Constrained::desired(0).debug_string(), "0");
    assert_eq!(Constrained::desired(42).debug_string(), "42");
    assert_eq!(Constrained::desired(255).debug_string(), "255");
    assert_eq!(Constrained::at_least(10).debug_string(), "?\u{2265}10");
    assert_eq!(Constrained::at_most(100).debug_string(), "?\u{2264}100");
    assert_eq!(
        (Constrained::between(1, 200) + Constrained::desired(7)).debug_string(),
        "7\u{2265}1\u{2264}200"
    );
}
