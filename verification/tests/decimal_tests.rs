use mmb_core::decimal::{Decimal, Round};

fn dec(mantissa: i128, scale: u32) -> Decimal {
    Decimal::from_parts(mantissa, scale).expect("in range")
}

#[test]
fn sum_of_different_scales_is_exact() {
    let a = dec(20000, 0);
    let b = dec(5, 1);
    assert!(a.checked_add(b).expect("fits").equals(&dec(200005, 1)));
    let sum = a.exact_add(b).expect("exact");
    assert!(sum.equals(&dec(200005, 1)));
    assert_eq!(sum.mantissa(), 200005);
    assert_eq!(sum.scale(), 1);
}

#[test]
fn difference_is_exact() {
    let a = dec(1, 0);
    let b = dec(3, 1);
    assert!(a.checked_sub(b).expect("fits").equals(&dec(7, 1)));
    let rest = a.exact_sub(b).expect("exact");
    assert!(rest.equals(&dec(7, 1)));
}

#[test]
fn product_and_quotient_come_from_the_arithmetic() {
    let a = dec(5, 1);
    let b = dec(20000, 0);
    let product = a.checked_mul(b).expect("fits");
    assert!(product.equals(&dec(10000, 0)));
    let quotient = dec(2, 1).checked_div(dec(10, 0)).expect("fits");
    assert!(quotient.equals(&dec(2, 2)));
    assert!(dec(1, 0).checked_div(Decimal::zero()).is_none());
}

#[test]
fn rounding_modes() {
    let x = dec(34395, 4);
    assert!(x.round_dp(2, Round::ToNearest).equals(&dec(344, 2)));
    assert!(x.round_dp(2, Round::Floor).equals(&dec(343, 2)));
    assert!(x.round_dp(2, Round::Ceiling).equals(&dec(344, 2)));
    let y = dec(-34395, 4);
    assert!(y.round_dp(2, Round::Floor).equals(&dec(-344, 2)));
    assert!(y.round_dp(2, Round::Ceiling).equals(&dec(-343, 2)));
    let half = dec(25, 1);
    assert!(half.round_dp(0, Round::ToNearest).equals(&dec(3, 0)));
}

#[test]
fn overflowing_sum_is_refused() {
    let max = dec(79_228_162_514_264_337_593_543_950_335, 0);
    assert!(max.checked_add(dec(1, 0)).is_none());
    assert!(max.exact_add(dec(1, 0)).is_none());
    assert!(max.neg().checked_sub(dec(1, 0)).is_none());
    assert!(max.neg().exact_sub(dec(1, 0)).is_none());
}

#[test]
fn rounded_sum_is_refused() {
    // The exact sum needs more digits than a decimal has.
    let large = dec(79_228_162_514_264_337_593_543_950_335, 0);
    let small = dec(1, 28);
    assert!(large.exact_sub(small).is_none());
    assert!(large.exact_add(small.neg()).is_none());
    // The arithmetic itself rounds such a sum.
    assert!(large.checked_sub(small).expect("rounded").equals(&large));
    assert!(large.checked_add(small.neg()).expect("rounded").equals(&large));
    let third = dec(1, 0).checked_div(dec(3, 0)).expect("fits");
    assert_eq!(third.scale(), 28);
    assert!(dec(100, 0).exact_add(third).is_none());
    let rounded = dec(100, 0).checked_add(third).expect("rounded");
    assert!(rounded.gt(&dec(1003333, 4)) && rounded.lt(&dec(1003334, 4)));
}

#[test]
fn exceeds_by_compares_a_difference_with_a_margin() {
    assert!(dec(5, 1).exceeds_by(&dec(2, 1), &dec(2, 1)));
    assert!(!dec(5, 1).exceeds_by(&dec(2, 1), &dec(3, 1)));
    assert!(!dec(5, 1).exceeds_by(&dec(2, 1), &dec(4, 1)));
    assert!(dec(-1, 0).exceeds_by(&dec(-3, 0), &dec(19, 1)));
    assert!(!dec(-3, 0).exceeds_by(&dec(-1, 0), &dec(-2, 0)));
    assert!(dec(-3, 0).exceeds_by(&dec(-1, 0), &dec(-21, 1)));
    let max = dec(79_228_162_514_264_337_593_543_950_335, 0);
    assert!(max.exceeds_by(&max.neg(), &max));
    assert!(!max.neg().exceeds_by(&max, &max.neg()));
}

#[test]
fn comparisons_go_by_value() {
    assert!(dec(10, 1).equals(&dec(1, 0)));
    assert!(dec(-5, 1).lt(&dec(0, 0)));
    assert!(dec(-5, 1).is_negative());
    assert!(!dec(0, 5).is_negative());
    assert!(dec(0, 5).is_zero());
    assert!(dec(3, 0).gt(&dec(29, 1)));
    assert!(dec(3, 0).ge(&dec(30, 1)));
    assert!(dec(3, 0).le(&dec(30, 1)));
    assert!(dec(-7, 2).abs().equals(&dec(7, 2)));
    assert!(dec(1, 0).max(dec(2, 0)).equals(&dec(2, 0)));
    assert!(dec(1, 0).min(dec(2, 0)).equals(&dec(1, 0)));
}

#[test]
fn parts_out_of_range_are_refused() {
    assert!(Decimal::from_parts(1, 29).is_none());
    assert!(Decimal::from_parts(79_228_162_514_264_337_593_543_950_336, 0).is_none());
    assert!(Decimal::from_parts(-79_228_162_514_264_337_593_543_950_336, 0).is_none());
    assert!(Decimal::from_parts(-79_228_162_514_264_337_593_543_950_335, 28).is_some());
}

#[test]
fn exact_sums_agree_with_integer_arithmetic() {
    // A linear congruential generator, so that the values are the same on
    // every run.
    let mut state: u64 = 0x2545_F491_4F6C_DD1D;
    let mut next = move || {
        state = state.wrapping_mul(6364136223846793005).wrapping_add(1442695040888963407);
        state >> 33
    };
    for _ in 0..2000 {
        let a_scale = (next() % 10) as u32;
        let b_scale = (next() % 10) as u32;
        let a_mantissa = (next() % 2_000_000_000) as i128 - 1_000_000_000;
        let b_mantissa = (next() % 2_000_000_000) as i128 - 1_000_000_000;
        let a = dec(a_mantissa, a_scale);
        let b = dec(b_mantissa, b_scale);
        let scale = a_scale.max(b_scale);
        let a_units = a_mantissa * 10i128.pow(scale - a_scale);
        let b_units = b_mantissa * 10i128.pow(scale - b_scale);
        assert!(a.exact_add(b).expect("exact").equals(&dec(a_units + b_units, scale)));
        assert!(a.exact_sub(b).expect("exact").equals(&dec(a_units - b_units, scale)));
        assert_eq!(a.lt(&b), a_units < b_units);
        assert_eq!(a.equals(&b), a_units == b_units);
        assert_eq!(a.exceeds_by(&b, &dec(1, scale)), a_units - b_units > 1);
        assert_eq!(a.is_negative(), a_mantissa < 0);
        assert_eq!(a.is_zero(), a_mantissa == 0);
    }
}

/// The mantissa and the scale that rounding is stated to give: the digits
/// beyond the places cut off, and one added by the mode.
fn stated(mantissa: i128, scale: u32, places: u32, round: Round) -> (i128, u32) {
    if scale <= places {
        return (mantissa, scale);
    }
    let step = 10i128.pow(scale - places);
    let magnitude = mantissa.abs();
    let kept = magnitude / step;
    let cut = magnitude % step;
    let one_more = match round {
        Round::ToNearest => 2 * cut >= step,
        Round::Floor => mantissa < 0 && cut != 0,
        Round::Ceiling => mantissa > 0 && cut != 0,
    };
    let rounded = if one_more { kept + 1 } else { kept };
    (if mantissa < 0 { -rounded } else { rounded }, places)
}

#[test]
fn rounding_gives_the_mantissa_and_scale_that_are_stated() {
    let mantissas: [i128; 19] = [
        0,
        1,
        -1,
        4,
        5,
        -5,
        6,
        49,
        50,
        -50,
        51,
        149,
        150,
        -150,
        -151,
        999,
        -999,
        123_456_789_012_345_678_901_234_567,
        -79_228_162_514_264_337_593_543_950_335,
    ];
    for mantissa in mantissas {
        for scale in [0u32, 1, 2, 3, 9, 10, 19, 27, 28] {
            for places in [0u32, 1, 2, 8, 9, 18, 27, 28, 29, 40] {
                for round in [Round::ToNearest, Round::Floor, Round::Ceiling] {
                    let rounded = dec(mantissa, scale).round_dp(places, round);
                    assert_eq!(
                        (rounded.mantissa(), rounded.scale()),
                        stated(mantissa, scale, places, round),
                        "{} e-{} to {} places",
                        mantissa,
                        scale,
                        places
                    );
                }
            }
        }
    }
}

#[test]
fn rounding_by_value() {
    // Half a step goes away from zero.
    assert!(dec(-25, 1).round_dp(0, Round::ToNearest).equals(&dec(-3, 0)));
    assert!(dec(15, 1).round_dp(0, Round::ToNearest).equals(&dec(2, 0)));
    assert!(dec(-1, 3).round_dp(2, Round::Ceiling).equals(&dec(0, 0)));
    assert!(dec(-1, 3).round_dp(2, Round::Floor).equals(&dec(-1, 2)));
    assert!(dec(1, 3).round_dp(2, Round::Floor).equals(&dec(0, 0)));
    assert!(dec(1, 3).round_dp(2, Round::Ceiling).equals(&dec(1, 2)));
    // A number with no more places than asked for is returned as it is.
    let short = dec(1250, 3).round_dp(5, Round::Floor);
    assert_eq!((short.mantissa(), short.scale()), (1250, 3));
}
