use ui_layout::{Fixed, SCALE};

#[test]
fn whole_numbers_scale_by_ten_thousand() {
    assert_eq!(SCALE, 10_000);
    assert_eq!(Fixed::from_int(3).raw(), 30_000);
    assert_eq!(Fixed::from_int(-7).raw(), -70_000);
    assert_eq!(Fixed::from_int(0), Fixed::zero());
    assert_eq!(Fixed::from_int(i32::MAX).raw(), 2_147_483_647i64 * 10_000);
    assert_eq!(Fixed::from_int(i32::MIN).raw(), -2_147_483_648i64 * 10_000);
}

#[test]
fn raw_round_trips() {
    assert_eq!(Fixed::from_raw(375_000).raw(), 375_000);
    assert_eq!(Fixed::from_raw(i64::MIN).raw(), i64::MIN);
    assert_eq!(Fixed::from_raw(-1), Fixed { raw: -1 });
}

#[test]
fn default_number_is_zero() {
    assert_eq!(Fixed::default(), Fixed::zero());
    assert!(Fixed::default().is_zero());
    assert!(!Fixed::from_raw(1).is_zero());
}

#[test]
fn addition_is_exact_in_range() {
    assert_eq!(
        Fixed::from_int(2).saturating_add(Fixed::from_raw(5_000)),
        Fixed::from_raw(25_000)
    );
    assert_eq!(
        Fixed::from_int(2).saturating_add(Fixed::from_int(-5)),
        Fixed::from_int(-3)
    );
}

#[test]
fn addition_saturates_at_both_ends() {
    let top = Fixed::from_raw(i64::MAX);
    let bottom = Fixed::from_raw(i64::MIN);
    assert_eq!(top.saturating_add(Fixed::from_raw(1)), top);
    assert_eq!(top.saturating_add(top), top);
    assert_eq!(bottom.saturating_add(Fixed::from_raw(-1)), bottom);
    assert_eq!(top.saturating_add(bottom), Fixed::from_raw(-1));
}

#[test]
fn subtraction_saturates_at_both_ends() {
    let top = Fixed::from_raw(i64::MAX);
    let bottom = Fixed::from_raw(i64::MIN);
    assert_eq!(
        Fixed::from_int(10).saturating_sub(Fixed::from_int(4)),
        Fixed::from_int(6)
    );
    assert_eq!(bottom.saturating_sub(Fixed::from_raw(1)), bottom);
    assert_eq!(top.saturating_sub(bottom), top);
    assert_eq!(Fixed::zero().saturating_sub(bottom), top);
}

#[test]
fn percent_takes_hundredths() {
    let whole = Fixed::from_int(200);
    assert_eq!(whole.percent(Fixed::from_int(50)), Fixed::from_int(100));
    assert_eq!(whole.percent(Fixed::from_int(100)), whole);
    assert_eq!(whole.percent(Fixed::zero()), Fixed::zero());
    assert_eq!(whole.percent(Fixed::from_int(-25)), Fixed::from_int(-50));
    // 12.5 % of 80 is 10
    assert_eq!(
        Fixed::from_int(80).percent(Fixed::from_raw(125_000)),
        Fixed::from_int(10)
    );
}

#[test]
fn percent_rounds_down() {
    // one third of a percent of 1: 0.00333.. rounds down to 0.0033
    assert_eq!(
        Fixed::from_int(1).percent(Fixed::from_raw(3_333)),
        Fixed::from_raw(33)
    );
    // and towards negative infinity below zero
    assert_eq!(
        Fixed::from_int(-1).percent(Fixed::from_raw(3_333)),
        Fixed::from_raw(-34)
    );
}

#[test]
fn percent_saturates() {
    let top = Fixed::from_raw(i64::MAX);
    assert_eq!(top.percent(Fixed::from_int(200)), top);
    assert_eq!(
        top.percent(Fixed::from_int(-200)),
        Fixed::from_raw(i64::MIN)
    );
}

#[test]
fn ratio_shares_by_weight() {
    let space = Fixed::from_int(156);
    let one = Fixed::from_int(1);
    let two = Fixed::from_int(2);
    let three = Fixed::from_int(3);
    assert_eq!(space.mul_ratio(one, three), Fixed::from_int(52));
    assert_eq!(space.mul_ratio(two, three), Fixed::from_int(104));
    // 200 / 3 = 66.6666.. rounds down
    assert_eq!(
        Fixed::from_int(200).mul_ratio(one, three),
        Fixed::from_raw(666_666)
    );
    assert_eq!(
        Fixed::from_int(-200).mul_ratio(one, three),
        Fixed::from_raw(-666_667)
    );
}

#[test]
fn ratio_of_nothing_is_nothing() {
    let space = Fixed::from_int(100);
    assert_eq!(
        space.mul_ratio(Fixed::from_int(1), Fixed::zero()),
        Fixed::zero()
    );
    assert_eq!(
        space.mul_ratio(Fixed::from_int(1), Fixed::from_int(-2)),
        Fixed::zero()
    );
}

#[test]
fn counts_multiply_and_divide() {
    let gap = Fixed::from_int(5);
    assert_eq!(gap.mul_count(0), Fixed::zero());
    assert_eq!(gap.mul_count(2), Fixed::from_int(10));
    assert_eq!(gap.mul_count(usize::MAX), Fixed::from_raw(i64::MAX));
    assert_eq!(
        Fixed::from_int(-5).mul_count(usize::MAX),
        Fixed::from_raw(i64::MIN)
    );
    assert_eq!(Fixed::zero().mul_count(usize::MAX), Fixed::zero());

    assert_eq!(Fixed::from_int(150).div_count(4), Fixed::from_raw(375_000));
    assert_eq!(Fixed::from_int(150).div_count(0), Fixed::zero());
    assert_eq!(Fixed::from_raw(-1).div_count(2), Fixed::from_raw(-1));
    assert_eq!(Fixed::from_raw(1).div_count(2), Fixed::zero());
}

#[test]
fn bounds_pick_the_right_side() {
    let three = Fixed::from_int(3);
    let five = Fixed::from_int(5);
    assert_eq!(three.at_least(five), five);
    assert_eq!(five.at_least(three), five);
    assert_eq!(three.at_most(five), three);
    assert_eq!(five.at_most(three), three);
    assert_eq!(Fixed::from_int(-4).non_negative(), Fixed::zero());
    assert_eq!(five.non_negative(), five);
}

#[test]
fn numbers_order_by_value() {
    assert!(Fixed::from_int(-1) < Fixed::zero());
    assert!(Fixed::from_raw(1) > Fixed::zero());
    assert!(Fixed::from_int(300) >= Fixed::from_int(300));
    assert_ne!(Fixed::from_raw(1), Fixed::from_raw(2));
}
