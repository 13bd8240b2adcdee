use ui_layout::{Fixed, ItemStyle, Length, SizeStyle, Spacing, Style};
use ui_layout::{AlignItems, Display, FlexDirection, JustifyContent, Rect, Size};

fn n(v: i32) -> Fixed {
    Fixed::from_int(v)
}

#[test]
fn fixed_length_ignores_its_surroundings() {
    let l = Length::Px(n(42));
    assert_eq!(l.resolve_with(None, n(0)), Some(n(42)));
    assert_eq!(l.resolve_with(Some(n(7)), n(1000)), Some(n(42)));
    assert_eq!(l.resolve_with(Some(n(-7)), n(-1000)), Some(n(42)));
    assert_eq!(Length::Px(n(-3)).resolve_with(None, n(5)), Some(n(-3)));
}

#[test]
fn auto_is_always_indefinite() {
    assert_eq!(Length::Auto.resolve_with(None, n(100)), None);
    assert_eq!(Length::Auto.resolve_with(Some(n(100)), n(100)), None);
}

#[test]
fn percent_needs_a_definite_containing_block() {
    let half = Length::Percent(n(50));
    assert_eq!(half.resolve_with(None, n(800)), None);
    assert_eq!(half.resolve_with(Some(n(300)), n(800)), Some(n(150)));
    assert_eq!(half.resolve_with(Some(n(0)), n(800)), Some(n(0)));
}

#[test]
fn viewport_units_take_a_share_of_the_viewport() {
    assert_eq!(Length::Vw(n(25)).resolve_with(None, n(800)), Some(n(200)));
    assert_eq!(Length::Vh(n(10)).resolve_with(None, n(600)), Some(n(60)));
    assert_eq!(
        Length::Vw(n(25)).resolve_with(Some(n(1)), n(800)),
        Some(n(200))
    );
}

#[test]
fn sums_and_differences_resolve_both_sides() {
    let sum = Length::Add(Box::new(Length::Px(n(10))), Box::new(Length::Percent(n(50))));
    assert_eq!(sum.resolve_with(Some(n(200)), n(0)), Some(n(110)));
    let diff = Length::Sub(Box::new(Length::Percent(n(100))), Box::new(Length::Px(n(30))));
    assert_eq!(diff.resolve_with(Some(n(200)), n(0)), Some(n(170)));
    let nested = Length::Sub(Box::new(sum), Box::new(Length::Vw(n(1))));
    assert_eq!(nested.resolve_with(Some(n(200)), n(500)), Some(n(105)));
}

#[test]
fn an_indefinite_operand_makes_the_whole_indefinite() {
    let with_auto = Length::Add(Box::new(Length::Auto), Box::new(Length::Px(n(10))));
    assert_eq!(with_auto.resolve_with(None, n(100)), None);
    assert_eq!(with_auto.resolve_with(Some(n(100)), n(100)), None);
    let auto_right = Length::Sub(Box::new(Length::Px(n(10))), Box::new(Length::Auto));
    assert_eq!(auto_right.resolve_with(Some(n(100)), n(100)), None);
    let percent = Length::Add(Box::new(Length::Px(n(10))), Box::new(Length::Percent(n(50))));
    assert_eq!(percent.resolve_with(None, n(100)), None);
    let deep = Length::Add(
        Box::new(Length::Px(n(1))),
        Box::new(Length::Sub(Box::new(Length::Px(n(1))), Box::new(Length::Auto))),
    );
    assert_eq!(deep.resolve_with(Some(n(100)), n(100)), None);
}

#[test]
fn operators_build_expressions() {
    let sum = Length::Px(n(10)) + Length::Percent(n(50));
    assert_eq!(sum.resolve_with(Some(n(200)), n(0)), Some(n(110)));
    assert!(matches!(sum, Length::Add(_, _)));
    let diff = Length::Percent(n(100)) - Length::Px(n(30));
    assert_eq!(diff.resolve_with(Some(n(200)), n(0)), Some(n(170)));
    assert!(matches!(diff, Length::Sub(_, _)));
}

#[test]
fn indefinite_counts_as_zero_on_request() {
    assert_eq!(Length::Auto.resolve_or_zero(Some(n(5)), n(5)), n(0));
    assert_eq!(Length::Px(n(9)).resolve_or_zero(None, n(5)), n(9));
    assert_eq!(Length::Percent(n(50)).resolve_or_zero(None, n(5)), n(0));
}

#[test]
fn clone_keeps_the_expression() {
    let l = Length::Px(n(10)) + (Length::Vh(n(5)) - Length::Auto);
    let c = l.clone();
    assert_eq!(
        c.resolve_with(Some(n(1)), n(1)),
        l.resolve_with(Some(n(1)), n(1))
    );
    let d = Length::Px(n(10)) + Length::Vh(n(50));
    assert_eq!(d.clone().resolve_with(None, n(200)), Some(n(110)));
}

#[test]
fn defaults_are_as_documented() {
    assert!(matches!(Length::default(), Length::Px(v) if v == n(0)));
    assert_eq!(Display::default(), Display::Block);
    assert_eq!(FlexDirection::default(), FlexDirection::Column);
    assert_eq!(JustifyContent::default(), JustifyContent::Start);
    assert_eq!(AlignItems::default(), AlignItems::Stretch);

    let item = ItemStyle::default();
    assert_eq!(item.flex_grow, n(0));
    assert!(matches!(item.flex_basis, Length::Auto));
    assert_eq!(item.align_self, None);

    let size = SizeStyle::default();
    assert!(matches!(size.width, Length::Auto));
    assert!(matches!(size.height, Length::Auto));
    assert!(matches!(size.min_width, Length::Auto));
    assert!(matches!(size.max_width, Length::Auto));
    assert!(matches!(size.min_height, Length::Auto));
    assert!(matches!(size.max_height, Length::Auto));

    let spacing = Spacing::default();
    assert!(matches!(spacing.margin_top, Length::Px(v) if v == n(0)));
    assert!(matches!(spacing.padding_right, Length::Px(v) if v == n(0)));

    let style = Style::default();
    assert_eq!(style.display, Display::Block);
    assert_eq!(style.justify_content, JustifyContent::Start);
    assert_eq!(style.align_items, AlignItems::Stretch);
    assert!(matches!(style.column_gap, Length::Px(v) if v == n(0)));
    assert!(matches!(style.row_gap, Length::Px(v) if v == n(0)));
    assert!(matches!(style.item_style.flex_basis, Length::Auto));

    assert_eq!(
        Rect::default(),
        Rect { x: n(0), y: n(0), width: n(0), height: n(0) }
    );
    assert_eq!(Size::default(), Size { width: n(0), height: n(0) });
}
