use ui_layout::{AlignItems, Display, Fixed, FlexDirection, LayoutEngine, LayoutNode, Length, SizeStyle, Spacing, Style};

fn ps_fx(v: f64) -> Fixed {
    Fixed::from_raw((v * 10_000.0).round() as i64)
}

#[test]
fn flex_column_coordinates() {
    let mut root = LayoutNode::with_children(
        Style {
            display: Display::Flex {
                flex_direction: FlexDirection::Column,
            },
            spacing: Spacing {
                padding_top: Length::Px(ps_fx(10.0)),
                padding_bottom: Length::Px(ps_fx(10.0)),
                ..Default::default()
            },
            row_gap: Length::Px(ps_fx(5.0)),
            ..Default::default()
        },
        vec![
            LayoutNode::new(Style {
                size: SizeStyle {
                    height: Length::Px(ps_fx(50.0)),
                    ..Default::default()
                },
                spacing: Spacing {
                    margin_top: Length::Px(ps_fx(2.0)),
                    margin_bottom: Length::Px(ps_fx(3.0)),
                    ..Default::default()
                },
                ..Default::default()
            }),
            LayoutNode::new(Style {
                size: SizeStyle {
                    height: Length::Px(ps_fx(30.0)),
                    ..Default::default()
                },
                spacing: Spacing {
                    margin_top: Length::Px(ps_fx(1.0)),
                    margin_bottom: Length::Px(ps_fx(1.0)),
                    ..Default::default()
                },
                ..Default::default()
            }),
        ],
    );

    LayoutEngine::layout(&mut root, ps_fx(100.0), ps_fx(200.0));

    let a = &root.children[0].rect;
    let b = &root.children[1].rect;

    // cursor_y = padding_top (10) + margin_top(2) = 12
    assert_eq!(a.y, ps_fx(12.0));
    // next cursor_y = 12 + 50 + margin_bottom(3) + gap(5) + margin_top(1) = 71
    assert_eq!(b.y, ps_fx(71.0));
}

#[test]
fn flex_row_coordinates_align() {
    let mut root = LayoutNode::with_children(
        Style {
            display: Display::Flex {
                flex_direction: FlexDirection::Row,
            },
            spacing: Spacing {
                padding_left: Length::Px(ps_fx(10.0)),
                padding_right: Length::Px(ps_fx(10.0)),
                ..Default::default()
            },
            column_gap: Length::Px(ps_fx(4.0)),
            align_items: AlignItems::Center,
            ..Default::default()
        },
        vec![
            LayoutNode::new(Style {
                size: SizeStyle {
                    height: Length::Px(ps_fx(20.0)),
                    width: Length::Px(ps_fx(30.0)),
                    ..Default::default()
                },
                ..Default::default()
            }),
            LayoutNode::new(Style {
                size: SizeStyle {
                    height: Length::Px(ps_fx(40.0)),
                    width: Length::Px(ps_fx(50.0)),
                    ..Default::default()
                },
                ..Default::default()
            }),
        ],
    );

    LayoutEngine::layout(&mut root, ps_fx(200.0), ps_fx(100.0));

    let a = &root.children[0].rect;
    let b = &root.children[1].rect;

    // cross axis: container height = 100, padding_top=0, padding_bottom=0
    // a height=20, center → offset = (100-20)/2 = 40
    assert_eq!(a.y, ps_fx(40.0));
    // b height=40, center → offset = (100-40)/2 = 30
    assert_eq!(b.y, ps_fx(30.0));
    // main axis: cursor = padding_left=10 → first x=10
    assert_eq!(a.x, ps_fx(10.0));
    // second x = 10 + 30 + gap 4 = 44
    assert_eq!(b.x, ps_fx(44.0));
}
