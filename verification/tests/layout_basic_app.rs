use ui_layout::{Display, Fixed, FlexDirection, ItemStyle, LayoutEngine, LayoutNode, Length, SizeStyle, Style};

fn lp_fx(v: f64) -> Fixed {
    Fixed::from_raw((v * 10_000.0).round() as i64)
}

#[test]
fn layout_basic_app_layout_mvp() {
    let toolbar = LayoutNode::new(Style {
        display: Display::Block,
        size: SizeStyle {
            height: Length::Px(lp_fx(40.0)),
            ..Default::default()
        },
        ..Style::default()
    });

    let sidebar = LayoutNode::new(Style {
        display: Display::Block,
        size: SizeStyle {
            width: Length::Px(lp_fx(200.0)),
            ..Default::default()
        },
        ..Style::default()
    });

    let editor = LayoutNode::new(Style {
        display: Display::Block,
        item_style: ItemStyle {
            flex_grow: lp_fx(1.0),
            ..Default::default()
        },
        ..Style::default()
    });

    let main = LayoutNode::with_children(
        Style {
            display: Display::Flex {
                flex_direction: FlexDirection::Row,
            },
            item_style: ItemStyle {
            flex_grow: lp_fx(1.0),
            ..Default::default()
        },
            ..Style::default()
        },
        vec![sidebar, editor],
    );

    let status = LayoutNode::new(Style {
        display: Display::Block,
        size: SizeStyle {
            height: Length::Px(lp_fx(24.0)),
            ..Default::default()
        },
        ..Style::default()
    });

    let mut root = LayoutNode::with_children(
        Style {
            display: Display::Flex {
                flex_direction: FlexDirection::Column,
            },
            ..Style::default()
        },
        vec![toolbar, main, status],
    );

    LayoutEngine::layout(&mut root, lp_fx(800.0), lp_fx(600.0));

    let toolbar = &root.children[0].rect;
    let main = &root.children[1].rect;
    let status = &root.children[2].rect;

    assert_eq!(toolbar.height, lp_fx(40.0));
    assert_eq!(main.height, lp_fx(600.0 - 40.0 - 24.0));
    assert_eq!(status.height, lp_fx(24.0));

    let sidebar = &root.children[1].children[0].rect;
    let editor = &root.children[1].children[1].rect;

    assert_eq!(sidebar.width, lp_fx(200.0));
    assert_eq!(editor.width, lp_fx(800.0 - 200.0));
}
