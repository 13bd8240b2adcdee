use ui_layout::{
    AlignItems, Display, Fixed, FlexDirection, LayoutEngine, LayoutNode, Length, SizeStyle, Style,
};

fn al_fx(v: f64) -> Fixed {
    Fixed::from_raw((v * 10_000.0).round() as i64)
}

fn al_f(v: Fixed) -> f64 {
    v.raw() as f64 / 10_000.0
}

#[test]
fn test_align_items_start() {
    let root = setup_container(&[40.0, 60.0], AlignItems::Start);

    let c1 = &root.children[0].rect;
    let c2 = &root.children[1].rect;

    assert_eq!(c1.y, al_fx(0.0), "Start: Child1 top aligned");
    assert_eq!(c2.y, al_fx(0.0), "Start: Child2 top aligned");
}

#[test]
fn test_align_items_center() {
    let root = setup_container(&[40.0, 60.0], AlignItems::Center);

    let c1 = &root.children[0].rect;
    let c2 = &root.children[1].rect;

    assert!(
        (al_f(c1.y) - (100.0 - 40.0) / 2.0).abs() < 0.01,
        "Center: Child1 vertically centered"
    );
    assert!(
        (al_f(c2.y) - (100.0 - 60.0) / 2.0).abs() < 0.01,
        "Center: Child2 vertically centered"
    );
}

#[test]
fn test_align_items_end() {
    let root = setup_container(&[40.0, 60.0], AlignItems::End);

    let c1 = &root.children[0].rect;
    let c2 = &root.children[1].rect;

    assert!(
        (al_f(c1.y) - (100.0 - 40.0)).abs() < 0.01,
        "End: Child1 bottom aligned"
    );
    assert!(
        (al_f(c2.y) - (100.0 - 60.0)).abs() < 0.01,
        "End: Child2 bottom aligned"
    );
}

#[test]
fn test_align_items_stretch() {
    let mut root = LayoutNode::new(Style {
        display: Display::Flex {
            flex_direction: FlexDirection::Row,
        },
        size: SizeStyle {
            width: Length::Px(al_fx(300.0)),
            height: Length::Px(al_fx(100.0)),
            ..Default::default()
        },
        align_items: AlignItems::Stretch,
        ..Default::default()
    });

    for _ in 0..2 {
        let child = LayoutNode::new(Style {
            size: SizeStyle {
                width: Length::Px(al_fx(50.0)),
                height: Length::Auto,
                ..Default::default()
            },
            ..Default::default()
        });
        root.children.push(child);
    }

    LayoutEngine::layout(&mut root, al_fx(300.0), al_fx(100.0));

    let c1 = &root.children[0].rect;
    let c2 = &root.children[1].rect;

    assert_eq!(c1.y, al_fx(0.0), "Stretch: Child1 top aligned");
    assert_eq!(c2.y, al_fx(0.0), "Stretch: Child2 top aligned");
    assert_eq!(c1.height, al_fx(100.0), "Stretch: Child1 height stretched");
    assert_eq!(c2.height, al_fx(100.0), "Stretch: Child2 height stretched");
}

fn setup_container(child_heights: &[f64], align: AlignItems) -> LayoutNode {
    let mut root = LayoutNode::new(Style {
        display: Display::Flex {
            flex_direction: FlexDirection::Row,
        },
        size: SizeStyle {
            width: Length::Px(al_fx(300.0)),
            height: Length::Px(al_fx(100.0)),
            ..Default::default()
        },
        align_items: align,
        ..Default::default()
    });

    for &h in child_heights {
        let child = LayoutNode::new(Style {
            size: SizeStyle {
                width: Length::Px(al_fx(50.0)),
                height: Length::Px(al_fx(h)),
                ..Default::default()
            },
            ..Default::default()
        });
        root.children.push(child);
    }

    LayoutEngine::layout(&mut root, al_fx(300.0), al_fx(100.0));

    root
}
