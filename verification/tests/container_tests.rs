use tui_core::components::table::{Table, TableTrait};
use tui_core::components::{ChildRect, Container, Layout, Size, UIElement, Widget};

fn leaf(width: Size, height: Size) -> Widget {
    let headers = vec!["h".to_string()];
    let data = vec![vec!["x".to_string()]];
    let mut t = Table::new(&headers, data).unwrap();
    t.set_width(width);
    t.set_height(height);
    Widget::Table(t)
}

#[test]
fn container_defaults() {
    let c = Container::new(vec![leaf(Size::Auto, Size::Auto)], Layout::Horizontal);
    assert_eq!(c.z_index(), 0);
    assert_eq!(c.title(), "");
    assert!(matches!(c.width(), Size::Auto));
    assert!(matches!(c.height(), Size::Auto));
    assert!(c.updated());
    assert_eq!(c.border_vertical(), ' ');
    assert_eq!(c.border_horizontal(), ' ');
    assert_eq!(c.border_intersect(), ' ');
    assert_eq!(c.padding_vertical(), 0);
    assert_eq!(c.padding_horizontal(), 0);
    assert!(matches!(c.layout, Layout::Horizontal));
    assert_eq!(c.elements.len(), 1);
    assert_eq!(c.active_tab(), 0);
}

#[test]
fn auto_children_split_dimension_exactly() {
    let children = vec![
        leaf(Size::Auto, Size::Auto),
        leaf(Size::Auto, Size::Auto),
        leaf(Size::Auto, Size::Auto),
    ];
    let c = Container::new(children, Layout::Horizontal);
    let rects = c.resolve(10, 5);
    let widths: Vec<u16> = rects.iter().map(|r| r.width).collect();
    assert_eq!(widths, vec![4, 3, 3]);
    assert_eq!(widths.iter().map(|w| *w as u32).sum::<u32>(), 10);
    for r in &rects {
        assert_eq!(r.height, 5);
        assert_eq!(r.y, 1);
        assert!(r.visible);
    }
    // offsets accumulate from the inset (one border cell, no padding)
    assert_eq!(rects[0].x, 1);
    assert_eq!(rects[1].x, 5);
    assert_eq!(rects[2].x, 8);
}

#[test]
fn percents_and_chars_allocations() {
    let children = vec![
        leaf(Size::Percents(50), Size::Auto),
        leaf(Size::Chars(200), Size::Auto),
        leaf(Size::Auto, Size::Auto),
    ];
    let c = Container::new(children, Layout::Horizontal);
    let rects = c.resolve(11, 4);
    // 50% of 11 rounds down to 5; Chars(200) is clamped to the dimension;
    // nothing is left for the Auto child (the pool floors at zero).
    assert_eq!(rects[0].width, 5);
    assert_eq!(rects[1].width, 11);
    assert_eq!(rects[2].width, 0);
}

#[test]
fn percents_above_hundred_saturate() {
    let c = Container::new(vec![leaf(Size::Percents(150), Size::Auto)], Layout::Horizontal);
    let rects = c.resolve(10, 3);
    assert_eq!(rects[0].width, 10);
}

#[test]
fn vertical_layout_divides_height() {
    let children = vec![
        leaf(Size::Auto, Size::Chars(2)),
        leaf(Size::Auto, Size::Auto),
        leaf(Size::Auto, Size::Auto),
    ];
    let c = Container::new(children, Layout::Vertical);
    let rects = c.resolve(30, 9);
    let heights: Vec<u16> = rects.iter().map(|r| r.height).collect();
    assert_eq!(heights, vec![2, 4, 3]);
    for r in &rects {
        assert_eq!(r.width, 30);
        assert_eq!(r.x, 1);
        assert!(r.visible);
    }
    assert_eq!(rects[0].y, 1);
    assert_eq!(rects[1].y, 3);
    assert_eq!(rects[2].y, 7);
}

#[test]
fn resolve_is_idempotent() {
    let children = vec![
        leaf(Size::Chars(4), Size::Auto),
        leaf(Size::Auto, Size::Auto),
        leaf(Size::Percents(30), Size::Auto),
    ];
    let c = Container::new(children, Layout::Horizontal);
    let first: Vec<ChildRect> = c.resolve(24, 8);
    let second: Vec<ChildRect> = c.resolve(24, 8);
    assert_eq!(first, second);
}

#[test]
fn tabbed_layout_shows_only_active_child() {
    let children = vec![
        leaf(Size::Auto, Size::Auto),
        leaf(Size::Chars(5), Size::Auto),
        leaf(Size::Auto, Size::Auto),
    ];
    let mut c = Container::new(children, Layout::Tabbed);
    c.set_active_tab(1);
    let rects = c.resolve(40, 12);
    assert_eq!(rects.len(), 3);
    for r in &rects {
        // every child resolves to the full box, whatever its size hint
        assert_eq!(r.width, 40);
        assert_eq!(r.height, 12);
    }
    assert!(!rects[0].visible);
    assert!(rects[1].visible);
    assert!(!rects[2].visible);
}

#[test]
fn tabbed_out_of_range_active_shows_nothing() {
    let children = vec![leaf(Size::Auto, Size::Auto), leaf(Size::Auto, Size::Auto)];
    let mut c = Container::new(children, Layout::Tabbed);
    c.set_active_tab(9);
    let rects = c.resolve(10, 10);
    assert!(rects.iter().all(|r| !r.visible));
}

#[test]
fn empty_container_resolves_to_nothing() {
    let c = Container::new(Vec::new(), Layout::Horizontal);
    assert!(c.resolve(80, 24).is_empty());
}

#[test]
fn zero_available_space_allocates_zero() {
    let children = vec![
        leaf(Size::Chars(4), Size::Auto),
        leaf(Size::Percents(80), Size::Auto),
        leaf(Size::Auto, Size::Auto),
    ];
    let c = Container::new(children, Layout::Horizontal);
    let rects = c.resolve(0, 0);
    for r in &rects {
        assert_eq!(r.width, 0);
        assert_eq!(r.height, 0);
    }
}

#[test]
fn container_dirty_flag() {
    let mut c = Container::new(vec![leaf(Size::Auto, Size::Auto)], Layout::Vertical);
    assert!(c.updated());
    c.set_updated(false);
    assert!(!c.updated());
    c.set_title("root");
    assert!(c.updated());
    assert_eq!(c.title(), "root");
    c.set_updated(false);
    c.set_width(Size::Percents(100));
    assert!(c.updated());
    c.set_updated(false);
    c.set_height(Size::Chars(3));
    assert!(c.updated());
    c.set_updated(false);
    c.set_z_index(2);
    assert!(c.updated());
    c.set_updated(false);
    c.set_active_tab(1);
    assert!(c.updated());
    assert_eq!(c.active_tab(), 1);
    // none of the setters touched the children or the layout
    assert_eq!(c.elements.len(), 1);
    assert!(matches!(c.layout, Layout::Vertical));
}

#[test]
fn resolve_does_not_clear_dirty_flags() {
    let mut c = Container::new(vec![leaf(Size::Auto, Size::Auto)], Layout::Horizontal);
    c.set_updated(false);
    let _ = c.resolve(10, 10);
    assert!(!c.updated());
    c.set_title("x");
    let _ = c.resolve(10, 10);
    assert!(c.updated());
}

#[test]
fn widget_delegates_capability_calls() {
    let mut w = leaf(Size::Auto, Size::Auto);
    w.set_title("inner");
    assert_eq!(w.title(), "inner");
    w.set_z_index(3);
    assert_eq!(w.z_index(), 3);
    w.set_width(Size::Chars(8));
    assert!(matches!(w.width(), Size::Chars(8)));
    assert!(w.updated());
    w.set_updated(false);
    assert!(!w.updated());
    let mut inner = Container::new(Vec::new(), Layout::Tabbed);
    inner.set_title("tabs");
    let w2 = Widget::Container(inner);
    assert_eq!(w2.title(), "tabs");
    assert_eq!(w2.padding_vertical(), 0);
}

#[test]
fn nested_containers_resolve() {
    let inner = Container::new(
        vec![leaf(Size::Auto, Size::Auto), leaf(Size::Auto, Size::Auto)],
        Layout::Vertical,
    );
    let children = vec![Widget::Container(inner), leaf(Size::Chars(10), Size::Auto)];
    let c = Container::new(children, Layout::Horizontal);
    let rects = c.resolve(30, 10);
    assert_eq!(rects[1].width, 10);
    assert_eq!(rects[0].width, 20);
    if let Widget::Container(inner) = &c.elements[0] {
        let inner_rects = inner.resolve(rects[0].width, rects[0].height);
        assert_eq!(inner_rects[0].height, 5);
        assert_eq!(inner_rects[1].height, 5);
    } else {
        panic!("first child should be a container");
    }
}
