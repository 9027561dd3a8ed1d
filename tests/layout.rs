use character_sheet::layout::{split, Constraint, Direction, Rect};

fn rect(x: u16, y: u16, width: u16, height: u16) -> Rect {
    Rect { x, y, width, height }
}

fn widths(rs: &[Rect]) -> Vec<u16> {
    rs.iter().map(|r| r.width).collect()
}

fn heights(rs: &[Rect]) -> Vec<u16> {
    rs.iter().map(|r| r.height).collect()
}

#[test]
fn over_subscription_shrinks_the_last_first() {
    let rs = split(
        rect(0, 0, 100, 10),
        Direction::Horizontal,
        0,
        &[Constraint::Percentage(60), Constraint::Percentage(60)],
    );
    assert_eq!(widths(&rs), vec![60, 40]);
    assert_eq!(rs[0].x, 0);
    assert_eq!(rs[1].x, 60);
    assert!(rs.iter().map(|r| r.width as u32).sum::<u32>() <= 100);
}

#[test]
fn over_subscription_can_empty_later_children() {
    let rs = split(
        rect(0, 0, 100, 10),
        Direction::Horizontal,
        0,
        &[Constraint::Fixed(70), Constraint::Percentage(50), Constraint::Min(20)],
    );
    assert_eq!(widths(&rs), vec![70, 30, 0]);
    assert_eq!(rs[2].x, 100);
}

#[test]
fn under_subscription_hands_leftover_out_from_the_first() {
    let rs = split(
        rect(0, 0, 100, 10),
        Direction::Horizontal,
        0,
        &[Constraint::Percentage(10), Constraint::Percentage(10)],
    );
    assert_eq!(widths(&rs), vec![50, 50]);
    let odd = split(
        rect(0, 0, 101, 10),
        Direction::Horizontal,
        0,
        &[Constraint::Percentage(10), Constraint::Percentage(10)],
    );
    assert_eq!(widths(&odd), vec![51, 50]);
}

#[test]
fn end_to_end_sheet_rows() {
    let rs = split(
        rect(0, 0, 100, 50),
        Direction::Vertical,
        1,
        &[
            Constraint::Percentage(15),
            Constraint::Percentage(10),
            Constraint::Percentage(70),
            Constraint::Percentage(5),
        ],
    );
    // 48 usable rows: floors 7, 4, 33, 2, and the two rows left over go to
    // the first two children.
    assert_eq!(heights(&rs), vec![8, 5, 33, 2]);
    let ys: Vec<u16> = rs.iter().map(|r| r.y).collect();
    assert_eq!(ys, vec![1, 9, 14, 47]);
    for r in &rs {
        assert_eq!(r.x, 1);
        assert_eq!(r.width, 98);
    }
}

#[test]
fn lengths_never_exceed_usable_length() {
    let cs = [
        Constraint::Fixed(12),
        Constraint::Max(40),
        Constraint::Percentage(33),
        Constraint::Min(9),
    ];
    for w in [0u16, 1, 7, 30, 64, 99, 250] {
        for m in [0u16, 1, 3, 200] {
            let rs = split(rect(2, 3, w, 11), Direction::Horizontal, m, &cs);
            let usable = if w >= 2 * m { w - 2 * m } else { 0 };
            let total: u32 = rs.iter().map(|r| r.width as u32).sum();
            assert!(total <= usable as u32);
        }
    }
}

#[test]
fn children_are_contiguous_in_order() {
    let cs = [
        Constraint::Min(3),
        Constraint::Percentage(25),
        Constraint::Fixed(4),
        Constraint::Max(6),
        Constraint::Percentage(0),
    ];
    let rs = split(rect(10, 20, 30, 77), Direction::Vertical, 2, &cs);
    assert_eq!(rs.len(), 5);
    assert_eq!(rs[0].y, 22);
    for i in 1..rs.len() {
        assert_eq!(rs[i].y, rs[i - 1].y + rs[i - 1].height);
    }
}

#[test]
fn children_span_the_cross_axis() {
    let cs = [Constraint::Percentage(30), Constraint::Fixed(5), Constraint::Min(1)];
    let rs = split(rect(4, 6, 50, 21), Direction::Horizontal, 3, &cs);
    for r in &rs {
        assert_eq!(r.y, 9);
        assert_eq!(r.height, 15);
    }
    let rs = split(rect(4, 6, 50, 21), Direction::Vertical, 3, &cs);
    for r in &rs {
        assert_eq!(r.x, 7);
        assert_eq!(r.width, 44);
    }
}

#[test]
fn zero_percent_gets_nothing_when_space_is_taken() {
    let rs = split(
        rect(0, 0, 80, 5),
        Direction::Horizontal,
        0,
        &[Constraint::Percentage(0), Constraint::Percentage(100)],
    );
    assert_eq!(widths(&rs), vec![0, 80]);
}

#[test]
fn full_percent_alone_takes_everything() {
    let rs = split(rect(3, 4, 57, 9), Direction::Horizontal, 0, &[Constraint::Percentage(100)]);
    assert_eq!(rs, vec![rect(3, 4, 57, 9)]);
    let rs = split(rect(3, 4, 57, 9), Direction::Vertical, 0, &[Constraint::Percentage(100)]);
    assert_eq!(rs, vec![rect(3, 4, 57, 9)]);
}

#[test]
fn margin_shrinks_and_shifts() {
    let r = rect(5, 7, 20, 10).inner(3);
    assert_eq!(r, rect(8, 10, 14, 4));
    let r = rect(5, 7, 4, 9).inner(3);
    assert_eq!(r, rect(8, 10, 0, 3));
    let r = rect(5, 7, 2, 1).inner(3);
    assert_eq!(r, rect(7, 8, 0, 0));
    let rs = split(rect(5, 7, 20, 10), Direction::Horizontal, 3, &[Constraint::Fixed(2)]);
    assert_eq!(rs, vec![rect(8, 10, 2, 4)]);
}

#[test]
fn zero_size_parent_gives_zero_size_children() {
    let cs = [
        Constraint::Percentage(50),
        Constraint::Fixed(10),
        Constraint::Min(4),
        Constraint::Max(7),
    ];
    for d in [Direction::Horizontal, Direction::Vertical] {
        let rs = split(rect(9, 9, 0, 0), d, 1, &cs);
        assert_eq!(rs.len(), 4);
        for r in &rs {
            assert_eq!(*r, rect(9, 9, 0, 0));
        }
        // splitting a child again ends at once with zero-size children
        let again = split(rs[0], d, 1, &cs);
        assert!(again.iter().all(|r| r.width == 0 && r.height == 0));
    }
}

#[test]
fn no_constraints_no_children() {
    let rs = split(rect(0, 0, 10, 10), Direction::Vertical, 1, &[]);
    assert!(rs.is_empty());
}

#[test]
fn fixed_and_max_do_not_grow() {
    let rs = split(
        rect(0, 0, 100, 1),
        Direction::Horizontal,
        0,
        &[Constraint::Fixed(10), Constraint::Max(20)],
    );
    assert_eq!(widths(&rs), vec![10, 20]);
    let rs = split(
        rect(0, 0, 100, 1),
        Direction::Horizontal,
        0,
        &[Constraint::Fixed(10), Constraint::Percentage(10), Constraint::Max(5), Constraint::Min(3)],
    );
    // leftover 72 split between the percentage and the minimum
    assert_eq!(widths(&rs), vec![10, 46, 5, 39]);
}

#[test]
fn lengths_are_clamped_to_the_usable_length() {
    let rs = split(rect(0, 0, 100, 1), Direction::Horizontal, 0, &[Constraint::Fixed(200)]);
    assert_eq!(widths(&rs), vec![100]);
    let rs = split(rect(0, 0, 100, 1), Direction::Horizontal, 0, &[Constraint::Max(300)]);
    assert_eq!(widths(&rs), vec![100]);
    let rs = split(
        rect(0, 0, 100, 1),
        Direction::Horizontal,
        0,
        &[Constraint::Percentage(150), Constraint::Fixed(10)],
    );
    assert_eq!(widths(&rs), vec![100, 0]);
}

#[test]
fn percentages_round_down() {
    let rs = split(
        rect(0, 0, 33, 1),
        Direction::Horizontal,
        0,
        &[Constraint::Percentage(50), Constraint::Fixed(17)],
    );
    // floor(33 * 50 / 100) = 16, which with the fixed 17 fills the row
    assert_eq!(widths(&rs), vec![16, 17]);
    let rs = split(
        rect(0, 0, 33, 1),
        Direction::Horizontal,
        0,
        &[Constraint::Percentage(50), Constraint::Fixed(16)],
    );
    // the one cell left over goes to the percentage
    assert_eq!(widths(&rs), vec![17, 16]);
}

#[test]
fn split_reaches_the_far_edge_of_the_grid() {
    let rs = split(
        rect(65000, 0, 535, 3),
        Direction::Horizontal,
        0,
        &[Constraint::Percentage(50), Constraint::Min(1)],
    );
    assert_eq!(rs[1].x as u32 + rs[1].width as u32, 65535);
}
