use ratatui::layout::{Constraint, Direction, Layout, Rect};

fn split(area: Rect, h: u16, i: u16) -> Vec<Rect> {
    Layout::default()
        .direction(Direction::Vertical)
        .constraints([Constraint::Length(h), Constraint::Min(1), Constraint::Length(i)])
        .split(area)
        .to_vec()
}

#[test]
fn ratatui_splits_the_screen_as_stated() {
    for &y in &[0u16, 3, 100] {
        for height in 0u16..40 {
            for h in 0u16..12 {
                for i in 0u16..8 {
                    let fits = h + 1 + i <= height;
                    if !(fits || (height < 2 && h == 0 && i == 1)) {
                        continue;
                    }
                    let area = Rect { x: 2, y, width: 30, height };
                    let parts = split(area, h, i);
                    let expected = if fits {
                        vec![
                            Rect { x: 2, y, width: 30, height: h },
                            Rect { x: 2, y: y + h, width: 30, height: height - h - i },
                            Rect { x: 2, y: y + height - i, width: 30, height: i },
                        ]
                    } else {
                        vec![
                            Rect { x: 2, y, width: 30, height: 0 },
                            Rect { x: 2, y, width: 30, height },
                            Rect { x: 2, y: y + height, width: 30, height: 0 },
                        ]
                    };
                    assert_eq!(parts, expected, "y {y} height {height} h {h} i {i}");
                }
            }
        }
    }
}
