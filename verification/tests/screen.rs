use bracket_lib::color::RGB;
use brogue::util::fill_bg;

#[test]
fn fill_covers_the_screen_column_by_column() {
    let fg = RGB::from_u8(1, 2, 3);
    let bg = RGB::from_u8(4, 5, 6);
    let list = fill_bg(3, 2, fg, bg, '.');
    assert_eq!(list.len(), 6);
    let places: Vec<(i32, i32)> = list.iter().map(|c| (c.x, c.y)).collect();
    assert_eq!(places, vec![(0, 0), (0, 1), (1, 0), (1, 1), (2, 0), (2, 1)]);
    for cell in list.iter() {
        assert_eq!(cell.char, '.');
        assert_eq!(cell.fg, fg);
        assert_eq!(cell.bg, bg);
    }
}

#[test]
fn fill_of_the_whole_screen() {
    let white = RGB::from_u8(255, 255, 255);
    let black = RGB::from_u8(0, 0, 0);
    let list = fill_bg(80, 45, white, black, '#');
    assert_eq!(list.len(), 3600);
    assert_eq!((list[0].x, list[0].y), (0, 0));
    assert_eq!((list[44].x, list[44].y), (0, 44));
    assert_eq!((list[45].x, list[45].y), (1, 0));
    assert_eq!((list[3599].x, list[3599].y), (79, 44));
}

#[test]
fn fill_of_a_screen_without_cells() {
    let c = RGB::from_u8(0, 0, 0);
    assert!(fill_bg(0, 10, c, c, ' ').is_empty());
    assert!(fill_bg(10, 0, c, c, ' ').is_empty());
    assert!(fill_bg(-3, 10, c, c, ' ').is_empty());
    assert!(fill_bg(10, -3, c, c, ' ').is_empty());
    assert!(fill_bg(i32::MIN, i32::MIN, c, c, ' ').is_empty());
}
