use rsbongo::sprite::{draw, fill_rect, frame_in_range, BODY_COLOR, PAW_COLOR};

const W: u32 = 200;
const H: u32 = 100;

fn frame(active: bool) -> Vec<u32> {
    let mut buf = vec![0xdead_beef_u32; (W * H) as usize];
    draw(&mut buf, W, H, active);
    buf
}

fn px(buf: &[u32], row: usize, col: usize) -> u32 {
    buf[row * W as usize + col]
}

#[test]
fn draw_clears_background() {
    let buf = frame(false);
    assert_eq!(px(&buf, 0, 0), 0);
    assert_eq!(px(&buf, 99, 199), 0);
    assert_eq!(px(&buf, 10, 100), 0);
}

#[test]
fn draw_paints_body_and_ears() {
    let buf = frame(false);
    // body: columns 75..125, rows 50..70
    assert_eq!(px(&buf, 50, 75), BODY_COLOR);
    assert_eq!(px(&buf, 69, 124), BODY_COLOR);
    assert_eq!(px(&buf, 70, 100), 0);
    assert_eq!(px(&buf, 52, 125), 0);
    // ears: rows 40..50, columns 78..86 and 114..122
    assert_eq!(px(&buf, 40, 78), BODY_COLOR);
    assert_eq!(px(&buf, 49, 121), BODY_COLOR);
    assert_eq!(px(&buf, 45, 90), 0);
}

#[test]
fn draw_idle_paws_low() {
    let buf = frame(false);
    // idle paws: rows 55..65, columns 70..80 and 120..130
    assert_eq!(px(&buf, 55, 70), PAW_COLOR);
    assert_eq!(px(&buf, 64, 129), PAW_COLOR);
    assert_eq!(px(&buf, 35, 70), 0);
}

#[test]
fn draw_active_paws_raised() {
    let buf = frame(true);
    // active paws: rows 35..45, columns 70..80 and 120..130
    assert_eq!(px(&buf, 35, 70), PAW_COLOR);
    assert_eq!(px(&buf, 44, 129), PAW_COLOR);
    assert_eq!(px(&buf, 60, 70), 0);
    // paw over the right ear wins
    assert_eq!(px(&buf, 42, 121), PAW_COLOR);
}

#[test]
fn only_paws_differ_between_frames() {
    let idle = frame(false);
    let active = frame(true);
    for row in 0..H as usize {
        for col in 0..W as usize {
            let in_paw_cols = (70..80).contains(&col) || (120..130).contains(&col);
            let in_paw_rows = (35..45).contains(&row) || (55..65).contains(&row);
            if !(in_paw_cols && in_paw_rows) {
                assert_eq!(px(&idle, row, col), px(&active, row, col), "row {row} col {col}");
            }
        }
    }
    assert_ne!(idle, active);
}

#[test]
fn draw_leaves_nothing_beyond_frame() {
    let mut buf = vec![7u32; (W * H) as usize + 50];
    draw(&mut buf, W, H, true);
    assert!(buf[(W * H) as usize..].iter().all(|&p| p == 0));
}

#[test]
fn draw_short_buffer_skips_missing_pixels() {
    let mut buf = vec![7u32; 60 * W as usize];
    draw(&mut buf, W, H, false);
    assert_eq!(buf.len(), 60 * W as usize);
    assert_eq!(buf[50 * W as usize + 75], BODY_COLOR);
    assert_eq!(buf[55 * W as usize + 70], PAW_COLOR);
}

#[test]
fn draw_result_independent_of_old_contents() {
    let mut a = vec![0u32; (W * H) as usize];
    let mut b = vec![u32::MAX; (W * H) as usize];
    draw(&mut a, W, H, true);
    draw(&mut b, W, H, true);
    assert_eq!(a, b);
}

#[test]
fn draw_oversized_width_only_clears() {
    let mut buf = vec![7u32; 1000];
    draw(&mut buf, 0x8000_0000, 10, true);
    assert!(buf.iter().all(|&p| p == 0));
}

#[test]
fn frame_in_range_cases() {
    assert!(frame_in_range(W, H, true));
    assert!(frame_in_range(W, H, false));
    assert!(frame_in_range(0, 0, true));
    // the height turns negative and the lowest rows underflow
    assert!(!frame_in_range(W, 0x8000_0000 + 10, true));
    assert!(frame_in_range(W, 0x8000_0000 + 64, false));
    assert!(!frame_in_range(W, 0x8000_0000 + 64, true));
    // pixel indices overflow i32
    assert!(!frame_in_range(100_000, 100_000, false));
    assert!(frame_in_range(0x8000_0000, 100, true));
}

#[test]
fn fill_rect_clips_to_frame() {
    let mut buf = vec![0u32; 16];
    fill_rect(&mut buf, 4, 4, -1, 2, 3, 5, 9);
    let expected = [0, 0, 0, 0, 0, 0, 0, 0, 9, 9, 0, 0, 9, 9, 0, 0];
    assert_eq!(buf, expected);
}

#[test]
fn fill_rect_skips_out_of_buffer_pixels() {
    let mut buf = vec![1u32; 5];
    fill_rect(&mut buf, 4, 4, 0, 0, 4, 4, 2);
    assert_eq!(buf, vec![2, 2, 2, 2, 2]);
}

#[test]
fn fill_rect_empty_rect_changes_nothing() {
    let mut buf = vec![1u32; 16];
    fill_rect(&mut buf, 4, 4, 4, 0, 2, 2, 2);
    fill_rect(&mut buf, 4, 4, 0, -3, 2, 2, 2);
    assert_eq!(buf, vec![1u32; 16]);
}
