use led_echo::glyph::{blank_frame, ch_to_matrix, Frame};

fn lit_count(f: &Frame) -> usize {
    f.rows.iter().flatten().filter(|c| **c != 0).count()
}

#[test]
fn glyph_upper_a_at_full() {
    let f = ch_to_matrix(Some(b'A'), 9);
    assert_eq!(
        f.rows,
        [
            [0, 9, 9, 9, 0],
            [9, 0, 0, 0, 9],
            [9, 9, 9, 9, 9],
            [9, 0, 0, 0, 9],
            [9, 0, 0, 0, 9],
        ]
    );
}

#[test]
fn glyph_digit_seven_dimmed() {
    let f = ch_to_matrix(Some(b'7'), 4);
    assert_eq!(
        f.rows,
        [
            [4, 4, 4, 4, 4],
            [0, 0, 0, 0, 4],
            [0, 0, 0, 4, 0],
            [0, 0, 0, 4, 0],
            [0, 0, 0, 4, 0],
        ]
    );
}

#[test]
fn glyph_enter_and_backspace() {
    let e = ch_to_matrix(Some(0x0D), 2);
    assert_eq!(
        e.rows,
        [
            [0, 0, 0, 0, 2],
            [0, 0, 0, 0, 2],
            [0, 2, 0, 0, 2],
            [2, 2, 2, 2, 2],
            [0, 2, 0, 0, 0],
        ]
    );
    let b = ch_to_matrix(Some(0x08), 9);
    assert_eq!(
        b.rows,
        [
            [0, 0, 0, 0, 0],
            [0, 9, 0, 0, 0],
            [9, 9, 9, 9, 9],
            [0, 9, 0, 0, 0],
            [0, 0, 0, 0, 0],
        ]
    );
}

#[test]
fn glyph_none_space_escape_are_blank() {
    assert_eq!(ch_to_matrix(None, 9), blank_frame());
    assert_eq!(ch_to_matrix(Some(b' '), 9), blank_frame());
    assert_eq!(ch_to_matrix(Some(0x1B), 9), blank_frame());
    assert_eq!(lit_count(&blank_frame()), 0);
}

#[test]
fn glyph_unknown_is_all_on() {
    let f = ch_to_matrix(Some(b'#'), 7);
    assert_eq!(f.rows, [[7u8; 5]; 5]);
    assert_eq!(lit_count(&ch_to_matrix(Some(0xFF), 1)), 25);
}

#[test]
fn glyph_shape_fixed_across_brightness() {
    let supported: Vec<u8> = (b'A'..=b'Z').chain(b'a'..=b'z').chain(b'0'..=b'9').chain([0x0D, 0x08]).collect();
    for ch in supported {
        let first = ch_to_matrix(Some(ch), 9);
        let second = ch_to_matrix(Some(ch), 9);
        assert_eq!(first, second);
        assert_eq!(lit_count(&first), lit_count(&second));
        assert!(lit_count(&first) > 0);
        for level in 1u8..=9 {
            let dim = ch_to_matrix(Some(ch), level);
            assert_eq!(lit_count(&dim), lit_count(&first));
            for i in 0..5 {
                for j in 0..5 {
                    assert_eq!(dim.rows[i][j] != 0, first.rows[i][j] != 0);
                    if dim.rows[i][j] != 0 {
                        assert_eq!(dim.rows[i][j], level);
                    }
                }
            }
        }
    }
}

#[test]
fn glyph_lower_i_exact() {
    let f = ch_to_matrix(Some(b'i'), 1);
    assert_eq!(
        f.rows,
        [
            [0, 0, 1, 0, 0],
            [0, 0, 0, 0, 0],
            [0, 0, 1, 0, 0],
            [0, 0, 1, 0, 0],
            [0, 0, 1, 0, 0],
        ]
    );
}
