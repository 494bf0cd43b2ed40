use terminal_tomato::glyph::{big_glyph, big_timer_lines, thicken_row, thicken_rows};

#[test]
fn glyphs_of_digits_and_colon() {
    assert_eq!(
        big_glyph('0'),
        [" ##### ", "#     #", "#     #", "#     #", "#     #", "#     #", " ##### "]
    );
    assert_eq!(
        big_glyph('7'),
        ["#######", "     # ", "    #  ", "   #   ", "  #    ", " #     ", "#      "]
    );
    assert_eq!(
        big_glyph(':'),
        ["       ", "   #   ", "       ", "       ", "   #   ", "       ", "       "]
    );
    assert_eq!(big_glyph('x'), ["       "; 7]);
}

#[test]
fn every_glyph_is_seven_by_seven() {
    for ch in "0123456789:?".chars() {
        for row in big_glyph(ch) {
            assert_eq!(row.chars().count(), 7);
            assert!(row.chars().all(|c| c == ' ' || c == '#'));
        }
    }
}

#[test]
fn thickening_a_row() {
    assert_eq!(thicken_row(" # "), "  ##  ");
    assert_eq!(thicken_row(""), "");
    assert_eq!(thicken_row("ab "), "####  ");
}

#[test]
fn repeating_rows() {
    let rows = vec!["a".to_string(), "b".to_string()];
    assert_eq!(thicken_rows(&rows, 2), vec!["a", "a", "b", "b"]);
    assert_eq!(thicken_rows(&rows, 3), vec!["a", "a", "a", "b", "b", "b"]);
    assert!(thicken_rows(&rows, 0).is_empty());
    assert!(thicken_rows(&[], 4).is_empty());
}

#[test]
fn timer_lines_shape() {
    let lines = big_timer_lines("25:00");
    assert_eq!(lines.len(), 14);
    for line in &lines {
        assert_eq!(line.chars().count(), 16 * 5 - 2);
    }
    assert_eq!(lines[0], lines[1]);
    let two = "  ##########  ";
    let five = "##############";
    let colon = "              ";
    let zero = "  ##########  ";
    assert_eq!(lines[0], [two, five, colon, zero, zero].join("  "));
}

#[test]
fn timer_lines_of_one_glyph() {
    let lines = big_timer_lines("1");
    assert_eq!(lines.len(), 14);
    assert_eq!(lines[0], "      ##      ");
    assert_eq!(lines[2], "    ####      ");
    assert_eq!(lines[12], "  ##########  ");
    assert_eq!(lines[13], "  ##########  ");
    assert_eq!(big_timer_lines(""), vec![String::new(); 14]);
}

#[test]
fn drawable_glyphs_are_distinct_and_digits_not_blank() {
    let drawable: Vec<char> = "0123456789:".chars().collect();
    for &a in &drawable {
        for &b in &drawable {
            assert_eq!(big_glyph(a) == big_glyph(b), a == b, "{a} {b}");
        }
        if a != ':' {
            assert_ne!(big_glyph(a), ["       "; 7]);
            assert!(big_glyph(a).iter().any(|row| row.contains('#')));
        }
    }
}

#[test]
fn repeating_rows_composes() {
    let rows = vec!["x".to_string(), "yy".to_string(), "".to_string()];
    assert_eq!(thicken_rows(&rows, 1), rows);
    assert!(thicken_rows(&rows, 0).is_empty());
    for a in 0..4 {
        for b in 0..4 {
            assert_eq!(thicken_rows(&thicken_rows(&rows, a), b), thicken_rows(&rows, a * b));
        }
    }
}
