use snake_game::text::align_right;
use snake_game::text::banner_text;
use snake_game::text::decimal_text;
use snake_game::text::header_text;

#[test]
fn decimal_of_small_numbers() {
    assert_eq!(decimal_text(0), "0");
    assert_eq!(decimal_text(7), "7");
    assert_eq!(decimal_text(9), "9");
    assert_eq!(decimal_text(10), "10");
    assert_eq!(decimal_text(11), "11");
}

#[test]
fn decimal_of_large_numbers() {
    assert_eq!(decimal_text(1234567890), "1234567890");
    assert_eq!(decimal_text(65535), "65535");
    assert_eq!(decimal_text(u64::MAX), "18446744073709551615");
}

#[test]
fn decimal_agrees_with_the_standard_formatting() {
    let mut n: u64 = 0;
    while n < 2000 {
        assert_eq!(decimal_text(n), format!("{}", n));
        n += 1;
    }
}

#[test]
fn align_right_fills_with_blanks_on_the_left() {
    assert_eq!(align_right("7", 3), "  7");
    assert_eq!(align_right("42", 3), " 42");
    assert_eq!(align_right("", 2), "  ");
}

#[test]
fn align_right_keeps_a_text_that_fills_the_field() {
    assert_eq!(align_right("123", 3), "123");
    assert_eq!(align_right("1234", 3), "1234");
    assert_eq!(align_right("x", 0), "x");
}

#[test]
fn header_names_the_score() {
    assert_eq!(header_text(0), "Score: 0");
    assert_eq!(header_text(17), "Score: 17");
    assert_eq!(header_text(999), "Score: 999");
}

#[test]
fn banner_boxes_the_score() {
    assert_eq!(
        banner_text(0),
        "+-----------------------+\n| You scored  0 points. |\n+-----------------------+"
    );
    assert_eq!(
        banner_text(12),
        "+-----------------------+\n| You scored 12 points. |\n+-----------------------+"
    );
    assert_eq!(
        banner_text(123),
        "+-----------------------+\n| You scored123 points. |\n+-----------------------+"
    );
}

#[test]
fn banner_agrees_with_the_standard_formatting() {
    let mut score: u64 = 0;
    while score < 1200 {
        let expected = format!(
            "+-----------------------+\n| You scored{:3} points. |\n+-----------------------+",
            score
        );
        assert_eq!(banner_text(score), expected);
        score += 7;
    }
}
