use tic_tac_toe::error::GameError;
use tic_tac_toe::input::parse_coordinate;

#[test]
fn parse_plain_pair() {
    assert_eq!(parse_coordinate("1,2"), Ok((1, 2)));
    assert_eq!(parse_coordinate("0,0"), Ok((0, 0)));
    assert_eq!(parse_coordinate("2,1"), Ok((2, 1)));
}

#[test]
fn parse_skips_blanks_around_numbers() {
    assert_eq!(parse_coordinate(" 1 , 2 "), Ok((1, 2)));
    assert_eq!(parse_coordinate("1,2\n"), Ok((1, 2)));
    assert_eq!(parse_coordinate("\t0 ,\t2\r\n"), Ok((0, 2)));
}

#[test]
fn parse_keeps_numbers_that_the_board_will_refuse() {
    assert_eq!(parse_coordinate("3,3"), Ok((3, 3)));
    assert_eq!(parse_coordinate("12,345"), Ok((12, 345)));
    assert_eq!(parse_coordinate("007,010"), Ok((7, 10)));
}

#[test]
fn parse_takes_the_largest_usize() {
    let line = format!("{},{}", usize::MAX, 0);
    assert_eq!(parse_coordinate(&line), Ok((usize::MAX, 0)));
}

#[test]
fn parse_refuses_a_number_above_usize() {
    assert_eq!(
        parse_coordinate("340282366920938463463374607431768211456,1"),
        Err(GameError::InvalidInput)
    );
    let line = format!("1,{}0", usize::MAX);
    assert_eq!(parse_coordinate(&line), Err(GameError::InvalidInput));
}

#[test]
fn parse_refuses_a_line_without_comma() {
    assert_eq!(parse_coordinate(""), Err(GameError::InvalidInput));
    assert_eq!(parse_coordinate("1"), Err(GameError::InvalidInput));
    assert_eq!(parse_coordinate("1 2"), Err(GameError::InvalidInput));
    assert_eq!(parse_coordinate("\n"), Err(GameError::InvalidInput));
}

#[test]
fn parse_refuses_a_missing_component() {
    assert_eq!(parse_coordinate("1,"), Err(GameError::InvalidInput));
    assert_eq!(parse_coordinate(",1"), Err(GameError::InvalidInput));
    assert_eq!(parse_coordinate(","), Err(GameError::InvalidInput));
    assert_eq!(parse_coordinate("1,  \n"), Err(GameError::InvalidInput));
}

#[test]
fn parse_refuses_what_is_no_number() {
    assert_eq!(parse_coordinate("a,b"), Err(GameError::InvalidInput));
    assert_eq!(parse_coordinate("1,b"), Err(GameError::InvalidInput));
    assert_eq!(parse_coordinate("x,2"), Err(GameError::InvalidInput));
    assert_eq!(parse_coordinate("-1,2"), Err(GameError::InvalidInput));
    assert_eq!(parse_coordinate("+1,2"), Err(GameError::InvalidInput));
    assert_eq!(parse_coordinate("1.0,2"), Err(GameError::InvalidInput));
    assert_eq!(parse_coordinate("1 1,2"), Err(GameError::InvalidInput));
    assert_eq!(parse_coordinate("\u{661},2"), Err(GameError::InvalidInput));
}

#[test]
fn parse_refuses_a_third_component() {
    assert_eq!(parse_coordinate("1,2,3"), Err(GameError::InvalidInput));
    assert_eq!(parse_coordinate("1,2,"), Err(GameError::InvalidInput));
}
