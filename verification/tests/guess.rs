use incubator::guess::{
    get_guess_number, get_secret_number, guess_game, parse_guess, try_secret_number, Input,
};

#[test]
fn test_game() {
    let mut input = Input::new("10\n20\n15");
    let mut out = String::new();
    let args = vec!["guess_who".to_owned(), "15".to_owned()];
    assert!(guess_game(&mut input, &mut out, &args));
    let s = out.as_str();
    assert!(s.ends_with("You win!\n"));
}

#[test]
fn test_get_guess_number() {
    let mut input = Input::new("10");
    assert_eq!(
        Some(10),
        get_guess_number(&mut input),
        "failed to convert \"10\" to u32"
    );

    let mut input = Input::new("-10");
    assert_eq!(
        None,
        get_guess_number(&mut input),
        "incorect behaviour with negative"
    );

    let mut input = Input::new("4294967295");
    assert_eq!(
        Some(u32::max_value()),
        get_guess_number(&mut input),
        "can't process max of u32"
    );

    let mut input = Input::new("4294967296");
    assert_eq!(
        None,
        get_guess_number(&mut input),
        "should return None for values greter then u32::max_value()"
    );

    let mut input = Input::new("aaaaa");
    assert_eq!(
        None,
        get_guess_number(&mut input),
        "should return None for not digit input"
    );

    let mut input = Input::new("");
    assert_eq!(
        None,
        get_guess_number(&mut input),
        "should return None for empty io"
    );
}

#[test]
fn test_get_secret_number() {
    let args = vec!["".to_owned(), "10".to_owned(), "bb".to_owned()];
    assert_eq!(
        10,
        get_secret_number(&args),
        "failed to convert \"10\" to u32"
    );

    let args = vec!["".to_owned(), "4294967295".to_owned(), "bb".to_owned()];
    assert_eq!(
        u32::max_value(),
        get_secret_number(&args),
        "failed to convert \"10\" to u32"
    );
}

#[test]
fn secret_number_is_refused_where_it_is_no_number() {
    let cases: Vec<Vec<&str>> = vec![
        vec!["", "aaa", "bb"],
        vec!["guess_who!"],
        vec!["guess_who!", "-10"],
        vec!["guess_who!", "4294967296"],
        vec!["guess_who!", ""],
        vec![],
    ];
    for case in cases {
        let args: Vec<String> = case.iter().map(|s| s.to_string()).collect();
        assert_eq!(try_secret_number(&args), None);
    }
}

#[test]
fn guesses_are_parsed_as_std_parses_them() {
    let lines = [
        "10", " 10 ", "+7", "007", "\t42\r\n", "4294967295", "4294967296", "-1", "+", "", " ",
        "1 2", "12a", "\u{a0}5\u{3000}", "٣", "99999999999999999999999999", "+-1", "0",
    ];
    for line in lines {
        assert_eq!(parse_guess(line), line.trim().parse::<u32>().ok(), "{:?}", line);
    }
}

#[test]
fn game_transcript_is_exact() {
    let mut input = Input::new("10\nabc\n20\n15\n3\n");
    let mut out = String::from("> ");
    let args = vec!["prog".to_owned(), " 15 ".to_owned()];
    assert!(guess_game(&mut input, &mut out, &args));
    let expected = "> Guess the number!\n\
        Please input your guess.\nYou guessed: 10\nToo small!\n\
        Please input your guess.\n\
        Please input your guess.\nYou guessed: 20\nToo big!\n\
        Please input your guess.\nYou guessed: 15\nYou win!\n";
    assert_eq!(out, expected);
    assert_eq!(get_guess_number(&mut input), Some(3));
    assert_eq!(get_guess_number(&mut input), None);
}

#[test]
fn game_ends_unwon_when_input_runs_out() {
    let mut input = Input::new("1\n4000000000");
    let mut out = String::new();
    let args = vec!["prog".to_owned(), "2".to_owned()];
    assert!(!guess_game(&mut input, &mut out, &args));
    let expected = "Guess the number!\n\
        Please input your guess.\nYou guessed: 1\nToo small!\n\
        Please input your guess.\nYou guessed: 4000000000\nToo big!\n\
        Please input your guess.\n";
    assert_eq!(out, expected);
}
