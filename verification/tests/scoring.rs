use wordlea::{GuessResult, Wordle};

/// The result as plain triples: letter, in word, in position.
fn triples(result: &GuessResult) -> Vec<(char, bool, bool)> {
    result.parts().iter().map(|p| (p.letter(), p.in_word(), p.in_position())).collect()
}

#[test]
fn scores_every_letter_of_a_wrong_guess() {
    let mut game = Wordle::new("hello");
    let result = game.guess("sadge").unwrap();
    assert_eq!(
        triples(&result),
        vec![
            ('s', false, false),
            ('a', false, false),
            ('d', false, false),
            ('g', false, false),
            ('e', true, false),
        ]
    );
    assert_eq!(game.won(), false);
    assert_eq!(game.count(), 1);
}

#[test]
fn scores_the_secret_itself() {
    let mut game = Wordle::new("hello");
    let result = game.guess("hello").unwrap();
    assert_eq!(
        triples(&result),
        vec![
            ('h', true, true),
            ('e', true, true),
            ('l', true, true),
            ('l', true, true),
            ('o', true, true),
        ]
    );
    assert_eq!(game.won(), true);
    assert_eq!(game.count(), 1);
}

#[test]
fn scores_a_letter_that_is_elsewhere_in_the_secret() {
    let mut game = Wordle::new("thigh");
    let result = game.guess("hello").unwrap();
    assert_eq!(
        triples(&result),
        vec![
            ('h', true, false),
            ('e', false, false),
            ('l', false, false),
            ('l', false, false),
            ('o', false, false),
        ]
    );
}

#[test]
fn one_result_per_letter_in_guess_order() {
    let mut game = Wordle::new("crane");
    let guess = "nacre";
    let result = game.guess(guess).unwrap();
    assert_eq!(result.word(), guess);
    assert_eq!(result.parts().len(), guess.chars().count());
    let letters: Vec<char> = result.parts().iter().map(|p| p.letter()).collect();
    assert_eq!(letters, guess.chars().collect::<Vec<char>>());
    assert_eq!(
        triples(&result),
        vec![
            ('n', true, false),
            ('a', true, false),
            ('c', true, false),
            ('r', true, false),
            ('e', true, true),
        ]
    );
}

#[test]
fn a_repeated_letter_is_in_the_word_each_time() {
    let mut game = Wordle::new("abcde");
    let result = game.guess("aaaaa").unwrap();
    assert_eq!(
        triples(&result),
        vec![
            ('a', true, true),
            ('a', true, false),
            ('a', true, false),
            ('a', true, false),
            ('a', true, false),
        ]
    );
    assert_eq!(game.won(), false);
}

#[test]
fn a_repeated_letter_of_the_secret_is_found_at_each_place() {
    let mut game = Wordle::new("hello");
    let result = game.guess("llama").unwrap();
    assert_eq!(
        triples(&result),
        vec![
            ('l', true, false),
            ('l', true, false),
            ('a', false, false),
            ('m', false, false),
            ('a', false, false),
        ]
    );
    let result = game.guess("belly").unwrap();
    assert_eq!(
        triples(&result),
        vec![
            ('b', false, false),
            ('e', true, true),
            ('l', true, true),
            ('l', true, true),
            ('y', false, false),
        ]
    );
}

#[test]
fn letters_differ_by_case() {
    let mut game = Wordle::new("Hello");
    let result = game.guess("hELLO").unwrap();
    assert_eq!(
        triples(&result),
        vec![
            ('h', false, false),
            ('E', false, false),
            ('L', false, false),
            ('L', false, false),
            ('O', false, false),
        ]
    );
    assert_eq!(game.won(), false);
    let result = game.guess("Hello").unwrap();
    assert!(result.parts().iter().all(|p| p.in_word() && p.in_position()));
    assert_eq!(game.won(), true);
}

#[test]
fn scores_signs_and_digits_like_letters() {
    let mut game = Wordle::new("a-1 !");
    let result = game.guess("!1- a").unwrap();
    assert_eq!(
        triples(&result),
        vec![
            ('!', true, false),
            ('1', true, false),
            ('-', true, false),
            (' ', true, true),
            ('a', true, false),
        ]
    );
}

#[test]
fn positions_count_letters_not_bytes() {
    let mut game = Wordle::new("héllo");
    assert_eq!(game.length(), 5);
    let result = game.guess("hello").unwrap();
    assert_eq!(
        triples(&result),
        vec![
            ('h', true, true),
            ('e', false, false),
            ('l', true, true),
            ('l', true, true),
            ('o', true, true),
        ]
    );
    assert_eq!(game.won(), false);
    let result = game.guess("olléh").unwrap();
    assert_eq!(
        triples(&result),
        vec![
            ('o', true, false),
            ('l', true, false),
            ('l', true, true),
            ('é', true, false),
            ('h', true, false),
        ]
    );
    let result = game.guess("héllo").unwrap();
    assert_eq!(result.word(), "héllo");
    assert!(result.parts().iter().all(|p| p.in_position()));
    assert_eq!(game.won(), true);
    assert_eq!(game.count(), 3);
}

#[test]
fn in_position_implies_in_word() {
    let secrets = ["hello", "thigh", "aaaaa", "abcde", "héllo"];
    let guesses = ["hello", "thigh", "aaaaa", "abcde", "edcba", "héllo", "lllll"];
    for secret in secrets {
        for guess in guesses {
            let mut game = Wordle::new(secret);
            let result = game.guess(guess).unwrap();
            for part in result.parts() {
                assert!(!part.in_position() || part.in_word());
            }
            let all_in_position = result.parts().iter().all(|p| p.in_position());
            assert_eq!(all_in_position, secret == guess);
            assert_eq!(game.won(), secret == guess);
        }
    }
}

#[test]
fn an_empty_guess_of_an_empty_secret_has_no_parts() {
    let mut game = Wordle::new("");
    assert_eq!(game.length(), 0);
    let result = game.guess("").unwrap();
    assert_eq!(result.word(), "");
    assert_eq!(result.parts().len(), 0);
    assert_eq!(game.count(), 1);
    assert_eq!(game.won(), true);
}
