use who_dis::chance::{coin_flip, coin_from_byte, game_id_from, new_game_id, vocabulary, CoinFlip};

#[test]
fn even_bytes_are_the_stranger_and_odd_bytes_the_friend() {
    assert_eq!(coin_from_byte(0), CoinFlip::Stranger);
    assert_eq!(coin_from_byte(1), CoinFlip::Friend);
    assert_eq!(coin_from_byte(2), CoinFlip::Stranger);
    assert_eq!(coin_from_byte(127), CoinFlip::Friend);
    assert_eq!(coin_from_byte(128), CoinFlip::Stranger);
    assert_eq!(coin_from_byte(254), CoinFlip::Stranger);
    assert_eq!(coin_from_byte(255), CoinFlip::Friend);
}

#[test]
fn the_coin_is_fair_over_all_bytes() {
    let mut friends = 0;
    let mut strangers = 0;
    for byte in 0..=255u8 {
        match coin_from_byte(byte) {
            CoinFlip::Friend => friends += 1,
            CoinFlip::Stranger => strangers += 1,
        }
    }
    assert_eq!(friends, 128);
    assert_eq!(strangers, 128);
}

#[test]
fn a_flip_gives_one_of_the_two_sides() {
    for _ in 0..64 {
        let flip = coin_flip();
        assert!(flip == CoinFlip::Friend || flip == CoinFlip::Stranger);
    }
}

#[test]
fn the_vocabulary_is_the_fixed_list_of_words() {
    let words = vocabulary();
    assert_eq!(
        words,
        vec![
            "spare",
            "poised",
            "measure",
            "impartial",
            "secretive",
            "baby",
            "scintillating",
            "light",
            "start",
            "dear",
            "vessel",
            "men",
            "tall",
            "reproduce",
            "tranquil",
            "alcoholic",
            "rinse",
            "airplane",
            "name",
            "harmony"
        ]
    );
}

#[test]
fn a_picked_word_becomes_the_game_id() {
    assert_eq!(game_id_from(Some("spare")), "spare");
    assert_eq!(game_id_from(Some("harmony")), "harmony");
    assert_eq!(game_id_from(None), "");
}

#[test]
fn a_new_game_id_is_a_word_of_the_vocabulary() {
    let words = vocabulary();
    for _ in 0..200 {
        let id = new_game_id();
        assert!(words.contains(&id.as_str()), "unexpected game id {:?}", id);
    }
}

#[test]
fn game_ids_are_lowercase_words() {
    for word in vocabulary() {
        assert!(!word.is_empty());
        assert_eq!(word.to_lowercase(), word);
        assert!(word.chars().all(|c| c.is_ascii_lowercase()));
    }
}
