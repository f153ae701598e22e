use draft_service::{seed_games, DraftGame};

fn find<'a>(games: &'a [DraftGame], id: &str) -> &'a DraftGame {
    let mut found = games.iter().filter(|game| game.id == id);
    let game = found.next().expect("a record with this id");
    assert!(found.next().is_none());
    game
}

#[test]
fn seed_has_two_records() {
    assert_eq!(seed_games().len(), 2);
}

#[test]
fn seed_records_come_in_listed_order() {
    let games = seed_games();
    assert_eq!(games[0].id, "draft-neo-tokyo");
    assert_eq!(games[1].id, "draft-solstice");
}

#[test]
fn neo_tokyo_players_keep_their_order() {
    let games = seed_games();
    let game = find(&games, "draft-neo-tokyo");
    assert_eq!(game.players, vec!["Shin", "Rowan", "Ivy"]);
}

#[test]
fn solstice_has_its_title_and_two_players() {
    let games = seed_games();
    let game = find(&games, "draft-solstice");
    assert_eq!(game.title, "Solstice Arena");
    assert_eq!(game.players.len(), 2);
}

#[test]
fn seed_records_hold_their_exact_text() {
    let games = seed_games();
    let expected = vec![
        DraftGame {
            id: "draft-neo-tokyo".to_string(),
            title: "Neon Syndicate Showdown".to_string(),
            description: "Cyber ninjas draft augmented abilities to control Neo Tokyo."
                .to_string(),
            players: vec!["Shin".to_string(), "Rowan".to_string(), "Ivy".to_string()],
        },
        DraftGame {
            id: "draft-solstice".to_string(),
            title: "Solstice Arena".to_string(),
            description: "Mages bend time shards to outsmart their rivals.".to_string(),
            players: vec!["Adira".to_string(), "Luca".to_string()],
        },
    ];
    assert_eq!(games, expected);
}

#[test]
fn seed_ids_are_distinct() {
    let games = seed_games();
    for (i, a) in games.iter().enumerate() {
        for b in games.iter().skip(i + 1) {
            assert_ne!(a.id, b.id);
        }
    }
}

#[test]
fn seed_is_the_same_on_every_call() {
    assert_eq!(seed_games(), seed_games());
}

#[test]
fn clone_keeps_every_field() {
    let games = seed_games();
    for game in &games {
        let copy = game.clone();
        assert_eq!(&copy, game);
        assert_eq!(copy.players, game.players);
    }
}

#[test]
fn clone_of_a_record_without_players_has_none() {
    let game = DraftGame {
        id: "draft-empty".to_string(),
        title: String::new(),
        description: "Nobody has joined yet.".to_string(),
        players: Vec::new(),
    };
    let copy = game.clone();
    assert_eq!(copy, game);
    assert!(copy.players.is_empty());
}

#[test]
fn clone_is_independent_of_its_source() {
    let games = seed_games();
    let mut copy = games[0].clone();
    copy.players.push("Mallory".to_string());
    copy.title.push('!');
    assert_eq!(games[0].players, vec!["Shin", "Rowan", "Ivy"]);
    assert_eq!(games[0].title, "Neon Syndicate Showdown");
}
