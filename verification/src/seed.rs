//! The fixed records that the service starts with.

use vstd::prelude::*;
use crate::model::{distinct_ids, DraftGame, DraftGameView};

verus! {

/// The seed data: two records, in the order in which they are listed.
pub open spec fn seed_spec() -> Seq<DraftGameView> {
    seq![
        DraftGameView {
            id: "draft-neo-tokyo"@,
            title: "Neon Syndicate Showdown"@,
            description: "Cyber ninjas draft augmented abilities to control Neo Tokyo."@,
            players: seq!["Shin"@, "Rowan"@, "Ivy"@],
        },
        DraftGameView {
            id: "draft-solstice"@,
            title: "Solstice Arena"@,
            description: "Mages bend time shards to outsmart their rivals."@,
            players: seq!["Adira"@, "Luca"@],
        },
    ]
}

/// The ids of the seed data differ, so an id names at most one record.
pub proof fn lemma_seed_ids_distinct()
    ensures
        distinct_ids(seed_spec()),
{
    reveal_strlit("draft-neo-tokyo");
    reveal_strlit("draft-solstice");
    assert("draft-neo-tokyo"@.len() != "draft-solstice"@.len());
}

/// Builds the seed data. Every call builds the same records in the same order.
pub fn seed_games() -> (games: Vec<DraftGame>)
    ensures
        games.deep_view() == seed_spec(),
        games.len() == 2,
        distinct_ids(games.deep_view()),
{
    let neo_tokyo = DraftGame {
        id: "draft-neo-tokyo".to_owned(),
        title: "Neon Syndicate Showdown".to_owned(),
        description: "Cyber ninjas draft augmented abilities to control Neo Tokyo.".to_owned(),
        players: vec!["Shin".to_owned(), "Rowan".to_owned(), "Ivy".to_owned()],
    };
    let solstice = DraftGame {
        id: "draft-solstice".to_owned(),
        title: "Solstice Arena".to_owned(),
        description: "Mages bend time shards to outsmart their rivals.".to_owned(),
        players: vec!["Adira".to_owned(), "Luca".to_owned()],
    };
    assert(neo_tokyo.players.deep_view() =~= seq!["Shin"@, "Rowan"@, "Ivy"@]);
    assert(solstice.players.deep_view() =~= seq!["Adira"@, "Luca"@]);
    let games = vec![neo_tokyo, solstice];
    assert(games.deep_view() =~= seed_spec());
    proof {
        lemma_seed_ids_distinct();
    }
    games
}

} // verus!
