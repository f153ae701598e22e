//! The records that the service holds, and their mathematical views.

use vstd::prelude::*;

verus! {

/// One draft game: a display record with its participants.
#[derive(Debug, PartialEq, Eq)]
pub struct DraftGame {
    pub id: String,
    pub title: String,
    pub description: String,
    pub players: Vec<String>,
}

/// What a [`DraftGame`] holds, as sequences of characters.
pub ghost struct DraftGameView {
    pub id: Seq<char>,
    pub title: Seq<char>,
    pub description: Seq<char>,
    pub players: Seq<Seq<char>>,
}

impl View for DraftGame {
    type V = DraftGameView;

    open spec fn view(&self) -> DraftGameView {
        DraftGameView {
            id: self.id@,
            title: self.title@,
            description: self.description@,
            players: self.players.deep_view(),
        }
    }
}

impl DeepView for DraftGame {
    type V = DraftGameView;

    open spec fn deep_view(&self) -> DraftGameView {
        self@
    }
}

/// No two records of `games` share an id.
pub open spec fn distinct_ids(games: Seq<DraftGameView>) -> bool {
    forall|i: int, j: int| 0 <= i < j < games.len() ==> games[i].id != games[j].id
}

impl Clone for DraftGame {
    /// A copy that holds the same text, field by field.
    fn clone(&self) -> (copy: DraftGame)
        ensures
            copy@ == self@,
    {
        let mut players: Vec<String> = Vec::new();
        let mut i: usize = 0;
        while i < self.players.len()
            invariant
                i <= self.players.len(),
                players.len() == i,
                forall|k: int| 0 <= k < i ==> players[k]@ == self.players[k]@,
            decreases self.players.len() - i,
        {
            players.push(self.players[i].clone());
            i += 1;
        }
        assert(players.deep_view() =~= self.players.deep_view());
        DraftGame {
            id: self.id.clone(),
            title: self.title.clone(),
            description: self.description.clone(),
            players,
        }
    }
}

} // verus!
