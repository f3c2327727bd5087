//! Whose turn it is: recomputed from every snapshot, with no memory of the
//! snapshots before it.

use vstd::prelude::*;
use crate::models::{text_of, ClientState, ClientStateView, GameState, GameStateView};

verus! {

/// The turn state that a snapshot puts the player `my_id` in. A won session
/// is over, and its last mover is the winner; otherwise the player who moved
/// last waits for the other one, and everybody else, also before the first
/// move, is asked to move.
pub open spec fn turn_state(
    winner: bool,
    last_user_id: Option<Seq<char>>,
    my_id: Seq<char>,
) -> ClientStateView {
    if winner {
        ClientStateView::GameOver(last_user_id.unwrap())
    } else if last_user_id == Some(my_id) {
        ClientStateView::WaitingForOtherUserTurn
    } else {
        ClientStateView::WaitingForThisUserTurn
    }
}

impl GameStateView {
    /// A won session names its last mover, who is the winner.
    pub open spec fn names_the_winner(self) -> bool {
        self.winner ==> self.last_user_id is Some
    }

    /// The turn state that this snapshot puts the player `my_id` in.
    pub open spec fn client_state(self, my_id: Seq<char>) -> ClientStateView {
        turn_state(self.winner, self.last_user_id, my_id)
    }
}

impl GameState {
    /// Whether the snapshot, if it is that of a won session, names the last
    /// mover.
    pub fn names_the_winner(&self) -> (named: bool)
        ensures
            named == self@.names_the_winner(),
    {
        !self.winner || self.last_user_id.is_some()
    }

    /// The turn state that this snapshot puts the player `this_user_id` in.
    /// A won session must name its last mover.
    pub fn client_state(&self, this_user_id: &String) -> (state: ClientState)
        requires
            self@.names_the_winner(),
        ensures
            state@ == turn_state(self.winner, text_of(self.last_user_id), this_user_id@),
    {
        match &self.last_user_id {
            Some(last_user_id) => {
                if self.winner {
                    ClientState::GameOver(last_user_id.clone())
                } else if *last_user_id == *this_user_id {
                    ClientState::WaitingForOtherUserTurn
                } else {
                    ClientState::WaitingForThisUserTurn
                }
            },
            None => ClientState::WaitingForThisUserTurn,
        }
    }
}

/// The turn state is one of three, decided by the winner flag first and by
/// who moved last second.
pub proof fn lemma_turn_table(winner: bool, last_user_id: Option<Seq<char>>, my_id: Seq<char>)
    ensures
        winner && last_user_id is Some ==> turn_state(winner, last_user_id, my_id)
            == ClientStateView::GameOver(last_user_id->Some_0),
        !winner && last_user_id == Some(my_id) ==> turn_state(winner, last_user_id, my_id)
            == ClientStateView::WaitingForOtherUserTurn,
        !winner && last_user_id is Some && last_user_id->Some_0 != my_id ==> turn_state(
            winner,
            last_user_id,
            my_id,
        ) == ClientStateView::WaitingForThisUserTurn,
        !winner && last_user_id is None ==> turn_state(winner, last_user_id, my_id)
            == ClientStateView::WaitingForThisUserTurn,
{
}

} // verus!
