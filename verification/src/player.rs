use crate::text::{spec_digits, u64_to_string};
use vstd::prelude::*;

verus! {

/// A single player, as the per-username endpoint reports it. Richer than a
/// leaderboard entry and never paginated. The registration timestamp and the
/// seconds-played figure are kept exactly as the body spells them, so no
/// precision is lost and nothing outside the library has to be believed.
#[derive(Debug)]
pub struct Player {
    pub rank: u64,
    pub registered_at: String,
    pub username: String,
    pub time_played: String,
    pub permissions: u8,
    pub lifetime_experience: u64,
}

/// The mathematical content of a `Player`.
pub struct PlayerModel {
    pub rank: u64,
    pub registered_at: Seq<char>,
    pub username: Seq<char>,
    pub time_played: Seq<char>,
    pub permissions: u8,
    pub lifetime_experience: u64,
}

impl View for Player {
    type V = PlayerModel;

    open spec fn view(&self) -> PlayerModel {
        PlayerModel {
            rank: self.rank,
            registered_at: self.registered_at@,
            username: self.username@,
            time_played: self.time_played@,
            permissions: self.permissions,
            lifetime_experience: self.lifetime_experience,
        }
    }
}

impl Clone for Player {
    fn clone(&self) -> (r: Self)
        ensures
            r@ == self@,
    {
        Player {
            rank: self.rank,
            registered_at: self.registered_at.clone(),
            username: self.username.clone(),
            time_played: self.time_played.clone(),
            permissions: self.permissions,
            lifetime_experience: self.lifetime_experience,
        }
    }
}

/// The multi-line rendering of a player record.
pub open spec fn spec_player_display(m: PlayerModel) -> Seq<char> {
    "Username: "@ + m.username + "\nExperience"@ + spec_digits(m.lifetime_experience as nat)
        + " ("@ + spec_digits(m.rank as nat) + ")\nRegistered: "@ + m.registered_at
        + ", Time Played: "@ + m.time_played + ", Permission Rank: "@ + spec_digits(
        m.permissions as nat,
    )
}

impl Player {
    /// Renders the player's username, experience, rank, registration time,
    /// time played and permission rank on three lines.
    pub fn display_string(&self) -> (r: String)
        ensures
            r@ == spec_player_display(self@),
    {
        let mut s = "Username: ".to_owned();
        s.append(self.username.as_str());
        s.append("\nExperience");
        let experience = u64_to_string(self.lifetime_experience);
        s.append(experience.as_str());
        s.append(" (");
        let rank = u64_to_string(self.rank);
        s.append(rank.as_str());
        s.append(")\nRegistered: ");
        s.append(self.registered_at.as_str());
        s.append(", Time Played: ");
        s.append(self.time_played.as_str());
        s.append(", Permission Rank: ");
        let permissions = u64_to_string(self.permissions as u64);
        s.append(permissions.as_str());
        proof {
            assert(s@ =~= spec_player_display(self@));
        }
        s
    }
}

} // verus!
