pub use crate::entry::LeaderboardEntry;
pub use crate::error::Error;
pub use crate::leaderboard::Leaderboard;
pub use crate::player::Player;
pub use crate::{
    get_leaderboard, leaderboard_page_outcome, leaderboard_page_url, online_players_outcome,
    online_players_url, player_outcome, player_url, registered_count_outcome,
    registered_count_url, top_players_outcome, top_players_url, LeaderboardPage, OnlineList,
};
