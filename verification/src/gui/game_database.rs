//! Records of finished games, searchable by player, opening and result,
//! with per-player statistics.

use vstd::prelude::*;
use crate::collections::TextMap;
use crate::text::{chars_of, contains_seq, contains_str, lowercase, nat_text, push_str, push_u64, to_lowercase};
use crate::xiangqi::{Color, GameResult, Move};

verus! {

/// A finished game.
pub struct GameRecord {
    /// Unique identifier.
    pub id: String,
    /// When the game was played.
    pub timestamp: String,
    /// Red player name.
    pub red_player: String,
    /// Black player name.
    pub black_player: String,
    /// Game result, `None` when unfinished.
    pub result: Option<GameResult>,
    /// All moves played.
    pub moves: Vec<Move>,
    /// Opening name, if identified.
    pub opening: Option<String>,
    /// Number of moves.
    pub move_count: usize,
    /// Duration in seconds.
    pub duration_secs: u64,
    /// Tags and metadata.
    pub tags: TextMap,
}

/// The winner a result names.
pub open spec fn result_winner(r: Option<GameResult>) -> Option<Color> {
    match r {
        Some(GameResult::Win { winner, .. }) => Some(winner),
        _ => None,
    }
}

/// Whether a result is a draw.
pub open spec fn result_is_draw(r: Option<GameResult>) -> bool {
    r matches Some(GameResult::Draw(_))
}

/// Score text of a result: `1-0`, `0-1`, `1/2-1/2` or `*`.
pub open spec fn result_text(r: Option<GameResult>) -> Seq<char> {
    match r {
        Some(GameResult::Win { winner: Color::Red, .. }) => "1-0"@,
        Some(GameResult::Win { winner: Color::Black, .. }) => "0-1"@,
        Some(GameResult::Draw(_)) => "1/2-1/2"@,
        None => "*"@,
    }
}

/// `<red> vs <black> - <result> (<n> moves)`.
pub open spec fn summary_text(red: Seq<char>, black: Seq<char>, r: Option<GameResult>, n: nat) -> Seq<char> {
    red + " vs "@ + black + " - "@ + result_text(r) + " ("@ + nat_text(n) + " moves)"@
}

impl GameRecord {
    /// A record with an unknown timestamp, no opening, no duration and no
    /// tags.
    pub fn new(
        id: String,
        red_player: String,
        black_player: String,
        moves: Vec<Move>,
        result: Option<GameResult>,
    ) -> (g: GameRecord)
        ensures
            g.tags.wf(),
            g.id@ == id@,
            g.timestamp@ == "unknown"@,
            g.red_player@ == red_player@,
            g.black_player@ == black_player@,
            g.result == result,
            g.moves@ == moves@,
            g.opening is None,
            g.move_count == moves@.len(),
            g.duration_secs == 0,
            g.tags@ == Map::<Seq<char>, Seq<char>>::empty(),
    {
        let move_count = moves.len();
        GameRecord {
            id,
            timestamp: "unknown".to_owned(),
            red_player,
            black_player,
            result,
            move_count,
            moves,
            opening: None,
            duration_secs: 0,
            tags: TextMap::new(),
        }
    }

    /// The winner's colour, if any.
    pub fn winner(&self) -> (w: Option<Color>)
        ensures
            w == result_winner(self.result),
    {
        match self.result {
            Some(GameResult::Win { winner, .. }) => Some(winner),
            _ => None,
        }
    }

    /// Whether the game was drawn.
    pub fn is_draw(&self) -> (b: bool)
        ensures
            b == result_is_draw(self.result),
    {
        match self.result {
            Some(GameResult::Draw(_)) => true,
            _ => false,
        }
    }

    /// One-line summary for display (see [`summary_text`]).
    pub fn summary(&self) -> (s: String)
        ensures
            s@ == summary_text(self.red_player@, self.black_player@, self.result, self.move_count as nat),
    {
        let result_str = match self.result {
            Some(GameResult::Win { winner: Color::Red, .. }) => "1-0",
            Some(GameResult::Win { winner: Color::Black, .. }) => "0-1",
            Some(GameResult::Draw(_)) => "1/2-1/2",
            None => "*",
        };
        let mut s = String::new();
        push_str(&mut s, self.red_player.as_str());
        push_str(&mut s, " vs ");
        push_str(&mut s, self.black_player.as_str());
        push_str(&mut s, " - ");
        push_str(&mut s, result_str);
        push_str(&mut s, " (");
        push_u64(&mut s, self.move_count as u64);
        push_str(&mut s, " moves)");
        s
    }

    /// Sets a tag, replacing an earlier value.
    pub fn add_tag(&mut self, key: String, value: String)
        requires
            old(self).tags.wf(),
        ensures
            final(self).tags.wf(),
            final(self).tags@ == old(self).tags@.insert(key@, value@),
    {
        self.tags.insert(key, value);
    }

    /// A tag's value.
    pub fn get_tag(&self, key: &str) -> (r: Option<&String>)
        requires
            self.tags.wf(),
        ensures
            match r {
                Some(v) => self.tags@.contains_key(key@) && self.tags@[key@] == v@,
                None => !self.tags@.contains_key(key@),
            },
    {
        self.tags.get(key)
    }
}

/// Per-player statistics.
#[derive(Debug, Clone, Copy, PartialEq, Eq, Structural)]
pub struct PlayerStats {
    /// Games played as Red.
    pub games_as_red: usize,
    /// Games played as Black.
    pub games_as_black: usize,
    /// Wins.
    pub wins: usize,
    /// Losses.
    pub losses: usize,
    /// Draws.
    pub draws: usize,
}

impl PlayerStats {
    /// All counts zero.
    pub fn zero() -> (s: PlayerStats)
        ensures
            s == (PlayerStats { games_as_red: 0, games_as_black: 0, wins: 0, losses: 0, draws: 0 }),
    {
        PlayerStats { games_as_red: 0, games_as_black: 0, wins: 0, losses: 0, draws: 0 }
    }

    /// Games played.
    pub fn total_games(&self) -> (n: usize)
        requires
            self.games_as_red + self.games_as_black <= usize::MAX,
        ensures
            n == self.games_as_red + self.games_as_black,
    {
        self.games_as_red + self.games_as_black
    }
}

/// Whether a player named `name` (compared lowercased) played a game, and
/// which colour; Red is checked first.
pub open spec fn plays_as(g: GameRecord, name_l: Seq<char>) -> Option<Color> {
    if lowercase(g.red_player@) == name_l {
        Some(Color::Red)
    } else if lowercase(g.black_player@) == name_l {
        Some(Color::Black)
    } else {
        None
    }
}

/// Statistics over the first `n` games for the lowercased name `name_l`.
pub open spec fn stats_over(games: Seq<GameRecord>, name_l: Seq<char>, n: int) -> PlayerStats
    decreases n,
{
    if n <= 0 {
        PlayerStats { games_as_red: 0, games_as_black: 0, wins: 0, losses: 0, draws: 0 }
    } else {
        let s = stats_over(games, name_l, n - 1);
        let g = games[n - 1];
        match plays_as(g, name_l) {
            Some(side) => {
                let s1 = if side == Color::Red {
                    PlayerStats { games_as_red: (s.games_as_red + 1) as usize, ..s }
                } else {
                    PlayerStats { games_as_black: (s.games_as_black + 1) as usize, ..s }
                };
                match result_winner(g.result) {
                    Some(w) => if w == side {
                        PlayerStats { wins: (s1.wins + 1) as usize, ..s1 }
                    } else {
                        PlayerStats { losses: (s1.losses + 1) as usize, ..s1 }
                    },
                    None => if result_is_draw(g.result) {
                        PlayerStats { draws: (s1.draws + 1) as usize, ..s1 }
                    } else {
                        s1
                    },
                }
            },
            None => s,
        }
    }
}

proof fn lemma_stats_bounded(games: Seq<GameRecord>, name_l: Seq<char>, n: int)
    requires
        0 <= n <= games.len(),
        games.len() <= usize::MAX,
    ensures
        ({
            let s = stats_over(games, name_l, n);
            &&& s.games_as_red + s.games_as_black <= n
            &&& s.wins + s.losses + s.draws <= s.games_as_red + s.games_as_black
        }),
    decreases n,
{
    if n > 0 {
        lemma_stats_bounded(games, name_l, n - 1);
    }
}

/// Indices `i < n` of the games a predicate selects, in order.
pub open spec fn select_games(games: Seq<GameRecord>, pred: spec_fn(GameRecord) -> bool, n: int) -> Seq<usize>
    decreases n,
{
    if n <= 0 {
        seq![]
    } else if pred(games[n - 1]) {
        select_games(games, pred, n - 1).push((n - 1) as usize)
    } else {
        select_games(games, pred, n - 1)
    }
}

/// Whether a player name contains `needle_l` (both compared lowercased).
pub open spec fn player_matches(g: GameRecord, needle_l: Seq<char>) -> bool {
    contains_seq(lowercase(g.red_player@), needle_l) || contains_seq(lowercase(g.black_player@), needle_l)
}

/// Whether the opening name contains `needle_l` (compared lowercased).
pub open spec fn opening_matches(g: GameRecord, needle_l: Seq<char>) -> bool {
    match g.opening {
        Some(o) => contains_seq(lowercase(o@), needle_l),
        None => false,
    }
}

/// Saved games, the current search filter and the game selected for
/// viewing.
pub struct GameDatabase {
    /// All saved games.
    pub games: Vec<GameRecord>,
    /// Current search filter.
    pub search_filter: Option<String>,
    /// Selected game index.
    pub selected_index: Option<usize>,
}

impl Default for GameDatabase {
    fn default() -> (db: GameDatabase)
        ensures
            db.games@.len() == 0,
            db.search_filter is None,
            db.selected_index is None,
    {
        GameDatabase { games: Vec::new(), search_filter: None, selected_index: None }
    }
}

impl GameDatabase {
    /// Appends a game.
    pub fn add_game(&mut self, game: GameRecord)
        ensures
            final(self).games@ == old(self).games@.push(game),
            final(self).search_filter == old(self).search_filter,
            final(self).selected_index == old(self).selected_index,
    {
        self.games.push(game);
    }

    /// Removes the game at `index`, if there is one.
    pub fn remove_game(&mut self, index: usize) -> (r: Option<GameRecord>)
        ensures
            index < old(self).games@.len() ==> r == Some(old(self).games@[index as int])
                && final(self).games@ == old(self).games@.remove(index as int),
            index >= old(self).games@.len() ==> r is None && final(self).games@ == old(self).games@,
            final(self).search_filter == old(self).search_filter,
            final(self).selected_index == old(self).selected_index,
    {
        if index < self.games.len() {
            Some(self.games.remove(index))
        } else {
            None
        }
    }

    /// The game at `index`.
    pub fn get_game(&self, index: usize) -> (r: Option<&GameRecord>)
        ensures
            index < self.games@.len() ==> r == Some(&self.games@[index as int]),
            index >= self.games@.len() ==> r is None,
    {
        if index < self.games.len() {
            Some(&self.games[index])
        } else {
            None
        }
    }

    /// Number of games.
    pub fn game_count(&self) -> (n: usize)
        ensures
            n == self.games@.len(),
    {
        self.games.len()
    }

    /// Indices of the games where either player's name contains
    /// `player_name`, ignoring case.
    pub fn search_by_player(&self, player_name: &str) -> (r: Vec<usize>)
        ensures
            r@ == select_games(
                self.games@,
                |g: GameRecord| player_matches(g, lowercase(player_name@)),
                self.games@.len() as int,
            ),
    {
        let needle = to_lowercase(player_name);
        let ghost pred = |g: GameRecord| player_matches(g, lowercase(player_name@));
        let mut r: Vec<usize> = Vec::new();
        let mut i: usize = 0;
        while i < self.games.len()
            invariant
                i <= self.games@.len(),
                needle@ == lowercase(player_name@),
                pred == (|g: GameRecord| player_matches(g, lowercase(player_name@))),
                r@ == select_games(self.games@, pred, i as int),
            decreases self.games@.len() - i,
        {
            let g = &self.games[i];
            let red = chars_of(to_lowercase(g.red_player.as_str()).as_str());
            let black = chars_of(to_lowercase(g.black_player.as_str()).as_str());
            if contains_str(red.as_slice(), needle.as_str()) || contains_str(black.as_slice(), needle.as_str()) {
                r.push(i);
            }
            i = i + 1;
        }
        r
    }

    /// Indices of the games whose opening name contains `opening_name`,
    /// ignoring case.
    pub fn search_by_opening(&self, opening_name: &str) -> (r: Vec<usize>)
        ensures
            r@ == select_games(
                self.games@,
                |g: GameRecord| opening_matches(g, lowercase(opening_name@)),
                self.games@.len() as int,
            ),
    {
        let needle = to_lowercase(opening_name);
        let ghost pred = |g: GameRecord| opening_matches(g, lowercase(opening_name@));
        let mut r: Vec<usize> = Vec::new();
        let mut i: usize = 0;
        while i < self.games.len()
            invariant
                i <= self.games@.len(),
                needle@ == lowercase(opening_name@),
                pred == (|g: GameRecord| opening_matches(g, lowercase(opening_name@))),
                r@ == select_games(self.games@, pred, i as int),
            decreases self.games@.len() - i,
        {
            let g = &self.games[i];
            let hit = match &g.opening {
                Some(o) => {
                    let lo = chars_of(to_lowercase(o.as_str()).as_str());
                    contains_str(lo.as_slice(), needle.as_str())
                },
                None => false,
            };
            if hit {
                r.push(i);
            }
            i = i + 1;
        }
        r
    }

    /// Indices of the games whose winner is `winner` (`None`: no winner).
    pub fn get_games_by_result(&self, winner: Option<Color>) -> (r: Vec<usize>)
        ensures
            r@ == select_games(
                self.games@,
                |g: GameRecord| result_winner(g.result) == winner,
                self.games@.len() as int,
            ),
    {
        let ghost pred = |g: GameRecord| result_winner(g.result) == winner;
        let mut r: Vec<usize> = Vec::new();
        let mut i: usize = 0;
        while i < self.games.len()
            invariant
                i <= self.games@.len(),
                pred == (|g: GameRecord| result_winner(g.result) == winner),
                r@ == select_games(self.games@, pred, i as int),
            decreases self.games@.len() - i,
        {
            let w = self.games[i].winner();
            let same = match (w, winner) {
                (Some(Color::Red), Some(Color::Red)) => true,
                (Some(Color::Black), Some(Color::Black)) => true,
                (None, None) => true,
                _ => false,
            };
            if same {
                r.push(i);
            }
            i = i + 1;
        }
        r
    }

    /// Indices of the drawn games.
    pub fn get_draws(&self) -> (r: Vec<usize>)
        ensures
            r@ == select_games(self.games@, |g: GameRecord| result_is_draw(g.result), self.games@.len() as int),
    {
        let ghost pred = |g: GameRecord| result_is_draw(g.result);
        let mut r: Vec<usize> = Vec::new();
        let mut i: usize = 0;
        while i < self.games.len()
            invariant
                i <= self.games@.len(),
                pred == (|g: GameRecord| result_is_draw(g.result)),
                r@ == select_games(self.games@, pred, i as int),
            decreases self.games@.len() - i,
        {
            if self.games[i].is_draw() {
                r.push(i);
            }
            i = i + 1;
        }
        r
    }

    /// Statistics of the player named `player_name` (compared ignoring
    /// case): games by colour, wins, losses and draws.
    pub fn player_stats(&self, player_name: &str) -> (s: PlayerStats)
        ensures
            s == stats_over(self.games@, lowercase(player_name@), self.games@.len() as int),
    {
        let name = to_lowercase(player_name);
        let ghost name_l = lowercase(player_name@);
        let mut stats = PlayerStats::zero();
        let mut i: usize = 0;
        while i < self.games.len()
            invariant
                i <= self.games@.len(),
                name@ == name_l,
                name_l == lowercase(player_name@),
                stats == stats_over(self.games@, name_l, i as int),
            decreases self.games@.len() - i,
        {
            proof {
                lemma_stats_bounded(self.games@, name_l, i as int);
            }
            let g = &self.games[i];
            let red = to_lowercase(g.red_player.as_str());
            let black = to_lowercase(g.black_player.as_str());
            let side = if red == name {
                Some(Color::Red)
            } else if black == name {
                Some(Color::Black)
            } else {
                None
            };
            match side {
                Some(side) => {
                    match side {
                        Color::Red => {
                            stats.games_as_red = stats.games_as_red + 1;
                        },
                        Color::Black => {
                            stats.games_as_black = stats.games_as_black + 1;
                        },
                    }
                    match g.winner() {
                        Some(w) => {
                            if (w == Color::Red) == (side == Color::Red) {
                                stats.wins = stats.wins + 1;
                            } else {
                                stats.losses = stats.losses + 1;
                            }
                        },
                        None => {
                            if g.is_draw() {
                                stats.draws = stats.draws + 1;
                            }
                        },
                    }
                },
                None => {},
            }
            i = i + 1;
        }
        stats
    }

    /// Removes every game and the selection.
    pub fn clear(&mut self)
        ensures
            final(self).games@.len() == 0,
            final(self).selected_index is None,
            final(self).search_filter == old(self).search_filter,
    {
        self.games.clear();
        self.selected_index = None;
    }

    /// Selects the game at `index` when there is one.
    pub fn select_game(&mut self, index: usize)
        ensures
            final(self).selected_index == if index < old(self).games@.len() {
                Some(index)
            } else {
                old(self).selected_index
            },
            final(self).games@ == old(self).games@,
            final(self).search_filter == old(self).search_filter,
    {
        if index < self.games.len() {
            self.selected_index = Some(index);
        }
    }

    /// Clears the selection.
    pub fn clear_selection(&mut self)
        ensures
            final(self).selected_index is None,
            final(self).games@ == old(self).games@,
            final(self).search_filter == old(self).search_filter,
    {
        self.selected_index = None;
    }

    /// The selected game, if the selection names one.
    pub fn selected_game(&self) -> (r: Option<&GameRecord>)
        ensures
            r == match self.selected_index {
                Some(i) => if i < self.games@.len() {
                    Some(&self.games@[i as int])
                } else {
                    None
                },
                None => None,
            },
    {
        match self.selected_index {
            Some(i) => self.get_game(i),
            None => None,
        }
    }
}

} // verus!
