//! Smaller panels: the game browser, named collections of games, the
//! coordinate display style and the automatic board flip settings.

use vstd::prelude::*;
use crate::collections::text_eq;
use crate::text::{chars_of, contains_seq, contains_str};

verus! {

/// A game as the browser lists it.
pub struct GameRecord {
    pub id: u32,
    pub date: String,
    /// Red player.
    pub white: String,
    /// Black player.
    pub black: String,
    pub result: String,
    pub moves: Vec<String>,
    pub opening: String,
}

/// The game browser.
pub struct GameDatabaseBrowser {
    pub visible: bool,
    pub games: Vec<GameRecord>,
    pub selected: Option<usize>,
    /// The last search.
    pub search_query: String,
}

/// Whether a game matches a browser query: in a player, the opening or
/// the result.
pub open spec fn browser_match(g: GameRecord, q: Seq<char>) -> bool {
    contains_seq(g.white@, q) || contains_seq(g.black@, q) || contains_seq(g.opening@, q) || contains_seq(
        g.result@,
        q,
    )
}

/// Indices of the first `n` games matching `q`.
pub open spec fn browser_hits(gs: Seq<GameRecord>, q: Seq<char>, n: int) -> Seq<usize>
    decreases n,
{
    if n <= 0 {
        seq![]
    } else if browser_match(gs[n - 1], q) {
        browser_hits(gs, q, n - 1).push((n - 1) as usize)
    } else {
        browser_hits(gs, q, n - 1)
    }
}

impl Default for GameDatabaseBrowser {
    fn default() -> (b: GameDatabaseBrowser)
        ensures
            !b.visible,
            b.games@.len() == 0,
            b.selected is None,
            b.search_query@.len() == 0,
    {
        GameDatabaseBrowser { visible: false, games: Vec::new(), selected: None, search_query: String::new() }
    }
}

impl GameDatabaseBrowser {
    /// Appends a game.
    pub fn add_game(&mut self, game: GameRecord)
        ensures
            final(self).games@ == old(self).games@.push(game),
            final(self).selected == old(self).selected,
    {
        self.games.push(game);
    }

    /// Selects the game at `idx` when there is one.
    pub fn select_game(&mut self, idx: usize)
        ensures
            final(self).selected == if idx < old(self).games@.len() {
                Some(idx)
            } else {
                old(self).selected
            },
            final(self).games@ == old(self).games@,
    {
        if idx < self.games.len() {
            self.selected = Some(idx);
        }
    }

    /// The selected game.
    pub fn selected_game(&self) -> (r: Option<&GameRecord>)
        ensures
            r == match self.selected {
                Some(i) => if i < self.games@.len() {
                    Some(&self.games@[i as int])
                } else {
                    None
                },
                None => None,
            },
    {
        match self.selected {
            Some(i) => if i < self.games.len() {
                Some(&self.games[i])
            } else {
                None
            },
            None => None,
        }
    }

    /// Remembers `query` and returns the indices of the games where it
    /// occurs in a player, the opening or the result.
    pub fn search(&mut self, query: &str) -> (r: Vec<usize>)
        ensures
            final(self).search_query@ == query@,
            final(self).games@ == old(self).games@,
            r@ == browser_hits(old(self).games@, query@, old(self).games@.len() as int),
    {
        self.search_query = query.to_owned();
        let mut r: Vec<usize> = Vec::new();
        let mut i: usize = 0;
        while i < self.games.len()
            invariant
                i <= self.games@.len(),
                self.games@ == old(self).games@,
                r@ == browser_hits(self.games@, query@, i as int),
            decreases self.games@.len() - i,
        {
            let g = &self.games[i];
            let w = chars_of(g.white.as_str());
            let b = chars_of(g.black.as_str());
            let o = chars_of(g.opening.as_str());
            let res = chars_of(g.result.as_str());
            if contains_str(w.as_slice(), query) || contains_str(b.as_slice(), query) || contains_str(
                o.as_slice(),
                query,
            ) || contains_str(res.as_slice(), query) {
                r.push(i);
            }
            i = i + 1;
        }
        r
    }

    /// Number of games.
    pub fn game_count(&self) -> (n: usize)
        ensures
            n == self.games@.len(),
    {
        self.games.len()
    }
}

/// A named collection of games.
pub struct GameCollection {
    pub name: String,
    pub description: String,
    pub game_ids: Vec<u32>,
    pub tags: Vec<String>,
}

/// Collections by name.
pub struct GameCollectionManager {
    /// The collections, each name once, in creation order.
    pub collections: Vec<GameCollection>,
    pub visible: bool,
}

impl GameCollectionManager {
    /// Names of the collections, in creation order.
    pub open spec fn names(&self) -> Seq<Seq<char>> {
        Seq::new(self.collections@.len(), |i: int| self.collections@[i].name@)
    }

    /// No name is used twice.
    pub open spec fn wf(&self) -> bool {
        self.names().no_duplicates()
    }

    fn position(&self, name: &str) -> (r: Option<usize>)
        ensures
            match r {
                Some(i) => i < self.collections@.len() && self.names()[i as int] == name@,
                None => !self.names().contains(name@),
            },
    {
        let mut i: usize = 0;
        while i < self.collections.len()
            invariant
                i <= self.collections@.len(),
                forall|j: int| 0 <= j < i ==> self.names()[j] != name@,
            decreases self.collections@.len() - i,
        {
            if text_eq(self.collections[i].name.as_str(), name) {
                return Some(i);
            }
            i = i + 1;
        }
        None
    }
}

impl Default for GameCollectionManager {
    fn default() -> (m: GameCollectionManager)
        ensures
            m.wf(),
            m.collections@.len() == 0,
            !m.visible,
    {
        GameCollectionManager { collections: Vec::new(), visible: false }
    }
}

/// Game ids after dropping `id`.
pub open spec fn without_id(ids: Seq<u32>, id: u32) -> Seq<u32> {
    ids.filter(|x: u32| x != id)
}

impl GameCollectionManager {
    /// Creates an empty collection, replacing one of the same name.
    pub fn create_collection(&mut self, name: &str, description: &str)
        requires
            old(self).wf(),
        ensures
            final(self).wf(),
            final(self).names().to_set() == old(self).names().to_set().insert(name@),
            exists|i: int| 0 <= i < final(self).collections@.len() && #[trigger] final(self).names()[i] == name@
                && final(self).collections@[i].description@ == description@ && final(self).collections@[i].game_ids@.len()
                == 0 && final(self).collections@[i].tags@.len() == 0,
            final(self).visible == old(self).visible,
    {
        let coll = GameCollection {
            name: name.to_owned(),
            description: description.to_owned(),
            game_ids: Vec::new(),
            tags: Vec::new(),
        };
        match self.position(name) {
            Some(i) => {
                let ghost before = self.names();
                self.collections.set(i, coll);
                assert(self.names() =~= before);
                assert(self.names().to_set() =~= old(self).names().to_set().insert(name@)) by {
                    assert(before[i as int] == name@);
                }
                assert(self.names()[i as int] == name@);
            },
            None => {
                let ghost before = self.names();
                self.collections.push(coll);
                assert(self.names() =~= before.push(name@));
                assert(self.names().to_set() =~= old(self).names().to_set().insert(name@)) by {
                    assert forall|k: Seq<char>| #[trigger] self.names().contains(k) implies before.contains(k) || k
                        == name@ by {
                        let j = choose|j: int| 0 <= j < self.names().len() && self.names()[j] == k;
                        if j < before.len() {
                            assert(before[j] == k);
                        }
                    }
                    assert forall|k: Seq<char>| before.contains(k) implies #[trigger] self.names().contains(k) by {
                        let j = choose|j: int| 0 <= j < before.len() && before[j] == k;
                        assert(self.names()[j] == k);
                    }
                    assert(self.names()[before.len() as int] == name@);
                }
                assert(self.names()[before.len() as int] == name@);
            },
        }
    }

    /// Adds a game to a collection unless it is already there; nothing
    /// happens for an unknown collection.
    pub fn add_game_to_collection(&mut self, collection: &str, game_id: u32)
        requires
            old(self).wf(),
        ensures
            final(self).wf(),
            final(self).names() == old(self).names(),
            forall|i: int| 0 <= i < old(self).collections@.len() ==> (#[trigger] final(self).collections@[i]).game_ids@
                == if old(self).names()[i] == collection@ && !old(self).collections@[i].game_ids@.contains(game_id) {
                    old(self).collections@[i].game_ids@.push(game_id)
                } else {
                    old(self).collections@[i].game_ids@
                },
    {
        match self.position(collection) {
            Some(i) => {
                let ghost before = self.names();
                let mut present = false;
                let mut k: usize = 0;
                while k < self.collections[i].game_ids.len()
                    invariant
                        i < self.collections@.len(),
                        self.collections@ == old(self).collections@,
                        k <= self.collections@[i as int].game_ids@.len(),
                        present == exists|j: int| 0 <= j < k && self.collections@[i as int].game_ids@[j] == game_id,
                    decreases self.collections@[i as int].game_ids@.len() - k,
                {
                    if self.collections[i].game_ids[k] == game_id {
                        present = true;
                    }
                    k = k + 1;
                }
                if !present {
                    self.collections[i].game_ids.push(game_id);
                }
                assert(self.names() =~= before);
                assert forall|j: int| 0 <= j < old(self).collections@.len() && j != i implies (#[trigger] self.collections@[j]).game_ids@
                    == old(self).collections@[j].game_ids@ by {
                }
                proof {
                    assert(old(self).names()[i as int] == collection@);
                    assert forall|j: int| 0 <= j < old(self).collections@.len() && j != i implies old(self).names()[j] != collection@ by {
                        assert(old(self).names().no_duplicates());
                    }
                }
            },
            None => {},
        }
    }

    /// Removes a game from a collection.
    pub fn remove_game_from_collection(&mut self, collection: &str, game_id: u32)
        requires
            old(self).wf(),
        ensures
            final(self).wf(),
            final(self).names() == old(self).names(),
            forall|i: int| 0 <= i < old(self).collections@.len() ==> (#[trigger] final(self).collections@[i]).game_ids@
                == if old(self).names()[i] == collection@ {
                    without_id(old(self).collections@[i].game_ids@, game_id)
                } else {
                    old(self).collections@[i].game_ids@
                },
    {
        match self.position(collection) {
            Some(i) => {
                let ghost before = self.names();
                let mut kept: Vec<u32> = Vec::new();
                let mut k: usize = 0;
                while k < self.collections[i].game_ids.len()
                    invariant
                        i < self.collections@.len(),
                        self.collections@ == old(self).collections@,
                        k <= self.collections@[i as int].game_ids@.len(),
                        kept@ == without_id(self.collections@[i as int].game_ids@.take(k as int), game_id),
                    decreases self.collections@[i as int].game_ids@.len() - k,
                {
                    let x = self.collections[i].game_ids[k];
                    proof {
                        let ids = self.collections@[i as int].game_ids@;
                        assert(ids.take(k + 1).drop_last() =~= ids.take(k as int));
                        reveal(Seq::filter);
                    }
                    if x != game_id {
                        kept.push(x);
                    }
                    k = k + 1;
                }
                proof {
                    let ids = self.collections@[i as int].game_ids@;
                    assert(ids.take(ids.len() as int) =~= ids);
                }
                self.collections[i].game_ids = kept;
                assert(self.names() =~= before);
                proof {
                    assert forall|j: int| 0 <= j < old(self).collections@.len() && j != i implies old(self).names()[j] != collection@ by {
                        assert(old(self).names().no_duplicates());
                    }
                }
            },
            None => {},
        }
    }

    /// Number of collections.
    pub fn collection_count(&self) -> (n: usize)
        requires
            self.wf(),
        ensures
            n == self.names().to_set().len(),
    {
        proof {
            self.names().unique_seq_to_set();
        }
        self.collections.len()
    }

    /// Names of the collections, in creation order.
    pub fn collection_names(&self) -> (r: Vec<&str>)
        ensures
            r@.len() == self.names().len(),
            forall|i: int| 0 <= i < r@.len() ==> (#[trigger] r@[i])@ == self.names()[i],
    {
        let mut r: Vec<&str> = Vec::new();
        let mut i: usize = 0;
        while i < self.collections.len()
            invariant
                i <= self.collections@.len(),
                r@.len() == i,
                forall|j: int| 0 <= j < i ==> (#[trigger] r@[j])@ == self.names()[j],
            decreases self.collections@.len() - i,
        {
            r.push(self.collections[i].name.as_str());
            i = i + 1;
        }
        r
    }
}

/// Which coordinates are labelled.
#[derive(Debug, Clone, Copy, PartialEq, Eq, Structural)]
pub enum CoordinateStyle {
    Files,
    Ranks,
    Both,
    Neither,
}

impl CoordinateStyle {
    /// Chinese label.
    pub fn label_cn(&self) -> (s: &'static str)
        ensures
            s@ == match *self {
                CoordinateStyle::Files => "文件"@,
                CoordinateStyle::Ranks => "横线"@,
                CoordinateStyle::Both => "全部"@,
                CoordinateStyle::Neither => "无"@,
            },
    {
        match self {
            CoordinateStyle::Files => "文件",
            CoordinateStyle::Ranks => "横线",
            CoordinateStyle::Both => "全部",
            CoordinateStyle::Neither => "无",
        }
    }

    /// The next style in the cycle.
    pub fn next(&self) -> (c: CoordinateStyle)
        ensures
            c == match *self {
                CoordinateStyle::Files => CoordinateStyle::Ranks,
                CoordinateStyle::Ranks => CoordinateStyle::Both,
                CoordinateStyle::Both => CoordinateStyle::Neither,
                CoordinateStyle::Neither => CoordinateStyle::Files,
            },
    {
        match self {
            CoordinateStyle::Files => CoordinateStyle::Ranks,
            CoordinateStyle::Ranks => CoordinateStyle::Both,
            CoordinateStyle::Both => CoordinateStyle::Neither,
            CoordinateStyle::Neither => CoordinateStyle::Files,
        }
    }
}

/// Coordinate display settings.
#[derive(Debug, Clone, Copy, PartialEq, Eq, Structural)]
pub struct BoardCoordinateDisplay {
    pub style: CoordinateStyle,
    pub show_labels: bool,
}

impl Default for BoardCoordinateDisplay {
    fn default() -> (d: BoardCoordinateDisplay)
        ensures
            d == (BoardCoordinateDisplay { style: CoordinateStyle::Both, show_labels: true }),
    {
        BoardCoordinateDisplay { style: CoordinateStyle::Both, show_labels: true }
    }
}

/// When the board turns to face the player.
#[derive(Debug, Clone, Copy, PartialEq, Eq, Structural)]
pub struct AutoFlip {
    pub enabled: bool,
    pub flip_on_connect: bool,
    pub flip_on_turn: bool,
}

impl Default for AutoFlip {
    fn default() -> (a: AutoFlip)
        ensures
            a == (AutoFlip { enabled: true, flip_on_connect: true, flip_on_turn: false }),
    {
        AutoFlip { enabled: true, flip_on_connect: true, flip_on_turn: false }
    }
}

/// The last move's two points, for highlighting.
#[derive(Debug, Clone, Copy)]
pub struct LastMoveHighlight {
    pub enabled: bool,
    pub from_square: Option<(u8, u8)>,
    pub to_square: Option<(u8, u8)>,
}

impl Default for LastMoveHighlight {
    fn default() -> (h: LastMoveHighlight)
        ensures
            h == (LastMoveHighlight { enabled: true, from_square: None, to_square: None }),
    {
        LastMoveHighlight { enabled: true, from_square: None, to_square: None }
    }
}

impl LastMoveHighlight {
    /// Highlights a move.
    pub fn highlight(&mut self, from: (u8, u8), to: (u8, u8))
        ensures
            final(self).from_square == Some(from),
            final(self).to_square == Some(to),
            final(self).enabled == old(self).enabled,
    {
        self.from_square = Some(from);
        self.to_square = Some(to);
    }

    /// Clears the highlight.
    pub fn clear(&mut self)
        ensures
            final(self).from_square is None,
            final(self).to_square is None,
            final(self).enabled == old(self).enabled,
    {
        self.from_square = None;
        self.to_square = None;
    }
}

} // verus!
