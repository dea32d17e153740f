//! Bookmarks and comments attached to moves of a game, and the annotated
//! export of a game with its comments.

use vstd::prelude::*;
use crate::text::{contains_seq, contains_str, chars_of, nat_text, push_char, push_str, push_u64};
use crate::xiangqi::Move;

verus! {

/// A bookmarked position.
pub struct Bookmark {
    /// Index of the move the bookmark follows.
    pub move_idx: usize,
    /// Label.
    pub label: String,
    /// Position.
    pub fen: String,
    /// When it was made, in seconds since the Unix epoch.
    pub timestamp: u64,
}

/// Bookmarks of the current game.
pub struct GameBookmarks {
    pub bookmarks: Vec<Bookmark>,
    /// Whether the bookmark panel is open.
    pub active: bool,
}

impl Default for GameBookmarks {
    fn default() -> (b: GameBookmarks)
        ensures
            b.bookmarks@.len() == 0,
            !b.active,
    {
        GameBookmarks { bookmarks: Vec::new(), active: false }
    }
}

/// Indices of the first `n` bookmarks whose label contains `q`.
pub open spec fn labels_matching(bs: Seq<Bookmark>, q: Seq<char>, n: int) -> Seq<usize>
    decreases n,
{
    if n <= 0 {
        seq![]
    } else if contains_seq(bs[n - 1].label@, q) {
        labels_matching(bs, q, n - 1).push((n - 1) as usize)
    } else {
        labels_matching(bs, q, n - 1)
    }
}

impl GameBookmarks {
    /// Adds a bookmark made at `timestamp`.
    pub fn add(&mut self, move_idx: usize, label: String, fen: String, timestamp: u64)
        ensures
            final(self).bookmarks@.len() == old(self).bookmarks@.len() + 1,
            forall|i: int| 0 <= i < old(self).bookmarks@.len() ==> final(self).bookmarks@[i] == old(
                self,
            ).bookmarks@[i],
            ({
                let b = final(self).bookmarks@.last();
                b.move_idx == move_idx && b.label@ == label@ && b.fen@ == fen@ && b.timestamp == timestamp
            }),
            final(self).active == old(self).active,
    {
        self.bookmarks.push(Bookmark { move_idx, label, fen, timestamp });
    }

    /// Removes the bookmark at `idx`, if there is one.
    pub fn remove(&mut self, idx: usize)
        ensures
            final(self).bookmarks@ == if idx < old(self).bookmarks@.len() {
                old(self).bookmarks@.remove(idx as int)
            } else {
                old(self).bookmarks@
            },
            final(self).active == old(self).active,
    {
        if idx < self.bookmarks.len() {
            self.bookmarks.remove(idx);
        }
    }

    /// Number of bookmarks.
    pub fn count(&self) -> (n: usize)
        ensures
            n == self.bookmarks@.len(),
    {
        self.bookmarks.len()
    }

    /// Removes every bookmark.
    pub fn clear(&mut self)
        ensures
            final(self).bookmarks@.len() == 0,
            final(self).active == old(self).active,
    {
        self.bookmarks.clear();
    }

    /// Indices of the bookmarks whose label contains `query`.
    pub fn find_by_label(&self, query: &str) -> (r: Vec<usize>)
        ensures
            r@ == labels_matching(self.bookmarks@, query@, self.bookmarks@.len() as int),
    {
        let mut r: Vec<usize> = Vec::new();
        let mut i: usize = 0;
        while i < self.bookmarks.len()
            invariant
                i <= self.bookmarks@.len(),
                r@ == labels_matching(self.bookmarks@, query@, i as int),
            decreases self.bookmarks@.len() - i,
        {
            let label = chars_of(self.bookmarks[i].label.as_str());
            if contains_str(label.as_slice(), query) {
                r.push(i);
            }
            i = i + 1;
        }
        r
    }
}

/// `第<n>步`: the label of a bookmark after move index `idx` (1-based).
pub open spec fn bookmark_label_text(idx: nat) -> Seq<char> {
    "第"@ + nat_text(idx + 1) + "步"@
}

/// The default label of a bookmark after move index `idx`.
pub fn bookmark_label(idx: u64) -> (s: String)
    requires
        idx < u64::MAX,
    ensures
        s@ == bookmark_label_text(idx as nat),
{
    let mut s = String::new();
    push_str(&mut s, "第");
    push_u64(&mut s, idx + 1);
    push_str(&mut s, "步");
    s
}

/// Free comments on moves, several per move allowed.
pub struct GameComments {
    pub comments: Vec<(usize, String)>,
    /// Whether the panel is shown.
    pub visible: bool,
}

impl Default for GameComments {
    fn default() -> (c: GameComments)
        ensures
            c.comments@.len() == 0,
            !c.visible,
    {
        GameComments { comments: Vec::new(), visible: false }
    }
}

/// The comments on move `idx` among the first `n`, in order.
pub open spec fn comments_on(cs: Seq<(usize, String)>, idx: usize, n: int) -> Seq<Seq<char>>
    decreases n,
{
    if n <= 0 {
        seq![]
    } else if cs[n - 1].0 == idx {
        comments_on(cs, idx, n - 1).push(cs[n - 1].1@)
    } else {
        comments_on(cs, idx, n - 1)
    }
}

impl GameComments {
    /// Adds a comment on move `move_idx`.
    pub fn add(&mut self, move_idx: usize, comment: String)
        ensures
            final(self).comments@ == old(self).comments@.push((move_idx, comment)),
            final(self).visible == old(self).visible,
    {
        self.comments.push((move_idx, comment));
    }

    /// The comments on move `move_idx`, in the order they were added.
    pub fn for_move(&self, move_idx: usize) -> (r: Vec<&str>)
        ensures
            r@.len() == comments_on(self.comments@, move_idx, self.comments@.len() as int).len(),
            forall|k: int| 0 <= k < r@.len() ==> (#[trigger] r@[k])@ == comments_on(
                self.comments@,
                move_idx,
                self.comments@.len() as int,
            )[k],
    {
        let mut r: Vec<&str> = Vec::new();
        let mut i: usize = 0;
        while i < self.comments.len()
            invariant
                i <= self.comments@.len(),
                r@.len() == comments_on(self.comments@, move_idx, i as int).len(),
                forall|k: int| 0 <= k < r@.len() ==> (#[trigger] r@[k])@ == comments_on(
                    self.comments@,
                    move_idx,
                    i as int,
                )[k],
            decreases self.comments@.len() - i,
        {
            if self.comments[i].0 == move_idx {
                r.push(self.comments[i].1.as_str());
            }
            i = i + 1;
        }
        r
    }

    /// Removes every comment.
    pub fn clear(&mut self)
        ensures
            final(self).comments@.len() == 0,
            final(self).visible == old(self).visible,
    {
        self.comments.clear();
    }

    /// Number of comments.
    pub fn count(&self) -> (n: usize)
        ensures
            n == self.comments@.len(),
    {
        self.comments.len()
    }
}

/// At most one comment per move, and a comment on the whole game.
pub struct CommentsPanel {
    /// Whether the panel is shown.
    pub visible: bool,
    /// Comments by move index, each index once.
    pub comments: Vec<(usize, String)>,
    /// Comment on the whole game.
    pub game_comment: String,
}

impl CommentsPanel {
    /// The commented move indices, in insertion order.
    pub closed spec fn keys(&self) -> Seq<usize> {
        Seq::new(self.comments@.len(), |i: int| self.comments@[i].0)
    }

    /// No move holds two comments.
    pub closed spec fn wf(&self) -> bool {
        self.keys().no_duplicates()
    }

    /// The comment of each commented move.
    pub closed spec fn comment_map(&self) -> Map<usize, Seq<char>> {
        Map::new(|k: usize| self.keys().contains(k), |k: usize| self.comments@[self.keys().index_of(k)].1@)
    }

    fn position(&self, idx: usize) -> (r: Option<usize>)
        requires
            self.wf(),
        ensures
            match r {
                Some(i) => i < self.keys().len() && self.keys()[i as int] == idx && self.keys().index_of(idx)
                    == i,
                None => !self.keys().contains(idx),
            },
    {
        let mut i: usize = 0;
        while i < self.comments.len()
            invariant
                self.wf(),
                i <= self.comments@.len(),
                forall|j: int| 0 <= j < i ==> self.keys()[j] != idx,
            decreases self.comments@.len() - i,
        {
            if self.comments[i].0 == idx {
                proof {
                    lemma_unique_index(self.keys(), i as int);
                }
                return Some(i);
            }
            i = i + 1;
        }
        None
    }
}

proof fn lemma_unique_index(s: Seq<usize>, i: int)
    requires
        s.no_duplicates(),
        0 <= i < s.len(),
    ensures
        s.index_of(s[i]) == i,
{
    assert(s.contains(s[i]));
    let j = s.index_of(s[i]);
    assert(0 <= j < s.len() && s[j] == s[i]);
}

proof fn lemma_push_keys(s: Seq<usize>, x: usize)
    requires
        s.no_duplicates(),
        !s.contains(x),
    ensures
        s.push(x).no_duplicates(),
        forall|k: usize| #[trigger] s.push(x).contains(k) <==> (s.contains(k) || k == x),
        forall|k: usize| s.contains(k) ==> #[trigger] s.push(x).index_of(k) == s.index_of(k),
        s.push(x).index_of(x) == s.len(),
{
    assert forall|k: usize| #[trigger] s.push(x).contains(k) implies (s.contains(k) || k == x) by {
        let i = choose|i: int| 0 <= i < s.push(x).len() && s.push(x)[i] == k;
        if i < s.len() {
            assert(s[i] == k);
        }
    }
    assert forall|k: usize| (s.contains(k) || k == x) implies #[trigger] s.push(x).contains(k) by {
        if k == x {
            assert(s.push(x)[s.len() as int] == x);
        } else {
            let i = choose|i: int| 0 <= i < s.len() && s[i] == k;
            assert(s.push(x)[i] == k);
        }
    }
    assert forall|k: usize| s.contains(k) implies #[trigger] s.push(x).index_of(k) == s.index_of(k) by {
        let j = s.index_of(k);
        lemma_unique_index(s, j);
        lemma_unique_index(s.push(x), j);
    }
    lemma_unique_index(s.push(x), s.len() as int);
}

/// One move's ICCS-style text in the export: file letter and 1-based rank.
pub open spec fn export_move_text(m: Move) -> Seq<char> {
    seq![(97 + m.from.file) as char] + nat_text((m.from.rank + 1) as nat) + seq![(97 + m.to.file) as char]
        + nat_text((m.to.rank + 1) as nat)
}

/// The export of move `i`: its number before Red's moves, the move, its
/// comment in braces, and a space.
pub open spec fn export_step(i: int, m: Move, comment: Option<Seq<char>>) -> Seq<char> {
    (if i % 2 == 0 {
        nat_text((i / 2 + 1) as nat) + ". "@
    } else {
        seq![]
    }) + export_move_text(m) + (match comment {
        Some(c) => " { "@ + c + " }"@,
        None => seq![],
    }) + seq![' ']
}

/// The comment of move `i`, if any.
pub open spec fn comment_of(comments: Map<usize, Seq<char>>, i: int) -> Option<Seq<char>> {
    if comments.contains_key(i as usize) {
        Some(comments[i as usize])
    } else {
        None
    }
}

/// The export of the first `n` moves.
pub open spec fn export_moves(history: Seq<Move>, comments: Map<usize, Seq<char>>, n: int) -> Seq<char>
    decreases n,
{
    if n <= 0 {
        seq![]
    } else {
        export_moves(history, comments, n - 1) + export_step(n - 1, history[n - 1], comment_of(comments, n - 1))
    }
}

/// The annotated game: the game comment in braces on its own line when
/// there is one, the moves, and a newline.
pub open spec fn export_text(game_comment: Seq<char>, history: Seq<Move>, comments: Map<usize, Seq<char>>) -> Seq<
    char,
> {
    (if game_comment.len() > 0 {
        "{ "@ + game_comment + " }\n"@
    } else {
        seq![]
    }) + export_moves(history, comments, history.len() as int) + seq!['\n']
}

fn push_export_step(out: &mut String, i: usize, m: Move, comment: Option<&String>)
    requires
        m.valid(),
        i < usize::MAX,
    ensures
        final(out)@ == old(out)@ + export_step(
            i as int,
            m,
            match comment {
                Some(c) => Some(c@),
                None => None,
            },
        ),
{
    if i % 2 == 0 {
        push_u64(out, (i / 2 + 1) as u64);
        push_str(out, ". ");
    }
    let ghost after_num = out@;
    push_char(out, (97u8 + m.from.file) as char);
    push_u64(out, (m.from.rank + 1) as u64);
    push_char(out, (97u8 + m.to.file) as char);
    push_u64(out, (m.to.rank + 1) as u64);
    assert(out@ =~= after_num + export_move_text(m));
    match comment {
        Some(c) => {
            push_str(out, " { ");
            push_str(out, c.as_str());
            push_str(out, " }");
        },
        None => {},
    }
    push_char(out, ' ');
    assert(out@ =~= old(out)@ + export_step(
        i as int,
        m,
        match comment {
            Some(c) => Some(c@),
            None => None,
        },
    ));
}

impl Default for CommentsPanel {
    fn default() -> (c: CommentsPanel)
        ensures
            c.wf(),
            !c.visible,
            c.comment_map() == Map::<usize, Seq<char>>::empty(),
            c.game_comment@.len() == 0,
    {
        let c = CommentsPanel { visible: false, comments: Vec::new(), game_comment: String::new() };
        assert(c.comment_map() =~= Map::<usize, Seq<char>>::empty());
        c
    }
}

impl CommentsPanel {
    /// Sets the comment of move `move_idx`, replacing an earlier one.
    pub fn add_comment(&mut self, move_idx: usize, comment: String)
        requires
            old(self).wf(),
        ensures
            final(self).wf(),
            final(self).comment_map() == old(self).comment_map().insert(move_idx, comment@),
            final(self).visible == old(self).visible,
            final(self).game_comment@ == old(self).game_comment@,
    {
        match self.position(move_idx) {
            Some(i) => {
                let ghost before = self.keys();
                self.comments[i].1 = comment;
                assert(self.keys() =~= before);
                assert(self.comment_map() =~= old(self).comment_map().insert(move_idx, self.comments@[i as int].1@));
            },
            None => {
                let ghost before = self.keys();
                let ghost c = comment@;
                self.comments.push((move_idx, comment));
                assert(self.keys() =~= before.push(move_idx));
                proof {
                    lemma_push_keys(before, move_idx);
                }
                assert(self.comment_map() =~= old(self).comment_map().insert(move_idx, c));
            },
        }
    }

    /// The comment of move `move_idx`.
    pub fn get_comment(&self, move_idx: usize) -> (r: Option<&String>)
        requires
            self.wf(),
        ensures
            match r {
                Some(c) => self.comment_map().contains_key(move_idx) && self.comment_map()[move_idx] == c@,
                None => !self.comment_map().contains_key(move_idx),
            },
    {
        match self.position(move_idx) {
            Some(i) => Some(&self.comments[i].1),
            None => None,
        }
    }

    /// Removes the comment of move `move_idx`.
    pub fn remove_comment(&mut self, move_idx: usize)
        requires
            old(self).wf(),
        ensures
            final(self).wf(),
            final(self).comment_map() == old(self).comment_map().remove(move_idx),
            final(self).visible == old(self).visible,
            final(self).game_comment@ == old(self).game_comment@,
    {
        match self.position(move_idx) {
            Some(i) => {
                let ghost before = self.keys();
                let ghost old_items = self.comments@;
                self.comments.remove(i);
                assert(self.keys() =~= before.remove(i as int));
                proof {
                    let after = self.keys();
                    assert forall|a: int, b: int| 0 <= a < after.len() && 0 <= b < after.len() && a != b implies after[a]
                        != after[b] by {
                        let a2 = if a < i { a } else { a + 1 };
                        let b2 = if b < i { b } else { b + 1 };
                        assert(after[a] == before[a2]);
                        assert(after[b] == before[b2]);
                    }
                    assert forall|k: usize| #[trigger] after.contains(k) <==> (before.contains(k) && k != move_idx) by {
                        if after.contains(k) {
                            let j = choose|j: int| 0 <= j < after.len() && after[j] == k;
                            let j2 = if j < i { j } else { j + 1 };
                            assert(before[j2] == k);
                            assert(j2 != i);
                        }
                        if before.contains(k) && k != move_idx {
                            let j = choose|j: int| 0 <= j < before.len() && before[j] == k;
                            assert(j != i);
                            let j2 = if j < i { j } else { j - 1 };
                            assert(after[j2] == k);
                        }
                    }
                    assert forall|k: usize| after.contains(k) implies #[trigger] self.comments@[after.index_of(k)].1@
                        == old_items[before.index_of(k)].1@ by {
                        let j = after.index_of(k);
                        lemma_unique_index(after, j);
                        let j2 = if j < i { j } else { j + 1 };
                        assert(before[j2] == k);
                        lemma_unique_index(before, j2);
                    }
                }
                assert(self.comment_map() =~= old(self).comment_map().remove(move_idx));
            },
            None => {
                assert(self.comment_map() =~= old(self).comment_map().remove(move_idx));
            },
        }
    }

    /// Number of commented moves.
    pub fn comment_count(&self) -> (n: usize)
        requires
            self.wf(),
        ensures
            n == self.comment_map().dom().len(),
    {
        proof {
            self.keys().unique_seq_to_set();
            assert(self.comment_map().dom() =~= self.keys().to_set());
        }
        self.comments.len()
    }

    /// Removes every comment, the game comment too.
    pub fn clear(&mut self)
        ensures
            final(self).wf(),
            final(self).comment_map() == Map::<usize, Seq<char>>::empty(),
            final(self).game_comment@.len() == 0,
            final(self).visible == old(self).visible,
    {
        self.comments.clear();
        self.game_comment = String::new();
        assert(self.keys() =~= Seq::<usize>::empty());
        assert(self.comment_map() =~= Map::<usize, Seq<char>>::empty());
    }

    /// The annotated game (see [`export_text`]).
    pub fn export_annotated(&self, history: &[Move]) -> (s: String)
        requires
            self.wf(),
            forall|i: int| 0 <= i < history@.len() ==> (#[trigger] history@[i]).valid(),
            history@.len() < usize::MAX,
        ensures
            s@ == export_text(self.game_comment@, history@, self.comment_map()),
    {
        let mut out = String::new();
        let gc = chars_of(self.game_comment.as_str());
        if gc.len() > 0 {
            push_str(&mut out, "{ ");
            push_str(&mut out, self.game_comment.as_str());
            push_str(&mut out, " }\n");
        }
        let ghost head = out@;
        let mut i: usize = 0;
        while i < history.len()
            invariant
                self.wf(),
                i <= history@.len(),
                history@.len() < usize::MAX,
                forall|j: int| 0 <= j < history@.len() ==> (#[trigger] history@[j]).valid(),
                out@ == head + export_moves(history@, self.comment_map(), i as int),
            decreases history@.len() - i,
        {
            let m = history[i];
            let c = self.get_comment(i);
            let ghost before = out@;
            push_export_step(&mut out, i, m, c);
            proof {
                let cm = match c {
                    Some(x) => Some(x@),
                    None => None,
                };
                assert(cm == comment_of(self.comment_map(), i as int));
            }
            i = i + 1;
            assert(out@ =~= head + export_moves(history@, self.comment_map(), i as int));
        }
        push_char(&mut out, '\n');
        assert(out@ =~= export_text(self.game_comment@, history@, self.comment_map()));
        out
    }
}

} // verus!
