//! Styles of the coordinate labels along the board: Western (`a`..`i`,
//! `0`..`9`), Chinese numerals, or none.

use vstd::prelude::*;
use crate::text::{nat_text, push_char, push_u64};

verus! {

/// A label style.
#[derive(Debug, Clone, Copy, PartialEq, Eq, Structural)]
pub enum CoordStyle {
    Western,
    ChineseNumeric,
    Hidden,
}

impl CoordStyle {
    /// Chinese label.
    pub fn label_cn(&self) -> (s: &'static str)
        ensures
            s@ == match *self {
                CoordStyle::Western => "西式坐标"@,
                CoordStyle::ChineseNumeric => "中文数字"@,
                CoordStyle::Hidden => "无坐标"@,
            },
    {
        match self {
            CoordStyle::Western => "西式坐标",
            CoordStyle::ChineseNumeric => "中文数字",
            CoordStyle::Hidden => "无坐标",
        }
    }

    /// The next style in the cycle.
    pub fn next(&self) -> (c: CoordStyle)
        ensures
            c == match *self {
                CoordStyle::Western => CoordStyle::ChineseNumeric,
                CoordStyle::ChineseNumeric => CoordStyle::Hidden,
                CoordStyle::Hidden => CoordStyle::Western,
            },
    {
        match self {
            CoordStyle::Western => CoordStyle::ChineseNumeric,
            CoordStyle::ChineseNumeric => CoordStyle::Hidden,
            CoordStyle::Hidden => CoordStyle::Western,
        }
    }
}

/// Chinese numeral of `d` (`〇` to `九`).
pub open spec fn chinese_numeral(d: int) -> char {
    if d == 0 {
        '〇'
    } else if d == 1 {
        '一'
    } else if d == 2 {
        '二'
    } else if d == 3 {
        '三'
    } else if d == 4 {
        '四'
    } else if d == 5 {
        '五'
    } else if d == 6 {
        '六'
    } else if d == 7 {
        '七'
    } else if d == 8 {
        '八'
    } else {
        '九'
    }
}

/// Chinese numeral of a digit.
pub fn chinese_numeral_exec(d: u8) -> (c: char)
    requires
        d < 10,
    ensures
        c == chinese_numeral(d as int),
{
    match d {
        0 => '〇',
        1 => '一',
        2 => '二',
        3 => '三',
        4 => '四',
        5 => '五',
        6 => '六',
        7 => '七',
        8 => '八',
        _ => '九',
    }
}

/// Label styles and visibility.
#[derive(Debug, Clone, Copy, PartialEq, Eq, Structural)]
pub struct CoordStyleResource {
    pub file_style: CoordStyle,
    pub rank_style: CoordStyle,
    pub visible: bool,
}

/// Label of file `file`: its letter, the Chinese numeral counted from
/// the right (`九` for file a), or nothing.
pub open spec fn file_label_text(style: CoordStyle, file: u8) -> Seq<char> {
    match style {
        CoordStyle::Western => seq![(97 + file) as char],
        CoordStyle::ChineseNumeric => seq![chinese_numeral(9 - file)],
        CoordStyle::Hidden => seq![],
    }
}

/// Label of rank `rank`: its number, its Chinese numeral (`?` past 9), or
/// nothing.
pub open spec fn rank_label_text(style: CoordStyle, rank: u8) -> Seq<char> {
    match style {
        CoordStyle::Western => nat_text(rank as nat),
        CoordStyle::ChineseNumeric => if rank < 10 {
            seq![chinese_numeral(rank as int)]
        } else {
            seq!['?']
        },
        CoordStyle::Hidden => seq![],
    }
}

impl Default for CoordStyleResource {
    fn default() -> (r: CoordStyleResource)
        ensures
            r == (CoordStyleResource {
                file_style: CoordStyle::Western,
                rank_style: CoordStyle::Western,
                visible: true,
            }),
    {
        CoordStyleResource { file_style: CoordStyle::Western, rank_style: CoordStyle::Western, visible: true }
    }
}

impl CoordStyleResource {
    /// Label of a file (see [`file_label_text`]).
    pub fn file_label(&self, file: u8) -> (s: String)
        requires
            self.file_style == CoordStyle::Western ==> file <= 158,
            self.file_style == CoordStyle::ChineseNumeric ==> file <= 8,
        ensures
            s@ == file_label_text(self.file_style, file),
    {
        let mut s = String::new();
        match self.file_style {
            CoordStyle::Western => {
                let b: u8 = 97u8 + file;
                push_char(&mut s, b as char);
            },
            CoordStyle::ChineseNumeric => {
                push_char(&mut s, chinese_numeral_exec(8 - file + 1));
            },
            CoordStyle::Hidden => {},
        }
        assert(s@ =~= file_label_text(self.file_style, file));
        s
    }

    /// Label of a rank (see [`rank_label_text`]).
    pub fn rank_label(&self, rank: u8) -> (s: String)
        ensures
            s@ == rank_label_text(self.rank_style, rank),
    {
        let mut s = String::new();
        match self.rank_style {
            CoordStyle::Western => {
                push_u64(&mut s, rank as u64);
            },
            CoordStyle::ChineseNumeric => {
                if rank < 10 {
                    push_char(&mut s, chinese_numeral_exec(rank));
                } else {
                    push_char(&mut s, '?');
                }
            },
            CoordStyle::Hidden => {},
        }
        assert(s@ =~= rank_label_text(self.rank_style, rank));
        s
    }

    /// File label then rank label, or nothing when labels are hidden.
    pub fn format_square(&self, file: u8, rank: u8) -> (s: String)
        requires
            self.file_style == CoordStyle::Western ==> file <= 158,
            self.file_style == CoordStyle::ChineseNumeric ==> file <= 8,
        ensures
            s@ == if self.visible {
                file_label_text(self.file_style, file) + rank_label_text(self.rank_style, rank)
            } else {
                seq![]
            },
    {
        if !self.visible {
            return String::new();
        }
        let mut s = self.file_label(file);
        let r = self.rank_label(rank);
        let rc = crate::text::chars_of(r.as_str());
        crate::text::push_chars(&mut s, rc.as_slice());
        s
    }

    /// Advances the file style and gives the ranks the same style.
    pub fn cycle(&mut self)
        ensures
            final(self).file_style == old(self).file_style.next_spec(),
            final(self).rank_style == final(self).file_style,
            final(self).visible == old(self).visible,
    {
        self.file_style = self.file_style.next();
        self.rank_style = self.file_style;
    }
}

impl CoordStyle {
    /// The next style in the cycle.
    pub open spec fn next_spec(self) -> CoordStyle {
        match self {
            CoordStyle::Western => CoordStyle::ChineseNumeric,
            CoordStyle::ChineseNumeric => CoordStyle::Hidden,
            CoordStyle::Hidden => CoordStyle::Western,
        }
    }
}

} // verus!
