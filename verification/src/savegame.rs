use vstd::prelude::*;
use crate::text::{
    bool_text, chars_of, decimal, is_ws, join, lemma_bool_text, lemma_decimal_plain,
    lemma_join_step, lemma_parse_decimal, lemma_split_join, lemma_trim_plain, parse_bool,
    parse_bool_chars, parse_u32, parse_u32_chars, push_bool, push_comma, push_comma_bool,
    push_decimal, split, split_chars, trim, trim_chars,
};
use crate::achievements::{bool_or, u32_or};

verus! {

/// RAM a fresh save records.
pub const DEFAULT_RAM: u32 = 6;

/// The level a fresh save records.
pub const FIRST_LEVEL: u32 = 1;

/// A saved game as read back from the save file. The player's position is kept as the
/// text of its two coordinates; turning that text into numbers is left to the caller.
pub struct SaveGame {
    pub x: Vec<char>,
    pub y: Vec<char>,
    pub ram: u32,
    pub tutorial_visible: bool,
    pub level: u32,
    pub hacker_mode: bool,
}

/// The content of a saved game.
pub struct SaveGameView {
    pub x: Seq<char>,
    pub y: Seq<char>,
    pub ram: u32,
    pub tutorial_visible: bool,
    pub level: u32,
    pub hacker_mode: bool,
}

impl View for SaveGame {
    type V = SaveGameView;

    open spec fn view(&self) -> SaveGameView {
        SaveGameView {
            x: self.x@,
            y: self.y@,
            ram: self.ram,
            tutorial_visible: self.tutorial_visible,
            level: self.level,
            hacker_mode: self.hacker_mode,
        }
    }
}

/// The fields of the save file, in order.
pub open spec fn save_fields(
    x: Seq<char>,
    y: Seq<char>,
    ram: u32,
    tutorial_visible: bool,
    level: u32,
    hacker_mode: bool,
) -> Seq<Seq<char>> {
    seq![
        x,
        y,
        decimal(ram as nat),
        bool_text(tutorial_visible),
        decimal(level as nat),
        bool_text(hacker_mode),
    ]
}

/// The text of the save file: six fields separated by commas.
pub open spec fn save_text_of(
    x: Seq<char>,
    y: Seq<char>,
    ram: u32,
    tutorial_visible: bool,
    level: u32,
    hacker_mode: bool,
) -> Seq<char> {
    join(save_fields(x, y, ram, tutorial_visible, level, hacker_mode), ',')
}

/// What loading reads from the save file: nothing when it has fewer than five fields;
/// otherwise the coordinates as written, and each other field as written when it
/// parses (RAM 6, tutorial shown, level 1 and normal mode when it does not, or, for
/// the mode, when there is no sixth field).
pub open spec fn save_of_text(c: Seq<char>) -> Option<SaveGameView> {
    let p = split(trim(c), ',');
    if p.len() >= 5 {
        Some(
            SaveGameView {
                x: p[0],
                y: p[1],
                ram: u32_or(parse_u32(p[2]), DEFAULT_RAM),
                tutorial_visible: bool_or(parse_bool(p[3]), true),
                level: u32_or(parse_u32(p[4]), FIRST_LEVEL),
                hacker_mode: if p.len() >= 6 {
                    bool_or(parse_bool(p[5]), false)
                } else {
                    false
                },
            },
        )
    } else {
        None
    }
}

fn copy_chars(v: &Vec<char>) -> (res: Vec<char>)
    ensures
        res@ == v@,
{
    let mut res: Vec<char> = Vec::new();
    let n = v.len();
    let mut i: usize = 0;
    while i < n
        invariant
            i <= n == v@.len(),
            res@ == v@.take(i as int),
        decreases n - i,
    {
        res.push(v[i]);
        assert(res@ =~= v@.take(i + 1));
        i = i + 1;
    }
    assert(v@.take(n as int) =~= v@);
    res
}

/// Appends a comma and the decimal display of a number.
fn push_comma_decimal(out: &mut String, n: u32)
    ensures
        final(out)@ == old(out)@ + seq![','] + decimal(n as nat),
{
    push_comma(out);
    push_decimal(out, n);
    assert(old(out)@.push(',') =~= old(out)@ + seq![',']);
}

proof fn lemma_join_six(
    f: Seq<Seq<char>>,
    s1: Seq<char>,
    s2: Seq<char>,
    s3: Seq<char>,
    s4: Seq<char>,
    s5: Seq<char>,
    s6: Seq<char>,
)
    requires
        f.len() == 6,
        s1 == f[0],
        s2 == s1 + seq![','] + f[1],
        s3 == s2 + seq![','] + f[2],
        s4 == s3 + seq![','] + f[3],
        s5 == s4 + seq![','] + f[4],
        s6 == s5 + seq![','] + f[5],
    ensures
        s6 == join(f, ','),
{
    assert(f.take(1).drop_last() =~= Seq::<Seq<char>>::empty());
    assert(join(f.take(1), ',') == s1);
    lemma_join_step(f, 2);
    lemma_join_step(f, 3);
    lemma_join_step(f, 4);
    lemma_join_step(f, 5);
    lemma_join_step(f, 6);
    assert(f.take(6) =~= f);
}

/// The text that saving writes to the save file. The coordinates are given as the
/// text of the numbers.
pub fn save_game_text(
    x: &str,
    y: &str,
    ram: u32,
    tutorial_visible: bool,
    level: u32,
    hacker_mode: bool,
) -> (res: String)
    ensures
        res@ == save_text_of(x@, y@, ram, tutorial_visible, level, hacker_mode),
{
    let ghost f = save_fields(x@, y@, ram, tutorial_visible, level, hacker_mode);
    let mut out = String::new();
    out.append(x);
    let ghost s1 = out@;
    assert(s1 =~= f[0]);
    push_comma(&mut out);
    out.append(y);
    let ghost s2 = out@;
    assert(s2 =~= s1 + seq![','] + f[1]);
    push_comma_decimal(&mut out, ram);
    let ghost s3 = out@;
    push_comma_bool(&mut out, tutorial_visible);
    let ghost s4 = out@;
    push_comma_decimal(&mut out, level);
    let ghost s5 = out@;
    push_comma_bool(&mut out, hacker_mode);
    proof {
        lemma_join_six(f, s1, s2, s3, s4, s5, out@);
    }
    out
}

impl SaveGame {
    /// What loading finds in the text of the save file.
    pub fn from_text(content: &str) -> (res: Option<SaveGame>)
        ensures
            match res {
                Some(g) => save_of_text(content@) == Some(g@),
                None => save_of_text(content@) is None,
            },
    {
        let c = chars_of(content);
        let t = trim_chars(&c);
        let p = split_chars(&t, ',');
        if p.len() >= 5 {
            let hacker_mode = if p.len() >= 6 {
                match parse_bool_chars(&p[5]) {
                    Some(b) => b,
                    None => false,
                }
            } else {
                false
            };
            let g = SaveGame {
                x: copy_chars(&p[0]),
                y: copy_chars(&p[1]),
                ram: match parse_u32_chars(&p[2]) {
                    Some(n) => n,
                    None => DEFAULT_RAM,
                },
                tutorial_visible: match parse_bool_chars(&p[3]) {
                    Some(b) => b,
                    None => true,
                },
                level: match parse_u32_chars(&p[4]) {
                    Some(n) => n,
                    None => FIRST_LEVEL,
                },
                hacker_mode,
            };
            Some(g)
        } else {
            None
        }
    }
}

/// The first character of the save text.
proof fn lemma_save_text_first(f: Seq<Seq<char>>)
    requires
        f.len() == 6,
    ensures
        join(f, ',').len() >= 1,
        join(f, ',')[0] == if f[0].len() > 0 {
            f[0][0]
        } else {
            ','
        },
{
    let s1 = f[0];
    let s2 = s1 + seq![','] + f[1];
    let s3 = s2 + seq![','] + f[2];
    let s4 = s3 + seq![','] + f[3];
    let s5 = s4 + seq![','] + f[4];
    let s6 = s5 + seq![','] + f[5];
    lemma_join_six(f, s1, s2, s3, s4, s5, s6);
    assert(s2[0] == if f[0].len() > 0 { f[0][0] } else { ',' });
    assert(s3[0] == s2[0]);
    assert(s4[0] == s3[0]);
    assert(s5[0] == s4[0]);
    assert(s6[0] == s5[0]);
    assert(s6.last() == f[5].last() || f[5].len() == 0);
}

/// Loading the save file gives back what saving wrote, as long as the coordinate texts
/// hold no comma and the first does not begin with white space (the display of a
/// number never does either).
pub proof fn lemma_save_roundtrip(
    x: Seq<char>,
    y: Seq<char>,
    ram: u32,
    tutorial_visible: bool,
    level: u32,
    hacker_mode: bool,
)
    requires
        !x.contains(','),
        !y.contains(','),
        x.len() > 0 ==> !is_ws(x[0]),
    ensures
        save_of_text(save_text_of(x, y, ram, tutorial_visible, level, hacker_mode)) == Some(
            SaveGameView { x, y, ram, tutorial_visible, level, hacker_mode },
        ),
{
    let f = save_fields(x, y, ram, tutorial_visible, level, hacker_mode);
    lemma_bool_text(tutorial_visible);
    lemma_bool_text(hacker_mode);
    lemma_decimal_plain(ram as nat);
    lemma_decimal_plain(level as nat);
    lemma_parse_decimal(ram);
    lemma_parse_decimal(level);
    assert forall|i: int| 0 <= i < f.len() implies !(#[trigger] f[i]).contains(',') by {
        if i == 0 { assert(f[i] == x); }
        else if i == 1 { assert(f[i] == y); }
        else if i == 2 { assert(f[i] == decimal(ram as nat)); }
        else if i == 3 { assert(f[i] == bool_text(tutorial_visible)); }
        else if i == 4 { assert(f[i] == decimal(level as nat)); }
        else { assert(f[i] == bool_text(hacker_mode)); }
    }
    let s = join(f, ',');
    lemma_save_text_first(f);
    let s1 = f[0];
    let s2 = s1 + seq![','] + f[1];
    let s3 = s2 + seq![','] + f[2];
    let s4 = s3 + seq![','] + f[3];
    let s5 = s4 + seq![','] + f[4];
    let s6 = s5 + seq![','] + f[5];
    lemma_join_six(f, s1, s2, s3, s4, s5, s6);
    assert(f[5] == bool_text(hacker_mode));
    assert(s6.last() == f[5].last());
    assert(!is_ws(s[0]));
    lemma_trim_plain(s);
    lemma_split_join(f, ',');
}

/// The RAM that saving records: a crashed player (no RAM left) is saved at full RAM.
pub fn ram_to_save(current: u32, max: u32) -> (res: u32)
    ensures
        res == if current == 0 {
            max
        } else {
            current
        },
{
    if current == 0 {
        max
    } else {
        current
    }
}

} // verus!
