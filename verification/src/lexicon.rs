//! Lexical classification of one `+`-delimited token of a binding string.
//!
//! A token names a modifier (`<ctrl>`), a key (`<enter>`, `<f5>`, a single
//! letter or digit), or a literal key code (`[123]`); anything else is
//! `Unknown`.  Matching is case-insensitive: the token is folded to lower
//! case before it is looked up.

use vstd::prelude::*;

use crate::keysym::{KbCode, KbModifierCode, KbSym, KeyKind};
use crate::text::{
    chars_eq_str, decimal_u32, decimal_u32_spec, is_alnum, is_alnum_char, lemma_lower_char_alnum,
    lower_chars, lower_seq,
};

verus! {

/// `s[i]` opens and `s[j]` closes a bracket group: no line break stands
/// between them.
pub open spec fn bracket_pair(s: Seq<char>, i: int, j: int) -> bool {
    &&& 0 <= i < j < s.len()
    &&& s[i] == '['
    &&& s[j] == ']'
    &&& forall|k: int| i < k < j ==> s[k] != '\n'
}

/// Some bracket group occurs in `s`.
pub open spec fn has_bracket_group(s: Seq<char>) -> bool {
    exists|i: int, j: int| bracket_pair(s, i, j)
}

/// The group the bracket pattern captures: it opens at the first position
/// where any group opens, and closes at the last closer that group reaches.
pub open spec fn is_bracket_capture(s: Seq<char>, i: int, j: int) -> bool {
    &&& bracket_pair(s, i, j)
    &&& forall|i2: int, j2: int| bracket_pair(s, i2, j2) ==> i <= i2
    &&& forall|j2: int| bracket_pair(s, i, j2) ==> j2 <= j
}

proof fn choose_widest_close(s: Seq<char>, i: int, j: int) -> (jm: int)
    requires
        bracket_pair(s, i, j),
    ensures
        bracket_pair(s, i, jm),
        forall|j2: int| bracket_pair(s, i, j2) ==> j2 <= jm,
    decreases s.len() - j,
{
    if exists|j2: int| bracket_pair(s, i, j2) && j2 > j {
        let j2 = choose|j2: int| bracket_pair(s, i, j2) && j2 > j;
        choose_widest_close(s, i, j2)
    } else {
        j
    }
}

proof fn choose_first_open(s: Seq<char>, i: int, j: int) -> (p: (int, int))
    requires
        bracket_pair(s, i, j),
    ensures
        bracket_pair(s, p.0, p.1),
        forall|i2: int, j2: int| bracket_pair(s, i2, j2) ==> p.0 <= i2,
    decreases i,
{
    if exists|i2: int, j2: int| bracket_pair(s, i2, j2) && i2 < i {
        let (i2, j2) = choose|i2: int, j2: int| bracket_pair(s, i2, j2) && i2 < i;
        choose_first_open(s, i2, j2)
    } else {
        (i, j)
    }
}

/// Where some bracket group occurs, the capture exists.
pub proof fn lemma_bracket_capture_exists(s: Seq<char>)
    requires
        has_bracket_group(s),
    ensures
        exists|i: int, j: int| is_bracket_capture(s, i, j),
{
    let (i0, j0) = choose|i0: int, j0: int| bracket_pair(s, i0, j0);
    let p = choose_first_open(s, i0, j0);
    let jm = choose_widest_close(s, p.0, p.1);
    assert(is_bracket_capture(s, p.0, jm));
}

/// The capture's bounds are unique.
pub proof fn lemma_bracket_capture_unique(s: Seq<char>, i1: int, j1: int, i2: int, j2: int)
    requires
        is_bracket_capture(s, i1, j1),
        is_bracket_capture(s, i2, j2),
    ensures
        i1 == i2,
        j1 == j2,
{
}

/// The text the bracket pattern captures from `s`.
pub open spec fn bracket_capture_of(s: Seq<char>) -> Seq<char> {
    let p = choose|p: (int, int)| is_bracket_capture(s, p.0, p.1);
    s.subrange(p.0 + 1, p.1)
}

/// Relies on regex's `Regex::captures` with the pattern `\[(.*)\]`: the
/// match opens at the leftmost `[` from which any match is possible, the
/// greedy `.*` runs to the last `]` it can reach, and `.` does not cross a
/// line break.  The capture group is the text between those brackets.
#[verifier::external_body]
fn bracket_capture(piece: &Vec<char>) -> (r: Option<Vec<char>>)
    ensures
        r is Some <==> has_bracket_group(piece@),
        r matches Some(cap) ==> forall|i: int, j: int|
            is_bracket_capture(piece@, i, j) ==> cap@ == piece@.subrange(i + 1, j),
{
    let s: String = piece.iter().collect();
    let re = match regex::Regex::new(r"\[(.*)\]") {
        Ok(re) => re,
        Err(_) => return None,
    };
    re.captures(&s).and_then(|c| c.get(1)).map(|m| m.as_str().chars().collect())
}

/// What the literal-keycode syntax makes of `s`: the number its bracket
/// group spells, if there is a group and the digits fit a `u32`.
pub open spec fn extract_keycode_spec(s: Seq<char>) -> Option<u32> {
    if has_bracket_group(s) {
        decimal_u32_spec(bracket_capture_of(s))
    } else {
        None
    }
}

/// The integer the bracket pattern captures from `piece`, if any.
pub fn extract_keycode(piece: &Vec<char>) -> (r: Option<u32>)
    ensures
        r == extract_keycode_spec(piece@),
{
    match bracket_capture(piece) {
        Some(cap) => {
            proof {
                lemma_bracket_capture_exists(piece@);
                let (i, j) = choose|i: int, j: int| is_bracket_capture(piece@, i, j);
                let p = choose|p: (int, int)| is_bracket_capture(piece@, p.0, p.1);
                lemma_bracket_capture_unique(piece@, i, j, p.0, p.1);
                assert(cap@ == bracket_capture_of(piece@));
            }
            decimal_u32(&cap)
        },
        None => None,
    }
}

/// The lexicon's entry for the lower-cased token `low`.
///
/// The table covers the four modifier names, the named keys, the function
/// keys `<f1>` through `<f35>`, the numeric-keypad names `<kp0>` through
/// `<kp9>`, the multimedia-key names, single letters and digits, and the
/// literal syntax `[N]`.
pub open spec fn lexicon_kind(low: Seq<char>) -> KeyKind {
    if low == "<super>"@ { KeyKind::Mod(KbModifierCode::Super) }
    else if low == "<ctrl>"@ { KeyKind::Mod(KbModifierCode::Ctrl) }
    else if low == "<alt>"@ { KeyKind::Mod(KbModifierCode::Alt) }
    else if low == "<shift>"@ { KeyKind::Mod(KbModifierCode::Shift) }
    else if low == "<enter>"@ { KeyKind::KeySym(KbSym::Enter) }
    else if low == "<space>"@ { KeyKind::KeySym(KbSym::Space) }
    else if low == "<backspace>"@ { KeyKind::KeySym(KbSym::Backspace) }
    else if low == "<esc>"@ { KeyKind::KeySym(KbSym::Esc) }
    else if low == "<end>"@ { KeyKind::KeySym(KbSym::End) }
    else if low == "<home>"@ { KeyKind::KeySym(KbSym::Home) }
    else if low == "<insert>"@ { KeyKind::KeySym(KbSym::Insert) }
    else if low == "<del>"@ { KeyKind::KeySym(KbSym::Del) }
    else if low == "<up>"@ { KeyKind::KeySym(KbSym::Up) }
    else if low == "<down>"@ { KeyKind::KeySym(KbSym::Down) }
    else if low == "<right>"@ { KeyKind::KeySym(KbSym::Right) }
    else if low == "<left>"@ { KeyKind::KeySym(KbSym::Left) }
    else if low == "<pgdown>"@ { KeyKind::KeySym(KbSym::PgDown) }
    else if low == "<pgup>"@ { KeyKind::KeySym(KbSym::PgUp) }
    else if low == "<tab>"@ { KeyKind::KeySym(KbSym::Tab) }
    else if low == "<equals>"@ { KeyKind::KeySym(KbSym::Equals) }
    else if low == "<minus>"@ { KeyKind::KeySym(KbSym::Minus) }
    else if low == "<quote>"@ { KeyKind::KeySym(KbSym::Quote) }
    else if low == "<backtick>"@ { KeyKind::KeySym(KbSym::Backtick) }
    else if low == "<backslash>"@ { KeyKind::KeySym(KbSym::Backslash) }
    else if low == "<slash>"@ { KeyKind::KeySym(KbSym::Slash) }
    else if low == "<semicolon>"@ { KeyKind::KeySym(KbSym::Semicolon) }
    else if low == "<comma>"@ { KeyKind::KeySym(KbSym::Comma) }
    else if low == "<period>"@ { KeyKind::KeySym(KbSym::Period) }
    else if low == "<f1>"@ { KeyKind::KeySym(KbSym::F(1)) }
    else if low == "<f2>"@ { KeyKind::KeySym(KbSym::F(2)) }
    else if low == "<f3>"@ { KeyKind::KeySym(KbSym::F(3)) }
    else if low == "<f4>"@ { KeyKind::KeySym(KbSym::F(4)) }
    else if low == "<f5>"@ { KeyKind::KeySym(KbSym::F(5)) }
    else if low == "<f6>"@ { KeyKind::KeySym(KbSym::F(6)) }
    else if low == "<f7>"@ { KeyKind::KeySym(KbSym::F(7)) }
    else if low == "<f8>"@ { KeyKind::KeySym(KbSym::F(8)) }
    else if low == "<f9>"@ { KeyKind::KeySym(KbSym::F(9)) }
    else if low == "<f10>"@ { KeyKind::KeySym(KbSym::F(10)) }
    else if low == "<f11>"@ { KeyKind::KeySym(KbSym::F(11)) }
    else if low == "<f12>"@ { KeyKind::KeySym(KbSym::F(12)) }
    else if low == "<f13>"@ { KeyKind::KeySym(KbSym::F(13)) }
    else if low == "<f14>"@ { KeyKind::KeySym(KbSym::F(14)) }
    else if low == "<f15>"@ { KeyKind::KeySym(KbSym::F(15)) }
    else if low == "<f16>"@ { KeyKind::KeySym(KbSym::F(16)) }
    else if low == "<f17>"@ { KeyKind::KeySym(KbSym::F(17)) }
    else if low == "<f18>"@ { KeyKind::KeySym(KbSym::F(18)) }
    else if low == "<f19>"@ { KeyKind::KeySym(KbSym::F(19)) }
    else if low == "<f20>"@ { KeyKind::KeySym(KbSym::F(20)) }
    else if low == "<f21>"@ { KeyKind::KeySym(KbSym::F(21)) }
    else if low == "<f22>"@ { KeyKind::KeySym(KbSym::F(22)) }
    else if low == "<f23>"@ { KeyKind::KeySym(KbSym::F(23)) }
    else if low == "<f24>"@ { KeyKind::KeySym(KbSym::F(24)) }
    else if low == "<f25>"@ { KeyKind::KeySym(KbSym::F(25)) }
    else if low == "<f26>"@ { KeyKind::KeySym(KbSym::F(26)) }
    else if low == "<f27>"@ { KeyKind::KeySym(KbSym::F(27)) }
    else if low == "<f28>"@ { KeyKind::KeySym(KbSym::F(28)) }
    else if low == "<f29>"@ { KeyKind::KeySym(KbSym::F(29)) }
    else if low == "<f30>"@ { KeyKind::KeySym(KbSym::F(30)) }
    else if low == "<f31>"@ { KeyKind::KeySym(KbSym::F(31)) }
    else if low == "<f32>"@ { KeyKind::KeySym(KbSym::F(32)) }
    else if low == "<f33>"@ { KeyKind::KeySym(KbSym::F(33)) }
    else if low == "<f34>"@ { KeyKind::KeySym(KbSym::F(34)) }
    else if low == "<f35>"@ { KeyKind::KeySym(KbSym::F(35)) }
    else if low == "<kp0>"@ { KeyKind::KeySym(KbSym::KP0) }
    else if low == "<kp1>"@ { KeyKind::KeySym(KbSym::KP1) }
    else if low == "<kp2>"@ { KeyKind::KeySym(KbSym::KP2) }
    else if low == "<kp3>"@ { KeyKind::KeySym(KbSym::KP3) }
    else if low == "<kp4>"@ { KeyKind::KeySym(KbSym::KP4) }
    else if low == "<kp5>"@ { KeyKind::KeySym(KbSym::KP5) }
    else if low == "<kp6>"@ { KeyKind::KeySym(KbSym::KP6) }
    else if low == "<kp7>"@ { KeyKind::KeySym(KbSym::KP7) }
    else if low == "<kp8>"@ { KeyKind::KeySym(KbSym::KP8) }
    else if low == "<kp9>"@ { KeyKind::KeySym(KbSym::KP9) }
    else if low == "<xf86audiomute>"@ { KeyKind::KeySym(KbSym::XF86AudioMute) }
    else if low == "<xf86audiomicmute>"@ { KeyKind::KeySym(KbSym::XF86AudioMicMute) }
    else if low == "<xf86audionext>"@ { KeyKind::KeySym(KbSym::XF86AudioNext) }
    else if low == "<xf86audioprev>"@ { KeyKind::KeySym(KbSym::XF86AudioPrev) }
    else if low == "<xf86audiostop>"@ { KeyKind::KeySym(KbSym::XF86AudioStop) }
    else if low == "<xf86audioplay>"@ { KeyKind::KeySym(KbSym::XF86AudioPlay) }
    else if low == "<xf86audiolowervolume>"@ { KeyKind::KeySym(KbSym::XF86AudioLowerVolume) }
    else if low == "<xf86audioraisevolume>"@ { KeyKind::KeySym(KbSym::XF86AudioRaiseVolume) }
    else if low.len() == 1 && is_alnum_char(low[0]) { KeyKind::KeySym(KbSym::Char(low[0])) }
    else {
        match extract_keycode_spec(low) {
            Some(code) => KeyKind::KeyCode(KbCode(code)),
            None => KeyKind::Unknown,
        }
    }
}

/// What classification makes of the token `tok`: its lexicon entry, after
/// case folding.
pub open spec fn classify_spec(tok: Seq<char>) -> KeyKind {
    lexicon_kind(lower_seq(tok))
}

/// Every function-key name is recognized: for each `n` from 1 to 35 the
/// token `<fn>` classifies to the symbol `F(n)`.
#[verifier::rlimit(100)]
pub proof fn lemma_function_key_names()
    ensures
        classify_spec("<f1>"@) == KeyKind::KeySym(KbSym::F(1)),
        classify_spec("<f2>"@) == KeyKind::KeySym(KbSym::F(2)),
        classify_spec("<f3>"@) == KeyKind::KeySym(KbSym::F(3)),
        classify_spec("<f4>"@) == KeyKind::KeySym(KbSym::F(4)),
        classify_spec("<f5>"@) == KeyKind::KeySym(KbSym::F(5)),
        classify_spec("<f6>"@) == KeyKind::KeySym(KbSym::F(6)),
        classify_spec("<f7>"@) == KeyKind::KeySym(KbSym::F(7)),
        classify_spec("<f8>"@) == KeyKind::KeySym(KbSym::F(8)),
        classify_spec("<f9>"@) == KeyKind::KeySym(KbSym::F(9)),
        classify_spec("<f10>"@) == KeyKind::KeySym(KbSym::F(10)),
        classify_spec("<f11>"@) == KeyKind::KeySym(KbSym::F(11)),
        classify_spec("<f12>"@) == KeyKind::KeySym(KbSym::F(12)),
        classify_spec("<f13>"@) == KeyKind::KeySym(KbSym::F(13)),
        classify_spec("<f14>"@) == KeyKind::KeySym(KbSym::F(14)),
        classify_spec("<f15>"@) == KeyKind::KeySym(KbSym::F(15)),
        classify_spec("<f16>"@) == KeyKind::KeySym(KbSym::F(16)),
        classify_spec("<f17>"@) == KeyKind::KeySym(KbSym::F(17)),
        classify_spec("<f18>"@) == KeyKind::KeySym(KbSym::F(18)),
        classify_spec("<f19>"@) == KeyKind::KeySym(KbSym::F(19)),
        classify_spec("<f20>"@) == KeyKind::KeySym(KbSym::F(20)),
        classify_spec("<f21>"@) == KeyKind::KeySym(KbSym::F(21)),
        classify_spec("<f22>"@) == KeyKind::KeySym(KbSym::F(22)),
        classify_spec("<f23>"@) == KeyKind::KeySym(KbSym::F(23)),
        classify_spec("<f24>"@) == KeyKind::KeySym(KbSym::F(24)),
        classify_spec("<f25>"@) == KeyKind::KeySym(KbSym::F(25)),
        classify_spec("<f26>"@) == KeyKind::KeySym(KbSym::F(26)),
        classify_spec("<f27>"@) == KeyKind::KeySym(KbSym::F(27)),
        classify_spec("<f28>"@) == KeyKind::KeySym(KbSym::F(28)),
        classify_spec("<f29>"@) == KeyKind::KeySym(KbSym::F(29)),
        classify_spec("<f30>"@) == KeyKind::KeySym(KbSym::F(30)),
        classify_spec("<f31>"@) == KeyKind::KeySym(KbSym::F(31)),
        classify_spec("<f32>"@) == KeyKind::KeySym(KbSym::F(32)),
        classify_spec("<f33>"@) == KeyKind::KeySym(KbSym::F(33)),
        classify_spec("<f34>"@) == KeyKind::KeySym(KbSym::F(34)),
        classify_spec("<f35>"@) == KeyKind::KeySym(KbSym::F(35)),
{
    reveal_strlit("<super>");
    reveal_strlit("<ctrl>");
    reveal_strlit("<alt>");
    reveal_strlit("<shift>");
    reveal_strlit("<enter>");
    reveal_strlit("<space>");
    reveal_strlit("<backspace>");
    reveal_strlit("<esc>");
    reveal_strlit("<end>");
    reveal_strlit("<home>");
    reveal_strlit("<insert>");
    reveal_strlit("<del>");
    reveal_strlit("<up>");
    reveal_strlit("<down>");
    reveal_strlit("<right>");
    reveal_strlit("<left>");
    reveal_strlit("<pgdown>");
    reveal_strlit("<pgup>");
    reveal_strlit("<tab>");
    reveal_strlit("<equals>");
    reveal_strlit("<minus>");
    reveal_strlit("<quote>");
    reveal_strlit("<backtick>");
    reveal_strlit("<backslash>");
    reveal_strlit("<slash>");
    reveal_strlit("<semicolon>");
    reveal_strlit("<comma>");
    reveal_strlit("<period>");
    reveal_strlit("<f1>");
    reveal_strlit("<f2>");
    reveal_strlit("<f3>");
    reveal_strlit("<f4>");
    reveal_strlit("<f5>");
    reveal_strlit("<f6>");
    reveal_strlit("<f7>");
    reveal_strlit("<f8>");
    reveal_strlit("<f9>");
    reveal_strlit("<f10>");
    reveal_strlit("<f11>");
    reveal_strlit("<f12>");
    reveal_strlit("<f13>");
    reveal_strlit("<f14>");
    reveal_strlit("<f15>");
    reveal_strlit("<f16>");
    reveal_strlit("<f17>");
    reveal_strlit("<f18>");
    reveal_strlit("<f19>");
    reveal_strlit("<f20>");
    reveal_strlit("<f21>");
    reveal_strlit("<f22>");
    reveal_strlit("<f23>");
    reveal_strlit("<f24>");
    reveal_strlit("<f25>");
    reveal_strlit("<f26>");
    reveal_strlit("<f27>");
    reveal_strlit("<f28>");
    reveal_strlit("<f29>");
    reveal_strlit("<f30>");
    reveal_strlit("<f31>");
    reveal_strlit("<f32>");
    reveal_strlit("<f33>");
    reveal_strlit("<f34>");
    reveal_strlit("<f35>");
    assert("<super>"@ =~= seq!['<', 's', 'u', 'p', 'e', 'r', '>']);
    assert("<ctrl>"@ =~= seq!['<', 'c', 't', 'r', 'l', '>']);
    assert("<alt>"@ =~= seq!['<', 'a', 'l', 't', '>']);
    assert("<shift>"@ =~= seq!['<', 's', 'h', 'i', 'f', 't', '>']);
    assert("<enter>"@ =~= seq!['<', 'e', 'n', 't', 'e', 'r', '>']);
    assert("<space>"@ =~= seq!['<', 's', 'p', 'a', 'c', 'e', '>']);
    assert("<backspace>"@ =~= seq!['<', 'b', 'a', 'c', 'k', 's', 'p', 'a', 'c', 'e', '>']);
    assert("<esc>"@ =~= seq!['<', 'e', 's', 'c', '>']);
    assert("<end>"@ =~= seq!['<', 'e', 'n', 'd', '>']);
    assert("<home>"@ =~= seq!['<', 'h', 'o', 'm', 'e', '>']);
    assert("<insert>"@ =~= seq!['<', 'i', 'n', 's', 'e', 'r', 't', '>']);
    assert("<del>"@ =~= seq!['<', 'd', 'e', 'l', '>']);
    assert("<up>"@ =~= seq!['<', 'u', 'p', '>']);
    assert("<down>"@ =~= seq!['<', 'd', 'o', 'w', 'n', '>']);
    assert("<right>"@ =~= seq!['<', 'r', 'i', 'g', 'h', 't', '>']);
    assert("<left>"@ =~= seq!['<', 'l', 'e', 'f', 't', '>']);
    assert("<pgdown>"@ =~= seq!['<', 'p', 'g', 'd', 'o', 'w', 'n', '>']);
    assert("<pgup>"@ =~= seq!['<', 'p', 'g', 'u', 'p', '>']);
    assert("<tab>"@ =~= seq!['<', 't', 'a', 'b', '>']);
    assert("<equals>"@ =~= seq!['<', 'e', 'q', 'u', 'a', 'l', 's', '>']);
    assert("<minus>"@ =~= seq!['<', 'm', 'i', 'n', 'u', 's', '>']);
    assert("<quote>"@ =~= seq!['<', 'q', 'u', 'o', 't', 'e', '>']);
    assert("<backtick>"@ =~= seq!['<', 'b', 'a', 'c', 'k', 't', 'i', 'c', 'k', '>']);
    assert("<backslash>"@ =~= seq!['<', 'b', 'a', 'c', 'k', 's', 'l', 'a', 's', 'h', '>']);
    assert("<slash>"@ =~= seq!['<', 's', 'l', 'a', 's', 'h', '>']);
    assert("<semicolon>"@ =~= seq!['<', 's', 'e', 'm', 'i', 'c', 'o', 'l', 'o', 'n', '>']);
    assert("<comma>"@ =~= seq!['<', 'c', 'o', 'm', 'm', 'a', '>']);
    assert("<period>"@ =~= seq!['<', 'p', 'e', 'r', 'i', 'o', 'd', '>']);
    assert("<f1>"@ =~= seq!['<', 'f', '1', '>']);
    assert("<f2>"@ =~= seq!['<', 'f', '2', '>']);
    assert("<f3>"@ =~= seq!['<', 'f', '3', '>']);
    assert("<f4>"@ =~= seq!['<', 'f', '4', '>']);
    assert("<f5>"@ =~= seq!['<', 'f', '5', '>']);
    assert("<f6>"@ =~= seq!['<', 'f', '6', '>']);
    assert("<f7>"@ =~= seq!['<', 'f', '7', '>']);
    assert("<f8>"@ =~= seq!['<', 'f', '8', '>']);
    assert("<f9>"@ =~= seq!['<', 'f', '9', '>']);
    assert("<f10>"@ =~= seq!['<', 'f', '1', '0', '>']);
    assert("<f11>"@ =~= seq!['<', 'f', '1', '1', '>']);
    assert("<f12>"@ =~= seq!['<', 'f', '1', '2', '>']);
    assert("<f13>"@ =~= seq!['<', 'f', '1', '3', '>']);
    assert("<f14>"@ =~= seq!['<', 'f', '1', '4', '>']);
    assert("<f15>"@ =~= seq!['<', 'f', '1', '5', '>']);
    assert("<f16>"@ =~= seq!['<', 'f', '1', '6', '>']);
    assert("<f17>"@ =~= seq!['<', 'f', '1', '7', '>']);
    assert("<f18>"@ =~= seq!['<', 'f', '1', '8', '>']);
    assert("<f19>"@ =~= seq!['<', 'f', '1', '9', '>']);
    assert("<f20>"@ =~= seq!['<', 'f', '2', '0', '>']);
    assert("<f21>"@ =~= seq!['<', 'f', '2', '1', '>']);
    assert("<f22>"@ =~= seq!['<', 'f', '2', '2', '>']);
    assert("<f23>"@ =~= seq!['<', 'f', '2', '3', '>']);
    assert("<f24>"@ =~= seq!['<', 'f', '2', '4', '>']);
    assert("<f25>"@ =~= seq!['<', 'f', '2', '5', '>']);
    assert("<f26>"@ =~= seq!['<', 'f', '2', '6', '>']);
    assert("<f27>"@ =~= seq!['<', 'f', '2', '7', '>']);
    assert("<f28>"@ =~= seq!['<', 'f', '2', '8', '>']);
    assert("<f29>"@ =~= seq!['<', 'f', '2', '9', '>']);
    assert("<f30>"@ =~= seq!['<', 'f', '3', '0', '>']);
    assert("<f31>"@ =~= seq!['<', 'f', '3', '1', '>']);
    assert("<f32>"@ =~= seq!['<', 'f', '3', '2', '>']);
    assert("<f33>"@ =~= seq!['<', 'f', '3', '3', '>']);
    assert("<f34>"@ =~= seq!['<', 'f', '3', '4', '>']);
    assert("<f35>"@ =~= seq!['<', 'f', '3', '5', '>']);
    assert(lower_seq("<f1>"@) =~= "<f1>"@);
    assert(lexicon_kind("<f1>"@) == KeyKind::KeySym(KbSym::F(1)));
    assert(lower_seq("<f2>"@) =~= "<f2>"@);
    assert(lexicon_kind("<f2>"@) == KeyKind::KeySym(KbSym::F(2)));
    assert(lower_seq("<f3>"@) =~= "<f3>"@);
    assert(lexicon_kind("<f3>"@) == KeyKind::KeySym(KbSym::F(3)));
    assert(lower_seq("<f4>"@) =~= "<f4>"@);
    assert(lexicon_kind("<f4>"@) == KeyKind::KeySym(KbSym::F(4)));
    assert(lower_seq("<f5>"@) =~= "<f5>"@);
    assert(lexicon_kind("<f5>"@) == KeyKind::KeySym(KbSym::F(5)));
    assert(lower_seq("<f6>"@) =~= "<f6>"@);
    assert(lexicon_kind("<f6>"@) == KeyKind::KeySym(KbSym::F(6)));
    assert(lower_seq("<f7>"@) =~= "<f7>"@);
    assert(lexicon_kind("<f7>"@) == KeyKind::KeySym(KbSym::F(7)));
    assert(lower_seq("<f8>"@) =~= "<f8>"@);
    assert(lexicon_kind("<f8>"@) == KeyKind::KeySym(KbSym::F(8)));
    assert(lower_seq("<f9>"@) =~= "<f9>"@);
    assert(lexicon_kind("<f9>"@) == KeyKind::KeySym(KbSym::F(9)));
    assert(lower_seq("<f10>"@) =~= "<f10>"@);
    assert(lexicon_kind("<f10>"@) == KeyKind::KeySym(KbSym::F(10)));
    assert(lower_seq("<f11>"@) =~= "<f11>"@);
    assert(lexicon_kind("<f11>"@) == KeyKind::KeySym(KbSym::F(11)));
    assert(lower_seq("<f12>"@) =~= "<f12>"@);
    assert(lexicon_kind("<f12>"@) == KeyKind::KeySym(KbSym::F(12)));
    assert(lower_seq("<f13>"@) =~= "<f13>"@);
    assert(lexicon_kind("<f13>"@) == KeyKind::KeySym(KbSym::F(13)));
    assert(lower_seq("<f14>"@) =~= "<f14>"@);
    assert(lexicon_kind("<f14>"@) == KeyKind::KeySym(KbSym::F(14)));
    assert(lower_seq("<f15>"@) =~= "<f15>"@);
    assert(lexicon_kind("<f15>"@) == KeyKind::KeySym(KbSym::F(15)));
    assert(lower_seq("<f16>"@) =~= "<f16>"@);
    assert(lexicon_kind("<f16>"@) == KeyKind::KeySym(KbSym::F(16)));
    assert(lower_seq("<f17>"@) =~= "<f17>"@);
    assert(lexicon_kind("<f17>"@) == KeyKind::KeySym(KbSym::F(17)));
    assert(lower_seq("<f18>"@) =~= "<f18>"@);
    assert(lexicon_kind("<f18>"@) == KeyKind::KeySym(KbSym::F(18)));
    assert(lower_seq("<f19>"@) =~= "<f19>"@);
    assert(lexicon_kind("<f19>"@) == KeyKind::KeySym(KbSym::F(19)));
    assert(lower_seq("<f20>"@) =~= "<f20>"@);
    assert(lexicon_kind("<f20>"@) == KeyKind::KeySym(KbSym::F(20)));
    assert(lower_seq("<f21>"@) =~= "<f21>"@);
    assert(lexicon_kind("<f21>"@) == KeyKind::KeySym(KbSym::F(21)));
    assert(lower_seq("<f22>"@) =~= "<f22>"@);
    assert(lexicon_kind("<f22>"@) == KeyKind::KeySym(KbSym::F(22)));
    assert(lower_seq("<f23>"@) =~= "<f23>"@);
    assert(lexicon_kind("<f23>"@) == KeyKind::KeySym(KbSym::F(23)));
    assert(lower_seq("<f24>"@) =~= "<f24>"@);
    assert(lexicon_kind("<f24>"@) == KeyKind::KeySym(KbSym::F(24)));
    assert(lower_seq("<f25>"@) =~= "<f25>"@);
    assert(lexicon_kind("<f25>"@) == KeyKind::KeySym(KbSym::F(25)));
    assert(lower_seq("<f26>"@) =~= "<f26>"@);
    assert(lexicon_kind("<f26>"@) == KeyKind::KeySym(KbSym::F(26)));
    assert(lower_seq("<f27>"@) =~= "<f27>"@);
    assert(lexicon_kind("<f27>"@) == KeyKind::KeySym(KbSym::F(27)));
    assert(lower_seq("<f28>"@) =~= "<f28>"@);
    assert(lexicon_kind("<f28>"@) == KeyKind::KeySym(KbSym::F(28)));
    assert(lower_seq("<f29>"@) =~= "<f29>"@);
    assert(lexicon_kind("<f29>"@) == KeyKind::KeySym(KbSym::F(29)));
    assert(lower_seq("<f30>"@) =~= "<f30>"@);
    assert(lexicon_kind("<f30>"@) == KeyKind::KeySym(KbSym::F(30)));
    assert(lower_seq("<f31>"@) =~= "<f31>"@);
    assert(lexicon_kind("<f31>"@) == KeyKind::KeySym(KbSym::F(31)));
    assert(lower_seq("<f32>"@) =~= "<f32>"@);
    assert(lexicon_kind("<f32>"@) == KeyKind::KeySym(KbSym::F(32)));
    assert(lower_seq("<f33>"@) =~= "<f33>"@);
    assert(lexicon_kind("<f33>"@) == KeyKind::KeySym(KbSym::F(33)));
    assert(lower_seq("<f34>"@) =~= "<f34>"@);
    assert(lexicon_kind("<f34>"@) == KeyKind::KeySym(KbSym::F(34)));
    assert(lower_seq("<f35>"@) =~= "<f35>"@);
    assert(lexicon_kind("<f35>"@) == KeyKind::KeySym(KbSym::F(35)));
}

/// Classify one trimmed token of a binding string.
pub fn classify_token(tok: &Vec<char>) -> (k: KeyKind)
    ensures
        k == classify_spec(tok@),
        k.wf(),
{
    let low = lower_chars(tok);
    if chars_eq_str(&low, "<super>") { return KeyKind::Mod(KbModifierCode::Super); }
    if chars_eq_str(&low, "<ctrl>") { return KeyKind::Mod(KbModifierCode::Ctrl); }
    if chars_eq_str(&low, "<alt>") { return KeyKind::Mod(KbModifierCode::Alt); }
    if chars_eq_str(&low, "<shift>") { return KeyKind::Mod(KbModifierCode::Shift); }
    if chars_eq_str(&low, "<enter>") { return KeyKind::KeySym(KbSym::Enter); }
    if chars_eq_str(&low, "<space>") { return KeyKind::KeySym(KbSym::Space); }
    if chars_eq_str(&low, "<backspace>") { return KeyKind::KeySym(KbSym::Backspace); }
    if chars_eq_str(&low, "<esc>") { return KeyKind::KeySym(KbSym::Esc); }
    if chars_eq_str(&low, "<end>") { return KeyKind::KeySym(KbSym::End); }
    if chars_eq_str(&low, "<home>") { return KeyKind::KeySym(KbSym::Home); }
    if chars_eq_str(&low, "<insert>") { return KeyKind::KeySym(KbSym::Insert); }
    if chars_eq_str(&low, "<del>") { return KeyKind::KeySym(KbSym::Del); }
    if chars_eq_str(&low, "<up>") { return KeyKind::KeySym(KbSym::Up); }
    if chars_eq_str(&low, "<down>") { return KeyKind::KeySym(KbSym::Down); }
    if chars_eq_str(&low, "<right>") { return KeyKind::KeySym(KbSym::Right); }
    if chars_eq_str(&low, "<left>") { return KeyKind::KeySym(KbSym::Left); }
    if chars_eq_str(&low, "<pgdown>") { return KeyKind::KeySym(KbSym::PgDown); }
    if chars_eq_str(&low, "<pgup>") { return KeyKind::KeySym(KbSym::PgUp); }
    if chars_eq_str(&low, "<tab>") { return KeyKind::KeySym(KbSym::Tab); }
    if chars_eq_str(&low, "<equals>") { return KeyKind::KeySym(KbSym::Equals); }
    if chars_eq_str(&low, "<minus>") { return KeyKind::KeySym(KbSym::Minus); }
    if chars_eq_str(&low, "<quote>") { return KeyKind::KeySym(KbSym::Quote); }
    if chars_eq_str(&low, "<backtick>") { return KeyKind::KeySym(KbSym::Backtick); }
    if chars_eq_str(&low, "<backslash>") { return KeyKind::KeySym(KbSym::Backslash); }
    if chars_eq_str(&low, "<slash>") { return KeyKind::KeySym(KbSym::Slash); }
    if chars_eq_str(&low, "<semicolon>") { return KeyKind::KeySym(KbSym::Semicolon); }
    if chars_eq_str(&low, "<comma>") { return KeyKind::KeySym(KbSym::Comma); }
    if chars_eq_str(&low, "<period>") { return KeyKind::KeySym(KbSym::Period); }
    if chars_eq_str(&low, "<f1>") { return KeyKind::KeySym(KbSym::F(1)); }
    if chars_eq_str(&low, "<f2>") { return KeyKind::KeySym(KbSym::F(2)); }
    if chars_eq_str(&low, "<f3>") { return KeyKind::KeySym(KbSym::F(3)); }
    if chars_eq_str(&low, "<f4>") { return KeyKind::KeySym(KbSym::F(4)); }
    if chars_eq_str(&low, "<f5>") { return KeyKind::KeySym(KbSym::F(5)); }
    if chars_eq_str(&low, "<f6>") { return KeyKind::KeySym(KbSym::F(6)); }
    if chars_eq_str(&low, "<f7>") { return KeyKind::KeySym(KbSym::F(7)); }
    if chars_eq_str(&low, "<f8>") { return KeyKind::KeySym(KbSym::F(8)); }
    if chars_eq_str(&low, "<f9>") { return KeyKind::KeySym(KbSym::F(9)); }
    if chars_eq_str(&low, "<f10>") { return KeyKind::KeySym(KbSym::F(10)); }
    if chars_eq_str(&low, "<f11>") { return KeyKind::KeySym(KbSym::F(11)); }
    if chars_eq_str(&low, "<f12>") { return KeyKind::KeySym(KbSym::F(12)); }
    if chars_eq_str(&low, "<f13>") { return KeyKind::KeySym(KbSym::F(13)); }
    if chars_eq_str(&low, "<f14>") { return KeyKind::KeySym(KbSym::F(14)); }
    if chars_eq_str(&low, "<f15>") { return KeyKind::KeySym(KbSym::F(15)); }
    if chars_eq_str(&low, "<f16>") { return KeyKind::KeySym(KbSym::F(16)); }
    if chars_eq_str(&low, "<f17>") { return KeyKind::KeySym(KbSym::F(17)); }
    if chars_eq_str(&low, "<f18>") { return KeyKind::KeySym(KbSym::F(18)); }
    if chars_eq_str(&low, "<f19>") { return KeyKind::KeySym(KbSym::F(19)); }
    if chars_eq_str(&low, "<f20>") { return KeyKind::KeySym(KbSym::F(20)); }
    if chars_eq_str(&low, "<f21>") { return KeyKind::KeySym(KbSym::F(21)); }
    if chars_eq_str(&low, "<f22>") { return KeyKind::KeySym(KbSym::F(22)); }
    if chars_eq_str(&low, "<f23>") { return KeyKind::KeySym(KbSym::F(23)); }
    if chars_eq_str(&low, "<f24>") { return KeyKind::KeySym(KbSym::F(24)); }
    if chars_eq_str(&low, "<f25>") { return KeyKind::KeySym(KbSym::F(25)); }
    if chars_eq_str(&low, "<f26>") { return KeyKind::KeySym(KbSym::F(26)); }
    if chars_eq_str(&low, "<f27>") { return KeyKind::KeySym(KbSym::F(27)); }
    if chars_eq_str(&low, "<f28>") { return KeyKind::KeySym(KbSym::F(28)); }
    if chars_eq_str(&low, "<f29>") { return KeyKind::KeySym(KbSym::F(29)); }
    if chars_eq_str(&low, "<f30>") { return KeyKind::KeySym(KbSym::F(30)); }
    if chars_eq_str(&low, "<f31>") { return KeyKind::KeySym(KbSym::F(31)); }
    if chars_eq_str(&low, "<f32>") { return KeyKind::KeySym(KbSym::F(32)); }
    if chars_eq_str(&low, "<f33>") { return KeyKind::KeySym(KbSym::F(33)); }
    if chars_eq_str(&low, "<f34>") { return KeyKind::KeySym(KbSym::F(34)); }
    if chars_eq_str(&low, "<f35>") { return KeyKind::KeySym(KbSym::F(35)); }
    if chars_eq_str(&low, "<kp0>") { return KeyKind::KeySym(KbSym::KP0); }
    if chars_eq_str(&low, "<kp1>") { return KeyKind::KeySym(KbSym::KP1); }
    if chars_eq_str(&low, "<kp2>") { return KeyKind::KeySym(KbSym::KP2); }
    if chars_eq_str(&low, "<kp3>") { return KeyKind::KeySym(KbSym::KP3); }
    if chars_eq_str(&low, "<kp4>") { return KeyKind::KeySym(KbSym::KP4); }
    if chars_eq_str(&low, "<kp5>") { return KeyKind::KeySym(KbSym::KP5); }
    if chars_eq_str(&low, "<kp6>") { return KeyKind::KeySym(KbSym::KP6); }
    if chars_eq_str(&low, "<kp7>") { return KeyKind::KeySym(KbSym::KP7); }
    if chars_eq_str(&low, "<kp8>") { return KeyKind::KeySym(KbSym::KP8); }
    if chars_eq_str(&low, "<kp9>") { return KeyKind::KeySym(KbSym::KP9); }
    if chars_eq_str(&low, "<xf86audiomute>") { return KeyKind::KeySym(KbSym::XF86AudioMute); }
    if chars_eq_str(&low, "<xf86audiomicmute>") { return KeyKind::KeySym(KbSym::XF86AudioMicMute); }
    if chars_eq_str(&low, "<xf86audionext>") { return KeyKind::KeySym(KbSym::XF86AudioNext); }
    if chars_eq_str(&low, "<xf86audioprev>") { return KeyKind::KeySym(KbSym::XF86AudioPrev); }
    if chars_eq_str(&low, "<xf86audiostop>") { return KeyKind::KeySym(KbSym::XF86AudioStop); }
    if chars_eq_str(&low, "<xf86audioplay>") { return KeyKind::KeySym(KbSym::XF86AudioPlay); }
    if chars_eq_str(&low, "<xf86audiolowervolume>") {
        return KeyKind::KeySym(KbSym::XF86AudioLowerVolume);
    }
    if chars_eq_str(&low, "<xf86audioraisevolume>") {
        return KeyKind::KeySym(KbSym::XF86AudioRaiseVolume);
    }
    if low.len() == 1 {
        let c = low[0];
        if is_alnum(c) {
            proof {
                lemma_lower_char_alnum(tok@[0]);
            }
            return KeyKind::KeySym(KbSym::Char(c));
        }
    }
    match extract_keycode(&low) {
        Some(code) => KeyKind::KeyCode(KbCode(code)),
        None => KeyKind::Unknown,
    }
}

} // verus!
