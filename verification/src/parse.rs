//! Folding a binding string into its canonical form: a modifier bitmask and
//! exactly one key, and the expansion of that mask over the lock keys.
//!
//! A binding string is split on `+`; each piece is trimmed and classified
//! through the lexicon; modifier pieces accumulate into the mask by bitwise
//! or, key pieces replace the key (the last one wins), and an unrecognized
//! piece invalidates the whole binding.

use vstd::prelude::*;

use crate::keysym::{
    modifier_mask, KbCode, KbModifierCode, KbSym, KeyKind, keysym_of, LOCK_MASK, MOD2_MASK,
};
use crate::lexicon::{classify_spec, classify_token};
use crate::text::{chars_of, trim_chars, trim_spec};

verus! {

/// A modifier bitmask accumulated from the modifier tokens of a binding.
#[derive(Debug, Clone, Copy, PartialEq, Eq, Structural)]
pub struct Modifier(pub u32);

/// The four masks under which a binding must be grabbed so that it fires
/// whatever the NumLock and CapsLock state: the mask itself, and the mask
/// with each lock bit and with both.
pub open spec fn universal_masks(m: u32) -> Seq<u32> {
    seq![m, m | MOD2_MASK, m | LOCK_MASK, m | LOCK_MASK | MOD2_MASK]
}

/// A mask with the two lock bits cleared.
pub open spec fn base_mask(v: u32) -> u32 {
    v & !(LOCK_MASK | MOD2_MASK)
}

impl Modifier {
    /// The four lock-key variants of this mask, the mask itself first.
    pub fn as_universal(&self) -> (r: [u32; 4])
        ensures
            r@ == universal_masks(self.0),
            r@.len() == 4,
            r@[0] == self.0,
    {
        let r = [
            self.0,
            self.0 | MOD2_MASK,
            self.0 | LOCK_MASK,
            self.0 | LOCK_MASK | MOD2_MASK,
        ];
        proof {
            assert(r@ =~= universal_masks(self.0));
        }
        r
    }
}

/// Expansion is insensitive to the lock state it accounts for: reducing any
/// expanded variant to its base mask and re-expanding reproduces the same
/// four masks that the base of the starting mask expands to.
pub proof fn lemma_universal_masks_lock_invariant(m: u32, v: u32)
    requires
        universal_masks(m).contains(v),
    ensures
        universal_masks(base_mask(v)) =~= universal_masks(base_mask(m)),
{
    let i = choose|i: int| 0 <= i < universal_masks(m).len() && universal_masks(m)[i] == v;
    assert(v == m || v == (m | MOD2_MASK) || v == (m | LOCK_MASK) || v == (m | LOCK_MASK
        | MOD2_MASK));
    assert(base_mask(m | MOD2_MASK) == base_mask(m)) by (bit_vector);
    assert(base_mask(m | LOCK_MASK) == base_mask(m)) by (bit_vector);
    assert(base_mask(m | LOCK_MASK | MOD2_MASK) == base_mask(m)) by (bit_vector);
}

/// The key component of a canonical binding: a named symbol or a literal
/// key code.
#[derive(Debug, Clone, Copy, PartialEq, Eq, Structural)]
pub enum KbCodeType {
    Sym(KbSym),
    Code(KbCode),
}

impl KbCodeType {
    /// Any named symbol held here is well formed.
    pub open spec fn wf(self) -> bool {
        match self {
            KbCodeType::Sym(s) => s.wf(),
            KbCodeType::Code(_) => true,
        }
    }

    /// The platform code the key resolves to.
    pub open spec fn code_spec(self) -> u32 {
        match self {
            KbCodeType::Sym(s) => keysym_of(s),
            KbCodeType::Code(c) => c.0,
        }
    }

    /// Decide [`KbCodeType::wf`].
    pub fn is_wf(&self) -> (r: bool)
        ensures
            r == self.wf(),
    {
        match self {
            KbCodeType::Sym(s) => s.is_wf(),
            KbCodeType::Code(_) => true,
        }
    }

    /// Resolve the key to its platform code.
    pub fn to_code(&self) -> (code: u32)
        requires
            self.wf(),
        ensures
            code == self.code_spec(),
    {
        match self {
            KbCodeType::Sym(s) => s.to_code(),
            KbCodeType::Code(c) => c.to_code(),
        }
    }
}

/// The canonical form of a binding string: zero or more modifiers and
/// exactly one key.
#[derive(Debug, Clone, Copy, PartialEq, Eq, Structural)]
pub struct CanonicalBinding {
    pub modifiers: Modifier,
    pub code: KbCodeType,
}

impl CanonicalBinding {
    /// The binding's key component is well formed.
    pub open spec fn wf(self) -> bool {
        self.code.wf()
    }

    /// Decide [`CanonicalBinding::wf`].
    pub fn is_wf(&self) -> (r: bool)
        ensures
            r == self.wf(),
    {
        self.code.is_wf()
    }
}

/// Accumulates the tokens of a binding string while it is folded.
#[derive(Debug, Clone, Copy, PartialEq, Eq, Structural)]
pub struct MapBuilder {
    pub modifiers: Modifier,
    pub code: Option<KbCodeType>,
    pub invalid: bool,
}

/// The state a fold starts from: no modifiers, no key, nothing wrong.
pub open spec fn init_builder() -> MapBuilder {
    MapBuilder { modifiers: Modifier(0), code: None, invalid: false }
}

impl Default for MapBuilder {
    /// The state a fold starts from.
    fn default() -> (b: MapBuilder)
        ensures
            b == init_builder(),
    {
        MapBuilder { modifiers: Modifier(0), code: None, invalid: false }
    }
}

impl MapBuilder {
    /// What closing the builder yields: the canonical binding, or failure
    /// if a token was unrecognized or no key token occurred.
    pub open spec fn build_spec(self) -> Result<CanonicalBinding, ()> {
        if self.invalid {
            Err(())
        } else {
            match self.code {
                Some(code) => Ok(CanonicalBinding { modifiers: self.modifiers, code }),
                None => Err(()),
            }
        }
    }

    /// Close the builder.
    pub fn build(self) -> (r: Result<CanonicalBinding, ()>)
        ensures
            r == self.build_spec(),
    {
        if self.invalid {
            Err(())
        } else {
            match self.code {
                Some(code) => Ok(CanonicalBinding { modifiers: self.modifiers, code }),
                None => Err(()),
            }
        }
    }
}

/// `s` split on every `+`; splitting the empty string yields one empty
/// piece, and a trailing `+` yields a trailing empty piece.
pub open spec fn split_plus(s: Seq<char>) -> Seq<Seq<char>>
    decreases s.len(),
{
    if s.len() == 0 {
        seq![Seq::<char>::empty()]
    } else if s.last() == '+' {
        split_plus(s.drop_last()).push(Seq::<char>::empty())
    } else {
        let r = split_plus(s.drop_last());
        r.update(r.len() - 1, r.last().push(s.last()))
    }
}

/// Splitting yields at least one piece.
pub proof fn lemma_split_plus_nonempty(s: Seq<char>)
    ensures
        split_plus(s).len() >= 1,
    decreases s.len(),
{
    if s.len() > 0 {
        lemma_split_plus_nonempty(s.drop_last());
    }
}

/// Executable form of [`split_plus`].
pub fn split_plus_chars(v: &Vec<char>) -> (pieces: Vec<Vec<char>>)
    ensures
        pieces@.len() == split_plus(v@).len(),
        forall|k: int| 0 <= k < pieces@.len() ==> pieces@[k]@ == split_plus(v@)[k],
{
    let mut pieces: Vec<Vec<char>> = Vec::new();
    let mut current: Vec<char> = Vec::new();
    let ghost mut dv: Seq<Seq<char>> = Seq::empty();
    proof {
        assert(v@.subrange(0, 0) =~= Seq::<char>::empty());
        assert(split_plus(v@.subrange(0, 0)) =~= dv.push(current@));
    }
    let mut i: usize = 0;
    while i < v.len()
        invariant
            i <= v.len(),
            dv.len() == pieces@.len(),
            forall|k: int| 0 <= k < dv.len() ==> pieces@[k]@ == dv[k],
            split_plus(v@.subrange(0, i as int)) == dv.push(current@),
        decreases v.len() - i,
    {
        let ghost prefix = v@.subrange(0, i as int);
        let ghost grown = v@.subrange(0, i as int + 1);
        proof {
            assert(grown.drop_last() =~= prefix);
            assert(grown.last() == v@[i as int]);
        }
        let c = v[i];
        if c == '+' {
            pieces.push(current);
            current = Vec::new();
            proof {
                dv = dv.push(split_plus(prefix).last());
                assert(split_plus(grown) =~= dv.push(current@));
            }
        } else {
            current.push(c);
            proof {
                let r = split_plus(prefix);
                lemma_split_plus_nonempty(prefix);
                assert(r == dv.push(split_plus(prefix).last()));
                assert(split_plus(grown) == r.update(r.len() - 1, r.last().push(c)));
                assert(split_plus(grown) =~= dv.push(current@));
            }
        }
        i = i + 1;
    }
    proof {
        assert(v@.subrange(0, v@.len() as int) =~= v@);
    }
    pieces.push(current);
    pieces
}

/// One step of the fold: how the classification of the trimmed token `tok`
/// changes the builder.
pub open spec fn fold_piece(b: MapBuilder, tok: Seq<char>) -> MapBuilder {
    match classify_spec(trim_spec(tok)) {
        KeyKind::Mod(m) => MapBuilder {
            modifiers: Modifier(b.modifiers.0 | modifier_mask(m)),
            code: b.code,
            invalid: b.invalid,
        },
        KeyKind::KeySym(s) => MapBuilder {
            modifiers: b.modifiers,
            code: Some(KbCodeType::Sym(s)),
            invalid: b.invalid,
        },
        KeyKind::KeyCode(c) => MapBuilder {
            modifiers: b.modifiers,
            code: Some(KbCodeType::Code(c)),
            invalid: b.invalid,
        },
        KeyKind::Unknown => MapBuilder {
            modifiers: b.modifiers,
            code: b.code,
            invalid: true,
        },
    }
}

/// The whole fold, token by token from the left.
pub open spec fn fold_tokens(toks: Seq<Seq<char>>) -> MapBuilder
    decreases toks.len(),
{
    if toks.len() == 0 {
        init_builder()
    } else {
        fold_piece(fold_tokens(toks.drop_last()), toks.last())
    }
}

/// What parsing a binding string yields.
pub open spec fn parse_spec(s: Seq<char>) -> Result<CanonicalBinding, ()> {
    fold_tokens(split_plus(s)).build_spec()
}

impl CanonicalBinding {
    /// Parse a binding string such as `"<Super>+Return"`.
    ///
    /// The string is split on `+`, each piece trimmed and classified; the
    /// modifier masks accumulate, the last key token wins, and a piece the
    /// lexicon does not recognize makes the whole binding fail.
    pub fn parse(s: &str) -> (r: Result<CanonicalBinding, ()>)
        ensures
            r == parse_spec(s@),
            r matches Ok(b) ==> b.wf(),
    {
        let chars = chars_of(s);
        let pieces = split_plus_chars(&chars);
        let ghost toks = split_plus(s@);
        let mut b = MapBuilder::default();
        proof {
            assert(toks.subrange(0, 0) =~= Seq::<Seq<char>>::empty());
        }
        let mut i: usize = 0;
        while i < pieces.len()
            invariant
                i <= pieces@.len(),
                pieces@.len() == toks.len(),
                forall|k: int| 0 <= k < pieces@.len() ==> pieces@[k]@ == toks[k],
                b == fold_tokens(toks.subrange(0, i as int)),
                b.code matches Some(c) ==> c.wf(),
            decreases pieces@.len() - i,
        {
            let ghost grown = toks.subrange(0, i as int + 1);
            proof {
                assert(grown.drop_last() =~= toks.subrange(0, i as int));
                assert(grown.last() == toks[i as int]);
            }
            let trimmed = trim_chars(&pieces[i]);
            let kind = classify_token(&trimmed);
            match kind {
                KeyKind::Mod(m) => {
                    b.modifiers = Modifier(b.modifiers.0 | m.to_code());
                },
                KeyKind::KeySym(s) => {
                    b.code = Some(KbCodeType::Sym(s));
                },
                KeyKind::KeyCode(c) => {
                    b.code = Some(KbCodeType::Code(c));
                },
                KeyKind::Unknown => {
                    b.invalid = true;
                },
            }
            i = i + 1;
            proof {
                assert(b == fold_tokens(toks.subrange(0, i as int)));
            }
        }
        proof {
            assert(toks.subrange(0, toks.len() as int) =~= toks);
        }
        b.build()
    }
}

/// A string without `+` is one single token.
proof fn lemma_split_plus_single(s: Seq<char>)
    requires
        forall|i: int| 0 <= i < s.len() ==> s[i] != '+',
    ensures
        split_plus(s) =~= seq![s],
    decreases s.len(),
{
    if s.len() == 0 {
        assert(s =~= Seq::<char>::empty());
        assert(split_plus(s) =~= seq![s]);
    } else {
        assert(forall|i: int| 0 <= i < s.drop_last().len() ==> s.drop_last()[i] == s[i]);
        lemma_split_plus_single(s.drop_last());
        let r = split_plus(s.drop_last());
        assert(r == seq![s.drop_last()]);
        assert(r.last().push(s.last()) =~= s);
        assert(split_plus(s) == r.update(0, r.last().push(s.last())));
        assert(split_plus(s) =~= seq![s]);
    }
}

/// A single recognized key token parses to exactly its canonical
/// identifier, with an empty modifier mask; a lone modifier or an
/// unrecognized token does not parse.
pub proof fn lemma_single_token_parse(s: Seq<char>)
    requires
        forall|i: int| 0 <= i < s.len() ==> s[i] != '+',
    ensures
        classify_spec(trim_spec(s)) matches KeyKind::KeySym(sym) ==> parse_spec(s) == Ok::<
            CanonicalBinding,
            (),
        >((CanonicalBinding { modifiers: Modifier(0), code: KbCodeType::Sym(sym) })),
        classify_spec(trim_spec(s)) matches KeyKind::KeyCode(c) ==> parse_spec(s) == Ok::<
            CanonicalBinding,
            (),
        >((CanonicalBinding { modifiers: Modifier(0), code: KbCodeType::Code(c) })),
        classify_spec(trim_spec(s)) is Mod ==> parse_spec(s) is Err,
        classify_spec(trim_spec(s)) is Unknown ==> parse_spec(s) is Err,
{
    lemma_split_plus_single(s);
    let toks = seq![s];
    assert(split_plus(s) == toks);
    assert(toks.drop_last() =~= Seq::<Seq<char>>::empty());
    assert(toks.last() == s);
    assert(fold_tokens(toks) == fold_piece(fold_tokens(toks.drop_last()), s));
    assert(fold_tokens(Seq::<Seq<char>>::empty()) == init_builder());
}

/// A binding none of whose tokens is a key token gathers no key, so it
/// never parses.
pub proof fn lemma_no_key_token_rejects(s: Seq<char>)
    requires
        forall|i: int| 0 <= i < split_plus(s).len() ==> {
            let k = classify_spec(trim_spec(#[trigger] split_plus(s)[i]));
            k is Mod || k is Unknown
        },
    ensures
        parse_spec(s) is Err,
{
    lemma_fold_no_key(split_plus(s));
}

/// A fold over modifier and unrecognized tokens alone gathers no key.
proof fn lemma_fold_no_key(toks: Seq<Seq<char>>)
    requires
        forall|i: int| 0 <= i < toks.len() ==> {
            let k = classify_spec(trim_spec(#[trigger] toks[i]));
            k is Mod || k is Unknown
        },
    ensures
        fold_tokens(toks).code is None,
    decreases toks.len(),
{
    if toks.len() > 0 {
        assert(forall|i: int| 0 <= i < toks.drop_last().len() ==> toks.drop_last()[i]
            == toks[i]);
        lemma_fold_no_key(toks.drop_last());
        assert(classify_spec(trim_spec(toks.last())) is Mod || classify_spec(
            trim_spec(toks.last()),
        ) is Unknown);
    }
}

/// Once a token of the binding is unrecognized the fold stays invalid.
proof fn lemma_fold_invalid(toks: Seq<Seq<char>>, i: int)
    requires
        0 <= i < toks.len(),
        classify_spec(trim_spec(toks[i])) is Unknown,
    ensures
        fold_tokens(toks).invalid,
    decreases toks.len(),
{
    if i < toks.len() - 1 {
        lemma_fold_invalid(toks.drop_last(), i);
    }
}

/// A binding string one of whose tokens the lexicon does not recognize
/// never parses: no canonical binding is produced.
pub proof fn lemma_unrecognized_token_rejects(s: Seq<char>, i: int)
    requires
        0 <= i < split_plus(s).len(),
        classify_spec(trim_spec(split_plus(s)[i])) is Unknown,
    ensures
        parse_spec(s) is Err,
{
    lemma_fold_invalid(split_plus(s), i);
}

} // verus!
