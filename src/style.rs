//! Font styles and their native bitmask encoding.
use vstd::prelude::*;

verus! {

/// One named style flag. `NormalStyle` stands for the empty set of flags.
#[derive(Debug, Clone, Copy, PartialEq, Eq)]
pub enum FontStyle {
    NormalStyle,
    BoldStyle,
    ItalicStyle,
    UnderlineStyle,
    StrikethroughStyle,
}

impl FontStyle {
    /// The native bit of each flag: bit 0 bold, bit 1 italic, bit 2
    /// underline, bit 3 strikethrough; `NormalStyle` has none.
    pub open spec fn bit(self) -> i32 {
        match self {
            FontStyle::NormalStyle => 0,
            FontStyle::BoldStyle => 1,
            FontStyle::ItalicStyle => 2,
            FontStyle::UnderlineStyle => 4,
            FontStyle::StrikethroughStyle => 8,
        }
    }

    pub fn to_native(self) -> (r: i32)
        ensures
            r == self.bit(),
    {
        match self {
            FontStyle::NormalStyle => 0,
            FontStyle::BoldStyle => 1,
            FontStyle::ItalicStyle => 2,
            FontStyle::UnderlineStyle => 4,
            FontStyle::StrikethroughStyle => 8,
        }
    }
}

/// Every flag, in the order in which a decoded bitmask lists them.
pub open spec fn all_styles() -> Seq<FontStyle> {
    seq![
        FontStyle::NormalStyle,
        FontStyle::BoldStyle,
        FontStyle::ItalicStyle,
        FontStyle::UnderlineStyle,
        FontStyle::StrikethroughStyle,
    ]
}

/// The flag's bit is set in `bits` (never true of `NormalStyle`).
pub open spec fn has_style(bits: i32, f: FontStyle) -> bool {
    bits & f.bit() != 0
}

/// The bitmask of a list of flags: their bits OR'd together.
pub open spec fn packed(flags: Seq<FontStyle>) -> i32 {
    flags.fold_left(0i32, |acc: i32, f: FontStyle| acc | f.bit())
}

/// The flags whose bit is set in `bits`, in the order of `all_styles`.
pub open spec fn unpacked(bits: i32) -> Seq<FontStyle> {
    all_styles().filter(|f: FontStyle| has_style(bits, f))
}

/// Packs a list of flags into the native bitmask.
pub fn pack_styles(flags: &[FontStyle]) -> (r: i32)
    ensures
        r == packed(flags@),
{
    let mut bits: i32 = 0;
    let mut i: usize = 0;
    while i < flags.len()
        invariant
            i <= flags@.len(),
            bits == packed(flags@.take(i as int)),
        decreases flags@.len() - i,
    {
        proof {
            assert(flags@.take(i + 1).drop_last() == flags@.take(i as int));
        }
        bits = bits | flags[i].to_native();
        i = i + 1;
    }
    proof {
        assert(flags@.take(flags@.len() as int) == flags@);
    }
    bits
}

/// Decodes a native bitmask into the named flags whose bit is set.
pub fn unpack_styles(bits: i32) -> (r: Vec<FontStyle>)
    ensures
        r@ == unpacked(bits),
{
    let all = [
        FontStyle::NormalStyle,
        FontStyle::BoldStyle,
        FontStyle::ItalicStyle,
        FontStyle::UnderlineStyle,
        FontStyle::StrikethroughStyle,
    ];
    proof {
        assert(all@ == all_styles());
    }
    let mut out: Vec<FontStyle> = Vec::new();
    let mut i: usize = 0;
    while i < 5
        invariant
            i <= 5,
            all@ == all_styles(),
            out@ == all_styles().take(i as int).filter(|f: FontStyle| has_style(bits, f)),
        decreases 5 - i,
    {
        proof {
            assert(all_styles().take(i + 1).drop_last() == all_styles().take(i as int));
            reveal(Seq::filter);
        }
        let f = all[i];
        if bits & f.to_native() != 0 {
            out.push(f);
        }
        i = i + 1;
    }
    proof {
        assert(all_styles().take(5) == all_styles());
    }
    out
}

/// The bitmask of any list of flags lies in the low four bits, and a named
/// flag's bit is set exactly when the flag is in the list.
pub proof fn lemma_packed_bits(flags: Seq<FontStyle>)
    ensures
        0 <= packed(flags) < 16,
        forall|f: FontStyle|
            f != FontStyle::NormalStyle ==> (#[trigger] has_style(packed(flags), f) <==> flags.contains(
                f,
            )),
    decreases flags.len(),
{
    if flags.len() == 0 {
        assert forall|f: FontStyle| f != FontStyle::NormalStyle implies !#[trigger] has_style(
            packed(flags),
            f,
        ) by {
            let m = f.bit();
            assert(0i32 & m == 0) by (bit_vector);
        }
    } else {
        let rest = flags.drop_last();
        let last = flags.last();
        lemma_packed_bits(rest);
        let a = packed(rest);
        let b = last.bit();
        assert(packed(flags) == a | b);
        assert(0 <= a | b < 16) by (bit_vector)
            requires
                0 <= a < 16,
                b == 0 || b == 1 || b == 2 || b == 4 || b == 8,
        ;
        assert forall|f: FontStyle| f != FontStyle::NormalStyle implies (#[trigger] has_style(
            packed(flags),
            f,
        ) <==> flags.contains(f)) by {
            let m = f.bit();
            assert(((a | b) & m != 0) <==> (a & m != 0 || b == m)) by (bit_vector)
                requires
                    b == 0 || b == 1 || b == 2 || b == 4 || b == 8,
                    m == 1 || m == 2 || m == 4 || m == 8,
            ;
            assert(b == m <==> last == f);
            assert(has_style(a, f) <==> rest.contains(f));
            assert(has_style(packed(flags), f) <==> ((a | b) & m != 0));
            if rest.contains(f) {
                let j = choose|j: int| 0 <= j < rest.len() && rest[j] == f;
                assert(flags[j] == f);
            }
            if last == f {
                assert(flags[flags.len() - 1] == f);
            }
            if flags.contains(f) && last != f {
                let j = choose|j: int| 0 <= j < flags.len() && flags[j] == f;
                assert(rest[j] == f);
            }
        }
    }
}

/// Filtering a list without repeats gives a list without repeats.
proof fn lemma_filter_no_duplicates(s: Seq<FontStyle>, pred: spec_fn(FontStyle) -> bool)
    requires
        s.no_duplicates(),
    ensures
        s.filter(pred).no_duplicates(),
    decreases s.len(),
{
    reveal(Seq::filter);
    if s.len() > 0 {
        let rest = s.drop_last();
        assert(rest.no_duplicates());
        lemma_filter_no_duplicates(rest, pred);
        if rest.filter(pred).contains(s.last()) {
            rest.lemma_filter_contains_rev(pred, s.last());
            let j = choose|j: int| 0 <= j < rest.len() && rest[j] == s.last();
            assert(s[j] == s[s.len() - 1]);
        }
    }
}

/// A decoded bitmask lists exactly the named flags whose bit is set, each
/// once.
pub proof fn lemma_unpacked_members(bits: i32)
    ensures
        forall|f: FontStyle| #[trigger] unpacked(bits).contains(f) <==> has_style(bits, f),
        unpacked(bits).no_duplicates(),
{
    broadcast use vstd::seq_lib::group_filter_ensures;

    let all = all_styles();
    assert(all.no_duplicates());
    assert forall|f: FontStyle| #[trigger] unpacked(bits).contains(f) <==> has_style(bits, f) by {
        let i: int = match f {
            FontStyle::NormalStyle => 0,
            FontStyle::BoldStyle => 1,
            FontStyle::ItalicStyle => 2,
            FontStyle::UnderlineStyle => 3,
            FontStyle::StrikethroughStyle => 4,
        };
        assert(all[i] == f);
        if unpacked(bits).contains(f) {
            let j = choose|j: int| 0 <= j < unpacked(bits).len() && unpacked(bits)[j] == f;
            assert(has_style(bits, unpacked(bits)[j]));
        }
    }
    lemma_filter_no_duplicates(all, |f: FontStyle| has_style(bits, f));
}

/// Writing a list of flags and reading the bitmask back gives the same set:
/// every named flag that was written is read back, `NormalStyle` never is, no
/// other flag appears and none appears twice.
pub proof fn lemma_style_round_trip(flags: Seq<FontStyle>)
    ensures
        forall|f: FontStyle|
            #[trigger] unpacked(packed(flags)).contains(f) <==> (f != FontStyle::NormalStyle
                && flags.contains(f)),
        unpacked(packed(flags)).no_duplicates(),
{
    let bits = packed(flags);
    lemma_packed_bits(flags);
    lemma_unpacked_members(bits);
    assert(!has_style(bits, FontStyle::NormalStyle)) by {
        assert(bits & 0 == 0) by (bit_vector);
    }
}

} // verus!
