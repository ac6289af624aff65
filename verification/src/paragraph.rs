//! Typed paragraph attributes (alignment, spacing, indentation, tab width)
//! and the pure mappings that decode them from format control directives.

use vstd::prelude::*;

verus! {

/// A recognized format control directive, optionally carrying a signed
/// numeric parameter. Produced by an external tokenizer; this module only
/// consumes it. `Unknown` stands for every directive this model does not
/// interpret.
#[derive(Debug, Clone, Copy, PartialEq, Eq, Structural)]
pub enum ControlWord {
    LeftAligned,
    RightAligned,
    Center,
    Justify,
    LineSpacing(i32),
    SpaceBefore(i32),
    SpaceAfter(i32),
    LineMultiplier(i32),
    LeftIndent(i32),
    RightIndent(i32),
    FirstLineIndent(i32),
    TabWidth(i32),
    Unknown,
}

/// Alignment of a paragraph (left, right, center, justify).
#[derive(Debug, Clone, Copy, PartialEq, Eq, Structural, Hash)]
pub enum Alignment {
    LeftAligned,
    RightAligned,
    Center,
    Justify,
}

/// The four directives that name an alignment outright.
pub open spec fn is_alignment_directive(word: ControlWord) -> bool {
    ||| word is LeftAligned
    ||| word is RightAligned
    ||| word is Center
    ||| word is Justify
}

/// Which alignment a control directive selects: each of the four alignment
/// directives maps to its value; every other directive falls back to
/// `LeftAligned`. The fallback is a deliberate permissive-parsing policy:
/// an unrecognized or irrelevant directive must not abort processing of the
/// paragraph.
pub open spec fn alignment_of(word: ControlWord) -> Alignment {
    match word {
        ControlWord::LeftAligned => Alignment::LeftAligned,
        ControlWord::RightAligned => Alignment::RightAligned,
        ControlWord::Center => Alignment::Center,
        ControlWord::Justify => Alignment::Justify,
        _ => Alignment::LeftAligned,
    }
}

impl<'a> From<&'a ControlWord> for Alignment {
    fn from(word: &'a ControlWord) -> (r: Alignment) {
        match word {
            ControlWord::LeftAligned => Alignment::LeftAligned,
            ControlWord::RightAligned => Alignment::RightAligned,
            ControlWord::Center => Alignment::Center,
            ControlWord::Justify => Alignment::Justify,
            _ => Alignment::LeftAligned,
        }
    }
}

impl<'a> vstd::std_specs::convert::FromSpecImpl<&'a ControlWord> for Alignment {
    open spec fn obeys_from_spec() -> bool {
        true
    }

    open spec fn from_spec(word: &'a ControlWord) -> Alignment {
        alignment_of(*word)
    }
}

impl Default for Alignment {
    fn default() -> (r: Alignment)
        ensures
            r == Alignment::LeftAligned,
    {
        Alignment::LeftAligned
    }
}

/// The space between the lines of a paragraph. `Value` carries a
/// non-negative magnitude; `Auto` means the line height is determined by
/// the tallest glyph on the line; `Invalid` is a representable but
/// never-produced state, reserved for forward compatibility.
#[derive(Debug, Clone, PartialEq, Eq, Structural, Hash)]
pub enum SpaceBetweenLine {
    Value(i32),
    Auto,
    Invalid,
}

/// How a raw signed line-spacing parameter is decoded:
/// - 1000 is a sentinel meaning `Auto` (tallest glyph decides);
/// - a negative value means its magnitude is forced exactly, even if
///   shorter than the tallest glyph;
/// - any other non-negative value is a minimum height, used only if taller
///   than the tallest glyph.
/// The forced-exact / minimum-if-taller distinction is deliberately
/// discarded once the sign is removed, matching the legacy format's
/// consumers; both collapse to `Value(magnitude)`.
pub open spec fn line_spacing_of(raw: i32) -> SpaceBetweenLine {
    if raw == 1000 {
        SpaceBetweenLine::Auto
    } else if raw < 0 {
        SpaceBetweenLine::Value((-(raw as int)) as i32)
    } else {
        SpaceBetweenLine::Value(raw)
    }
}

impl SpaceBetweenLine {
    /// Decodes a raw signed line-spacing parameter. The magnitude of the
    /// most negative machine integer is not representable, so that single
    /// input is excluded.
    pub fn from(raw: i32) -> (r: SpaceBetweenLine)
        requires
            raw != i32::MIN,
        ensures
            r == line_spacing_of(raw),
    {
        if raw == 1000 {
            SpaceBetweenLine::Auto
        } else if raw < 0 {
            SpaceBetweenLine::Value(-raw)
        } else {
            SpaceBetweenLine::Value(raw)
        }
    }
}

impl Default for SpaceBetweenLine {
    fn default() -> (r: SpaceBetweenLine)
        ensures
            r == SpaceBetweenLine::Auto,
    {
        SpaceBetweenLine::Auto
    }
}

/// The vertical margins before and after a block of text, the space
/// between its lines, and a line multiplier.
#[derive(Debug, Clone, PartialEq, Eq, Structural, Hash)]
pub struct Spacing {
    pub before: i32,
    pub after: i32,
    pub between_line: SpaceBetweenLine,
    pub line_multiplier: i32,
}

impl Default for Spacing {
    fn default() -> (r: Spacing)
        ensures
            r == (Spacing {
                before: 0,
                after: 0,
                between_line: SpaceBetweenLine::Auto,
                line_multiplier: 0,
            }),
    {
        Spacing { before: 0, after: 0, between_line: SpaceBetweenLine::Auto, line_multiplier: 0 }
    }
}

/// Left, right and first-line indent magnitudes. A record rather than a
/// variant, because all three may be non-zero at the same time.
#[derive(Debug, Clone, PartialEq, Eq, Structural, Hash)]
pub struct Indentation {
    pub left: i32,
    pub right: i32,
    pub first_line: i32,
}

impl Default for Indentation {
    fn default() -> (r: Indentation)
        ensures
            r == (Indentation { left: 0, right: 0, first_line: 0 }),
    {
        Indentation { left: 0, right: 0, first_line: 0 }
    }
}

/// The paragraph aggregate: alignment, spacing, indentation and tab width.
/// The unit a document assembler consumes.
#[derive(Debug, Clone, PartialEq, Eq, Structural, Hash)]
pub struct Paragraph {
    pub alignment: Alignment,
    pub spacing: Spacing,
    pub indent: Indentation,
    pub tab_width: i32,
}

/// The all-defaults paragraph: left-aligned, zero margins, automatic line
/// spacing, zero indents, zero tab width.
pub open spec fn default_paragraph() -> Paragraph {
    Paragraph {
        alignment: Alignment::LeftAligned,
        spacing: Spacing {
            before: 0,
            after: 0,
            between_line: SpaceBetweenLine::Auto,
            line_multiplier: 0,
        },
        indent: Indentation { left: 0, right: 0, first_line: 0 },
        tab_width: 0,
    }
}

impl Default for Paragraph {
    fn default() -> (r: Paragraph)
        ensures
            r == default_paragraph(),
    {
        Paragraph {
            alignment: Alignment::LeftAligned,
            spacing: Spacing {
                before: 0,
                after: 0,
                between_line: SpaceBetweenLine::Auto,
                line_multiplier: 0,
            },
            indent: Indentation { left: 0, right: 0, first_line: 0 },
            tab_width: 0,
        }
    }
}

/// Whether a directive's numeric parameter can be decoded on this machine:
/// the magnitude of the most negative line-spacing parameter is not
/// representable.
pub open spec fn directive_in_range(word: ControlWord) -> bool {
    word matches ControlWord::LineSpacing(raw) ==> raw != i32::MIN
}

/// The field-level update a single directive makes to a paragraph: exactly
/// one field changes, and an unrecognized directive changes nothing.
pub open spec fn apply_directive(p: Paragraph, word: ControlWord) -> Paragraph {
    match word {
        ControlWord::LeftAligned => Paragraph { alignment: Alignment::LeftAligned, ..p },
        ControlWord::RightAligned => Paragraph { alignment: Alignment::RightAligned, ..p },
        ControlWord::Center => Paragraph { alignment: Alignment::Center, ..p },
        ControlWord::Justify => Paragraph { alignment: Alignment::Justify, ..p },
        ControlWord::LineSpacing(raw) => Paragraph {
            spacing: Spacing { between_line: line_spacing_of(raw), ..p.spacing },
            ..p
        },
        ControlWord::SpaceBefore(n) => Paragraph {
            spacing: Spacing { before: n, ..p.spacing },
            ..p
        },
        ControlWord::SpaceAfter(n) => Paragraph {
            spacing: Spacing { after: n, ..p.spacing },
            ..p
        },
        ControlWord::LineMultiplier(n) => Paragraph {
            spacing: Spacing { line_multiplier: n, ..p.spacing },
            ..p
        },
        ControlWord::LeftIndent(n) => Paragraph {
            indent: Indentation { left: n, ..p.indent },
            ..p
        },
        ControlWord::RightIndent(n) => Paragraph {
            indent: Indentation { right: n, ..p.indent },
            ..p
        },
        ControlWord::FirstLineIndent(n) => Paragraph {
            indent: Indentation { first_line: n, ..p.indent },
            ..p
        },
        ControlWord::TabWidth(n) => Paragraph { tab_width: n, ..p },
        ControlWord::Unknown => p,
    }
}

/// The paragraph that a whole directive stream yields when it is applied,
/// left to right, to the all-defaults paragraph.
pub open spec fn decoded(words: Seq<ControlWord>) -> Paragraph
    decreases words.len(),
{
    if words.len() == 0 {
        default_paragraph()
    } else {
        apply_directive(decoded(words.drop_last()), words.last())
    }
}

impl Paragraph {
    /// Updates the one field the given directive addresses, leaving every
    /// other field as it was. An unrecognized directive is silently
    /// ignored: paragraph processing never aborts.
    pub fn apply(&mut self, word: &ControlWord)
        requires
            directive_in_range(*word),
        ensures
            *final(self) == apply_directive(*old(self), *word),
    {
        match word {
            ControlWord::LeftAligned => self.alignment = Alignment::LeftAligned,
            ControlWord::RightAligned => self.alignment = Alignment::RightAligned,
            ControlWord::Center => self.alignment = Alignment::Center,
            ControlWord::Justify => self.alignment = Alignment::Justify,
            ControlWord::LineSpacing(raw) => {
                self.spacing.between_line = SpaceBetweenLine::from(*raw);
            },
            ControlWord::SpaceBefore(n) => self.spacing.before = *n,
            ControlWord::SpaceAfter(n) => self.spacing.after = *n,
            ControlWord::LineMultiplier(n) => self.spacing.line_multiplier = *n,
            ControlWord::LeftIndent(n) => self.indent.left = *n,
            ControlWord::RightIndent(n) => self.indent.right = *n,
            ControlWord::FirstLineIndent(n) => self.indent.first_line = *n,
            ControlWord::TabWidth(n) => self.tab_width = *n,
            ControlWord::Unknown => (),
        }
    }
}

/// Decodes a whole directive stream into the paragraph it describes,
/// starting from the all-defaults paragraph.
pub fn decode(words: &Vec<ControlWord>) -> (r: Paragraph)
    requires
        forall|i: int| 0 <= i < words@.len() ==> directive_in_range(#[trigger] words@[i]),
    ensures
        r == decoded(words@),
{
    let mut p = Paragraph::default();
    let mut i: usize = 0;
    while i < words.len()
        invariant
            0 <= i <= words@.len(),
            p == decoded(words@.take(i as int)),
            forall|j: int| 0 <= j < words@.len() ==> directive_in_range(#[trigger] words@[j]),
        decreases words@.len() - i,
    {
        proof {
            assert(words@.take(i + 1).drop_last() =~= words@.take(i as int));
            assert(words@.take(i + 1).last() == words@[i as int]);
        }
        p.apply(&words[i]);
        i += 1;
    }
    proof {
        assert(words@.take(words@.len() as int) =~= words@);
    }
    p
}

/// Whether some alignment directive selects the given alignment.
pub open spec fn some_directive_selects(a: Alignment) -> bool {
    exists|w: ControlWord| is_alignment_directive(w) && #[trigger] alignment_of(w) == a
}

/// Law: on the four alignment directives, `alignment_of` is a bijection
/// onto the alignment values — distinct alignment directives select
/// distinct alignments, and every alignment is selected by one of them.
pub proof fn lemma_alignment_of_bijective()
    ensures
        forall|w1: ControlWord, w2: ControlWord|
            is_alignment_directive(w1) && is_alignment_directive(w2)
                && #[trigger] alignment_of(w1) == #[trigger] alignment_of(w2) ==> w1 == w2,
        forall|a: Alignment| #[trigger] some_directive_selects(a),
{
    assert forall|a: Alignment| #[trigger] some_directive_selects(a) by {
        if a == Alignment::LeftAligned {
            assert(is_alignment_directive(ControlWord::LeftAligned)
                && alignment_of(ControlWord::LeftAligned) == a);
        } else if a == Alignment::RightAligned {
            assert(is_alignment_directive(ControlWord::RightAligned)
                && alignment_of(ControlWord::RightAligned) == a);
        } else if a == Alignment::Center {
            assert(is_alignment_directive(ControlWord::Center)
                && alignment_of(ControlWord::Center) == a);
        } else {
            assert(is_alignment_directive(ControlWord::Justify)
                && alignment_of(ControlWord::Justify) == a);
        }
    }
}

/// Law: any directive outside the four alignment directives falls back to
/// the default alignment.
pub proof fn lemma_alignment_of_fallback(word: ControlWord)
    requires
        !is_alignment_directive(word),
    ensures
        alignment_of(word) == Alignment::LeftAligned,
{
}

/// Law: a negative line-spacing parameter forces its magnitude exactly —
/// for every positive `n`, decoding `-n` yields `Value(n)`.
pub proof fn lemma_line_spacing_forced_exact(n: i32)
    requires
        0 < n,
    ensures
        line_spacing_of((-(n as int)) as i32) == SpaceBetweenLine::Value(n),
{
}

/// Law: a non-negative line-spacing parameter other than the sentinel is
/// kept as a minimum height — decoding `n` yields `Value(n)`.
pub proof fn lemma_line_spacing_minimum(n: i32)
    requires
        0 <= n,
        n != 1000,
    ensures
        line_spacing_of(n) == SpaceBetweenLine::Value(n),
{
}

/// Law: whatever the sign of the raw parameter, a decoded `Value`
/// magnitude is non-negative.
pub proof fn lemma_line_spacing_value_non_negative(raw: i32)
    requires
        raw != i32::MIN,
    ensures
        line_spacing_of(raw) matches SpaceBetweenLine::Value(m) ==> 0 <= m,
{
}

/// Law: applying the same directive twice yields the same paragraph as
/// applying it once — a field update is idempotent.
pub proof fn lemma_apply_idempotent(p: Paragraph, word: ControlWord)
    ensures
        apply_directive(apply_directive(p, word), word) == apply_directive(p, word),
{
}

/// Law: two paragraphs are equal exactly when every corresponding field,
/// down through the sub-records, is equal. (Together with the derived
/// field-wise `Hash`, equal paragraphs hash identically, as a style cache
/// requires.)
pub proof fn lemma_paragraph_eq_iff_fields(p1: Paragraph, p2: Paragraph)
    ensures
        (p1 == p2) <==> (p1.alignment == p2.alignment && p1.spacing.before == p2.spacing.before
            && p1.spacing.after == p2.spacing.after
            && p1.spacing.between_line == p2.spacing.between_line
            && p1.spacing.line_multiplier == p2.spacing.line_multiplier
            && p1.indent.left == p2.indent.left && p1.indent.right == p2.indent.right
            && p1.indent.first_line == p2.indent.first_line && p1.tab_width == p2.tab_width),
{
}

} // verus!
