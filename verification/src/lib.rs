//! Display-width-aware padding for terminal output.
//!
//! A string of CJK ideographs or emoji occupies more terminal columns than its
//! character count suggests. The wrappers [`CJKAlign`] and [`CJKAlignWide`]
//! measure a borrowed string by its display width, as the `unicode-width`
//! crate reports it, and pad it with spaces to a requested column width under
//! a left, right or center alignment. The two wrappers differ only in how
//! East-Asian-Ambiguous characters are counted: one column for [`CJKAlign`],
//! two for [`CJKAlignWide`].

use vstd::prelude::*;
use vstd::string::StringExecFns;

verus! {

/// Where the padding spaces are placed relative to the text.
#[derive(Clone, Copy, PartialEq, Eq, Structural, Debug)]
pub enum AlignmentMode {
    /// Text first, then the padding spaces.
    Left,
    /// Padding spaces first, then the text.
    Right,
    /// Padding split around the text; the left side gets the larger half.
    Center,
}

/// Display column width of a character sequence with East-Asian-Ambiguous
/// characters counted one column wide, as `unicode_width` measures it.
pub uninterp spec fn default_width(s: Seq<char>) -> nat;

/// Display column width of a character sequence with East-Asian-Ambiguous
/// characters counted two columns wide, as `unicode_width` measures it.
pub uninterp spec fn cjk_width(s: Seq<char>) -> nat;

/// Relies on `unicode_width::UnicodeWidthStr::width`: the displayed column
/// count of a string, Ambiguous characters one column wide; it depends on the
/// string's characters alone.
#[verifier::external_body]
fn measure_default(s: &str) -> (w: usize)
    ensures
        w as nat == default_width(s@),
{
    unicode_width::UnicodeWidthStr::width(s)
}

/// Relies on `unicode_width::UnicodeWidthStr::width_cjk`: the displayed column
/// count of a string, Ambiguous characters two columns wide; it depends on the
/// string's characters alone.
#[verifier::external_body]
fn measure_cjk(s: &str) -> (w: usize)
    ensures
        w as nat == cjk_width(s@),
{
    unicode_width::UnicodeWidthStr::width_cjk(s)
}

/// A run of `n` space characters.
pub open spec fn spaces(n: nat) -> Seq<char> {
    Seq::new(n, |i: int| ' ')
}

/// How many spaces a text of display width `self_width` needs to fill a field
/// of `requested` columns: the saturating difference, never negative.
pub open spec fn pad_count(self_width: nat, requested: nat) -> nat {
    if requested > self_width {
        (requested - self_width) as nat
    } else {
        0
    }
}

/// The padded character sequence: the text unchanged when `requested` is zero,
/// otherwise the text with `pad_count` spaces distributed by `align`. Under
/// `Center`, the left side gets `pad - pad / 2` spaces and the right side
/// `pad / 2`, so an odd pad leaves the extra space on the left.
pub open spec fn padded(
    text: Seq<char>,
    self_width: nat,
    requested: nat,
    align: AlignmentMode,
) -> Seq<char> {
    if requested == 0 {
        text
    } else {
        let pad = pad_count(self_width, requested);
        match align {
            AlignmentMode::Left => text + spaces(pad),
            AlignmentMode::Right => spaces(pad) + text,
            AlignmentMode::Center => spaces((pad - pad / 2) as nat) + text + spaces(pad / 2),
        }
    }
}

/// Builds a string of `n` spaces.
fn space_run(n: usize) -> (r: String)
    ensures
        r@ == spaces(n as nat),
{
    let mut r = String::new();
    let mut i: usize = 0;
    proof {
        assert(r@ =~= spaces(0));
    }
    while i < n
        invariant
            i <= n,
            r@ == spaces(i as nat),
        decreases n - i,
    {
        r.append(" ");
        i = i + 1;
        proof {
            reveal_strlit(" ");
            assert(r@ =~= spaces(i as nat));
        }
    }
    r
}

/// Pads `text`, whose display width the caller has measured as `self_width`,
/// to `requested` columns under `align`. The result is exactly the character
/// sequence [`padded`] describes: unchanged text when `requested` is zero or
/// no wider than the text, spaces added on the side `align` picks otherwise.
pub fn pad_to_width(
    text: &str,
    self_width: usize,
    requested: usize,
    align: AlignmentMode,
) -> (r: String)
    ensures
        r@ == padded(text@, self_width as nat, requested as nat, align),
{
    if requested == 0 {
        String::from_str(text)
    } else {
        let pad = if requested > self_width {
            requested - self_width
        } else {
            0
        };
        match align {
            AlignmentMode::Left => {
                let mut r = String::from_str(text);
                let tail = space_run(pad);
                r.append(tail.as_str());
                r
            },
            AlignmentMode::Right => {
                let mut r = space_run(pad);
                r.append(text);
                r
            },
            AlignmentMode::Center => {
                let mut r = space_run(pad - pad / 2);
                r.append(text);
                let tail = space_run(pad / 2);
                r.append(tail.as_str());
                r
            },
        }
    }
}

/// A borrowed string measured with East-Asian-Ambiguous characters one column
/// wide: the recommendation for non-CJK contexts.
pub struct CJKAlign<'a>(pub &'a str);

impl<'a> CJKAlign<'a> {
    /// The display column width of the wrapped string under this wrapper's
    /// policy.
    pub fn width(&self) -> (w: usize)
        ensures
            w as nat == default_width(self.0@),
    {
        measure_default(self.0)
    }

    /// The wrapped string padded with spaces to `requested` display columns
    /// under `align`; unchanged when `requested` is zero or the string is
    /// already at least that wide.
    pub fn render(&self, requested: usize, align: AlignmentMode) -> (r: String)
        ensures
            r@ == padded(self.0@, default_width(self.0@), requested as nat, align),
    {
        let w = measure_default(self.0);
        pad_to_width(self.0, w, requested, align)
    }
}

/// A borrowed string measured with East-Asian-Ambiguous characters two
/// columns wide: the recommendation for CJK contexts.
pub struct CJKAlignWide<'a>(pub &'a str);

impl<'a> CJKAlignWide<'a> {
    /// The display column width of the wrapped string under this wrapper's
    /// policy.
    pub fn width(&self) -> (w: usize)
        ensures
            w as nat == cjk_width(self.0@),
    {
        measure_cjk(self.0)
    }

    /// The wrapped string padded with spaces to `requested` display columns
    /// under `align`; unchanged when `requested` is zero or the string is
    /// already at least that wide.
    pub fn render(&self, requested: usize, align: AlignmentMode) -> (r: String)
        ensures
            r@ == padded(self.0@, cjk_width(self.0@), requested as nat, align),
    {
        let w = measure_cjk(self.0);
        pad_to_width(self.0, w, requested, align)
    }
}

/// A text already as wide as the requested field, or wider, is returned
/// unchanged under every alignment: no truncation, no padding.
pub proof fn lemma_wide_text_unchanged(
    text: Seq<char>,
    self_width: nat,
    requested: nat,
    align: AlignmentMode,
)
    requires
        self_width >= requested,
    ensures
        padded(text, self_width, requested, align) == text,
{
    assert(spaces(0) =~= Seq::<char>::empty());
    assert(text + spaces(0) =~= text);
    assert(spaces(0) + text =~= text);
    assert(spaces(0) + text + spaces(0) =~= text);
}

/// A zero requested width returns the text unchanged under every alignment,
/// whatever the text's actual display width.
pub proof fn lemma_zero_width_passthrough(text: Seq<char>, self_width: nat, align: AlignmentMode)
    ensures
        padded(text, self_width, 0, align) == text,
{
}

/// Left alignment in a field wider than the text yields the text itself
/// followed by exactly the missing columns' worth of spaces, and nothing else.
pub proof fn lemma_left_pad_structure(text: Seq<char>, self_width: nat, requested: nat)
    requires
        requested > 0,
    ensures
        ({
            let r = padded(text, self_width, requested, AlignmentMode::Left);
            let pad = pad_count(self_width, requested);
            &&& r.len() == text.len() + pad
            &&& r.subrange(0, text.len() as int) == text
            &&& forall|i: int| text.len() <= i < r.len() ==> r[i] == ' '
        }),
{
    let r = padded(text, self_width, requested, AlignmentMode::Left);
    assert(r.subrange(0, text.len() as int) =~= text);
}

/// Right alignment mirrors left alignment: reversing a right-aligned result
/// gives the left-aligned result of the reversed text, the same spaces moved
/// from the end to the start.
pub proof fn lemma_right_mirrors_left(text: Seq<char>, self_width: nat, requested: nat)
    ensures
        padded(text, self_width, requested, AlignmentMode::Right).reverse() == padded(
            text.reverse(),
            self_width,
            requested,
            AlignmentMode::Left,
        ),
{
    if requested == 0 {
    } else {
        let pad = pad_count(self_width, requested);
        let r = spaces(pad) + text;
        assert(r.reverse() =~= text.reverse() + spaces(pad));
    }
}

/// The center tie-break: the left side gets `pad - pad / 2` spaces and the
/// right side `pad / 2`, so an odd pad count puts the extra space on the
/// left, `(pad + 1) / 2` against `pad / 2`.
pub proof fn lemma_center_tie_break(text: Seq<char>, self_width: nat, requested: nat)
    requires
        requested > 0,
    ensures
        ({
            let pad = pad_count(self_width, requested);
            let left = (pad - pad / 2) as nat;
            let right = pad / 2;
            &&& padded(text, self_width, requested, AlignmentMode::Center) == spaces(left) + text
                + spaces(right)
            &&& left + right == pad
            &&& pad % 2 == 0 ==> left == right
            &&& pad % 2 == 1 ==> left == (pad + 1) / 2 && left == right + 1
        }),
{
}

} // verus!
