//! What a role shows: lines of text at positions of the window. How wide
//! a text is, and so where a centred text begins, is for the renderer to
//! find out.

use vstd::prelude::*;
use vstd::string::*;

verus! {

/// One line of text in the window.
#[derive(Debug, Clone, PartialEq, Eq)]
pub struct Caption {
    pub text: String,
    /// The horizontal position: the middle of a centred text, the left
    /// edge of any other.
    pub x: u32,
    /// The position of the baseline.
    pub y: u32,
    pub centered: bool,
}

/// The mathematical content of a [`Caption`].
pub struct CaptionView {
    pub text: Seq<char>,
    pub x: u32,
    pub y: u32,
    pub centered: bool,
}

impl View for Caption {
    type V = CaptionView;

    open spec fn view(&self) -> CaptionView {
        CaptionView { text: self.text@, x: self.x, y: self.y, centered: self.centered }
    }
}

/// A text centred around `x`.
pub open spec fn centered(text: Seq<char>, x: u32, y: u32) -> CaptionView {
    CaptionView { text, x, y, centered: true }
}

/// A text that starts at `x`.
pub open spec fn plain(text: Seq<char>, x: u32, y: u32) -> CaptionView {
    CaptionView { text, x, y, centered: false }
}

/// The contents of a list of captions.
pub open spec fn captions_view(captions: Seq<Caption>) -> Seq<CaptionView> {
    captions.map_values(|c: Caption| c@)
}

/// The decimal digit for a value below ten.
pub open spec fn digit(d: int) -> char {
    (48 + d) as char
}

/// A number in decimal notation, without leading zeros.
pub open spec fn decimal(n: nat) -> Seq<char>
    decreases n,
{
    if n < 10 {
        seq![digit(n as int)]
    } else {
        decimal(n / 10).push(digit((n % 10) as int))
    }
}

/// Appends `n` in decimal notation.
pub fn push_decimal(text: &mut String, n: u64)
    ensures
        final(text)@ == old(text)@ + decimal(n as nat),
    decreases n,
{
    if n >= 10 {
        push_decimal(text, n / 10);
    }
    let d: u8 = (n % 10) as u8;
    text.push((48u8 + d) as char);
    proof {
        if n >= 10 {
            assert(text@ =~= old(text)@ + decimal(n as nat));
        } else {
            assert(text@ =~= old(text)@ + decimal(n as nat));
        }
    }
}

/// A skeleton with the guess typed so far written over its beginning.
pub open spec fn overlay(skeleton: Seq<char>, guess: Seq<char>) -> Seq<char> {
    Seq::new(
        skeleton.len(),
        |i: int|
            if i < guess.len() {
                guess[i]
            } else {
                skeleton[i]
            },
    )
}

/// Writes the guess over the beginning of the skeleton.
pub fn overlay_guess(skeleton: &str, guess: &str) -> (shown: String)
    ensures
        shown@ == overlay(skeleton@, guess@),
{
    let n = skeleton.unicode_len();
    let m = guess.unicode_len();
    let mut shown = String::new();
    let mut i: usize = 0;
    while i < n
        invariant
            n == skeleton@.len(),
            m == guess@.len(),
            i <= n,
            shown@ == overlay(skeleton@, guess@).subrange(0, i as int),
        decreases n - i,
    {
        let c = if i < m {
            guess.get_char(i)
        } else {
            skeleton.get_char(i)
        };
        shown.push(c);
        i += 1;
        assert(shown@ =~= overlay(skeleton@, guess@).subrange(0, i as int));
    }
    assert(shown@ =~= overlay(skeleton@, guess@));
    shown
}

/// The caption with `text` centred around `(x, y)`.
pub fn center_text(text: String, x: u32, y: u32) -> (caption: Caption)
    ensures
        caption@ == centered(text@, x, y),
{
    Caption { text, x, y, centered: true }
}

} // verus!
