//! The menu bar icon: the logo's alpha stencil tinted with the severity color,
//! and the title shown beside it.
use vstd::prelude::*;

use crate::models::Severity;
use crate::text::{decimal, push_decimal, string_from_chars};

verus! {

/// The icon's side, in physical pixels (22 logical pixels at 2x).
pub const ICON_PX: u32 = 44;

/// The padding around the logo inside the icon, in pixels.
pub const PADDING_PX: u32 = 4;

/// The RGB color of a severity: gray when idle, then green, yellow and red.
pub open spec fn color_of(s: Severity) -> Seq<u8> {
    match s {
        Severity::Idle => seq![200u8, 200u8, 205u8],
        Severity::Normal => seq![52u8, 199u8, 89u8],
        Severity::Warn => seq![255u8, 204u8, 0u8],
        Severity::Alert => seq![255u8, 69u8, 58u8],
    }
}

/// The RGB color of a severity.
pub fn severity_color(s: Severity) -> (c: [u8; 3])
    ensures
        c@ == color_of(s),
{
    let c = match s {
        Severity::Idle => [200u8, 200u8, 205u8],
        Severity::Normal => [52u8, 199u8, 89u8],
        Severity::Warn => [255u8, 204u8, 0u8],
        Severity::Alert => [255u8, 69u8, 58u8],
    };
    assert(c@ =~= color_of(s));
    c
}

/// RGBA pixels: the color `c` in each pixel, with the stencil's alpha.
pub open spec fn tinted(alpha: Seq<u8>, c: Seq<u8>) -> Seq<u8>
    decreases alpha.len(),
{
    if alpha.len() == 0 {
        Seq::empty()
    } else {
        tinted(alpha.drop_last(), c) + seq![c[0], c[1], c[2], alpha.last()]
    }
}

/// The alpha channel of RGBA pixels; trailing bytes short of a pixel are ignored.
pub open spec fn alpha_of(rgba: Seq<u8>) -> Seq<u8> {
    Seq::new(rgba.len() / 4, |i: int| rgba[4 * i + 3])
}

/// The icon pixels for a severity: the severity color with the stencil's alpha.
pub fn icon_rgba(alpha: &Vec<u8>, severity: Severity) -> (rgba: Vec<u8>)
    requires
        4 * alpha@.len() <= usize::MAX,
    ensures
        rgba@ == tinted(alpha@, color_of(severity)),
{
    let color = severity_color(severity);
    let mut rgba: Vec<u8> = Vec::new();
    let mut i: usize = 0;
    while i < alpha.len()
        invariant
            0 <= i <= alpha@.len(),
            color@ == color_of(severity),
            rgba@ == tinted(alpha@.take(i as int), color@),
        decreases alpha@.len() - i,
    {
        assert(alpha@.take(i + 1).drop_last() =~= alpha@.take(i as int));
        rgba.push(color[0]);
        rgba.push(color[1]);
        rgba.push(color[2]);
        rgba.push(alpha[i]);
        assert(rgba@ =~= tinted(alpha@.take(i + 1), color@));
        i = i + 1;
    }
    assert(alpha@.take(alpha@.len() as int) =~= alpha@);
    rgba
}

/// The alpha channel of RGBA pixels: the stencil the icon is tinted through.
pub fn alpha_channel(rgba: &[u8]) -> (alpha: Vec<u8>)
    ensures
        alpha@ == alpha_of(rgba@),
{
    let len = rgba.len();
    let n = len / 4;
    let mut alpha: Vec<u8> = Vec::new();
    let mut k: usize = 0;
    while k < n
        invariant
            len == rgba@.len(),
            n == rgba@.len() / 4,
            0 <= k <= n,
            alpha@ == alpha_of(rgba@).take(k as int),
        decreases n - k,
    {
        assert(4 * k + 3 < len) by (nonlinear_arith)
            requires
                k < n,
                n == len / 4,
        ;
        alpha.push(rgba[4 * k + 3]);
        k = k + 1;
        assert(alpha@ =~= alpha_of(rgba@).take(k as int));
    }
    assert(alpha_of(rgba@).take(n as int) =~= alpha_of(rgba@));
    alpha
}

/// Tinted pixels have four bytes per stencil pixel: the color, then the stencil alpha.
pub proof fn lemma_tinted_pixels(alpha: Seq<u8>, c: Seq<u8>)
    requires
        c.len() == 3,
    ensures
        tinted(alpha, c).len() == 4 * alpha.len(),
        forall|i: int|
            0 <= i < alpha.len() ==> {
                &&& #[trigger] tinted(alpha, c)[4 * i + 3] == alpha[i]
                &&& tinted(alpha, c)[4 * i] == c[0]
                &&& tinted(alpha, c)[4 * i + 1] == c[1]
                &&& tinted(alpha, c)[4 * i + 2] == c[2]
            },
    decreases alpha.len(),
{
    if alpha.len() > 0 {
        let rest = alpha.drop_last();
        lemma_tinted_pixels(rest, c);
        assert forall|i: int| 0 <= i < alpha.len() implies {
            &&& #[trigger] tinted(alpha, c)[4 * i + 3] == alpha[i]
            &&& tinted(alpha, c)[4 * i] == c[0]
            &&& tinted(alpha, c)[4 * i + 1] == c[1]
            &&& tinted(alpha, c)[4 * i + 2] == c[2]
        } by {
            if i < rest.len() {
                assert(tinted(rest, c)[4 * i + 3] == rest[i]);
            }
        }
    }
}

/// Tinting keeps the stencil: the icon's alpha channel is the logo's alpha,
/// whatever the severity, and every pixel has the severity color.
pub proof fn law_tint_keeps_alpha(alpha: Seq<u8>, s: Severity)
    ensures
        alpha_of(tinted(alpha, color_of(s))) == alpha,
        forall|i: int|
            0 <= i < alpha.len() ==> #[trigger] tinted(alpha, color_of(s)).subrange(4 * i, 4 * i + 3)
                == color_of(s),
{
    let c = color_of(s);
    lemma_tinted_pixels(alpha, c);
    let t = tinted(alpha, c);
    assert(t.len() / 4 == alpha.len());
    assert(alpha_of(t) =~= alpha);
    assert forall|i: int| 0 <= i < alpha.len() implies #[trigger] t.subrange(4 * i, 4 * i + 3) == c by {
        assert(t[4 * i + 3] == alpha[i]);
        assert(t.subrange(4 * i, 4 * i + 3) =~= c);
    }
}

/// The title beside the icon: the worst level rounded to a whole percent, from
/// 70% up; nothing below.
pub open spec fn tray_title_spec(worst: u16) -> Seq<char> {
    if worst >= 7000 {
        decimal(((worst + 50) / 100) as nat) + "%"@
    } else {
        Seq::empty()
    }
}

/// The title beside the icon for the worst fill level.
pub fn tray_title(worst: u16) -> (s: String)
    ensures
        s@ == tray_title_spec(worst),
{
    let mut v: Vec<char> = Vec::new();
    if worst >= 7000 {
        let rounded: u64 = ((worst as u64) + 50) / 100;
        push_decimal(&mut v, rounded);
        v.push('%');
        proof {
            reveal_strlit("%");
        }
        assert(v@ =~= tray_title_spec(worst));
    } else {
        assert(v@ =~= tray_title_spec(worst));
    }
    string_from_chars(&v)
}

} // verus!
