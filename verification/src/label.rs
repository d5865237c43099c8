//! The label kind: text in segments, each with a font size and a colour.
//!
//! A label is a list of segments. A stage's label delta, the animator's label
//! baseline and the live label are all lists of [`AniText`], matched up by
//! position. Text is swapped, not interpolated; sizes and colours move like
//! any other field.

use vstd::prelude::*;
use crate::property::{color_add, lerp_color, Color};
use crate::ratio::{add_clamped, clamp, lerp, lerp_value, Ratio};

verus! {

/// One segment of a label.
#[derive(Debug)]
pub struct AniText {
    pub text: String,
    pub font_size: i64,
    pub color: Color,
}

impl AniText {
    /// The segment that a baseline segment becomes when the delta `change`
    /// is committed to it: the text of `change`, the size and the colour
    /// with those of `change` added.
    pub open spec fn plus(self, change: AniText) -> AniText {
        AniText {
            text: change.text,
            font_size: clamp(self.font_size + change.font_size) as i64,
            color: self.color.plus(change.color),
        }
    }

    /// What a live segment shows when `change` has been applied with `ratio`
    /// on the baseline `self`: the text of `change` at once, and the size and
    /// the colour moved by the part `ratio` of those of `change`, where they
    /// are not zero.
    pub open spec fn rendered(self, change: AniText, ratio: Ratio, live: AniText) -> AniText {
        AniText {
            text: change.text,
            font_size: if change.font_size != 0 {
                lerp_value(self.font_size as int, change.font_size as int, ratio) as i64
            } else {
                live.font_size
            },
            color: if !change.color.is_none() {
                self.color.moved(change.color, ratio)
            } else {
                live.color
            },
        }
    }

    /// Sets the text that the stage puts in place of the segment's own.
    pub fn set_text(&mut self, text: String) -> (r: &mut AniText)
        ensures
            *final(self) == *final(r),
            *r == (AniText { text, font_size: old(self).font_size, color: old(self).color }),
    {
        self.text = text;
        self
    }

    /// Sets the change of the font size; zero leaves the size alone.
    pub fn set_font_size(&mut self, font_size: i64) -> (r: &mut AniText)
        ensures
            *final(self) == *final(r),
            *r == (AniText { text: old(self).text, font_size, color: old(self).color }),
    {
        self.font_size = font_size;
        self
    }

    /// Sets the change of the colour; the all-zero colour leaves the colour
    /// alone.
    pub fn set_color(&mut self, color: Color) -> (r: &mut AniText)
        ensures
            *final(self) == *final(r),
            *r == (AniText { text: old(self).text, font_size: old(self).font_size, color }),
    {
        self.color = color;
        self
    }
}

impl Clone for AniText {
    fn clone(&self) -> (r: AniText)
        ensures
            r == *self,
    {
        AniText { text: self.text.clone(), font_size: self.font_size, color: self.color }
    }
}

impl Default for AniText {
    /// A segment delta that changes nothing but the text, which it empties.
    fn default() -> (r: AniText)
        ensures
            r.text@ == Seq::<char>::empty(),
            r.font_size == 0,
            r.color.is_none(),
    {
        AniText { text: String::new(), font_size: 0, color: Color::none() }
    }
}

/// The label baseline after the live label has been taken: each live segment
/// in its place, and behind them what the baseline held beyond the live
/// label's length.
pub open spec fn text_captured(base: Seq<AniText>, live: Seq<AniText>) -> Seq<AniText> {
    Seq::new(
        if base.len() > live.len() {
            base.len()
        } else {
            live.len()
        },
        |i: int|
            if i < live.len() {
                live[i]
            } else {
                base[i]
            },
    )
}

/// The label baseline with the delta `change` committed, segment by segment.
/// Segments that the delta does not reach stay as they are.
pub open spec fn text_plus(base: Seq<AniText>, change: Seq<AniText>) -> Seq<AniText> {
    Seq::new(
        base.len(),
        |i: int|
            if i < change.len() {
                base[i].plus(change[i])
            } else {
                base[i]
            },
    )
}

/// What the live label shows when `change` has been applied with `ratio` on
/// the baseline `base`. Only segments that the delta, the baseline and the
/// live label all have are written.
pub open spec fn text_rendered(
    base: Seq<AniText>,
    change: Seq<AniText>,
    ratio: Ratio,
    live: Seq<AniText>,
) -> Seq<AniText> {
    Seq::new(
        live.len(),
        |i: int|
            if i < change.len() && i < base.len() {
                base[i].rendered(change[i], ratio, live[i])
            } else {
                live[i]
            },
    )
}

/// Takes the segments of the live label as the new baseline.
pub fn text_copy_from(base: &mut Vec<AniText>, other: &Vec<AniText>)
    ensures
        final(base)@ == text_captured(old(base)@, other@),
{
    let mut i: usize = 0;
    while i < other.len()
        invariant
            i <= other.len(),
            base.len() == (if old(base).len() > i {
                old(base).len()
            } else {
                i
            }),
            forall|j: int| 0 <= j < i ==> base[j] == other[j],
            forall|j: int| i <= j < base.len() ==> base[j] == old(base)[j],
        decreases other.len() - i,
    {
        let item = other[i].clone();
        if i < base.len() {
            base[i] = item;
        } else {
            base.push(item);
        }
        i += 1;
    }
    assert(base@ =~= text_captured(old(base)@, other@));
}

/// Commits the label delta `change` to the baseline.
pub fn text_add(base: &mut Vec<AniText>, change: &Vec<AniText>)
    ensures
        final(base)@ == text_plus(old(base)@, change@),
{
    let mut i: usize = 0;
    while i < base.len() && i < change.len()
        invariant
            base.len() == old(base).len(),
            i <= base.len(),
            i <= change.len(),
            forall|j: int| 0 <= j < i ==> base[j] == old(base)[j].plus(change[j]),
            forall|j: int| i <= j < base.len() ==> base[j] == old(base)[j],
        decreases base.len() - i,
    {
        let item = AniText {
            text: change[i].text.clone(),
            font_size: add_clamped(base[i].font_size, change[i].font_size),
            color: color_add(base[i].color, change[i].color),
        };
        base[i] = item;
        i += 1;
    }
    assert(base@ =~= text_plus(old(base)@, change@));
}

/// Writes the label delta `change`, applied with `ratio` on the baseline
/// `base`, to the live label.
pub fn text_render(
    base: &Vec<AniText>,
    change: &Vec<AniText>,
    ratio: Ratio,
    live: &mut Vec<AniText>,
)
    ensures
        final(live)@ == text_rendered(base@, change@, ratio, old(live)@),
{
    let mut i: usize = 0;
    while i < live.len() && i < change.len() && i < base.len()
        invariant
            live.len() == old(live).len(),
            i <= live.len(),
            i <= change.len(),
            i <= base.len(),
            forall|j: int|
                0 <= j < i ==> live[j] == base[j].rendered(
                    change[j],
                    ratio,
                    old(live)[j],
                ),
            forall|j: int| i <= j < live.len() ==> live[j] == old(live)[j],
        decreases live.len() - i,
    {
        let font_size: i64 = if change[i].font_size != 0 {
            lerp(base[i].font_size, change[i].font_size, ratio)
        } else {
            live[i].font_size
        };
        let color = if change[i].color != Color::none() {
            lerp_color(base[i].color, change[i].color, ratio)
        } else {
            live[i].color
        };
        let item = AniText { text: change[i].text.clone(), font_size, color };
        live[i] = item;
        i += 1;
    }
    assert(live@ =~= text_rendered(base@, change@, ratio, old(live)@));
}

} // verus!
