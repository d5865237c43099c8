//! The property kinds a stage can move, and how one field is interpolated.
//!
//! There are four kinds: a sprite's appearance, a layout box, a transform and
//! a label made of text segments. Each kind has a payload type that serves
//! both as a stage's delta and as the animator's baseline, and a live type
//! that stands for the component the animator writes to. In a delta, a field
//! that holds its kind's rest value (zero, the colour with every channel
//! zero, [`Val::Auto`]) is left alone when the stage plays.

use vstd::prelude::*;
use crate::ratio::{add_clamped, clamp, lerp, lerp_value, Ratio};

verus! {

/// A pair of whole-number coordinates.
#[derive(Clone, Copy, Debug, PartialEq, Eq, Structural)]
pub struct Vec2 {
    pub x: i64,
    pub y: i64,
}

/// A triple of whole-number coordinates.
#[derive(Clone, Copy, Debug, PartialEq, Eq, Structural)]
pub struct Vec3 {
    pub x: i64,
    pub y: i64,
    pub z: i64,
}

/// A colour as four whole-number channels. Channels are not limited to any
/// range: a stage may drive them past what a display can show.
#[derive(Clone, Copy, Debug, PartialEq, Eq, Structural)]
pub struct Color {
    pub red: i64,
    pub green: i64,
    pub blue: i64,
    pub alpha: i64,
}

/// A length of a layout box, tagged with its unit.
#[derive(Clone, Copy, Debug, PartialEq, Eq, Structural)]
pub enum Val {
    Auto,
    Px(i64),
    Percent(i64),
    Vw(i64),
    Vh(i64),
    VMin(i64),
    VMax(i64),
}

impl Vec2 {
    /// Whether this is the zero vector, the rest value of a size delta.
    pub open spec fn is_zero(self) -> bool {
        self == (Vec2 { x: 0, y: 0 })
    }

    /// The zero vector.
    pub fn zero() -> (v: Vec2)
        ensures
            v == (Vec2 { x: 0, y: 0 }),
    {
        Vec2 { x: 0, y: 0 }
    }

    /// The sum of two vectors, coordinate by coordinate.
    pub open spec fn plus(self, rhs: Vec2) -> Vec2 {
        Vec2 { x: clamp(self.x + rhs.x) as i64, y: clamp(self.y + rhs.y) as i64 }
    }

    /// `self` moved by the part `ratio` of `change`.
    pub open spec fn moved(self, change: Vec2, ratio: Ratio) -> Vec2 {
        Vec2 {
            x: lerp_value(self.x as int, change.x as int, ratio) as i64,
            y: lerp_value(self.y as int, change.y as int, ratio) as i64,
        }
    }
}

impl Vec3 {
    /// Whether this is the zero vector, the rest value of a translation or
    /// scale delta.
    pub open spec fn is_zero(self) -> bool {
        self == (Vec3 { x: 0, y: 0, z: 0 })
    }

    /// The zero vector.
    pub fn zero() -> (v: Vec3)
        ensures
            v == (Vec3 { x: 0, y: 0, z: 0 }),
    {
        Vec3 { x: 0, y: 0, z: 0 }
    }

    /// The sum of two vectors, coordinate by coordinate.
    pub open spec fn plus(self, rhs: Vec3) -> Vec3 {
        Vec3 {
            x: clamp(self.x + rhs.x) as i64,
            y: clamp(self.y + rhs.y) as i64,
            z: clamp(self.z + rhs.z) as i64,
        }
    }

    /// `self` moved by the part `ratio` of `change`.
    pub open spec fn moved(self, change: Vec3, ratio: Ratio) -> Vec3 {
        Vec3 {
            x: lerp_value(self.x as int, change.x as int, ratio) as i64,
            y: lerp_value(self.y as int, change.y as int, ratio) as i64,
            z: lerp_value(self.z as int, change.z as int, ratio) as i64,
        }
    }
}

impl Color {
    /// Whether every channel is zero, the rest value of a colour delta.
    pub open spec fn is_none(self) -> bool {
        self == (Color { red: 0, green: 0, blue: 0, alpha: 0 })
    }

    /// The colour with every channel zero.
    pub fn none() -> (c: Color)
        ensures
            c == (Color { red: 0, green: 0, blue: 0, alpha: 0 }),
    {
        Color { red: 0, green: 0, blue: 0, alpha: 0 }
    }

    /// The sum of two colours, channel by channel.
    pub open spec fn plus(self, rhs: Color) -> Color {
        Color {
            red: clamp(self.red + rhs.red) as i64,
            green: clamp(self.green + rhs.green) as i64,
            blue: clamp(self.blue + rhs.blue) as i64,
            alpha: clamp(self.alpha + rhs.alpha) as i64,
        }
    }

    /// `self` moved by the part `ratio` of `change`, channel by channel.
    pub open spec fn moved(self, change: Color, ratio: Ratio) -> Color {
        Color {
            red: lerp_value(self.red as int, change.red as int, ratio) as i64,
            green: lerp_value(self.green as int, change.green as int, ratio) as i64,
            blue: lerp_value(self.blue as int, change.blue as int, ratio) as i64,
            alpha: lerp_value(self.alpha as int, change.alpha as int, ratio) as i64,
        }
    }
}

impl Val {
    /// The sum of two lengths of one unit; with any other pairing, `self`.
    pub open spec fn plus(self, rhs: Val) -> Val {
        match (self, rhs) {
            (Val::Px(a), Val::Px(b)) => Val::Px(clamp(a + b) as i64),
            (Val::Percent(a), Val::Percent(b)) => Val::Percent(clamp(a + b) as i64),
            _ => self,
        }
    }

    /// `self` moved by the part `ratio` of `change` where both are pixels or
    /// both are percentages; with any other pairing, `self`.
    pub open spec fn moved(self, change: Val, ratio: Ratio) -> Val {
        match (self, change) {
            (Val::Px(s), Val::Px(c)) => Val::Px(lerp_value(s as int, c as int, ratio) as i64),
            (Val::Percent(s), Val::Percent(c)) => Val::Percent(
                lerp_value(s as int, c as int, ratio) as i64,
            ),
            _ => self,
        }
    }
}

/// Adds two vectors coordinate by coordinate.
pub fn vec2_add(a: Vec2, b: Vec2) -> (v: Vec2)
    ensures
        v == a.plus(b),
{
    Vec2 { x: add_clamped(a.x, b.x), y: add_clamped(a.y, b.y) }
}

/// Adds two vectors coordinate by coordinate.
pub fn vec3_add(a: Vec3, b: Vec3) -> (v: Vec3)
    ensures
        v == a.plus(b),
{
    Vec3 { x: add_clamped(a.x, b.x), y: add_clamped(a.y, b.y), z: add_clamped(a.z, b.z) }
}

/// Adds two colours channel by channel.
pub fn color_add(a: Color, b: Color) -> (v: Color)
    ensures
        v == a.plus(b),
{
    Color {
        red: add_clamped(a.red, b.red),
        green: add_clamped(a.green, b.green),
        blue: add_clamped(a.blue, b.blue),
        alpha: add_clamped(a.alpha, b.alpha),
    }
}

/// Adds two lengths of one unit. Lengths of different units are not mixed:
/// the first is returned as it is.
pub fn val_add(a: Val, b: Val) -> (v: Val)
    ensures
        v == a.plus(b),
{
    match (a, b) {
        (Val::Px(a), Val::Px(b)) => Val::Px(add_clamped(a, b)),
        (Val::Percent(a), Val::Percent(b)) => Val::Percent(add_clamped(a, b)),
        _ => a,
    }
}

/// Moves a vector by the part `ratio` of `change`.
pub fn lerp_vec2(start: Vec2, change: Vec2, ratio: Ratio) -> (v: Vec2)
    ensures
        v == start.moved(change, ratio),
{
    Vec2 { x: lerp(start.x, change.x, ratio), y: lerp(start.y, change.y, ratio) }
}

/// Moves a vector by the part `ratio` of `change`.
pub fn lerp_vec3(start: Vec3, change: Vec3, ratio: Ratio) -> (v: Vec3)
    ensures
        v == start.moved(change, ratio),
{
    Vec3 {
        x: lerp(start.x, change.x, ratio),
        y: lerp(start.y, change.y, ratio),
        z: lerp(start.z, change.z, ratio),
    }
}

/// Moves a colour by the part `ratio` of `change`, channel by channel and
/// without limiting the channels.
pub fn lerp_color(start: Color, change: Color, ratio: Ratio) -> (v: Color)
    ensures
        v == start.moved(change, ratio),
{
    Color {
        red: lerp(start.red, change.red, ratio),
        green: lerp(start.green, change.green, ratio),
        blue: lerp(start.blue, change.blue, ratio),
        alpha: lerp(start.alpha, change.alpha, ratio),
    }
}

/// Moves a length by the part `ratio` of `change` in the unit both share.
/// Where the units differ the start is returned as it is.
pub fn lerp_val(start: Val, change: Val, ratio: Ratio) -> (v: Val)
    ensures
        v == start.moved(change, ratio),
{
    match (start, change) {
        (Val::Px(s), Val::Px(c)) => Val::Px(lerp(s, c, ratio)),
        (Val::Percent(s), Val::Percent(c)) => Val::Percent(lerp(s, c, ratio)),
        _ => start,
    }
}

/// The part of a sprite that an animator reads and writes.
#[derive(Clone, Copy, Debug, PartialEq, Eq, Structural)]
pub struct Sprite {
    pub color: Color,
    pub custom_size: Option<Vec2>,
}

/// The part of a layout box that an animator reads and writes.
#[derive(Clone, Copy, Debug, PartialEq, Eq, Structural)]
pub struct Style {
    pub width: Val,
    pub height: Val,
    pub left: Val,
    pub right: Val,
    pub top: Val,
    pub bottom: Val,
}

/// The part of a transform that an animator reads and writes.
#[derive(Clone, Copy, Debug, PartialEq, Eq, Structural)]
pub struct Transform {
    pub translation: Vec3,
    pub scale: Vec3,
}

/// Appearance payload: a colour and a size.
#[derive(Clone, Copy, Debug, PartialEq, Eq, Structural)]
pub struct AniSprite {
    pub color: Color,
    pub size: Vec2,
}

/// Layout-box payload: size and offsets from the four edges.
#[derive(Clone, Copy, Debug, PartialEq, Eq, Structural)]
pub struct AniStyle {
    pub width: Val,
    pub height: Val,
    pub left: Val,
    pub right: Val,
    pub top: Val,
    pub bottom: Val,
}

/// Positional payload: a translation and a scale.
#[derive(Clone, Copy, Debug, PartialEq, Eq, Structural)]
pub struct AniTransform {
    pub translation: Vec3,
    pub scale: Vec3,
}

impl AniSprite {
    /// The baseline that a sprite gives: its colour, and its size where it
    /// has one; a sprite without a size leaves the size as it was.
    pub open spec fn captured(self, other: Sprite) -> AniSprite {
        AniSprite {
            color: other.color,
            size: match other.custom_size {
                Some(size) => size,
                None => self.size,
            },
        }
    }

    /// The payload with `rhs` added field by field.
    pub open spec fn plus(self, rhs: AniSprite) -> AniSprite {
        AniSprite { color: self.color.plus(rhs.color), size: self.size.plus(rhs.size) }
    }

    /// What a sprite shows when `change` has been applied with `ratio` on
    /// the baseline `self`: a zero size and an all-zero colour in
    /// `change` leave their field alone, and a sprite without a size gets
    /// none.
    pub open spec fn rendered(self, change: AniSprite, ratio: Ratio, live: Sprite) -> Sprite {
        Sprite {
            color: if !change.color.is_none() {
                self.color.moved(change.color, ratio)
            } else {
                live.color
            },
            custom_size: if !change.size.is_zero() && live.custom_size is Some {
                Some(self.size.moved(change.size, ratio))
            } else {
                live.custom_size
            },
        }
    }

    /// Takes the colour and size of `other` as the new baseline.
    pub fn copy_from(&mut self, other: &Sprite)
        ensures
            *final(self) == old(self).captured(*other),
    {
        self.color = other.color;
        if let Some(size) = other.custom_size {
            self.size = size;
        }
    }

    /// Adds `rhs` field by field.
    pub fn add(self, rhs: AniSprite) -> (sum: AniSprite)
        ensures
            sum == self.plus(rhs),
    {
        AniSprite { color: color_add(self.color, rhs.color), size: vec2_add(self.size, rhs.size) }
    }
}

impl Default for AniSprite {
    fn default() -> (r: AniSprite)
        ensures
            r.color.is_none(),
            r.size.is_zero(),
    {
        AniSprite { color: Color::none(), size: Vec2::zero() }
    }
}

impl AniStyle {
    /// The baseline that a layout box gives: its six lengths.
    pub open spec fn captured(other: Style) -> AniStyle {
        AniStyle {
            width: other.width,
            height: other.height,
            left: other.left,
            right: other.right,
            top: other.top,
            bottom: other.bottom,
        }
    }

    /// The payload with `rhs` added field by field.
    pub open spec fn plus(self, rhs: AniStyle) -> AniStyle {
        AniStyle {
            width: self.width.plus(rhs.width),
            height: self.height.plus(rhs.height),
            left: self.left.plus(rhs.left),
            right: self.right.plus(rhs.right),
            top: self.top.plus(rhs.top),
            bottom: self.bottom.plus(rhs.bottom),
        }
    }

    /// What one length shows: untouched where the change is [`Val::Auto`].
    pub open spec fn rendered_val(start: Val, change: Val, ratio: Ratio, live: Val) -> Val {
        if change != Val::Auto {
            start.moved(change, ratio)
        } else {
            live
        }
    }

    /// What a layout box shows when `change` has been applied with `ratio`
    /// on the baseline `self`.
    pub open spec fn rendered(self, change: AniStyle, ratio: Ratio, live: Style) -> Style {
        Style {
            width: Self::rendered_val(self.width, change.width, ratio, live.width),
            height: Self::rendered_val(self.height, change.height, ratio, live.height),
            left: Self::rendered_val(self.left, change.left, ratio, live.left),
            right: Self::rendered_val(self.right, change.right, ratio, live.right),
            top: Self::rendered_val(self.top, change.top, ratio, live.top),
            bottom: Self::rendered_val(self.bottom, change.bottom, ratio, live.bottom),
        }
    }

    /// Takes the six lengths of `other` as the new baseline.
    pub fn copy_from(&mut self, other: &Style)
        ensures
            *final(self) == Self::captured(*other),
    {
        self.width = other.width;
        self.height = other.height;
        self.left = other.left;
        self.right = other.right;
        self.top = other.top;
        self.bottom = other.bottom;
    }

    /// Adds `rhs` field by field.
    pub fn add(self, rhs: AniStyle) -> (sum: AniStyle)
        ensures
            sum == self.plus(rhs),
    {
        AniStyle {
            width: val_add(self.width, rhs.width),
            height: val_add(self.height, rhs.height),
            left: val_add(self.left, rhs.left),
            right: val_add(self.right, rhs.right),
            top: val_add(self.top, rhs.top),
            bottom: val_add(self.bottom, rhs.bottom),
        }
    }
}

impl Default for AniStyle {
    fn default() -> (r: AniStyle)
        ensures
            r == (AniStyle {
                width: Val::Auto,
                height: Val::Auto,
                left: Val::Auto,
                right: Val::Auto,
                top: Val::Auto,
                bottom: Val::Auto,
            }),
    {
        AniStyle {
            width: Val::Auto,
            height: Val::Auto,
            left: Val::Auto,
            right: Val::Auto,
            top: Val::Auto,
            bottom: Val::Auto,
        }
    }
}

impl AniTransform {
    /// The baseline that a transform gives: its translation and scale.
    pub open spec fn captured(other: Transform) -> AniTransform {
        AniTransform { translation: other.translation, scale: other.scale }
    }

    /// The payload with `rhs` added field by field.
    pub open spec fn plus(self, rhs: AniTransform) -> AniTransform {
        AniTransform {
            translation: self.translation.plus(rhs.translation),
            scale: self.scale.plus(rhs.scale),
        }
    }

    /// What a transform shows when `change` has been applied with `ratio`
    /// on the baseline `self`: a zero vector in `change` leaves its field
    /// alone.
    pub open spec fn rendered(
        self,
        change: AniTransform,
        ratio: Ratio,
        live: Transform,
    ) -> Transform {
        Transform {
            translation: if !change.translation.is_zero() {
                self.translation.moved(change.translation, ratio)
            } else {
                live.translation
            },
            scale: if !change.scale.is_zero() {
                self.scale.moved(change.scale, ratio)
            } else {
                live.scale
            },
        }
    }

    /// Takes the translation and scale of `other` as the new baseline.
    pub fn copy_from(&mut self, other: &Transform)
        ensures
            *final(self) == Self::captured(*other),
    {
        self.translation = other.translation;
        self.scale = other.scale;
    }

    /// Adds `rhs` field by field.
    pub fn add(self, rhs: AniTransform) -> (sum: AniTransform)
        ensures
            sum == self.plus(rhs),
    {
        AniTransform {
            translation: vec3_add(self.translation, rhs.translation),
            scale: vec3_add(self.scale, rhs.scale),
        }
    }
}

impl Default for AniTransform {
    fn default() -> (r: AniTransform)
        ensures
            r.translation.is_zero(),
            r.scale.is_zero(),
    {
        AniTransform { translation: Vec3::zero(), scale: Vec3::zero() }
    }
}

} // verus!
