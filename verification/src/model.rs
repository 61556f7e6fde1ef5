//! The data model: the typed entities an action document is parsed into.

use vstd::prelude::*;

verus! {

/// Horizontal/vertical mirroring of one frame.
#[derive(Debug, PartialEq, Eq, Structural, Clone, Copy)]
pub enum Flip {
    Horizontal,
    Vertical,
    Both,
}

/// Colour blending of one frame: additive with source/destination
/// coefficients, or subtractive.
#[derive(Debug, PartialEq, Eq, Structural, Clone, Copy)]
pub enum Blend {
    Add { src: u32, dst: u32 },
    Sub,
}

/// An interpolation keyframe: the named visual property begins a smooth
/// transition at the recorded element index.
#[derive(Debug, PartialEq, Eq, Structural, Clone, Copy)]
pub enum Interpolate {
    Offset(usize),
    Blend(usize),
    Scale(usize),
    Angle(usize),
}

/// One collision rectangle, given by two opposite corners
/// `(x1, y1)` and `(x2, y2)`.  Either corner order is permitted and is not
/// normalized.
#[derive(Debug, PartialEq, Eq, Structural, Clone, Copy)]
pub struct ClsnBox(pub i64, pub i64, pub i64, pub i64);

impl ClsnBox {
    /// First corner's x coordinate.
    pub fn x(&self) -> (r: i64)
        ensures
            r == self.0,
    {
        self.0
    }

    /// First corner's y coordinate.
    pub fn y(&self) -> (r: i64)
        ensures
            r == self.1,
    {
        self.1
    }

    /// Signed width `x2 - x1`; negative when the corners are given
    /// right-to-left.
    pub fn width(&self) -> (r: i64)
        requires
            i64::MIN <= self.2 - self.0 <= i64::MAX,
        ensures
            r == self.2 - self.0,
    {
        self.2 - self.0
    }

    /// Signed height `y2 - y1`; negative when the corners are given
    /// bottom-to-top.
    pub fn height(&self) -> (r: i64)
        requires
            i64::MIN <= self.3 - self.1 <= i64::MAX,
        ensures
            r == self.3 - self.1,
    {
        self.3 - self.1
    }
}

/// A collision-box declaration: a kind together with its ordered boxes.
/// `Clsn1`/`Clsn2` are one-shot declarations for the next element only;
/// the `*Default` kinds persist until replaced.
#[derive(Debug, Clone)]
pub enum Clsn {
    Clsn1Default(Vec<ClsnBox>),
    Clsn2Default(Vec<ClsnBox>),
    Clsn1(Vec<ClsnBox>),
    Clsn2(Vec<ClsnBox>),
}

/// Mathematical model of a `Clsn`: the kind with its boxes as a sequence.
#[verifier::ext_equal]
pub enum ClsnV {
    Clsn1Default(Seq<ClsnBox>),
    Clsn2Default(Seq<ClsnBox>),
    Clsn1(Seq<ClsnBox>),
    Clsn2(Seq<ClsnBox>),
}

impl View for Clsn {
    type V = ClsnV;

    open spec fn view(&self) -> ClsnV {
        match self {
            Clsn::Clsn1Default(v) => ClsnV::Clsn1Default(v@),
            Clsn::Clsn2Default(v) => ClsnV::Clsn2Default(v@),
            Clsn::Clsn1(v) => ClsnV::Clsn1(v@),
            Clsn::Clsn2(v) => ClsnV::Clsn2(v@),
        }
    }
}

/// Scale factor for one axis, as the exact decimal written in the source:
/// the value is `mantissa / 10^frac_digits`.  `"1.25"` is held as
/// `mantissa = 125, frac_digits = 2`; `"-0.5"` as `mantissa = -5,
/// frac_digits = 1`; `"3"` as `mantissa = 3, frac_digits = 0`.
#[derive(Debug, PartialEq, Eq, Structural, Clone, Copy)]
pub struct Scale {
    pub mantissa: i64,
    pub frac_digits: usize,
}

/// Rotation of one frame, an integer in the format's own unit, carried
/// through opaquely.
#[derive(Debug, PartialEq, Eq, Structural, Clone, Copy)]
pub struct Rotation(pub i64);

/// One animation frame: a sprite-sheet cell, a screen offset, a duration,
/// and the optional modifiers and collision boxes declared for it.
#[derive(Debug, Default)]
pub struct Element {
    pub group: i64,
    pub image: i64,
    pub x: i64,
    pub y: i64,
    pub time: i64,
    pub flip: Option<Flip>,
    pub blend: Option<Blend>,
    pub clsn1: Option<Clsn>,
    pub clsn2: Option<Clsn>,
    pub rotation: Option<Rotation>,
    pub x_scale: Option<Scale>,
    pub y_scale: Option<Scale>,
}

/// Mathematical model of an `Element`.
#[verifier::ext_equal]
pub struct ElementV {
    pub group: i64,
    pub image: i64,
    pub x: i64,
    pub y: i64,
    pub time: i64,
    pub flip: Option<Flip>,
    pub blend: Option<Blend>,
    pub clsn1: Option<ClsnV>,
    pub clsn2: Option<ClsnV>,
    pub rotation: Option<Rotation>,
    pub x_scale: Option<Scale>,
    pub y_scale: Option<Scale>,
}

pub open spec fn view_opt_clsn(c: Option<Clsn>) -> Option<ClsnV> {
    match c {
        Some(v) => Some(v@),
        None => None,
    }
}

impl View for Element {
    type V = ElementV;

    open spec fn view(&self) -> ElementV {
        ElementV {
            group: self.group,
            image: self.image,
            x: self.x,
            y: self.y,
            time: self.time,
            flip: self.flip,
            blend: self.blend,
            clsn1: view_opt_clsn(self.clsn1),
            clsn2: view_opt_clsn(self.clsn2),
            rotation: self.rotation,
            x_scale: self.x_scale,
            y_scale: self.y_scale,
        }
    }
}

impl Element {
    /// Attaches a group of collision boxes as this element's `clsn1`.
    pub fn set_clsn1(&mut self, clsn1: Clsn)
        ensures
            *final(self) == (Element { clsn1: Some(clsn1), ..*old(self) }),
    {
        self.clsn1 = Some(clsn1);
    }

    /// Attaches a group of collision boxes as this element's `clsn2`.
    pub fn set_clsn2(&mut self, clsn2: Clsn)
        ensures
            *final(self) == (Element { clsn2: Some(clsn2), ..*old(self) }),
    {
        self.clsn2 = Some(clsn2);
    }
}

/// One named animation sequence: its caller-assigned number, its ordered
/// frames, the index playback loops back to, and any interpolation
/// keyframes.
#[derive(Debug, Default)]
pub struct Action {
    pub number: u64,
    pub elements: Vec<Element>,
    pub loop_start: usize,
    pub interpolates: Option<Vec<Interpolate>>,
}

/// Mathematical model of an `Action`.
#[verifier::ext_equal]
pub struct ActionV {
    pub number: u64,
    pub elements: Seq<ElementV>,
    pub loop_start: int,
    pub interpolates: Option<Seq<Interpolate>>,
}

impl View for Action {
    type V = ActionV;

    open spec fn view(&self) -> ActionV {
        ActionV {
            number: self.number,
            elements: self.elements@.map_values(|e: Element| e@),
            loop_start: self.loop_start as int,
            interpolates: match self.interpolates {
                Some(v) => Some(v@),
                None => None,
            },
        }
    }
}

impl ActionV {
    /// Well-formedness: the loop-start index stays within the element
    /// sequence (equality meaning "loop to the end").
    pub open spec fn wf(&self) -> bool {
        0 <= self.loop_start <= self.elements.len()
    }
}

} // verus!
