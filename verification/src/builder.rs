//! The semantic builder: walks the recognized nodes of one action block and
//! assembles the typed `Action`, applying the one-shot and persistent
//! collision-box rules, loop marking and interpolation indexing.

use vstd::prelude::*;
use crate::errors::{FieldName, ModifierName, ParseError, ParseErrorV};
use crate::model::{
    Action, ActionV, Blend, Clsn, ClsnBox, ClsnV, Element, ElementV, Flip, Interpolate, Rotation,
    Scale,
};
use crate::nodes::{BaseNodeV, BlendNums, BlendNumsV, BoxNode, BoxNodeV, ElementNode,
    ElementNodeV, Modifier, ModifierV, Node, NodeV};
use crate::syntax::kw_at;
use crate::text::{
    chars_of, copy_chars, i64_opt, parse_i64_token, parse_scale_token, parse_u32_token,
    parse_u64_token, scale_opt, u32_opt, u64_opt,
};

verus! {

// ---------------------------------------------------------------------------
// Spellings of the modifier kinds

/// Whole-token case-insensitive match against a lower-case spelling.
pub open spec fn seq_ci(s: Seq<char>, kw: Seq<char>) -> bool {
    s.len() == kw.len() && kw_at(s, 0, kw)
}

/// The flip a token denotes: `H`, `V`, `HV` or `VH`, case-insensitively.
pub open spec fn flip_of(s: Seq<char>) -> Option<Flip> {
    if seq_ci(s, seq!['h']) {
        Some(Flip::Horizontal)
    } else if seq_ci(s, seq!['v']) {
        Some(Flip::Vertical)
    } else if seq_ci(s, seq!['h', 'v']) || seq_ci(s, seq!['v', 'h']) {
        Some(Flip::Both)
    } else {
        None
    }
}

/// The interpolation keyframe a kind token denotes, recorded at element
/// index `element`.
pub open spec fn interp_of(s: Seq<char>, element: usize) -> Option<Interpolate> {
    if seq_ci(s, seq!['o', 'f', 'f', 's', 'e', 't']) {
        Some(Interpolate::Offset(element))
    } else if seq_ci(s, seq!['b', 'l', 'e', 'n', 'd']) {
        Some(Interpolate::Blend(element))
    } else if seq_ci(s, seq!['s', 'c', 'a', 'l', 'e']) {
        Some(Interpolate::Scale(element))
    } else if seq_ci(s, seq!['a', 'n', 'g', 'l', 'e']) {
        Some(Interpolate::Angle(element))
    } else {
        None
    }
}

/// The collision-box declaration a kind token denotes, carrying `boxes`.
pub open spec fn clsn_of(s: Seq<char>, boxes: Seq<ClsnBox>) -> Option<ClsnV> {
    if seq_ci(s, seq!['c', 'l', 's', 'n', '2', 'd', 'e', 'f', 'a', 'u', 'l', 't']) {
        Some(ClsnV::Clsn2Default(boxes))
    } else if seq_ci(s, seq!['c', 'l', 's', 'n', '1', 'd', 'e', 'f', 'a', 'u', 'l', 't']) {
        Some(ClsnV::Clsn1Default(boxes))
    } else if seq_ci(s, seq!['c', 'l', 's', 'n', '1']) {
        Some(ClsnV::Clsn1(boxes))
    } else if seq_ci(s, seq!['c', 'l', 's', 'n', '2']) {
        Some(ClsnV::Clsn2(boxes))
    } else {
        None
    }
}

/// The blend a blend token denotes: `A`, `A1` or `S` case-insensitively,
/// or the recognizer-decomposed `AS<src>D<dst>` pair.
pub open spec fn blend_of(text: Seq<char>, nums: Option<BlendNumsV>) -> Result<
    Blend,
    ParseErrorV,
> {
    match nums {
        Some(nv) => match u32_opt(nv.src) {
            None => Err(
                ParseErrorV::InvalidNumericLiteral { field: FieldName::BlendSrc, text: nv.src },
            ),
            Some(sv) => match u32_opt(nv.dst) {
                None => Err(
                    ParseErrorV::InvalidNumericLiteral {
                        field: FieldName::BlendDst,
                        text: nv.dst,
                    },
                ),
                Some(dv) => Ok(Blend::Add { src: sv, dst: dv }),
            },
        },
        None => {
            if seq_ci(text, seq!['a']) {
                Ok(Blend::Add { src: 256, dst: 256 })
            } else if seq_ci(text, seq!['a', '1']) {
                Ok(Blend::Add { src: 256, dst: 128 })
            } else if seq_ci(text, seq!['s']) {
                Ok(Blend::Sub)
            } else {
                Err(
                    ParseErrorV::InvalidModifierValue { modifier: ModifierName::Blend, text: text },
                )
            }
        },
    }
}

// ---------------------------------------------------------------------------
// Exec spelling matches

/// Whole-token case-insensitive comparison.
fn token_ci(s: &Vec<char>, kw: &Vec<char>) -> (r: bool)
    ensures
        r == seq_ci(s@, kw@),
{
    s.len() == kw.len() && crate::syntax::kw_eq(s, 0, kw)
}

/// `flip_of` on a token held as characters.
fn flip_from_chars(s: &Vec<char>) -> (r: Result<Flip, ParseError>)
    ensures
        (match r {
            Ok(f) => flip_of(s@) == Some(f),
            Err(e) => flip_of(s@) is None && e@ == (ParseErrorV::InvalidModifierValue {
                modifier: ModifierName::Flip,
                text: s@,
            }),
        }),
{
    let kh: Vec<char> = vec!['h'];
    let kv: Vec<char> = vec!['v'];
    let khv: Vec<char> = vec!['h', 'v'];
    let kvh: Vec<char> = vec!['v', 'h'];
    proof {
        assert(kh@ =~= seq!['h']);
        assert(kv@ =~= seq!['v']);
        assert(khv@ =~= seq!['h', 'v']);
        assert(kvh@ =~= seq!['v', 'h']);
    }
    if token_ci(s, &kh) {
        Ok(Flip::Horizontal)
    } else if token_ci(s, &kv) {
        Ok(Flip::Vertical)
    } else if token_ci(s, &khv) || token_ci(s, &kvh) {
        Ok(Flip::Both)
    } else {
        Err(ParseError::InvalidModifierValue { modifier: ModifierName::Flip, text: copy_chars(s) })
    }
}

/// `interp_of` on a token held as characters.
fn interp_from_chars(s: &Vec<char>, element: usize) -> (r: Result<Interpolate, ParseError>)
    ensures
        (match r {
            Ok(i) => interp_of(s@, element) == Some(i),
            Err(e) => interp_of(s@, element) is None && e@
                == (ParseErrorV::InvalidModifierValue {
                modifier: ModifierName::Interpolation,
                text: s@,
            }),
        }),
{
    let ko: Vec<char> = vec!['o', 'f', 'f', 's', 'e', 't'];
    let kb: Vec<char> = vec!['b', 'l', 'e', 'n', 'd'];
    let ks: Vec<char> = vec!['s', 'c', 'a', 'l', 'e'];
    let ka: Vec<char> = vec!['a', 'n', 'g', 'l', 'e'];
    proof {
        assert(ko@ =~= seq!['o', 'f', 'f', 's', 'e', 't']);
        assert(kb@ =~= seq!['b', 'l', 'e', 'n', 'd']);
        assert(ks@ =~= seq!['s', 'c', 'a', 'l', 'e']);
        assert(ka@ =~= seq!['a', 'n', 'g', 'l', 'e']);
    }
    if token_ci(s, &ko) {
        Ok(Interpolate::Offset(element))
    } else if token_ci(s, &kb) {
        Ok(Interpolate::Blend(element))
    } else if token_ci(s, &ks) {
        Ok(Interpolate::Scale(element))
    } else if token_ci(s, &ka) {
        Ok(Interpolate::Angle(element))
    } else {
        Err(
            ParseError::InvalidModifierValue {
                modifier: ModifierName::Interpolation,
                text: copy_chars(s),
            },
        )
    }
}

/// `clsn_of` on a kind token held as characters, with owned boxes.
fn clsn_from_chars(s: &Vec<char>, boxes: Vec<ClsnBox>) -> (r: Result<Clsn, ParseError>)
    ensures
        (match r {
            Ok(c) => clsn_of(s@, boxes@) == Some(c@),
            Err(e) => clsn_of(s@, boxes@) is None && e@
                == (ParseErrorV::InvalidModifierValue {
                modifier: ModifierName::ClsnKind,
                text: s@,
            }),
        }),
{
    let k2d: Vec<char> = vec!['c', 'l', 's', 'n', '2', 'd', 'e', 'f', 'a', 'u', 'l', 't'];
    let k1d: Vec<char> = vec!['c', 'l', 's', 'n', '1', 'd', 'e', 'f', 'a', 'u', 'l', 't'];
    let k1: Vec<char> = vec!['c', 'l', 's', 'n', '1'];
    let k2: Vec<char> = vec!['c', 'l', 's', 'n', '2'];
    proof {
        assert(k2d@ =~= seq!['c', 'l', 's', 'n', '2', 'd', 'e', 'f', 'a', 'u', 'l', 't']);
        assert(k1d@ =~= seq!['c', 'l', 's', 'n', '1', 'd', 'e', 'f', 'a', 'u', 'l', 't']);
        assert(k1@ =~= seq!['c', 'l', 's', 'n', '1']);
        assert(k2@ =~= seq!['c', 'l', 's', 'n', '2']);
    }
    if token_ci(s, &k2d) {
        Ok(Clsn::Clsn2Default(boxes))
    } else if token_ci(s, &k1d) {
        Ok(Clsn::Clsn1Default(boxes))
    } else if token_ci(s, &k1) {
        Ok(Clsn::Clsn1(boxes))
    } else if token_ci(s, &k2) {
        Ok(Clsn::Clsn2(boxes))
    } else {
        Err(
            ParseError::InvalidModifierValue {
                modifier: ModifierName::ClsnKind,
                text: copy_chars(s),
            },
        )
    }
}

impl Flip {
    /// The flip a spelling denotes: `H`, `V`, `HV` or `VH`,
    /// case-insensitively; anything else is an invalid modifier value.
    pub fn from_str(s: &str) -> (r: Result<Flip, ParseError>)
        ensures
            (match r {
                Ok(f) => flip_of(s@) == Some(f),
                Err(e) => flip_of(s@) is None && e@ == (ParseErrorV::InvalidModifierValue {
                    modifier: ModifierName::Flip,
                    text: s@,
                }),
            }),
    {
        let cs = chars_of(s);
        flip_from_chars(&cs)
    }
}

impl Interpolate {
    /// The keyframe a kind spelling denotes (`offset`, `blend`, `scale`
    /// or `angle`, case-insensitively) at element index `element`.
    pub fn new(interpolate_type: &str, element: usize) -> (r: Result<Interpolate, ParseError>)
        ensures
            (match r {
                Ok(i) => interp_of(interpolate_type@, element) == Some(i),
                Err(e) => interp_of(interpolate_type@, element) is None && e@
                    == (ParseErrorV::InvalidModifierValue {
                    modifier: ModifierName::Interpolation,
                    text: interpolate_type@,
                }),
            }),
    {
        let cs = chars_of(interpolate_type);
        interp_from_chars(&cs, element)
    }
}

impl Clsn {
    /// The declaration a kind spelling denotes (`clsn1`, `clsn2`,
    /// `clsn1default` or `clsn2default`, case-insensitively), holding
    /// `boxes`.
    pub fn new(clsn_type: &str, boxes: Vec<ClsnBox>) -> (r: Result<Clsn, ParseError>)
        ensures
            (match r {
                Ok(c) => clsn_of(clsn_type@, boxes@) == Some(c@),
                Err(e) => clsn_of(clsn_type@, boxes@) is None && e@
                    == (ParseErrorV::InvalidModifierValue {
                    modifier: ModifierName::ClsnKind,
                    text: clsn_type@,
                }),
            }),
    {
        let cs = chars_of(clsn_type);
        clsn_from_chars(&cs, boxes)
    }
}

// ---------------------------------------------------------------------------
// Element assembly

/// An element before any field is set: zeros and absences.
pub open spec fn empty_element() -> ElementV {
    ElementV {
        group: 0,
        image: 0,
        x: 0,
        y: 0,
        time: 0,
        flip: None,
        blend: None,
        clsn1: None,
        clsn2: None,
        rotation: None,
        x_scale: None,
        y_scale: None,
    }
}

/// The element the five required tokens denote, with every optional field
/// absent; the first malformed token is the error.
pub open spec fn base_of(b: BaseNodeV) -> Result<ElementV, ParseErrorV> {
    match i64_opt(b.group) {
        None => Err(ParseErrorV::InvalidNumericLiteral { field: FieldName::Group, text: b.group }),
        Some(g) => match i64_opt(b.image) {
            None => Err(
                ParseErrorV::InvalidNumericLiteral { field: FieldName::Image, text: b.image },
            ),
            Some(im) => match i64_opt(b.x) {
                None => Err(ParseErrorV::InvalidNumericLiteral { field: FieldName::X, text: b.x }),
                Some(xv) => match i64_opt(b.y) {
                    None => Err(
                        ParseErrorV::InvalidNumericLiteral { field: FieldName::Y, text: b.y },
                    ),
                    Some(yv) => match i64_opt(b.time) {
                        None => Err(
                            ParseErrorV::InvalidNumericLiteral {
                                field: FieldName::Time,
                                text: b.time,
                            },
                        ),
                        Some(tv) => Ok(
                            ElementV { group: g, image: im, x: xv, y: yv, time: tv, ..empty_element() },
                        ),
                    },
                },
            },
        },
    }
}

/// Applies one modifier to the element under construction; later
/// occurrences overwrite earlier ones.
pub open spec fn apply_mod(e: ElementV, m: ModifierV) -> Result<ElementV, ParseErrorV> {
    match m {
        ModifierV::FlipMod(tok) => match flip_of(tok) {
            Some(f) => Ok(ElementV { flip: Some(f), ..e }),
            None => Err(
                ParseErrorV::InvalidModifierValue { modifier: ModifierName::Flip, text: tok },
            ),
        },
        ModifierV::BlendMod { text, nums } => match blend_of(text, nums) {
            Ok(bl) => Ok(ElementV { blend: Some(bl), ..e }),
            Err(er) => Err(er),
        },
        ModifierV::XScaleMod(tok) => match scale_opt(tok) {
            Some(sc) => Ok(ElementV { x_scale: Some(sc), ..e }),
            None => Err(
                ParseErrorV::InvalidNumericLiteral { field: FieldName::XScale, text: tok },
            ),
        },
        ModifierV::YScaleMod(tok) => match scale_opt(tok) {
            Some(sc) => Ok(ElementV { y_scale: Some(sc), ..e }),
            None => Err(
                ParseErrorV::InvalidNumericLiteral { field: FieldName::YScale, text: tok },
            ),
        },
        ModifierV::RotationMod(tok) => match i64_opt(tok) {
            Some(v) => Ok(ElementV { rotation: Some(Rotation(v)), ..e }),
            None => Err(
                ParseErrorV::InvalidNumericLiteral { field: FieldName::Rotation, text: tok },
            ),
        },
    }
}

/// Folds the modifiers from index `i` on over the element.
pub open spec fn mods_from(e: ElementV, ms: Seq<ModifierV>, i: int) -> Result<
    ElementV,
    ParseErrorV,
>
    decreases ms.len() - i,
{
    if i < 0 || i >= ms.len() {
        Ok(e)
    } else {
        match apply_mod(e, ms[i]) {
            Err(er) => Err(er),
            Ok(e2) => mods_from(e2, ms, i + 1),
        }
    }
}

/// The element one element node denotes.
pub open spec fn element_of(en: ElementNodeV) -> Result<ElementV, ParseErrorV> {
    match base_of(en.base) {
        Err(e) => Err(e),
        Ok(e0) => mods_from(e0, en.mods, 0),
    }
}

/// The box one box node denotes; the first malformed coordinate is the
/// error.
pub open spec fn box_of(b: BoxNodeV) -> Result<ClsnBox, ParseErrorV> {
    match i64_opt(b.x1) {
        None => Err(ParseErrorV::InvalidNumericLiteral { field: FieldName::BoxCoord, text: b.x1 }),
        Some(x1) => match i64_opt(b.y1) {
            None => Err(
                ParseErrorV::InvalidNumericLiteral { field: FieldName::BoxCoord, text: b.y1 },
            ),
            Some(y1) => match i64_opt(b.x2) {
                None => Err(
                    ParseErrorV::InvalidNumericLiteral { field: FieldName::BoxCoord, text: b.x2 },
                ),
                Some(x2) => match i64_opt(b.y2) {
                    None => Err(
                        ParseErrorV::InvalidNumericLiteral {
                            field: FieldName::BoxCoord,
                            text: b.y2,
                        },
                    ),
                    Some(y2) => Ok(ClsnBox(x1, y1, x2, y2)),
                },
            },
        },
    }
}

/// The boxes of a group from index `i` on.
pub open spec fn boxes_from(bs: Seq<BoxNodeV>, i: int) -> Result<Seq<ClsnBox>, ParseErrorV>
    decreases bs.len() - i,
{
    if i < 0 || i >= bs.len() {
        Ok(seq![])
    } else {
        match box_of(bs[i]) {
            Err(e) => Err(e),
            Ok(c) => match boxes_from(bs, i + 1) {
                Err(e) => Err(e),
                Ok(r) => Ok(seq![c] + r),
            },
        }
    }
}

// ---------------------------------------------------------------------------
// The action builder's state machine, as a mathematical model

/// The builder's state: two independent collision-box channels per side,
/// one one-shot (`pending`) and one persistent (`default`).
#[verifier::ext_equal]
pub struct BuilderV {
    pub number: u64,
    pub elements: Seq<ElementV>,
    pub loop_start: int,
    pub pending1: Option<ClsnV>,
    pub pending2: Option<ClsnV>,
    pub default1: Option<ClsnV>,
    pub default2: Option<ClsnV>,
    pub interpolates: Option<Seq<Interpolate>>,
}

/// The builder's initial state for one action block.
pub open spec fn builder_init() -> BuilderV {
    BuilderV {
        number: 0,
        elements: seq![],
        loop_start: 0,
        pending1: None,
        pending2: None,
        default1: None,
        default2: None,
        interpolates: None,
    }
}

impl BuilderV {
    pub open spec fn with_number(self, n: u64) -> BuilderV {
        BuilderV { number: n, ..self }
    }

    /// What an appended element carries: the one-shot slot if set, else a
    /// copy of the persistent default, independently per side.
    pub open spec fn attach(self, e: ElementV) -> ElementV {
        let e1 = match self.pending1 {
            Some(c) => ElementV { clsn1: Some(c), ..e },
            None => match self.default1 {
                Some(c) => ElementV { clsn1: Some(c), ..e },
                None => e,
            },
        };
        match self.pending2 {
            Some(c) => ElementV { clsn2: Some(c), ..e1 },
            None => match self.default2 {
                Some(c) => ElementV { clsn2: Some(c), ..e1 },
                None => e1,
            },
        }
    }

    /// Appending an element consumes the one-shot slots and keeps the
    /// defaults.
    pub open spec fn with_element(self, e: ElementV) -> BuilderV {
        BuilderV {
            elements: self.elements.push(self.attach(e)),
            pending1: None,
            pending2: None,
            ..self
        }
    }

    /// An interpolation keyframe is recorded at the element count at the
    /// moment the directive is seen.
    pub open spec fn with_interp(self, i: Interpolate) -> BuilderV {
        BuilderV {
            interpolates: match self.interpolates {
                Some(s) => Some(s.push(i)),
                None => Some(seq![i]),
            },
            ..self
        }
    }

    /// The loop marker points at the next element to be appended.
    pub open spec fn with_loop(self) -> BuilderV {
        BuilderV { loop_start: self.elements.len() as int, ..self }
    }

    /// A declaration replaces the slot its kind selects.
    pub open spec fn with_clsn(self, c: ClsnV) -> BuilderV {
        match c {
            ClsnV::Clsn1(_) => BuilderV { pending1: Some(c), ..self },
            ClsnV::Clsn2(_) => BuilderV { pending2: Some(c), ..self },
            ClsnV::Clsn1Default(_) => BuilderV { default1: Some(c), ..self },
            ClsnV::Clsn2Default(_) => BuilderV { default2: Some(c), ..self },
        }
    }

    /// The action the finished builder emits.
    pub open spec fn finish(self) -> ActionV {
        ActionV {
            number: self.number,
            elements: self.elements,
            loop_start: self.loop_start,
            interpolates: self.interpolates,
        }
    }
}

/// One builder step for one node of the block.
pub open spec fn action_step(b: BuilderV, n: NodeV) -> Result<BuilderV, ParseErrorV> {
    match n {
        NodeV::ActionDef(tok) => match u64_opt(tok) {
            Some(v) => Ok(b.with_number(v)),
            None => Err(
                ParseErrorV::InvalidNumericLiteral { field: FieldName::ActionNumber, text: tok },
            ),
        },
        NodeV::ActionElement(en) => match element_of(en) {
            Ok(e) => Ok(b.with_element(e)),
            Err(er) => Err(er),
        },
        NodeV::Interpolation(tok) => match interp_of(tok, b.elements.len() as usize) {
            Some(i) => Ok(b.with_interp(i)),
            None => Err(
                ParseErrorV::InvalidModifierValue {
                    modifier: ModifierName::Interpolation,
                    text: tok,
                },
            ),
        },
        NodeV::ClsnGroup { def, boxes } => match boxes_from(boxes, 0) {
            Err(er) => Err(er),
            Ok(bs) => match clsn_of(def, bs) {
                Some(c) => Ok(b.with_clsn(c)),
                None => Err(
                    ParseErrorV::InvalidModifierValue {
                        modifier: ModifierName::ClsnKind,
                        text: def,
                    },
                ),
            },
        },
        NodeV::Loopstart => Ok(b.with_loop()),
    }
}

/// Folds the builder over the block's nodes from index `i` on.
pub open spec fn steps_from(b: BuilderV, nodes: Seq<NodeV>, i: int) -> Result<
    BuilderV,
    ParseErrorV,
>
    decreases nodes.len() - i,
{
    if i < 0 || i >= nodes.len() {
        Ok(b)
    } else {
        match action_step(b, nodes[i]) {
            Err(e) => Err(e),
            Ok(b2) => steps_from(b2, nodes, i + 1),
        }
    }
}

/// The action one block's node stream denotes, or its first error.
pub open spec fn build_action_spec(nodes: Seq<NodeV>) -> Result<ActionV, ParseErrorV> {
    match steps_from(builder_init(), nodes, 0) {
        Ok(b) => Ok(b.finish()),
        Err(e) => Err(e),
    }
}

// ---------------------------------------------------------------------------
// Executable element builder

/// Accumulates one element's fields in place; `build` emits the element
/// with the collision fields still unset — those are attached later by the
/// action builder.
pub struct ElementBuilder {
    pub group: i64,
    pub image: i64,
    pub offset_x: i64,
    pub offset_y: i64,
    pub time: i64,
    pub flip: Option<Flip>,
    pub x_scale: Option<Scale>,
    pub y_scale: Option<Scale>,
    pub rotation: Option<Rotation>,
    pub blend: Option<Blend>,
}

impl View for ElementBuilder {
    type V = ElementV;

    open spec fn view(&self) -> ElementV {
        ElementV {
            group: self.group,
            image: self.image,
            x: self.offset_x,
            y: self.offset_y,
            time: self.time,
            flip: self.flip,
            blend: self.blend,
            clsn1: None,
            clsn2: None,
            rotation: self.rotation,
            x_scale: self.x_scale,
            y_scale: self.y_scale,
        }
    }
}

impl ElementBuilder {
    pub fn new() -> (r: ElementBuilder)
        ensures
            r@ == empty_element(),
    {
        let r = ElementBuilder {
            group: 0,
            image: 0,
            offset_x: 0,
            offset_y: 0,
            time: 0,
            flip: None,
            rotation: None,
            x_scale: None,
            y_scale: None,
            blend: None,
        };
        proof {
            assert(r@ =~= empty_element());
        }
        r
    }

    pub fn group(&mut self, group: i64)
        ensures
            final(self)@ == (ElementV { group, ..old(self)@ }),
    {
        self.group = group;
    }

    pub fn image(&mut self, image: i64)
        ensures
            final(self)@ == (ElementV { image, ..old(self)@ }),
    {
        self.image = image;
    }

    pub fn offset_x(&mut self, offset_x: i64)
        ensures
            final(self)@ == (ElementV { x: offset_x, ..old(self)@ }),
    {
        self.offset_x = offset_x;
    }

    pub fn offset_y(&mut self, offset_y: i64)
        ensures
            final(self)@ == (ElementV { y: offset_y, ..old(self)@ }),
    {
        self.offset_y = offset_y;
    }

    pub fn time(&mut self, time: i64)
        ensures
            final(self)@ == (ElementV { time, ..old(self)@ }),
    {
        self.time = time;
    }

    pub fn flip(&mut self, flip: Flip)
        ensures
            final(self)@ == (ElementV { flip: Some(flip), ..old(self)@ }),
    {
        self.flip = Some(flip);
    }

    pub fn rotation(&mut self, rotation: Rotation)
        ensures
            final(self)@ == (ElementV { rotation: Some(rotation), ..old(self)@ }),
    {
        self.rotation = Some(rotation);
    }

    pub fn x_scale(&mut self, scale: Scale)
        ensures
            final(self)@ == (ElementV { x_scale: Some(scale), ..old(self)@ }),
    {
        self.x_scale = Some(scale);
    }

    pub fn y_scale(&mut self, scale: Scale)
        ensures
            final(self)@ == (ElementV { y_scale: Some(scale), ..old(self)@ }),
    {
        self.y_scale = Some(scale);
    }

    pub fn blend(&mut self, blend: Blend)
        ensures
            final(self)@ == (ElementV { blend: Some(blend), ..old(self)@ }),
    {
        self.blend = Some(blend);
    }

    pub fn build(self) -> (r: Element)
        ensures
            r@ == self@,
    {
        let r = Element {
            group: self.group,
            image: self.image,
            x: self.offset_x,
            y: self.offset_y,
            time: self.time,
            flip: self.flip,
            blend: self.blend,
            rotation: self.rotation,
            clsn1: None,
            clsn2: None,
            x_scale: self.x_scale,
            y_scale: self.y_scale,
        };
        proof {
            assert(r@ =~= self@);
        }
        r
    }
}

/// Parses the blend modifier of an element node.
fn blend_from_parts(text: &Vec<char>, nums: &Option<BlendNums>) -> (r: Result<Blend, ParseError>)
    ensures
        ({
            let nv = match *nums {
                Some(n) => Some(n@),
                None => None::<BlendNumsV>,
            };
            match r {
                Ok(bl) => blend_of(text@, nv) == Ok::<Blend, ParseErrorV>(bl),
                Err(e) => blend_of(text@, nv) == Err::<Blend, ParseErrorV>(e@),
            }
        }),
{
    match nums {
        Some(bn) => {
            let sv = match parse_u32_token(&bn.src) {
                Some(v) => v,
                None => {
                    return Err(
                        ParseError::InvalidNumericLiteral {
                            field: FieldName::BlendSrc,
                            text: copy_chars(&bn.src),
                        },
                    );
                },
            };
            let dv = match parse_u32_token(&bn.dst) {
                Some(v) => v,
                None => {
                    return Err(
                        ParseError::InvalidNumericLiteral {
                            field: FieldName::BlendDst,
                            text: copy_chars(&bn.dst),
                        },
                    );
                },
            };
            Ok(Blend::Add { src: sv, dst: dv })
        },
        None => {
            let kwa: Vec<char> = vec!['a'];
            let kwa1: Vec<char> = vec!['a', '1'];
            let kws: Vec<char> = vec!['s'];
            proof {
                assert(kwa@ =~= seq!['a']);
                assert(kwa1@ =~= seq!['a', '1']);
                assert(kws@ =~= seq!['s']);
            }
            if token_ci(text, &kwa) {
                Ok(Blend::Add { src: 256, dst: 256 })
            } else if token_ci(text, &kwa1) {
                Ok(Blend::Add { src: 256, dst: 128 })
            } else if token_ci(text, &kws) {
                Ok(Blend::Sub)
            } else {
                Err(
                    ParseError::InvalidModifierValue {
                        modifier: ModifierName::Blend,
                        text: copy_chars(text),
                    },
                )
            }
        },
    }
}

/// Assembles one element from its node: required fields in order, then
/// the modifiers in source order, last occurrence winning.
pub fn build_element(en: &ElementNode) -> (r: Result<Element, ParseError>)
    ensures
        (match r {
            Ok(el) => element_of(en@) == Ok::<ElementV, ParseErrorV>(el@),
            Err(e) => element_of(en@) == Err::<ElementV, ParseErrorV>(e@),
        }),
{
    let g = match parse_i64_token(&en.base.group) {
        Some(v) => v,
        None => {
            return Err(
                ParseError::InvalidNumericLiteral {
                    field: FieldName::Group,
                    text: copy_chars(&en.base.group),
                },
            );
        },
    };
    let im = match parse_i64_token(&en.base.image) {
        Some(v) => v,
        None => {
            return Err(
                ParseError::InvalidNumericLiteral {
                    field: FieldName::Image,
                    text: copy_chars(&en.base.image),
                },
            );
        },
    };
    let xv = match parse_i64_token(&en.base.x) {
        Some(v) => v,
        None => {
            return Err(
                ParseError::InvalidNumericLiteral {
                    field: FieldName::X,
                    text: copy_chars(&en.base.x),
                },
            );
        },
    };
    let yv = match parse_i64_token(&en.base.y) {
        Some(v) => v,
        None => {
            return Err(
                ParseError::InvalidNumericLiteral {
                    field: FieldName::Y,
                    text: copy_chars(&en.base.y),
                },
            );
        },
    };
    let tv = match parse_i64_token(&en.base.time) {
        Some(v) => v,
        None => {
            return Err(
                ParseError::InvalidNumericLiteral {
                    field: FieldName::Time,
                    text: copy_chars(&en.base.time),
                },
            );
        },
    };
    let mut eb = ElementBuilder::new();
    eb.group(g);
    eb.image(im);
    eb.offset_x(xv);
    eb.offset_y(yv);
    eb.time(tv);
    let ghost e0 = match base_of(en@.base) {
        Ok(e0) => e0,
        Err(_) => empty_element(),
    };
    let ghost msv = en@.mods;
    proof {
        assert(base_of(en@.base) == Ok::<ElementV, ParseErrorV>(e0));
        assert(element_of(en@) == mods_from(e0, msv, 0));
        assert(eb@ =~= e0);
    }
    let mut i: usize = 0;
    while i < en.mods.len()
        invariant
            0 <= i <= en.mods@.len(),
            msv == en@.mods,
            msv.len() == en.mods@.len(),
            forall|j: int| 0 <= j < msv.len() ==> msv[j] == en.mods@[j]@,
            element_of(en@) == mods_from(eb@, msv, i as int),
        decreases en.mods@.len() - i,
    {
        let m = &en.mods[i];
        proof {
            assert(m@ == msv[i as int]);
            assert(mods_from(eb@, msv, i as int) == (match apply_mod(eb@, msv[i as int]) {
                Err(er) => Err::<ElementV, ParseErrorV>(er),
                Ok(e2) => mods_from(e2, msv, i + 1),
            }));
        }
        match m {
            Modifier::FlipMod(tok) => {
                match flip_from_chars(tok) {
                    Ok(f) => eb.flip(f),
                    Err(e) => {
                        return Err(e);
                    },
                }
            },
            Modifier::BlendMod { text, nums } => {
                match blend_from_parts(text, nums) {
                    Ok(bl) => eb.blend(bl),
                    Err(e) => {
                        return Err(e);
                    },
                }
            },
            Modifier::XScaleMod(tok) => {
                match parse_scale_token(tok) {
                    Some(sc) => eb.x_scale(sc),
                    None => {
                        return Err(
                            ParseError::InvalidNumericLiteral {
                                field: FieldName::XScale,
                                text: copy_chars(tok),
                            },
                        );
                    },
                }
            },
            Modifier::YScaleMod(tok) => {
                match parse_scale_token(tok) {
                    Some(sc) => eb.y_scale(sc),
                    None => {
                        return Err(
                            ParseError::InvalidNumericLiteral {
                                field: FieldName::YScale,
                                text: copy_chars(tok),
                            },
                        );
                    },
                }
            },
            Modifier::RotationMod(tok) => {
                match parse_i64_token(tok) {
                    Some(v) => eb.rotation(Rotation(v)),
                    None => {
                        return Err(
                            ParseError::InvalidNumericLiteral {
                                field: FieldName::Rotation,
                                text: copy_chars(tok),
                            },
                        );
                    },
                }
            },
        }
        i = i + 1;
    }
    Ok(eb.build())
}

/// Parses one collision box from its node.
fn build_box(b: &BoxNode) -> (r: Result<ClsnBox, ParseError>)
    ensures
        (match r {
            Ok(c) => box_of(b@) == Ok::<ClsnBox, ParseErrorV>(c),
            Err(e) => box_of(b@) == Err::<ClsnBox, ParseErrorV>(e@),
        }),
{
    let x1 = match parse_i64_token(&b.x1) {
        Some(v) => v,
        None => {
            return Err(
                ParseError::InvalidNumericLiteral {
                    field: FieldName::BoxCoord,
                    text: copy_chars(&b.x1),
                },
            );
        },
    };
    let y1 = match parse_i64_token(&b.y1) {
        Some(v) => v,
        None => {
            return Err(
                ParseError::InvalidNumericLiteral {
                    field: FieldName::BoxCoord,
                    text: copy_chars(&b.y1),
                },
            );
        },
    };
    let x2 = match parse_i64_token(&b.x2) {
        Some(v) => v,
        None => {
            return Err(
                ParseError::InvalidNumericLiteral {
                    field: FieldName::BoxCoord,
                    text: copy_chars(&b.x2),
                },
            );
        },
    };
    let y2 = match parse_i64_token(&b.y2) {
        Some(v) => v,
        None => {
            return Err(
                ParseError::InvalidNumericLiteral {
                    field: FieldName::BoxCoord,
                    text: copy_chars(&b.y2),
                },
            );
        },
    };
    Ok(ClsnBox(x1, y1, x2, y2))
}

/// Parses all boxes of a group.
fn build_boxes(boxes: &Vec<BoxNode>) -> (r: Result<Vec<ClsnBox>, ParseError>)
    ensures
        ({
            let bv = boxes@.map_values(|b: BoxNode| b@);
            match r {
                Ok(v) => boxes_from(bv, 0) == Ok::<Seq<ClsnBox>, ParseErrorV>(v@),
                Err(e) => boxes_from(bv, 0) == Err::<Seq<ClsnBox>, ParseErrorV>(e@),
            }
        }),
{
    let ghost bv = boxes@.map_values(|b: BoxNode| b@);
    let mut acc: Vec<ClsnBox> = Vec::new();
    let mut i: usize = 0;
    while i < boxes.len()
        invariant
            0 <= i <= boxes@.len(),
            bv == boxes@.map_values(|b: BoxNode| b@),
            (match boxes_from(bv, i as int) {
                Ok(rest) => boxes_from(bv, 0) == Ok::<Seq<ClsnBox>, ParseErrorV>(acc@ + rest),
                Err(e) => boxes_from(bv, 0) == Err::<Seq<ClsnBox>, ParseErrorV>(e),
            }),
        decreases boxes@.len() - i,
    {
        match build_box(&boxes[i]) {
            Ok(c) => {
                proof {
                    if let Ok(rest) = boxes_from(bv, i + 1) {
                        assert(acc@ + (seq![c] + rest) =~= acc@.push(c) + rest);
                    }
                }
                acc.push(c);
            },
            Err(e) => {
                return Err(e);
            },
        }
        i = i + 1;
    }
    proof {
        assert(acc@ + Seq::<ClsnBox>::empty() =~= acc@);
    }
    Ok(acc)
}

// ---------------------------------------------------------------------------
// Executable action builder

/// A fresh copy of a box vector.
fn dup_boxes(v: &Vec<ClsnBox>) -> (r: Vec<ClsnBox>)
    ensures
        r@ == v@,
{
    let mut r: Vec<ClsnBox> = Vec::new();
    let mut i: usize = 0;
    while i < v.len()
        invariant
            0 <= i <= v@.len(),
            r@ == v@.take(i as int),
        decreases v@.len() - i,
    {
        proof {
            assert(v@.take(i + 1) =~= v@.take(i as int).push(v@[i as int]));
        }
        r.push(v[i]);
        i = i + 1;
    }
    proof {
        assert(v@.take(v@.len() as int) =~= v@);
    }
    r
}

/// A fresh copy of a collision-box declaration, equal at the model level.
fn dup_clsn(c: &Clsn) -> (r: Clsn)
    ensures
        r@ == c@,
{
    match c {
        Clsn::Clsn1Default(v) => Clsn::Clsn1Default(dup_boxes(v)),
        Clsn::Clsn2Default(v) => Clsn::Clsn2Default(dup_boxes(v)),
        Clsn::Clsn1(v) => Clsn::Clsn1(dup_boxes(v)),
        Clsn::Clsn2(v) => Clsn::Clsn2(dup_boxes(v)),
    }
}

/// The stateful core: accumulates one action block, applying the one-shot
/// and persistent collision-box rules, loop marking and interpolation
/// indexing.
pub struct ActionBuilder {
    pub number: u64,
    pub elements: Vec<Element>,
    pub loop_start: usize,
    pub current_clsn1: Option<Clsn>,
    pub current_clsn2: Option<Clsn>,
    pub default_clsn1: Option<Clsn>,
    pub default_clsn2: Option<Clsn>,
    pub interpolates: Option<Vec<Interpolate>>,
}

impl View for ActionBuilder {
    type V = BuilderV;

    open spec fn view(&self) -> BuilderV {
        BuilderV {
            number: self.number,
            elements: self.elements@.map_values(|e: Element| e@),
            loop_start: self.loop_start as int,
            pending1: match self.current_clsn1 {
                Some(c) => Some(c@),
                None => None,
            },
            pending2: match self.current_clsn2 {
                Some(c) => Some(c@),
                None => None,
            },
            default1: match self.default_clsn1 {
                Some(c) => Some(c@),
                None => None,
            },
            default2: match self.default_clsn2 {
                Some(c) => Some(c@),
                None => None,
            },
            interpolates: match self.interpolates {
                Some(v) => Some(v@),
                None => None,
            },
        }
    }
}

impl ActionBuilder {
    pub fn new() -> (r: ActionBuilder)
        ensures
            r@ == builder_init(),
    {
        let r = ActionBuilder {
            number: 0,
            elements: Vec::new(),
            loop_start: 0,
            current_clsn1: None,
            current_clsn2: None,
            default_clsn1: None,
            default_clsn2: None,
            interpolates: None,
        };
        proof {
            assert(r@ =~~= builder_init());
        }
        r
    }

    /// Records the block's declared number.
    pub fn number(&mut self, number: u64)
        ensures
            final(self)@ == old(self)@.with_number(number),
    {
        self.number = number;
        proof {
            assert(self@ =~~= old(self)@.with_number(number));
        }
    }

    /// Appends one element, attaching the one-shot collision boxes (and
    /// clearing those slots) or else a copy of the persistent defaults.
    pub fn element(&mut self, element: Element)
        ensures
            final(self)@ == old(self)@.with_element(element@),
    {
        let ghost ev = element@;
        let mut element = element;
        match self.current_clsn1.take() {
            Some(c) => element.set_clsn1(c),
            None => {
                match &self.default_clsn1 {
                    Some(c) => {
                        let d = dup_clsn(c);
                        element.set_clsn1(d);
                    },
                    None => {},
                }
            },
        }
        match self.current_clsn2.take() {
            Some(c) => element.set_clsn2(c),
            None => {
                match &self.default_clsn2 {
                    Some(c) => {
                        let d = dup_clsn(c);
                        element.set_clsn2(d);
                    },
                    None => {},
                }
            },
        }
        proof {
            assert(element@ =~~= old(self)@.attach(ev));
        }
        self.elements.push(element);
        proof {
            assert(self.elements@.map_values(|e: Element| e@) =~= old(
                self,
            ).elements@.map_values(|e: Element| e@).push(old(self)@.attach(ev)));
            assert(self@ =~~= old(self)@.with_element(ev));
        }
    }

    /// Records an interpolation keyframe at the current element count, or
    /// rejects an unrecognized kind spelling.
    pub fn interpolate(&mut self, kind: &Vec<char>) -> (r: Result<(), ParseError>)
        ensures
            ({
                let idx = old(self)@.elements.len() as usize;
                match r {
                    Ok(_) => interp_of(kind@, idx) is Some && final(self)@ == old(
                        self,
                    )@.with_interp(interp_of(kind@, idx)->Some_0),
                    Err(e) => interp_of(kind@, idx) is None && e@
                        == (ParseErrorV::InvalidModifierValue {
                        modifier: ModifierName::Interpolation,
                        text: kind@,
                    }),
                }
            }),
    {
        let idx = self.elements.len();
        let ip = match interp_from_chars(kind, idx) {
            Ok(ip) => ip,
            Err(e) => {
                return Err(e);
            },
        };
        match self.interpolates.take() {
            Some(mut v) => {
                v.push(ip);
                self.interpolates = Some(v);
            },
            None => {
                let mut v: Vec<Interpolate> = Vec::new();
                v.push(ip);
                self.interpolates = Some(v);
            },
        }
        proof {
            assert(self@ =~~= old(self)@.with_interp(ip));
        }
        Ok(())
    }

    /// Marks the next element to be appended as the loop target.
    pub fn loop_start(&mut self)
        ensures
            final(self)@ == old(self)@.with_loop(),
    {
        self.loop_start = self.elements.len();
        proof {
            assert(self@ =~~= old(self)@.with_loop());
        }
    }

    /// Stores a collision-box declaration in the slot its kind selects,
    /// replacing any previous value there.
    pub fn clsn(&mut self, clsn: Clsn)
        ensures
            final(self)@ == old(self)@.with_clsn(clsn@),
    {
        let ghost cv = clsn@;
        match clsn {
            Clsn::Clsn1(b) => {
                self.current_clsn1 = Some(Clsn::Clsn1(b));
            },
            Clsn::Clsn2(b) => {
                self.current_clsn2 = Some(Clsn::Clsn2(b));
            },
            Clsn::Clsn1Default(b) => {
                self.default_clsn1 = Some(Clsn::Clsn1Default(b));
            },
            Clsn::Clsn2Default(b) => {
                self.default_clsn2 = Some(Clsn::Clsn2Default(b));
            },
        }
        proof {
            assert(self@ =~~= old(self)@.with_clsn(cv));
        }
    }

    /// Emits the finished action.
    pub fn build(self) -> (r: Action)
        ensures
            r@ == self@.finish(),
    {
        let r = Action {
            number: self.number,
            elements: self.elements,
            loop_start: self.loop_start,
            interpolates: self.interpolates,
        };
        proof {
            assert(r@ =~~= self@.finish());
        }
        r
    }
}

/// Applies one node of the block to the builder.
fn apply_node(b: &mut ActionBuilder, n: &Node) -> (r: Result<(), ParseError>)
    ensures
        (match r {
            Ok(_) => action_step(old(b)@, n@) == Ok::<BuilderV, ParseErrorV>(final(b)@),
            Err(e) => action_step(old(b)@, n@) == Err::<BuilderV, ParseErrorV>(e@),
        }),
{
    match n {
        Node::ActionDef(tok) => {
            match parse_u64_token(tok) {
                Some(v) => {
                    b.number(v);
                    Ok(())
                },
                None => Err(
                    ParseError::InvalidNumericLiteral {
                        field: FieldName::ActionNumber,
                        text: copy_chars(tok),
                    },
                ),
            }
        },
        Node::ActionElement(en) => {
            match build_element(en) {
                Ok(el) => {
                    b.element(el);
                    Ok(())
                },
                Err(e) => Err(e),
            }
        },
        Node::Interpolation(tok) => b.interpolate(tok),
        Node::ClsnGroup { def, boxes } => {
            match build_boxes(boxes) {
                Err(e) => Err(e),
                Ok(bs) => {
                    match clsn_from_chars(def, bs) {
                        Ok(c) => {
                            b.clsn(c);
                            Ok(())
                        },
                        Err(e) => Err(e),
                    }
                },
            }
        },
        Node::Loopstart => {
            b.loop_start();
            Ok(())
        },
    }
}

/// Walks one recognized action block and assembles its typed `Action`, or
/// reports the first semantic error.
pub fn build_action(nodes: &Vec<Node>) -> (r: Result<Action, ParseError>)
    ensures
        ({
            let nv = nodes@.map_values(|n: Node| n@);
            match r {
                Ok(a) => build_action_spec(nv) == Ok::<ActionV, ParseErrorV>(a@),
                Err(e) => build_action_spec(nv) == Err::<ActionV, ParseErrorV>(e@),
            }
        }),
{
    let ghost nv = nodes@.map_values(|n: Node| n@);
    let mut b = ActionBuilder::new();
    let mut i: usize = 0;
    while i < nodes.len()
        invariant
            0 <= i <= nodes@.len(),
            nv == nodes@.map_values(|n: Node| n@),
            steps_from(builder_init(), nv, 0) == steps_from(b@, nv, i as int),
        decreases nodes@.len() - i,
    {
        let n = &nodes[i];
        proof {
            assert(n@ == nv[i as int]);
            assert(steps_from(b@, nv, i as int) == (match action_step(b@, nv[i as int]) {
                Err(e) => Err::<BuilderV, ParseErrorV>(e),
                Ok(b2) => steps_from(b2, nv, i + 1),
            }));
        }
        match apply_node(&mut b, n) {
            Ok(_) => {},
            Err(e) => {
                return Err(e);
            },
        }
        i = i + 1;
    }
    Ok(b.build())
}

} // verus!
