//! The rule-tagged nodes the syntax recognizer produces: the vocabulary the
//! semantic builder consumes.  Tokens are kept as their matched text; numeric
//! interpretation happens in the builder, so that a malformed literal can be
//! reported with its offending text.

use vstd::prelude::*;

verus! {

/// The five required positional number tokens of one element line, in
/// source order.
pub struct BaseNode {
    pub group: Vec<char>,
    pub image: Vec<char>,
    pub x: Vec<char>,
    pub y: Vec<char>,
    pub time: Vec<char>,
}

pub struct BaseNodeV {
    pub group: Seq<char>,
    pub image: Seq<char>,
    pub x: Seq<char>,
    pub y: Seq<char>,
    pub time: Seq<char>,
}

impl View for BaseNode {
    type V = BaseNodeV;

    open spec fn view(&self) -> BaseNodeV {
        BaseNodeV {
            group: self.group@,
            image: self.image@,
            x: self.x@,
            y: self.y@,
            time: self.time@,
        }
    }
}

/// The two number tokens the recognizer extracts from a blend token that
/// begins with `AS`.
pub struct BlendNums {
    pub src: Vec<char>,
    pub dst: Vec<char>,
}

pub struct BlendNumsV {
    pub src: Seq<char>,
    pub dst: Seq<char>,
}

impl View for BlendNums {
    type V = BlendNumsV;

    open spec fn view(&self) -> BlendNumsV {
        BlendNumsV { src: self.src@, dst: self.dst@ }
    }
}

/// One optional modifier of an element line, tagged by its kind.
pub enum Modifier {
    FlipMod(Vec<char>),
    BlendMod { text: Vec<char>, nums: Option<BlendNums> },
    XScaleMod(Vec<char>),
    YScaleMod(Vec<char>),
    RotationMod(Vec<char>),
}

pub enum ModifierV {
    FlipMod(Seq<char>),
    BlendMod { text: Seq<char>, nums: Option<BlendNumsV> },
    XScaleMod(Seq<char>),
    YScaleMod(Seq<char>),
    RotationMod(Seq<char>),
}

impl View for Modifier {
    type V = ModifierV;

    open spec fn view(&self) -> ModifierV {
        match self {
            Modifier::FlipMod(t) => ModifierV::FlipMod(t@),
            Modifier::BlendMod { text, nums } => ModifierV::BlendMod {
                text: text@,
                nums: match nums {
                    Some(n) => Some(n@),
                    None => None,
                },
            },
            Modifier::XScaleMod(t) => ModifierV::XScaleMod(t@),
            Modifier::YScaleMod(t) => ModifierV::YScaleMod(t@),
            Modifier::RotationMod(t) => ModifierV::RotationMod(t@),
        }
    }
}

/// One element line: its five required tokens and its optional modifiers
/// in source order.
pub struct ElementNode {
    pub base: BaseNode,
    pub mods: Vec<Modifier>,
}

pub struct ElementNodeV {
    pub base: BaseNodeV,
    pub mods: Seq<ModifierV>,
}

impl View for ElementNode {
    type V = ElementNodeV;

    open spec fn view(&self) -> ElementNodeV {
        ElementNodeV { base: self.base@, mods: self.mods@.map_values(|m: Modifier| m@) }
    }
}

/// The four number tokens of one collision-box line.
pub struct BoxNode {
    pub x1: Vec<char>,
    pub y1: Vec<char>,
    pub x2: Vec<char>,
    pub y2: Vec<char>,
}

pub struct BoxNodeV {
    pub x1: Seq<char>,
    pub y1: Seq<char>,
    pub x2: Seq<char>,
    pub y2: Seq<char>,
}

impl View for BoxNode {
    type V = BoxNodeV;

    open spec fn view(&self) -> BoxNodeV {
        BoxNodeV { x1: self.x1@, y1: self.y1@, x2: self.x2@, y2: self.y2@ }
    }
}

/// One node of an action block, in the order encountered.
pub enum Node {
    /// The block's declared number token.
    ActionDef(Vec<char>),
    /// One frame with its modifiers.
    ActionElement(ElementNode),
    /// An interpolation directive's kind token.
    Interpolation(Vec<char>),
    /// A collision-box declaration: its kind token and its box lines.
    ClsnGroup { def: Vec<char>, boxes: Vec<BoxNode> },
    /// The loop-start marker.
    Loopstart,
}

pub enum NodeV {
    ActionDef(Seq<char>),
    ActionElement(ElementNodeV),
    Interpolation(Seq<char>),
    ClsnGroup { def: Seq<char>, boxes: Seq<BoxNodeV> },
    Loopstart,
}

impl View for Node {
    type V = NodeV;

    open spec fn view(&self) -> NodeV {
        match self {
            Node::ActionDef(t) => NodeV::ActionDef(t@),
            Node::ActionElement(e) => NodeV::ActionElement(e@),
            Node::Interpolation(t) => NodeV::Interpolation(t@),
            Node::ClsnGroup { def, boxes } => NodeV::ClsnGroup {
                def: def@,
                boxes: boxes@.map_values(|b: BoxNode| b@),
            },
            Node::Loopstart => NodeV::Loopstart,
        }
    }
}

/// One classified source line.
pub enum Line {
    Blank,
    Header(Vec<char>),
    ElementLine(ElementNode),
    InterpLine(Vec<char>),
    ClsnDefLine(Vec<char>),
    BoxLine(BoxNode),
    LoopstartLine,
}

pub enum LineV {
    Blank,
    Header(Seq<char>),
    ElementLine(ElementNodeV),
    InterpLine(Seq<char>),
    ClsnDefLine(Seq<char>),
    BoxLine(BoxNodeV),
    LoopstartLine,
}

impl View for Line {
    type V = LineV;

    open spec fn view(&self) -> LineV {
        match self {
            Line::Blank => LineV::Blank,
            Line::Header(t) => LineV::Header(t@),
            Line::ElementLine(e) => LineV::ElementLine(e@),
            Line::InterpLine(t) => LineV::InterpLine(t@),
            Line::ClsnDefLine(t) => LineV::ClsnDefLine(t@),
            Line::BoxLine(b) => LineV::BoxLine(b@),
            Line::LoopstartLine => LineV::LoopstartLine,
        }
    }
}

} // verus!
