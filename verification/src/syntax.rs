//! The syntax recognizer: turns source text into the per-action node streams
//! of `nodes`.  The grammar is line-oriented: a document is a sequence of
//! lines, each (after comment stripping and trimming) an action header
//! `[Begin Action n]`, an element line of comma-separated fields, a
//! collision-box declaration `name: count` followed by box lines
//! `name[i] = x1, y1, x2, y2`, an interpolation directive
//! `Interpolate kind`, the `Loopstart` marker, or blank.  Everything here is
//! proved against the specification functions, so `recognize` is a function
//! of the text alone.

use vstd::prelude::*;
use crate::errors::{Expected, NodeKind, ParseError, ParseErrorV};
use crate::nodes::{
    BaseNode, BaseNodeV, BlendNums, BlendNumsV, BoxNode, BoxNodeV, ElementNode, ElementNodeV,
    Line, LineV, Modifier, ModifierV, Node, NodeV,
};
use crate::text::{ci, ci_eq, digit_eq, find_from, is_digit, is_space, skip_ws};

verus! {

// ---------------------------------------------------------------------------
// Character runs and keywords

/// The first index at or after `p` holding a non-digit, or the length.
pub open spec fn skip_digits(t: Seq<char>, p: int) -> int
    decreases t.len() - p,
{
    if p < 0 || p >= t.len() {
        t.len() as int
    } else if is_digit(t[p]) {
        skip_digits(t, p + 1)
    } else {
        p
    }
}

pub proof fn lemma_skip_digits(t: Seq<char>, p: int)
    requires
        0 <= p <= t.len(),
    ensures
        p <= skip_digits(t, p) <= t.len(),
        skip_digits(t, p) < t.len() ==> !is_digit(t[skip_digits(t, p)]),
        forall|i: int| p <= i < skip_digits(t, p) ==> is_digit(t[i]),
    decreases t.len() - p,
{
    if p < t.len() && is_digit(t[p]) {
        lemma_skip_digits(t, p + 1);
    }
}

/// Exec counterpart of `skip_digits`.
pub fn scan_digit_run(s: &Vec<char>, from: usize) -> (r: usize)
    requires
        from <= s@.len(),
    ensures
        r == skip_digits(s@, from as int),
        from <= r <= s@.len(),
{
    proof {
        lemma_skip_digits(s@, from as int);
    }
    let mut q: usize = from;
    while q < s.len() && digit_eq(s[q])
        invariant
            from <= q <= s@.len(),
            skip_digits(s@, from as int) == skip_digits(s@, q as int),
        decreases s@.len() - q,
    {
        q = q + 1;
    }
    q
}

/// A letter or digit: the characters an identifier is made of.
pub open spec fn is_alnum(c: char) -> bool {
    is_digit(c) || ('a' <= c && c <= 'z') || ('A' <= c && c <= 'Z')
}

/// The first index at or after `p` holding a non-identifier character, or
/// the length.
pub open spec fn skip_alnum(t: Seq<char>, p: int) -> int
    decreases t.len() - p,
{
    if p < 0 || p >= t.len() {
        t.len() as int
    } else if is_alnum(t[p]) {
        skip_alnum(t, p + 1)
    } else {
        p
    }
}

/// Exec counterpart of `skip_alnum`.
pub fn scan_alnum_run(s: &Vec<char>, from: usize) -> (r: usize)
    requires
        from <= s@.len(),
    ensures
        r == skip_alnum(s@, from as int),
        from <= r <= s@.len(),
{
    proof {
        lemma_skip_alnum(s@, from as int);
    }
    let mut q: usize = from;
    while q < s.len() && (digit_eq(s[q]) || ('a' <= s[q] && s[q] <= 'z') || ('A' <= s[q] && s[q]
        <= 'Z'))
        invariant
            from <= q <= s@.len(),
            skip_alnum(s@, from as int) == skip_alnum(s@, q as int),
        decreases s@.len() - q,
    {
        q = q + 1;
    }
    q
}

pub proof fn lemma_skip_alnum(t: Seq<char>, p: int)
    requires
        0 <= p <= t.len(),
    ensures
        p <= skip_alnum(t, p) <= t.len(),
    decreases t.len() - p,
{
    if p < t.len() && is_alnum(t[p]) {
        lemma_skip_alnum(t, p + 1);
    }
}

/// Case-insensitive match of the lower-case keyword `kw` at position `p`.
pub open spec fn kw_at(t: Seq<char>, p: int, kw: Seq<char>) -> bool {
    p >= 0 && p + kw.len() <= t.len() && (forall|i: int|
        0 <= i < kw.len() ==> ci(t[p + i], kw[i]))
}

/// Exec counterpart of `kw_at`.
pub fn kw_eq(s: &Vec<char>, p: usize, kw: &Vec<char>) -> (r: bool)
    requires
        p <= s@.len(),
    ensures
        r == kw_at(s@, p as int, kw@),
{
    if s.len() - p < kw.len() {
        return false;
    }
    let mut i: usize = 0;
    while i < kw.len()
        invariant
            0 <= i <= kw@.len(),
            p + kw@.len() <= s@.len() <= usize::MAX,
            forall|j: int| 0 <= j < i ==> ci(s@[p + j], kw@[j]),
        decreases kw@.len() - i,
    {
        let j: usize = p + i;
        if !ci_eq(s[j], kw[i]) {
            return false;
        }
        i = i + 1;
    }
    true
}

pub open spec fn kw_begin() -> Seq<char> {
    seq!['b', 'e', 'g', 'i', 'n']
}

pub open spec fn kw_action() -> Seq<char> {
    seq!['a', 'c', 't', 'i', 'o', 'n']
}

pub open spec fn kw_loopstart() -> Seq<char> {
    seq!['l', 'o', 'o', 'p', 's', 't', 'a', 'r', 't']
}

pub open spec fn kw_interpolate() -> Seq<char> {
    seq!['i', 'n', 't', 'e', 'r', 'p', 'o', 'l', 'a', 't', 'e']
}

pub open spec fn kw_clsn() -> Seq<char> {
    seq!['c', 'l', 's', 'n']
}

// ---------------------------------------------------------------------------
// Lines, comments, trimming

/// The lines of the text from position `p` on, split at `'\n'`.
pub open spec fn split_from(t: Seq<char>, p: int) -> Seq<Seq<char>>
    decreases t.len() - p,
{
    if p < 0 || p > t.len() {
        seq![]
    } else {
        let i = find_from(t, p, '\n');
        if p <= i && i < t.len() {
            seq![t.subrange(p, i)] + split_from(t, i + 1)
        } else {
            seq![t.subrange(p, t.len() as int)]
        }
    }
}

/// The line with any `';'` comment and surrounding whitespace removed.
pub open spec fn clean_spec(t: Seq<char>) -> Seq<char> {
    trim_spec(t.take(find_from(t, 0, ';')))
}

/// The sequence without leading and trailing horizontal whitespace.
pub open spec fn trim_spec(t: Seq<char>) -> Seq<char> {
    let a = skip_ws(t, 0);
    let b = rtrim_end(t, t.len() as int);
    if a <= b {
        t.subrange(a, b)
    } else {
        seq![]
    }
}

/// The end of the sequence's non-whitespace content at or before `p`.
pub open spec fn rtrim_end(t: Seq<char>, p: int) -> int
    decreases p,
{
    if p <= 0 || p > t.len() {
        0
    } else if is_space(t[p - 1]) {
        rtrim_end(t, p - 1)
    } else {
        p
    }
}

// ---------------------------------------------------------------------------
// Line classification

/// Splits `t[p..]` into its comma-separated fields, each trimmed.
pub open spec fn fields_from(t: Seq<char>, p: int) -> Seq<Seq<char>>
    decreases t.len() - p,
{
    if p < 0 || p > t.len() {
        seq![]
    } else {
        let i = find_from(t, p, ',');
        if p <= i && i < t.len() {
            seq![trim_spec(t.subrange(p, i))] + fields_from(t, i + 1)
        } else {
            seq![trim_spec(t.subrange(p, t.len() as int))]
        }
    }
}

/// Classification of an action-header line `[Begin Action n]`.
pub open spec fn header_spec(t: Seq<char>, ln: int) -> Result<LineV, ParseErrorV> {
    let p1 = skip_ws(t, 1);
    if !kw_at(t, p1, kw_begin()) {
        Err(ParseErrorV::SyntaxError { line: ln, expected: Expected::ActionKeyword })
    } else {
        let p2 = skip_ws(t, p1 + 5);
        if p2 == p1 + 5 || !kw_at(t, p2, kw_action()) {
            Err(ParseErrorV::SyntaxError { line: ln, expected: Expected::ActionKeyword })
        } else {
            let p3 = skip_ws(t, p2 + 6);
            let e = skip_digits(t, p3);
            if p2 + 6 == p3 || e == p3 {
                Err(ParseErrorV::SyntaxError { line: ln, expected: Expected::ActionNumber })
            } else {
                let p4 = skip_ws(t, e);
                if p4 + 1 == t.len() && t[p4] == ']' {
                    Ok(LineV::Header(t.subrange(p3, e)))
                } else {
                    Err(ParseErrorV::SyntaxError { line: ln, expected: Expected::CloseBracket })
                }
            }
        }
    }
}

/// Classification of a blend field: a token beginning `AS` is decomposed
/// into its two embedded numbers `AS<src>D<dst>`.
pub open spec fn blend_mod_spec(f: Seq<char>, ln: int) -> Result<ModifierV, ParseErrorV> {
    if f.len() >= 2 && f[0] == 'A' && f[1] == 'S' {
        let d1 = skip_digits(f, 2);
        if d1 == 2 || d1 >= f.len() || !ci(f[d1], 'd') {
            Err(ParseErrorV::SyntaxError { line: ln, expected: Expected::BlendNumbers })
        } else {
            let d2 = skip_digits(f, d1 + 1);
            if d2 == d1 + 1 || d2 != f.len() {
                Err(ParseErrorV::SyntaxError { line: ln, expected: Expected::BlendNumbers })
            } else {
                Ok(
                    ModifierV::BlendMod {
                        text: f,
                        nums: Some(
                            BlendNumsV {
                                src: f.subrange(2, d1),
                                dst: f.subrange(d1 + 1, d2),
                            },
                        ),
                    },
                )
            }
        }
    } else {
        Ok(ModifierV::BlendMod { text: f, nums: None })
    }
}

/// The modifiers of an element line, tagged by their position: sixth field
/// flip, seventh blend, eighth and ninth the axis scales, tenth rotation.
pub open spec fn mods_spec(fields: Seq<Seq<char>>, ln: int) -> Result<Seq<ModifierV>, ParseErrorV> {
    let flips: Seq<ModifierV> = if fields.len() > 5 {
        seq![ModifierV::FlipMod(fields[5])]
    } else {
        seq![]
    };
    if fields.len() > 6 {
        match blend_mod_spec(fields[6], ln) {
            Err(e) => Err(e),
            Ok(bm) => Ok(
                flips + seq![bm] + (if fields.len() > 7 {
                    seq![ModifierV::XScaleMod(fields[7])]
                } else {
                    seq![]
                }) + (if fields.len() > 8 {
                    seq![ModifierV::YScaleMod(fields[8])]
                } else {
                    seq![]
                }) + (if fields.len() > 9 {
                    seq![ModifierV::RotationMod(fields[9])]
                } else {
                    seq![]
                }),
            ),
        }
    } else {
        Ok(flips)
    }
}

/// Classification of an element line: five required number fields, then
/// up to five optional modifier fields.
pub open spec fn element_spec(t: Seq<char>, ln: int) -> Result<LineV, ParseErrorV> {
    let fields = fields_from(t, 0);
    if fields.len() < 5 || fields.len() > 10 {
        Err(ParseErrorV::SyntaxError { line: ln, expected: Expected::ElementFields })
    } else {
        match mods_spec(fields, ln) {
            Err(e) => Err(e),
            Ok(ms) => Ok(
                LineV::ElementLine(
                    ElementNodeV {
                        base: BaseNodeV {
                            group: fields[0],
                            image: fields[1],
                            x: fields[2],
                            y: fields[3],
                            time: fields[4],
                        },
                        mods: ms,
                    },
                ),
            ),
        }
    }
}

/// Classification of an interpolation directive `Interpolate kind`.
pub open spec fn interp_spec(t: Seq<char>, ln: int) -> Result<LineV, ParseErrorV> {
    let p = skip_ws(t, 11);
    if p == 11 || p == t.len() {
        Err(ParseErrorV::SyntaxError { line: ln, expected: Expected::InterpolationKind })
    } else {
        Ok(LineV::InterpLine(t.subrange(p, t.len() as int)))
    }
}

/// Classification of a collision-box line: either a declaration
/// `name: count` or a box line `name[i] = x1, y1, x2, y2`.
pub open spec fn clsn_spec(t: Seq<char>, ln: int) -> Result<LineV, ParseErrorV> {
    let ne = skip_alnum(t, 0);
    let p = skip_ws(t, ne);
    if p < t.len() && t[p] == ':' {
        let q = skip_ws(t, p + 1);
        let de = skip_digits(t, q);
        if q == de || de != t.len() {
            Err(ParseErrorV::SyntaxError { line: ln, expected: Expected::ClsnCount })
        } else {
            Ok(LineV::ClsnDefLine(t.subrange(0, ne)))
        }
    } else if p < t.len() && t[p] == '[' {
        let q = skip_ws(t, p + 1);
        let de = skip_digits(t, q);
        if q == de {
            Err(ParseErrorV::SyntaxError { line: ln, expected: Expected::ClsnIndex })
        } else {
            let r = skip_ws(t, de);
            if !(r < t.len() && t[r] == ']') {
                Err(ParseErrorV::SyntaxError { line: ln, expected: Expected::CloseBracket })
            } else {
                let s1 = skip_ws(t, r + 1);
                if !(s1 < t.len() && t[s1] == '=') {
                    Err(ParseErrorV::SyntaxError { line: ln, expected: Expected::EqualsSign })
                } else {
                    let nums = fields_from(t, s1 + 1);
                    if nums.len() != 4 {
                        Err(ParseErrorV::SyntaxError { line: ln, expected: Expected::BoxNumbers })
                    } else {
                        Ok(
                            LineV::BoxLine(
                                BoxNodeV { x1: nums[0], y1: nums[1], x2: nums[2], y2: nums[3] },
                            ),
                        )
                    }
                }
            }
        }
    } else {
        Err(ParseErrorV::SyntaxError { line: ln, expected: Expected::ClsnSeparator })
    }
}

/// Classification of one cleaned line.
pub open spec fn classify_spec(t: Seq<char>, ln: int) -> Result<LineV, ParseErrorV> {
    if t.len() == 0 {
        Ok(LineV::Blank)
    } else if t[0] == '[' {
        header_spec(t, ln)
    } else if is_digit(t[0]) || t[0] == '-' {
        element_spec(t, ln)
    } else if t.len() == 9 && kw_at(t, 0, kw_loopstart()) {
        Ok(LineV::LoopstartLine)
    } else if kw_at(t, 0, kw_interpolate()) {
        interp_spec(t, ln)
    } else if kw_at(t, 0, kw_clsn()) {
        clsn_spec(t, ln)
    } else {
        Err(ParseErrorV::SyntaxError { line: ln, expected: Expected::LineForm })
    }
}

// ---------------------------------------------------------------------------
// Assembling classified lines into per-action node streams

/// An open collision-box group: its declaration token, the box lines seen
/// so far, and the declaration's line for error reporting.
#[verifier::ext_equal]
pub struct PendingV {
    pub def: Seq<char>,
    pub boxes: Seq<BoxNodeV>,
    pub line: int,
}

/// The assembler's state: finished blocks, the open block, and the open
/// collision-box group.
#[verifier::ext_equal]
pub struct AsmV {
    pub blocks: Seq<Seq<NodeV>>,
    pub cur: Option<Seq<NodeV>>,
    pub pending: Option<PendingV>,
}

pub open spec fn asm_init() -> AsmV {
    AsmV { blocks: seq![], cur: None, pending: None }
}

/// Closes an open collision-box group, which must have collected at least
/// one box line, into a `ClsnGroup` node of the open block.
pub open spec fn flush_pending(st: AsmV) -> Result<AsmV, ParseErrorV> {
    match st.pending {
        None => Ok(st),
        Some(p) => {
            if p.boxes.len() == 0 {
                Err(ParseErrorV::SyntaxError { line: p.line, expected: Expected::BoxLine })
            } else {
                Ok(
                    AsmV {
                        cur: match st.cur {
                            Some(ns) => Some(
                                ns.push(NodeV::ClsnGroup { def: p.def, boxes: p.boxes }),
                            ),
                            None => None,
                        },
                        pending: None,
                        ..st
                    },
                )
            }
        },
    }
}

/// Appends a node to the open block; outside any block the node is out of
/// place.
pub open spec fn append_node(st: AsmV, n: NodeV, kind: NodeKind) -> Result<AsmV, ParseErrorV> {
    match st.cur {
        Some(ns) => Ok(AsmV { cur: Some(ns.push(n)), ..st }),
        None => Err(ParseErrorV::UnexpectedNode { kind }),
    }
}

/// One assembler step for one classified line.
pub open spec fn asm_step(st: AsmV, lv: LineV, ln: int) -> Result<AsmV, ParseErrorV> {
    match lv {
        LineV::Blank => Ok(st),
        LineV::BoxLine(b) => match st.pending {
            Some(p) => Ok(
                AsmV { pending: Some(PendingV { boxes: p.boxes.push(b), ..p }), ..st },
            ),
            None => Err(ParseErrorV::UnexpectedNode { kind: NodeKind::ClsnBoxes }),
        },
        _ => match flush_pending(st) {
            Err(e) => Err(e),
            Ok(st1) => match lv {
                LineV::Header(tok) => Ok(
                    AsmV {
                        blocks: match st1.cur {
                            Some(ns) => st1.blocks.push(ns),
                            None => st1.blocks,
                        },
                        cur: Some(seq![NodeV::ActionDef(tok)]),
                        pending: None,
                    },
                ),
                LineV::ElementLine(en) => append_node(
                    st1,
                    NodeV::ActionElement(en),
                    NodeKind::ActionElement,
                ),
                LineV::InterpLine(tok) => append_node(
                    st1,
                    NodeV::Interpolation(tok),
                    NodeKind::Interpolation,
                ),
                LineV::LoopstartLine => append_node(st1, NodeV::Loopstart, NodeKind::Loopstart),
                LineV::ClsnDefLine(nm) => match st1.cur {
                    Some(_) => Ok(
                        AsmV {
                            pending: Some(PendingV { def: nm, boxes: seq![], line: ln }),
                            ..st1
                        },
                    ),
                    None => Err(ParseErrorV::UnexpectedNode { kind: NodeKind::ClsnGroup }),
                },
                _ => Ok(st1),
            },
        },
    }
}

/// Closes the assembler at end of input.
pub open spec fn asm_finish(st: AsmV) -> Result<Seq<Seq<NodeV>>, ParseErrorV> {
    match flush_pending(st) {
        Err(e) => Err(e),
        Ok(st1) => Ok(
            match st1.cur {
                Some(ns) => st1.blocks.push(ns),
                None => st1.blocks,
            },
        ),
    }
}

/// Folds the assembler over the classified lines from index `i` on.
pub open spec fn asm_lines(lines: Seq<Seq<char>>, i: int, st: AsmV) -> Result<
    Seq<Seq<NodeV>>,
    ParseErrorV,
>
    decreases lines.len() - i,
{
    if i < 0 || i >= lines.len() {
        asm_finish(st)
    } else {
        match classify_spec(clean_spec(lines[i]), i + 1) {
            Err(e) => Err(e),
            Ok(lv) => match asm_step(st, lv, i + 1) {
                Err(e) => Err(e),
                Ok(st2) => asm_lines(lines, i + 1, st2),
            },
        }
    }
}

/// What the recognizer produces from source text: the node stream of each
/// action block in order, or the first error.
pub open spec fn recognize_spec(t: Seq<char>) -> Result<Seq<Seq<NodeV>>, ParseErrorV> {
    asm_lines(split_from(t, 0), 0, asm_init())
}

} // verus!
