//! Executable side of the syntax recognizer, proved against the
//! specification functions of `syntax`.

use vstd::prelude::*;
use crate::errors::{Expected, NodeKind, ParseError, ParseErrorV};
use crate::nodes::{
    BaseNode, BlendNums, BoxNode, ElementNode, Line, LineV, Modifier, ModifierV, Node, NodeV,
};
use crate::syntax::{
    asm_finish, asm_init, asm_lines, asm_step, blend_mod_spec, classify_spec, clean_spec,
    clsn_spec, element_spec, fields_from, flush_pending, header_spec, interp_spec, kw_action,
    kw_begin, kw_clsn, kw_interpolate, kw_loopstart, mods_spec, recognize_spec, rtrim_end,
    scan_alnum_run, scan_digit_run, split_from, trim_spec, AsmV, PendingV,
};
use crate::text::{
    chars_of, ci_eq, copy_chars, find_char, find_from, is_space, lemma_find_from, lemma_skip_ws,
    skip_spaces, skip_ws, space_eq, sub_vec,
};

verus! {

/// The view of a classification result.
pub open spec fn line_res_view(r: Result<Line, ParseError>) -> Result<LineV, ParseErrorV> {
    match r {
        Ok(l) => Ok(l@),
        Err(e) => Err(e@),
    }
}

/// Trims `s[from..to]`, as `trim_spec` of that subrange.
pub fn trim_range(s: &Vec<char>, from: usize, to: usize) -> (r: Vec<char>)
    requires
        from <= to <= s@.len(),
    ensures
        r@ == trim_spec(s@.subrange(from as int, to as int)),
{
    let ghost u = s@.subrange(from as int, to as int);
    let mut q: usize = from;
    while q < to && space_eq(s[q])
        invariant
            from <= q <= to <= s@.len(),
            u == s@.subrange(from as int, to as int),
            skip_ws(u, 0) == skip_ws(u, q - from),
        decreases to - q,
    {
        assert(u[q - from] == s@[q as int]);
        q = q + 1;
    }
    assert(skip_ws(u, 0) == q - from) by {
        if q < to {
            assert(u[q - from] == s@[q as int]);
        }
    }
    let mut b: usize = to;
    while b > q && space_eq(s[b - 1])
        invariant
            from <= q <= b <= to <= s@.len(),
            u == s@.subrange(from as int, to as int),
            rtrim_end(u, to - from) == rtrim_end(u, b - from),
        decreases b,
    {
        assert(u[b - 1 - from] == s@[b - 1]);
        b = b - 1;
    }
    let r = sub_vec(s, q, b);
    proof {
        lemma_skip_ws(u, 0);
        if b > q {
            assert(u[b - 1 - from] == s@[b - 1]);
            assert(rtrim_end(u, to - from) == b - from);
            assert(r@ =~= u.subrange(q - from, b - from));
        } else {
            lemma_rtrim_all_spaces(u, q - from);
            assert(r@ =~= trim_spec(u));
        }
    }
    r
}

/// Trimming from the right over nothing but whitespace reaches the start.
proof fn lemma_rtrim_all_spaces(u: Seq<char>, p: int)
    requires
        0 <= p <= u.len(),
        forall|i: int| 0 <= i < p ==> is_space(u[i]),
    ensures
        rtrim_end(u, p) == 0,
    decreases p,
{
    if p > 0 {
        lemma_rtrim_all_spaces(u, p - 1);
    }
}

/// Strips the `';'` comment and trims one line.
pub fn clean_line(s: &Vec<char>) -> (r: Vec<char>)
    ensures
        r@ == clean_spec(s@),
{
    let semi = find_char(s, 0, ';');
    proof {
        assert(s@.subrange(0, semi as int) =~= s@.take(find_from(s@, 0, ';')));
    }
    trim_range(s, 0, semi)
}

/// Splits the whole text into its lines.
pub fn split_all(s: &Vec<char>) -> (r: Vec<Vec<char>>)
    ensures
        r@.map_values(|v: Vec<char>| v@) == split_from(s@, 0),
{
    let mut res: Vec<Vec<char>> = Vec::new();
    let mut p: usize = 0;
    proof {
        lemma_find_from(s@, 0, '\n');
    }
    loop
        invariant_except_break
            p <= s@.len(),
            split_from(s@, 0) == res@.map_values(|v: Vec<char>| v@) + split_from(s@, p as int),
        ensures
            res@.map_values(|v: Vec<char>| v@) == split_from(s@, 0),
        decreases s@.len() - p,
    {
        let i = find_char(s, p, '\n');
        proof {
            lemma_find_from(s@, p as int, '\n');
        }
        if i < s.len() {
            let line = sub_vec(s, p, i);
            proof {
                assert((res@.push(line)).map_values(|v: Vec<char>| v@) =~= res@.map_values(
                    |v: Vec<char>| v@,
                ).push(line@));
                assert(res@.map_values(|v: Vec<char>| v@) + split_from(s@, p as int) =~= (
                res@.push(line)).map_values(|v: Vec<char>| v@) + split_from(s@, i + 1));
            }
            res.push(line);
            p = i + 1;
        } else {
            let line = sub_vec(s, p, s.len());
            proof {
                assert((res@.push(line)).map_values(|v: Vec<char>| v@) =~= res@.map_values(
                    |v: Vec<char>| v@,
                ).push(line@));
                assert(res@.map_values(|v: Vec<char>| v@) + split_from(s@, p as int) =~= (
                res@.push(line)).map_values(|v: Vec<char>| v@));
            }
            res.push(line);
            break;
        }
    }
    res
}

/// Splits `s[from..]` into trimmed comma-separated fields.
pub fn split_fields(s: &Vec<char>, from: usize) -> (r: Vec<Vec<char>>)
    requires
        from <= s@.len(),
    ensures
        r@.map_values(|v: Vec<char>| v@) == fields_from(s@, from as int),
{
    let mut res: Vec<Vec<char>> = Vec::new();
    let mut p: usize = from;
    loop
        invariant_except_break
            from <= p <= s@.len(),
            fields_from(s@, from as int) == res@.map_values(|v: Vec<char>| v@) + fields_from(
                s@,
                p as int,
            ),
        ensures
            res@.map_values(|v: Vec<char>| v@) == fields_from(s@, from as int),
        decreases s@.len() - p,
    {
        let i = find_char(s, p, ',');
        proof {
            lemma_find_from(s@, p as int, ',');
        }
        let f = trim_range(s, p, i);
        if i < s.len() {
            proof {
                assert((res@.push(f)).map_values(|v: Vec<char>| v@) =~= res@.map_values(
                    |v: Vec<char>| v@,
                ).push(f@));
                assert(res@.map_values(|v: Vec<char>| v@) + fields_from(s@, p as int) =~= (
                res@.push(f)).map_values(|v: Vec<char>| v@) + fields_from(s@, i + 1));
            }
            res.push(f);
            p = i + 1;
        } else {
            proof {
                assert(f@ == trim_spec(s@.subrange(p as int, s@.len() as int)));
                assert((res@.push(f)).map_values(|v: Vec<char>| v@) =~= res@.map_values(
                    |v: Vec<char>| v@,
                ).push(f@));
                assert(res@.map_values(|v: Vec<char>| v@) + fields_from(s@, p as int) =~= (
                res@.push(f)).map_values(|v: Vec<char>| v@));
            }
            res.push(f);
            break;
        }
    }
    res
}

/// Classifies an action-header line.
fn classify_header(t: &Vec<char>, ln: usize) -> (r: Result<Line, ParseError>)
    requires
        t@.len() >= 1,
    ensures
        line_res_view(r) == header_spec(t@, ln as int),
{
    let kb: Vec<char> = vec!['b', 'e', 'g', 'i', 'n'];
    let ka: Vec<char> = vec!['a', 'c', 't', 'i', 'o', 'n'];
    proof {
        assert(kb@ =~= kw_begin());
        assert(ka@ =~= kw_action());
        assert(kw_begin().len() == 5);
        assert(kw_action().len() == 6);
    }
    let tl: usize = t.len();
    assert(t@.len() <= usize::MAX);
    let p1 = skip_spaces(t, 1);
    if !crate::syntax::kw_eq(t, p1, &kb) {
        return Err(ParseError::SyntaxError { line: ln, expected: Expected::ActionKeyword });
    }
    let p2 = skip_spaces(t, p1 + 5);
    if p2 == p1 + 5 || !crate::syntax::kw_eq(t, p2, &ka) {
        return Err(ParseError::SyntaxError { line: ln, expected: Expected::ActionKeyword });
    }
    let p3 = skip_spaces(t, p2 + 6);
    let e = scan_digit_run(t, p3);
    if p2 + 6 == p3 || e == p3 {
        return Err(ParseError::SyntaxError { line: ln, expected: Expected::ActionNumber });
    }
    let p4 = skip_spaces(t, e);
    if p4 < tl && p4 + 1 == tl && t[p4] == ']' {
        Ok(Line::Header(sub_vec(t, p3, e)))
    } else {
        Err(ParseError::SyntaxError { line: ln, expected: Expected::CloseBracket })
    }
}

/// Classifies one blend field, decomposing an `AS<src>D<dst>` token.
fn classify_blend(f: &Vec<char>, ln: usize) -> (r: Result<Modifier, ParseError>)
    ensures
        (match r {
            Ok(m) => blend_mod_spec(f@, ln as int) == Ok::<ModifierV, ParseErrorV>(m@),
            Err(e) => blend_mod_spec(f@, ln as int) == Err::<ModifierV, ParseErrorV>(e@),
        }),
{
    if f.len() >= 2 && f[0] == 'A' && f[1] == 'S' {
        let d1 = scan_digit_run(f, 2);
        if d1 == 2 || d1 >= f.len() || !ci_eq(f[d1], 'd') {
            return Err(ParseError::SyntaxError { line: ln, expected: Expected::BlendNumbers });
        }
        let d2 = scan_digit_run(f, d1 + 1);
        if d2 == d1 + 1 || d2 != f.len() {
            return Err(ParseError::SyntaxError { line: ln, expected: Expected::BlendNumbers });
        }
        let src = sub_vec(f, 2, d1);
        let dst = sub_vec(f, d1 + 1, d2);
        Ok(Modifier::BlendMod { text: copy_chars(f), nums: Some(BlendNums { src, dst }) })
    } else {
        Ok(Modifier::BlendMod { text: copy_chars(f), nums: None })
    }
}

/// Classifies an element line: five required fields, up to five optional
/// modifier fields tagged by position.
fn classify_element(t: &Vec<char>, ln: usize) -> (r: Result<Line, ParseError>)
    ensures
        line_res_view(r) == element_spec(t@, ln as int),
{
    let fields = split_fields(t, 0);
    let ghost fv = fields_from(t@, 0);
    let n = fields.len();
    if n < 5 || n > 10 {
        return Err(ParseError::SyntaxError { line: ln, expected: Expected::ElementFields });
    }
    let base = BaseNode {
        group: copy_chars(&fields[0]),
        image: copy_chars(&fields[1]),
        x: copy_chars(&fields[2]),
        y: copy_chars(&fields[3]),
        time: copy_chars(&fields[4]),
    };
    let mut mods: Vec<Modifier> = Vec::new();
    if n > 5 {
        mods.push(Modifier::FlipMod(copy_chars(&fields[5])));
    }
    if n > 6 {
        let bm = match classify_blend(&fields[6], ln) {
            Ok(bm) => bm,
            Err(e) => {
                return Err(e);
            },
        };
        mods.push(bm);
        if n > 7 {
            mods.push(Modifier::XScaleMod(copy_chars(&fields[7])));
        }
        if n > 8 {
            mods.push(Modifier::YScaleMod(copy_chars(&fields[8])));
        }
        if n > 9 {
            mods.push(Modifier::RotationMod(copy_chars(&fields[9])));
        }
    }
    let en = ElementNode { base, mods };
    proof {
        let ms = match mods_spec(fv, ln as int) {
            Ok(ms) => ms,
            Err(_) => seq![],
        };
        assert(en@.mods =~= ms);
        match element_spec(t@, ln as int) {
            Ok(lv) => {
                assert(lv == LineV::ElementLine(en@));
            },
            Err(_) => {
                assert(false);
            },
        }
    }
    Ok(Line::ElementLine(en))
}

/// Classifies an interpolation directive.
fn classify_interp(t: &Vec<char>, ln: usize) -> (r: Result<Line, ParseError>)
    requires
        t@.len() >= 11,
    ensures
        line_res_view(r) == interp_spec(t@, ln as int),
{
    let p = skip_spaces(t, 11);
    if p == 11 || p == t.len() {
        Err(ParseError::SyntaxError { line: ln, expected: Expected::InterpolationKind })
    } else {
        Ok(Line::InterpLine(sub_vec(t, p, t.len())))
    }
}

/// Classifies a collision-box declaration or box line.
fn classify_clsn(t: &Vec<char>, ln: usize) -> (r: Result<Line, ParseError>)
    ensures
        line_res_view(r) == clsn_spec(t@, ln as int),
{
    let ne = scan_alnum_run(t, 0);
    let p = skip_spaces(t, ne);
    if p < t.len() && t[p] == ':' {
        let q = skip_spaces(t, p + 1);
        let de = scan_digit_run(t, q);
        if q == de || de != t.len() {
            Err(ParseError::SyntaxError { line: ln, expected: Expected::ClsnCount })
        } else {
            Ok(Line::ClsnDefLine(sub_vec(t, 0, ne)))
        }
    } else if p < t.len() && t[p] == '[' {
        let q = skip_spaces(t, p + 1);
        let de = scan_digit_run(t, q);
        if q == de {
            return Err(ParseError::SyntaxError { line: ln, expected: Expected::ClsnIndex });
        }
        let rr = skip_spaces(t, de);
        if !(rr < t.len() && t[rr] == ']') {
            return Err(ParseError::SyntaxError { line: ln, expected: Expected::CloseBracket });
        }
        let s1 = skip_spaces(t, rr + 1);
        if !(s1 < t.len() && t[s1] == '=') {
            return Err(ParseError::SyntaxError { line: ln, expected: Expected::EqualsSign });
        }
        let nums = split_fields(t, s1 + 1);
        if nums.len() != 4 {
            return Err(ParseError::SyntaxError { line: ln, expected: Expected::BoxNumbers });
        }
        Ok(
            Line::BoxLine(
                BoxNode {
                    x1: copy_chars(&nums[0]),
                    y1: copy_chars(&nums[1]),
                    x2: copy_chars(&nums[2]),
                    y2: copy_chars(&nums[3]),
                },
            ),
        )
    } else {
        Err(ParseError::SyntaxError { line: ln, expected: Expected::ClsnSeparator })
    }
}

/// Classifies one cleaned line.
pub fn classify(t: &Vec<char>, ln: usize) -> (r: Result<Line, ParseError>)
    ensures
        line_res_view(r) == classify_spec(t@, ln as int),
{
    if t.len() == 0 {
        return Ok(Line::Blank);
    }
    let c0 = t[0];
    if c0 == '[' {
        return classify_header(t, ln);
    }
    if ('0' <= c0 && c0 <= '9') || c0 == '-' {
        return classify_element(t, ln);
    }
    let kl: Vec<char> = vec!['l', 'o', 'o', 'p', 's', 't', 'a', 'r', 't'];
    let ki: Vec<char> = vec!['i', 'n', 't', 'e', 'r', 'p', 'o', 'l', 'a', 't', 'e'];
    let kc: Vec<char> = vec!['c', 'l', 's', 'n'];
    proof {
        assert(kl@ =~= kw_loopstart());
        assert(ki@ =~= kw_interpolate());
        assert(kc@ =~= kw_clsn());
    }
    if t.len() == 9 && crate::syntax::kw_eq(t, 0, &kl) {
        return Ok(Line::LoopstartLine);
    }
    if crate::syntax::kw_eq(t, 0, &ki) {
        return classify_interp(t, ln);
    }
    if crate::syntax::kw_eq(t, 0, &kc) {
        return classify_clsn(t, ln);
    }
    Err(ParseError::SyntaxError { line: ln, expected: Expected::LineForm })
}

// ---------------------------------------------------------------------------
// Assembling

/// An open collision-box group under construction.
pub struct Pending {
    pub def: Vec<char>,
    pub boxes: Vec<BoxNode>,
    pub line: usize,
}

impl View for Pending {
    type V = PendingV;

    open spec fn view(&self) -> PendingV {
        PendingV {
            def: self.def@,
            boxes: self.boxes@.map_values(|b: BoxNode| b@),
            line: self.line as int,
        }
    }
}

/// The node streams of a sequence of blocks.
pub open spec fn nodes_view(ns: Seq<Node>) -> Seq<NodeV> {
    ns.map_values(|n: Node| n@)
}

pub open spec fn blocks_view(bs: Seq<Vec<Node>>) -> Seq<Seq<NodeV>> {
    bs.map_values(|b: Vec<Node>| nodes_view(b@))
}

/// The assembler's executable state.
pub struct Assembler {
    pub blocks: Vec<Vec<Node>>,
    pub cur: Option<Vec<Node>>,
    pub pending: Option<Pending>,
}

impl View for Assembler {
    type V = AsmV;

    open spec fn view(&self) -> AsmV {
        AsmV {
            blocks: blocks_view(self.blocks@),
            cur: match self.cur {
                Some(ns) => Some(nodes_view(ns@)),
                None => None,
            },
            pending: match self.pending {
                Some(p) => Some(p@),
                None => None,
            },
        }
    }
}

/// Closes the open collision-box group, if any.
fn flush_exec(st: &mut Assembler) -> (r: Result<(), ParseError>)
    ensures
        (match r {
            Ok(_) => flush_pending(old(st)@) == Ok::<AsmV, ParseErrorV>(final(st)@),
            Err(e) => flush_pending(old(st)@) == Err::<AsmV, ParseErrorV>(e@),
        }),
{
    match st.pending.take() {
        None => Ok(()),
        Some(p) => {
            if p.boxes.len() == 0 {
                Err(ParseError::SyntaxError { line: p.line, expected: Expected::BoxLine })
            } else {
                let n = Node::ClsnGroup { def: p.def, boxes: p.boxes };
                match &mut st.cur {
                    Some(ns) => {
                        proof {
                            assert(nodes_view(ns@.push(n)) =~= nodes_view(ns@).push(n@));
                        }
                        ns.push(n);
                        Ok(())
                    },
                    None => Ok(()),
                }
            }
        },
    }
}

/// Appends one node to the open block.
fn append_exec(st: &mut Assembler, n: Node, kind: NodeKind) -> (r: Result<(), ParseError>)
    ensures
        (match r {
            Ok(_) => crate::syntax::append_node(old(st)@, n@, kind) == Ok::<AsmV, ParseErrorV>(
                final(st)@,
            ),
            Err(e) => crate::syntax::append_node(old(st)@, n@, kind) == Err::<AsmV, ParseErrorV>(
                e@,
            ),
        }),
{
    match &mut st.cur {
        Some(ns) => {
            proof {
                assert(nodes_view(ns@.push(n)) =~= nodes_view(ns@).push(n@));
            }
            ns.push(n);
            Ok(())
        },
        None => Err(ParseError::UnexpectedNode { kind }),
    }
}

/// One assembler step for one classified line.
fn step_exec(st: &mut Assembler, line: Line, ln: usize) -> (r: Result<(), ParseError>)
    ensures
        (match r {
            Ok(_) => asm_step(old(st)@, line@, ln as int) == Ok::<AsmV, ParseErrorV>(final(st)@),
            Err(e) => asm_step(old(st)@, line@, ln as int) == Err::<AsmV, ParseErrorV>(e@),
        }),
{
    match line {
        Line::Blank => Ok(()),
        Line::BoxLine(b) => {
            match &mut st.pending {
                Some(p) => {
                    proof {
                        assert(p.boxes@.push(b).map_values(|x: BoxNode| x@) =~= p.boxes@.map_values(
                            |x: BoxNode| x@,
                        ).push(b@));
                    }
                    p.boxes.push(b);
                    Ok(())
                },
                None => Err(ParseError::UnexpectedNode { kind: NodeKind::ClsnBoxes }),
            }
        },
        Line::Header(tok) => {
            match flush_exec(st) {
                Err(e) => Err(e),
                Ok(_) => {
                    match st.cur.take() {
                        Some(ns) => {
                            proof {
                                assert(blocks_view(st.blocks@.push(ns)) =~= blocks_view(
                                    st.blocks@,
                                ).push(nodes_view(ns@)));
                            }
                            st.blocks.push(ns);
                        },
                        None => {},
                    }
                    let mut v: Vec<Node> = Vec::new();
                    v.push(Node::ActionDef(tok));
                    proof {
                        assert(nodes_view(v@) =~= seq![NodeV::ActionDef(tok@)]);
                    }
                    st.cur = Some(v);
                    Ok(())
                },
            }
        },
        Line::ElementLine(en) => {
            match flush_exec(st) {
                Err(e) => Err(e),
                Ok(_) => append_exec(st, Node::ActionElement(en), NodeKind::ActionElement),
            }
        },
        Line::InterpLine(tok) => {
            match flush_exec(st) {
                Err(e) => Err(e),
                Ok(_) => append_exec(st, Node::Interpolation(tok), NodeKind::Interpolation),
            }
        },
        Line::LoopstartLine => {
            match flush_exec(st) {
                Err(e) => Err(e),
                Ok(_) => append_exec(st, Node::Loopstart, NodeKind::Loopstart),
            }
        },
        Line::ClsnDefLine(nm) => {
            match flush_exec(st) {
                Err(e) => Err(e),
                Ok(_) => {
                    match &st.cur {
                        Some(_) => {
                            st.pending = Some(Pending { def: nm, boxes: Vec::new(), line: ln });
                            assert(st@.pending->Some_0.boxes =~= Seq::<crate::nodes::BoxNodeV>::empty());
                            Ok(())
                        },
                        None => Err(ParseError::UnexpectedNode { kind: NodeKind::ClsnGroup }),
                    }
                },
            }
        },
    }
}

/// Closes the assembler at end of input.
fn finish_exec(st: Assembler) -> (r: Result<Vec<Vec<Node>>, ParseError>)
    ensures
        (match r {
            Ok(bs) => asm_finish(st@) == Ok::<Seq<Seq<NodeV>>, ParseErrorV>(blocks_view(bs@)),
            Err(e) => asm_finish(st@) == Err::<Seq<Seq<NodeV>>, ParseErrorV>(e@),
        }),
{
    let mut st = st;
    match flush_exec(&mut st) {
        Err(e) => Err(e),
        Ok(_) => {
            match st.cur.take() {
                Some(ns) => {
                    proof {
                        assert(blocks_view(st.blocks@.push(ns)) =~= blocks_view(st.blocks@).push(
                            nodes_view(ns@),
                        ));
                    }
                    st.blocks.push(ns);
                },
                None => {},
            }
            Ok(st.blocks)
        },
    }
}

/// The syntax recognizer: the black box that turns source text into
/// rule-tagged nodes.
pub struct AIRParser;

impl AIRParser {
    /// Recognizes the whole document as a sequence of per-action node
    /// streams, or reports the first line that does not match the grammar.
    pub fn recognize(source: &str) -> (r: Result<Vec<Vec<Node>>, ParseError>)
        ensures
            (match r {
                Ok(bs) => recognize_spec(source@) == Ok::<Seq<Seq<NodeV>>, ParseErrorV>(
                    blocks_view(bs@),
                ),
                Err(e) => recognize_spec(source@) == Err::<Seq<Seq<NodeV>>, ParseErrorV>(e@),
            }),
    {
        let cs = chars_of(source);
        let lines = split_all(&cs);
        let ghost linesv = lines@.map_values(|v: Vec<char>| v@);
        let mut st = Assembler { blocks: Vec::new(), cur: None, pending: None };
        proof {
            assert(st@ =~~= asm_init());
        }
        let mut i: usize = 0;
        while i < lines.len()
            invariant
                0 <= i <= lines@.len(),
                linesv == lines@.map_values(|v: Vec<char>| v@),
                recognize_spec(source@) == asm_lines(linesv, i as int, st@),
            decreases lines@.len() - i,
        {
            let cl = clean_line(&lines[i]);
            assert(cl@ == clean_spec(linesv[i as int]));
            let lv = match classify(&cl, i + 1) {
                Ok(lv) => lv,
                Err(e) => {
                    assert(recognize_spec(source@) == Err::<Seq<Seq<NodeV>>, ParseErrorV>(e@));
                    return Err(e);
                },
            };
            match step_exec(&mut st, lv, i + 1) {
                Ok(_) => {},
                Err(e) => {
                    assert(recognize_spec(source@) == Err::<Seq<Seq<NodeV>>, ParseErrorV>(e@));
                    return Err(e);
                },
            }
            i = i + 1;
        }
        finish_exec(st)
    }
}

} // verus!
