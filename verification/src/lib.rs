//! Parser for a textual animation-definition format: a document is a sequence
//! of numbered action blocks, each holding animation frames (elements) with
//! optional visual modifiers, collision-box declarations, loop markers and
//! interpolation directives.  `parse` turns a document into a mapping from
//! action number to a typed `Action`, and its whole behaviour is pinned down
//! by the specification functions it is proved against.

pub mod model;
pub mod errors;
pub mod text;
pub mod nodes;
pub mod syntax;
pub mod recognizer;
pub mod builder;
pub mod laws;

use vstd::prelude::*;
use std::collections::HashMap;
use crate::builder::{build_action, build_action_spec};
use crate::errors::{ParseError, ParseErrorV};
use crate::model::{Action, ActionV};
use crate::nodes::NodeV;
use crate::recognizer::{blocks_view, AIRParser};
use crate::syntax::recognize_spec;

verus! {

broadcast use vstd::std_specs::hash::group_hash_axioms;

/// Folds the blocks from index `i` on into the result mapping: each
/// block's action is inserted under its number, overwriting any earlier
/// entry for the same key.
pub open spec fn actions_from(
    m: Map<u64, ActionV>,
    blocks: Seq<Seq<NodeV>>,
    i: int,
) -> Result<Map<u64, ActionV>, ParseErrorV>
    decreases blocks.len() - i,
{
    if i < 0 || i >= blocks.len() {
        Ok(m)
    } else {
        match build_action_spec(blocks[i]) {
            Err(e) => Err(e),
            Ok(a) => actions_from(m.insert(a.number, a), blocks, i + 1),
        }
    }
}

/// What `parse` returns on a document: the mapping each block contributes
/// to in order, or the first error.
pub open spec fn parse_spec(t: Seq<char>) -> Result<Map<u64, ActionV>, ParseErrorV> {
    match recognize_spec(t) {
        Err(e) => Err(e),
        Ok(blocks) => actions_from(Map::empty(), blocks, 0),
    }
}

/// The model of a returned mapping: each action replaced by its model.
pub open spec fn map_view(m: Map<u64, Action>) -> Map<u64, ActionV> {
    Map::new(|k: u64| m.contains_key(k), |k: u64| m[k]@)
}

/// Parses a whole document into a mapping from action number to `Action`.
/// The result is exactly `parse_spec` of the text: recognition, semantic
/// building and insertion order are all pinned down.
pub fn parse(source: &str) -> (r: Result<HashMap<u64, Action>, ParseError>)
    ensures
        (match r {
            Ok(m) => parse_spec(source@) == Ok::<Map<u64, ActionV>, ParseErrorV>(map_view(m@)),
            Err(e) => parse_spec(source@) == Err::<Map<u64, ActionV>, ParseErrorV>(e@),
        }),
{
    let blocks = match AIRParser::recognize(source) {
        Ok(bs) => bs,
        Err(e) => {
            return Err(e);
        },
    };
    let ghost bv = blocks_view(blocks@);
    let mut actions: HashMap<u64, Action> = HashMap::new();
    proof {
        assert(map_view(actions@) =~= Map::<u64, ActionV>::empty());
    }
    let mut i: usize = 0;
    while i < blocks.len()
        invariant
            0 <= i <= blocks@.len(),
            bv == blocks_view(blocks@),
            parse_spec(source@) == actions_from(map_view(actions@), bv, i as int),
        decreases blocks@.len() - i,
    {
        proof {
            assert(blocks@[i as int]@.map_values(|n: crate::nodes::Node| n@) == bv[i as int]);
            assert(actions_from(map_view(actions@), bv, i as int) == (
            match build_action_spec(bv[i as int]) {
                Err(e) => Err::<Map<u64, ActionV>, ParseErrorV>(e),
                Ok(a) => actions_from(map_view(actions@).insert(a.number, a), bv, i + 1),
            }));
        }
        let a = match build_action(&blocks[i]) {
            Ok(a) => a,
            Err(e) => {
                return Err(e);
            },
        };
        let ghost mv = map_view(actions@);
        let ghost av = a@;
        let num = a.number;
        actions.insert(num, a);
        proof {
            assert(map_view(actions@) =~= mv.insert(num, av));
        }
        i = i + 1;
    }
    Ok(actions)
}

} // verus!
