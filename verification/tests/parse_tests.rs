use air_rs::errors::{FieldName, ModifierName, ParseError};
use air_rs::model::{Action, Blend, Clsn, ClsnBox, Element, Flip, Interpolate};
use air_rs::parse;

fn boxes_of(c: &Clsn) -> &Vec<ClsnBox> {
    match c {
        Clsn::Clsn1Default(v) => v,
        Clsn::Clsn2Default(v) => v,
        Clsn::Clsn1(v) => v,
        Clsn::Clsn2(v) => v,
    }
}

#[test]
fn end_to_end_single_action() {
    let doc = "[Begin Action 0]\n0,0, 5,-3, 3\n";
    let m = parse(doc).unwrap();
    assert_eq!(m.len(), 1);
    let a: &Action = m.get(&0).unwrap();
    assert_eq!(a.number, 0);
    assert_eq!(a.loop_start, 0);
    assert!(a.interpolates.is_none());
    assert_eq!(a.elements.len(), 1);
    let e: &Element = &a.elements[0];
    assert_eq!(e.group, 0);
    assert_eq!(e.image, 0);
    assert_eq!(e.x, 5);
    assert_eq!(e.y, -3);
    assert_eq!(e.time, 3);
    assert!(e.flip.is_none());
    assert!(e.blend.is_none());
    assert!(e.rotation.is_none());
    assert!(e.x_scale.is_none());
    assert!(e.y_scale.is_none());
    assert!(e.clsn1.is_none());
    assert!(e.clsn2.is_none());
}

#[test]
fn parse_is_deterministic() {
    let doc = "[Begin Action 20]\nClsn2Default: 1\n Clsn2[0] = -10, -79, 10, 0\n200,0, 0,0, 3, H, A\nLoopstart\n201,0, 0,0, 4\n";
    let m1 = parse(doc).unwrap();
    let m2 = parse(doc).unwrap();
    assert_eq!(m1.len(), m2.len());
    let a1 = m1.get(&20).unwrap();
    let a2 = m2.get(&20).unwrap();
    assert_eq!(a1.number, a2.number);
    assert_eq!(a1.loop_start, a2.loop_start);
    assert_eq!(a1.elements.len(), a2.elements.len());
    for (e1, e2) in a1.elements.iter().zip(a2.elements.iter()) {
        assert_eq!(e1.group, e2.group);
        assert_eq!(e1.image, e2.image);
        assert_eq!(e1.x, e2.x);
        assert_eq!(e1.y, e2.y);
        assert_eq!(e1.time, e2.time);
        assert_eq!(e1.flip, e2.flip);
        assert_eq!(e1.blend, e2.blend);
        assert_eq!(e1.clsn2.is_some(), e2.clsn2.is_some());
    }
}

#[test]
fn one_shot_clsn1_attaches_only_to_first() {
    let doc = "[Begin Action 1]\nClsn1: 1\n Clsn1[0] = 1, 2, 3, 4\n0,0, 0,0, 5\n0,1, 0,0, 5\n";
    let m = parse(doc).unwrap();
    let a = m.get(&1).unwrap();
    assert_eq!(a.elements.len(), 2);
    let first = a.elements[0].clsn1.as_ref().expect("first element carries the one-shot boxes");
    assert_eq!(boxes_of(first).as_slice(), &[ClsnBox(1, 2, 3, 4)]);
    assert!(a.elements[1].clsn1.is_none(), "one-shot slot must not persist");
}

#[test]
fn default_clsn2_persists_over_all_elements() {
    let doc = "[Begin Action 2]\nClsn2Default: 2\n Clsn2[0] = -10, -79, 10, 0\n Clsn2[1] = 0, 0, 4, 4\n0,0, 0,0, 3\n0,1, 0,0, 3\n0,2, 0,0, 3\n";
    let m = parse(doc).unwrap();
    let a = m.get(&2).unwrap();
    assert_eq!(a.elements.len(), 3);
    for e in &a.elements {
        let c = e.clsn2.as_ref().expect("every element carries the default");
        assert!(matches!(c, Clsn::Clsn2Default(_)));
        assert_eq!(
            boxes_of(c).as_slice(),
            &[ClsnBox(-10, -79, 10, 0), ClsnBox(0, 0, 4, 4)]
        );
        assert!(e.clsn1.is_none());
    }
}

#[test]
fn interpolation_records_element_count() {
    let doc = "[Begin Action 3]\n0,0, 0,0, 1\n0,1, 0,0, 1\nInterpolate Offset\n0,2, 0,0, 1\nInterpolate Blend\n";
    let m = parse(doc).unwrap();
    let a = m.get(&3).unwrap();
    let ints = a.interpolates.as_ref().unwrap();
    assert_eq!(ints.as_slice(), &[Interpolate::Offset(2), Interpolate::Blend(3)]);
}

#[test]
fn duplicate_action_number_keeps_second() {
    let doc = "[Begin Action 3]\n0,0, 0,0, 1\n[Begin Action 3]\n7,8, 0,0, 2\n7,9, 0,0, 2\n";
    let m = parse(doc).unwrap();
    assert_eq!(m.len(), 1);
    let a = m.get(&3).unwrap();
    assert_eq!(a.elements.len(), 2);
    assert_eq!(a.elements[0].group, 7);
    assert_eq!(a.elements[0].image, 8);
}

#[test]
fn unknown_blend_token_is_rejected() {
    let doc = "[Begin Action 0]\n0,0, 0,0, 3, H, AX\n";
    let e = parse(doc).unwrap_err();
    match e {
        ParseError::InvalidModifierValue { modifier, text } => {
            assert_eq!(modifier, ModifierName::Blend);
            assert_eq!(text, vec!['A', 'X']);
        },
        other => panic!("expected InvalidModifierValue, got {:?}", other),
    }
}

#[test]
fn empty_document_yields_empty_mapping() {
    let m = parse("").unwrap();
    assert!(m.is_empty());
    let m2 = parse("; just a comment\n\n   \n").unwrap();
    assert!(m2.is_empty());
}

#[test]
fn modifiers_are_parsed_positionally() {
    let doc = "[Begin Action 5]\n0,1, 2,3, 4, H, A1, 0.5, 1.25, -30\n";
    let m = parse(doc).unwrap();
    let e = &m.get(&5).unwrap().elements[0];
    assert_eq!(e.flip, Some(Flip::Horizontal));
    assert_eq!(e.blend, Some(Blend::Add { src: 256, dst: 128 }));
    let xs = e.x_scale.unwrap();
    assert_eq!((xs.mantissa, xs.frac_digits), (5, 1));
    let ys = e.y_scale.unwrap();
    assert_eq!((ys.mantissa, ys.frac_digits), (125, 2));
    assert_eq!(e.rotation.unwrap().0, -30);
}

#[test]
fn blend_spellings() {
    let doc = "[Begin Action 6]\n0,0, 0,0, 1, , A\n";
    // an empty flip field is an invalid spelling, so spell one out instead
    assert!(parse(doc).is_err());
    let doc = "[Begin Action 6]\n0,0, 0,0, 1, V, A\n0,1, 0,0, 1, HV, S\n0,2, 0,0, 1, vh, AS128D64\n";
    let m = parse(doc).unwrap();
    let a = m.get(&6).unwrap();
    assert_eq!(a.elements[0].flip, Some(Flip::Vertical));
    assert_eq!(a.elements[0].blend, Some(Blend::Add { src: 256, dst: 256 }));
    assert_eq!(a.elements[1].flip, Some(Flip::Both));
    assert_eq!(a.elements[1].blend, Some(Blend::Sub));
    assert_eq!(a.elements[2].flip, Some(Flip::Both));
    assert_eq!(a.elements[2].blend, Some(Blend::Add { src: 128, dst: 64 }));
}

#[test]
fn loopstart_marks_next_element() {
    let doc = "[Begin Action 9]\n0,0, 0,0, 1\n0,1, 0,0, 1\nLoopstart\n0,2, 0,0, 1\n";
    let m = parse(doc).unwrap();
    let a = m.get(&9).unwrap();
    assert_eq!(a.loop_start, 2);
    assert_eq!(a.elements.len(), 3);
    assert!(a.loop_start <= a.elements.len());
}

#[test]
fn loop_start_defaults_to_zero_and_stays_in_range() {
    let doc = "[Begin Action 10]\n0,0, 0,0, 1\n[Begin Action 11]\nLoopstart\n";
    let m = parse(doc).unwrap();
    for a in m.values() {
        assert!(a.loop_start <= a.elements.len());
    }
    assert_eq!(m.get(&10).unwrap().loop_start, 0);
    assert_eq!(m.get(&11).unwrap().loop_start, 0);
}

#[test]
fn action_number_overflow_is_invalid_literal() {
    let doc = "[Begin Action 99999999999999999999999]\n0,0, 0,0, 1\n";
    let e = parse(doc).unwrap_err();
    match e {
        ParseError::InvalidNumericLiteral { field, text } => {
            assert_eq!(field, FieldName::ActionNumber);
            assert_eq!(text.len(), 23);
        },
        other => panic!("expected InvalidNumericLiteral, got {:?}", other),
    }
}

#[test]
fn malformed_element_field_is_invalid_literal() {
    let doc = "[Begin Action 0]\n0,0, 5x,-3, 3\n";
    let e = parse(doc).unwrap_err();
    match e {
        ParseError::InvalidNumericLiteral { field, text } => {
            assert_eq!(field, FieldName::X);
            assert_eq!(text, vec!['5', 'x']);
        },
        other => panic!("expected InvalidNumericLiteral, got {:?}", other),
    }
}

#[test]
fn invalid_flip_value_is_rejected() {
    let doc = "[Begin Action 0]\n0,0, 0,0, 3, Q\n";
    let e = parse(doc).unwrap_err();
    assert!(matches!(
        e,
        ParseError::InvalidModifierValue { modifier: ModifierName::Flip, .. }
    ));
}

#[test]
fn invalid_interpolation_kind_is_rejected() {
    let doc = "[Begin Action 0]\n0,0, 0,0, 3\nInterpolate Sideways\n";
    let e = parse(doc).unwrap_err();
    assert!(matches!(
        e,
        ParseError::InvalidModifierValue { modifier: ModifierName::Interpolation, .. }
    ));
}

#[test]
fn unknown_clsn_kind_is_rejected() {
    let doc = "[Begin Action 0]\nClsn3: 1\n Clsn3[0] = 0, 0, 1, 1\n0,0, 0,0, 3\n";
    let e = parse(doc).unwrap_err();
    assert!(matches!(
        e,
        ParseError::InvalidModifierValue { modifier: ModifierName::ClsnKind, .. }
    ));
}

#[test]
fn element_before_any_action_is_unexpected() {
    let doc = "0,0, 0,0, 3\n[Begin Action 0]\n0,0, 0,0, 3\n";
    let e = parse(doc).unwrap_err();
    assert!(matches!(e, ParseError::UnexpectedNode { .. }));
}

#[test]
fn unrecognized_line_is_syntax_error() {
    let doc = "[Begin Action 0]\nhello world!\n";
    let e = parse(doc).unwrap_err();
    match e {
        ParseError::SyntaxError { line, .. } => assert_eq!(line, 2),
        other => panic!("expected SyntaxError, got {:?}", other),
    }
}

#[test]
fn comments_and_case_are_tolerated() {
    let doc = "; animation file\n[begin action 7] ; header\nCLSN2DEFAULT: 1 ; boxes\n clsn2[0] = 1,2,3,4\n0,0, 0,0, 3 ; frame\nLOOPSTART\n";
    let m = parse(doc).unwrap();
    let a = m.get(&7).unwrap();
    assert_eq!(a.elements.len(), 1);
    assert_eq!(a.loop_start, 1);
    assert!(a.elements[0].clsn2.is_some());
}

#[test]
fn clsn_box_getters() {
    let doc = "[Begin Action 8]\nClsn1: 1\n Clsn1[0] = -10, -79, 10, 1\n0,0, 0,0, 3\n";
    let m = parse(doc).unwrap();
    let a = m.get(&8).unwrap();
    let c = a.elements[0].clsn1.as_ref().unwrap();
    let b = boxes_of(c)[0];
    assert_eq!(b.x(), -10);
    assert_eq!(b.y(), -79);
    assert_eq!(b.width(), 20);
    assert_eq!(b.height(), 80);
}

#[test]
fn negative_width_and_height_are_kept() {
    let b = ClsnBox(10, 5, -10, -5);
    assert_eq!(b.width(), -20);
    assert_eq!(b.height(), -10);
}

#[test]
fn flip_from_str_spellings() {
    assert_eq!(Flip::from_str("H").unwrap(), Flip::Horizontal);
    assert_eq!(Flip::from_str("v").unwrap(), Flip::Vertical);
    assert_eq!(Flip::from_str("Hv").unwrap(), Flip::Both);
    assert_eq!(Flip::from_str("VH").unwrap(), Flip::Both);
    assert!(Flip::from_str("HH").is_err());
    assert!(Flip::from_str("").is_err());
}

#[test]
fn interpolate_new_spellings() {
    assert_eq!(Interpolate::new("Offset", 4).unwrap(), Interpolate::Offset(4));
    assert_eq!(Interpolate::new("blend", 0).unwrap(), Interpolate::Blend(0));
    assert_eq!(Interpolate::new("SCALE", 2).unwrap(), Interpolate::Scale(2));
    assert_eq!(Interpolate::new("Angle", 9).unwrap(), Interpolate::Angle(9));
    assert!(Interpolate::new("spin", 1).is_err());
}

#[test]
fn clsn_new_spellings() {
    let c = Clsn::new("Clsn2Default", vec![ClsnBox(0, 0, 1, 1)]).unwrap();
    assert!(matches!(c, Clsn::Clsn2Default(_)));
    let c = Clsn::new("clsn1default", vec![]).unwrap();
    assert!(matches!(c, Clsn::Clsn1Default(_)));
    let c = Clsn::new("CLSN1", vec![]).unwrap();
    assert!(matches!(c, Clsn::Clsn1(_)));
    let c = Clsn::new("clsn2", vec![]).unwrap();
    assert!(matches!(c, Clsn::Clsn2(_)));
    assert!(Clsn::new("clsn", vec![]).is_err());
}

#[test]
fn last_default_declaration_wins() {
    let doc = "[Begin Action 12]\nClsn2Default: 1\n Clsn2[0] = 0, 0, 1, 1\nClsn2Default: 1\n Clsn2[0] = 5, 5, 6, 6\n0,0, 0,0, 3\n";
    let m = parse(doc).unwrap();
    let a = m.get(&12).unwrap();
    let c = a.elements[0].clsn2.as_ref().unwrap();
    assert_eq!(boxes_of(c).as_slice(), &[ClsnBox(5, 5, 6, 6)]);
}

#[test]
fn scale_values_are_exact_decimals() {
    let doc = "[Begin Action 13]\n0,0, 0,0, 1, H, A, -0.5, 3\n";
    let m = parse(doc).unwrap();
    let e = &m.get(&13).unwrap().elements[0];
    let xs = e.x_scale.unwrap();
    assert_eq!((xs.mantissa, xs.frac_digits), (-5, 1));
    let ys = e.y_scale.unwrap();
    assert_eq!((ys.mantissa, ys.frac_digits), (3, 0));
}

#[test]
fn later_modifier_wins_within_element() {
    // the grammar tags fields positionally, so each kind occurs at most
    // once per line; the last-wins rule is visible through the builder
    // when the same kind is set twice
    let mut eb = air_rs::builder::ElementBuilder::new();
    eb.flip(Flip::Horizontal);
    eb.flip(Flip::Vertical);
    let e = eb.build();
    assert_eq!(e.flip, Some(Flip::Vertical));
}

#[test]
fn crlf_line_endings_are_accepted() {
    let doc = "[Begin Action 14]\r\n0,0, 0,0, 3\r\n";
    let m = parse(doc).unwrap();
    assert_eq!(m.get(&14).unwrap().elements.len(), 1);
}

#[test]
fn dangling_one_shot_clsn_is_discarded() {
    let doc = "[Begin Action 15]\n0,0, 0,0, 3\nClsn1: 1\n Clsn1[0] = 1, 1, 2, 2\n";
    let m = parse(doc).unwrap();
    let a = m.get(&15).unwrap();
    assert_eq!(a.elements.len(), 1);
    assert!(a.elements[0].clsn1.is_none());
}

#[test]
fn box_line_without_declaration_is_unexpected() {
    let doc = "[Begin Action 0]\n Clsn2[0] = 1, 1, 2, 2\n0,0, 0,0, 3\n";
    let e = parse(doc).unwrap_err();
    assert!(matches!(e, ParseError::UnexpectedNode { .. }));
}

#[test]
fn declaration_without_boxes_is_syntax_error() {
    let doc = "[Begin Action 0]\nClsn2Default: 1\n0,0, 0,0, 3\n";
    let e = parse(doc).unwrap_err();
    match e {
        ParseError::SyntaxError { line, .. } => assert_eq!(line, 2),
        other => panic!("expected SyntaxError, got {:?}", other),
    }
}

#[test]
fn unterminated_header_is_syntax_error() {
    let doc = "[Begin Action 0\n0,0, 0,0, 3\n";
    let e = parse(doc).unwrap_err();
    assert!(matches!(e, ParseError::SyntaxError { line: 1, .. }));
}

#[test]
fn malformed_blend_decomposition_is_syntax_error() {
    let doc = "[Begin Action 0]\n0,0, 0,0, 3, H, ASxD12\n";
    let e = parse(doc).unwrap_err();
    assert!(matches!(e, ParseError::SyntaxError { line: 2, .. }));
}

#[test]
fn box_coordinate_overflow_is_invalid_literal() {
    let doc = "[Begin Action 0]\nClsn1: 1\n Clsn1[0] = 99999999999999999999, 0, 1, 1\n0,0, 0,0, 3\n";
    let e = parse(doc).unwrap_err();
    assert!(matches!(
        e,
        ParseError::InvalidNumericLiteral { field: FieldName::BoxCoord, .. }
    ));
}

#[test]
fn control_character_blend_is_rejected() {
    // U+0011 sits 32 below '1', so a sloppy case fold would read "A\u{11}"
    // as "A1"; it must be rejected like any other unrecognized spelling
    let doc = "[Begin Action 0]\n0,0, 0,0, 3, H, A\u{11}\n";
    let e = parse(doc).unwrap_err();
    match e {
        ParseError::InvalidModifierValue { modifier, text } => {
            assert_eq!(modifier, ModifierName::Blend);
            assert_eq!(text, vec!['A', '\u{11}']);
        },
        other => panic!("expected InvalidModifierValue, got {:?}", other),
    }
}

#[test]
fn control_character_clsn_kind_is_rejected() {
    // likewise "clsn\u{11}" must not pass for "clsn1"
    assert!(Clsn::new("clsn\u{11}", vec![]).is_err());
    assert!(Clsn::new("clsn\u{12}default", vec![]).is_err());
}
