use apdu::rule::{BytePattern, Extractor, Outcome, Rule, Value};
use apdu::table::RuleTable;
use apdu::variant::{extractors, DeclareError, Field, Source, Variant};

#[derive(Debug, Clone, Copy, PartialEq, Eq)]
enum Kind {
    Success,
    VerifyFailed,
    NotOk,
    Unknown,
}

#[derive(Debug, PartialEq, Eq)]
enum Response<'a> {
    Success(&'a [u8]),
    VerifyFailed(u8),
    NotOk,
    Unknown(u8, u8),
}

fn declarations() -> Vec<Variant<Kind>> {
    vec![
        Variant {
            kind: Kind::Success,
            patterns: vec![(BytePattern::Exact(0x90), BytePattern::Exact(0x00))],
            fields: vec![Field::plain()],
        },
        Variant {
            kind: Kind::VerifyFailed,
            patterns: vec![(BytePattern::Exact(0x63), BytePattern::Range(0xC0, 0xCF))],
            fields: vec![Field::masked(Source::Sw2, 0x0F)],
        },
        Variant {
            kind: Kind::NotOk,
            patterns: vec![(BytePattern::Range(0x60, 0x69), BytePattern::Any)],
            fields: vec![],
        },
        Variant {
            kind: Kind::Unknown,
            patterns: vec![(BytePattern::Any, BytePattern::Any)],
            fields: vec![Field::plain(), Field::plain()],
        },
    ]
}

impl<'a> From<Outcome<'a, Kind>> for Response<'a> {
    fn from(outcome: Outcome<'a, Kind>) -> Self {
        match (outcome.kind, outcome.values.as_slice()) {
            (Kind::Success, [Value::Payload(payload)]) => Response::Success(payload),
            (Kind::VerifyFailed, [Value::Byte(count)]) => Response::VerifyFailed(*count),
            (Kind::NotOk, []) => Response::NotOk,
            (Kind::Unknown, [Value::Byte(sw1), Value::Byte(sw2)]) => Response::Unknown(*sw1, *sw2),
            other => panic!("unexpected outcome {:?}", other),
        }
    }
}

impl<'a> From<&'a [u8]> for Response<'a> {
    fn from(bytes: &'a [u8]) -> Self {
        let table = RuleTable::from_variants(&declarations()).unwrap();
        assert!(table.is_exhaustive());
        table.classify(&apdu::Response::from(bytes)).into()
    }
}

#[test]
fn test_success() {
    let bytes: Vec<u8> = vec![0x12, 0x34, 0x56, 0x90, 0x00];
    let response = Response::from(bytes.as_slice());

    if let Response::Success(payload) = response {
        assert_eq!(&bytes[..3], payload)
    } else {
        panic!("Response is not Ok variant")
    }
}

#[test]
fn test_not_ok() {
    let bytes: Vec<u8> = vec![0x69, 0x12];
    let response = Response::from(bytes.as_slice());

    assert_eq!(Response::NotOk, response)
}

#[test]
fn test_unknown() {
    let bytes: Vec<u8> = vec![0x70, 0x00];
    let response = Response::from(bytes.as_slice());

    if let Response::Unknown(sw1, sw2) = response {
        assert_eq!((0x70, 0x00), (sw1, sw2))
    } else {
        panic!("Response is not Unknown variant")
    }
}

#[test]
fn test_inject() {
    let bytes: Vec<u8> = vec![0x63, 0xC7];
    let response = Response::from(bytes.as_slice());

    if let Response::VerifyFailed(count) = response {
        assert_eq!(7, count)
    } else {
        panic!("Response is not VerifyFailed variant")
    }
}

#[test]
fn patterns_accept_their_bytes() {
    assert!(BytePattern::Exact(0x90).matches(0x90));
    assert!(!BytePattern::Exact(0x90).matches(0x91));
    assert!(BytePattern::Range(0x60, 0x69).matches(0x60));
    assert!(BytePattern::Range(0x60, 0x69).matches(0x69));
    assert!(!BytePattern::Range(0x60, 0x69).matches(0x5F));
    assert!(!BytePattern::Range(0x60, 0x69).matches(0x6A));
    assert!(!BytePattern::Range(0x69, 0x60).matches(0x65));
    for b in 0..=255u8 {
        assert!(BytePattern::Any.matches(b));
        assert!(BytePattern::Range(0x00, 0xFF).matches(b));
    }
    assert!(BytePattern::Any.is_any());
    assert!(!BytePattern::Range(0x00, 0xFF).is_any());
    assert!(!BytePattern::Exact(0).is_any());
}

#[test]
fn rule_needs_both_patterns() {
    let rule = Rule::new(BytePattern::Exact(0x63), BytePattern::Range(0xC0, 0xCF), Kind::VerifyFailed);
    assert!(rule.matches(0x63, 0xC0));
    assert!(!rule.matches(0x63, 0xD0));
    assert!(!rule.matches(0x62, 0xC0));
}

#[test]
fn extractors_read_trailer_and_payload() {
    let response = apdu::Response {
        payload: &[1, 2, 3],
        trailer: (0xA5, 0x3C),
    };
    assert_eq!(Extractor::Sw1(None).apply(&response), Value::Byte(0xA5));
    assert_eq!(Extractor::Sw1(Some(0xF0)).apply(&response), Value::Byte(0xA0));
    assert_eq!(Extractor::Sw2(None).apply(&response), Value::Byte(0x3C));
    assert_eq!(Extractor::Sw2(Some(0x0F)).apply(&response), Value::Byte(0x0C));
    assert_eq!(Extractor::Sw2(Some(0x00)).apply(&response), Value::Byte(0x00));
    assert_eq!(Extractor::Payload.apply(&response), Value::Payload(&[1, 2, 3]));
}

#[test]
fn outcome_values_follow_the_extractors() {
    let rule = Rule::with_fields(
        BytePattern::Any,
        BytePattern::Any,
        Kind::Unknown,
        vec![Extractor::Sw2(Some(0x0F)), Extractor::Payload, Extractor::Sw1(None)],
    );
    let response = apdu::Response {
        payload: &[9, 8],
        trailer: (0x63, 0xC7),
    };
    let outcome = rule.outcome_for(&response);
    assert_eq!(outcome.kind, Kind::Unknown);
    assert_eq!(
        outcome.values,
        vec![Value::Byte(7), Value::Payload(&[9, 8]), Value::Byte(0x63)]
    );
}

#[test]
fn exhaustive_table_decides_every_status_word() {
    let table = RuleTable::from_variants(&declarations()).unwrap();
    assert!(table.is_exhaustive());
    assert_eq!(table.len(), 4);
    for sw1 in 0..=255u8 {
        for sw2 in 0..=255u8 {
            let response = apdu::Response {
                payload: &[0xAA],
                trailer: (sw1, sw2),
            };
            let found = table.find(sw1, sw2).unwrap();
            let expected = if (sw1, sw2) == (0x90, 0x00) {
                0
            } else if sw1 == 0x63 && (0xC0..=0xCF).contains(&sw2) {
                1
            } else if (0x60..=0x69).contains(&sw1) {
                2
            } else {
                3
            };
            assert_eq!(found, expected);
            let outcome = table.classify(&response);
            assert_eq!(outcome.kind, table.get(found).unwrap().outcome);
            assert_eq!(table.try_classify(&response).unwrap().values, outcome.values);
        }
    }
}

#[test]
fn earlier_rule_wins() {
    let mut table = RuleTable::new();
    table.push(Rule::new(BytePattern::Range(0x60, 0x6F), BytePattern::Any, Kind::NotOk));
    table.push(Rule::new(BytePattern::Exact(0x63), BytePattern::Any, Kind::VerifyFailed));
    table.push(Rule::new(BytePattern::Any, BytePattern::Any, Kind::Unknown));
    assert_eq!(table.find(0x63, 0xC1), Some(0));
    let response = apdu::Response {
        payload: &[],
        trailer: (0x63, 0xC1),
    };
    assert_eq!(table.classify(&response).kind, Kind::NotOk);

    let mut swapped = RuleTable::new();
    swapped.push(Rule::new(BytePattern::Exact(0x63), BytePattern::Any, Kind::VerifyFailed));
    swapped.push(Rule::new(BytePattern::Range(0x60, 0x6F), BytePattern::Any, Kind::NotOk));
    swapped.push(Rule::new(BytePattern::Any, BytePattern::Any, Kind::Unknown));
    assert_eq!(swapped.find(0x63, 0xC1), Some(0));
    assert_eq!(swapped.classify(&response).kind, Kind::VerifyFailed);
    assert_eq!(swapped.find(0x64, 0x00), Some(1));
    assert_eq!(swapped.find(0x90, 0x00), Some(2));
}

#[test]
fn catch_all_in_front_shadows_the_rest() {
    let mut table = RuleTable::new();
    table.push(Rule::new(BytePattern::Any, BytePattern::Any, Kind::Unknown));
    table.push(Rule::new(BytePattern::Exact(0x90), BytePattern::Exact(0x00), Kind::Success));
    assert!(!table.is_exhaustive());
    assert_eq!(table.find(0x90, 0x00), Some(0));
}

#[test]
fn table_without_catch_all_may_decide_nothing() {
    let mut table = RuleTable::new();
    assert!(table.is_empty());
    assert!(!table.is_exhaustive());
    assert_eq!(table.find(0x90, 0x00), None);
    table.push(Rule::new(BytePattern::Exact(0x90), BytePattern::Exact(0x00), Kind::Success));
    table.push(Rule::new(BytePattern::Range(0x60, 0x69), BytePattern::Any, Kind::NotOk));
    assert!(!table.is_empty());
    assert!(!table.is_exhaustive());
    assert!(table.get(2).is_none());
    let unmatched = apdu::Response {
        payload: &[],
        trailer: (0x70, 0x00),
    };
    assert!(table.try_classify(&unmatched).is_none());
    let matched = apdu::Response {
        payload: &[],
        trailer: (0x69, 0x85),
    };
    assert_eq!(table.try_classify(&matched).unwrap().kind, Kind::NotOk);
}

#[test]
fn one_outcome_for_several_alternatives() {
    let not_ok = Variant {
        kind: Kind::NotOk,
        patterns: vec![
            (BytePattern::Range(0x60, 0x69), BytePattern::Any),
            (BytePattern::Exact(0x12), BytePattern::Exact(0x34)),
        ],
        fields: vec![],
    };
    let mut table = RuleTable::new();
    table.push(Rule::new(BytePattern::Exact(0x90), BytePattern::Exact(0x00), Kind::Success));
    assert_eq!(table.declare(&not_ok), Ok(()));
    assert_eq!(table.len(), 3);
    assert_eq!(table.find(0x65, 0x00), Some(1));
    assert_eq!(table.find(0x12, 0x34), Some(2));
    assert_eq!(table.get(2).unwrap().outcome, Kind::NotOk);
    assert_eq!(table.find(0x12, 0x35), None);
}

#[test]
fn plain_fields_are_filled_by_their_number() {
    assert_eq!(extractors(&vec![]), Ok(vec![]));
    assert_eq!(extractors(&vec![Field::plain()]), Ok(vec![Extractor::Payload]));
    assert_eq!(
        extractors(&vec![Field::plain(), Field::plain()]),
        Ok(vec![Extractor::Sw1(None), Extractor::Sw2(None)])
    );
    assert_eq!(
        extractors(&vec![Field::plain(), Field::plain(), Field::plain()]),
        Err(DeclareError::UnsupportedFields)
    );
}

#[test]
fn annotated_fields_are_filled_from_their_source() {
    assert_eq!(
        extractors(&vec![
            Field::from_source(Source::Payload),
            Field::masked(Source::Sw1, 0xF0),
            Field::from_source(Source::Sw2),
            Field::masked(Source::Payload, 0x0F),
        ]),
        Ok(vec![
            Extractor::Payload,
            Extractor::Sw1(Some(0xF0)),
            Extractor::Sw2(None),
            Extractor::Payload,
        ])
    );
    assert_eq!(
        extractors(&vec![Field::from_source(Source::Sw2), Field::plain()]),
        Err(DeclareError::MissingSource(1))
    );
    assert_eq!(
        extractors(&vec![
            Field {
                source: None,
                mask: Some(0x0F)
            },
            Field::from_source(Source::Sw1),
        ]),
        Err(DeclareError::MissingSource(0))
    );
}

#[test]
fn failing_declaration_leaves_the_table() {
    let broken = Variant {
        kind: Kind::Unknown,
        patterns: vec![(BytePattern::Any, BytePattern::Any)],
        fields: vec![Field::plain(), Field::plain(), Field::plain()],
    };
    let mut table = RuleTable::new();
    table.push(Rule::new(BytePattern::Exact(0x90), BytePattern::Exact(0x00), Kind::Success));
    assert_eq!(table.declare(&broken), Err(DeclareError::UnsupportedFields));
    assert_eq!(table.len(), 1);

    let mut all = declarations();
    all.insert(1, broken);
    assert_eq!(
        RuleTable::from_variants(&all).err(),
        Some(DeclareError::UnsupportedFields)
    );
}

#[test]
fn declaration_without_patterns_adds_nothing() {
    let unreachable = Variant {
        kind: Kind::Unknown,
        patterns: vec![],
        fields: vec![Field::plain(), Field::plain(), Field::plain()],
    };
    let mut table = RuleTable::new();
    assert_eq!(table.declare(&unreachable), Ok(()));
    assert!(table.is_empty());

    let mut all = declarations();
    all.insert(0, unreachable);
    let table = RuleTable::from_variants(&all).unwrap();
    assert_eq!(table.len(), 4);
    assert_eq!(table.find(0x90, 0x00), Some(0));
}
