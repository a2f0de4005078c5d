//! The entries of a classification table: which status words a rule takes,
//! and what it hands to the outcome that it decides for.

use crate::response::{Response, ResponseView};
use vstd::prelude::*;

verus! {

/// A predicate over one byte of the status word.
#[derive(Debug, Clone, Copy, PartialEq, Eq)]
pub enum BytePattern {
    /// Exactly this byte.
    Exact(u8),
    /// Every byte from the first to the second, both included.
    Range(u8, u8),
    /// Every byte.
    Any,
}

impl BytePattern {
    /// Whether the pattern takes the byte `b`.
    pub open spec fn accepts(self, b: u8) -> bool {
        match self {
            BytePattern::Exact(x) => b == x,
            BytePattern::Range(lo, hi) => lo <= b <= hi,
            BytePattern::Any => true,
        }
    }

    /// Tests the byte `b` against the pattern.
    pub fn matches(&self, b: u8) -> (m: bool)
        ensures
            m == self.accepts(b),
    {
        match *self {
            BytePattern::Exact(x) => b == x,
            BytePattern::Range(lo, hi) => lo <= b && b <= hi,
            BytePattern::Any => true,
        }
    }

    /// Whether this is the wildcard.
    pub fn is_any(&self) -> (a: bool)
        ensures
            a == (*self is Any),
    {
        match *self {
            BytePattern::Any => true,
            _ => false,
        }
    }
}

/// Where one value of an outcome is read from.
#[derive(Debug, Clone, Copy, PartialEq, Eq)]
pub enum Extractor {
    /// The first status byte, under a bitwise AND with the mask if there is one.
    Sw1(Option<u8>),
    /// The second status byte, under a bitwise AND with the mask if there is one.
    Sw2(Option<u8>),
    /// The whole payload.
    Payload,
}

/// One value that an outcome carries.
#[derive(Debug, Clone, Copy, PartialEq, Eq)]
pub enum Value<'a> {
    /// A status byte, masked or not.
    Byte(u8),
    /// The payload of the response.
    Payload(&'a [u8]),
}

/// What a value holds.
pub enum ValueView {
    Byte(u8),
    Payload(Seq<u8>),
}

impl<'a> View for Value<'a> {
    type V = ValueView;

    open spec fn view(&self) -> ValueView {
        match *self {
            Value::Byte(b) => ValueView::Byte(b),
            Value::Payload(p) => ValueView::Payload(p@),
        }
    }
}

/// A byte under an optional mask.
pub open spec fn masked(b: u8, mask: Option<u8>) -> u8 {
    match mask {
        Some(m) => b & m,
        None => b,
    }
}

impl Extractor {
    /// The value that the extractor reads from a response.
    pub open spec fn extract(self, response: ResponseView) -> ValueView {
        match self {
            Extractor::Sw1(mask) => ValueView::Byte(masked(response.trailer.0, mask)),
            Extractor::Sw2(mask) => ValueView::Byte(masked(response.trailer.1, mask)),
            Extractor::Payload => ValueView::Payload(response.payload),
        }
    }

    /// Reads the value from a response.
    pub fn apply<'a>(&self, response: &Response<'a>) -> (v: Value<'a>)
        ensures
            v@ == self.extract(response@),
    {
        match *self {
            Extractor::Sw1(mask) => Value::Byte(apply_mask(response.trailer.0, mask)),
            Extractor::Sw2(mask) => Value::Byte(apply_mask(response.trailer.1, mask)),
            Extractor::Payload => Value::Payload(response.payload),
        }
    }
}

fn apply_mask(b: u8, mask: Option<u8>) -> (r: u8)
    ensures
        r == masked(b, mask),
{
    match mask {
        Some(m) => b & m,
        None => b,
    }
}

/// One entry of a classification table: a pattern for each status byte, the
/// outcome that the rule decides for, and the extractors of the values that
/// the outcome carries, in the order of its fields.
#[derive(Debug)]
pub struct Rule<K> {
    pub sw1: BytePattern,
    pub sw2: BytePattern,
    pub outcome: K,
    pub fields: Vec<Extractor>,
}

/// What a rule holds.
pub struct RuleView<K> {
    pub sw1: BytePattern,
    pub sw2: BytePattern,
    pub outcome: K,
    pub fields: Seq<Extractor>,
}

impl<K> View for Rule<K> {
    type V = RuleView<K>;

    open spec fn view(&self) -> RuleView<K> {
        RuleView { sw1: self.sw1, sw2: self.sw2, outcome: self.outcome, fields: self.fields@ }
    }
}

/// An outcome of classification: which of the application's outcomes it is,
/// and the values extracted for it.
#[derive(Debug)]
pub struct Outcome<'a, K> {
    pub kind: K,
    pub values: Vec<Value<'a>>,
}

/// What an outcome holds.
pub struct OutcomeView<K> {
    pub kind: K,
    pub values: Seq<ValueView>,
}

impl<'a, K> View for Outcome<'a, K> {
    type V = OutcomeView<K>;

    open spec fn view(&self) -> OutcomeView<K> {
        OutcomeView { kind: self.kind, values: self.values@.map_values(|v: Value<'a>| v@) }
    }
}

impl<K> RuleView<K> {
    /// Whether the rule takes the status word `(sw1, sw2)`: both patterns
    /// have to accept their byte.
    pub open spec fn matches(self, sw1: u8, sw2: u8) -> bool {
        self.sw1.accepts(sw1) && self.sw2.accepts(sw2)
    }

    /// Whether the rule takes every status word.
    pub open spec fn is_catch_all(self) -> bool {
        self.sw1 is Any && self.sw2 is Any
    }

    /// The outcome that the rule builds from a response: one value for each
    /// extractor, in their order.
    pub open spec fn outcome_for(self, response: ResponseView) -> OutcomeView<K> {
        OutcomeView {
            kind: self.outcome,
            values: self.fields.map_values(|e: Extractor| e.extract(response)),
        }
    }
}

impl<K: Copy> Rule<K> {
    /// A rule for an outcome that carries no value.
    pub fn new(sw1: BytePattern, sw2: BytePattern, outcome: K) -> (r: Self)
        ensures
            r@ == (RuleView { sw1, sw2, outcome, fields: Seq::empty() }),
    {
        Rule { sw1, sw2, outcome, fields: Vec::new() }
    }

    /// A rule for an outcome that carries the values of `fields`.
    pub fn with_fields(sw1: BytePattern, sw2: BytePattern, outcome: K, fields: Vec<Extractor>) -> (r:
        Self)
        ensures
            r@ == (RuleView { sw1, sw2, outcome, fields: fields@ }),
    {
        Rule { sw1, sw2, outcome, fields }
    }

    /// Tests a status word against both patterns.
    pub fn matches(&self, sw1: u8, sw2: u8) -> (m: bool)
        ensures
            m == self@.matches(sw1, sw2),
    {
        self.sw1.matches(sw1) && self.sw2.matches(sw2)
    }

    /// Builds the rule's outcome from a response, whatever its status word.
    pub fn outcome_for<'a>(&self, response: &Response<'a>) -> (o: Outcome<'a, K>)
        ensures
            o@ == self@.outcome_for(response@),
    {
        let mut values: Vec<Value<'a>> = Vec::new();
        let mut i: usize = 0;
        while i < self.fields.len()
            invariant
                i <= self.fields@.len(),
                values@.len() == i,
                forall|j: int| 0 <= j < i ==> (#[trigger] values@[j])@ == self.fields@[j].extract(response@),
            decreases self.fields@.len() - i,
        {
            values.push(self.fields[i].apply(response));
            i += 1;
        }
        let o = Outcome { kind: self.outcome, values };
        assert(o@.values =~= self@.outcome_for(response@).values);
        o
    }
}

} // verus!
