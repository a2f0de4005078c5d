//! Classification of a status word against an ordered table of rules: the
//! first rule that takes the status word decides the outcome.

use crate::response::{Response, ResponseView};
use crate::rule::{Outcome, OutcomeView, Rule, RuleView};
use vstd::prelude::*;

verus! {

/// The index of the first rule from `start` on that takes `(sw1, sw2)`.
pub open spec fn first_match_from<K>(rules: Seq<RuleView<K>>, sw1: u8, sw2: u8, start: int) -> Option<
    int,
>
    decreases rules.len() - start,
{
    if start < 0 || start >= rules.len() {
        None
    } else if rules[start].matches(sw1, sw2) {
        Some(start)
    } else {
        first_match_from(rules, sw1, sw2, start + 1)
    }
}

/// The index of the first rule that takes `(sw1, sw2)`, if any rule does.
pub open spec fn first_match<K>(rules: Seq<RuleView<K>>, sw1: u8, sw2: u8) -> Option<int> {
    first_match_from(rules, sw1, sw2, 0)
}

/// The outcome of a response under a table: that of the first rule that
/// takes its status word. Where no rule takes it there is none.
pub open spec fn classify<K>(rules: Seq<RuleView<K>>, response: ResponseView) -> Option<
    OutcomeView<K>,
> {
    match first_match(rules, response.trailer.0, response.trailer.1) {
        Some(i) => Some(rules[i].outcome_for(response)),
        None => None,
    }
}

/// Whether a table ends in a rule that takes every status word.
pub open spec fn exhaustive<K>(rules: Seq<RuleView<K>>) -> bool {
    rules.len() > 0 && rules.last().is_catch_all()
}

/// An ordered table of classification rules.
#[derive(Debug)]
pub struct RuleTable<K> {
    rules: Vec<Rule<K>>,
}

impl<K> View for RuleTable<K> {
    type V = Seq<RuleView<K>>;

    closed spec fn view(&self) -> Seq<RuleView<K>> {
        self.rules@.map_values(|r: Rule<K>| r@)
    }
}

impl<K: Copy> RuleTable<K> {
    /// A table without rules.
    pub fn new() -> (t: Self)
        ensures
            t@ == Seq::<RuleView<K>>::empty(),
    {
        let t = RuleTable { rules: Vec::new() };
        assert(t@ =~= Seq::<RuleView<K>>::empty());
        t
    }

    /// Adds a rule behind those that the table holds.
    pub fn push(&mut self, rule: Rule<K>)
        ensures
            final(self)@ == old(self)@.push(rule@),
    {
        self.rules.push(rule);
        assert(self@ =~= old(self)@.push(rule@));
    }

    /// The number of rules.
    pub fn len(&self) -> (n: usize)
        ensures
            n == self@.len(),
    {
        self.rules.len()
    }

    /// Whether the table holds no rule.
    pub fn is_empty(&self) -> (e: bool)
        ensures
            e == (self@.len() == 0),
    {
        self.rules.len() == 0
    }

    /// The rule at index `i`.
    pub fn get(&self, i: usize) -> (r: Option<&Rule<K>>)
        ensures
            match r {
                Some(rule) => i < self@.len() && rule@ == self@[i as int],
                None => i >= self@.len(),
            },
    {
        if i < self.rules.len() {
            Some(&self.rules[i])
        } else {
            None
        }
    }

    /// Whether the table ends in a rule that takes every status word, so that
    /// it decides every response.
    pub fn is_exhaustive(&self) -> (e: bool)
        ensures
            e == exhaustive(self@),
    {
        let n = self.rules.len();
        if n == 0 {
            return false;
        }
        let last = &self.rules[n - 1];
        assert(last@ == self@.last());
        last.sw1.is_any() && last.sw2.is_any()
    }

    /// Finds the first rule that takes the status word `(sw1, sw2)`.
    pub fn find(&self, sw1: u8, sw2: u8) -> (found: Option<usize>)
        ensures
            match found {
                Some(i) => first_match(self@, sw1, sw2) == Some(i as int),
                None => first_match(self@, sw1, sw2) is None,
            },
    {
        let mut i: usize = 0;
        while i < self.rules.len()
            invariant
                i <= self.rules@.len(),
                first_match(self@, sw1, sw2) == first_match_from(self@, sw1, sw2, i as int),
            decreases self.rules@.len() - i,
        {
            assert(self@[i as int] == self.rules@[i as int]@);
            if self.rules[i].matches(sw1, sw2) {
                return Some(i);
            }
            i += 1;
        }
        None
    }

    /// Classifies a response: builds the outcome of the first rule that takes
    /// its status word. Where no rule takes it, there is no outcome.
    pub fn try_classify<'a>(&self, response: &Response<'a>) -> (outcome: Option<Outcome<'a, K>>)
        ensures
            match outcome {
                Some(o) => classify(self@, response@) == Some(o@),
                None => classify(self@, response@) is None,
            },
            exhaustive(self@) ==> outcome is Some,
    {
        proof {
            lemma_first_match(self@, response@.trailer.0, response@.trailer.1);
            if exhaustive(self@) {
                lemma_exhaustive_table_is_total(self@, response@);
            }
        }
        match self.find(response.trailer.0, response.trailer.1) {
            Some(i) => {
                assert(self@[i as int] == self.rules@[i as int]@);
                Some(self.rules[i].outcome_for(response))
            },
            None => None,
        }
    }

    /// Classifies a response under a table that ends in a catch-all rule:
    /// there is always exactly one outcome, that of the first rule that takes
    /// the status word.
    pub fn classify<'a>(&self, response: &Response<'a>) -> (outcome: Outcome<'a, K>)
        requires
            exhaustive(self@),
        ensures
            classify(self@, response@) == Some(outcome@),
    {
        match self.try_classify(response) {
            Some(o) => o,
            None => {
                proof {
                    lemma_exhaustive_table_is_total(self@, response@);
                }
                unreached()
            },
        }
    }
}

/// A search from `start` finds the least index from there on whose rule takes
/// the status word, and finds nothing only where no rule from there on takes it.
pub proof fn lemma_first_match_from<K>(rules: Seq<RuleView<K>>, sw1: u8, sw2: u8, start: int)
    requires
        0 <= start,
    ensures
        match first_match_from(rules, sw1, sw2, start) {
            Some(i) => {
                &&& start <= i < rules.len()
                &&& rules[i].matches(sw1, sw2)
                &&& forall|j: int| start <= j < i ==> !(#[trigger] rules[j]).matches(sw1, sw2)
            },
            None => forall|j: int|
                start <= j < rules.len() ==> !(#[trigger] rules[j]).matches(sw1, sw2),
        },
    decreases rules.len() - start,
{
    if start < rules.len() && !rules[start].matches(sw1, sw2) {
        lemma_first_match_from(rules, sw1, sw2, start + 1);
    }
}

/// The rule that decides is the earliest that takes the status word: it takes
/// it, no rule before it does, and where no rule decides, none takes it.
pub proof fn lemma_first_match<K>(rules: Seq<RuleView<K>>, sw1: u8, sw2: u8)
    ensures
        match first_match(rules, sw1, sw2) {
            Some(i) => {
                &&& 0 <= i < rules.len()
                &&& rules[i].matches(sw1, sw2)
                &&& forall|j: int| 0 <= j < i ==> !(#[trigger] rules[j]).matches(sw1, sw2)
            },
            None => forall|j: int| 0 <= j < rules.len() ==> !(#[trigger] rules[j]).matches(sw1, sw2),
        },
{
    lemma_first_match_from(rules, sw1, sw2, 0);
}

/// The index `i` is the one that decides exactly if its rule takes the status
/// word and no earlier rule does.
pub proof fn lemma_first_match_is<K>(rules: Seq<RuleView<K>>, sw1: u8, sw2: u8, i: int)
    ensures
        first_match(rules, sw1, sw2) == Some(i) <==> {
            &&& 0 <= i < rules.len()
            &&& rules[i].matches(sw1, sw2)
            &&& forall|j: int| 0 <= j < i ==> !(#[trigger] rules[j]).matches(sw1, sw2)
        },
{
    lemma_first_match(rules, sw1, sw2);
}

/// Under a table that ends in a catch-all rule every status word is decided:
/// each response has an outcome, that of exactly one rule.
pub proof fn lemma_exhaustive_table_is_total<K>(rules: Seq<RuleView<K>>, response: ResponseView)
    requires
        exhaustive(rules),
    ensures
        first_match(rules, response.trailer.0, response.trailer.1) is Some,
        classify(rules, response) is Some,
{
    lemma_first_match(rules, response.trailer.0, response.trailer.1);
    assert(rules[rules.len() - 1].matches(response.trailer.0, response.trailer.1));
}

/// Of two rules that take the same status word the earlier one wins: where
/// the rules at `earlier` and `later` both take it, the rule that decides
/// stands at `earlier` or before it, and so never at `later`.
pub proof fn lemma_earlier_rule_wins<K>(
    rules: Seq<RuleView<K>>,
    response: ResponseView,
    earlier: int,
    later: int,
)
    requires
        0 <= earlier < later < rules.len(),
        rules[earlier].matches(response.trailer.0, response.trailer.1),
        rules[later].matches(response.trailer.0, response.trailer.1),
    ensures
        first_match(rules, response.trailer.0, response.trailer.1) is Some,
        first_match(rules, response.trailer.0, response.trailer.1)->0 <= earlier,
        (forall|j: int| 0 <= j < earlier ==> !(#[trigger] rules[j]).matches(
            response.trailer.0,
            response.trailer.1,
        )) ==> classify(rules, response) == Some(rules[earlier].outcome_for(response)),
{
    lemma_first_match(rules, response.trailer.0, response.trailer.1);
}

/// A table of two rules that both take the status word yields the outcome of
/// the first.
pub proof fn lemma_first_of_two_wins<K>(a: RuleView<K>, b: RuleView<K>, response: ResponseView)
    requires
        a.matches(response.trailer.0, response.trailer.1),
        b.matches(response.trailer.0, response.trailer.1),
    ensures
        classify(seq![a, b], response) == Some(a.outcome_for(response)),
{
}

/// Rules after the one that decides do not change the outcome.
pub proof fn lemma_later_rules_do_not_shadow<K>(
    rules: Seq<RuleView<K>>,
    more: Seq<RuleView<K>>,
    response: ResponseView,
)
    requires
        classify(rules, response) is Some,
    ensures
        classify(rules + more, response) == classify(rules, response),
{
    let sw1 = response.trailer.0;
    let sw2 = response.trailer.1;
    lemma_first_match(rules, sw1, sw2);
    lemma_first_match(rules + more, sw1, sw2);
    let i = first_match(rules, sw1, sw2)->0;
    assert((rules + more)[i] == rules[i]);
    assert(forall|j: int| 0 <= j < i ==> (rules + more)[j] == rules[j]);
    let k = first_match(rules + more, sw1, sw2);
    if k is None {
        assert(!(rules + more)[i].matches(sw1, sw2));
    } else if k->0 < i {
        assert((rules + more)[k->0] == rules[k->0]);
    } else if k->0 > i {
        assert(!(rules + more)[i].matches(sw1, sw2));
    }
}

} // verus!
