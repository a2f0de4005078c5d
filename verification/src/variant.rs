//! Declaring a table outcome by outcome: each outcome names the status words
//! that lead to it and, field by field, what it carries.

use crate::rule::{BytePattern, Extractor, Rule, RuleView};
use crate::table::RuleTable;
use vstd::prelude::*;

verus! {

/// The part of a response that a field of an outcome is filled from.
#[derive(Debug, Clone, Copy, PartialEq, Eq)]
pub enum Source {
    Sw1,
    Sw2,
    Payload,
}

/// What is declared of one field of an outcome. A field with neither a
/// source nor a mask is plain.
#[derive(Debug, Clone, Copy, PartialEq, Eq)]
pub struct Field {
    /// Where the field's value comes from.
    pub source: Option<Source>,
    /// A mask for a value that comes from a status byte.
    pub mask: Option<u8>,
}

/// Why an outcome's declaration yields no rules.
#[derive(Debug, Clone, Copy, PartialEq, Eq)]
pub enum DeclareError {
    /// There are three or more fields and all of them are plain, so that
    /// nothing says what they carry.
    UnsupportedFields,
    /// Some field names a source or a mask, and the field at this index
    /// names no source.
    MissingSource(usize),
}

/// One outcome of a table: the status words that lead to it, as pairs of
/// patterns, and its fields.
#[derive(Debug)]
pub struct Variant<K> {
    pub kind: K,
    pub patterns: Vec<(BytePattern, BytePattern)>,
    pub fields: Vec<Field>,
}

/// What a declaration holds.
pub struct VariantView<K> {
    pub kind: K,
    pub patterns: Seq<(BytePattern, BytePattern)>,
    pub fields: Seq<Field>,
}

impl<K> View for Variant<K> {
    type V = VariantView<K>;

    open spec fn view(&self) -> VariantView<K> {
        VariantView { kind: self.kind, patterns: self.patterns@, fields: self.fields@ }
    }
}

impl Field {
    /// Whether the field is plain.
    pub open spec fn is_plain(self) -> bool {
        self.source is None && self.mask is None
    }

    /// The extractor of a field that names a source. A payload is never
    /// masked.
    pub open spec fn extractor(self) -> Extractor {
        match self.source {
            Some(Source::Sw1) => Extractor::Sw1(self.mask),
            Some(Source::Sw2) => Extractor::Sw2(self.mask),
            _ => Extractor::Payload,
        }
    }

    /// A field without source or mask.
    pub fn plain() -> (f: Self)
        ensures
            f == (Field { source: None, mask: None }),
    {
        Field { source: None, mask: None }
    }

    /// A field filled from `source`.
    pub fn from_source(source: Source) -> (f: Self)
        ensures
            f == (Field { source: Some(source), mask: None }),
    {
        Field { source: Some(source), mask: None }
    }

    /// A field filled from `source`, under `mask`.
    pub fn masked(source: Source, mask: u8) -> (f: Self)
        ensures
            f == (Field { source: Some(source), mask: Some(mask) }),
    {
        Field { source: Some(source), mask: Some(mask) }
    }
}

/// The index of the first field from `start` on that names no source.
pub open spec fn first_without_source(fields: Seq<Field>, start: int) -> Option<int>
    decreases fields.len() - start,
{
    if start < 0 || start >= fields.len() {
        None
    } else if fields[start].source is None {
        Some(start)
    } else {
        first_without_source(fields, start + 1)
    }
}

/// The extractors that a list of fields stands for.
///
/// Where all fields are plain, their number decides: none carries nothing,
/// one carries the payload, two carry the two status bytes, and more are
/// refused. Where some field names a source or a mask, every field has to
/// name a source, and is filled from it.
pub open spec fn extractors_of(fields: Seq<Field>) -> Result<Seq<Extractor>, DeclareError> {
    if forall|i: int| 0 <= i < fields.len() ==> (#[trigger] fields[i]).is_plain() {
        if fields.len() == 0 {
            Ok(Seq::empty())
        } else if fields.len() == 1 {
            Ok(seq![Extractor::Payload])
        } else if fields.len() == 2 {
            Ok(seq![Extractor::Sw1(None), Extractor::Sw2(None)])
        } else {
            Err(DeclareError::UnsupportedFields)
        }
    } else {
        match first_without_source(fields, 0) {
            Some(i) => Err(DeclareError::MissingSource(i as usize)),
            None => Ok(fields.map_values(|f: Field| f.extractor())),
        }
    }
}

impl<K> VariantView<K> {
    /// The rules that the declaration stands for, given its extractors: one
    /// for each pair of patterns, in their order.
    pub open spec fn rules_with(self, extractors: Seq<Extractor>) -> Seq<RuleView<K>> {
        Seq::new(
            self.patterns.len(),
            |i: int|
                RuleView {
                    sw1: self.patterns[i].0,
                    sw2: self.patterns[i].1,
                    outcome: self.kind,
                    fields: extractors,
                },
        )
    }

    /// The rules that the declaration stands for, or why it stands for none.
    /// A declaration without patterns stands for no rule, whatever its
    /// fields are.
    pub open spec fn rules(self) -> Result<Seq<RuleView<K>>, DeclareError> {
        if self.patterns.len() == 0 {
            Ok(Seq::empty())
        } else {
            match extractors_of(self.fields) {
                Ok(extractors) => Ok(self.rules_with(extractors)),
                Err(e) => Err(e),
            }
        }
    }
}

/// The rules of a list of declarations, in the order of the declarations, or
/// the error of the first declaration that stands for none.
pub open spec fn rules_of<K>(variants: Seq<VariantView<K>>) -> Result<Seq<RuleView<K>>, DeclareError>
    decreases variants.len(),
{
    if variants.len() == 0 {
        Ok(Seq::empty())
    } else {
        match rules_of(variants.drop_last()) {
            Err(e) => Err(e),
            Ok(rules) => match variants.last().rules() {
                Err(e) => Err(e),
                Ok(more) => Ok(rules + more),
            },
        }
    }
}

/// What each declaration of a list holds.
pub open spec fn views_of<K>(variants: Seq<Variant<K>>) -> Seq<VariantView<K>> {
    variants.map_values(|v: Variant<K>| v@)
}

fn is_plain(field: &Field) -> (p: bool)
    ensures
        p == field.is_plain(),
{
    field.source.is_none() && field.mask.is_none()
}

fn extractor_of(source: Source, mask: Option<u8>) -> (e: Extractor)
    ensures
        e == (Field { source: Some(source), mask }).extractor(),
{
    match source {
        Source::Sw1 => Extractor::Sw1(mask),
        Source::Sw2 => Extractor::Sw2(mask),
        Source::Payload => Extractor::Payload,
    }
}

fn all_plain(fields: &Vec<Field>) -> (p: bool)
    ensures
        p == (forall|i: int| 0 <= i < fields@.len() ==> (#[trigger] fields@[i]).is_plain()),
{
    let mut i: usize = 0;
    while i < fields.len()
        invariant
            i <= fields@.len(),
            forall|j: int| 0 <= j < i ==> (#[trigger] fields@[j]).is_plain(),
        decreases fields@.len() - i,
    {
        if !is_plain(&fields[i]) {
            return false;
        }
        i += 1;
    }
    true
}

/// Works out the extractors that a list of fields stands for.
#[verifier::loop_isolation(false)]
pub fn extractors(fields: &Vec<Field>) -> (r: Result<Vec<Extractor>, DeclareError>)
    ensures
        match r {
            Ok(found) => extractors_of(fields@) == Ok::<Seq<Extractor>, DeclareError>(found@),
            Err(e) => extractors_of(fields@) == Err::<Seq<Extractor>, DeclareError>(e),
        },
{
    let mut found: Vec<Extractor> = Vec::new();
    if all_plain(fields) {
        if fields.len() == 1 {
            found.push(Extractor::Payload);
        } else if fields.len() == 2 {
            found.push(Extractor::Sw1(None));
            found.push(Extractor::Sw2(None));
        } else if fields.len() > 2 {
            return Err(DeclareError::UnsupportedFields);
        }
        assert(extractors_of(fields@)->Ok_0 =~= found@);
        return Ok(found);
    }
    let mut i: usize = 0;
    while i < fields.len()
        invariant
            i <= fields@.len(),
            found@.len() == i,
            first_without_source(fields@, 0) == first_without_source(fields@, i as int),
            forall|j: int| 0 <= j < i ==> found@[j] == (#[trigger] fields@[j]).extractor(),
        decreases fields@.len() - i,
    {
        match fields[i].source {
            Some(source) => {
                found.push(extractor_of(source, fields[i].mask));
            },
            None => {
                return Err(DeclareError::MissingSource(i));
            },
        }
        i += 1;
    }
    assert(found@ =~= fields@.map_values(|f: Field| f.extractor()));
    Ok(found)
}

fn copy_extractors(extractors: &Vec<Extractor>) -> (copy: Vec<Extractor>)
    ensures
        copy@ == extractors@,
{
    let mut copy: Vec<Extractor> = Vec::new();
    let mut i: usize = 0;
    while i < extractors.len()
        invariant
            i <= extractors@.len(),
            copy@ == extractors@.take(i as int),
        decreases extractors@.len() - i,
    {
        copy.push(extractors[i]);
        i += 1;
        assert(copy@ =~= extractors@.take(i as int));
    }
    assert(extractors@.take(i as int) =~= extractors@);
    copy
}

impl<K: Copy> RuleTable<K> {
    /// Adds the rules of one declaration behind those that the table holds.
    /// A declaration that stands for no rules leaves the table as it was.
    pub fn declare(&mut self, variant: &Variant<K>) -> (r: Result<(), DeclareError>)
        ensures
            match r {
                Ok(()) => {
                    &&& variant@.rules() is Ok
                    &&& final(self)@ == old(self)@ + variant@.rules()->Ok_0
                },
                Err(e) => {
                    &&& variant@.rules() == Err::<Seq<RuleView<K>>, DeclareError>(e)
                    &&& final(self)@ == old(self)@
                },
            },
    {
        if variant.patterns.len() == 0 {
            assert(self@ =~= old(self)@ + Seq::<RuleView<K>>::empty());
            return Ok(());
        }
        let found = match extractors(&variant.fields) {
            Ok(found) => found,
            Err(e) => {
                return Err(e);
            },
        };
        let ghost rules = variant@.rules_with(found@);
        let mut i: usize = 0;
        while i < variant.patterns.len()
            invariant
                i <= variant.patterns@.len(),
                rules == variant@.rules_with(found@),
                self@ == old(self)@ + rules.take(i as int),
            decreases variant.patterns@.len() - i,
        {
            let (sw1, sw2) = variant.patterns[i];
            self.push(Rule::with_fields(sw1, sw2, variant.kind, copy_extractors(&found)));
            i += 1;
            assert(self@ =~= old(self)@ + rules.take(i as int));
        }
        assert(rules.take(i as int) =~= rules);
        Ok(())
    }

    /// Builds the table of a list of declarations: the rules of each, in the
    /// order of the declarations. The first declaration that stands for no
    /// rules gives the error.
    pub fn from_variants(variants: &Vec<Variant<K>>) -> (r: Result<Self, DeclareError>)
        ensures
            match r {
                Ok(table) => rules_of(views_of(variants@)) == Ok::<Seq<RuleView<K>>, DeclareError>(
                    table@,
                ),
                Err(e) => rules_of(views_of(variants@)) == Err::<Seq<RuleView<K>>, DeclareError>(e),
            },
    {
        let mut table = RuleTable::new();
        let ghost all = views_of(variants@);
        let mut i: usize = 0;
        while i < variants.len()
            invariant
                i <= variants@.len(),
                all == views_of(variants@),
                rules_of(all.take(i as int)) == Ok::<Seq<RuleView<K>>, DeclareError>(table@),
            decreases variants@.len() - i,
        {
            assert(all.take(i + 1).drop_last() =~= all.take(i as int));
            assert(all.take(i + 1).last() == variants@[i as int]@);
            match table.declare(&variants[i]) {
                Ok(()) => {},
                Err(e) => {
                    proof {
                        lemma_rules_of_error(all, i as int);
                    }
                    return Err(e);
                },
            }
            i += 1;
        }
        assert(all.take(i as int) =~= all);
        Ok(table)
    }
}

/// Once a front part of the declarations fails, the whole list fails with
/// the same error.
proof fn lemma_rules_of_error<K>(variants: Seq<VariantView<K>>, i: int)
    requires
        0 <= i < variants.len(),
        rules_of(variants.take(i + 1)) is Err,
    ensures
        rules_of(variants) == rules_of(variants.take(i + 1)),
    decreases variants.len() - i,
{
    if i + 1 < variants.len() {
        assert(variants.take(i + 2).drop_last() =~= variants.take(i + 1));
        lemma_rules_of_error(variants, i + 1);
    } else {
        assert(variants.take(i + 1) =~= variants);
    }
}

} // verus!
