//! Entity records, and the projection of raw engine output onto them.

use vstd::prelude::*;
use vstd::seq_lib::lemma_flatten_concat;

verus! {

/// One span as the inference engine emits it.
///
/// The probability is carried as the bit pattern of an IEEE 754
/// single-precision number, so that it travels through the library unchanged.
#[derive(Debug)]
pub struct RawSpan {
    pub sequence: usize,
    pub text: String,
    pub class: String,
    pub probability_bits: u32,
}

/// Mathematical value of a [`RawSpan`].
pub ghost struct RawSpanView {
    pub sequence: nat,
    pub text: Seq<char>,
    pub class: Seq<char>,
    pub probability_bits: u32,
}

impl View for RawSpan {
    type V = RawSpanView;

    open spec fn view(&self) -> RawSpanView {
        RawSpanView {
            sequence: self.sequence as nat,
            text: self.text@,
            class: self.class@,
            probability_bits: self.probability_bits,
        }
    }
}

impl DeepView for RawSpan {
    type V = RawSpanView;

    open spec fn deep_view(&self) -> RawSpanView {
        self@
    }
}

/// One detected entity, as the API reports it.
#[derive(Debug)]
pub struct EntitySpan {
    pub text: String,
    pub label: String,
    pub sequence: usize,
    pub probability_bits: u32,
}

/// Mathematical value of an [`EntitySpan`].
pub ghost struct EntityView {
    pub text: Seq<char>,
    pub label: Seq<char>,
    pub sequence: nat,
    pub probability_bits: u32,
}

impl View for EntitySpan {
    type V = EntityView;

    open spec fn view(&self) -> EntityView {
        EntityView {
            text: self.text@,
            label: self.label@,
            sequence: self.sequence as nat,
            probability_bits: self.probability_bits,
        }
    }
}

impl DeepView for EntitySpan {
    type V = EntityView;

    open spec fn deep_view(&self) -> EntityView {
        self@
    }
}

/// The entity that reports a raw span: the same four values, the class under
/// the name `label`.
pub open spec fn entity_of(span: RawSpanView) -> EntityView {
    EntityView {
        text: span.text,
        label: span.class,
        sequence: span.sequence,
        probability_bits: span.probability_bits,
    }
}

impl EntitySpan {
    /// Copies the four reported values out of a raw span.
    pub fn from_raw(span: &RawSpan) -> (e: EntitySpan)
        ensures
            e@ == entity_of(span@),
    {
        EntitySpan {
            text: span.text.clone(),
            label: span.class.clone(),
            sequence: span.sequence,
            probability_bits: span.probability_bits,
        }
    }
}

/// What the engine hands back: for each input sequence, in order, its spans in
/// the order of emission.
#[derive(Debug)]
pub struct RawOutput {
    pub spans: Vec<Vec<RawSpan>>,
}

impl View for RawOutput {
    type V = Seq<Seq<RawSpanView>>;

    open spec fn view(&self) -> Seq<Seq<RawSpanView>> {
        self.spans.deep_view()
    }
}

/// Mathematical value of an [`ExtractionResult`].
pub ghost struct ExtractionView {
    pub text: Seq<char>,
    pub entities: Seq<EntityView>,
    pub total_entities: nat,
}

/// The result reported for a source text: the text, the entities found in it
/// and their number.
///
/// The number is stored, and the type keeps it equal to the length of the
/// entity list.
#[derive(Debug)]
pub struct ExtractionResult {
    text: String,
    entities: Vec<EntitySpan>,
    total_entities: usize,
}

impl View for ExtractionResult {
    type V = ExtractionView;

    closed spec fn view(&self) -> ExtractionView {
        ExtractionView {
            text: self.text@,
            entities: self.entities.deep_view(),
            total_entities: self.entities@.len(),
        }
    }
}

/// The result that reports `entities` for `text`.
pub open spec fn result_of(text: Seq<char>, entities: Seq<EntityView>) -> ExtractionView {
    ExtractionView { text, entities, total_entities: entities.len() }
}

/// The flat entity list of a raw output: every span of every sequence, sequences
/// in order and spans in the order of emission.
pub open spec fn entities_of(raw: Seq<Seq<RawSpanView>>) -> Seq<EntityView> {
    raw.flatten().map_values(|span: RawSpanView| entity_of(span))
}

/// The result that a raw output projects to, for the text it was computed from.
pub open spec fn projection(raw: Seq<Seq<RawSpanView>>, text: Seq<char>) -> ExtractionView {
    result_of(text, entities_of(raw))
}

impl ExtractionResult {
    #[verifier::type_invariant]
    spec fn count_is_derived(&self) -> bool {
        self.total_entities == self.entities@.len()
    }

    /// Builds the result for a text and its entities; the count is computed.
    pub fn new(text: String, entities: Vec<EntitySpan>) -> (r: ExtractionResult)
        ensures
            r@ == result_of(text@, entities.deep_view()),
    {
        let total_entities: usize = entities.len();
        ExtractionResult { text, entities, total_entities }
    }

    /// Rebuilds a result from its three stored parts, if the count is the
    /// length of the entity list.
    pub fn from_parts(text: String, entities: Vec<EntitySpan>, total_entities: usize) -> (r: Option<
        ExtractionResult,
    >)
        ensures
            r is Some <==> total_entities == entities@.len(),
            r matches Some(x) ==> x@ == result_of(text@, entities.deep_view()),
    {
        if total_entities == entities.len() {
            Some(ExtractionResult { text, entities, total_entities })
        } else {
            None
        }
    }

    /// Takes the result apart into its three stored parts.
    pub fn into_parts(self) -> (parts: (String, Vec<EntitySpan>, usize))
        ensures
            parts.0@ == self@.text,
            parts.1.deep_view() == self@.entities,
            parts.2 == self@.total_entities,
            parts.2 == parts.1@.len(),
    {
        proof {
            use_type_invariant(&self);
        }
        (self.text, self.entities, self.total_entities)
    }

    /// The source text.
    pub fn text(&self) -> (t: &String)
        ensures
            t@ == self@.text,
    {
        &self.text
    }

    /// The entities, in the order of emission.
    pub fn entities(&self) -> (e: &Vec<EntitySpan>)
        ensures
            e.deep_view() == self@.entities,
    {
        &self.entities
    }

    /// The number of entities.
    pub fn total_entities(&self) -> (n: usize)
        ensures
            n == self@.total_entities,
            n == self@.entities.len(),
    {
        proof {
            use_type_invariant(self);
        }
        self.total_entities
    }
}

/// Flattens the spans of every sequence into one list of entity records, in
/// the engine's order, and reports them with the text and their number.
pub fn project(raw: &RawOutput, source_text: &str) -> (r: ExtractionResult)
    ensures
        r@ == projection(raw@, source_text@),
{
    let mut entities: Vec<EntitySpan> = Vec::new();
    let mut i: usize = 0;
    while i < raw.spans.len()
        invariant
            i <= raw.spans.len(),
            entities.deep_view() == entities_of(raw@.take(i as int)),
        decreases raw.spans.len() - i,
    {
        let row = &raw.spans[i];
        let mut j: usize = 0;
        while j < row.len()
            invariant
                i < raw.spans.len(),
                row == raw.spans@[i as int],
                j <= row.len(),
                entities.deep_view() == entities_of(raw@.take(i as int)) + row.deep_view().take(
                    j as int,
                ).map_values(|span: RawSpanView| entity_of(span)),
            decreases row.len() - j,
        {
            let entity = EntitySpan::from_raw(&row[j]);
            let ghost before = entities.deep_view();
            let ghost done = row.deep_view().take(j as int);
            entities.push(entity);
            proof {
                let next = row.deep_view().take(j + 1);
                assert(entities.deep_view() =~= before.push(entity_of(row@[j as int]@)));
                assert(next =~= done.push(row@[j as int]@));
            }
            j += 1;
        }
        proof {
            let before = raw@.take(i as int);
            assert(row.deep_view().take(j as int) == row.deep_view());
            assert(raw@.take(i + 1) == before.push(row.deep_view()));
            before.lemma_flatten_push(row.deep_view());
        }
        i += 1;
    }
    assert(raw@.take(i as int) == raw@);
    ExtractionResult::new(source_text.to_owned(), entities)
}

/// The place in the flat list of span `j` of sequence `i`: behind all spans
/// of the sequences before `i`, and behind the first `j` spans of sequence `i`.
pub open spec fn position(raw: Seq<Seq<RawSpanView>>, i: int, j: int) -> int {
    raw.take(i).flatten().len() + j
}

/// Whether `raw` has a sequence `i` with a span `j`.
pub open spec fn has_span(raw: Seq<Seq<RawSpanView>>, i: int, j: int) -> bool {
    0 <= i < raw.len() && 0 <= j < raw[i].len()
}

/// Whether a bit pattern, read as an IEEE 754 single-precision number, is a
/// number from 0 to 1: a pattern from that of `+0.0` up to that of `1.0`, or
/// that of `-0.0`.
pub open spec fn in_unit_interval(probability_bits: u32) -> bool {
    probability_bits <= 0x3F80_0000u32 || probability_bits == 0x8000_0000u32
}

/// Tells whether a bit pattern, read as an IEEE 754 single-precision number,
/// is a number from 0 to 1.
pub fn is_unit_probability(probability_bits: u32) -> (b: bool)
    ensures
        b == in_unit_interval(probability_bits),
{
    probability_bits <= 0x3F80_0000u32 || probability_bits == 0x8000_0000u32
}

/// Whether every span of `raw` has a probability from 0 to 1.
pub open spec fn probabilities_in_unit_interval(raw: Seq<Seq<RawSpanView>>) -> bool {
    forall|i: int, j: int| #[trigger]
        has_span(raw, i, j) ==> in_unit_interval(raw[i][j].probability_bits)
}

/// The flat list up to sequence `i` is the start of the whole flat list, and
/// sequence `i` follows it.
proof fn lemma_flatten_split(raw: Seq<Seq<RawSpanView>>, i: int)
    requires
        0 <= i < raw.len(),
    ensures
        raw.take(i + 1).flatten() == raw.take(i).flatten() + raw[i],
        raw.flatten() == raw.take(i + 1).flatten() + raw.skip(i + 1).flatten(),
{
    assert(raw.take(i + 1) =~= raw.take(i).push(raw[i]));
    raw.take(i).lemma_flatten_push(raw[i]);
    assert(raw =~= raw.take(i + 1) + raw.skip(i + 1));
    lemma_flatten_concat(raw.take(i + 1), raw.skip(i + 1));
}

/// Every stored result has as its count the length of its entity list.
pub proof fn lemma_total_is_length(result: ExtractionResult)
    ensures
        result@.total_entities == result@.entities.len(),
{
}

/// A projection reports one entity for each span of the raw output, and
/// counts them.
pub proof fn lemma_projection_counts(raw: Seq<Seq<RawSpanView>>, text: Seq<char>)
    ensures
        projection(raw, text).text == text,
        projection(raw, text).entities.len() == raw.flatten().len(),
        projection(raw, text).total_entities == projection(raw, text).entities.len(),
{
}

/// Span `j` of sequence `i` is reported at its place in the flat list, with its
/// four values unchanged.
pub proof fn lemma_span_is_reported(raw: Seq<Seq<RawSpanView>>, i: int, j: int)
    requires
        has_span(raw, i, j),
    ensures
        0 <= position(raw, i, j) < entities_of(raw).len(),
        entities_of(raw)[position(raw, i, j)] == entity_of(raw[i][j]),
{
    lemma_flatten_split(raw, i);
}

/// Every reported entity is a span of the raw output: entity `k` is the span
/// whose place is `k`.
pub proof fn lemma_entity_has_origin(raw: Seq<Seq<RawSpanView>>, k: int) -> (at: (int, int))
    requires
        0 <= k < entities_of(raw).len(),
    ensures
        has_span(raw, at.0, at.1),
        position(raw, at.0, at.1) == k,
        entities_of(raw)[k] == entity_of(raw[at.0][at.1]),
    decreases raw.len(),
{
    let last = raw.len() - 1;
    assert(raw.len() > 0) by {
        if raw.len() == 0 {
            assert(raw.flatten().len() == 0);
        }
    }
    lemma_flatten_split(raw, last);
    assert(raw.take(last + 1) =~= raw);
    if k < raw.take(last).flatten().len() {
        let before = raw.take(last);
        let at = lemma_entity_has_origin(before, k);
        assert(before.take(at.0) =~= raw.take(at.0));
        lemma_span_is_reported(raw, at.0, at.1);
        at
    } else {
        let at = (last, k - raw.take(last).flatten().len());
        lemma_span_is_reported(raw, at.0, at.1);
        at
    }
}

/// The flat list keeps the engine's order: sequences in order, and within a
/// sequence its spans in order.
pub proof fn lemma_order_is_kept(raw: Seq<Seq<RawSpanView>>, i1: int, j1: int, i2: int, j2: int)
    requires
        has_span(raw, i1, j1),
        has_span(raw, i2, j2),
        i1 < i2 || (i1 == i2 && j1 < j2),
    ensures
        position(raw, i1, j1) < position(raw, i2, j2),
    decreases i2 - i1,
{
    if i1 < i2 {
        lemma_flatten_split(raw, i1);
        if i1 + 1 < i2 {
            if raw[i1 + 1].len() > 0 {
                lemma_order_is_kept(raw, i1 + 1, 0, i2, j2);
            } else {
                lemma_offsets_grow(raw, i1 + 1, i2);
            }
        }
    }
}

/// The flat list up to a later sequence is at least as long.
proof fn lemma_offsets_grow(raw: Seq<Seq<RawSpanView>>, i1: int, i2: int)
    requires
        0 <= i1 <= i2 <= raw.len(),
    ensures
        raw.take(i1).flatten().len() <= raw.take(i2).flatten().len(),
    decreases i2 - i1,
{
    if i1 < i2 {
        lemma_flatten_split(raw, i1);
        lemma_offsets_grow(raw, i1 + 1, i2);
    }
}

/// The projection hands each probability on as it is: where every span of the
/// raw output has a probability from 0 to 1, so has every reported entity.
pub proof fn lemma_probabilities_stay_in_unit_interval(raw: Seq<Seq<RawSpanView>>, text: Seq<char>)
    requires
        probabilities_in_unit_interval(raw),
    ensures
        forall|k: int|
            0 <= k < projection(raw, text).entities.len() ==> in_unit_interval(
                #[trigger] projection(raw, text).entities[k].probability_bits,
            ),
{
    assert forall|k: int| 0 <= k < projection(raw, text).entities.len() implies in_unit_interval(
        #[trigger] projection(raw, text).entities[k].probability_bits,
    ) by {
        let at = lemma_entity_has_origin(raw, k);
        assert(has_span(raw, at.0, at.1));
    }
}

} // verus!
