//! Handling ComponentCompleted events: the completion of Consequences,
//! Tradeoffs or DecisionQuality triggers the matching analysis, whose result
//! is published as an event.
//!
//! - Consequences completion: Pugh matrix analysis, `PughScoresComputed`.
//! - Tradeoffs completion: tradeoff analysis, `TradeoffsAnalyzed`.
//! - DecisionQuality completion: DQ calculation, `DQScoresComputed`.
//!
//! The analyzers themselves belong to the analysis domain; the functions
//! here read the component outputs, pick what the analyzers are given, and
//! assemble the events from what they return.

use vstd::prelude::*;
use vstd::string::*;
use crate::foundation::{decimal, opt_str, u64_to_string, uuid_text, ComponentType, CycleId, DomainError, ErrorCode, EventId, Publication, SessionId, Timestamp};
use crate::json::JsonValue;

verus! {

/// External ComponentCompleted event from the Cycle module: the payload of
/// `component.completed` events.
#[derive(Clone, Copy, Debug)]
pub struct ComponentCompletedPayload {
    /// Unique event identifier.
    pub event_id: EventId,
    /// The cycle containing the component.
    pub cycle_id: CycleId,
    /// The component that was completed.
    pub component_type: ComponentType,
    /// When the component was completed.
    pub completed_at: Timestamp,
}

/// The analysis a component completion triggers.
#[derive(Clone, Copy, Debug, PartialEq, Eq, Structural)]
pub enum AnalysisKind {
    /// Pugh matrix analysis of the consequences table.
    Pugh,
    /// Decision quality scores.
    DecisionQuality,
    /// Tradeoff analysis of the consequences table.
    Tradeoffs,
}

impl AnalysisKind {
    /// The component whose output the analysis reads.
    pub open spec fn spec_source(self) -> ComponentType {
        match self {
            AnalysisKind::DecisionQuality => ComponentType::DecisionQuality,
            _ => ComponentType::Consequences,
        }
    }

    /// The component whose output the analysis reads.
    pub fn source(&self) -> (c: ComponentType)
        ensures
            c == self.spec_source(),
    {
        match self {
            AnalysisKind::DecisionQuality => ComponentType::DecisionQuality,
            _ => ComponentType::Consequences,
        }
    }

    /// The message when that output is missing.
    pub open spec fn spec_missing_output_text(self) -> Seq<char> {
        match self {
            AnalysisKind::Pugh => "Consequences component output not found"@,
            AnalysisKind::DecisionQuality => "DecisionQuality component output not found"@,
            AnalysisKind::Tradeoffs => "Consequences component output not found for tradeoff analysis"@,
        }
    }
}

/// The analysis that the completion of a component triggers, if any.
pub open spec fn spec_triggered(component: ComponentType) -> Option<AnalysisKind> {
    match component {
        ComponentType::Consequences => Some(AnalysisKind::Pugh),
        ComponentType::DecisionQuality => Some(AnalysisKind::DecisionQuality),
        ComponentType::Tradeoffs => Some(AnalysisKind::Tradeoffs),
        _ => None,
    }
}

/// A rating of an alternative against an objective: the given value
/// clamped to the valid range -2..=2.
pub open spec fn clamp_rating(v: i64) -> i8 {
    if v < -2 { -2i8 } else if v > 2 { 2i8 } else { v as i8 }
}

/// A cell of the consequences table.
#[derive(Clone, Debug)]
pub struct ConsequenceCell {
    pub alternative_id: String,
    pub objective_id: String,
    pub rating: i8,
}

/// The consequences table: alternatives, objectives and rated cells.
#[derive(Clone, Debug)]
pub struct ConsequencesTable {
    pub alternatives: Vec<String>,
    pub objectives: Vec<String>,
    pub cells: Vec<ConsequenceCell>,
}

/// A decision quality element as read from the DQ output.
#[derive(Clone, Debug)]
pub struct DQElement {
    pub name: String,
    /// Score in percent.
    pub score: u8,
    pub rationale: Option<String>,
    pub improvement_path: Option<String>,
}

/// The score of an element, as published.
#[derive(Clone, Debug)]
pub struct DQElementScore {
    pub element_name: String,
    pub score: u8,
    pub rationale: String,
}

/// Computed DQ scores, as published.
#[derive(Clone, Debug)]
pub struct DQScoresComputed {
    pub event_id: EventId,
    pub cycle_id: CycleId,
    pub session_id: SessionId,
    pub element_scores: Vec<DQElementScore>,
    pub overall_score: u8,
    pub weakest_element: String,
    pub improvement_suggestions: Vec<String>,
    pub computed_at: Timestamp,
}

/// Computed Pugh scores, as published.
#[derive(Clone, Debug)]
pub struct PughScoresComputed {
    pub event_id: EventId,
    pub cycle_id: CycleId,
    pub session_id: SessionId,
    /// Score of each alternative.
    pub alternative_scores: Vec<(String, i32)>,
    pub dominated_alternatives: Vec<String>,
    pub irrelevant_objectives: Vec<String>,
    pub best_alternative_id: Option<String>,
    pub computed_at: Timestamp,
}

/// Tensions of a non-dominated alternative, as the analyzer reports them.
#[derive(Clone, Debug)]
pub struct Tension {
    pub alternative_id: String,
    pub gains: Vec<String>,
    pub losses: Vec<String>,
}

/// Summary of an alternative's tensions, as published.
#[derive(Clone, Debug)]
pub struct TensionSummary {
    pub alternative_id: String,
    pub alternative_name: String,
    pub strengths: Vec<String>,
    pub weaknesses: Vec<String>,
}

/// Analyzed tradeoffs, as published.
#[derive(Clone, Debug)]
pub struct TradeoffsAnalyzed {
    pub event_id: EventId,
    pub cycle_id: CycleId,
    pub session_id: SessionId,
    pub dominated_count: i32,
    pub irrelevant_count: i32,
    pub tension_summaries: Vec<TensionSummary>,
    pub analyzed_at: Timestamp,
}

impl PughScoresComputed {
    /// The event's type.
    pub fn event_type(&self) -> (t: &'static str)
        ensures
            t@ == "analysis.pugh_scores_computed"@,
    {
        "analysis.pugh_scores_computed"
    }
}

impl DQScoresComputed {
    /// The event's type.
    pub fn event_type(&self) -> (t: &'static str)
        ensures
            t@ == "analysis.dq_scores_computed"@,
    {
        "analysis.dq_scores_computed"
    }
}

impl TradeoffsAnalyzed {
    /// The event's type.
    pub fn event_type(&self) -> (t: &'static str)
        ensures
            t@ == "analysis.tradeoffs_analyzed"@,
    {
        "analysis.tradeoffs_analyzed"
    }
}

/// The text of a JSON value under `key` when it is a string.
pub open spec fn text_at(v: JsonValue, key: Seq<char>) -> Option<Seq<char>> {
    match v.spec_get(key) {
        Some(x) => x.spec_as_str(),
        None => None,
    }
}

/// The `id` texts of the items that have one, in order.
pub open spec fn ids_of(items: Seq<JsonValue>) -> Seq<Seq<char>>
    decreases items.len(),
{
    if items.len() == 0 {
        Seq::empty()
    } else {
        let rest = ids_of(items.drop_last());
        match text_at(items.last(), "id"@) {
            Some(id) => rest.push(id),
            None => rest,
        }
    }
}

/// The rating a cell item carries: its `rating` as an `i64` (0 when there
/// is none) clamped to the rating range -2..=2, so that 200 gives 2.
pub open spec fn cell_rating(item: JsonValue) -> i8 {
    let raw: i64 = match item.spec_get("rating"@) {
        Some(x) => match x.spec_as_i64() {
            Some(n) => n,
            None => 0,
        },
        None => 0,
    };
    clamp_rating(raw)
}

/// The cells given by the cell items that name both an alternative and an
/// objective, in order.
pub open spec fn cells_of(items: Seq<JsonValue>) -> Seq<(Seq<char>, Seq<char>, i8)>
    decreases items.len(),
{
    if items.len() == 0 {
        Seq::empty()
    } else {
        let rest = cells_of(items.drop_last());
        let item = items.last();
        let alt = match text_at(item, "alternative_id"@) { Some(t) => t, None => Seq::empty() };
        let obj = match text_at(item, "objective_id"@) { Some(t) => t, None => Seq::empty() };
        if alt.len() > 0 && obj.len() > 0 {
            rest.push((alt, obj, cell_rating(item)))
        } else {
            rest
        }
    }
}

/// Every cell read from an output has its rating in -2..=2, whatever the
/// output holds.
pub proof fn law_cell_ratings_in_range(items: Seq<JsonValue>)
    ensures
        forall|i: int| 0 <= i < cells_of(items).len() ==> -2 <= (#[trigger] cells_of(items)[i]).2 <= 2,
    decreases items.len(),
{
    if items.len() > 0 {
        let rest = items.drop_last();
        law_cell_ratings_in_range(rest);
        let cells = cells_of(items);
        assert forall|i: int| 0 <= i < cells.len() implies -2 <= (#[trigger] cells[i]).2 <= 2 by {
            if i < cells_of(rest).len() {
                assert(cells[i] == cells_of(rest)[i]);
            } else {
                assert(cells[i].2 == cell_rating(items.last()));
            }
        }
    }
}

/// The views of a sequence of texts.
pub open spec fn texts(v: Seq<String>) -> Seq<Seq<char>> {
    v.map_values(|s: String| s@)
}

/// The views of the cells of a table.
pub open spec fn cell_views(v: Seq<ConsequenceCell>) -> Seq<(Seq<char>, Seq<char>, i8)> {
    v.map_values(|c: ConsequenceCell| (c.alternative_id@, c.objective_id@, c.rating))
}

/// The DQ element a JSON item describes: its `name` ("Unknown" when there
/// is none), its `score` as a `u64` (0 when there is none) truncated to 8
/// bits, its `rationale` and `improvement_path`.
pub open spec fn element_matches(e: DQElement, item: JsonValue) -> bool {
    &&& e.name@ == (match text_at(item, "name"@) { Some(t) => t, None => "Unknown"@ })
    &&& e.score == (match item.spec_get("score"@) {
        Some(x) => match x.spec_as_u64() { Some(n) => n, None => 0 },
        None => 0,
    }) as u8
    &&& opt_str(e.rationale) == text_at(item, "rationale"@)
    &&& opt_str(e.improvement_path) == text_at(item, "improvement_path"@)
}

/// The rationale of an element, empty when it has none.
pub open spec fn rationale_text(e: DQElement) -> Seq<char> {
    match e.rationale {
        Some(t) => t@,
        None => Seq::empty(),
    }
}

/// The suggestion for an element scored under 80: its improvement path, or
/// a sentence naming it and its score.
pub open spec fn suggestion_for(e: DQElement) -> Seq<char> {
    match e.improvement_path {
        Some(p) => p@,
        None => "Improve "@ + e.name@ + " (currently at "@ + decimal(e.score as nat) + "%)"@,
    }
}

/// The suggestions for the elements scored under 80, in order.
pub open spec fn suggestions_of(elems: Seq<DQElement>) -> Seq<Seq<char>>
    decreases elems.len(),
{
    if elems.len() == 0 {
        Seq::empty()
    } else {
        let rest = suggestions_of(elems.drop_last());
        if elems.last().score < 80 {
            rest.push(suggestion_for(elems.last()))
        } else {
            rest
        }
    }
}

/// Suggestions are made only for elements scored under 80, at most one for
/// each element: when every element scores 80 or more there are none.
pub proof fn law_suggestions_only_for_weak_elements(elems: Seq<DQElement>)
    ensures
        suggestions_of(elems).len() <= elems.len(),
        (forall|k: int| 0 <= k < elems.len() ==> #[trigger] elems[k].score >= 80) ==> suggestions_of(elems).len() == 0,
        forall|i: int| #![trigger suggestions_of(elems)[i]] 0 <= i < suggestions_of(elems).len() ==> exists|k: int| 0 <= k < elems.len()
            && #[trigger] elems[k].score < 80 && suggestions_of(elems)[i] == suggestion_for(elems[k]),
    decreases elems.len(),
{
    if elems.len() > 0 {
        let rest = elems.drop_last();
        law_suggestions_only_for_weak_elements(rest);
        assert forall|i: int| #![trigger suggestions_of(elems)[i]] 0 <= i < suggestions_of(elems).len() implies exists|k: int| 0 <= k < elems.len()
            && #[trigger] elems[k].score < 80 && suggestions_of(elems)[i] == suggestion_for(elems[k]) by {
            if i < suggestions_of(rest).len() {
                let k = choose|k: int| 0 <= k < rest.len() && #[trigger] rest[k].score < 80
                    && suggestions_of(rest)[i] == suggestion_for(rest[k]);
                assert(elems[k] == rest[k]);
            } else {
                assert(elems[elems.len() - 1].score < 80);
            }
        }
        if forall|k: int| 0 <= k < elems.len() ==> #[trigger] elems[k].score >= 80 {
            assert forall|k: int| 0 <= k < rest.len() implies #[trigger] rest[k].score >= 80 by {
                assert(elems[k] == rest[k]);
            }
            assert(elems[elems.len() - 1].score >= 80);
        }
    }
}

/// The weak elements: those scored under 80, in order.
pub open spec fn weak_elements(elems: Seq<DQElement>) -> Seq<DQElement> {
    elems.filter(|e: DQElement| e.score < 80)
}

/// Every element scored under 80, whatever its score below 80, gets exactly
/// one suggestion, in the order of the elements, and no other element gets
/// one: the suggestions are those of the weak elements, one for one.
pub proof fn law_every_weak_element_gets_a_suggestion(elems: Seq<DQElement>)
    ensures
        suggestions_of(elems) == weak_elements(elems).map_values(|e: DQElement| suggestion_for(e)),
        suggestions_of(elems).len() == weak_elements(elems).len(),
        forall|k: int| 0 <= k < elems.len() && #[trigger] elems[k].score < 80 ==>
            suggestions_of(elems).contains(suggestion_for(elems[k])),
    decreases elems.len(),
{
    reveal(Seq::filter);
    let f = |e: DQElement| suggestion_for(e);
    if elems.len() > 0 {
        let rest = elems.drop_last();
        law_every_weak_element_gets_a_suggestion(rest);
        let wr = weak_elements(rest);
        assert(weak_elements(elems) == (if elems.last().score < 80 { wr.push(elems.last()) } else { wr }));
        if elems.last().score < 80 {
            assert(wr.push(elems.last()).map_values(f) =~= wr.map_values(f).push(f(elems.last())));
        }
        assert forall|k: int| 0 <= k < elems.len() && #[trigger] elems[k].score < 80 implies
            suggestions_of(elems).contains(suggestion_for(elems[k])) by {
            if k < rest.len() {
                assert(rest[k] == elems[k]);
                let j = choose|j: int| 0 <= j < suggestions_of(rest).len() && suggestions_of(rest)[j] == suggestion_for(rest[k]);
                assert(suggestions_of(elems)[j] == suggestions_of(rest)[j]);
            } else {
                let n = suggestions_of(elems).len() - 1;
                assert(suggestions_of(elems)[n] == suggestion_for(elems[k]));
            }
        }
    } else {
        assert(weak_elements(elems).map_values(f) =~= Seq::<Seq<char>>::empty());
    }
}

/// The Pugh and the tradeoff analyses both read the consequences table: a
/// completed component that triggers an analysis has it read the
/// Consequences output, except a completed DecisionQuality component, whose
/// analysis reads its own output.
pub proof fn law_analyses_read_their_source(component: ComponentType)
    ensures
        spec_triggered(component) matches Some(k) ==>
            (k.spec_source() == ComponentType::Consequences <==> component != ComponentType::DecisionQuality),
        spec_triggered(component) matches Some(k) ==>
            (k.spec_source() == ComponentType::DecisionQuality <==> component == ComponentType::DecisionQuality),
{
}

/// Clamping keeps every valid rating as it is, sign included, sends values
/// below the range to -2 and above it to 2, and never reorders ratings: a
/// worse raw rating never clamps to a better one.
pub proof fn law_clamp_keeps_valid_ratings(v: i64, w: i64)
    ensures
        -2 <= v <= 2 ==> clamp_rating(v) as int == v as int,
        v < -2 ==> clamp_rating(v) == -2,
        v > 2 ==> clamp_rating(v) == 2,
        v <= w ==> clamp_rating(v) <= clamp_rating(w),
{
}

/// Index of the last entry with the highest score among the first `n`.
pub open spec fn last_max_index(scores: Seq<(String, i32)>, n: int) -> int
    decreases n,
{
    if n <= 1 {
        0
    } else {
        let k = last_max_index(scores, n - 1);
        if scores[n - 1].1 >= scores[k].1 { n - 1 } else { k }
    }
}


/// The elements of a JSON value under `key` when it is an array.
pub open spec fn array_at(v: JsonValue, key: Seq<char>) -> Option<Seq<JsonValue>> {
    match v.spec_get(key) {
        Some(x) => x.spec_as_array(),
        None => None,
    }
}

/// The text of a JSON value under `key` when it is a string.
pub fn text_of<'a>(v: &'a JsonValue, key: &str) -> (r: Option<&'a String>)
    ensures
        opt_ref_text(r) == text_at(*v, key@),
{
    match v.get(key) {
        Some(x) => x.as_str(),
        None => None,
    }
}

/// The view of an optional borrowed text.
pub open spec fn opt_ref_text(o: Option<&String>) -> Option<Seq<char>> {
    match o {
        Some(s) => Some(s@),
        None => None,
    }
}

/// The elements of a JSON value under `key` when it is an array.
pub fn array_of<'a>(v: &'a JsonValue, key: &str) -> (r: Option<&'a Vec<JsonValue>>)
    ensures
        match r {
            Some(items) => array_at(*v, key@) == Some(items@),
            None => array_at(*v, key@) is None,
        },
{
    match v.get(key) {
        Some(x) => x.as_array(),
        None => None,
    }
}

/// The `id` texts of the items that have one, in order.
pub fn collect_ids(items: &Vec<JsonValue>) -> (r: Vec<String>)
    ensures
        r.deep_view() == ids_of(items@),
{
    let mut r: Vec<String> = Vec::new();
    let mut i: usize = 0;
    while i < items.len()
        invariant
            i <= items.len(),
            r.deep_view() == ids_of(items@.take(i as int)),
        decreases items.len() - i,
    {
        proof {
            assert(items@.take(i as int + 1).drop_last() =~= items@.take(i as int));
            assert(items@.take(i as int + 1).last() == items@[i as int]);
        }
        match text_of(&items[i], "id") {
            Some(id) => {
                let ghost before = r.deep_view();
                r.push(id.clone());
                proof {
                    assert(r.deep_view() =~= before.push(id@));
                }
            },
            None => {},
        }
        i = i + 1;
    }
    proof {
        assert(items@.take(items@.len() as int) =~= items@);
    }
    r
}

/// The rating a cell item carries: its `rating` as an `i64` (0 when there
/// is none) clamped to -2..=2.
pub fn rating_of(item: &JsonValue) -> (r: i8)
    ensures
        r == cell_rating(*item),
        -2 <= r <= 2,
{
    let raw: i64 = match item.get("rating") {
        Some(x) => match x.as_i64() {
            Some(n) => n,
            None => 0,
        },
        None => 0,
    };
    if raw < -2 {
        -2
    } else if raw > 2 {
        2
    } else {
        raw as i8
    }
}

/// The cells given by the cell items that name both an alternative and an
/// objective, in order.
pub fn collect_cells(items: &Vec<JsonValue>) -> (r: Vec<ConsequenceCell>)
    ensures
        cell_views(r@) == cells_of(items@),
{
    let mut r: Vec<ConsequenceCell> = Vec::new();
    let mut i: usize = 0;
    while i < items.len()
        invariant
            i <= items.len(),
            cell_views(r@) == cells_of(items@.take(i as int)),
        decreases items.len() - i,
    {
        proof {
            assert(items@.take(i as int + 1).drop_last() =~= items@.take(i as int));
            assert(items@.take(i as int + 1).last() == items@[i as int]);
        }
        let item = &items[i];
        let alt = match text_of(item, "alternative_id") {
            Some(t) => t.clone(),
            None => String::new(),
        };
        let obj = match text_of(item, "objective_id") {
            Some(t) => t.clone(),
            None => String::new(),
        };
        if alt.unicode_len() > 0 && obj.unicode_len() > 0 {
            let rating = rating_of(item);
            let ghost before = cell_views(r@);
            let cell = ConsequenceCell { alternative_id: alt, objective_id: obj, rating };
            let ghost cv = (cell.alternative_id@, cell.objective_id@, cell.rating);
            r.push(cell);
            proof {
                assert(cell_views(r@) =~= before.push(cv));
            }
        }
        i = i + 1;
    }
    proof {
        assert(items@.take(items@.len() as int) =~= items@);
    }
    r
}

/// The DQ element a JSON item describes.
pub fn element_of(item: &JsonValue) -> (e: DQElement)
    ensures
        element_matches(e, *item),
{
    let name = match text_of(item, "name") {
        Some(t) => t.clone(),
        None => String::from_str("Unknown"),
    };
    let score: u64 = match item.get("score") {
        Some(x) => match x.as_u64() {
            Some(n) => n,
            None => 0,
        },
        None => 0,
    };
    let rationale = match text_of(item, "rationale") {
        Some(t) => Some(t.clone()),
        None => None,
    };
    let improvement_path = match text_of(item, "improvement_path") {
        Some(t) => Some(t.clone()),
        None => None,
    };
    DQElement { name, score: score as u8, rationale, improvement_path }
}

/// The suggestion for an element: its improvement path, or a sentence
/// naming it and its score.
pub fn suggestion(e: &DQElement) -> (s: String)
    ensures
        s@ == suggestion_for(*e),
{
    match &e.improvement_path {
        Some(p) => p.clone(),
        None => String::from_str("Improve ")
            .concat(e.name.as_str())
            .concat(" (currently at ")
            .concat(u64_to_string(e.score as u64).as_str())
            .concat("%)"),
    }
}

/// Handler of ComponentCompleted events that triggers analyses.
///
/// A run goes: the caller parses the payload and reads the cycle,
/// `analysis_for`; where an analysis follows, reads the output of its source
/// component, `output_found`; parses it (`parse_consequences_table` or
/// `parse_dq_elements`); runs the analyzers; assembles the event, caused by
/// the completion event (`pugh_event`, `dq_event`, `tradeoffs_event`), and
/// publishes it.
pub struct AnalysisTriggerHandler {}

impl AnalysisTriggerHandler {
    /// Creates a new handler.
    pub fn new() -> (h: Self) {
        AnalysisTriggerHandler {}
    }

    /// The handler's name.
    pub fn name(&self) -> (n: &'static str)
        ensures
            n@ == "AnalysisTriggerHandler"@,
    {
        "AnalysisTriggerHandler"
    }

    /// From the cycle read for the payload: the session it belongs to and
    /// the analysis the completed component triggers (none for components
    /// that trigger none). A missing cycle is an error.
    pub fn analysis_for(&self, payload: &ComponentCompletedPayload, cycle_session: Result<Option<SessionId>, DomainError>) -> (r: Result<Option<(AnalysisKind, SessionId)>, DomainError>)
        ensures
            match cycle_session {
                Err(e) => r matches Err(e2) && e2.code == e.code && e2.message@ == e.message@,
                Ok(None) => r matches Err(e) && e.code == ErrorCode::CycleNotFound
                    && e.message@ == "Cycle not found: "@ + uuid_text(payload.cycle_id.value),
                Ok(Some(s)) => match spec_triggered(payload.component_type) {
                    Some(k) => r matches Ok(Some((k2, s2))) && k2 == k && s2 == s,
                    None => r matches Ok(None),
                },
            },
    {
        let session_id = match cycle_session {
            Err(e) => return Err(e),
            Ok(None) => return Err(DomainError::new(
                ErrorCode::CycleNotFound,
                String::from_str("Cycle not found: ").concat(payload.cycle_id.to_string().as_str()),
            )),
            Ok(Some(s)) => s,
        };
        match payload.component_type {
            ComponentType::Consequences => Ok(Some((AnalysisKind::Pugh, session_id))),
            ComponentType::DecisionQuality => Ok(Some((AnalysisKind::DecisionQuality, session_id))),
            ComponentType::Tradeoffs => Ok(Some((AnalysisKind::Tradeoffs, session_id))),
            _ => Ok(None),
        }
    }

    /// The source component's output; a missing one is an error.
    pub fn output_found(&self, kind: AnalysisKind, found: Result<Option<JsonValue>, DomainError>) -> (r: Result<JsonValue, DomainError>)
        ensures
            match found {
                Err(e) => r matches Err(e2) && e2.code == e.code && e2.message@ == e.message@,
                Ok(None) => r matches Err(e) && e.code == ErrorCode::ComponentNotFound
                    && e.message@ == kind.spec_missing_output_text(),
                Ok(Some(v)) => r == Ok::<JsonValue, DomainError>(v),
            },
    {
        match found {
            Err(e) => Err(e),
            Ok(Some(v)) => Ok(v),
            Ok(None) => {
                let text = match kind {
                    AnalysisKind::Pugh => String::from_str("Consequences component output not found"),
                    AnalysisKind::DecisionQuality => String::from_str("DecisionQuality component output not found"),
                    AnalysisKind::Tradeoffs => String::from_str("Consequences component output not found for tradeoff analysis"),
                };
                Err(DomainError::new(ErrorCode::ComponentNotFound, text))
            },
        }
    }

    /// The consequences table an output describes. A table that the
    /// domain's own deserialization read from the output (`direct`) is taken
    /// as it is. Otherwise the table is built from the output's fields: the
    /// `id`s of its `alternatives` and `objectives` arrays, both of which must
    /// be present, and from its `cells` array, if any, each cell that names an
    /// alternative and an objective with its clamped rating.
    pub fn parse_consequences_table(&self, output: &JsonValue, direct: Option<ConsequencesTable>) -> (r: Result<ConsequencesTable, DomainError>)
        ensures
            match direct {
                Some(t) => r == Ok::<ConsequencesTable, DomainError>(t),
                None => match array_at(*output, "alternatives"@) {
                    None => r matches Err(e) && e.code == ErrorCode::ValidationFailed
                        && e.message@ == "Missing alternatives in output"@,
                    Some(alts) => match array_at(*output, "objectives"@) {
                        None => r matches Err(e) && e.code == ErrorCode::ValidationFailed
                            && e.message@ == "Missing objectives in output"@,
                        Some(objs) => r matches Ok(t) && t.alternatives.deep_view() == ids_of(alts)
                            && t.objectives.deep_view() == ids_of(objs)
                            && cell_views(t.cells@) == (match array_at(*output, "cells"@) {
                                Some(cells) => cells_of(cells),
                                None => Seq::empty(),
                            }),
                    },
                },
            },
    {
        if let Some(t) = direct {
            return Ok(t);
        }
        let alternatives = match array_of(output, "alternatives") {
            Some(a) => a,
            None => return Err(DomainError::validation("alternatives", "Missing alternatives in output")),
        };
        let objectives = match array_of(output, "objectives") {
            Some(o) => o,
            None => return Err(DomainError::validation("objectives", "Missing objectives in output")),
        };
        let alt_ids = collect_ids(alternatives);
        let obj_ids = collect_ids(objectives);
        let cells = match array_of(output, "cells") {
            Some(c) => collect_cells(c),
            None => {
                let empty: Vec<ConsequenceCell> = Vec::new();
                proof {
                    assert(cell_views(empty@) =~= Seq::empty());
                }
                empty
            },
        };
        Ok(ConsequencesTable { alternatives: alt_ids, objectives: obj_ids, cells })
    }

    /// The DQ elements an output describes: one for each item of its
    /// `elements` array, which must be present and not empty.
    pub fn parse_dq_elements(&self, output: &JsonValue) -> (r: Result<Vec<DQElement>, DomainError>)
        ensures
            match array_at(*output, "elements"@) {
                None => r matches Err(e) && e.code == ErrorCode::ValidationFailed
                    && e.message@ == "Missing elements array in DQ output"@,
                Some(items) => if items.len() == 0 {
                    r matches Err(e) && e.code == ErrorCode::ValidationFailed
                        && e.message@ == "No DQ elements found in output"@
                } else {
                    r matches Ok(v) && v@.len() == items.len()
                        && forall|k: int| 0 <= k < items.len() ==> #[trigger] element_matches(v@[k], items[k])
                },
            },
    {
        let items = match array_of(output, "elements") {
            Some(a) => a,
            None => return Err(DomainError::validation("elements", "Missing elements array in DQ output")),
        };
        let mut elements: Vec<DQElement> = Vec::new();
        let mut i: usize = 0;
        while i < items.len()
            invariant
                i <= items.len(),
                elements@.len() == i,
                forall|k: int| 0 <= k < i ==> #[trigger] element_matches(elements@[k], items@[k]),
            decreases items.len() - i,
        {
            elements.push(element_of(&items[i]));
            i = i + 1;
        }
        if elements.len() == 0 {
            return Err(DomainError::validation("elements", "No DQ elements found in output"));
        }
        Ok(elements)
    }

    /// The alternative with the highest score, the last of them where
    /// several share it (as `Iterator::max_by_key` picks); none without scores.
    pub fn best_alternative(&self, scores: &Vec<(String, i32)>) -> (r: Option<String>)
        ensures
            scores@.len() == 0 ==> r is None,
            scores@.len() > 0 ==> (r matches Some(id) && {
                let k = last_max_index(scores@, scores@.len() as int);
                &&& 0 <= k < scores@.len()
                &&& id@ == scores@[k].0@
                &&& forall|j: int| 0 <= j < scores@.len() ==> scores@[j].1 <= scores@[k].1
                &&& forall|j: int| k < j < scores@.len() ==> scores@[j].1 < scores@[k].1
            }),
    {
        if scores.len() == 0 {
            return None;
        }
        let mut k: usize = 0;
        let mut i: usize = 1;
        while i < scores.len()
            invariant
                1 <= i <= scores.len(),
                k < i,
                k == last_max_index(scores@, i as int),
                forall|j: int| 0 <= j < i ==> scores@[j].1 <= scores@[k as int].1,
                forall|j: int| k < j < i ==> scores@[j].1 < scores@[k as int].1,
            decreases scores.len() - i,
        {
            if scores[i].1 >= scores[k].1 {
                k = i;
            }
            i = i + 1;
        }
        Some(scores[k].0.clone())
    }

    /// The improvement suggestions for the elements scored under 80, in the
    /// order given (the analyzer's priority order).
    pub fn improvement_suggestions(&self, sorted: &Vec<DQElement>) -> (r: Vec<String>)
        ensures
            r.deep_view() == suggestions_of(sorted@),
    {
        let mut r: Vec<String> = Vec::new();
        let mut i: usize = 0;
        while i < sorted.len()
            invariant
                i <= sorted.len(),
                r.deep_view() == suggestions_of(sorted@.take(i as int)),
            decreases sorted.len() - i,
        {
            proof {
                assert(sorted@.take(i as int + 1).drop_last() =~= sorted@.take(i as int));
                assert(sorted@.take(i as int + 1).last() == sorted@[i as int]);
            }
            if sorted[i].score < 80 {
                let s = suggestion(&sorted[i]);
                let ghost before = r.deep_view();
                r.push(s);
                proof {
                    assert(r.deep_view() =~= before.push(suggestion_for(sorted@[i as int])));
                }
            }
            i = i + 1;
        }
        proof {
            assert(sorted@.take(sorted@.len() as int) =~= sorted@);
        }
        r
    }

    /// The published score of each element: its name, score, and rationale
    /// (empty when it has none).
    pub fn element_scores(&self, elements: &Vec<DQElement>) -> (r: Vec<DQElementScore>)
        ensures
            r@.len() == elements@.len(),
            forall|k: int| #![trigger r@[k]] 0 <= k < elements@.len() ==> r@[k].element_name@ == elements@[k].name@
                && r@[k].score == elements@[k].score
                && r@[k].rationale@ == rationale_text(elements@[k]),
    {
        let mut r: Vec<DQElementScore> = Vec::new();
        let mut i: usize = 0;
        while i < elements.len()
            invariant
                i <= elements.len(),
                r@.len() == i,
                forall|k: int| #![trigger r@[k]] 0 <= k < i ==> r@[k].element_name@ == elements@[k].name@
                    && r@[k].score == elements@[k].score
                    && r@[k].rationale@ == rationale_text(elements@[k]),
            decreases elements.len() - i,
        {
            let e = &elements[i];
            let rationale = match &e.rationale {
                Some(t) => t.clone(),
                None => String::new(),
            };
            let ghost before = r@;
            r.push(DQElementScore { element_name: e.name.clone(), score: e.score, rationale });
            proof {
                assert(r@[i as int].element_name@ == elements@[i as int].name@);
                assert(r@[i as int].rationale@ == rationale_text(elements@[i as int]));
                assert(forall|k: int| 0 <= k < i ==> r@[k] == before[k]);
            }
            i = i + 1;
        }
        r
    }

    /// The name of the weakest element, or "Unknown" when there is none.
    pub fn weakest_element(&self, weakest: Option<&DQElement>) -> (name: String)
        ensures
            name@ == (match weakest { Some(e) => e.name@, None => "Unknown"@ }),
    {
        match weakest {
            Some(e) => e.name.clone(),
            None => String::from_str("Unknown"),
        }
    }

    /// The `PughScoresComputed` event: the analyzer's scores, the
    /// identifiers of the dominated alternatives and irrelevant objectives,
    /// and the best alternative.
    pub fn pugh_event(&self, cycle_id: CycleId, session_id: SessionId, scores: Vec<(String, i32)>, dominated: Vec<String>, irrelevant: Vec<String>, causation_id: String) -> (p: Publication<PughScoresComputed>)
        ensures
            opt_str(p.causation_id) == Some(causation_id@),
            p.correlation_id is None,
            p.user_id is None,
            p.event.cycle_id == cycle_id,
            p.event.session_id == session_id,
            p.event.alternative_scores == scores,
            p.event.dominated_alternatives == dominated,
            p.event.irrelevant_objectives == irrelevant,
            scores@.len() == 0 ==> p.event.best_alternative_id is None,
            scores@.len() > 0 ==> opt_str(p.event.best_alternative_id) == Some(scores@[last_max_index(scores@, scores@.len() as int)].0@),
    {
        let best_alternative_id = self.best_alternative(&scores);
        let event = PughScoresComputed {
            event_id: EventId::new(),
            cycle_id,
            session_id,
            alternative_scores: scores,
            dominated_alternatives: dominated,
            irrelevant_objectives: irrelevant,
            best_alternative_id,
            computed_at: Timestamp::now(),
        };
        Publication::caused_by(event, causation_id)
    }

    /// The `DQScoresComputed` event: each element's score, the calculator's
    /// overall score, the weakest element's name, and the improvement
    /// suggestions in the calculator's priority order.
    pub fn dq_event(&self, cycle_id: CycleId, session_id: SessionId, elements: &Vec<DQElement>, overall_score: u8, weakest: Option<&DQElement>, sorted: &Vec<DQElement>, causation_id: String) -> (p: Publication<DQScoresComputed>)
        ensures
            opt_str(p.causation_id) == Some(causation_id@),
            p.correlation_id is None,
            p.user_id is None,
            p.event.cycle_id == cycle_id,
            p.event.session_id == session_id,
            p.event.overall_score == overall_score,
            p.event.element_scores@.len() == elements@.len(),
            forall|k: int| #![trigger p.event.element_scores@[k]] 0 <= k < elements@.len() ==> p.event.element_scores@[k].element_name@ == elements@[k].name@
                && p.event.element_scores@[k].score == elements@[k].score
                && p.event.element_scores@[k].rationale@ == rationale_text(elements@[k]),
            p.event.weakest_element@ == (match weakest { Some(w) => w.name@, None => "Unknown"@ }),
            p.event.improvement_suggestions.deep_view() == suggestions_of(sorted@),
    {
        let element_scores = self.element_scores(elements);
        let event = DQScoresComputed {
            event_id: EventId::new(),
            cycle_id,
            session_id,
            element_scores,
            overall_score,
            weakest_element: self.weakest_element(weakest),
            improvement_suggestions: self.improvement_suggestions(sorted),
            computed_at: Timestamp::now(),
        };
        Publication::caused_by(event, causation_id)
    }

    /// The `TradeoffsAnalyzed` event: the counts of dominated alternatives
    /// and irrelevant objectives, and a summary of each tension (strengths
    /// are its gains, weaknesses its losses, named by its alternative).
    pub fn tradeoffs_event(&self, cycle_id: CycleId, session_id: SessionId, dominated_count: usize, irrelevant_count: usize, tensions: &Vec<Tension>, causation_id: String) -> (p: Publication<TradeoffsAnalyzed>)
        ensures
            opt_str(p.causation_id) == Some(causation_id@),
            p.correlation_id is None,
            p.user_id is None,
            p.event.cycle_id == cycle_id,
            p.event.session_id == session_id,
            p.event.dominated_count == dominated_count as i32,
            p.event.irrelevant_count == irrelevant_count as i32,
            p.event.tension_summaries@.len() == tensions@.len(),
            forall|k: int| 0 <= k < tensions@.len() ==> {
                &&& #[trigger] p.event.tension_summaries@[k].alternative_id@ == tensions@[k].alternative_id@
                &&& p.event.tension_summaries@[k].alternative_name@ == tensions@[k].alternative_id@
                &&& p.event.tension_summaries@[k].strengths.deep_view() == tensions@[k].gains.deep_view()
                &&& p.event.tension_summaries@[k].weaknesses.deep_view() == tensions@[k].losses.deep_view()
            },
    {
        let mut summaries: Vec<TensionSummary> = Vec::new();
        let mut i: usize = 0;
        while i < tensions.len()
            invariant
                i <= tensions.len(),
                summaries@.len() == i,
                forall|k: int| 0 <= k < i ==> {
                    &&& #[trigger] summaries@[k].alternative_id@ == tensions@[k].alternative_id@
                    &&& summaries@[k].alternative_name@ == tensions@[k].alternative_id@
                    &&& summaries@[k].strengths.deep_view() == tensions@[k].gains.deep_view()
                    &&& summaries@[k].weaknesses.deep_view() == tensions@[k].losses.deep_view()
                },
            decreases tensions.len() - i,
        {
            let t = &tensions[i];
            summaries.push(TensionSummary {
                alternative_id: t.alternative_id.clone(),
                alternative_name: t.alternative_id.clone(),
                strengths: t.gains.clone(),
                weaknesses: t.losses.clone(),
            });
            i = i + 1;
        }
        let event = TradeoffsAnalyzed {
            event_id: EventId::new(),
            cycle_id,
            session_id,
            dominated_count: dominated_count as i32,
            irrelevant_count: irrelevant_count as i32,
            tension_summaries: summaries,
            analyzed_at: Timestamp::now(),
        };
        Publication::caused_by(event, causation_id)
    }
}

} // verus!
