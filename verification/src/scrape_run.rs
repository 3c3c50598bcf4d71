//! Storing one fetched forecast, as a state machine.
//!
//! The caller performs each [`ScrapeAction`] against the database and hands
//! the answer back as a [`ScrapeEvent`]. The machine first skips a forecast
//! whose issue is already stored, then records the issue, then goes through
//! the areas that carry parameters in document order: it finds the stored
//! region of the area (creating it when missing; an area whose region cannot
//! be created is left out) and stores one prediction per value.
use vstd::prelude::*;
use crate::model::{Area, ForecastData};
use crate::scrape::{
    area_rows, new_issued, new_region, prediction_rows, rows_view, spec_issued_key,
    spec_new_issued, spec_new_region, issued_key, NewIssued, NewIssuedView, NewRegion,
    NewRegionView, PredictionRow, PredictionRowView,
};

verus! {

/// What the caller is asked to do next.
#[derive(Debug)]
pub enum ScrapeAction {
    /// Look up whether an issue with this key is already stored.
    FindIssued(String),
    /// Store this issue and report its id.
    SaveIssued(NewIssued),
    /// Look up the id of the stored region with this code.
    FindRegion(String),
    /// Store this region and report its id, or report that it failed.
    CreateRegion(NewRegion),
    /// Store these predictions in order; a failed one is skipped.
    SavePredictions(Vec<PredictionRow>),
    /// Nothing is left to do.
    Finish,
}

/// What a [`ScrapeAction`] asks for, as plain values.
pub enum ScrapeActionView {
    FindIssued(Seq<char>),
    SaveIssued(NewIssuedView),
    FindRegion(Seq<char>),
    CreateRegion(NewRegionView),
    SavePredictions(Seq<PredictionRowView>),
    Finish,
}

impl View for ScrapeAction {
    type V = ScrapeActionView;

    open spec fn view(&self) -> ScrapeActionView {
        match self {
            ScrapeAction::FindIssued(key) => ScrapeActionView::FindIssued(key@),
            ScrapeAction::SaveIssued(issued) => ScrapeActionView::SaveIssued(issued@),
            ScrapeAction::FindRegion(code) => ScrapeActionView::FindRegion(code@),
            ScrapeAction::CreateRegion(region) => ScrapeActionView::CreateRegion(region@),
            ScrapeAction::SavePredictions(rows) => ScrapeActionView::SavePredictions(rows_view(rows@)),
            ScrapeAction::Finish => ScrapeActionView::Finish,
        }
    }
}

/// The predictions an action stores (none but for `SavePredictions`).
pub open spec fn action_rows(action: ScrapeActionView) -> Seq<PredictionRowView> {
    match action {
        ScrapeActionView::SavePredictions(rows) => rows,
        _ => Seq::empty(),
    }
}

/// What the database answered to the last action.
#[derive(Debug, Clone, Copy, PartialEq, Eq)]
pub enum ScrapeEvent {
    /// Answer to `FindIssued`: whether such an issue exists.
    IssuedLookup(bool),
    /// Answer to `SaveIssued`: the id of the stored issue.
    IssuedSaved(i32),
    /// Answer to `FindRegion`: the id of the region, if stored.
    RegionLookup(Option<i32>),
    /// Answer to `CreateRegion`: the id of the new region, or `None` on failure.
    RegionCreated(Option<i32>),
    /// Answer to `SavePredictions`.
    PredictionsSaved,
}

/// Where the machine stands.
#[derive(Debug, Clone, Copy, PartialEq, Eq, Structural)]
pub enum ScrapePhase {
    CheckingIssued,
    SavingIssued,
    LookingUpRegion,
    CreatingRegion,
    SavingPredictions,
    Finished,
}

/// The first area at or after `from` that carries parameters, or the number
/// of areas when there is none.
pub open spec fn next_area(areas: Seq<Area>, from: int) -> int
    decreases areas.len() - from,
{
    if from >= areas.len() {
        areas.len() as int
    } else if areas[from].parameter is Some {
        from
    } else {
        next_area(areas, from + 1)
    }
}

/// The predictions owed for the areas before `upto`: for each area whose
/// region was resolved (has an id in `region_ids`), all its rows.
pub open spec fn planned_rows(
    areas: Seq<Area>,
    region_ids: Map<int, i32>,
    issued_id: i32,
    upto: int,
) -> Seq<PredictionRowView>
    decreases upto,
{
    if upto <= 0 {
        Seq::empty()
    } else {
        planned_rows(areas, region_ids, issued_id, upto - 1) + if region_ids.contains_key(upto - 1) {
            area_rows(areas[upto - 1], region_ids[upto - 1], issued_id)
        } else {
            Seq::empty()
        }
    }
}

/// The storing of one forecast document under one province.
pub struct WeatherScrape {
    data: ForecastData,
    parent_region_id: i32,
    phase: ScrapePhase,
    already_stored: bool,
    issued_id: i32,
    cursor: usize,
    region_ids: Ghost<Map<int, i32>>,
    stored: Ghost<Seq<PredictionRowView>>,
}

impl WeatherScrape {
    /// The forecast being stored.
    pub closed spec fn data(&self) -> ForecastData {
        self.data
    }

    /// The province under which new regions are created.
    pub closed spec fn parent_region_id(&self) -> i32 {
        self.parent_region_id
    }

    pub closed spec fn phase(&self) -> ScrapePhase {
        self.phase
    }

    /// The forecast's issue was found stored already.
    pub closed spec fn already_stored(&self) -> bool {
        self.already_stored
    }

    /// The id of the stored issue (meaningful once it is stored).
    pub closed spec fn issued_id(&self) -> i32 {
        self.issued_id
    }

    /// The area being worked on.
    pub closed spec fn cursor(&self) -> int {
        self.cursor as int
    }

    /// The region id resolved for each area handled so far.
    pub closed spec fn region_ids(&self) -> Map<int, i32> {
        self.region_ids@
    }

    /// Every prediction handed out for storing so far, in order.
    pub closed spec fn stored(&self) -> Seq<PredictionRowView> {
        self.stored@
    }

    /// The areas of the forecast.
    pub open spec fn areas(&self) -> Seq<Area> {
        self.data().forecast.area@
    }

    pub open spec fn finished(&self) -> bool {
        self.phase() == ScrapePhase::Finished
    }

    /// The areas before this index are done with.
    pub open spec fn done_upto(&self) -> int {
        if self.phase() == ScrapePhase::SavingPredictions {
            self.cursor() + 1
        } else {
            self.cursor()
        }
    }

    /// An upper bound on the steps left; every step lowers it.
    pub open spec fn progress(&self) -> nat {
        let n = self.areas().len() as int;
        let c = self.cursor();
        (match self.phase() {
            ScrapePhase::CheckingIssued => 3 * n + 2,
            ScrapePhase::SavingIssued => 3 * n + 1,
            ScrapePhase::LookingUpRegion => 3 * (n - c - 1) + 3,
            ScrapePhase::CreatingRegion => 3 * (n - c - 1) + 2,
            ScrapePhase::SavingPredictions => 3 * (n - c - 1) + 1,
            ScrapePhase::Finished => 0,
        }) as nat
    }

    /// The machine's invariant.
    pub open spec fn inv(&self) -> bool {
        let areas = self.areas();
        let ids = self.region_ids();
        &&& 0 <= self.cursor() <= areas.len()
        &&& forall|k: int| #[trigger] ids.contains_key(k) ==> 0 <= k < self.done_upto()
            && areas[k].parameter is Some
        &&& self.stored() == planned_rows(areas, ids, self.issued_id(), self.done_upto())
        &&& match self.phase() {
            ScrapePhase::CheckingIssued | ScrapePhase::SavingIssued => {
                &&& self.cursor() == 0
                &&& ids.dom().is_empty()
                &&& !self.already_stored()
            },
            ScrapePhase::LookingUpRegion | ScrapePhase::CreatingRegion => {
                &&& self.cursor() < areas.len()
                &&& areas[self.cursor()].parameter is Some
                &&& !self.already_stored()
            },
            ScrapePhase::SavingPredictions => {
                &&& self.cursor() < areas.len()
                &&& areas[self.cursor()].parameter is Some
                &&& ids.contains_key(self.cursor())
                &&& !self.already_stored()
            },
            ScrapePhase::Finished => {
                &&& self.already_stored() ==> self.cursor() == 0 && ids.dom().is_empty()
                &&& !self.already_stored() ==> self.cursor() == areas.len()
            },
        }
    }

    /// Which answer the machine waits for.
    pub open spec fn expects(&self, event: ScrapeEvent) -> bool {
        match (self.phase(), event) {
            (ScrapePhase::CheckingIssued, ScrapeEvent::IssuedLookup(_)) => true,
            (ScrapePhase::SavingIssued, ScrapeEvent::IssuedSaved(_)) => true,
            (ScrapePhase::LookingUpRegion, ScrapeEvent::RegionLookup(_)) => true,
            (ScrapePhase::CreatingRegion, ScrapeEvent::RegionCreated(_)) => true,
            (ScrapePhase::SavingPredictions, ScrapeEvent::PredictionsSaved) => true,
            _ => false,
        }
    }

    /// Moving on to area `j`: ask for its region, or finish after the last area.
    pub open spec fn enters_area(&self, j: int, action: ScrapeActionView) -> bool {
        if j >= self.areas().len() {
            &&& self.phase() == ScrapePhase::Finished
            &&& !self.already_stored()
            &&& action == ScrapeActionView::Finish
        } else {
            &&& self.phase() == ScrapePhase::LookingUpRegion
            &&& self.cursor() == j
            &&& action == ScrapeActionView::FindRegion(self.areas()[j].id@)
        }
    }

    /// What one step does, for each answer.
    pub open spec fn transition(
        before: WeatherScrape,
        event: ScrapeEvent,
        after: WeatherScrape,
        action: ScrapeActionView,
    ) -> bool {
        let c = before.cursor();
        match event {
            ScrapeEvent::IssuedLookup(true) => {
                &&& after.finished()
                &&& after.already_stored()
                &&& after.region_ids() == before.region_ids()
                &&& action == ScrapeActionView::Finish
            },
            ScrapeEvent::IssuedLookup(false) => {
                &&& after.phase() == ScrapePhase::SavingIssued
                &&& after.region_ids() == before.region_ids()
                &&& action == ScrapeActionView::SaveIssued(spec_new_issued(before.data()))
            },
            ScrapeEvent::IssuedSaved(id) => {
                &&& after.issued_id() == id
                &&& after.region_ids() == before.region_ids()
                &&& after.enters_area(next_area(before.areas(), 0), action)
            },
            ScrapeEvent::RegionLookup(Some(region_id)) | ScrapeEvent::RegionCreated(Some(
                region_id,
            )) => {
                &&& after.phase() == ScrapePhase::SavingPredictions
                &&& after.cursor() == c
                &&& after.issued_id() == before.issued_id()
                &&& after.region_ids() == before.region_ids().insert(c, region_id)
                &&& action == ScrapeActionView::SavePredictions(
                    area_rows(before.areas()[c], region_id, before.issued_id()),
                )
            },
            ScrapeEvent::RegionLookup(None) => {
                &&& after.phase() == ScrapePhase::CreatingRegion
                &&& after.cursor() == c
                &&& after.issued_id() == before.issued_id()
                &&& after.region_ids() == before.region_ids()
                &&& action == ScrapeActionView::CreateRegion(
                    spec_new_region(before.areas()[c], before.parent_region_id()),
                )
            },
            ScrapeEvent::RegionCreated(None) | ScrapeEvent::PredictionsSaved => {
                &&& after.issued_id() == before.issued_id()
                &&& after.region_ids() == before.region_ids()
                &&& after.enters_area(next_area(before.areas(), c + 1), action)
            },
        }
    }
}


/// `next_area` lies between `from` and the end, lands on an area with
/// parameters, and passes over only areas without.
proof fn lemma_next_area(areas: Seq<Area>, from: int)
    requires
        0 <= from <= areas.len(),
    ensures
        from <= next_area(areas, from) <= areas.len(),
        next_area(areas, from) < areas.len() ==> areas[next_area(areas, from)].parameter is Some,
        forall|k: int| from <= k < next_area(areas, from) ==> areas[k].parameter is None,
    decreases areas.len() - from,
{
    if from < areas.len() && areas[from].parameter is None {
        lemma_next_area(areas, from + 1);
    }
}

/// Areas without a resolved region add nothing to the plan.
proof fn lemma_planned_skip(
    areas: Seq<Area>,
    ids: Map<int, i32>,
    issued_id: i32,
    from: int,
    to: int,
)
    requires
        0 <= from <= to,
        forall|k: int| from <= k < to ==> !ids.contains_key(k),
    ensures
        planned_rows(areas, ids, issued_id, to) == planned_rows(areas, ids, issued_id, from),
    decreases to - from,
{
    if from < to {
        lemma_planned_skip(areas, ids, issued_id, from, to - 1);
        assert(planned_rows(areas, ids, issued_id, to) =~= planned_rows(areas, ids, issued_id, to - 1));
    }
}

/// The plan up to `upto` depends only on the region ids below `upto`.
proof fn lemma_planned_agree(
    areas: Seq<Area>,
    ids1: Map<int, i32>,
    ids2: Map<int, i32>,
    issued_id: i32,
    upto: int,
)
    requires
        forall|k: int| 0 <= k < upto ==> (ids1.contains_key(k) <==> ids2.contains_key(k)),
        forall|k: int| 0 <= k < upto && ids1.contains_key(k) ==> ids1[k] == ids2[k],
    ensures
        planned_rows(areas, ids1, issued_id, upto) == planned_rows(areas, ids2, issued_id, upto),
    decreases upto,
{
    if upto > 0 {
        lemma_planned_agree(areas, ids1, ids2, issued_id, upto - 1);
    }
}

impl WeatherScrape {
    /// Starts storing `data` under the province `parent_region_id`; the first
    /// action looks up whether its issue is already stored.
    pub fn new(data: ForecastData, parent_region_id: i32) -> (res: (WeatherScrape, ScrapeAction))
        ensures
            res.0.inv(),
            res.0.data() == data,
            res.0.parent_region_id() == parent_region_id,
            res.0.phase() == ScrapePhase::CheckingIssued,
            res.0.stored() == Seq::<PredictionRowView>::empty(),
            res.1@ == ScrapeActionView::FindIssued(spec_issued_key(data.forecast.issue)),
    {
        let key = issued_key(&data.forecast.issue);
        let machine = WeatherScrape {
            data,
            parent_region_id,
            phase: ScrapePhase::CheckingIssued,
            already_stored: false,
            issued_id: 0,
            cursor: 0,
            region_ids: Ghost(Map::empty()),
            stored: Ghost(Seq::empty()),
        };
        (machine, ScrapeAction::FindIssued(key))
    }

    /// Whether every step is taken: nothing is left to do.
    pub fn is_finished(&self) -> (res: bool)
        ensures
            res == self.finished(),
    {
        match self.phase {
            ScrapePhase::Finished => true,
            _ => false,
        }
    }

    /// Whether `event` is the answer the machine waits for.
    pub fn accepts(&self, event: &ScrapeEvent) -> (res: bool)
        ensures
            res == self.expects(*event),
    {
        match (self.phase, event) {
            (ScrapePhase::CheckingIssued, ScrapeEvent::IssuedLookup(_)) => true,
            (ScrapePhase::SavingIssued, ScrapeEvent::IssuedSaved(_)) => true,
            (ScrapePhase::LookingUpRegion, ScrapeEvent::RegionLookup(_)) => true,
            (ScrapePhase::CreatingRegion, ScrapeEvent::RegionCreated(_)) => true,
            (ScrapePhase::SavingPredictions, ScrapeEvent::PredictionsSaved) => true,
            _ => false,
        }
    }

    fn next_area_from(&self, from: usize) -> (res: usize)
        requires
            from <= self.areas().len(),
        ensures
            res == next_area(self.areas(), from as int),
    {
        let areas = &self.data.forecast.area;
        let n = areas.len();
        let mut j = from;
        while j < n && areas[j].parameter.is_none()
            invariant
                n == areas@.len(),
                from <= j <= n,
                next_area(areas@, from as int) == next_area(areas@, j as int),
            decreases n - j,
        {
            j = j + 1;
        }
        j
    }

    /// Moves to area `j` (the next one with parameters) with everything
    /// before it done: asks for its region, or finishes after the last area.
    fn enter_area(&mut self, j: usize) -> (action: ScrapeAction)
        requires
            j <= old(self).areas().len(),
            j < old(self).areas().len() ==> old(self).areas()[j as int].parameter is Some,
            !old(self).already_stored(),
            forall|k: int| #[trigger] old(self).region_ids().contains_key(k) ==> 0 <= k < j
                && old(self).areas()[k].parameter is Some,
            old(self).stored() == planned_rows(
                old(self).areas(),
                old(self).region_ids(),
                old(self).issued_id(),
                j as int,
            ),
        ensures
            final(self).inv(),
            final(self).enters_area(j as int, action@),
            final(self).data() == old(self).data(),
            final(self).parent_region_id() == old(self).parent_region_id(),
            final(self).issued_id() == old(self).issued_id(),
            final(self).region_ids() == old(self).region_ids(),
            final(self).stored() == old(self).stored(),
            final(self).already_stored() == old(self).already_stored(),
    {
        if j == self.data.forecast.area.len() {
            self.phase = ScrapePhase::Finished;
            self.cursor = j;
            ScrapeAction::Finish
        } else {
            self.phase = ScrapePhase::LookingUpRegion;
            self.cursor = j;
            ScrapeAction::FindRegion(self.data.forecast.area[j].id.clone())
        }
    }

    /// Takes the answer to the last action and returns the next action.
    pub fn step(&mut self, event: ScrapeEvent) -> (action: ScrapeAction)
        requires
            old(self).inv(),
            old(self).expects(event),
        ensures
            final(self).inv(),
            WeatherScrape::transition(*old(self), event, *final(self), action@),
            final(self).data() == old(self).data(),
            final(self).parent_region_id() == old(self).parent_region_id(),
            final(self).stored() == old(self).stored() + action_rows(action@),
            final(self).progress() < old(self).progress(),
    {
        let ghost before = *self;
        let n = self.data.forecast.area.len();
        match event {
            ScrapeEvent::IssuedLookup(exists) => {
                if exists {
                    self.phase = ScrapePhase::Finished;
                    self.already_stored = true;
                    assert(self.stored() =~= before.stored() + action_rows(ScrapeActionView::Finish));
                    ScrapeAction::Finish
                } else {
                    self.phase = ScrapePhase::SavingIssued;
                    let issued = new_issued(&self.data);
                    assert(self.stored() =~= before.stored() + Seq::<PredictionRowView>::empty());
                    ScrapeAction::SaveIssued(issued)
                }
            },
            ScrapeEvent::IssuedSaved(id) => {
                self.issued_id = id;
                let j = self.next_area_from(0);
                proof {
                    lemma_next_area(self.areas(), 0);
                    lemma_planned_skip(self.areas(), self.region_ids(), id, 0, j as int);
                    assert(planned_rows(self.areas(), self.region_ids(), id, 0) =~= Seq::<PredictionRowView>::empty());
                }
                let action = self.enter_area(j);
                assert(self.stored() =~= before.stored() + action_rows(action@));
                action
            },
            ScrapeEvent::RegionLookup(Some(region_id)) | ScrapeEvent::RegionCreated(Some(region_id)) => {
                let c = self.cursor;
                let rows = prediction_rows(&self.data.forecast.area[c], region_id, self.issued_id);
                proof {
                    let areas = self.areas();
                    let ids = self.region_ids();
                    let new_ids = ids.insert(c as int, region_id);
                    lemma_planned_agree(areas, ids, new_ids, self.issued_id(), c as int);
                    assert(planned_rows(areas, new_ids, self.issued_id(), c + 1)
                        =~= planned_rows(areas, ids, self.issued_id(), c as int) + rows_view(rows@));
                }
                self.region_ids = Ghost(self.region_ids@.insert(c as int, region_id));
                self.stored = Ghost(self.stored@ + rows_view(rows@));
                self.phase = ScrapePhase::SavingPredictions;
                ScrapeAction::SavePredictions(rows)
            },
            ScrapeEvent::RegionLookup(None) => {
                let region = new_region(&self.data.forecast.area[self.cursor], self.parent_region_id);
                self.phase = ScrapePhase::CreatingRegion;
                assert(self.stored() =~= before.stored() + Seq::<PredictionRowView>::empty());
                ScrapeAction::CreateRegion(region)
            },
            ScrapeEvent::RegionCreated(None) | ScrapeEvent::PredictionsSaved => {
                let from = self.cursor + 1;
                let j = self.next_area_from(from);
                proof {
                    lemma_next_area(self.areas(), from as int);
                    lemma_planned_skip(self.areas(), self.region_ids(), self.issued_id(), from as int, j as int);
                    if before.phase() == ScrapePhase::CreatingRegion {
                        assert(!self.region_ids().contains_key(self.cursor()));
                        lemma_planned_skip(self.areas(), self.region_ids(), self.issued_id(), self.cursor(), from as int);
                    }
                }
                let action = self.enter_area(j);
                assert(self.stored() =~= before.stored() + action_rows(action@));
                action
            },
        }
    }
}

/// A run that did not find its forecast stored already ends having handed
/// out, in document order, every prediction of every area whose region was
/// resolved.
pub proof fn lemma_finished_run_stores_plan(run: WeatherScrape)
    requires
        run.inv(),
        run.finished(),
        !run.already_stored(),
    ensures
        run.stored() == planned_rows(run.areas(), run.region_ids(), run.issued_id(), run.areas().len() as int),
        forall|k: int| #[trigger] run.region_ids().contains_key(k) ==> 0 <= k < run.areas().len()
            && run.areas()[k].parameter is Some,
{
}

/// A step asks to create a region only when the machine was waiting for the
/// lookup of the current area's region and that lookup found none; the
/// region to create carries the current area's code.
pub proof fn lemma_region_created_only_after_failed_lookup(
    before: WeatherScrape,
    event: ScrapeEvent,
    after: WeatherScrape,
    action: ScrapeActionView,
)
    requires
        before.inv(),
        before.expects(event),
        WeatherScrape::transition(before, event, after, action),
        action is CreateRegion,
    ensures
        before.phase() == ScrapePhase::LookingUpRegion,
        event == ScrapeEvent::RegionLookup(None),
        action->CreateRegion_0.code == before.areas()[before.cursor()].id@,
        after.phase() == ScrapePhase::CreatingRegion,
        after.cursor() == before.cursor(),
{
}

/// When the lookup of an area's region finds it, the step reuses that
/// region's id for the area's predictions and creates no region.
pub proof fn lemma_found_region_is_reused(
    before: WeatherScrape,
    region_id: i32,
    after: WeatherScrape,
    action: ScrapeActionView,
)
    requires
        before.inv(),
        before.expects(ScrapeEvent::RegionLookup(Some(region_id))),
        WeatherScrape::transition(before, ScrapeEvent::RegionLookup(Some(region_id)), after, action),
    ensures
        action == ScrapeActionView::SavePredictions(
            area_rows(before.areas()[before.cursor()], region_id, before.issued_id()),
        ),
        !(action is CreateRegion),
        after.region_ids() == before.region_ids().insert(before.cursor(), region_id),
{
}

/// Over two steps: a region is created only for the code that the step
/// before asked to look up, and only when that lookup found nothing.
pub proof fn lemma_region_created_for_code_just_looked_up(
    s0: WeatherScrape,
    e0: ScrapeEvent,
    s1: WeatherScrape,
    a0: ScrapeActionView,
    e1: ScrapeEvent,
    s2: WeatherScrape,
    a1: ScrapeActionView,
)
    requires
        s0.inv(),
        s0.expects(e0),
        WeatherScrape::transition(s0, e0, s1, a0),
        s1.inv(),
        s1.expects(e1),
        WeatherScrape::transition(s1, e1, s2, a1),
        a1 is CreateRegion,
    ensures
        a0 == ScrapeActionView::FindRegion(a1->CreateRegion_0.code),
        e1 == ScrapeEvent::RegionLookup(None),
{
    lemma_region_created_only_after_failed_lookup(s1, e1, s2, a1);
}

/// Region codes stay distinct: when the stored codes are pairwise distinct
/// and the database answered the lookup before a creation truthfully (no
/// stored region has the looked-up code), the created region's code is new,
/// so the stored codes stay pairwise distinct once it is added.
pub proof fn lemma_created_region_keeps_codes_distinct(
    s0: WeatherScrape,
    e0: ScrapeEvent,
    s1: WeatherScrape,
    a0: ScrapeActionView,
    e1: ScrapeEvent,
    s2: WeatherScrape,
    a1: ScrapeActionView,
    stored_codes: Seq<Seq<char>>,
)
    requires
        s0.inv(),
        s0.expects(e0),
        WeatherScrape::transition(s0, e0, s1, a0),
        s1.inv(),
        s1.expects(e1),
        WeatherScrape::transition(s1, e1, s2, a1),
        a1 is CreateRegion,
        stored_codes.no_duplicates(),
        forall|code: Seq<char>| a0 == ScrapeActionView::FindRegion(code) && e1
            == ScrapeEvent::RegionLookup(None) ==> !stored_codes.contains(code),
    ensures
        !stored_codes.contains(a1->CreateRegion_0.code),
        stored_codes.push(a1->CreateRegion_0.code).no_duplicates(),
{
    lemma_region_created_for_code_just_looked_up(s0, e0, s1, a0, e1, s2, a1);
    let code = a1->CreateRegion_0.code;
    assert(!stored_codes.contains(code));
    let pushed = stored_codes.push(code);
    assert forall|i: int, j: int| 0 <= i < pushed.len() && 0 <= j < pushed.len() && i != j
        implies pushed[i] != pushed[j] by {
        if i == stored_codes.len() as int {
            assert(stored_codes[j] == pushed[j]);
        } else if j == stored_codes.len() as int {
            assert(stored_codes[i] == pushed[i]);
        }
    }
}

/// A forecast whose issue is already stored stores nothing.
pub proof fn lemma_stored_issue_stores_nothing(run: WeatherScrape)
    requires
        run.inv(),
        run.already_stored(),
    ensures
        run.finished(),
        run.stored() == Seq::<PredictionRowView>::empty(),
        run.region_ids().dom().is_empty(),
{
    assert(planned_rows(run.areas(), run.region_ids(), run.issued_id(), 0) =~= Seq::<PredictionRowView>::empty());
}

/// An unfinished machine always has a step to take, and only a finished one
/// has no steps left: the caller's loop ends.
pub proof fn lemma_progress_zero_iff_finished(run: WeatherScrape)
    requires
        run.inv(),
    ensures
        run.finished() <==> run.progress() == 0,
        !run.finished() ==> exists|e: ScrapeEvent| run.expects(e),
{
    if !run.finished() {
        match run.phase() {
            ScrapePhase::CheckingIssued => assert(run.expects(ScrapeEvent::IssuedLookup(false))),
            ScrapePhase::SavingIssued => assert(run.expects(ScrapeEvent::IssuedSaved(0))),
            ScrapePhase::LookingUpRegion => assert(run.expects(ScrapeEvent::RegionLookup(None))),
            ScrapePhase::CreatingRegion => assert(run.expects(ScrapeEvent::RegionCreated(None))),
            ScrapePhase::SavingPredictions => assert(run.expects(ScrapeEvent::PredictionsSaved)),
            ScrapePhase::Finished => {},
        }
    }
}

} // verus!
