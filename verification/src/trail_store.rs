//! The trails of all aircraft seen so far, one per transponder id.
//!
//! A trail is created when its aircraft is first seen and lives until it is
//! cleared: an aircraft that stops reporting keeps its trail.

use crate::aircraft::{
    lemma_append_to_most_recent, spec_appended, spec_most_recent, AircraftTrail, TrailModel,
    TrailPoint,
};
use crate::geo::GeoPosition;
use vstd::prelude::*;

verus! {

/// The ids of the trails, in the order in which the trails were created.
pub open spec fn spec_ids(trails: Seq<TrailModel>) -> Seq<Seq<char>> {
    trails.map_values(|t: TrailModel| t.id)
}

/// Where the trail of `id` stands among `trails`, if it is there.
pub open spec fn spec_find(trails: Seq<TrailModel>, id: Seq<char>) -> Option<int> {
    spec_ids(trails).index_of_first(id)
}

/// The positions recorded for `id`, oldest first; none if it has no trail.
pub open spec fn spec_get(trails: Seq<TrailModel>, id: Seq<char>) -> Seq<TrailPoint> {
    match spec_find(trails, id) {
        Some(i) => trails[i].points,
        None => Seq::empty(),
    }
}

/// `trails` after `id` reports `entry`: its trail takes the entry in, within
/// the bound that the trail was created with; an id seen for the first time
/// gets a new trail, bounded by `max_points`, behind all others.
pub open spec fn spec_updated(
    trails: Seq<TrailModel>,
    id: Seq<char>,
    entry: TrailPoint,
    max_points: nat,
) -> Seq<TrailModel> {
    match spec_find(trails, id) {
        Some(i) => trails.update(
            i,
            TrailModel {
                id,
                points: spec_appended(trails[i].points, entry, trails[i].max_points),
                max_points: trails[i].max_points,
            },
        ),
        None => trails.push(
            TrailModel { id, points: spec_appended(Seq::empty(), entry, max_points), max_points },
        ),
    }
}

/// `trails` without the trail of `id`.
pub open spec fn spec_cleared(trails: Seq<TrailModel>, id: Seq<char>) -> Seq<TrailModel> {
    match spec_find(trails, id) {
        Some(i) => trails.remove(i),
        None => trails,
    }
}

/// Whether no two trails share an id and every trail is within its bound.
pub open spec fn spec_well_formed(trails: Seq<TrailModel>) -> bool {
    &&& spec_ids(trails).no_duplicates()
    &&& forall|i: int|
        0 <= i < trails.len() ==> (#[trigger] trails[i]).points.len() <= trails[i].max_points
}

/// The bound that holds for the trail of `id`: the one its trail was
/// created with, or `max_points` if it has no trail yet.
pub open spec fn spec_bound(trails: Seq<TrailModel>, id: Seq<char>, max_points: nat) -> nat {
    match spec_find(trails, id) {
        Some(i) => trails[i].max_points,
        None => max_points,
    }
}

/// `trails` after `id` reports the `entries` one by one, oldest first.
pub open spec fn spec_updated_all(
    trails: Seq<TrailModel>,
    id: Seq<char>,
    entries: Seq<TrailPoint>,
    max_points: nat,
) -> Seq<TrailModel> {
    entries.fold_left(
        trails,
        |held: Seq<TrailModel>, entry: TrailPoint| spec_updated(held, id, entry, max_points),
    )
}

/// Taking in a report keeps the trails well formed: ids stay distinct, and
/// no trail grows beyond its bound. The reporting aircraft has a trail
/// afterwards, under the bound that held for it before.
pub proof fn lemma_update_keeps_well_formed(
    trails: Seq<TrailModel>,
    id: Seq<char>,
    entry: TrailPoint,
    max_points: nat,
)
    requires
        spec_well_formed(trails),
    ensures
        spec_well_formed(spec_updated(trails, id, entry, max_points)),
        spec_find(spec_updated(trails, id, entry, max_points), id) is Some,
        spec_bound(spec_updated(trails, id, entry, max_points), id, max_points) == spec_bound(
            trails,
            id,
            max_points,
        ),
{
    let after = spec_updated(trails, id, entry, max_points);
    spec_ids(trails).index_of_first_ensures(id);
    spec_ids(after).index_of_first_ensures(id);
    match spec_find(trails, id) {
        Some(i) => {
            assert(spec_ids(after) =~= spec_ids(trails));
        },
        None => {
            assert(spec_ids(after) =~= spec_ids(trails).push(id));
            assert(spec_ids(after)[trails.len() as int] == id);
            assert(spec_ids(after).contains(id));
            let k = spec_find(after, id)->0;
            if k < trails.len() {
                assert(spec_ids(trails)[k] == id);
                assert(spec_ids(trails).contains(id));
            }
        },
    }
}

/// A report changes the trail of its own aircraft only.
pub proof fn lemma_update_leaves_others(
    trails: Seq<TrailModel>,
    id: Seq<char>,
    entry: TrailPoint,
    max_points: nat,
    other: Seq<char>,
)
    requires
        spec_well_formed(trails),
        other != id,
    ensures
        spec_get(spec_updated(trails, id, entry, max_points), other) == spec_get(trails, other),
{
    let after = spec_updated(trails, id, entry, max_points);
    spec_ids(trails).index_of_first_ensures(id);
    spec_ids(trails).index_of_first_ensures(other);
    spec_ids(after).index_of_first_ensures(other);
    match spec_find(trails, id) {
        Some(i) => {
            assert(spec_ids(after) =~= spec_ids(trails));
        },
        None => {
            assert(spec_ids(after) =~= spec_ids(trails).push(id));
        },
    }
    match spec_find(after, other) {
        Some(k) => {
            assert(spec_ids(trails)[k] == other);
            assert(spec_ids(trails).contains(other));
        },
        None => {
            if spec_find(trails, other) is Some {
                let k = spec_find(trails, other)->0;
                assert(spec_ids(after)[k] == other);
                assert(spec_ids(after).contains(other));
            }
        },
    }
}

/// After a report the trail of its aircraft is what [`spec_appended`] makes
/// of its trail before, or of the empty trail if it had none.
pub proof fn lemma_update_extends_own(
    trails: Seq<TrailModel>,
    id: Seq<char>,
    entry: TrailPoint,
    max_points: nat,
)
    requires
        spec_well_formed(trails),
    ensures
        spec_get(spec_updated(trails, id, entry, max_points), id) == spec_appended(
            spec_get(trails, id),
            entry,
            spec_bound(trails, id, max_points),
        ),
{
    let after = spec_updated(trails, id, entry, max_points);
    spec_ids(trails).index_of_first_ensures(id);
    spec_ids(after).index_of_first_ensures(id);
    lemma_update_keeps_well_formed(trails, id, entry, max_points);
    match spec_find(trails, id) {
        Some(i) => {
            assert(spec_ids(after) =~= spec_ids(trails));
        },
        None => {
            assert(spec_ids(after) =~= spec_ids(trails).push(id));
            let k = spec_find(after, id)->0;
            if k < trails.len() {
                assert(spec_ids(trails)[k] == id);
                assert(spec_ids(trails).contains(id));
            }
        },
    }
}

/// However many reports an aircraft sends, its trail holds the most recent
/// of them, as many as its bound allows, in the order of arrival; and the
/// trails stay well formed.
pub proof fn lemma_store_keeps_most_recent(
    trails: Seq<TrailModel>,
    id: Seq<char>,
    entries: Seq<TrailPoint>,
    max_points: nat,
)
    requires
        spec_well_formed(trails),
    ensures
        spec_well_formed(spec_updated_all(trails, id, entries, max_points)),
        spec_bound(spec_updated_all(trails, id, entries, max_points), id, max_points)
            == spec_bound(trails, id, max_points),
        spec_get(spec_updated_all(trails, id, entries, max_points), id) == spec_most_recent(
            spec_get(trails, id) + entries,
            spec_bound(trails, id, max_points),
        ),
    decreases entries.len(),
{
    let bound = spec_bound(trails, id, max_points);
    if entries.len() == 0 {
        assert(spec_get(trails, id) + entries =~= spec_get(trails, id));
        spec_ids(trails).index_of_first_ensures(id);
    } else {
        let earlier = entries.drop_last();
        let held = spec_updated_all(trails, id, earlier, max_points);
        lemma_store_keeps_most_recent(trails, id, earlier, max_points);
        lemma_update_keeps_well_formed(held, id, entries.last(), max_points);
        lemma_update_extends_own(held, id, entries.last(), max_points);
        assert(spec_get(trails, id) + entries =~= (spec_get(trails, id) + earlier).push(
            entries.last(),
        ));
        lemma_append_to_most_recent(spec_get(trails, id) + earlier, entries.last(), bound);
    }
}

/// The bounded position histories of all aircraft, keyed by transponder id.
#[derive(Debug)]
pub struct TrailStore {
    trails: Vec<AircraftTrail>,
}

impl View for TrailStore {
    type V = Seq<TrailModel>;

    closed spec fn view(&self) -> Seq<TrailModel> {
        self.trails@.map_values(|t: AircraftTrail| t@)
    }
}

impl TrailStore {
    #[verifier::type_invariant]
    pub closed spec fn inv(self) -> bool {
        spec_well_formed(self@)
    }

    /// Every store holds at most one trail per id, each within its bound.
    pub proof fn lemma_well_formed(self)
        requires
            self.inv(),
        ensures
            spec_well_formed(self@),
    {
    }

    /// A store without trails.
    pub fn new() -> (store: TrailStore)
        ensures
            store@ == Seq::<TrailModel>::empty(),
    {
        let store = TrailStore { trails: Vec::new() };
        assert(store@ =~= Seq::<TrailModel>::empty());
        store
    }

    /// The number of trails.
    pub fn len(&self) -> (n: usize)
        ensures
            n == self@.len(),
    {
        self.trails.len()
    }

    /// The trails, in the order in which they were created.
    pub fn trails(&self) -> (trails: &Vec<AircraftTrail>)
        ensures
            trails@.map_values(|t: AircraftTrail| t@) == self@,
            spec_well_formed(self@),
    {
        proof {
            use_type_invariant(self);
        }
        &self.trails
    }

    /// Where the trail of `icao24` stands, if there is one.
    fn find(&self, icao24: &String) -> (found: Option<usize>)
        ensures
            match found {
                Some(i) => spec_find(self@, icao24@) == Some(i as int) && i < self.trails@.len(),
                None => spec_find(self@, icao24@) is None,
            },
    {
        let ghost ids = spec_ids(self@);
        let mut i: usize = 0;
        while i < self.trails.len()
            invariant
                i <= self.trails@.len(),
                ids == spec_ids(self@),
                ids.len() == self.trails@.len(),
                forall|j: int| 0 <= j < i ==> ids[j] != icao24@,
                forall|j: int| 0 <= j < ids.len() ==> ids[j] == self.trails@[j].icao24@,
            decreases self.trails@.len() - i,
        {
            if self.trails[i].icao24 == *icao24 {
                proof {
                    assert(ids[i as int] == icao24@);
                    assert(ids.contains(icao24@));
                    ids.index_of_first_ensures(icao24@);
                }
                return Some(i);
            }
            i = i + 1;
        }
        proof {
            ids.index_of_first_ensures(icao24@);
        }
        None
    }

    /// Move the trails out, leaving the store empty.
    fn take_trails(&mut self) -> (trails: Vec<AircraftTrail>)
        ensures
            trails == old(self).trails,
            final(self).trails@.len() == 0,
            spec_well_formed(trails@.map_values(|t: AircraftTrail| t@)),
    {
        proof {
            use_type_invariant(&*self);
        }
        let mut trails: Vec<AircraftTrail> = Vec::new();
        assert(trails@.map_values(|t: AircraftTrail| t@) =~= Seq::<TrailModel>::empty());
        core::mem::swap(&mut self.trails, &mut trails);
        trails
    }

    /// Record that the aircraft `icao24` was at `position` at `timestamp`.
    /// Its trail is created if this is the first report, bounded by
    /// `max_points`; an existing trail keeps the bound it was created with.
    pub fn update(
        &mut self,
        icao24: &String,
        position: GeoPosition,
        timestamp: i64,
        max_points: usize,
    )
        ensures
            final(self)@ == spec_updated(
                old(self)@,
                icao24@,
                (position, timestamp),
                max_points as nat,
            ),
    {
        let found = self.find(icao24);
        let mut trails = self.take_trails();
        let ghost before = trails@.map_values(|t: AircraftTrail| t@);
        let ghost after = spec_updated(before, icao24@, (position, timestamp), max_points as nat);
        match found {
            Some(i) => {
                let ghost held = trails@;
                trails[i].add_position(position, timestamp);
                proof {
                    spec_ids(before).index_of_first_ensures(icao24@);
                    assert(spec_ids(before)[i as int] == held[i as int].icao24@);
                }
                assert(trails@.map_values(|t: AircraftTrail| t@) =~= after);
                assert(spec_ids(after) =~= spec_ids(before));
            },
            None => {
                let mut trail = AircraftTrail::new(icao24.clone(), max_points);
                trail.add_position(position, timestamp);
                trails.push(trail);
                assert(trails@.map_values(|t: AircraftTrail| t@) =~= after);
                proof {
                    spec_ids(before).index_of_first_ensures(icao24@);
                    assert(spec_ids(after) =~= spec_ids(before).push(icao24@));
                }
            },
        }
        self.trails = trails;
    }

    /// The positions recorded for `icao24`, oldest first; none if the
    /// aircraft has no trail.
    pub fn get(&self, icao24: &String) -> (points: Vec<TrailPoint>)
        ensures
            points@ == spec_get(self@, icao24@),
    {
        let mut points: Vec<TrailPoint> = Vec::new();
        match self.find(icao24) {
            Some(i) => {
                let trail = &self.trails[i];
                let mut k: usize = 0;
                while k < trail.positions.len()
                    invariant
                        k <= trail.positions@.len(),
                        points@ == trail.positions@.take(k as int),
                    decreases trail.positions@.len() - k,
                {
                    points.push(trail.positions[k]);
                    assert(points@ =~= trail.positions@.take(k as int + 1));
                    k = k + 1;
                }
                assert(points@ =~= trail.positions@);
            },
            None => {},
        }
        points
    }

    /// Drop the trail of `icao24`, if there is one.
    pub fn clear(&mut self, icao24: &String)
        ensures
            final(self)@ == spec_cleared(old(self)@, icao24@),
    {
        let found = self.find(icao24);
        let mut trails = self.take_trails();
        let ghost before = trails@.map_values(|t: AircraftTrail| t@);
        match found {
            Some(i) => {
                trails.remove(i);
                assert(trails@.map_values(|t: AircraftTrail| t@) =~= before.remove(i as int));
                assert(spec_ids(before.remove(i as int)) =~= spec_ids(before).remove(i as int));
            },
            None => {},
        }
        self.trails = trails;
    }

    /// Drop every trail.
    pub fn clear_all(&mut self)
        ensures
            final(self)@ == Seq::<TrailModel>::empty(),
    {
        let trails: Vec<AircraftTrail> = Vec::new();
        assert(trails@.map_values(|t: AircraftTrail| t@) =~= Seq::<TrailModel>::empty());
        self.trails = trails;
    }
}

} // verus!
