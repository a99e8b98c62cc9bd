use std::collections::HashMap;
use vstd::prelude::*;
use vstd::std_specs::hash::spec_hash_map_iter;
use vstd::std_specs::iter::IteratorSpec;

use crate::satellite::{uuid_text, uuid_to_string, Satellite, SatelliteStatus, SatelliteView};
use crate::text::{concat2, owned};

verus! {

broadcast use {vstd::std_specs::hash::group_hash_axioms, vstd::string::group_string_axioms};

/// Why a satellite operation or a position calculation failed.
#[derive(Debug)]
pub enum SatelliteServiceError {
    NoActiveSatellites,
    /// The airport service could not be reached; holds the transport error's text.
    AirportFetchError(String),
    AirportNotFound(String),
    InvalidSatelliteId(String),
}

/// The text of an error, as its `Display` reads.
pub open spec fn error_text(e: SatelliteServiceError) -> Seq<char> {
    match e {
        SatelliteServiceError::NoActiveSatellites => "No active satellites available"@,
        SatelliteServiceError::AirportFetchError(m) => "Failed to fetch airport data: "@ + m@,
        SatelliteServiceError::AirportNotFound(c) => "Airport not found: "@ + c@,
        SatelliteServiceError::InvalidSatelliteId(i) => "Invalid satellite ID: "@ + i@,
    }
}

impl SatelliteServiceError {
    /// The text of the error.
    pub fn message(&self) -> (r: String)
        ensures
            r@ == error_text(*self),
    {
        match self {
            SatelliteServiceError::NoActiveSatellites => owned("No active satellites available"),
            SatelliteServiceError::AirportFetchError(m) => concat2(
                "Failed to fetch airport data: ",
                m.as_str(),
            ),
            SatelliteServiceError::AirportNotFound(c) => concat2("Airport not found: ", c.as_str()),
            SatelliteServiceError::InvalidSatelliteId(i) => concat2(
                "Invalid satellite ID: ",
                i.as_str(),
            ),
        }
    }
}

/// The satellites a registry holds, each under its own id.
pub open spec fn keyed_by_id(m: Map<u128, SatelliteView>) -> bool {
    forall|k: u128| #[trigger] m.contains_key(k) ==> m[k].id == k
}

/// `v` lists every satellite of `m` exactly once.
pub open spec fn lists_exactly(v: Seq<Satellite>, m: Map<u128, SatelliteView>) -> bool {
    &&& forall|i: int| 0 <= i < v.len() ==> m.contains_key(#[trigger] v[i].id) && m[v[i].id] == v[i]@
    &&& forall|i: int, j: int| 0 <= i < j < v.len() ==> v[i].id != v[j].id
    &&& forall|k: u128| #[trigger] m.contains_key(k) ==> exists|i: int| 0 <= i < v.len() && v[i].id == k
}

/// `v` lists every active satellite of `m` exactly once, and nothing else.
pub open spec fn lists_active(v: Seq<Satellite>, m: Map<u128, SatelliteView>) -> bool {
    &&& forall|i: int|
        0 <= i < v.len() ==> m.contains_key(#[trigger] v[i].id) && m[v[i].id] == v[i]@ && v[i].status
            == SatelliteStatus::Active
    &&& forall|i: int, j: int| 0 <= i < j < v.len() ==> v[i].id != v[j].id
    &&& forall|k: u128|
        #[trigger] m.contains_key(k) && m[k].status == SatelliteStatus::Active ==> exists|i: int|
            0 <= i < v.len() && v[i].id == k
}

/// `m` with the satellite under `id` set to `status`.
pub open spec fn with_status(m: Map<u128, SatelliteView>, id: u128, status: SatelliteStatus) -> Map<
    u128,
    SatelliteView,
> {
    m.insert(id, SatelliteView { status, ..m[id] })
}

/// The registry of satellites and the address of the airport service it consults.
#[derive(Debug)]
pub struct SatelliteService {
    satellites: HashMap<u128, Satellite>,
    airport_service_url: String,
}

impl View for SatelliteService {
    type V = Map<u128, SatelliteView>;

    closed spec fn view(&self) -> Map<u128, SatelliteView> {
        self.satellites@.map_values(|s: Satellite| s@)
    }
}

impl SatelliteService {
    /// The registry's own consistency: every satellite is stored under its id.
    #[verifier::type_invariant]
    spec fn wf(self) -> bool {
        forall|k: u128| #[trigger] self.satellites@.contains_key(k) ==> self.satellites@[k].id == k
    }

    /// The address of the airport service.
    pub closed spec fn airport_url(&self) -> Seq<char> {
        self.airport_service_url@
    }

    proof fn lemma_view(&self)
        requires
            self.wf(),
        ensures
            keyed_by_id(self@),
            self@.dom() == self.satellites@.dom(),
            forall|k: u128| #[trigger] self@.contains_key(k) ==> self@[k] == self.satellites@[k]@,
    {
    }

    /// An empty registry that will consult the airport service at `airport_service_url`.
    pub fn new(airport_service_url: String) -> (s: Self)
        ensures
            s@ == Map::<u128, SatelliteView>::empty(),
            s.airport_url() == airport_service_url@,
    {
        let s = SatelliteService { satellites: HashMap::new(), airport_service_url };
        assert(s@ =~= Map::<u128, SatelliteView>::empty());
        s
    }

    /// The address of the airport service.
    pub fn airport_service_url(&self) -> (r: &str)
        ensures
            r@ == self.airport_url(),
    {
        self.airport_service_url.as_str()
    }

    /// Registers a new satellite under a fresh id; it starts out inactive. This never fails.
    pub fn create_satellite(&mut self, name: String) -> (r: Result<Satellite, SatelliteServiceError>)
        ensures
            final(self).airport_url() == old(self).airport_url(),
            r is Ok,
            r matches Ok(s) ==> {
                &&& s.name@ == name@
                &&& s.status == SatelliteStatus::Inactive
                &&& final(self)@ == old(self)@.insert(s.id, s@)
            },
    {
        proof {
            use_type_invariant(&*self);
        }
        let satellite = Satellite::new(name);
        let copy = satellite.clone();
        let mut satellites: HashMap<u128, Satellite> = HashMap::new();
        std::mem::swap(&mut satellites, &mut self.satellites);
        satellites.insert(satellite.id, satellite);
        self.satellites = satellites;
        assert(self@ =~= old(self)@.insert(copy.id, copy@));
        Ok(copy)
    }

    /// Sets the status of the satellite with the given id, and returns the updated satellite.
    pub fn update_satellite_status(&mut self, id: u128, status: SatelliteStatus) -> (r: Result<
        Satellite,
        SatelliteServiceError,
    >)
        ensures
            final(self).airport_url() == old(self).airport_url(),
            old(self)@.contains_key(id) ==> {
                &&& r matches Ok(s) && s@ == SatelliteView { status, ..old(self)@[id] }
                &&& final(self)@ == with_status(old(self)@, id, status)
            },
            !old(self)@.contains_key(id) ==> {
                &&& r matches Err(SatelliteServiceError::InvalidSatelliteId(t)) && t@ == uuid_text(id)
                &&& final(self)@ == old(self)@
            },
    {
        proof {
            use_type_invariant(&*self);
            self.lemma_view();
        }
        match self.satellites.get(&id) {
            Some(found) => {
                let updated = Satellite { id: found.id, name: found.name.clone(), status };
                let copy = updated.clone();
                let mut satellites: HashMap<u128, Satellite> = HashMap::new();
                std::mem::swap(&mut satellites, &mut self.satellites);
                satellites.insert(id, updated);
                self.satellites = satellites;
                assert(self@ =~= with_status(old(self)@, id, status));
                Ok(copy)
            },
            None => Err(SatelliteServiceError::InvalidSatelliteId(uuid_to_string(id))),
        }
    }

    /// Sets the status of the satellite with the given id; `None` when there is no such satellite.
    pub fn update_status(&mut self, id: u128, status: SatelliteStatus) -> (r: Option<Satellite>)
        ensures
            final(self).airport_url() == old(self).airport_url(),
            old(self)@.contains_key(id) ==> {
                &&& r matches Some(s) && s@ == SatelliteView { status, ..old(self)@[id] }
                &&& final(self)@ == with_status(old(self)@, id, status)
            },
            !old(self)@.contains_key(id) ==> r is None && final(self)@ == old(self)@,
    {
        match self.update_satellite_status(id, status) {
            Ok(s) => Some(s),
            Err(_) => None,
        }
    }

    /// The satellite with the given id, if any.
    pub fn get_satellite(&self, id: u128) -> (r: Option<Satellite>)
        ensures
            self@.contains_key(id) ==> (r matches Some(s) && s@ == self@[id]),
            !self@.contains_key(id) ==> r is None,
    {
        proof {
            use_type_invariant(self);
            self.lemma_view();
        }
        match self.satellites.get(&id) {
            Some(s) => Some(s.clone()),
            None => None,
        }
    }

    /// Every registered satellite, each once, in the order the map hands them out.
    pub fn list_satellites(&self) -> (r: Vec<Satellite>)
        ensures
            lists_exactly(r@, self@),
            r@.len() == self@.dom().len(),
    {
        proof {
            use_type_invariant(self);
            self.lemma_view();
        }
        let mut out: Vec<Satellite> = Vec::new();
        for (k, v) in it: self.satellites.iter()
            invariant
                it.seq() == spec_hash_map_iter(&self.satellites).remaining(),
                it.seq().no_duplicates(),
                out@.len() == it.index(),
                forall|i: int| 0 <= i < it.index() ==> #[trigger] out@[i] == *it.seq()[i].1,
        {
            out.push(v.clone());
        }
        proof {
            let seq = spec_hash_map_iter(&self.satellites).remaining();
            let m = self.satellites@;
            assert(seq.len() == m.dom().len());
            assert forall|i: int| 0 <= i < out@.len() implies self@.contains_key(
                #[trigger] out@[i].id,
            ) && self@[out@[i].id] == out@[i]@ && out@[i].id == *seq[i].0 by {
                assert(m.contains_key(*seq[i].0) && m[*seq[i].0] == *seq[i].1);
            }
            assert forall|i: int, j: int| 0 <= i < j < out@.len() implies out@[i].id
                != out@[j].id by {
                assert(m.contains_key(*seq[i].0) && m[*seq[i].0] == *seq[i].1);
                assert(m.contains_key(*seq[j].0) && m[*seq[j].0] == *seq[j].1);
                assert(out@[i].id == *seq[i].0);
                assert(out@[j].id == *seq[j].0);
                if *seq[i].0 == *seq[j].0 {
                    assert(seq[i] == seq[j]);
                }
            }
            assert forall|k: u128| #[trigger] self@.contains_key(k) implies exists|i: int|
                0 <= i < out@.len() && out@[i].id == k by {
                assert(seq.contains((&k, &m[k])));
                let i = choose|i: int| 0 <= i < seq.len() && seq[i] == (&k, &m[k]);
                assert(out@[i] == m[k]);
            }
        }
        out
    }

    /// Every active satellite, each once, in the order the map hands them out.
    pub fn active_satellites(&self) -> (r: Vec<Satellite>)
        ensures
            lists_active(r@, self@),
    {
        let all = self.list_satellites();
        let mut out: Vec<Satellite> = Vec::new();
        let ghost mut picked: Seq<int> = Seq::empty();
        let mut i: usize = 0;
        while i < all.len()
            invariant
                lists_exactly(all@, self@),
                i <= all.len(),
                picked.len() == out@.len(),
                forall|j: int| 0 <= j < out@.len() ==> 0 <= #[trigger] picked[j] < i && out@[j] == all@[picked[j]],
                forall|j: int, l: int| 0 <= j < l < out@.len() ==> picked[j] < picked[l],
                forall|j: int| 0 <= j < out@.len() ==> out@[j].status == SatelliteStatus::Active,
                forall|q: int| 0 <= q < i && all@[q].status == SatelliteStatus::Active ==> exists|j: int|
                    0 <= j < out@.len() && #[trigger] picked[j] == q,
            decreases all.len() - i,
        {
            let ghost old_picked = picked;
            let ghost old_len = out@.len();
            if all[i].is_active() {
                out.push(all[i].clone());
                proof {
                    picked = picked.push(i as int);
                    assert(picked[old_len as int] == i as int);
                }
            }
            proof {
                assert forall|q: int| 0 <= q < i + 1 && all@[q].status == SatelliteStatus::Active implies exists|j: int|
                    0 <= j < out@.len() && #[trigger] picked[j] == q by {
                    if q < i {
                        let j = choose|j: int| 0 <= j < old_len && #[trigger] old_picked[j] == q;
                        assert(picked[j] == old_picked[j]);
                    } else {
                        assert(picked[old_len as int] == q);
                    }
                }
            }
            i = i + 1;
        }
        proof {
            assert forall|j: int| 0 <= j < out@.len() implies self@.contains_key(#[trigger] out@[j].id)
                && self@[out@[j].id] == out@[j]@ by {
                let q = picked[j];
                assert(out@[j] == all@[q]);
                assert(self@.contains_key(all@[q].id));
            }
            assert forall|j: int, l: int| 0 <= j < l < out@.len() implies out@[j].id != out@[l].id by {
                assert(picked[j] < picked[l]);
            }
            assert forall|k: u128| #[trigger] self@.contains_key(k) && self@[k].status
                == SatelliteStatus::Active implies exists|j: int| 0 <= j < out@.len() && out@[j].id == k by {
                let q = choose|q: int| 0 <= q < all@.len() && all@[q].id == k;
                let j = choose|j: int| 0 <= j < out@.len() && #[trigger] picked[j] == q;
                assert(out@[j] == all@[q]);
            }
        }
        out
    }

    /// The active satellites that a position calculation will use; fails with
    /// `NoActiveSatellites` exactly when no satellite is active.
    pub fn tracking_satellites(&self) -> (r: Result<Vec<Satellite>, SatelliteServiceError>)
        ensures
            (exists|k: u128| #[trigger] self@.contains_key(k) && self@[k].status == SatelliteStatus::Active)
                ==> (r matches Ok(v) && lists_active(v@, self@) && v@.len() > 0),
            !(exists|k: u128| #[trigger] self@.contains_key(k) && self@[k].status == SatelliteStatus::Active)
                ==> (r matches Err(SatelliteServiceError::NoActiveSatellites)),
    {
        let active = self.active_satellites();
        if active.len() == 0 {
            proof {
                assert forall|k: u128| #[trigger] self@.contains_key(k) implies self@[k].status
                    != SatelliteStatus::Active by {
                    if self@[k].status == SatelliteStatus::Active {
                        let j = choose|j: int| 0 <= j < active@.len() && active@[j].id == k;
                    }
                }
            }
            Err(SatelliteServiceError::NoActiveSatellites)
        } else {
            proof {
                let k = active@[0].id;
                assert(self@.contains_key(k) && self@[k].status == SatelliteStatus::Active);
            }
            Ok(active)
        }
    }
}

} // verus!
