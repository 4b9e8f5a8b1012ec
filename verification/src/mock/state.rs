//! Mutable state for the mock VATSIM server.
//!
//! [`MockState`] holds one list per section of the data feed, the Connect
//! users, the pending authorization codes and issued access tokens, and a
//! seed snapshot that a reset restores.

use vstd::prelude::*;

use crate::error::ParseErrorView;
use crate::mock::store::{
    get_entry, has_match, lookup, name_key_eq, remove_entries, upsert_entry, upserted,
    without_key, EntityKey, KeyView, Keyed,
};
use crate::text::{join_strings, joined, lines};
use crate::types::connect::ConnectUser;
use crate::types::datafeed::{
    duplicate_all, views, Atis, AtisView, Controller, ControllerView, DataFeed, DataFeedView,
    Duplicate, FacilityInfo, GeneralInfo, MilitaryRatingInfo, Pilot, PilotRatingInfo, Prefile,
    RatingInfo, Server,
};
use crate::types::slurper::{
    connections_from, connections_view, csv_line, lemma_response_parses, servable,
    SlurperFacilityType, UserConnection, UserConnectionView,
};
use crate::types::CertificateId;

verus! {

/// A token (an authorization code or an access token) and the CID it
/// authenticates.
#[derive(Debug)]
pub struct Grant {
    pub token: String,
    pub cid: CertificateId,
}

impl View for Grant {
    type V = (Seq<char>, u32);

    open spec fn view(&self) -> (Seq<char>, u32) {
        (self.token@, self.cid@)
    }
}

impl Duplicate for Grant {
    fn duplicate(&self) -> (r: Grant) {
        Grant { token: self.token.clone(), cid: self.cid }
    }
}

impl Keyed for Grant {
    open spec fn key_of(v: (Seq<char>, u32)) -> KeyView {
        KeyView::Name(v.0)
    }

    fn key(&self) -> (k: EntityKey) {
        EntityKey::Name(self.token.clone())
    }

    fn has_key(&self, key: &EntityKey) -> (b: bool) {
        name_key_eq(&self.token, key)
    }
}

/// The collections of a mock state, each taken by its contents.
#[verifier::ext_equal]
pub struct MockData {
    pub pilots: Seq<Pilot>,
    pub controllers: Seq<ControllerView>,
    pub atis: Seq<AtisView>,
    pub servers: Seq<Server>,
    pub prefiles: Seq<Prefile>,
    pub facilities: Seq<FacilityInfo>,
    pub ratings: Seq<RatingInfo>,
    pub pilot_ratings: Seq<PilotRatingInfo>,
    pub military_ratings: Seq<MilitaryRatingInfo>,
    pub users: Seq<ConnectUser>,
}

/// The mathematical value of a [`MockState`].
#[verifier::ext_equal]
pub struct MockStateView {
    /// The live collections.
    pub data: MockData,
    /// Pending authorization codes, each with the CID it authenticates.
    pub auth_codes: Seq<(Seq<char>, u32)>,
    /// Issued access tokens, each with the CID it belongs to.
    pub access_tokens: Seq<(Seq<char>, u32)>,
    /// The collections that a reset restores, if a seed was taken.
    pub seed: Option<MockData>,
}

/// A state with no entries at all.
pub open spec fn empty_data() -> MockData {
    MockData {
        pilots: Seq::empty(),
        controllers: Seq::empty(),
        atis: Seq::empty(),
        servers: Seq::empty(),
        prefiles: Seq::empty(),
        facilities: Seq::empty(),
        ratings: Seq::empty(),
        pilot_ratings: Seq::empty(),
        military_ratings: Seq::empty(),
        users: Seq::empty(),
    }
}

/// A state with its live collections taken as the seed.
pub open spec fn snapshot_spec(v: MockStateView) -> MockStateView {
    MockStateView { seed: Some(v.data), ..v }
}

/// A state whose collections, codes and tokens are replaced by those of
/// `other`; its seed stays.
pub open spec fn replace_spec(v: MockStateView, other: MockStateView) -> MockStateView {
    MockStateView {
        data: other.data,
        auth_codes: other.auth_codes,
        access_tokens: other.access_tokens,
        ..v
    }
}

/// A state reset to its seed, or emptied when it has none, with no pending
/// code and no issued token.
pub open spec fn reset_spec(v: MockStateView) -> MockStateView {
    MockStateView {
        data: match v.seed {
            Some(d) => d,
            None => empty_data(),
        },
        auth_codes: Seq::empty(),
        access_tokens: Seq::empty(),
        ..v
    }
}

/// The complete state of the mock VATSIM server.
///
/// Each list corresponds to a section of the data feed response; `users` are
/// the Connect users available for OAuth authentication.
#[derive(Debug)]
pub struct MockState {
    pub pilots: Vec<Pilot>,
    pub controllers: Vec<Controller>,
    pub atis: Vec<Atis>,
    pub servers: Vec<Server>,
    pub prefiles: Vec<Prefile>,
    pub facilities: Vec<FacilityInfo>,
    pub ratings: Vec<RatingInfo>,
    pub pilot_ratings: Vec<PilotRatingInfo>,
    pub military_ratings: Vec<MilitaryRatingInfo>,
    /// Connect users available for OAuth authentication.
    pub users: Vec<ConnectUser>,
    /// Pending authorization codes, issued by the authorize endpoint and
    /// consumed by the token endpoint.
    auth_codes: Vec<Grant>,
    /// Active access tokens, issued by the token endpoint and looked up by
    /// the user endpoint.
    access_tokens: Vec<Grant>,
    /// Seed snapshot for resets.
    seed: Option<Box<MockState>>,
}

impl MockState {
    /// The live collections.
    pub closed spec fn data(&self) -> MockData {
        MockData {
            pilots: views(self.pilots@),
            controllers: views(self.controllers@),
            atis: views(self.atis@),
            servers: views(self.servers@),
            prefiles: views(self.prefiles@),
            facilities: views(self.facilities@),
            ratings: views(self.ratings@),
            pilot_ratings: views(self.pilot_ratings@),
            military_ratings: views(self.military_ratings@),
            users: views(self.users@),
        }
    }

    /// The pending authorization codes.
    pub closed spec fn codes(&self) -> Seq<(Seq<char>, u32)> {
        views(self.auth_codes@)
    }

    /// The issued access tokens.
    pub closed spec fn tokens(&self) -> Seq<(Seq<char>, u32)> {
        views(self.access_tokens@)
    }

    /// The collections of the seed snapshot, if one was taken.
    pub closed spec fn seed_data(&self) -> Option<MockData> {
        match self.seed {
            Some(b) => Some(b.data()),
            None => None,
        }
    }
}

impl View for MockState {
    type V = MockStateView;

    open spec fn view(&self) -> MockStateView {
        MockStateView {
            data: self.data(),
            auth_codes: self.codes(),
            access_tokens: self.tokens(),
            seed: self.seed_data(),
        }
    }
}

impl Default for MockState {
    fn default() -> (r: MockState)
        ensures
            r@ == (MockStateView {
                data: empty_data(),
                auth_codes: Seq::empty(),
                access_tokens: Seq::empty(),
                seed: None,
            }),
    {
        let r = MockState {
            pilots: Vec::new(),
            controllers: Vec::new(),
            atis: Vec::new(),
            servers: Vec::new(),
            prefiles: Vec::new(),
            facilities: Vec::new(),
            ratings: Vec::new(),
            pilot_ratings: Vec::new(),
            military_ratings: Vec::new(),
            users: Vec::new(),
            auth_codes: Vec::new(),
            access_tokens: Vec::new(),
            seed: None,
        };
        assert(r.data() =~= empty_data());
        r
    }
}


impl MockState {
    /// A copy of this state without its seed.
    fn copy_without_seed(&self) -> (r: MockState)
        ensures
            r.data() == self.data(),
            r.codes() == self.codes(),
            r.tokens() == self.tokens(),
            r.seed_data() is None,
    {
        MockState {
            pilots: duplicate_all(&self.pilots),
            controllers: duplicate_all(&self.controllers),
            atis: duplicate_all(&self.atis),
            servers: duplicate_all(&self.servers),
            prefiles: duplicate_all(&self.prefiles),
            facilities: duplicate_all(&self.facilities),
            ratings: duplicate_all(&self.ratings),
            pilot_ratings: duplicate_all(&self.pilot_ratings),
            military_ratings: duplicate_all(&self.military_ratings),
            users: duplicate_all(&self.users),
            auth_codes: duplicate_all(&self.auth_codes),
            access_tokens: duplicate_all(&self.access_tokens),
            seed: None,
        }
    }

    /// Snapshots the current collections as the seed for future
    /// [`reset`](Self::reset) calls.
    pub fn snapshot_seed(&mut self)
        ensures
            final(self)@ == snapshot_spec(old(self)@),
    {
        let snapshot = self.copy_without_seed();
        self.seed = Some(Box::new(snapshot));
    }

    /// Replaces the live collections, codes and tokens with those of another
    /// state, keeping this state's seed snapshot, so that a full state
    /// replacement cannot erase the seed.
    pub fn replace(&mut self, other: MockState)
        ensures
            final(self)@ == replace_spec(old(self)@, other@),
    {
        let seed = self.seed.take();
        *self = other;
        self.seed = seed;
    }

    /// Empties every collection.
    fn clear_data(&mut self)
        ensures
            final(self)@ == (MockStateView { data: empty_data(), ..old(self)@ }),
    {
        self.pilots.clear();
        self.controllers.clear();
        self.atis.clear();
        self.servers.clear();
        self.prefiles.clear();
        self.facilities.clear();
        self.ratings.clear();
        self.pilot_ratings.clear();
        self.military_ratings.clear();
        self.users.clear();
        assert(self.data() =~= empty_data());
    }

    /// Drops every pending code and issued token.
    fn clear_grants(&mut self)
        ensures
            final(self)@ == (MockStateView {
                auth_codes: Seq::empty(),
                access_tokens: Seq::empty(),
                ..old(self)@
            }),
    {
        self.auth_codes.clear();
        self.access_tokens.clear();
        assert(self.codes() =~= Seq::<(Seq<char>, u32)>::empty());
        assert(self.tokens() =~= Seq::<(Seq<char>, u32)>::empty());
    }

    /// Resets the live collections to the seed snapshot, or empties them when
    /// no seed was taken; every pending code and issued token is dropped.
    pub fn reset(&mut self)
        ensures
            final(self)@ == reset_spec(old(self)@),
    {
        let seed = self.seed.take();
        match seed {
            Some(snapshot) => {
                *self = *snapshot;
                self.snapshot_seed();
            },
            None => {
                self.clear_data();
            },
        }
        self.clear_grants();
    }
}


impl Clone for MockState {
    fn clone(&self) -> (r: MockState)
        ensures
            r@ == self@,
    {
        let mut r = self.copy_without_seed();
        r.seed = match &self.seed {
            Some(b) => Some(Box::new(b.copy_without_seed())),
            None => None,
        };
        r
    }
}

impl MockState {
    /// Returns the pilot with the given CID, if any: the first such.
    pub fn pilot(&self, cid: CertificateId) -> (r: Option<&Pilot>)
        ensures
            match r {
                Some(x) => lookup::<Pilot>(self@.data.pilots, KeyView::Cid(cid@)) == Some(x@),
                None => lookup::<Pilot>(self@.data.pilots, KeyView::Cid(cid@)) is None,
            },
    {
        get_entry(&self.pilots, &EntityKey::Cid(cid))
    }

    /// Removes every pilot with the given CID, keeping the order of the others.
    /// Returns `true` if one was removed.
    pub fn remove_pilot(&mut self, cid: CertificateId) -> (removed: bool)
        ensures
            removed == has_match::<Pilot>(old(self)@.data.pilots, KeyView::Cid(cid@)),
            final(self)@ == (MockStateView {
                data: (MockData {
                    pilots: without_key::<Pilot>(old(self)@.data.pilots, KeyView::Cid(cid@)),
                    ..old(self)@.data
                }),
                ..old(self)@
            }),
    {
        let removed = remove_entries(&mut self.pilots, &EntityKey::Cid(cid));
        assert(self.data() =~= (MockData {
            pilots: without_key::<Pilot>(old(self)@.data.pilots, KeyView::Cid(cid@)),
            ..old(self)@.data
        }));
        removed
    }

    /// Inserts a pilot, replacing the first one with the same CID.
    pub fn upsert_pilot(&mut self, pilot: Pilot)
        ensures
            final(self)@ == (MockStateView {
                data: (MockData {
                    pilots: upserted::<Pilot>(old(self)@.data.pilots, pilot@),
                    ..old(self)@.data
                }),
                ..old(self)@
            }),
    {
        let ghost v = pilot@;
        upsert_entry(&mut self.pilots, pilot);
        assert(self.data() =~= (MockData {
            pilots: upserted::<Pilot>(old(self)@.data.pilots, v),
            ..old(self)@.data
        }));
    }

    /// Returns the controller with the given CID, if any: the first such.
    pub fn controller(&self, cid: CertificateId) -> (r: Option<&Controller>)
        ensures
            match r {
                Some(x) => lookup::<Controller>(self@.data.controllers, KeyView::Cid(cid@)) == Some(x@),
                None => lookup::<Controller>(self@.data.controllers, KeyView::Cid(cid@)) is None,
            },
    {
        get_entry(&self.controllers, &EntityKey::Cid(cid))
    }

    /// Removes every controller with the given CID, keeping the order of the others.
    /// Returns `true` if one was removed.
    pub fn remove_controller(&mut self, cid: CertificateId) -> (removed: bool)
        ensures
            removed == has_match::<Controller>(old(self)@.data.controllers, KeyView::Cid(cid@)),
            final(self)@ == (MockStateView {
                data: (MockData {
                    controllers: without_key::<Controller>(old(self)@.data.controllers, KeyView::Cid(cid@)),
                    ..old(self)@.data
                }),
                ..old(self)@
            }),
    {
        let removed = remove_entries(&mut self.controllers, &EntityKey::Cid(cid));
        assert(self.data() =~= (MockData {
            controllers: without_key::<Controller>(old(self)@.data.controllers, KeyView::Cid(cid@)),
            ..old(self)@.data
        }));
        removed
    }

    /// Inserts a controller, replacing the first one with the same CID.
    pub fn upsert_controller(&mut self, controller: Controller)
        ensures
            final(self)@ == (MockStateView {
                data: (MockData {
                    controllers: upserted::<Controller>(old(self)@.data.controllers, controller@),
                    ..old(self)@.data
                }),
                ..old(self)@
            }),
    {
        let ghost v = controller@;
        upsert_entry(&mut self.controllers, controller);
        assert(self.data() =~= (MockData {
            controllers: upserted::<Controller>(old(self)@.data.controllers, v),
            ..old(self)@.data
        }));
    }

    /// Returns the ATIS station with the given callsign, if any: the first such.
    pub fn atis(&self, callsign: &str) -> (r: Option<&Atis>)
        ensures
            match r {
                Some(x) => lookup::<Atis>(self@.data.atis, KeyView::Name(callsign@)) == Some(x@),
                None => lookup::<Atis>(self@.data.atis, KeyView::Name(callsign@)) is None,
            },
    {
        get_entry(&self.atis, &EntityKey::Name(String::from_str(callsign)))
    }

    /// Removes every ATIS station with the given callsign, keeping the order of the others.
    /// Returns `true` if one was removed.
    pub fn remove_atis(&mut self, callsign: &str) -> (removed: bool)
        ensures
            removed == has_match::<Atis>(old(self)@.data.atis, KeyView::Name(callsign@)),
            final(self)@ == (MockStateView {
                data: (MockData {
                    atis: without_key::<Atis>(old(self)@.data.atis, KeyView::Name(callsign@)),
                    ..old(self)@.data
                }),
                ..old(self)@
            }),
    {
        let removed = remove_entries(&mut self.atis, &EntityKey::Name(String::from_str(callsign)));
        assert(self.data() =~= (MockData {
            atis: without_key::<Atis>(old(self)@.data.atis, KeyView::Name(callsign@)),
            ..old(self)@.data
        }));
        removed
    }

    /// Inserts an ATIS station, replacing the first one with the same callsign.
    pub fn upsert_atis(&mut self, atis: Atis)
        ensures
            final(self)@ == (MockStateView {
                data: (MockData {
                    atis: upserted::<Atis>(old(self)@.data.atis, atis@),
                    ..old(self)@.data
                }),
                ..old(self)@
            }),
    {
        let ghost v = atis@;
        upsert_entry(&mut self.atis, atis);
        assert(self.data() =~= (MockData {
            atis: upserted::<Atis>(old(self)@.data.atis, v),
            ..old(self)@.data
        }));
    }

    /// Returns the prefile with the given CID, if any: the first such.
    pub fn prefile(&self, cid: CertificateId) -> (r: Option<&Prefile>)
        ensures
            match r {
                Some(x) => lookup::<Prefile>(self@.data.prefiles, KeyView::Cid(cid@)) == Some(x@),
                None => lookup::<Prefile>(self@.data.prefiles, KeyView::Cid(cid@)) is None,
            },
    {
        get_entry(&self.prefiles, &EntityKey::Cid(cid))
    }

    /// Removes every prefile with the given CID, keeping the order of the others.
    /// Returns `true` if one was removed.
    pub fn remove_prefile(&mut self, cid: CertificateId) -> (removed: bool)
        ensures
            removed == has_match::<Prefile>(old(self)@.data.prefiles, KeyView::Cid(cid@)),
            final(self)@ == (MockStateView {
                data: (MockData {
                    prefiles: without_key::<Prefile>(old(self)@.data.prefiles, KeyView::Cid(cid@)),
                    ..old(self)@.data
                }),
                ..old(self)@
            }),
    {
        let removed = remove_entries(&mut self.prefiles, &EntityKey::Cid(cid));
        assert(self.data() =~= (MockData {
            prefiles: without_key::<Prefile>(old(self)@.data.prefiles, KeyView::Cid(cid@)),
            ..old(self)@.data
        }));
        removed
    }

    /// Inserts a prefile, replacing the first one with the same CID.
    pub fn upsert_prefile(&mut self, prefile: Prefile)
        ensures
            final(self)@ == (MockStateView {
                data: (MockData {
                    prefiles: upserted::<Prefile>(old(self)@.data.prefiles, prefile@),
                    ..old(self)@.data
                }),
                ..old(self)@
            }),
    {
        let ghost v = prefile@;
        upsert_entry(&mut self.prefiles, prefile);
        assert(self.data() =~= (MockData {
            prefiles: upserted::<Prefile>(old(self)@.data.prefiles, v),
            ..old(self)@.data
        }));
    }

    /// Returns the server with the given ident, if any: the first such.
    pub fn server(&self, ident: &str) -> (r: Option<&Server>)
        ensures
            match r {
                Some(x) => lookup::<Server>(self@.data.servers, KeyView::Name(ident@)) == Some(x@),
                None => lookup::<Server>(self@.data.servers, KeyView::Name(ident@)) is None,
            },
    {
        get_entry(&self.servers, &EntityKey::Name(String::from_str(ident)))
    }

    /// Removes every server with the given ident, keeping the order of the others.
    /// Returns `true` if one was removed.
    pub fn remove_server(&mut self, ident: &str) -> (removed: bool)
        ensures
            removed == has_match::<Server>(old(self)@.data.servers, KeyView::Name(ident@)),
            final(self)@ == (MockStateView {
                data: (MockData {
                    servers: without_key::<Server>(old(self)@.data.servers, KeyView::Name(ident@)),
                    ..old(self)@.data
                }),
                ..old(self)@
            }),
    {
        let removed = remove_entries(&mut self.servers, &EntityKey::Name(String::from_str(ident)));
        assert(self.data() =~= (MockData {
            servers: without_key::<Server>(old(self)@.data.servers, KeyView::Name(ident@)),
            ..old(self)@.data
        }));
        removed
    }

    /// Inserts a server, replacing the first one with the same ident.
    pub fn upsert_server(&mut self, server: Server)
        ensures
            final(self)@ == (MockStateView {
                data: (MockData {
                    servers: upserted::<Server>(old(self)@.data.servers, server@),
                    ..old(self)@.data
                }),
                ..old(self)@
            }),
    {
        let ghost v = server@;
        upsert_entry(&mut self.servers, server);
        assert(self.data() =~= (MockData {
            servers: upserted::<Server>(old(self)@.data.servers, v),
            ..old(self)@.data
        }));
    }

    /// Returns the user with the given CID, if any: the first such.
    pub fn user(&self, cid: CertificateId) -> (r: Option<&ConnectUser>)
        ensures
            match r {
                Some(x) => lookup::<ConnectUser>(self@.data.users, KeyView::Cid(cid@)) == Some(x@),
                None => lookup::<ConnectUser>(self@.data.users, KeyView::Cid(cid@)) is None,
            },
    {
        get_entry(&self.users, &EntityKey::Cid(cid))
    }

    /// Removes every Connect user with the given CID, keeping the order of the others.
    /// Returns `true` if one was removed.
    pub fn remove_user(&mut self, cid: CertificateId) -> (removed: bool)
        ensures
            removed == has_match::<ConnectUser>(old(self)@.data.users, KeyView::Cid(cid@)),
            final(self)@ == (MockStateView {
                data: (MockData {
                    users: without_key::<ConnectUser>(old(self)@.data.users, KeyView::Cid(cid@)),
                    ..old(self)@.data
                }),
                ..old(self)@
            }),
    {
        let removed = remove_entries(&mut self.users, &EntityKey::Cid(cid));
        assert(self.data() =~= (MockData {
            users: without_key::<ConnectUser>(old(self)@.data.users, KeyView::Cid(cid@)),
            ..old(self)@.data
        }));
        removed
    }

    /// Inserts a Connect user, replacing the first one with the same CID.
    pub fn upsert_user(&mut self, user: ConnectUser)
        ensures
            final(self)@ == (MockStateView {
                data: (MockData {
                    users: upserted::<ConnectUser>(old(self)@.data.users, user@),
                    ..old(self)@.data
                }),
                ..old(self)@
            }),
    {
        let ghost v = user@;
        upsert_entry(&mut self.users, user);
        assert(self.data() =~= (MockData {
            users: upserted::<ConnectUser>(old(self)@.data.users, v),
            ..old(self)@.data
        }));
    }

}


/// The CIDs of every connection, pilots first, then controllers, then ATIS
/// stations.
pub open spec fn connection_cids(d: MockData) -> Seq<u32> {
    d.pilots.map_values(|p: Pilot| p.cid@) + d.controllers.map_values(
        |c: ControllerView| c.cid@,
    ) + d.atis.map_values(|a: AtisView| a.cid@)
}

/// A count as a `u32`, wrapping past `u32::MAX`.
pub open spec fn wrap_u32(n: int) -> u32 {
    (n % 0x1_0000_0000) as u32
}

/// The general section of a feed taken from `d` at time `ts`: version 3,
/// the number of connections, and the number of distinct CIDs among them.
pub open spec fn general_at(d: MockData, ts: String) -> GeneralInfo {
    GeneralInfo {
        version: 3,
        update_timestamp: ts,
        connected_clients: wrap_u32((d.pilots.len() + d.controllers.len() + d.atis.len()) as int),
        unique_users: wrap_u32(connection_cids(d).to_set().len() as int),
    }
}

/// The CIDs that are connected: those of the pilots, the controllers and the
/// ATIS stations.
pub open spec fn connected_cids(d: MockData) -> Set<u32> {
    Set::new(
        |c: u32|
            (exists|i: int| 0 <= i < d.pilots.len() && (#[trigger] d.pilots[i]).cid@ == c) || (exists|
                i: int,
            | 0 <= i < d.controllers.len() && (#[trigger] d.controllers[i]).cid@ == c) || (exists|
                i: int,
            | 0 <= i < d.atis.len() && (#[trigger] d.atis[i]).cid@ == c),
    )
}

/// The general section of a feed counts connections: `connected_clients` is
/// the number of pilots, controllers and ATIS stations, and `unique_users`
/// the number of distinct CIDs among them, each wrapping past `u32::MAX`;
/// there are never more distinct CIDs than connections. Prefiles, servers,
/// the reference lists and Connect users count for neither: two states with
/// the same pilots, controllers and ATIS stations have the same section. Its
/// version is 3 and its timestamp the one given.
pub proof fn lemma_general_counts(d: MockData, e: MockData, ts: String)
    ensures
        general_at(d, ts).version == 3,
        general_at(d, ts).update_timestamp == ts,
        general_at(d, ts).connected_clients as int == (d.pilots.len() + d.controllers.len()
            + d.atis.len()) % 0x1_0000_0000,
        general_at(d, ts).unique_users as int == connected_cids(d).len() % 0x1_0000_0000,
        connected_cids(d).len() <= d.pilots.len() + d.controllers.len() + d.atis.len(),
        d.pilots == e.pilots && d.controllers == e.controllers && d.atis == e.atis ==> general_at(
            d,
            ts,
        ) == general_at(e, ts),
{
    let ps = d.pilots.map_values(|p: Pilot| p.cid@);
    let cs = d.controllers.map_values(|c: ControllerView| c.cid@);
    let as_ = d.atis.map_values(|a: AtisView| a.cid@);
    let all = connection_cids(d);
    assert(all == ps + cs + as_);
    assert forall|c: u32| all.to_set().contains(c) <==> connected_cids(d).contains(c) by {
        if all.contains(c) {
            let k = choose|k: int| 0 <= k < all.len() && all[k] == c;
            if k < ps.len() {
                assert(d.pilots[k].cid@ == c);
            } else if k < ps.len() + cs.len() {
                assert(d.controllers[k - ps.len()].cid@ == c);
            } else {
                assert(d.atis[k - ps.len() - cs.len()].cid@ == c);
            }
        }
        if connected_cids(d).contains(c) {
            if exists|i: int| 0 <= i < d.pilots.len() && (#[trigger] d.pilots[i]).cid@ == c {
                let i = choose|i: int| 0 <= i < d.pilots.len() && (#[trigger] d.pilots[i]).cid@ == c;
                assert(all[i] == c);
            } else if exists|i: int|
                0 <= i < d.controllers.len() && (#[trigger] d.controllers[i]).cid@ == c {
                let i = choose|i: int|
                    0 <= i < d.controllers.len() && (#[trigger] d.controllers[i]).cid@ == c;
                assert(all[ps.len() + i] == c);
            } else {
                let i = choose|i: int| 0 <= i < d.atis.len() && (#[trigger] d.atis[i]).cid@ == c;
                assert(all[ps.len() + cs.len() + i] == c);
            }
        }
    }
    assert(all.to_set() =~= connected_cids(d));
    all.lemma_cardinality_of_set();
    if d.pilots == e.pilots && d.controllers == e.controllers && d.atis == e.atis {
        assert(connection_cids(d) == connection_cids(e));
    }
}

/// What every RFC 3339 timestamp in UTC with a `Z` offset has: at least a
/// four-digit year, month, day, `T`, hours, minutes, seconds and the `Z`
/// (twenty characters), ending in `Z`.
pub open spec fn zulu_timestamp(t: Seq<char>) -> bool {
    t.len() >= 20 && t.last() == 'Z'
}

/// The current time, from `chrono::Utc::now()`, written by
/// `to_rfc3339_opts(SecondsFormat::AutoSi, true)`: RFC 3339 text with a `Z`
/// offset and as many fractional digits as it has, which is how chrono
/// serializes a timestamp. Only its shape is stated (see
/// [`zulu_timestamp`]): which time it names is the clock's reading.
#[verifier::external_body]
fn utc_now_rfc3339() -> (r: String)
    ensures
        zulu_timestamp(r@),
{
    chrono::Utc::now().to_rfc3339_opts(chrono::SecondsFormat::AutoSi, true)
}

/// Whether `v` holds `x`.
fn holds_u32(v: &Vec<u32>, x: u32) -> (b: bool)
    ensures
        b == v@.contains(x),
{
    let mut i: usize = 0;
    while i < v.len()
        invariant
            i <= v@.len(),
            forall|j: int| 0 <= j < i ==> v@[j] != x,
        decreases v@.len() - i,
    {
        if v[i] == x {
            assert(v@[i as int] == x);
            return true;
        }
        i = i + 1;
    }
    false
}

/// The number of distinct values in `v`.
fn count_distinct(v: &Vec<u32>) -> (n: usize)
    ensures
        n == v@.to_set().len(),
{
    let mut seen: Vec<u32> = Vec::new();
    let mut i: usize = 0;
    while i < v.len()
        invariant
            i <= v@.len(),
            seen@.no_duplicates(),
            seen@.to_set() == v@.take(i as int).to_set(),
            seen@.len() <= i,
        decreases v@.len() - i,
    {
        let x = v[i];
        assert(v@.take(i + 1) =~= v@.take(i as int).push(x));
        if !holds_u32(&seen, x) {
            let ghost before = seen@;
            seen.push(x);
            assert(seen@.to_set() =~= v@.take(i + 1).to_set()) by {
                assert forall|y: u32| seen@.contains(y) <==> v@.take(i + 1).contains(y) by {
                    if seen@.contains(y) {
                        let j = choose|j: int| 0 <= j < seen@.len() && #[trigger] seen@[j] == y;
                        if j < before.len() {
                            assert(before.contains(y));
                            assert(before.to_set().contains(y));
                            assert(v@.take(i as int).contains(y));
                            let w = choose|w: int| 0 <= w < i && #[trigger] v@.take(i as int)[w] == y;
                            assert(v@.take(i + 1)[w] == y);
                        } else {
                            assert(v@.take(i + 1)[i as int] == y);
                        }
                    }
                    if v@.take(i + 1).contains(y) {
                        let w = choose|w: int| 0 <= w < i + 1 && #[trigger] v@.take(i + 1)[w] == y;
                        if w < i {
                            assert(v@.take(i as int)[w] == y);
                            assert(v@.take(i as int).to_set().contains(y));
                            assert(before.contains(y));
                            let j = choose|j: int| 0 <= j < before.len() && #[trigger] before[j] == y;
                            assert(seen@[j] == y);
                        } else {
                            assert(seen@[before.len() as int] == y);
                        }
                    }
                }
            }
        } else {
            assert(seen@.to_set() =~= v@.take(i + 1).to_set()) by {
                assert forall|y: u32| seen@.contains(y) <==> v@.take(i + 1).contains(y) by {
                    if seen@.contains(y) {
                        assert(seen@.to_set().contains(y));
                        assert(v@.take(i as int).contains(y));
                        let w = choose|w: int| 0 <= w < i && #[trigger] v@.take(i as int)[w] == y;
                        assert(v@.take(i + 1)[w] == y);
                    }
                    if v@.take(i + 1).contains(y) {
                        let w = choose|w: int| 0 <= w < i + 1 && #[trigger] v@.take(i + 1)[w] == y;
                        if w < i {
                            assert(v@.take(i as int)[w] == y);
                            assert(v@.take(i as int).to_set().contains(y));
                        } else {
                            assert(v@[i as int] == y);
                        }
                    }
                }
            }
        }
        i = i + 1;
    }
    assert(v@.take(v@.len() as int) =~= v@);
    proof {
        seen@.unique_seq_to_set();
    }
    seen.len()
}

/// A count as a `u32`, wrapping past `u32::MAX`.
fn wrap_count(n: usize) -> (r: u32)
    ensures
        r == wrap_u32(n as int),
{
    let w: u64 = (n as u64) % 0x1_0000_0000;
    w as u32
}

impl MockState {
    /// The CIDs of every connection, pilots first, then controllers, then
    /// ATIS stations.
    fn cids(&self) -> (r: Vec<u32>)
        ensures
            r@ == connection_cids(self@.data),
    {
        let mut r: Vec<u32> = Vec::new();
        let mut i: usize = 0;
        while i < self.pilots.len()
            invariant
                i <= self.pilots@.len(),
                r@ == self@.data.pilots.take(i as int).map_values(|p: Pilot| p.cid@),
            decreases self.pilots@.len() - i,
        {
            r.push(self.pilots[i].cid.get());
            assert(self@.data.pilots.take(i + 1) =~= self@.data.pilots.take(i as int).push(self@.data.pilots[i as int]));
            assert(r@ =~= self@.data.pilots.take(i + 1).map_values(|p: Pilot| p.cid@));
            i = i + 1;
        }
        assert(self@.data.pilots.take(self.pilots@.len() as int) =~= self@.data.pilots);
        let ghost first = r@;
        let mut i: usize = 0;
        while i < self.controllers.len()
            invariant
                i <= self.controllers@.len(),
                r@ == first + self@.data.controllers.take(i as int).map_values(
                    |c: ControllerView| c.cid@,
                ),
            decreases self.controllers@.len() - i,
        {
            r.push(self.controllers[i].cid.get());
            assert(self@.data.controllers.take(i + 1) =~= self@.data.controllers.take(i as int).push(self@.data.controllers[i as int]));
            assert(r@ =~= first + self@.data.controllers.take(i + 1).map_values(|c: ControllerView| c.cid@));
            i = i + 1;
        }
        assert(self@.data.controllers.take(self.controllers@.len() as int) =~= self@.data.controllers);
        let ghost second = r@;
        let mut i: usize = 0;
        while i < self.atis.len()
            invariant
                i <= self.atis@.len(),
                r@ == second + self@.data.atis.take(i as int).map_values(|a: AtisView| a.cid@),
            decreases self.atis@.len() - i,
        {
            r.push(self.atis[i].cid.get());
            assert(self@.data.atis.take(i + 1) =~= self@.data.atis.take(i as int).push(self@.data.atis[i as int]));
            assert(r@ =~= second + self@.data.atis.take(i + 1).map_values(|a: AtisView| a.cid@));
            i = i + 1;
        }
        assert(self@.data.atis.take(self.atis@.len() as int) =~= self@.data.atis);
        r
    }

    /// The general section of a feed built from this state at time
    /// `timestamp`: version 3, the number of pilots, controllers and ATIS
    /// stations, and the number of distinct CIDs among them, each count
    /// wrapping past `u32::MAX`.
    pub fn general_info_at(&self, timestamp: String) -> (r: GeneralInfo)
        ensures
            r == general_at(self@.data, timestamp),
    {
        let cids = self.cids();
        let unique = count_distinct(&cids);
        let p = self.pilots.len() as u64 % 0x1_0000_0000;
        let c = self.controllers.len() as u64 % 0x1_0000_0000;
        let a = self.atis.len() as u64 % 0x1_0000_0000;
        let total = (p + c + a) % 0x1_0000_0000;
        proof {
            let m = 0x1_0000_0000int;
            let (pl, cl, al) = (self.pilots@.len() as int, self.controllers@.len() as int, self.atis@.len() as int);
            vstd::arithmetic::div_mod::lemma_add_mod_noop(pl, cl, m);
            vstd::arithmetic::div_mod::lemma_add_mod_noop(pl + cl, al, m);
            vstd::arithmetic::div_mod::lemma_add_mod_noop(pl % m + cl % m, al, m);
            vstd::arithmetic::div_mod::lemma_mod_twice(pl + cl, m);
            assert(((pl % m + cl % m) % m + al % m) % m == (pl + cl + al) % m);
            vstd::arithmetic::div_mod::lemma_add_mod_noop(pl % m + cl % m, al % m, m);
            vstd::arithmetic::div_mod::lemma_mod_twice(al, m);
        }
        GeneralInfo {
            version: 3,
            update_timestamp: timestamp,
            connected_clients: total as u32,
            unique_users: wrap_count(unique),
        }
    }

    /// The general section of a feed built from this state now: version 3,
    /// the current time, and the counts of [`general_info_at`](Self::general_info_at).
    pub fn general_info(&self) -> (r: GeneralInfo)
        ensures
            r == general_at(self@.data, r.update_timestamp),
            zulu_timestamp(r.update_timestamp@),
    {
        self.general_info_at(utc_now_rfc3339())
    }
}


/// The collections of a state built from a data feed: the feed's lists, and
/// no Connect users.
pub open spec fn data_from_feed(f: DataFeedView) -> MockData {
    MockData {
        pilots: f.pilots,
        controllers: f.controllers,
        atis: f.atis,
        servers: f.servers,
        prefiles: f.prefiles,
        facilities: f.facilities,
        ratings: f.ratings,
        pilot_ratings: f.pilot_ratings,
        military_ratings: f.military_ratings,
        users: Seq::empty(),
    }
}

/// The feed that state collections `d` give at time `ts`.
pub open spec fn feed_at(d: MockData, ts: String) -> DataFeedView {
    DataFeedView {
        general: general_at(d, ts),
        pilots: d.pilots,
        controllers: d.controllers,
        atis: d.atis,
        servers: d.servers,
        prefiles: d.prefiles,
        facilities: d.facilities,
        ratings: d.ratings,
        pilot_ratings: d.pilot_ratings,
        military_ratings: d.military_ratings,
    }
}

impl MockState {
    /// A state holding the lists of a data feed, with no users, codes,
    /// tokens or seed.
    pub fn from_feed(feed: DataFeed) -> (r: MockState)
        ensures
            r@ == (MockStateView {
                data: data_from_feed(feed@),
                auth_codes: Seq::empty(),
                access_tokens: Seq::empty(),
                seed: None,
            }),
    {
        let r = MockState {
            pilots: feed.pilots,
            controllers: feed.controllers,
            atis: feed.atis,
            servers: feed.servers,
            prefiles: feed.prefiles,
            facilities: feed.facilities,
            ratings: feed.ratings,
            pilot_ratings: feed.pilot_ratings,
            military_ratings: feed.military_ratings,
            users: Vec::new(),
            auth_codes: Vec::new(),
            access_tokens: Vec::new(),
            seed: None,
        };
        assert(r.data() =~= data_from_feed(feed@));
        r
    }

    /// The data feed rendered from this state at time `timestamp`.
    pub fn to_data_feed_at(&self, timestamp: String) -> (r: DataFeed)
        ensures
            r@ == feed_at(self@.data, timestamp),
    {
        let general = self.general_info_at(timestamp);
        let r = DataFeed {
            general,
            pilots: duplicate_all(&self.pilots),
            controllers: duplicate_all(&self.controllers),
            atis: duplicate_all(&self.atis),
            servers: duplicate_all(&self.servers),
            prefiles: duplicate_all(&self.prefiles),
            facilities: duplicate_all(&self.facilities),
            ratings: duplicate_all(&self.ratings),
            pilot_ratings: duplicate_all(&self.pilot_ratings),
            military_ratings: duplicate_all(&self.military_ratings),
        };
        assert(r.pilots@ =~= views(r.pilots@));
        assert(r.servers@ =~= views(r.servers@));
        assert(r.prefiles@ =~= views(r.prefiles@));
        assert(r.facilities@ =~= views(r.facilities@));
        assert(r.ratings@ =~= views(r.ratings@));
        assert(r.pilot_ratings@ =~= views(r.pilot_ratings@));
        assert(r.military_ratings@ =~= views(r.military_ratings@));
        r
    }

    /// The data feed rendered from this state now.
    pub fn to_data_feed(&self) -> (r: DataFeed)
        ensures
            r@ == feed_at(self@.data, r.general.update_timestamp),
            zulu_timestamp(r.general.update_timestamp@),
    {
        self.to_data_feed_at(utc_now_rfc3339())
    }
}

impl vstd::std_specs::convert::FromSpecImpl<DataFeed> for MockState {
    open spec fn obeys_from_spec() -> bool {
        false
    }

    open spec fn from_spec(feed: DataFeed) -> MockState {
        arbitrary()
    }
}

impl From<DataFeed> for MockState {
    /// The state [`MockState::from_feed`] builds.
    fn from(feed: DataFeed) -> MockState {
        MockState::from_feed(feed)
    }
}

impl<'a> vstd::std_specs::convert::FromSpecImpl<&'a MockState> for DataFeed {
    open spec fn obeys_from_spec() -> bool {
        false
    }

    open spec fn from_spec(state: &'a MockState) -> DataFeed {
        arbitrary()
    }
}

impl<'a> From<&'a MockState> for DataFeed {
    /// The feed [`MockState::to_data_feed`] renders.
    fn from(state: &'a MockState) -> DataFeed {
        state.to_data_feed()
    }
}


/// The CID that a token authenticates in a list of grants, if any: the first
/// grant with that token decides.
pub open spec fn grant_cid(grants: Seq<(Seq<char>, u32)>, token: Seq<char>) -> Option<u32> {
    match lookup::<Grant>(grants, KeyView::Name(token)) {
        Some(g) => Some(g.1),
        None => None,
    }
}

/// Removing a key that no record has leaves the records as they were.
pub proof fn lemma_without_absent_key<T: Keyed>(s: Seq<T::V>, k: KeyView)
    requires
        !has_match::<T>(s, k),
    ensures
        without_key::<T>(s, k) == s,
    decreases s.len(),
{
    if s.len() > 0 {
        let d = s.drop_last();
        assert(!has_match::<T>(d, k)) by {
            if has_match::<T>(d, k) {
                let w = choose|w: int| 0 <= w < d.len() && T::key_of(#[trigger] d[w]) == k;
                assert(s[w] == d[w]);
            }
        }
        lemma_without_absent_key::<T>(d, k);
        assert(T::key_of(s[s.len() - 1]) != k);
        assert(d.push(s.last()) =~= s);
    }
}

/// The grant with the given token, if any: the first such.
fn grant_lookup(grants: &Vec<Grant>, token: &str) -> (r: Option<CertificateId>)
    ensures
        match r {
            Some(c) => grant_cid(views(grants@), token@) == Some(c@),
            None => grant_cid(views(grants@), token@) is None,
        },
{
    match get_entry(grants, &EntityKey::Name(String::from_str(token))) {
        Some(g) => Some(g.cid),
        None => None,
    }
}

impl MockState {
    /// Records a pending authorization code for a CID, replacing an earlier
    /// code with the same text.
    pub(crate) fn add_code(&mut self, code: String, cid: CertificateId)
        ensures
            final(self)@ == (MockStateView {
                auth_codes: upserted::<Grant>(old(self)@.auth_codes, (code@, cid@)),
                ..old(self)@
            }),
    {
        upsert_entry(&mut self.auth_codes, Grant { token: code, cid });
    }

    /// Consumes a pending authorization code, giving the CID it
    /// authenticates; an unknown code leaves the state as it was.
    pub(crate) fn redeem_code(&mut self, code: &str) -> (r: Option<CertificateId>)
        ensures
            match r {
                Some(c) => grant_cid(old(self)@.auth_codes, code@) == Some(c@),
                None => grant_cid(old(self)@.auth_codes, code@) is None,
            },
            final(self)@ == (MockStateView {
                auth_codes: without_key::<Grant>(old(self)@.auth_codes, KeyView::Name(code@)),
                ..old(self)@
            }),
    {
        let r = grant_lookup(&self.auth_codes, code);
        remove_entries(&mut self.auth_codes, &EntityKey::Name(String::from_str(code)));
        r
    }

    /// Records an issued access token for a CID, replacing an earlier token
    /// with the same text.
    pub(crate) fn add_access_token(&mut self, token: String, cid: CertificateId)
        ensures
            final(self)@ == (MockStateView {
                access_tokens: upserted::<Grant>(old(self)@.access_tokens, (token@, cid@)),
                ..old(self)@
            }),
    {
        upsert_entry(&mut self.access_tokens, Grant { token, cid });
    }

    /// The CID an access token belongs to, if it was issued.
    pub(crate) fn access_token_cid(&self, token: &str) -> (r: Option<CertificateId>)
        ensures
            match r {
                Some(c) => grant_cid(self@.access_tokens, token@) == Some(c@),
                None => grant_cid(self@.access_tokens, token@) is None,
            },
    {
        grant_lookup(&self.access_tokens, token)
    }
}


/// A full replacement cannot erase the seed: it keeps the seed, and a reset
/// after it gives exactly what a reset before it gives.
pub proof fn lemma_replace_keeps_seed(v: MockStateView, other: MockStateView)
    ensures
        replace_spec(v, other).seed == v.seed,
        reset_spec(replace_spec(v, other)) == reset_spec(v),
{
}

/// Resetting after a snapshot restores the collections as they were at the
/// snapshot.
pub proof fn lemma_reset_restores_snapshot(v: MockStateView)
    ensures
        reset_spec(snapshot_spec(v)).data == v.data,
        reset_spec(snapshot_spec(v)).seed == Some(v.data),
{
}

/// A second reset changes nothing.
pub proof fn lemma_reset_idempotent(v: MockStateView)
    ensures
        reset_spec(reset_spec(v)) == reset_spec(v),
{
}

/// After a reset no code and no token authenticates anyone.
pub proof fn lemma_reset_revokes_grants(v: MockStateView, token: Seq<char>)
    ensures
        grant_cid(reset_spec(v).auth_codes, token) is None,
        grant_cid(reset_spec(v).access_tokens, token) is None,
{
}


impl MockState {
    /// The CID of the first Connect user, if there is one.
    pub fn first_user_cid(&self) -> (r: Option<CertificateId>)
        ensures
            match r {
                Some(c) => self@.data.users.len() > 0 && c@ == self@.data.users[0].cid@,
                None => self@.data.users.len() == 0,
            },
    {
        if self.users.len() == 0 {
            None
        } else {
            Some(self.users[0].cid)
        }
    }
}


/// The slurper connection of a pilot.
pub open spec fn pilot_connection(p: Pilot) -> UserConnectionView {
    UserConnectionView {
        cid: p.cid@,
        callsign: p.callsign@,
        facility_type: SlurperFacilityType::Pilot,
        frequency: None,
        visual_range: None,
        latitude: p.latitude@,
        longitude: p.longitude@,
        secondary_positions: Seq::empty(),
    }
}

/// The slurper connection of a controller or ATIS station: ATC, with its
/// frequency and visual range, at coordinates `0`.
pub open spec fn atc_connection(cid: CertificateId, callsign: String, frequency: String, range: u32) -> UserConnectionView {
    UserConnectionView {
        cid: cid@,
        callsign: callsign@,
        facility_type: SlurperFacilityType::Atc,
        frequency: Some(frequency@),
        visual_range: Some(range),
        latitude: seq!['0'],
        longitude: seq!['0'],
        secondary_positions: Seq::empty(),
    }
}

/// The connection a pilot gives in the slurper listing of `cid`, if it is
/// that CID's.
pub open spec fn pilot_picker(cid: u32) -> spec_fn(Pilot) -> Option<UserConnectionView> {
    |p: Pilot| if p.cid@ == cid { Some(pilot_connection(p)) } else { None }
}

/// The connection a controller gives in the slurper listing of `cid`, if it
/// is that CID's.
pub open spec fn controller_picker(cid: u32) -> spec_fn(ControllerView) -> Option<UserConnectionView> {
    |c: ControllerView|
        if c.cid@ == cid {
            Some(atc_connection(c.cid, c.callsign, c.frequency, c.visual_range))
        } else {
            None
        }
}

/// The connection an ATIS station gives in the slurper listing of `cid`, if
/// it is that CID's.
pub open spec fn atis_picker(cid: u32) -> spec_fn(AtisView) -> Option<UserConnectionView> {
    |a: AtisView|
        if a.cid@ == cid {
            Some(atc_connection(a.cid, a.callsign, a.frequency, a.visual_range))
        } else {
            None
        }
}

/// The connections of a CID, as the slurper lists them: its pilots, then its
/// controllers, then its ATIS stations, each in state order.
pub open spec fn connections_of(d: MockData, cid: u32) -> Seq<UserConnectionView> {
    d.pilots.filter_map(pilot_picker(cid)) + d.controllers.filter_map(controller_picker(cid))
        + d.atis.filter_map(atis_picker(cid))
}

/// The slurper response body for a CID: one CSV line per connection,
/// separated by line feeds.
pub open spec fn user_info_body(d: MockData, cid: u32) -> Seq<char> {
    joined(connections_of(d, cid).map_values(|c: UserConnectionView| csv_line(c)), '\n')
}

impl MockState {
    /// The slurper connections of a CID: its pilots, then its controllers,
    /// then its ATIS stations.
    pub fn user_connections(&self, cid: CertificateId) -> (r: Vec<UserConnection>)
        ensures
            connections_view(r@) == connections_of(self@.data, cid@),
    {
        let ghost d = self@.data;
        let ghost fp = pilot_picker(cid@);
        let ghost fc = controller_picker(cid@);
        let ghost fa = atis_picker(cid@);
        let mut r: Vec<UserConnection> = Vec::new();
        let mut i: usize = 0;
        while i < self.pilots.len()
            invariant
                i <= self.pilots@.len(),
                d == self@.data,
                fp == pilot_picker(cid@),
                connections_view(r@) == d.pilots.take(i as int).filter_map(fp),
            decreases self.pilots@.len() - i,
        {
            let p = &self.pilots[i];
            let ghost before = connections_view(r@);
            assert(d.pilots.take(i + 1).drop_last() =~= d.pilots.take(i as int));
            assert(d.pilots.take(i + 1).last() == *p);
            if p.cid.get() == cid.get() {
                let x = UserConnection {
                    cid: p.cid,
                    callsign: p.callsign.clone(),
                    facility_type: SlurperFacilityType::Pilot,
                    frequency: None,
                    visual_range: None,
                    latitude: p.latitude.clone(),
                    longitude: p.longitude.clone(),
                    secondary_positions: Vec::new(),
                };
                assert(x@.secondary_positions =~= Seq::<(Seq<char>, Seq<char>)>::empty());
                assert(x@ == pilot_connection(*p));
                r.push(x);
                assert(connections_view(r@) =~= before + seq![pilot_connection(*p)]);
                assert(fp(*p) == Some(pilot_connection(*p)));
                assert(d.pilots.take(i + 1).filter_map(fp) == d.pilots.take(i as int).filter_map(fp)
                    + seq![pilot_connection(*p)]);
            } else {
                assert(connections_view(r@) =~= before);
                assert(fp(*p) is None);
                assert(d.pilots.take(i + 1).filter_map(fp) == d.pilots.take(i as int).filter_map(fp));
            }
            i = i + 1;
        }
        assert(d.pilots.take(self.pilots@.len() as int) =~= d.pilots);
        let ghost first = connections_view(r@);
        let mut i: usize = 0;
        while i < self.controllers.len()
            invariant
                i <= self.controllers@.len(),
                d == self@.data,
                fc == controller_picker(cid@),
                connections_view(r@) == first + d.controllers.take(i as int).filter_map(fc),
            decreases self.controllers@.len() - i,
        {
            let c = &self.controllers[i];
            let ghost before = connections_view(r@);
            assert(d.controllers.take(i + 1).drop_last() =~= d.controllers.take(i as int));
            assert(d.controllers.take(i + 1).last() == c@);
            if c.cid.get() == cid.get() {
                let x = UserConnection {
                    cid: c.cid,
                    callsign: c.callsign.clone(),
                    facility_type: SlurperFacilityType::Atc,
                    frequency: Some(c.frequency.clone()),
                    visual_range: Some(c.visual_range),
                    latitude: String::from_str("0"),
                    longitude: String::from_str("0"),
                    secondary_positions: Vec::new(),
                };
                proof {
                    reveal_strlit("0");
                }
                assert(x@.latitude =~= seq!['0']);
                assert(x@.longitude =~= seq!['0']);
                assert(x@.secondary_positions =~= Seq::<(Seq<char>, Seq<char>)>::empty());
                assert(x@ == atc_connection(c.cid, c.callsign, c.frequency, c.visual_range));
                r.push(x);
                let ghost y = atc_connection(c.cid, c.callsign, c.frequency, c.visual_range);
                assert(connections_view(r@) =~= before + seq![y]);
                assert(fc(c@) == Some(y));
                assert(d.controllers.take(i + 1).filter_map(fc) == d.controllers.take(i as int).filter_map(fc)
                    + seq![y]);
                assert(first + d.controllers.take(i + 1).filter_map(fc) =~= (first + d.controllers.take(
                    i as int,
                ).filter_map(fc)) + seq![y]);
            } else {
                assert(connections_view(r@) =~= before);
                assert(fc(c@) is None);
                assert(d.controllers.take(i + 1).filter_map(fc) == d.controllers.take(i as int).filter_map(fc));
            }
            i = i + 1;
        }
        assert(d.controllers.take(self.controllers@.len() as int) =~= d.controllers);
        let ghost second = connections_view(r@);
        let mut i: usize = 0;
        while i < self.atis.len()
            invariant
                i <= self.atis@.len(),
                d == self@.data,
                fa == atis_picker(cid@),
                connections_view(r@) == second + d.atis.take(i as int).filter_map(fa),
            decreases self.atis@.len() - i,
        {
            let a = &self.atis[i];
            let ghost before = connections_view(r@);
            assert(d.atis.take(i + 1).drop_last() =~= d.atis.take(i as int));
            assert(d.atis.take(i + 1).last() == a@);
            if a.cid.get() == cid.get() {
                let x = UserConnection {
                    cid: a.cid,
                    callsign: a.callsign.clone(),
                    facility_type: SlurperFacilityType::Atc,
                    frequency: Some(a.frequency.clone()),
                    visual_range: Some(a.visual_range),
                    latitude: String::from_str("0"),
                    longitude: String::from_str("0"),
                    secondary_positions: Vec::new(),
                };
                proof {
                    reveal_strlit("0");
                }
                assert(x@.latitude =~= seq!['0']);
                assert(x@.longitude =~= seq!['0']);
                assert(x@.secondary_positions =~= Seq::<(Seq<char>, Seq<char>)>::empty());
                assert(x@ == atc_connection(a.cid, a.callsign, a.frequency, a.visual_range));
                r.push(x);
                let ghost y = atc_connection(a.cid, a.callsign, a.frequency, a.visual_range);
                assert(connections_view(r@) =~= before + seq![y]);
                assert(fa(a@) == Some(y));
                assert(d.atis.take(i + 1).filter_map(fa) == d.atis.take(i as int).filter_map(fa)
                    + seq![y]);
                assert(second + d.atis.take(i + 1).filter_map(fa) =~= (second + d.atis.take(
                    i as int,
                ).filter_map(fa)) + seq![y]);
            } else {
                assert(connections_view(r@) =~= before);
                assert(fa(a@) is None);
                assert(d.atis.take(i + 1).filter_map(fa) == d.atis.take(i as int).filter_map(fa));
            }
            i = i + 1;
        }
        assert(d.atis.take(self.atis@.len() as int) =~= d.atis);
        r
    }

    /// The slurper response body for a CID (`GET /users/info?cid=..`): one
    /// CSV line per connection, separated by line feeds; empty when the CID
    /// has none.
    pub fn user_info(&self, cid: CertificateId) -> (r: String)
        ensures
            r@ == user_info_body(self@.data, cid@),
    {
        let conns = self.user_connections(cid);
        let mut lines: Vec<String> = Vec::new();
        let mut i: usize = 0;
        while i < conns.len()
            invariant
                i <= conns@.len(),
                lines@.map_values(|l: String| l@) == connections_view(conns@).take(i as int).map_values(
                    |c: UserConnectionView| csv_line(c),
                ),
            decreases conns@.len() - i,
        {
            let ghost before = lines@.map_values(|l: String| l@);
            let line = conns[i].to_csv_line();
            assert(connections_view(conns@)[i as int] == conns@[i as int]@);
            lines.push(line);
            assert(lines@.map_values(|l: String| l@) =~= before.push(line@));
            assert(connections_view(conns@).take(i + 1) =~= connections_view(conns@).take(i as int).push(
                conns@[i as int]@,
            ));
            assert(lines@.map_values(|l: String| l@) =~= connections_view(conns@).take(i + 1).map_values(
                |c: UserConnectionView| csv_line(c),
            ));
            i = i + 1;
        }
        assert(connections_view(conns@).take(conns@.len() as int) =~= connections_view(conns@));
        join_strings(&lines, '\n')
    }
}


/// A state rendered as a data feed and built back from it has the same
/// collections, save the Connect users, which a feed does not carry.
pub proof fn lemma_feed_roundtrip(d: MockData, ts: String)
    ensures
        data_from_feed(feed_at(d, ts)) == (MockData { users: Seq::empty(), ..d }),
{
}

/// What the mock serves at `GET /users/info` for a CID is read back, line
/// by line, as that CID's connections, when each of them can be written
/// exactly (see [`servable`]).
pub proof fn lemma_user_info_reads_back(d: MockData, cid: u32)
    requires
        connections_of(d, cid).len() <= usize::MAX,
        forall|k: int|
            0 <= k < connections_of(d, cid).len() ==> servable(#[trigger] connections_of(d, cid)[k]),
    ensures
        connections_from(lines(user_info_body(d, cid)), 0) == Ok::<
            Seq<UserConnectionView>,
            ParseErrorView,
        >(connections_of(d, cid)),
{
    lemma_response_parses(connections_of(d, cid));
}

} // verus!
