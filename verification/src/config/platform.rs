//! Platform registry: the mapping between platform ids and platform names.

use vstd::prelude::*;
use std::collections::HashMap;
use vstd::std_specs::hash::spec_hash_map_iter;
use vstd::std_specs::iter::IteratorSpec;
use crate::text::{str_eq, to_owned_string};

verus! {

/// Platform information.
#[derive(Debug, Clone)]
pub struct PlatformInfo {
    /// Platform id (database primary key).
    pub id: i32,
    /// Platform name (e.g. "tiktok").
    pub name: String,
    /// Display name (e.g. "TikTok").
    pub display_name: String,
    /// Whether the platform is active.
    pub is_active: bool,
}

/// Abstract platform information.
pub ghost struct PlatformInfoView {
    pub id: i32,
    pub name: Seq<char>,
    pub display_name: Seq<char>,
    pub is_active: bool,
}

impl View for PlatformInfo {
    type V = PlatformInfoView;

    open spec fn view(&self) -> PlatformInfoView {
        PlatformInfoView {
            id: self.id,
            name: self.name@,
            display_name: self.display_name@,
            is_active: self.is_active,
        }
    }
}

impl PlatformInfo {
    /// An active platform.
    pub fn new(id: i32, name: &str, display_name: &str) -> (r: PlatformInfo)
        ensures
            r@ == (PlatformInfoView { id, name: name@, display_name: display_name@, is_active: true }),
    {
        PlatformInfo {
            id,
            name: to_owned_string(name),
            display_name: to_owned_string(display_name),
            is_active: true,
        }
    }

    /// Sets the active flag.
    pub fn with_active(self, active: bool) -> (r: PlatformInfo)
        ensures
            r@ == (PlatformInfoView { is_active: active, ..self@ }),
    {
        PlatformInfo { is_active: active, ..self }
    }

    /// A copy with the same abstract value.
    pub fn duplicate(&self) -> (r: PlatformInfo)
        ensures
            r@ == self@,
    {
        PlatformInfo {
            id: self.id,
            name: self.name.clone(),
            display_name: self.display_name.clone(),
            is_active: self.is_active,
        }
    }
}

/// `Some(s@)` for `Some(s)`.
pub open spec fn str_opt_view(o: Option<&str>) -> Option<Seq<char>> {
    match o {
        Some(s) => Some(s@),
        None => None,
    }
}

/// `Some(p@)` for `Some(p)`.
pub open spec fn info_opt_view(o: Option<&PlatformInfo>) -> Option<PlatformInfoView> {
    match o {
        Some(p) => Some(p@),
        None => None,
    }
}

/// Lookup operations on a set of platforms.
pub trait PlatformLookup {
    /// The information of the platform with id `id`.
    spec fn info_of(&self, id: i32) -> Option<PlatformInfoView>;

    /// The id of the platform named `name`.
    spec fn id_of(&self, name: Seq<char>) -> Option<i32>;

    /// Platform name by id: the name of the platform with that id.
    fn get_name(&self, id: i32) -> (r: Option<&str>)
        ensures
            str_opt_view(r) == match self.info_of(id) {
                Some(p) => Some(p.name),
                None => None,
            },
    ;

    /// Platform id by name.
    fn get_id(&self, name: &str) -> (r: Option<i32>)
        ensures
            r == self.id_of(name@),
    ;

    /// Platform information by id.
    fn get_info(&self, id: i32) -> (r: Option<&PlatformInfo>)
        ensures
            info_opt_view(r) == self.info_of(id),
    ;

    /// Platform information by name: the information of the id bound to the
    /// name.
    fn get_info_by_name(&self, name: &str) -> (r: Option<&PlatformInfo>)
        ensures
            info_opt_view(r) == match self.id_of(name@) {
                Some(id) => self.info_of(id),
                None => None,
            },
    ;

    /// All platforms.
    fn all_platforms(&self) -> Vec<&PlatformInfo>;

    /// All active platforms.
    fn active_platforms(&self) -> Vec<&PlatformInfo>;

    /// Whether a platform has this id.
    fn has_id(&self, id: i32) -> (r: bool)
        ensures
            r == self.info_of(id) is Some,
    {
        self.get_name(id).is_some()
    }

    /// Whether a platform has this name.
    fn has_name(&self, name: &str) -> (r: bool)
        ensures
            r == self.id_of(name@) is Some,
    {
        self.get_id(name).is_some()
    }
}


/// The id bound to `name` by the last binding that names it.
pub open spec fn find_by_name(v: Seq<(Seq<char>, i32)>, name: Seq<char>) -> Option<i32>
    decreases v.len(),
{
    if v.len() == 0 {
        None
    } else if v.last().0 == name {
        Some(v.last().1)
    } else {
        find_by_name(v.drop_last(), name)
    }
}

/// `v` lists, once each and in some order, the platforms of `reg` that
/// satisfy `keep`.
pub open spec fn lists_each_once(
    v: Seq<PlatformInfoView>,
    reg: Map<i32, PlatformInfoView>,
    keep: spec_fn(PlatformInfoView) -> bool,
) -> bool {
    &&& forall|i: int|
        0 <= i < v.len() ==> reg.contains_key(#[trigger] v[i].id) && reg[v[i].id] == v[i] && keep(v[i])
    &&& forall|i: int, j: int| 0 <= i < v.len() && 0 <= j < v.len() && i != j ==> v[i].id != v[j].id
    &&& forall|id: i32|
        reg.contains_key(id) && keep(reg[id]) ==> exists|i: int| 0 <= i < v.len() && (#[trigger] v[i].id) == id
}

/// `r` holds exactly the default platforms: reddit 1, tiktok 2, facebook 3,
/// instagram 4, twitter 5, youtube 6, all active, each name bound to its id.
pub open spec fn is_default_registry(r: PlatformRegistry) -> bool {
    &&& r.infos().len() == 6
    &&& r.spec_info(1) == Some(PlatformInfoView { id: 1, name: "reddit"@, display_name: "Reddit"@, is_active: true })
    &&& r.spec_info(2) == Some(PlatformInfoView { id: 2, name: "tiktok"@, display_name: "TikTok"@, is_active: true })
    &&& r.spec_info(3) == Some(PlatformInfoView { id: 3, name: "facebook"@, display_name: "Facebook"@, is_active: true })
    &&& r.spec_info(4) == Some(PlatformInfoView { id: 4, name: "instagram"@, display_name: "Instagram"@, is_active: true })
    &&& r.spec_info(5) == Some(PlatformInfoView { id: 5, name: "twitter"@, display_name: "Twitter"@, is_active: true })
    &&& r.spec_info(6) == Some(PlatformInfoView { id: 6, name: "youtube"@, display_name: "YouTube"@, is_active: true })
    &&& forall|id: i32| !(1 <= id <= 6) ==> r.spec_info(id) is None
    &&& r.spec_id("reddit"@) == Some(1i32)
    &&& r.spec_id("tiktok"@) == Some(2i32)
    &&& r.spec_id("facebook"@) == Some(3i32)
    &&& r.spec_id("instagram"@) == Some(4i32)
    &&& r.spec_id("twitter"@) == Some(5i32)
    &&& r.spec_id("youtube"@) == Some(6i32)
    &&& forall|n: Seq<char>|
        n != "reddit"@ && n != "tiktok"@ && n != "facebook"@ && n != "instagram"@ && n != "twitter"@
            && n != "youtube"@ ==> r.spec_id(n) is None
}

/// Registry mapping platform ids to platform information and names to ids.
#[derive(Debug)]
pub struct PlatformRegistry {
    by_id: HashMap<i32, PlatformInfo>,
    name_to_id: Vec<(String, i32)>,
}

impl PlatformRegistry {
    /// The registered platforms, keyed by id.
    pub closed spec fn infos(&self) -> Map<i32, PlatformInfoView> {
        self.by_id@.map_values(|p: PlatformInfo| p@)
    }

    /// The name bindings in binding order.
    pub closed spec fn names(&self) -> Seq<(Seq<char>, i32)> {
        self.name_to_id@.map_values(|p: (String, i32)| (p.0@, p.1))
    }

    /// Information registered under `id`.
    pub open spec fn spec_info(&self, id: i32) -> Option<PlatformInfoView> {
        if self.infos().contains_key(id) {
            Some(self.infos()[id])
        } else {
            None
        }
    }

    /// Id registered under `name`.
    pub open spec fn spec_id(&self, name: Seq<char>) -> Option<i32> {
        find_by_name(self.names(), name)
    }

    /// Each platform is registered under its own id.
    #[verifier::type_invariant]
    spec fn keyed_by_id(&self) -> bool {
        forall|id: i32| #[trigger] self.by_id@.contains_key(id) ==> self.by_id@[id].id == id
    }

    /// The registered ids are those of the underlying map, so the registry
    /// has finitely many platforms.
    proof fn lemma_infos_dom(&self)
        ensures
            self.infos().dom() == self.by_id@.dom(),
            self.infos().dom().finite(),
            self.infos().len() == self.by_id@.len(),
    {
        assert(self.infos().dom() =~= self.by_id@.dom());
    }

    /// An empty registry.
    pub fn new() -> (r: PlatformRegistry)
        ensures
            r.infos().len() == 0,
            forall|id: i32| r.spec_info(id) is None,
            forall|n: Seq<char>| r.spec_id(n) is None,
    {
        let r = PlatformRegistry { by_id: HashMap::new(), name_to_id: Vec::new() };
        proof {
            assert(r.infos() =~= Map::<i32, PlatformInfoView>::empty());
            assert(r.names() =~= Seq::<(Seq<char>, i32)>::empty());
        }
        r
    }

    /// A copy with the same platforms and name bindings (so the same
    /// lookups), which can be registered into like the original.
    pub fn duplicate(&self) -> (r: PlatformRegistry)
        ensures
            r.infos() == self.infos(),
            r.names() == self.names(),
    {
        let by_id = self.by_id.clone();
        let mut names: Vec<(String, i32)> = Vec::new();
        let mut j: usize = 0;
        while j < self.name_to_id.len()
            invariant
                j <= self.name_to_id.len(),
                names@.map_values(|p: (String, i32)| (p.0@, p.1)) == self.names().take(j as int),
            decreases self.name_to_id.len() - j,
        {
            let ghost before = names@;
            let entry = (self.name_to_id[j].0.clone(), self.name_to_id[j].1);
            names.push(entry);
            proof {
                assert(names@.map_values(|p: (String, i32)| (p.0@, p.1)) =~= before.map_values(|p: (String, i32)| (p.0@, p.1)).push((self.name_to_id@[j as int].0@, self.name_to_id@[j as int].1)));
                assert(self.names().take(j + 1) =~= self.names().take(j as int).push((self.name_to_id@[j as int].0@, self.name_to_id@[j as int].1)));
            }
            j = j + 1;
        }
        proof {
            use_type_invariant(self);
        }
        let r = PlatformRegistry { by_id, name_to_id: names };
        proof {
            assert(self.names().take(self.name_to_id@.len() as int) =~= self.names());
            assert(r.infos() =~= self.infos());
        }
        r
    }

    /// The default platforms: reddit 1, tiktok 2, facebook 3, instagram 4,
    /// twitter 5, youtube 6, all active.
    pub fn with_defaults() -> (r: PlatformRegistry)
        ensures
            is_default_registry(r),
    {
        proof {
            reveal_strlit("reddit");
            reveal_strlit("tiktok");
            reveal_strlit("facebook");
            reveal_strlit("instagram");
            reveal_strlit("twitter");
            reveal_strlit("youtube");
            assert("reddit"@[0] == 'r');
            assert("tiktok"@[0] == 't' && "tiktok"@.len() == 6);
            assert("facebook"@[0] == 'f');
            assert("instagram"@[0] == 'i');
            assert("twitter"@[0] == 't' && "twitter"@.len() == 7);
            assert("youtube"@[0] == 'y');
        }
        let mut r = PlatformRegistry::new();
        r.register(PlatformInfo::new(1, "reddit", "Reddit"));
        r.register(PlatformInfo::new(2, "tiktok", "TikTok"));
        r.register(PlatformInfo::new(3, "facebook", "Facebook"));
        r.register(PlatformInfo::new(4, "instagram", "Instagram"));
        r.register(PlatformInfo::new(5, "twitter", "Twitter"));
        r.register(PlatformInfo::new(6, "youtube", "YouTube"));
        r
    }

    /// Registers a platform: its id now maps to it and its name to its id;
    /// every other id and name keeps its mapping.
    pub fn register(&mut self, platform: PlatformInfo)
        ensures
            final(self).spec_info(platform.id) == Some(platform@),
            forall|id: i32| id != platform.id ==> final(self).spec_info(id) == old(self).spec_info(id),
            final(self).spec_id(platform.name@) == Some(platform.id),
            forall|n: Seq<char>| n != platform.name@ ==> final(self).spec_id(n) == old(self).spec_id(n),
            final(self).infos().len() == old(self).infos().len() + (if old(self).spec_info(platform.id) is Some {
                0int
            } else {
                1int
            }),
    {
        let ghost pv = platform@;
        let ghost names0 = self.names();
        let ghost m0 = self.by_id@;
        proof {
            self.lemma_infos_dom();
        }
        proof {
            use_type_invariant(&*self);
        }
        let name = platform.name.clone();
        let id = platform.id;
        let mut m: HashMap<i32, PlatformInfo> = HashMap::new();
        std::mem::swap(&mut m, &mut self.by_id);
        let _ = m.insert(id, platform);
        self.by_id = m;
        proof {
            assert(self.infos() =~= old(self).infos().insert(id, pv));
            self.lemma_infos_dom();
        }
        let mut names: Vec<(String, i32)> = Vec::new();
        std::mem::swap(&mut names, &mut self.name_to_id);
        names.push((name, id));
        self.name_to_id = names;
        proof {
            assert(self.names() =~= names0.push((pv.name, id)));
            assert(self.names().drop_last() =~= names0);
            assert(self.infos() =~= old(self).infos().insert(id, pv));
        }
    }

    /// A registry holding the records `(id, name, display_name, is_active)`,
    /// registered in order.
    pub fn from_records(records: Vec<(i32, String, String, bool)>) -> (r: PlatformRegistry)
        ensures
            forall|id: i32| #![trigger r.spec_info(id)] r.spec_info(id) == records_info(records@, id),
            forall|n: Seq<char>| #![trigger r.spec_id(n)] r.spec_id(n) == records_id(records@, n),
    {
        let mut r = PlatformRegistry::new();
        let mut i: usize = 0;
        while i < records.len()
            invariant
                i <= records.len(),
                    forall|id: i32| #![trigger r.spec_info(id)] r.spec_info(id) == records_info(records@.take(i as int), id),
                forall|n: Seq<char>| #![trigger r.spec_id(n)] r.spec_id(n) == records_id(records@.take(i as int), n),
            decreases records.len() - i,
        {
            let rec = &records[i];
            let info = PlatformInfo {
                id: rec.0,
                name: rec.1.clone(),
                display_name: rec.2.clone(),
                is_active: rec.3,
            };
            proof {
                assert(records@.take(i + 1).drop_last() =~= records@.take(i as int));
                assert(records@.take(i + 1).last() == records@[i as int]);
            }
            r.register(info);
            i = i + 1;
        }
        proof {
            assert(records@.take(records.len() as int) =~= records@);
        }
        r
    }

    /// Number of registered platforms.
    pub fn len(&self) -> (r: usize)
        ensures
            r == self.infos().len(),
    {
        proof {
            self.lemma_infos_dom();
        }
        self.by_id.len()
    }

    /// Whether no platform is registered.
    pub fn is_empty(&self) -> (r: bool)
        ensures
            r == (self.infos().len() == 0),
    {
        proof {
            self.lemma_infos_dom();
        }
        self.by_id.len() == 0
    }

    /// Platform information by id.
    pub fn get_info(&self, id: i32) -> (r: Option<&PlatformInfo>)
        ensures
            match self.spec_info(id) {
                Some(p) => r matches Some(x) && x@ == p,
                None => r is None,
            },
    {
        self.by_id.get(&id)
    }

    /// Platform name by id.
    pub fn get_name(&self, id: i32) -> (r: Option<&str>)
        ensures
            match self.spec_info(id) {
                Some(p) => r matches Some(x) && x@ == p.name,
                None => r is None,
            },
    {
        match self.get_info(id) {
            Some(p) => Some(p.name.as_str()),
            None => None,
        }
    }

    /// Platform id by name.
    pub fn get_id(&self, name: &str) -> (r: Option<i32>)
        ensures
            r == self.spec_id(name@),
    {
        let mut i = self.name_to_id.len();
        proof {
            assert(self.names().take(i as int) =~= self.names());
        }
        while i > 0
            invariant
                i <= self.name_to_id.len(),
                self.spec_id(name@) == find_by_name(self.names().take(i as int), name@),
            decreases i,
        {
            proof {
                assert(self.names().take(i as int).drop_last() =~= self.names().take(i - 1));
                assert(self.names().take(i as int).last() == (self.name_to_id@[i - 1].0@, self.name_to_id@[i - 1].1));
            }
            if str_eq(self.name_to_id[i - 1].0.as_str(), name) {
                return Some(self.name_to_id[i - 1].1);
            }
            i = i - 1;
        }
        None
    }

    /// Platform information by name: the information of the id bound to the name.
    pub fn get_info_by_name(&self, name: &str) -> (r: Option<&PlatformInfo>)
        ensures
            match self.spec_id(name@) {
                Some(id) => match self.spec_info(id) {
                    Some(p) => r matches Some(x) && x@ == p,
                    None => r is None,
                },
                None => r is None,
            },
    {
        match self.get_id(name) {
            Some(id) => self.get_info(id),
            None => None,
        }
    }

    /// All platforms, each once, in the map's order.
    pub fn all_platforms(&self) -> (r: Vec<&PlatformInfo>)
        ensures
            r@.len() == self.infos().len(),
            lists_each_once(r@.map_values(|p: &PlatformInfo| p@), self.infos(), |p: PlatformInfoView| true),
    {
        self.platforms_where(false)
    }

    /// The active platforms, each once, in the map's order.
    pub fn active_platforms(&self) -> (r: Vec<&PlatformInfo>)
        ensures
            lists_each_once(r@.map_values(|p: &PlatformInfo| p@), self.infos(), |p: PlatformInfoView| p.is_active),
    {
        self.platforms_where(true)
    }

    /// The platforms (only the active ones when `active_only`), each once.
    fn platforms_where(&self, active_only: bool) -> (r: Vec<&PlatformInfo>)
        ensures
            !active_only ==> r@.len() == self.infos().len(),
            lists_each_once(
                r@.map_values(|p: &PlatformInfo| p@),
                self.infos(),
                |p: PlatformInfoView| !active_only || p.is_active,
            ),
    {
        let ghost keep = |p: PlatformInfoView| !active_only || p.is_active;
        proof {
            use_type_invariant(self);
        }
        let ghost all = spec_hash_map_iter(&self.by_id).remaining();
        let mut r: Vec<&PlatformInfo> = Vec::new();
        let ghost mut taken: Seq<int> = Seq::empty();
        let ghost mut seen: int = 0;
        for e in it: self.by_id.iter()
            invariant
                seen == it.index(),
                keep == (|p: PlatformInfoView| !active_only || p.is_active),
                it.seq() == all,
                all.no_duplicates(),
                all.len() == self.by_id@.dom().len(),
                forall|i: int| #![trigger all[i]] 0 <= i < all.len() ==> self.by_id@.contains_key(*all[i].0) && self.by_id@[*all[i].0] == *all[i].1,
                r@.len() == taken.len(),
                forall|k: int| 0 <= k < taken.len() ==> 0 <= #[trigger] taken[k] < it.index(),
                forall|k: int, l: int| 0 <= k < l < taken.len() ==> taken[k] < taken[l],
                forall|k: int| #![trigger r@[k]] 0 <= k < taken.len() ==> r@[k] == all[taken[k]].1 && keep(r@[k]@),
                forall|i: int| 0 <= i < it.index() && keep((*all[i].1)@) ==> exists|k: int| 0 <= k < taken.len() && #[trigger] taken[k] == i,
                !active_only ==> r@.len() == it.index(),
        {
            let ghost idx = it.index();
            let ghost taken0 = taken;
            let p: &PlatformInfo = e.1;
            proof {
                assert(e == all[idx]);
            }
            let kept = !active_only || p.is_active;
            proof {
                assert(kept == keep(p@));
            }
            if kept {
                proof {
                    taken = taken.push(idx);
                }
                r.push(p);
            }
            proof {
                assert(kept ==> taken == taken0.push(idx));
                seen = idx + 1;
                assert forall|i: int| 0 <= i < idx + 1 && keep((*all[i].1)@) implies exists|k: int| 0 <= k < taken.len() && #[trigger] taken[k] == i by {
                    if i < idx {
                        let k0 = choose|k: int| 0 <= k < taken0.len() && #[trigger] taken0[k] == i;
                        assert(taken[k0] == i);
                    } else {
                        assert(kept);
                        assert(taken[taken.len() - 1] == i);
                    }
                }
            }
        }
        proof {
            assert(seen == all.len());
            self.lemma_infos_dom();
            let v = r@.map_values(|p: &PlatformInfo| p@);
            use_type_invariant(self);
            assert forall|i: int| 0 <= i < v.len() implies self.infos().contains_key(#[trigger] v[i].id) && self.infos()[v[i].id] == v[i] && keep(v[i]) by {
                let t = taken[i];
                assert(all[t].1 == r@[i]);
                assert(self.by_id@.contains_key(*all[t].0));
                assert(self.by_id@[*all[t].0].id == *all[t].0);
            }
            assert forall|i: int, j: int| 0 <= i < v.len() && 0 <= j < v.len() && i != j implies v[i].id != v[j].id by {
                let ti = taken[i];
                let tj = taken[j];
                assert(r@[i] == all[ti].1);
                assert(r@[j] == all[tj].1);
                assert(self.by_id@[*all[ti].0].id == *all[ti].0);
                assert(self.by_id@[*all[tj].0].id == *all[tj].0);
                if i < j {
                    assert(ti < tj);
                } else {
                    assert(tj < ti);
                }
                assert(all[ti] != all[tj]);
            }
            assert forall|id: i32| self.infos().contains_key(id) && keep(self.infos()[id]) implies exists|i: int| 0 <= i < v.len() && (#[trigger] v[i].id) == id by {
                assert(self.by_id@.contains_key(id));
                assert(all.contains((&id, &self.by_id@[id])));
                let t = choose|t: int| 0 <= t < all.len() && all[t] == (&id, &self.by_id@[id]);
                assert(keep((*all[t].1)@));
                let k = choose|k: int| 0 <= k < taken.len() && #[trigger] taken[k] == t;
                assert(v[k] == r@[k]@);
                assert(r@[k] == all[t].1);
                assert(v[k].id == id);
            }
        }
        r
    }
}

impl Default for PlatformRegistry {
    fn default() -> (r: PlatformRegistry)
        ensures
            is_default_registry(r),
    {
        PlatformRegistry::with_defaults()
    }
}

impl PlatformLookup for PlatformRegistry {
    open spec fn info_of(&self, id: i32) -> Option<PlatformInfoView> {
        self.spec_info(id)
    }

    open spec fn id_of(&self, name: Seq<char>) -> Option<i32> {
        self.spec_id(name)
    }

    fn get_name(&self, id: i32) -> Option<&str> {
        PlatformRegistry::get_name(self, id)
    }

    fn get_id(&self, name: &str) -> Option<i32> {
        PlatformRegistry::get_id(self, name)
    }

    fn get_info(&self, id: i32) -> Option<&PlatformInfo> {
        PlatformRegistry::get_info(self, id)
    }

    fn get_info_by_name(&self, name: &str) -> Option<&PlatformInfo> {
        PlatformRegistry::get_info_by_name(self, name)
    }

    fn all_platforms(&self) -> Vec<&PlatformInfo> {
        PlatformRegistry::all_platforms(self)
    }

    fn active_platforms(&self) -> Vec<&PlatformInfo> {
        PlatformRegistry::active_platforms(self)
    }
}

// ------------------------------------------------------------------
// The process-wide registry
// ------------------------------------------------------------------

/// Installs `registry` in `slot`, the process-wide registry, unless one is
/// installed already: only the first installation takes effect.
pub fn init_global_registry(slot: &mut Option<PlatformRegistry>, registry: PlatformRegistry)
    ensures
        *old(slot) is None ==> *final(slot) == Some(registry),
        *old(slot) is Some ==> *final(slot) == *old(slot),
{
    if slot.is_none() {
        *slot = Some(registry);
    }
}

/// The process-wide registry held in `slot`, or the default platforms where
/// none is installed.
pub fn global_registry(slot: &Option<PlatformRegistry>) -> (r: PlatformRegistry)
    ensures
        match *slot {
            Some(g) => r.infos() == g.infos() && r.names() == g.names(),
            None => is_default_registry(r),
        },
{
    match slot {
        Some(g) => g.duplicate(),
        None => PlatformRegistry::with_defaults(),
    }
}

/// The id bound to `name` in the process-wide registry held in `slot`; none
/// where no registry is installed.
pub fn platform_id(slot: &Option<PlatformRegistry>, name: &str) -> (r: Option<i32>)
    ensures
        r == match *slot {
            Some(g) => g.spec_id(name@),
            None => None,
        },
{
    match slot {
        Some(g) => g.get_id(name),
        None => None,
    }
}

/// The name of the platform with id `id` in the process-wide registry held in
/// `slot`; none where no registry is installed.
pub fn platform_name(slot: &Option<PlatformRegistry>, id: i32) -> (r: Option<&str>)
    ensures
        str_opt_view(r) == match *slot {
            Some(g) => match g.spec_info(id) {
                Some(p) => Some(p.name),
                None => None,
            },
            None => None,
        },
{
    match slot {
        Some(g) => g.get_name(id),
        None => None,
    }
}

/// The information a sequence of records registers under `id` (the last record with that id).
pub open spec fn records_info(recs: Seq<(i32, String, String, bool)>, id: i32) -> Option<PlatformInfoView>
    decreases recs.len(),
{
    if recs.len() == 0 {
        None
    } else if recs.last().0 == id {
        let r = recs.last();
        Some(PlatformInfoView { id: r.0, name: r.1@, display_name: r.2@, is_active: r.3 })
    } else {
        records_info(recs.drop_last(), id)
    }
}

/// The id a sequence of records binds to `name` (the last record with that name).
pub open spec fn records_id(recs: Seq<(i32, String, String, bool)>, name: Seq<char>) -> Option<i32>
    decreases recs.len(),
{
    if recs.len() == 0 {
        None
    } else if recs.last().1@ == name {
        Some(recs.last().0)
    } else {
        records_id(recs.drop_last(), name)
    }
}

} // verus!
