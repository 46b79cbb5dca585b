//! The registry: the pool of known instances and the optional pinned
//! selection, with capability-aware random selection.
//!
//! Invariants, kept by every operation: the pool is never empty, and no two
//! pool entries share a base URL. Removing the pinned entry clears the pin in
//! the same step.

use vstd::prelude::*;

use crate::error::Error;
use crate::instance::{Instance, InstanceInfo, InstanceV};
use crate::strutil::str_eq;

verus! {

/// Relies on rand::random_range: a sample from `0..n` is uniform over that
/// range, so in particular it is below `n`. The range must not be empty.
#[verifier::external_body]
fn random_index(n: usize) -> (r: usize)
    requires
        n > 0,
    ensures
        r < n,
{
    rand::random_range(0..n)
}

/// The base URL of the fallback instance seeded into an otherwise empty pool.
pub open spec fn spec_fallback_uri() -> Seq<char> {
    "https://vid.puffyan.us"@
}

/// The fallback instance: every capability marked available.
pub open spec fn spec_fallback_instance() -> InstanceV {
    InstanceV {
        uri: spec_fallback_uri(),
        info: InstanceInfo {
            has_trending: Some(true),
            has_popular: Some(true),
            open_registrations: true,
        },
    }
}

/// No two entries share a base URL.
pub open spec fn uris_distinct(s: Seq<InstanceV>) -> bool {
    forall|i: int, j: int| 0 <= i < j < s.len() ==> s[i].uri != s[j].uri
}

/// Some entry has this base URL.
pub open spec fn spec_has_uri(s: Seq<InstanceV>, uri: Seq<char>) -> bool {
    exists|k: int| 0 <= k < s.len() && s[k].uri == uri
}

/// This exact instance is an entry of the pool.
pub open spec fn spec_in_pool(s: Seq<InstanceV>, inst: InstanceV) -> bool {
    exists|k: int| 0 <= k < s.len() && s[k] == inst
}

/// The list with every repeated base URL dropped: an entry is kept exactly
/// when its URL does not occur earlier in the list.
pub open spec fn spec_dedupe(s: Seq<InstanceV>) -> Seq<InstanceV>
    decreases s.len(),
{
    if s.len() == 0 {
        Seq::<InstanceV>::empty()
    } else {
        let init = spec_dedupe(s.drop_last());
        if spec_has_uri(s.drop_last(), s.last().uri) {
            init
        } else {
            init.push(s.last())
        }
    }
}

proof fn lemma_has_uri_unsnoc(s: Seq<InstanceV>, uri: Seq<char>)
    requires
        s.len() > 0,
    ensures
        spec_has_uri(s, uri) == (spec_has_uri(s.drop_last(), uri) || s.last().uri == uri),
{
    if spec_has_uri(s, uri) {
        let k = choose|k: int| 0 <= k < s.len() && s[k].uri == uri;
        if k < s.len() - 1 {
            assert(s.drop_last()[k] == s[k]);
            assert(spec_has_uri(s.drop_last(), uri));
        }
    }
    if spec_has_uri(s.drop_last(), uri) {
        let k = choose|k: int| 0 <= k < s.drop_last().len() && s.drop_last()[k].uri == uri;
        assert(s[k] == s.drop_last()[k]);
        assert(spec_has_uri(s, uri));
    }
    if s.last().uri == uri {
        assert(s[s.len() - 1].uri == uri);
        assert(spec_has_uri(s, uri));
    }
}

proof fn lemma_has_uri_push(s: Seq<InstanceV>, x: InstanceV, uri: Seq<char>)
    ensures
        spec_has_uri(s.push(x), uri) == (spec_has_uri(s, uri) || x.uri == uri),
{
    assert(s.push(x).drop_last() =~= s);
    assert(s.push(x).last() == x);
    lemma_has_uri_unsnoc(s.push(x), uri);
}

proof fn lemma_dedupe_has_uri(s: Seq<InstanceV>, uri: Seq<char>)
    ensures
        spec_has_uri(spec_dedupe(s), uri) == spec_has_uri(s, uri),
    decreases s.len(),
{
    if s.len() == 0 {
    } else {
        lemma_dedupe_has_uri(s.drop_last(), uri);
        lemma_has_uri_unsnoc(s, uri);
        if !spec_has_uri(s.drop_last(), s.last().uri) {
            lemma_has_uri_push(spec_dedupe(s.drop_last()), s.last(), uri);
        }
    }
}

proof fn lemma_dedupe_distinct(s: Seq<InstanceV>)
    ensures
        uris_distinct(spec_dedupe(s)),
    decreases s.len(),
{
    if s.len() > 0 {
        lemma_dedupe_distinct(s.drop_last());
        let init = spec_dedupe(s.drop_last());
        let x = s.last();
        if !spec_has_uri(s.drop_last(), x.uri) {
            lemma_dedupe_has_uri(s.drop_last(), x.uri);
            assert forall|i: int, j: int|
                0 <= i < j < init.push(x).len() implies init.push(x)[i].uri != init.push(
                x,
            )[j].uri by {
                if j < init.len() {
                    assert(init.push(x)[i] == init[i]);
                    assert(init.push(x)[j] == init[j]);
                } else {
                    assert(init.push(x)[i] == init[i]);
                    assert(init.push(x)[j] == x);
                    assert(!spec_has_uri(init, x.uri));
                }
            }
        }
    }
}

fn vec_has_uri(v: &Vec<Instance>, uri: &str) -> (r: bool)
    ensures
        r == spec_has_uri(v.deep_view(), uri@),
{
    let n = v.len();
    let mut i: usize = 0;
    while i < n
        invariant
            i <= n,
            n == v@.len(),
            forall|k: int| 0 <= k < i ==> v.deep_view()[k].uri != uri@,
        decreases n - i,
    {
        if str_eq(v[i].uri.as_str(), uri) {
            proof {
                assert(v.deep_view()[i as int].uri == uri@);
                assert(spec_has_uri(v.deep_view(), uri@));
            }
            return true;
        }
        i += 1;
    }
    false
}

/// Drops every entry whose base URL occurred earlier in the list, keeping
/// first occurrences in order. The result satisfies the uniqueness that
/// `InvidiousClient::new` asks of its pool.
pub fn dedupe_instances(instances: Vec<Instance>) -> (r: Vec<Instance>)
    ensures
        r.deep_view() == spec_dedupe(instances.deep_view()),
        uris_distinct(r.deep_view()),
{
    let mut out: Vec<Instance> = Vec::new();
    let n = instances.len();
    let mut i: usize = 0;
    while i < n
        invariant
            i <= n,
            n == instances@.len(),
            out.deep_view() == spec_dedupe(instances.deep_view().subrange(0, i as int)),
        decreases n - i,
    {
        let ghost prefix = instances.deep_view().subrange(0, i as int);
        let dup = vec_has_uri(&out, instances[i].uri.as_str());
        proof {
            lemma_dedupe_has_uri(prefix, instances@[i as int].uri@);
        }
        if !dup {
            out.push(instances[i].clone());
        }
        proof {
            let prefix1 = instances.deep_view().subrange(0, i + 1);
            assert(prefix1.drop_last() =~= prefix);
            assert(prefix1.last() == instances@[i as int].deep_view());
            assert(out.deep_view() =~= spec_dedupe(prefix1));
        }
        i += 1;
    }
    proof {
        assert(instances.deep_view().subrange(0, n as int) =~= instances.deep_view());
        lemma_dedupe_distinct(instances.deep_view());
    }
    out
}

/// The registry over the instance pool and the pinned selection.
#[derive(Debug)]
pub struct InvidiousClient {
    instances: Vec<Instance>,
    selected: Option<Instance>,
}

impl InvidiousClient {
    /// The pool, in display order.
    pub closed spec fn pool(&self) -> Seq<InstanceV> {
        self.instances.deep_view()
    }

    /// The pinned selection, if any.
    pub closed spec fn pin(&self) -> Option<InstanceV> {
        self.selected.deep_view()
    }

    /// The registry invariant: a nonempty pool of distinct base URLs.
    pub open spec fn wf(&self) -> bool {
        self.pool().len() >= 1 && uris_distinct(self.pool())
    }

    /// Builds a registry from the given pool; an empty pool is seeded with
    /// the one hardcoded fallback instance. Nothing starts pinned.
    pub fn new(instances: Vec<Instance>) -> (r: InvidiousClient)
        requires
            uris_distinct(instances.deep_view()),
        ensures
            r.wf(),
            r.pin() is None,
            instances.deep_view().len() == 0 ==> r.pool() =~= seq![spec_fallback_instance()],
            instances.deep_view().len() > 0 ==> r.pool() == instances.deep_view(),
    {
        if instances.len() == 0 {
            let mut seeded: Vec<Instance> = Vec::new();
            seeded.push(
                Instance {
                    uri: "https://vid.puffyan.us".to_owned(),
                    info: InstanceInfo {
                        has_trending: Some(true),
                        has_popular: Some(true),
                        open_registrations: true,
                    },
                },
            );
            proof {
                assert(seeded.deep_view() =~= seq![spec_fallback_instance()]);
            }
            InvidiousClient { instances: seeded, selected: None }
        } else {
            InvidiousClient { instances, selected: None }
        }
    }

    /// A snapshot of the pool.
    pub fn instances(&self) -> (r: Vec<Instance>)
        ensures
            r.deep_view() == self.pool(),
    {
        let mut out: Vec<Instance> = Vec::new();
        let n = self.instances.len();
        let mut i: usize = 0;
        while i < n
            invariant
                i <= n,
                n == self.instances@.len(),
                out@.len() == i,
                forall|k: int| 0 <= k < i ==> out@[k] == self.instances@[k],
            decreases n - i,
        {
            out.push(self.instances[i].clone());
            i += 1;
        }
        proof {
            assert(out.deep_view() =~= self.pool());
        }
        out
    }

    /// The pinned instance, if any.
    pub fn selected_instance(&self) -> (r: Option<Instance>)
        ensures
            match r {
                Some(inst) => self.pin() == Some(inst.deep_view()),
                None => self.pin() is None,
            },
    {
        match &self.selected {
            Some(inst) => Some(inst.clone()),
            None => None,
        }
    }

    /// Whether this instance (by base URL) is the pinned one.
    pub fn is_selected(&self, instance: &Instance) -> (r: bool)
        ensures
            r == match self.pin() {
                Some(p) => p.uri == instance.uri@,
                None => false,
            },
    {
        match &self.selected {
            Some(s) => str_eq(s.uri.as_str(), instance.uri.as_str()),
            None => false,
        }
    }

    /// Whether an instance with this base URL is in the pool.
    pub fn is_added(&self, instance: &Instance) -> (r: bool)
        ensures
            r == spec_has_uri(self.pool(), instance.uri@),
    {
        self.has_uri(instance.uri.as_str())
    }

    fn has_uri(&self, uri: &str) -> (r: bool)
        ensures
            r == spec_has_uri(self.pool(), uri@),
    {
        let n = self.instances.len();
        let mut i: usize = 0;
        while i < n
            invariant
                i <= n,
                n == self.instances@.len(),
                forall|k: int| 0 <= k < i ==> self.pool()[k].uri != uri@,
            decreases n - i,
        {
            if str_eq(self.instances[i].uri.as_str(), uri) {
                proof {
                    assert(self.pool()[i as int].uri == uri@);
                    assert(spec_has_uri(self.pool(), uri@));
                }
                return true;
            }
            i += 1;
        }
        false
    }

    /// The instance to use for an ordinary request: the pinned one when a pin
    /// is set, otherwise a uniformly random pool entry. Never fails, because
    /// the pool is never empty.
    pub fn get_instance(&self) -> (r: Instance)
        requires
            self.wf(),
        ensures
            match self.pin() {
                Some(p) => r.deep_view() == p,
                None => spec_in_pool(self.pool(), r.deep_view()),
            },
    {
        match &self.selected {
            Some(inst) => inst.clone(),
            None => {
                let idx = random_index(self.instances.len());
                let r = self.instances[idx].clone();
                proof {
                    assert(self.pool()[idx as int] == self.instances@[idx as int].deep_view());
                    assert(spec_in_pool(self.pool(), r.deep_view()));
                }
                r
            },
        }
    }

    #[verifier::loop_isolation(false)]
    fn get_filtered_instance(&self, want_trending: bool) -> (r: Result<Instance, Error>)
        requires
            self.wf(),
        ensures
            match r {
                Ok(inst) => spec_in_pool(self.pool(), inst.deep_view()) && (if want_trending {
                    inst.info.has_trending
                } else {
                    inst.info.has_popular
                }) == Some(true),
                Err(e) => e == Error::InstanceNotFound && forall|k: int|
                    0 <= k < self.pool().len() ==> (if want_trending {
                        self.pool()[k].info.has_trending
                    } else {
                        self.pool()[k].info.has_popular
                    }) != Some(true),
            },
    {
        let mut eligible: Vec<Instance> = Vec::new();
        let n = self.instances.len();
        let mut i: usize = 0;
        while i < n
            invariant
                i <= n,
                n == self.instances@.len(),
                forall|k: int|
                    0 <= k < eligible@.len() ==> spec_in_pool(
                        self.pool(),
                        #[trigger] eligible@[k].deep_view(),
                    ),
                forall|k: int|
                    0 <= k < eligible@.len() ==> (if want_trending {
                        #[trigger] eligible@[k].info.has_trending
                    } else {
                        eligible@[k].info.has_popular
                    }) == Some(true),
                eligible@.len() == 0 ==> forall|k: int|
                    0 <= k < i ==> (if want_trending {
                        self.pool()[k].info.has_trending
                    } else {
                        self.pool()[k].info.has_popular
                    }) != Some(true),
            decreases n - i,
        {
            let flag = if want_trending {
                self.instances[i].info.has_trending
            } else {
                self.instances[i].info.has_popular
            };
            if let Some(supported) = flag {
                if supported {
                    let inst = self.instances[i].clone();
                    proof {
                        assert(self.pool()[i as int] == self.instances@[i as int].deep_view());
                        assert(spec_in_pool(self.pool(), inst.deep_view()));
                    }
                    eligible.push(inst);
                }
            }
            i += 1;
        }
        if eligible.len() == 0 {
            Err(Error::InstanceNotFound)
        } else {
            let idx = random_index(eligible.len());
            let r = eligible[idx].clone();
            proof {
                assert(eligible@[idx as int].deep_view() == r.deep_view());
            }
            Ok(r)
        }
    }

    /// A uniformly random instance among those whose trending feed was
    /// probed as supported; `InstanceNotFound` when there is none.
    pub fn get_trending_instance(&self) -> (r: Result<Instance, Error>)
        requires
            self.wf(),
        ensures
            match r {
                Ok(inst) => spec_in_pool(self.pool(), inst.deep_view())
                    && inst.info.has_trending == Some(true),
                Err(e) => e == Error::InstanceNotFound && forall|k: int|
                    0 <= k < self.pool().len() ==> self.pool()[k].info.has_trending != Some(true),
            },
    {
        self.get_filtered_instance(true)
    }

    /// A uniformly random instance among those whose popular feed was probed
    /// as supported; `InstanceNotFound` when there is none.
    pub fn get_popular_instance(&self) -> (r: Result<Instance, Error>)
        requires
            self.wf(),
        ensures
            match r {
                Ok(inst) => spec_in_pool(self.pool(), inst.deep_view())
                    && inst.info.has_popular == Some(true),
                Err(e) => e == Error::InstanceNotFound && forall|k: int|
                    0 <= k < self.pool().len() ==> self.pool()[k].info.has_popular != Some(true),
            },
    {
        self.get_filtered_instance(false)
    }

    /// Appends an instance to the pool. A base URL already present is
    /// refused with `InstanceExists`, and nothing changes.
    pub fn push_instance(&mut self, instance: Instance) -> (r: Result<(), Error>)
        requires
            old(self).wf(),
        ensures
            final(self).wf(),
            final(self).pin() == old(self).pin(),
            match r {
                Ok(_) => !spec_has_uri(old(self).pool(), instance.uri@) && final(self).pool()
                    == old(self).pool().push(instance.deep_view()),
                Err(e) => e == Error::InstanceExists && spec_has_uri(
                    old(self).pool(),
                    instance.uri@,
                ) && final(self).pool() == old(self).pool(),
            },
    {
        if self.has_uri(instance.uri.as_str()) {
            Err(Error::InstanceExists)
        } else {
            proof {
                assert forall|i: int, j: int|
                    0 <= i < j < old(self).pool().push(instance.deep_view()).len() implies old(
                        self,
                    ).pool().push(instance.deep_view())[i].uri != old(self).pool().push(
                        instance.deep_view(),
                    )[j].uri by {
                        if j < old(self).pool().len() {
                        } else {
                            assert(old(self).pool()[i].uri != instance.uri@);
                        }
                    }
            }
            self.instances.push(instance);
            proof {
                assert(self.pool() =~= old(self).pool().push(instance.deep_view()));
            }
            Ok(())
        }
    }

    /// Removes the pool entry with this base URL. An absent URL is
    /// `InstanceNotFound`; removing the last remaining entry is refused with
    /// `AtLeastOneInstance`. Removing the pinned entry clears the pin.
    pub fn remove_instance(&mut self, instance_uri: &str) -> (r: Result<(), Error>)
        requires
            old(self).wf(),
        ensures
            final(self).wf(),
            final(self).pool().len() >= 1,
            match r {
                Ok(_) => spec_has_uri(old(self).pool(), instance_uri@) && old(self).pool().len()
                    > 1 && (exists|k: int|
                    0 <= k < old(self).pool().len() && old(self).pool()[k].uri == instance_uri@
                        && final(self).pool() == old(self).pool().remove(k)) && final(self).pin()
                    == (match old(self).pin() {
                    Some(p) => if p.uri == instance_uri@ {
                        None
                    } else {
                        Some(p)
                    },
                    None => None::<InstanceV>,
                }),
                Err(e) => final(self).pool() == old(self).pool() && final(self).pin() == old(
                    self,
                ).pin() && ((e == Error::InstanceNotFound && !spec_has_uri(
                    old(self).pool(),
                    instance_uri@,
                )) || (e == Error::AtLeastOneInstance && spec_has_uri(
                    old(self).pool(),
                    instance_uri@,
                ) && old(self).pool().len() == 1)),
            },
    {
        let n = self.instances.len();
        let mut position: usize = 0;
        let mut found = false;
        while position < n
            invariant_except_break
                !found,
            invariant
                position <= n,
                n == self.instances@.len(),
                forall|k: int| 0 <= k < position ==> self.pool()[k].uri != instance_uri@,
            ensures
                position <= n,
                n == self.instances@.len(),
                found ==> position < n && self.pool()[position as int].uri == instance_uri@,
                !found ==> forall|k: int| 0 <= k < n ==> self.pool()[k].uri != instance_uri@,
            decreases n - position,
        {
            if str_eq(self.instances[position].uri.as_str(), instance_uri) {
                found = true;
                break ;
            }
            position += 1;
        }
        if !found {
            return Err(Error::InstanceNotFound);
        }
        if n == 1 {
            return Err(Error::AtLeastOneInstance);
        }
        let clear_pin = match &self.selected {
            Some(s) => str_eq(s.uri.as_str(), instance_uri),
            None => false,
        };
        if clear_pin {
            self.selected = None;
        }
        self.instances.remove(position);
        proof {
            let oldp = old(self).pool();
            oldp.remove_ensures(position as int);
            assert(self.pool() =~= oldp.remove(position as int));
            assert forall|i: int, j: int|
                0 <= i < j < self.pool().len() implies self.pool()[i].uri != self.pool()[j].uri by {
                let p = position as int;
                let i0 = if i < p {
                    i
                } else {
                    i + 1
                };
                let j0 = if j < p {
                    j
                } else {
                    j + 1
                };
                assert(self.pool()[i] == oldp[i0]);
                assert(self.pool()[j] == oldp[j0]);
            }
        }
        Ok(())
    }

    /// Pins the given instance, or clears the pin.
    pub fn select_instance(&mut self, instance: Option<&Instance>) -> (r: Result<(), Error>)
        requires
            old(self).wf(),
        ensures
            final(self).wf(),
            r is Ok,
            final(self).pool() == old(self).pool(),
            final(self).pin() == match instance {
                Some(inst) => Some(inst.deep_view()),
                None => None::<InstanceV>,
            },
    {
        match instance {
            Some(inst) => {
                self.selected = Some(inst.clone());
            },
            None => {
                self.selected = None;
            },
        }
        Ok(())
    }

    /// Pins the pool entry with this base URL; an absent URL is
    /// `InstanceNotFound`, and the pin is left as it was.
    #[verifier::loop_isolation(false)]
    pub fn select_instance_by_name(&mut self, instance: &str) -> (r: Result<(), Error>)
        requires
            old(self).wf(),
        ensures
            final(self).wf(),
            final(self).pool() == old(self).pool(),
            match r {
                Ok(_) => exists|k: int|
                    0 <= k < old(self).pool().len() && old(self).pool()[k].uri == instance@
                        && final(self).pin() == Some(old(self).pool()[k]),
                Err(e) => e == Error::InstanceNotFound && !spec_has_uri(
                    old(self).pool(),
                    instance@,
                ) && final(self).pin() == old(self).pin(),
            },
    {
        let n = self.instances.len();
        let mut i: usize = 0;
        while i < n
            invariant
                i <= n,
                n == self.instances@.len(),
                self.instances == old(self).instances,
                self.selected == old(self).selected,
                forall|k: int| 0 <= k < i ==> self.pool()[k].uri != instance@,
            decreases n - i,
        {
            if str_eq(self.instances[i].uri.as_str(), instance) {
                let inst = self.instances[i].clone();
                proof {
                    assert(old(self).pool()[i as int] == old(self).instances@[
                        i as int].deep_view());
                }
                self.selected = Some(inst);
                return Ok(());
            }
            i += 1;
        }
        Err(Error::InstanceNotFound)
    }

    /// Pins the pool entry at this index; `OutOfBounds` when the index is
    /// not below the pool length. The last valid index pins the last entry.
    pub fn select_instance_by_index(&mut self, index: usize) -> (r: Result<(), Error>)
        requires
            old(self).wf(),
        ensures
            final(self).wf(),
            final(self).pool() == old(self).pool(),
            match r {
                Ok(_) => index < old(self).pool().len() && final(self).pin() == Some(
                    old(self).pool()[index as int],
                ),
                Err(e) => e == Error::OutOfBounds && index >= old(self).pool().len() && final(self).pin() == old(self).pin(),
            },
    {
        if index < self.instances.len() {
            let inst = self.instances[index].clone();
            proof {
                assert(old(self).pool()[index as int] == old(self).instances@[
                    index as int].deep_view());
            }
            self.selected = Some(inst);
            Ok(())
        } else {
            Err(Error::OutOfBounds)
        }
    }
}

} // verus!
