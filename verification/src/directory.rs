//! The characteristic directory of a connected peripheral.
//!
//! Service discovery reports a list of characteristics, each addressed by the
//! UUID of its service and its own UUID. The directory indexes that list by
//! the UUID pair. The handle of a pair is the position of its first entry in
//! the reported list, so the bridge can find the native characteristic again.

use std::collections::HashSet;
use vstd::prelude::*;
use vstd::std_specs::hash::*;
use crate::resolver::Uuid;

verus! {

broadcast use vstd::std_specs::hash::group_hash_axioms;

/// The address of one characteristic: its service and its own UUID.
#[derive(Debug, Clone, Copy, PartialEq, Eq, Structural)]
pub struct CharacteristicEntry {
    pub service: Uuid,
    pub characteristic: Uuid,
}

/// The entry that a service and a characteristic UUID address together.
pub open spec fn pair(service: Uuid, characteristic: Uuid) -> CharacteristicEntry {
    CharacteristicEntry { service, characteristic }
}

/// The elements of `s` without repetition, each at the place of its first
/// occurrence.
pub open spec fn distinct<A>(s: Seq<A>) -> Seq<A>
    decreases s.len(),
{
    if s.len() == 0 {
        Seq::empty()
    } else if s.drop_last().contains(s.last()) {
        distinct(s.drop_last())
    } else {
        distinct(s.drop_last()).push(s.last())
    }
}

/// Whether `i` is the first position of `s` that holds `x`.
pub open spec fn is_first_position<A>(s: Seq<A>, x: A, i: int) -> bool {
    &&& 0 <= i < s.len()
    &&& s[i] == x
    &&& forall|j: int| 0 <= j < i ==> s[j] != x
}

/// The first position of `s` that holds `x`, if there is one.
pub open spec fn first_position<A>(s: Seq<A>, x: A) -> Option<int>
    decreases s.len(),
{
    if s.len() == 0 {
        None
    } else {
        match first_position(s.drop_last(), x) {
            Some(i) => Some(i),
            None => if s.last() == x {
                Some(s.len() - 1)
            } else {
                None
            },
        }
    }
}

/// The service UUID of each entry, in the order of the entries.
pub open spec fn services_of(entries: Seq<CharacteristicEntry>) -> Seq<Uuid> {
    entries.map_values(|e: CharacteristicEntry| e.service)
}

/// The test for an entry that belongs to `service`.
pub open spec fn belongs_to(service: Uuid) -> spec_fn(CharacteristicEntry) -> bool {
    |e: CharacteristicEntry| e.service == service
}

/// The services that a reported list names, each once, in first-seen order.
pub open spec fn distinct_services(raw: Seq<CharacteristicEntry>) -> Seq<Uuid> {
    distinct(services_of(raw))
}

/// The characteristics that a reported list holds under `service`: one for
/// each distinct UUID pair of that service, in first-seen order.
pub open spec fn characteristics_under(raw: Seq<CharacteristicEntry>, service: Uuid) -> Seq<Uuid> {
    distinct(raw).filter(belongs_to(service)).map_values(|e: CharacteristicEntry| e.characteristic)
}

/// `distinct` keeps exactly the elements of the sequence.
pub proof fn lemma_distinct_contains<A>(s: Seq<A>, x: A)
    ensures
        distinct(s).contains(x) <==> s.contains(x),
    decreases s.len(),
{
    if s.len() > 0 {
        let head = s.drop_last();
        lemma_distinct_contains(head, x);
        lemma_distinct_contains(head, s.last());
        if distinct(s).contains(x) {
            let k = choose|k: int| 0 <= k < distinct(s).len() && distinct(s)[k] == x;
            if head.contains(s.last()) || k < distinct(head).len() {
                assert(distinct(head)[k] == x);
                let i = choose|i: int| 0 <= i < head.len() && head[i] == x;
                assert(s[i] == x);
            } else {
                assert(s[s.len() - 1] == x);
            }
        }
        if s.contains(x) {
            let i = choose|i: int| 0 <= i < s.len() && s[i] == x;
            if i < s.len() - 1 {
                assert(head[i] == x);
                let k = choose|k: int| 0 <= k < distinct(head).len() && distinct(head)[k] == x;
                assert(distinct(s)[k] == x);
            } else if head.contains(s.last()) {
            } else {
                assert(distinct(s)[distinct(s).len() - 1] == x);
            }
        }
    }
}

/// `distinct` holds no element twice.
pub proof fn lemma_distinct_no_duplicates<A>(s: Seq<A>)
    ensures
        distinct(s).no_duplicates(),
    decreases s.len(),
{
    if s.len() > 0 {
        let head = s.drop_last();
        lemma_distinct_no_duplicates(head);
        lemma_distinct_contains(head, s.last());
        if !head.contains(s.last()) {
            let d = distinct(s);
            assert forall|i: int, j: int|
                0 <= i < d.len() && 0 <= j < d.len() && i != j implies d[i] != d[j] by {
                if i == d.len() - 1 {
                    assert(distinct(head)[j] == d[j]);
                } else if j == d.len() - 1 {
                    assert(distinct(head)[i] == d[i]);
                }
            }
        }
    }
}

/// `distinct` of a sequence is empty only where the sequence is.
pub proof fn lemma_distinct_empty<A>(s: Seq<A>)
    ensures
        distinct(s).len() == 0 <==> s.len() == 0,
{
    if s.len() > 0 {
        lemma_distinct_contains(s, s[0]);
    }
}

/// `first_position` finds the first occurrence, and finds none only where
/// the sequence does not hold the element.
pub proof fn lemma_first_position<A>(s: Seq<A>, x: A)
    ensures
        match first_position(s, x) {
            Some(i) => is_first_position(s, x, i),
            None => !s.contains(x),
        },
    decreases s.len(),
{
    if s.len() > 0 {
        let head = s.drop_last();
        lemma_first_position(head, x);
        match first_position(head, x) {
            Some(i) => {
                assert(s[i] == head[i]);
                assert forall|j: int| 0 <= j < i implies s[j] != x by {
                    assert(s[j] == head[j]);
                }
            },
            None => {
                assert forall|j: int| 0 <= j < s.len() - 1 implies s[j] != x by {
                    assert(head[j] == s[j]);
                }
            },
        }
    }
}

/// Filtering a sequence without repetition leaves one without repetition.
proof fn lemma_filter_no_duplicates<A>(s: Seq<A>, keep: spec_fn(A) -> bool)
    requires
        s.no_duplicates(),
    ensures
        s.filter(keep).no_duplicates(),
    decreases s.len(),
{
    reveal(Seq::filter);
    if s.len() > 0 {
        let head = s.drop_last();
        assert forall|i: int, j: int|
            0 <= i < head.len() && 0 <= j < head.len() && i != j implies head[i] != head[j] by {
            assert(head[i] == s[i] && head[j] == s[j]);
        }
        lemma_filter_no_duplicates(head, keep);
        if keep(s.last()) {
            let kept = head.filter(keep);
            if kept.contains(s.last()) {
                head.lemma_filter_contains_rev(keep, s.last());
                let i = choose|i: int| 0 <= i < head.len() && head[i] == s.last();
                assert(s[i] == s[s.len() - 1]);
            }
            let all = s.filter(keep);
            assert forall|i: int, j: int|
                0 <= i < all.len() && 0 <= j < all.len() && i != j implies all[i] != all[j] by {
                if i == all.len() - 1 {
                    assert(kept[j] == all[j]);
                } else if j == all.len() - 1 {
                    assert(kept[i] == all[i]);
                }
            }
        }
    }
}

/// A UUID pair resolves exactly where the reported list holds it: a pair that
/// the list does not hold is not found, whatever the list and the pair are.
pub proof fn lemma_find_exactly_reported(
    raw: Seq<CharacteristicEntry>,
    service: Uuid,
    characteristic: Uuid,
)
    ensures
        first_position(raw, pair(service, characteristic)) is Some <==> raw.contains(
            pair(service, characteristic),
        ),
        first_position(raw, pair(service, characteristic)) matches Some(handle)
            ==> is_first_position(raw, pair(service, characteristic), handle),
{
    lemma_first_position(raw, pair(service, characteristic));
}

/// The enumerated services are the services of the reported entries, no more
/// and no fewer, and none is enumerated twice.
pub proof fn lemma_services_deduplicated(raw: Seq<CharacteristicEntry>)
    ensures
        distinct_services(raw).no_duplicates(),
        forall|service: Uuid| #[trigger]
            distinct_services(raw).contains(service) <==> exists|i: int|
                0 <= i < raw.len() && (#[trigger] raw[i]).service == service,
{
    lemma_distinct_no_duplicates(services_of(raw));
    assert forall|service: Uuid| #[trigger]
        distinct_services(raw).contains(service) <==> exists|i: int|
            0 <= i < raw.len() && (#[trigger] raw[i]).service == service by {
        lemma_distinct_contains(services_of(raw), service);
        if services_of(raw).contains(service) {
            let i = choose|i: int|
                0 <= i < services_of(raw).len() && services_of(raw)[i] == service;
            assert(raw[i].service == service);
        }
        if exists|i: int| 0 <= i < raw.len() && (#[trigger] raw[i]).service == service {
            let i = choose|i: int| 0 <= i < raw.len() && (#[trigger] raw[i]).service == service;
            assert(services_of(raw)[i] == service);
        }
    }
}

/// The characteristics enumerated under a service are those that the reported
/// list pairs with it, no more and no fewer, and none is enumerated twice.
pub proof fn lemma_characteristics_filtered(raw: Seq<CharacteristicEntry>, service: Uuid)
    ensures
        characteristics_under(raw, service).no_duplicates(),
        forall|characteristic: Uuid| #[trigger]
            characteristics_under(raw, service).contains(characteristic) <==> raw.contains(
                pair(service, characteristic),
            ),
{
    let own = |e: CharacteristicEntry| e.characteristic;
    let unique = distinct(raw);
    let kept = unique.filter(belongs_to(service));
    let listed = kept.map_values(own);
    assert(listed == characteristics_under(raw, service));
    lemma_distinct_no_duplicates(raw);
    lemma_filter_no_duplicates(unique, belongs_to(service));
    assert forall|k: int| 0 <= k < kept.len() implies #[trigger] kept[k] == pair(
        service,
        listed[k],
    ) by {
        unique.lemma_filter_pred(belongs_to(service), k);
    }
    assert forall|i: int, j: int|
        0 <= i < listed.len() && 0 <= j < listed.len() && i != j implies listed[i] != listed[j] by {
        assert(kept[i] == pair(service, listed[i]));
        assert(kept[j] == pair(service, listed[j]));
    }
    assert forall|characteristic: Uuid| #[trigger]
        listed.contains(characteristic) <==> raw.contains(pair(service, characteristic)) by {
        let wanted = pair(service, characteristic);
        lemma_distinct_contains(raw, wanted);
        if listed.contains(characteristic) {
            let k = choose|k: int| 0 <= k < listed.len() && listed[k] == characteristic;
            assert(kept[k] == wanted);
            unique.lemma_filter_contains_rev(belongs_to(service), wanted);
        }
        if raw.contains(wanted) {
            let i = choose|i: int| 0 <= i < unique.len() && unique[i] == wanted;
            unique.lemma_filter_contains(belongs_to(service), i);
            let k = choose|k: int| 0 <= k < kept.len() && kept[k] == wanted;
            assert(listed[k] == characteristic);
        }
    }
}

/// The index of the characteristics that service discovery reported.
pub struct Directory {
    /// The distinct UUID pairs, in first-seen order.
    entries: Vec<CharacteristicEntry>,
    /// For each distinct pair, the position of its first report.
    handles: Vec<usize>,
    /// The distinct services, in first-seen order.
    services: Vec<Uuid>,
    /// The list as it was reported.
    source: Ghost<Seq<CharacteristicEntry>>,
}

impl View for Directory {
    type V = Seq<CharacteristicEntry>;

    /// The list of characteristics as service discovery reported it.
    closed spec fn view(&self) -> Seq<CharacteristicEntry> {
        self.source@
    }
}

/// Looks for an entry in a list without repetition.
fn position_of(entries: &Vec<CharacteristicEntry>, wanted: CharacteristicEntry) -> (r: Option<
    usize,
>)
    ensures
        match r {
            Some(k) => k < entries.len() && entries@[k as int] == wanted,
            None => !entries@.contains(wanted),
        },
{
    let mut k: usize = 0;
    while k < entries.len()
        invariant
            k <= entries.len(),
            forall|j: int| 0 <= j < k ==> entries@[j] != wanted,
        decreases entries.len() - k,
    {
        if entries[k] == wanted {
            return Some(k);
        }
        k += 1;
    }
    None
}

impl Directory {
    #[verifier::type_invariant]
    spec fn indexes_source(&self) -> bool {
        &&& self.entries@ == distinct(self.source@)
        &&& self.handles@.len() == self.entries@.len()
        &&& forall|k: int|
            0 <= k < self.entries@.len() ==> is_first_position(
                self.source@,
                #[trigger] self.entries@[k],
                self.handles@[k] as int,
            )
        &&& self.services@ == distinct_services(self.source@)
    }

    /// The directory of a peripheral whose services are not discovered.
    pub fn new() -> (d: Directory)
        ensures
            d@ == Seq::<CharacteristicEntry>::empty(),
    {
        let ghost source = Seq::<CharacteristicEntry>::empty();
        proof {
            assert(services_of(source) =~= Seq::<Uuid>::empty());
        }
        Directory {
            entries: Vec::new(),
            handles: Vec::new(),
            services: Vec::new(),
            source: Ghost(source),
        }
    }

    /// Indexes the list of characteristics that service discovery reported.
    /// Entries that repeat a UUID pair collapse into the first of them.
    pub fn build(raw: &Vec<CharacteristicEntry>) -> (d: Directory)
        ensures
            d@ == raw@,
    {
        let mut entries: Vec<CharacteristicEntry> = Vec::new();
        let mut handles: Vec<usize> = Vec::new();
        let mut services: Vec<Uuid> = Vec::new();
        let mut seen: HashSet<u128> = HashSet::new();
        let mut i: usize = 0;
        proof {
            assert(raw@.take(0) =~= Seq::<CharacteristicEntry>::empty());
            assert(services_of(raw@.take(0)) =~= Seq::<Uuid>::empty());
        }
        while i < raw.len()
            invariant
                i <= raw.len(),
                entries@ == distinct(raw@.take(i as int)),
                handles@.len() == entries@.len(),
                forall|k: int|
                    0 <= k < entries@.len() ==> is_first_position(
                        raw@.take(i as int),
                        #[trigger] entries@[k],
                        handles@[k] as int,
                    ),
                services@ == distinct_services(raw@.take(i as int)),
                forall|v: u128|
                    seen@.contains(v) <==> services_of(raw@.take(i as int)).contains(
                        Uuid { value: v },
                    ),
            decreases raw.len() - i,
        {
            let entry = raw[i];
            let ghost before = raw@.take(i as int);
            let ghost after = raw@.take(i as int + 1);
            proof {
                assert(after.drop_last() =~= before);
                assert(after.last() == entry);
                assert(services_of(after).drop_last() =~= services_of(before));
                assert(services_of(after).last() == entry.service);
                lemma_distinct_contains(before, entry);
                assert forall|k: int| 0 <= k < entries@.len() implies is_first_position(
                    after,
                    #[trigger] entries@[k],
                    handles@[k] as int,
                ) by {
                    let h = handles@[k] as int;
                    assert(is_first_position(before, entries@[k], h));
                    assert(after[h] == before[h]);
                    assert forall|j: int| 0 <= j < h implies after[j] != entries@[k] by {
                        assert(after[j] == before[j]);
                    }
                }
            }
            if position_of(&entries, entry).is_none() {
                proof {
                    assert forall|j: int| 0 <= j < i implies after[j] != entry by {
                        assert(before[j] == after[j]);
                    }
                    assert(is_first_position(after, entry, i as int));
                }
                entries.push(entry);
                handles.push(i);
            }
            let fresh = seen.insert(entry.service.value);
            if fresh {
                services.push(entry.service);
            }
            proof {
                assert(entry.service == Uuid { value: entry.service.value });
                assert forall|v: u128|
                    seen@.contains(v) <==> services_of(after).contains(Uuid { value: v }) by {
                    let id = Uuid { value: v };
                    if services_of(before).contains(id) {
                        let j = choose|j: int|
                            0 <= j < services_of(before).len() && services_of(before)[j] == id;
                        assert(services_of(after)[j] == id);
                    }
                    if services_of(after).contains(id) && id != entry.service {
                        let j = choose|j: int|
                            0 <= j < services_of(after).len() && services_of(after)[j] == id;
                        assert(services_of(before)[j] == id);
                    }
                    if id == entry.service {
                        assert(services_of(after)[i as int] == id);
                    }
                }
            }
            i += 1;
        }
        proof {
            assert(raw@.take(i as int) =~= raw@);
        }
        Directory { entries, handles, services, source: Ghost(raw@) }
    }

    /// Whether service discovery reported no characteristic.
    pub fn is_empty(&self) -> (b: bool)
        ensures
            b == (self@.len() == 0),
    {
        proof {
            use_type_invariant(self);
            lemma_distinct_empty(self@);
        }
        self.entries.len() == 0
    }

    /// The number of distinct UUID pairs.
    pub fn len(&self) -> (n: usize)
        ensures
            n == distinct(self@).len(),
    {
        proof {
            use_type_invariant(self);
        }
        self.entries.len()
    }

    /// Resolves a UUID pair to the handle of its characteristic: the position
    /// of the first entry with that pair in the reported list.
    pub fn find(&self, service: Uuid, characteristic: Uuid) -> (r: Option<usize>)
        ensures
            match r {
                Some(handle) => first_position(self@, pair(service, characteristic)) == Some(
                    handle as int,
                ),
                None => first_position(self@, pair(service, characteristic)) is None,
            },
    {
        let wanted = CharacteristicEntry { service, characteristic };
        proof {
            use_type_invariant(self);
            lemma_distinct_contains(self@, wanted);
            lemma_first_position(self@, wanted);
        }
        match position_of(&self.entries, wanted) {
            Some(k) => {
                proof {
                    assert(is_first_position(
                        self@,
                        self.entries@[k as int],
                        self.handles@[k as int] as int,
                    ));
                }
                Some(self.handles[k])
            },
            None => None,
        }
    }

    /// The services of the peripheral, each once, in first-seen order.
    pub fn list_services(&self) -> (r: Vec<Uuid>)
        ensures
            r@ == distinct_services(self@),
    {
        proof {
            use_type_invariant(self);
        }
        let mut r: Vec<Uuid> = Vec::new();
        let mut k: usize = 0;
        while k < self.services.len()
            invariant
                k <= self.services.len(),
                r@ == self.services@.take(k as int),
            decreases self.services.len() - k,
        {
            r.push(self.services[k]);
            proof {
                assert(r@ =~= self.services@.take(k as int + 1));
            }
            k += 1;
        }
        proof {
            assert(self.services@.take(k as int) =~= self.services@);
        }
        r
    }

    /// The characteristics of one service, in first-seen order.
    pub fn list_characteristics(&self, service: Uuid) -> (r: Vec<Uuid>)
        ensures
            r@ == characteristics_under(self@, service),
    {
        proof {
            use_type_invariant(self);
        }
        let ghost own = |e: CharacteristicEntry| e.characteristic;
        let mut r: Vec<Uuid> = Vec::new();
        let mut k: usize = 0;
        proof {
            reveal(Seq::filter);
            assert(self.entries@.take(0) =~= Seq::<CharacteristicEntry>::empty());
            assert(self.entries@.take(0).filter(belongs_to(service)).map_values(own) =~= r@);
        }
        while k < self.entries.len()
            invariant
                k <= self.entries.len(),
                own == |e: CharacteristicEntry| e.characteristic,
                r@ == self.entries@.take(k as int).filter(belongs_to(service)).map_values(own),
            decreases self.entries.len() - k,
        {
            let entry = self.entries[k];
            let ghost before = self.entries@.take(k as int);
            let ghost after = self.entries@.take(k as int + 1);
            proof {
                reveal(Seq::filter);
                assert(after.drop_last() =~= before);
                assert(after.last() == entry);
            }
            if entry.service == service {
                r.push(entry.characteristic);
                proof {
                    assert(after.filter(belongs_to(service)) == before.filter(
                        belongs_to(service),
                    ).push(entry));
                    assert(r@ =~= after.filter(belongs_to(service)).map_values(own));
                }
            }
            k += 1;
        }
        proof {
            assert(self.entries@.take(k as int) =~= self.entries@);
        }
        r
    }
}

} // verus!
