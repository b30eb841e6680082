use vstd::prelude::*;
use vstd::string::StrSliceExecFns;

use crate::bytes::copy_bytes;
use crate::identify::Cid;
use crate::objectstore::{DeleteParams, Object, ObjectKind, ObjectView, PutParams};
use crate::text::{find_from, first_occurrence, has_prefix, occurs_at, starts_with, str_eq};

verus! {

/// The descriptors of one machine, as the ledger holds them: keys and
/// descriptors in the order the keys were first stored.
pub type LedgerView = Seq<(Seq<char>, ObjectView)>;

/// No key appears twice.
pub open spec fn unique_keys(s: LedgerView) -> bool {
    forall|i: int, j: int| 0 <= i < s.len() && 0 <= j < s.len() && i != j ==> s[i].0 != s[j].0
}

pub open spec fn has_key(s: LedgerView, key: Seq<char>) -> bool {
    exists|i: int| 0 <= i < s.len() && s[i].0 == key
}

pub open spec fn key_index(s: LedgerView, key: Seq<char>) -> int {
    choose|i: int| 0 <= i < s.len() && s[i].0 == key
}

/// The descriptor stored under `key`.
pub open spec fn lookup(s: LedgerView, key: Seq<char>) -> Option<ObjectView> {
    if has_key(s, key) {
        Some(s[key_index(s, key)].1)
    } else {
        None
    }
}

/// The descriptor that a put of `kind` creates: an external one starts
/// unresolved.
pub open spec fn stored_view(kind: ObjectKind) -> ObjectView {
    match kind {
        ObjectKind::Internal(buf) => ObjectView::Internal(buf@),
        ObjectKind::External(cid) => ObjectView::External(cid@, false),
    }
}

/// The ledger after a put of `object` under `key`: a new key is appended; an
/// existing one is replaced only with `overwrite`.
pub open spec fn put_spec(s: LedgerView, key: Seq<char>, object: ObjectView, overwrite: bool) -> LedgerView {
    if has_key(s, key) {
        if overwrite {
            s.update(key_index(s, key), (key, object))
        } else {
            s
        }
    } else {
        s.push((key, object))
    }
}

/// The ledger after a delete of `key`.
pub open spec fn delete_spec(s: LedgerView, key: Seq<char>) -> LedgerView {
    if has_key(s, key) {
        s.remove(key_index(s, key))
    } else {
        s
    }
}

/// The ledger after the network confirmed the blob of the external object
/// under `key`.
pub open spec fn resolve_spec(s: LedgerView, key: Seq<char>) -> LedgerView {
    match lookup(s, key) {
        Some(ObjectView::External(cid, _)) => s.update(
            key_index(s, key),
            (key, ObjectView::External(cid, true)),
        ),
        _ => s,
    }
}

/// The keys that start with `prefix`, in ledger order.
pub open spec fn matching_keys(s: LedgerView, prefix: Seq<char>) -> Seq<Seq<char>>
    decreases s.len(),
{
    if s.len() == 0 {
        Seq::empty()
    } else {
        let rest = matching_keys(s.drop_last(), prefix);
        if starts_with(s.last().0, prefix) {
            rest.push(s.last().0)
        } else {
            rest
        }
    }
}

pub open spec fn min_nat(a: nat, b: nat) -> nat {
    if a <= b {
        a
    } else {
        b
    }
}

/// The entries of `m` from `offset` on, at most `limit` of them.
pub open spec fn page<K>(m: Seq<K>, offset: nat, limit: nat) -> Seq<K> {
    m.subrange(min_nat(offset, m.len()) as int, min_nat(offset + limit, m.len()) as int)
}

/// The pages at `offset`, `offset + limit`, ... (`count` of them), end to end.
pub open spec fn pages<K>(m: Seq<K>, offset: nat, limit: nat, count: nat) -> Seq<K>
    decreases count,
{
    if count == 0 {
        Seq::empty()
    } else {
        page(m, offset, limit) + pages(m, offset + limit, limit, (count - 1) as nat)
    }
}

pub open spec fn key_views(v: Seq<String>) -> Seq<Seq<char>> {
    v.map_values(|s: String| s@)
}

/// The common prefix that a listed key rolls up into: the key up to and
/// including the first `delimiter` after `prefix`, if there is one.
pub open spec fn group_of(k: Seq<char>, prefix: Seq<char>, delimiter: Seq<char>) -> Option<Seq<char>> {
    if delimiter.len() == 0 {
        None
    } else {
        let i = first_occurrence(k, delimiter, prefix.len() as int);
        if i < 0 {
            None
        } else {
            Some(k.subrange(0, i + delimiter.len()))
        }
    }
}

/// The keys of `p` that roll up into no common prefix, in order.
pub open spec fn listed_keys(p: Seq<Seq<char>>, prefix: Seq<char>, delimiter: Seq<char>) -> Seq<Seq<char>>
    decreases p.len(),
{
    if p.len() == 0 {
        Seq::empty()
    } else {
        let rest = listed_keys(p.drop_last(), prefix, delimiter);
        if group_of(p.last(), prefix, delimiter) is None {
            rest.push(p.last())
        } else {
            rest
        }
    }
}

/// The common prefixes that the keys of `p` roll up into, each once, in the
/// order of their first key.
pub open spec fn listed_prefixes(p: Seq<Seq<char>>, prefix: Seq<char>, delimiter: Seq<char>) -> Seq<Seq<char>>
    decreases p.len(),
{
    if p.len() == 0 {
        Seq::empty()
    } else {
        let rest = listed_prefixes(p.drop_last(), prefix, delimiter);
        match group_of(p.last(), prefix, delimiter) {
            Some(g) => if rest.contains(g) {
                rest
            } else {
                rest.push(g)
            },
            None => rest,
        }
    }
}

/// A page of a listing: keys, and the common prefixes that other keys of the
/// page roll up into.
#[derive(Debug, Clone, PartialEq, Eq)]
pub struct Listing {
    pub keys: Vec<String>,
    pub common_prefixes: Vec<String>,
}

fn contains_text(v: &Vec<String>, s: &String) -> (r: bool)
    ensures
        r == key_views(v@).contains(s@),
{
    let mut i: usize = 0;
    while i < v.len()
        invariant
            i <= v@.len(),
            forall|j: int| 0 <= j < i ==> #[trigger] v@[j]@ != s@,
        decreases v@.len() - i,
    {
        if str_eq(v[i].as_str(), s.as_str()) {
            assert(key_views(v@)[i as int] == s@);
            return true;
        }
        i = i + 1;
    }
    assert forall|j: int| 0 <= j < key_views(v@).len() implies key_views(v@)[j] != s@ by {
        assert(key_views(v@)[j] == v@[j]@);
    }
    false
}

/// Splits a page of keys into the keys listed as they are and the common
/// prefixes that the others roll up into.
pub fn group_page(page: &Vec<String>, prefix: &str, delimiter: &str) -> (r: Listing)
    ensures
        key_views(r.keys@) == listed_keys(key_views(page@), prefix@, delimiter@),
        key_views(r.common_prefixes@) == listed_prefixes(key_views(page@), prefix@, delimiter@),
{
    let mut keys: Vec<String> = Vec::new();
    let mut common_prefixes: Vec<String> = Vec::new();
    let plen = prefix.unicode_len();
    let dlen = delimiter.unicode_len();
    let mut i: usize = 0;
    while i < page.len()
        invariant
            i <= page@.len(),
            plen == prefix@.len(),
            dlen == delimiter@.len(),
            key_views(keys@) == listed_keys(key_views(page@).subrange(0, i as int), prefix@, delimiter@),
            key_views(common_prefixes@) == listed_prefixes(
                key_views(page@).subrange(0, i as int),
                prefix@,
                delimiter@,
            ),
        decreases page@.len() - i,
    {
        let ghost p = key_views(page@).subrange(0, i + 1);
        assert(p.drop_last() =~= key_views(page@).subrange(0, i as int));
        assert(p.last() == page@[i as int]@);
        let k = page[i].as_str();
        let klen = k.unicode_len();
        let group: Option<String> = if dlen == 0 {
            None
        } else {
            match find_from(k, delimiter, plen) {
                Some(at) => {
                    proof {
                        reveal_with_fuel(first_occurrence, 1);
                    }
                    assert(occurs_at(k@, delimiter@, at as int)) by {
                        lemma_first_occurrence_found(k@, delimiter@, plen as int);
                    }
                    Some(k.substring_char(0, at + dlen).to_owned())
                },
                None => None,
            }
        };
        match group {
            None => {
                let ghost before = keys@;
                keys.push(page[i].clone());
                assert(key_views(keys@) =~= key_views(before).push(page@[i as int]@));
            },
            Some(g) => {
                if !contains_text(&common_prefixes, &g) {
                    let ghost before = common_prefixes@;
                    let ghost gv = g@;
                    common_prefixes.push(g);
                    assert(key_views(common_prefixes@) =~= key_views(before).push(gv));
                }
            },
        }
        i = i + 1;
    }
    assert(key_views(page@).subrange(0, page@.len() as int) =~= key_views(page@));
    Listing { keys, common_prefixes }
}

proof fn lemma_first_occurrence_found(s: Seq<char>, d: Seq<char>, from: int)
    requires
        first_occurrence(s, d, from) >= 0,
    ensures
        occurs_at(s, d, first_occurrence(s, d, from)),
        first_occurrence(s, d, from) >= from,
    decreases s.len() + 1 - from,
{
    if !(from < 0 || from + d.len() > s.len()) && !occurs_at(s, d, from) {
        lemma_first_occurrence_found(s, d, from + 1);
    }
}

/// A page of a listing holds no more entries, keys and common prefixes
/// together, than keys were paged.
pub proof fn lemma_listing_bounded(p: Seq<Seq<char>>, prefix: Seq<char>, delimiter: Seq<char>)
    ensures
        listed_keys(p, prefix, delimiter).len() + listed_prefixes(p, prefix, delimiter).len()
            <= p.len(),
    decreases p.len(),
{
    if p.len() > 0 {
        lemma_listing_bounded(p.drop_last(), prefix, delimiter);
    }
}

/// An in-memory ledger of one machine's object descriptors.
pub struct ObjectLedger {
    entries: Vec<(String, Object)>,
}

impl View for ObjectLedger {
    type V = LedgerView;

    closed spec fn view(&self) -> LedgerView {
        Seq::new(self.entries@.len(), |i: int| (self.entries@[i].0@, self.entries@[i].1@))
    }
}

fn copy_object(o: &Object) -> (r: Object)
    ensures
        r@ == o@,
{
    match o {
        Object::Internal(buf) => Object::Internal(copy_bytes(buf)),
        Object::External(cid, resolved) => Object::External(
            Cid::from_bytes(cid.to_bytes()),
            *resolved,
        ),
    }
}

fn stored_object(kind: ObjectKind) -> (r: Object)
    ensures
        r@ == stored_view(kind),
{
    match kind {
        ObjectKind::Internal(buf) => Object::Internal(buf),
        ObjectKind::External(cid) => Object::External(cid, false),
    }
}

proof fn lemma_page_push<K>(m: Seq<K>, x: K, offset: nat, limit: nat)
    ensures
        page(m.push(x), offset, limit) == if offset <= m.len() < offset + limit {
            page(m, offset, limit).push(x)
        } else {
            page(m, offset, limit)
        },
{
    if offset <= m.len() < offset + limit {
        assert(page(m.push(x), offset, limit) =~= page(m, offset, limit).push(x));
    } else {
        assert(page(m.push(x), offset, limit) =~= page(m, offset, limit));
    }
}

impl ObjectLedger {
    /// The ledger's invariant: no key is stored twice.
    pub open spec fn wf(&self) -> bool {
        unique_keys(self@)
    }

    /// An empty ledger.
    pub fn new() -> (r: ObjectLedger)
        ensures
            r.wf(),
            r@ == Seq::<(Seq<char>, ObjectView)>::empty(),
    {
        let r = ObjectLedger { entries: Vec::new() };
        assert(r@ =~= Seq::<(Seq<char>, ObjectView)>::empty());
        r
    }

    fn find(&self, key: &str) -> (r: Option<usize>)
        requires
            self.wf(),
        ensures
            r is Some <==> has_key(self@, key@),
            r is Some ==> r->0 == key_index(self@, key@) && r->0 < self@.len(),
    {
        let mut i: usize = 0;
        while i < self.entries.len()
            invariant
                self.wf(),
                i <= self@.len() == self.entries@.len(),
                forall|j: int| 0 <= j < i ==> #[trigger] self@[j].0 != key@,
            decreases self@.len() - i,
        {
            if str_eq(self.entries[i].0.as_str(), key) {
                assert(self@[i as int].0 == key@);
                let ghost q = key_index(self@, key@);
                assert(0 <= q < self@.len() && self@[q].0 == key@);
                proof {
                    if q != i as int {
                        assert(self@[q].0 != self@[i as int].0);
                    }
                }
                return Some(i);
            }
            i = i + 1;
        }
        None
    }

    /// The descriptor stored under `key`.
    pub fn get(&self, key: &str) -> (r: Option<Object>)
        requires
            self.wf(),
        ensures
            match r {
                Some(o) => lookup(self@, key@) == Some(o@),
                None => lookup(self@, key@) is None,
            },
    {
        match self.find(key) {
            Some(i) => Some(copy_object(&self.entries[i].1)),
            None => None,
        }
    }

    /// Applies a put transaction; returns whether it took effect (a put on an
    /// existing key without `overwrite` does not).
    pub fn put(&mut self, params: PutParams) -> (applied: bool)
        requires
            old(self).wf(),
        ensures
            final(self).wf(),
            final(self)@ == put_spec(old(self)@, params.key@, stored_view(params.kind), params.overwrite),
            applied == (!has_key(old(self)@, params.key@) || params.overwrite),
    {
        let ghost s = self@;
        let ghost k = params.key@;
        let ghost o = stored_view(params.kind);
        match self.find(params.key.as_str()) {
            Some(i) => {
                if params.overwrite {
                    let obj = stored_object(params.kind);
                    self.entries.set(i, (params.key, obj));
                    assert(self@ =~= s.update(i as int, (k, o)));
                    true
                } else {
                    false
                }
            },
            None => {
                let obj = stored_object(params.kind);
                self.entries.push((params.key, obj));
                assert(self@ =~= s.push((k, o)));
                true
            },
        }
    }

    /// Applies a delete transaction; returns whether the key was present.
    pub fn delete(&mut self, params: DeleteParams) -> (removed: bool)
        requires
            old(self).wf(),
        ensures
            final(self).wf(),
            final(self)@ == delete_spec(old(self)@, params.key@),
            removed == has_key(old(self)@, params.key@),
    {
        let ghost s = self@;
        match self.find(params.key.as_str()) {
            Some(i) => {
                self.entries.remove(i);
                assert(self@ =~= s.remove(i as int));
                true
            },
            None => false,
        }
    }

    /// Records the network's confirmation that the blob of the external
    /// object under `key` is available.
    pub fn resolve(&mut self, key: &str)
        requires
            old(self).wf(),
        ensures
            final(self).wf(),
            final(self)@ == resolve_spec(old(self)@, key@),
    {
        let ghost s = self@;
        match self.find(key) {
            Some(i) => {
                let cid = match &self.entries[i].1 {
                    Object::External(cid, _) => Some(Cid::from_bytes(cid.to_bytes())),
                    Object::Internal(_) => None,
                };
                match cid {
                    Some(c) => {
                        let k = self.entries[i].0.clone();
                        self.entries.set(i, (k, Object::External(c, true)));
                        assert(self@ =~= resolve_spec(s, key@));
                    },
                    None => {},
                }
            },
            None => {},
        }
    }

    /// Lists the keys that start with `prefix`, skipping the first `offset`
    /// of them and returning at most `limit`.
    pub fn list(&self, prefix: &str, offset: u64, limit: u64) -> (r: Vec<String>)
        ensures
            key_views(r@) == page(matching_keys(self@, prefix@), offset as nat, limit as nat),
    {
        let mut out: Vec<String> = Vec::new();
        let mut seen: u64 = 0;
        let mut i: usize = 0;
        while i < self.entries.len()
            invariant
                i <= self@.len() == self.entries@.len(),
                seen <= i,
                seen as nat == matching_keys(self@.subrange(0, i as int), prefix@).len(),
                key_views(out@) == page(
                    matching_keys(self@.subrange(0, i as int), prefix@),
                    offset as nat,
                    limit as nat,
                ),
            decreases self@.len() - i,
        {
            let ghost m = matching_keys(self@.subrange(0, i as int), prefix@);
            assert(self@.subrange(0, i + 1).drop_last() =~= self@.subrange(0, i as int));
            if has_prefix(self.entries[i].0.as_str(), prefix) {
                let ghost k = self@[i as int].0;
                proof {
                    lemma_page_push(m, k, offset as nat, limit as nat);
                }
                if seen >= offset && seen - offset < limit {
                    let key = self.entries[i].0.clone();
                    let ghost before = out@;
                    out.push(key);
                    assert(key_views(out@) =~= key_views(before).push(k));
                }
                seen = seen + 1;
            }
            i = i + 1;
        }
        assert(self@.subrange(0, self@.len() as int) =~= self@);
        out
    }

    /// Lists the keys that start with `prefix`, skipping the first `offset`
    /// of them and taking at most `limit`; keys of the page whose rest after
    /// `prefix` holds `delimiter` are listed once, as their common prefix.
    pub fn list_objects(&self, prefix: &str, delimiter: &str, offset: u64, limit: u64) -> (r: Listing)
        ensures
            key_views(r.keys@) == listed_keys(
                page(matching_keys(self@, prefix@), offset as nat, limit as nat),
                prefix@,
                delimiter@,
            ),
            key_views(r.common_prefixes@) == listed_prefixes(
                page(matching_keys(self@, prefix@), offset as nat, limit as nat),
                prefix@,
                delimiter@,
            ),
    {
        let keys = self.list(prefix, offset, limit);
        group_page(&keys, prefix, delimiter)
    }
}

/// A page never holds more than `limit` keys.
pub proof fn lemma_page_bounded<K>(m: Seq<K>, offset: nat, limit: nat)
    ensures
        page(m, offset, limit).len() <= limit,
{
}

/// Pages taken at `offset`, `offset + limit`, `offset + 2 * limit`, ... and laid
/// end to end are exactly the entries of `m` from `offset` on, in order: none
/// is left out and none appears twice.
pub proof fn lemma_pages_partition<K>(m: Seq<K>, offset: nat, limit: nat, count: nat)
    ensures
        pages(m, offset, limit, count) == m.subrange(
            min_nat(offset, m.len()) as int,
            min_nat(offset + count * limit, m.len()) as int,
        ),
    decreases count,
{
    if count == 0 {
        assert(pages(m, offset, limit, count) =~= m.subrange(
            min_nat(offset, m.len()) as int,
            min_nat(offset + count * limit, m.len()) as int,
        ));
    } else {
        let c1 = (count - 1) as nat;
        lemma_pages_partition(m, offset + limit, limit, c1);
        assert(pages(m, offset, limit, count) == page(m, offset, limit) + pages(
            m,
            offset + limit,
            limit,
            c1,
        ));
        assert(offset + limit + c1 * limit == offset + count * limit) by (nonlinear_arith)
            requires
                c1 == count - 1,
        ;
        assert(offset + limit <= offset + count * limit) by (nonlinear_arith)
            requires
                count >= 1,
        ;
        let a = min_nat(offset, m.len());
        let b = min_nat(offset + limit, m.len());
        let c = min_nat(offset + count * limit, m.len());
        assert(a <= b <= c);
        assert(pages(m, offset, limit, count) == m.subrange(a as int, b as int) + m.subrange(
            b as int,
            c as int,
        ));
        assert(m.subrange(a as int, b as int) + m.subrange(b as int, c as int) =~= m.subrange(
            a as int,
            c as int,
        ));
    }
}

proof fn lemma_matching_keys_from(s: LedgerView, prefix: Seq<char>)
    ensures
        forall|x: int| 0 <= x < matching_keys(s, prefix).len() ==> exists|j: int|
            0 <= j < s.len() && #[trigger] matching_keys(s, prefix)[x] == s[j].0,
        matching_keys(s, prefix).len() <= s.len(),
    decreases s.len(),
{
    if s.len() > 0 {
        let d = s.drop_last();
        lemma_matching_keys_from(d, prefix);
        let m = matching_keys(s, prefix);
        let md = matching_keys(d, prefix);
        assert forall|x: int| 0 <= x < m.len() implies exists|j: int|
            0 <= j < s.len() && #[trigger] m[x] == s[j].0 by {
            if x < md.len() {
                assert(m[x] == md[x]);
                let j = choose|j: int| 0 <= j < d.len() && md[x] == d[j].0;
                assert(s[j] == d[j]);
            } else {
                assert(m[x] == s[s.len() - 1].0);
            }
        }
    }
}

/// The keys that start with a prefix appear at most once each, on a ledger
/// that stores each key once.
pub proof fn lemma_matching_keys_unique(s: LedgerView, prefix: Seq<char>)
    requires
        unique_keys(s),
    ensures
        matching_keys(s, prefix).no_duplicates(),
    decreases s.len(),
{
    if s.len() > 0 {
        let d = s.drop_last();
        assert(unique_keys(d)) by {
            assert forall|i: int, j: int| 0 <= i < d.len() && 0 <= j < d.len() && i != j implies d[i].0
                != d[j].0 by {
                assert(d[i] == s[i] && d[j] == s[j]);
            }
        }
        lemma_matching_keys_unique(d, prefix);
        lemma_matching_keys_from(d, prefix);
        let md = matching_keys(d, prefix);
        let k = s[s.len() - 1].0;
        if starts_with(k, prefix) {
            assert forall|x: int| 0 <= x < md.len() implies md[x] != k by {
                let j = choose|j: int| 0 <= j < d.len() && md[x] == d[j].0;
                assert(s[j].0 != s[s.len() - 1].0);
            }
            let m = matching_keys(s, prefix);
            assert(m == md.push(k));
            assert forall|a: int, b: int| 0 <= a < m.len() && 0 <= b < m.len() && a != b implies m[a]
                != m[b] by {
                if a < md.len() && b < md.len() {
                } else if a < md.len() {
                    assert(m[a] == md[a]);
                } else {
                    assert(m[b] == md[b]);
                }
            }
        }
    }
}

/// Paging through a listing: every page holds at most `limit` keys, and the
/// pages at offsets `0`, `limit`, `2 * limit`, ... up to the end, laid end to
/// end, are every key that starts with `prefix`, in ledger order, each once.
pub proof fn lemma_list_pages_partition(s: LedgerView, prefix: Seq<char>, limit: nat, count: nat)
    requires
        unique_keys(s),
        count * limit >= matching_keys(s, prefix).len(),
    ensures
        forall|offset: nat| #[trigger] page(matching_keys(s, prefix), offset, limit).len() <= limit,
        pages(matching_keys(s, prefix), 0, limit, count) == matching_keys(s, prefix),
        matching_keys(s, prefix).no_duplicates(),
{
    let m = matching_keys(s, prefix);
    lemma_pages_partition(m, 0, limit, count);
    assert(m.subrange(0, m.len() as int) =~= m);
    lemma_matching_keys_unique(s, prefix);
}

} // verus!
