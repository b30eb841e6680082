use vstd::prelude::*;

use crate::bytes::{bytes_eq, copy_bytes, copy_range, prefix_of};
use crate::error::Error;
use crate::identify::{blake3_digest, cid_frame, identifier_of, identify};
use crate::signer::KindView;
use crate::ledger::{
    delete_spec, has_key, key_index, key_views, listed_keys, listed_prefixes, lookup, matching_keys,
    page, put_spec, resolve_spec, unique_keys, LedgerView, Listing, ObjectLedger,
};
use crate::objectstore::{
    delete_params, external_put_params, is_not_found, is_not_resolved, opt_view, plan_add, plan_get,
    slice_spec, AddPlan, Fetch, ObjectView, MAX_INTERNAL_OBJECT_LENGTH, SAMPLE_LENGTH,
};
use crate::range::parse_range;

verus! {

/// Blobs by identifier, in the order they were first stored.
pub type BlobsView = Seq<(Seq<u8>, Seq<u8>)>;

pub open spec fn unique_cids(b: BlobsView) -> bool {
    forall|i: int, j: int| 0 <= i < b.len() && 0 <= j < b.len() && i != j ==> b[i].0 != b[j].0
}

pub open spec fn has_blob(b: BlobsView, cid: Seq<u8>) -> bool {
    exists|i: int| 0 <= i < b.len() && b[i].0 == cid
}

pub open spec fn blob_index(b: BlobsView, cid: Seq<u8>) -> int {
    choose|i: int| 0 <= i < b.len() && b[i].0 == cid
}

/// The content stored under `cid`.
pub open spec fn blob_lookup(b: BlobsView, cid: Seq<u8>) -> Option<Seq<u8>> {
    if has_blob(b, cid) {
        Some(b[blob_index(b, cid)].1)
    } else {
        None
    }
}

/// The blobs after `content` is stored under `cid`.
pub open spec fn blob_put(b: BlobsView, cid: Seq<u8>, content: Seq<u8>) -> BlobsView {
    if has_blob(b, cid) {
        b.update(blob_index(b, cid), (cid, content))
    } else {
        b.push((cid, content))
    }
}

/// The descriptor that adding `data` leaves: the bytes themselves up to the
/// inline threshold, else the (not yet resolved) identifier of the content.
pub open spec fn added_view(data: Seq<u8>) -> ObjectView {
    if data.len() <= MAX_INTERNAL_OBJECT_LENGTH {
        ObjectView::Internal(data)
    } else {
        ObjectView::External(identifier_of(data), false)
    }
}

/// `r` is what a get of `key` with the optional `range` returns when the
/// ledger is `l` and the blob network holds `b`.
pub open spec fn get_outcome(
    l: LedgerView,
    b: BlobsView,
    key: Seq<char>,
    range: Option<Seq<char>>,
    r: Result<Vec<u8>, Error>,
) -> bool {
    match lookup(l, key) {
        None => r is Err && is_not_found(r->Err_0, key),
        Some(ObjectView::Internal(buf)) => match slice_spec(buf, range) {
            Ok(x) => r is Ok && r->Ok_0@ == x,
            Err(e) => r == Err::<Vec<u8>, Error>(e),
        },
        Some(ObjectView::External(cid, resolved)) => if !resolved {
            r is Err && is_not_resolved(r->Err_0, key)
        } else {
            match blob_lookup(b, cid) {
                None => r is Err && r->Err_0 is DownloadFailed,
                Some(c) => match slice_spec(c, range) {
                    Ok(x) => r is Ok && r->Ok_0@ == x,
                    Err(e) => r == Err::<Vec<u8>, Error>(e),
                },
            }
        },
    }
}

/// An object store held in memory: a ledger of descriptors, and the blob
/// network's content for detached objects.
pub struct LocalStore {
    ledger: ObjectLedger,
    blobs: Vec<(Vec<u8>, Vec<u8>)>,
}

fn slice_of(buf: &Vec<u8>, range: Option<String>) -> (r: Result<Vec<u8>, Error>)
    ensures
        match slice_spec(buf@, opt_view(range)) {
            Ok(x) => r is Ok && r->Ok_0@ == x,
            Err(e) => r == Err::<Vec<u8>, Error>(e),
        },
{
    match range {
        None => Ok(copy_bytes(buf)),
        Some(spec) => match parse_range(spec, buf.len() as u64) {
            Ok((start, end)) => Ok(copy_range(buf, start as usize, end as usize)),
            Err(e) => Err(e),
        },
    }
}

impl View for LocalStore {
    type V = (LedgerView, BlobsView);

    closed spec fn view(&self) -> (LedgerView, BlobsView) {
        (self.ledger@, Seq::new(self.blobs@.len(), |i: int| (self.blobs@[i].0@, self.blobs@[i].1@)))
    }
}

impl LocalStore {
    /// The store's invariant: no key and no identifier is stored twice.
    pub open spec fn wf(&self) -> bool {
        unique_keys(self@.0) && unique_cids(self@.1)
    }

    /// An empty store.
    pub fn new() -> (r: LocalStore)
        ensures
            r.wf(),
            r@.0 == Seq::<(Seq<char>, ObjectView)>::empty(),
            r@.1 == Seq::<(Seq<u8>, Seq<u8>)>::empty(),
    {
        let r = LocalStore { ledger: ObjectLedger::new(), blobs: Vec::new() };
        assert(r@.1 =~= Seq::<(Seq<u8>, Seq<u8>)>::empty());
        r
    }

    fn find_blob(&self, cid: &Vec<u8>) -> (r: Option<usize>)
        requires
            self.wf(),
        ensures
            r is Some <==> has_blob(self@.1, cid@),
            r is Some ==> r->0 == blob_index(self@.1, cid@) && r->0 < self@.1.len(),
    {
        let mut i: usize = 0;
        while i < self.blobs.len()
            invariant
                self.wf(),
                i <= self@.1.len() == self.blobs@.len(),
                forall|j: int| 0 <= j < i ==> #[trigger] self@.1[j].0 != cid@,
            decreases self@.1.len() - i,
        {
            if bytes_eq(&self.blobs[i].0, cid) {
                let ghost q = blob_index(self@.1, cid@);
                assert(self@.1[i as int].0 == cid@);
                assert(0 <= q < self@.1.len() && self@.1[q].0 == cid@);
                proof {
                    if q != i as int {
                        assert(self@.1[q].0 != self@.1[i as int].0);
                    }
                }
                return Some(i);
            }
            i = i + 1;
        }
        None
    }

    fn put_blob(&mut self, cid: Vec<u8>, content: Vec<u8>)
        requires
            old(self).wf(),
        ensures
            final(self).wf(),
            final(self)@.0 == old(self)@.0,
            final(self)@.1 == blob_put(old(self)@.1, cid@, content@),
    {
        let ghost b = self@.1;
        let ghost c = cid@;
        let ghost x = content@;
        match self.find_blob(&cid) {
            Some(i) => {
                self.blobs.set(i, (cid, content));
                assert(self@.1 =~= b.update(i as int, (c, x)));
            },
            None => {
                self.blobs.push((cid, content));
                assert(self@.1 =~= b.push((c, x)));
            },
        }
    }

    /// Adds `data` under `key`: up to the inline threshold on the ledger
    /// itself, beyond it as a blob that the ledger names by identifier.
    /// Returns whether the put took effect (an existing key is replaced only
    /// with `overwrite`).
    pub fn add(&mut self, key: &str, data: Vec<u8>, overwrite: bool) -> (r: Result<bool, Error>)
        requires
            old(self).wf(),
        ensures
            final(self).wf(),
            data@.len() == 0 ==> r == Err::<bool, Error>(Error::EmptyObject) && final(self)@
                == old(self)@,
            data@.len() > 0 ==> r == Ok::<bool, Error>(
                !has_key(old(self)@.0, key@) || overwrite,
            ),
            data@.len() > 0 ==> final(self)@.0 == put_spec(
                old(self)@.0,
                key@,
                added_view(data@),
                overwrite,
            ),
            data@.len() > 0 && data@.len() <= MAX_INTERNAL_OBJECT_LENGTH ==> final(self)@.1 == old(
                self,
            )@.1,
            data@.len() > MAX_INTERNAL_OBJECT_LENGTH ==> final(self)@.1 == blob_put(
                old(self)@.1,
                identifier_of(data@),
                data@,
            ),
    {
        let sample = prefix_of(&data, SAMPLE_LENGTH);
        match plan_add(key, sample, overwrite) {
            Err(e) => Err(e),
            Ok(AddPlan::Inline(params)) => {
                assert(data@.subrange(0, data@.len() as int) =~= data@);
                Ok(self.ledger.put(params))
            },
            Ok(AddPlan::Detached) => {
                let cid = identify(data.as_slice());
                let key_bytes = cid.to_bytes();
                self.put_blob(key_bytes, data);
                let params = external_put_params(key, cid, overwrite);
                Ok(self.ledger.put(params))
            },
        }
    }

    /// Records the network's confirmation of the blob behind the external
    /// object under `key`.
    pub fn resolve(&mut self, key: &str)
        requires
            old(self).wf(),
        ensures
            final(self).wf(),
            final(self)@.0 == resolve_spec(old(self)@.0, key@),
            final(self)@.1 == old(self)@.1,
    {
        self.ledger.resolve(key);
    }

    /// Deletes the object under `key`; returns whether it was present.
    pub fn delete(&mut self, key: &str) -> (removed: bool)
        requires
            old(self).wf(),
        ensures
            final(self).wf(),
            final(self)@.0 == delete_spec(old(self)@.0, key@),
            final(self)@.1 == old(self)@.1,
            removed == has_key(old(self)@.0, key@),
    {
        self.ledger.delete(delete_params(key))
    }

    /// Gets the object under `key`, or the bytes of it that `range` selects.
    pub fn get(&self, key: &str, range: Option<String>) -> (r: Result<Vec<u8>, Error>)
        requires
            self.wf(),
        ensures
            get_outcome(self@.0, self@.1, key@, opt_view(range), r),
    {
        let object = self.ledger.get(key);
        match plan_get(key, object, range) {
            Err(e) => Err(e),
            Ok(Fetch::Bytes(b)) => Ok(b),
            Ok(Fetch::Download { cid, range }) => {
                let cid_bytes = cid.to_bytes();
                match self.find_blob(&cid_bytes) {
                    None => Err(Error::DownloadFailed { cause: "blob not found".to_owned() }),
                    Some(i) => slice_of(&self.blobs[i].1, range),
                }
            },
        }
    }

    /// Lists the keys that start with `prefix`, skipping the first `offset`
    /// of them and returning at most `limit`.
    pub fn list(&self, prefix: &str, offset: u64, limit: u64) -> (r: Vec<String>)
        ensures
            key_views(r@) == page(matching_keys(self@.0, prefix@), offset as nat, limit as nat),
    {
        self.ledger.list(prefix, offset, limit)
    }

    /// Lists as the ledger does: the page of keys that start with `prefix`,
    /// with those whose rest holds `delimiter` rolled up into common prefixes.
    pub fn list_objects(&self, prefix: &str, delimiter: &str, offset: u64, limit: u64) -> (r: Listing)
        ensures
            key_views(r.keys@) == listed_keys(
                page(matching_keys(self@.0, prefix@), offset as nat, limit as nat),
                prefix@,
                delimiter@,
            ),
            key_views(r.common_prefixes@) == listed_prefixes(
                page(matching_keys(self@.0, prefix@), offset as nat, limit as nat),
                prefix@,
                delimiter@,
            ),
    {
        self.ledger.list_objects(prefix, delimiter, offset, limit)
    }
}

/// A ledger transaction, as plain values.
pub enum LedgerOp {
    Put(Seq<char>, ObjectView, bool),
    Delete(Seq<char>),
    Resolve(Seq<char>),
}

pub open spec fn apply_op(l: LedgerView, op: LedgerOp) -> LedgerView {
    match op {
        LedgerOp::Put(k, o, overwrite) => put_spec(l, k, o, overwrite),
        LedgerOp::Delete(k) => delete_spec(l, k),
        LedgerOp::Resolve(k) => resolve_spec(l, k),
    }
}

/// The ledger after `ops`, in order.
pub open spec fn apply_ops(l: LedgerView, ops: Seq<LedgerOp>) -> LedgerView
    decreases ops.len(),
{
    if ops.len() == 0 {
        l
    } else {
        apply_op(apply_ops(l, ops.drop_last()), ops.last())
    }
}

pub open spec fn puts_key(op: LedgerOp, key: Seq<char>) -> bool {
    match op {
        LedgerOp::Put(k, _, _) => k == key,
        _ => false,
    }
}

proof fn lemma_key_index(l: LedgerView, key: Seq<char>, i: int)
    requires
        unique_keys(l),
        0 <= i < l.len(),
        l[i].0 == key,
    ensures
        has_key(l, key),
        key_index(l, key) == i,
{
    let q = key_index(l, key);
    assert(0 <= q < l.len() && l[q].0 == key);
    if q != i {
        assert(l[q].0 != l[i].0);
    }
}

proof fn lemma_op_keeps_other_keys(l: LedgerView, op: LedgerOp, key: Seq<char>)
    requires
        !has_key(l, key),
        !puts_key(op, key),
    ensures
        !has_key(apply_op(l, op), key),
{
    let t = apply_op(l, op);
    if has_key(t, key) {
        let i = choose|i: int| 0 <= i < t.len() && t[i].0 == key;
        match op {
            LedgerOp::Put(k, o, ow) => {
                if has_key(l, k) && ow {
                    if i != key_index(l, k) {
                        assert(l[i].0 == key);
                    }
                } else if !has_key(l, k) && i < l.len() {
                    assert(l[i].0 == key);
                }
            },
            LedgerOp::Delete(k) => {
                if has_key(l, k) {
                    if i < key_index(l, k) {
                        assert(l[i].0 == key);
                    } else {
                        assert(l[i + 1].0 == key);
                    }
                }
            },
            LedgerOp::Resolve(k) => {
                if i != key_index(l, k) {
                    assert(l[i].0 == key);
                } else {
                    assert(l[key_index(l, k)].0 == k);
                }
            },
        }
    }
}

/// Only an add stores a key: on a ledger that started empty and saw no put
/// under `key`, a get of `key` finds nothing.
pub proof fn lemma_never_added_not_found(
    ops: Seq<LedgerOp>,
    b: BlobsView,
    key: Seq<char>,
    range: Option<Seq<char>>,
    r: Result<Vec<u8>, Error>,
)
    requires
        forall|i: int| 0 <= i < ops.len() ==> !puts_key(#[trigger] ops[i], key),
        get_outcome(apply_ops(Seq::empty(), ops), b, key, range, r),
    ensures
        r is Err && is_not_found(r->Err_0, key),
{
    lemma_unput_key_absent(ops, key);
}

proof fn lemma_unput_key_absent(ops: Seq<LedgerOp>, key: Seq<char>)
    requires
        forall|i: int| 0 <= i < ops.len() ==> !puts_key(#[trigger] ops[i], key),
    ensures
        !has_key(apply_ops(Seq::empty(), ops), key),
    decreases ops.len(),
{
    if ops.len() > 0 {
        assert forall|i: int| 0 <= i < ops.drop_last().len() implies !puts_key(
            #[trigger] ops.drop_last()[i],
            key,
        ) by {
            assert(ops.drop_last()[i] == ops[i]);
        }
        lemma_unput_key_absent(ops.drop_last(), key);
        assert(!puts_key(ops[ops.len() - 1], key));
        lemma_op_keeps_other_keys(apply_ops(Seq::empty(), ops.drop_last()), ops.last(), key);
    }
}

/// After a delete of `key`, a get of `key` finds nothing.
pub proof fn lemma_delete_then_get(
    l: LedgerView,
    b: BlobsView,
    key: Seq<char>,
    range: Option<Seq<char>>,
    r: Result<Vec<u8>, Error>,
)
    requires
        unique_keys(l),
        get_outcome(delete_spec(l, key), b, key, range, r),
    ensures
        r is Err && is_not_found(r->Err_0, key),
{
    let t = delete_spec(l, key);
    if has_key(t, key) {
        let i = choose|i: int| 0 <= i < t.len() && t[i].0 == key;
        let k = key_index(l, key);
        assert(l[k].0 == key);
        if i < k {
            assert(l[i].0 == key);
        } else {
            assert(l[i + 1].0 == key);
        }
    }
}

proof fn lemma_lookup_after_put(l: LedgerView, key: Seq<char>, o: ObjectView, overwrite: bool)
    requires
        unique_keys(l),
        !has_key(l, key) || overwrite,
    ensures
        unique_keys(put_spec(l, key, o, overwrite)),
        lookup(put_spec(l, key, o, overwrite), key) == Some(o),
{
    let t = put_spec(l, key, o, overwrite);
    if has_key(l, key) {
        let k = key_index(l, key);
        assert(l[k].0 == key);
        assert forall|i: int, j: int| 0 <= i < t.len() && 0 <= j < t.len() && i != j implies t[i].0
            != t[j].0 by {
            if i != k && j != k {
                assert(l[i].0 != l[j].0);
            } else if i == k {
                assert(l[j].0 != l[k].0);
            } else {
                assert(l[i].0 != l[k].0);
            }
        }
        lemma_key_index(t, key, k);
    } else {
        assert forall|i: int, j: int| 0 <= i < t.len() && 0 <= j < t.len() && i != j implies t[i].0
            != t[j].0 by {
            if i < l.len() && j < l.len() {
                assert(l[i].0 != l[j].0);
            } else if i < l.len() {
                assert(l[i].0 != key);
            } else {
                assert(l[j].0 != key);
            }
        }
        lemma_key_index(t, key, l.len() as int);
    }
}

proof fn lemma_blob_after_put(b: BlobsView, cid: Seq<u8>, c: Seq<u8>)
    requires
        unique_cids(b),
    ensures
        blob_lookup(blob_put(b, cid, c), cid) == Some(c),
{
    let t = blob_put(b, cid, c);
    let k = if has_blob(b, cid) {
        blob_index(b, cid)
    } else {
        b.len() as int
    };
    assert(0 <= k < t.len() && t[k].0 == cid);
    let q = blob_index(t, cid);
    assert(0 <= q < t.len() && t[q].0 == cid);
    if q != k {
        if has_blob(b, cid) {
            assert(b[q].0 != b[k].0);
        } else {
            assert(b[q].0 == cid);
        }
    }
}

/// Round trip: once `data` is added under `key` and, where it went to the blob
/// network, the network has confirmed it, a get of `key` with no range returns
/// exactly `data`.
pub proof fn lemma_round_trip(
    l: LedgerView,
    b: BlobsView,
    key: Seq<char>,
    data: Seq<u8>,
    overwrite: bool,
    r: Result<Vec<u8>, Error>,
)
    requires
        unique_keys(l),
        unique_cids(b),
        data.len() > 0,
        !has_key(l, key) || overwrite,
        data.len() <= MAX_INTERNAL_OBJECT_LENGTH ==> get_outcome(
            put_spec(l, key, added_view(data), overwrite),
            b,
            key,
            None,
            r,
        ),
        data.len() > MAX_INTERNAL_OBJECT_LENGTH ==> get_outcome(
            resolve_spec(put_spec(l, key, added_view(data), overwrite), key),
            blob_put(b, identifier_of(data), data),
            key,
            None,
            r,
        ),
    ensures
        r is Ok && r->Ok_0@ == data,
{
    let t = put_spec(l, key, added_view(data), overwrite);
    lemma_lookup_after_put(l, key, added_view(data), overwrite);
    if data.len() > MAX_INTERNAL_OBJECT_LENGTH {
        let k = key_index(t, key);
        assert(t[k].0 == key);
        let u = resolve_spec(t, key);
        lemma_key_index(u, key, k);
        lemma_blob_after_put(b, identifier_of(data), data);
    }
}

/// An add keeps an object of up to the inline threshold on the ledger, and
/// sends a larger one to the blob network.
pub proof fn lemma_added_tier(data: Seq<u8>)
    ensures
        data.len() <= MAX_INTERNAL_OBJECT_LENGTH ==> added_view(data) is Internal,
        data.len() > MAX_INTERNAL_OBJECT_LENGTH ==> added_view(data) is External,
{
}

/// The descriptor that a put of `kind` leaves on the ledger: an external one
/// starts unresolved.
pub open spec fn stored_by(kind: KindView) -> ObjectView {
    match kind {
        KindView::Internal(b) => ObjectView::Internal(b),
        KindView::External(c) => ObjectView::External(c, false),
    }
}

/// The put that an add session submits stores what an add stores: the bytes
/// of an object that fits on the ledger, or else the identifier framed from the
/// BLAKE3 digest that the blob node reports for the content.
pub proof fn lemma_session_put_is_add(data: Seq<u8>, hash: Seq<u8>)
    requires
        data.len() > 0,
        data.len() > MAX_INTERNAL_OBJECT_LENGTH ==> hash == blake3_digest(data),
    ensures
        data.len() <= MAX_INTERNAL_OBJECT_LENGTH ==> stored_by(KindView::Internal(data))
            == added_view(data),
        data.len() > MAX_INTERNAL_OBJECT_LENGTH ==> stored_by(
            KindView::External(cid_frame(hash)),
        ) == added_view(data),
{
}

} // verus!
