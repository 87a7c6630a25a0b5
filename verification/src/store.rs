//! An in-memory model of the remote collection, with the same operations the
//! remote store offers (read metadata, list, create, delete). The
//! reconciliation engine runs against it verified end to end, which
//! establishes the laws of the three modes; drivers replay the same
//! decisions, taken from the event machine, against the real store.

use vstd::prelude::*;
use crate::data::RecError;
use crate::data::Version;
use crate::engine::retrieve_decide;
use crate::jsontext::json_of;
use crate::jsontext::to_json_string;
use crate::record::Record;
use crate::record::clone_record;
use crate::record::find_val;
use crate::record::get_prop;
use crate::record::prop_names;
use crate::record::rec_has_key;
use crate::record::rec_key_json;

verus! {

/// One record as the store holds it: the store-assigned identifier and the
/// record's properties.
pub struct StoredPage {
    pub id: u64,
    pub record: Record,
}

/// The model collection: its identifier, its last-modification stamp
/// (bumped on every mutation, saturating), the next record identifier, and
/// the records in creation order.
pub struct ModelStore {
    pub db_id: String,
    pub last_edited_time: i64,
    pub next_id: u64,
    pub pages: Vec<StoredPage>,
}

/// The fingerprint the store reports: collection identifier and
/// last-modification stamp.
pub open spec fn version_of(s: ModelStore) -> (Seq<char>, int) {
    (s.db_id@, s.last_edited_time as int)
}

/// Whether a stored record's value at `key` renders to the JSON text `v`:
/// the match semantics of the store-side filter query.
pub open spec fn page_matches(p: StoredPage, key: Seq<char>, v: Seq<char>) -> bool {
    match find_val(p.record.props@, key) {
        Some(x) => json_of(x) == v,
        None => false,
    }
}

/// How many stored records match `key = v`.
pub open spec fn count_matching(pages: Seq<StoredPage>, key: Seq<char>, v: Seq<char>) -> int
    decreases pages.len(),
{
    if pages.len() == 0 {
        0
    } else {
        count_matching(pages.drop_last(), key, v) + if page_matches(pages.last(), key, v) {
            1int
        } else {
            0int
        }
    }
}

/// The stored records that do not match `key = v`, in their original order.
pub open spec fn drop_matching(pages: Seq<StoredPage>, key: Seq<char>, v: Seq<char>) -> Seq<
    StoredPage,
>
    decreases pages.len(),
{
    if pages.len() == 0 {
        pages
    } else {
        let rest = drop_matching(pages.drop_last(), key, v);
        if page_matches(pages.last(), key, v) {
            rest
        } else {
            rest.push(pages.last())
        }
    }
}

/// Appending a record changes the match counts by exactly its own match.
pub proof fn lemma_count_push(s: Seq<StoredPage>, p: StoredPage, key: Seq<char>, v: Seq<char>)
    ensures
        count_matching(s.push(p), key, v) == count_matching(s, key, v) + if page_matches(
            p,
            key,
            v,
        ) {
            1int
        } else {
            0int
        },
{
    assert(s.push(p).drop_last() =~= s);
    assert(s.push(p).last() == p);
}

/// Deleting the records that match `key = v` leaves none matching `v` and
/// leaves the match count of every other value unchanged.
pub proof fn lemma_drop_matching_counts(s: Seq<StoredPage>, key: Seq<char>, v: Seq<char>)
    ensures
        count_matching(drop_matching(s, key, v), key, v) == 0,
        forall|v2: Seq<char>|
            v2 != v ==> count_matching(drop_matching(s, key, v), key, v2) == count_matching(
                s,
                key,
                v2,
            ),
    decreases s.len(),
{
    if s.len() == 0 {
    } else {
        let dl = s.drop_last();
        let last = s.last();
        lemma_drop_matching_counts(dl, key, v);
        if page_matches(last, key, v) {
            assert(drop_matching(s, key, v) == drop_matching(dl, key, v));
            assert forall|v2: Seq<char>| v2 != v implies count_matching(
                drop_matching(s, key, v),
                key,
                v2,
            ) == count_matching(s, key, v2) by {
                assert(!page_matches(last, key, v2));
                assert(count_matching(s, key, v2) == count_matching(dl, key, v2));
            }
        } else {
            lemma_count_push(drop_matching(dl, key, v), last, key, v);
            assert forall|v2: Seq<char>| v2 != v implies count_matching(
                drop_matching(s, key, v),
                key,
                v2,
            ) == count_matching(s, key, v2) by {
                lemma_count_push(drop_matching(dl, key, v), last, key, v2);
                assert(count_matching(s, key, v2) == count_matching(dl, key, v2)
                    + if page_matches(last, key, v2) {
                    1int
                } else {
                    0int
                });
            }
        }
    }
}

/// Whether a stored record lacks the key property entirely.
pub open spec fn page_keyless(p: StoredPage, key: Seq<char>) -> bool {
    find_val(p.record.props@, key) is None
}

/// How many stored records lack the key property.
pub open spec fn count_keyless(pages: Seq<StoredPage>, key: Seq<char>) -> int
    decreases pages.len(),
{
    if pages.len() == 0 {
        0
    } else {
        count_keyless(pages.drop_last(), key) + if page_keyless(pages.last(), key) {
            1int
        } else {
            0int
        }
    }
}

/// Whether `v` is the key value (as JSON text) of some batch record.
pub open spec fn batch_key(recs: Seq<Record>, key: Seq<char>, v: Seq<char>) -> bool {
    exists|j: int| 0 <= j < recs.len() && rec_key_json(#[trigger] recs[j], key) == v
}

/// Appending a record changes the keyless count by exactly its own lack of
/// the key.
pub proof fn lemma_keyless_push(s: Seq<StoredPage>, p: StoredPage, key: Seq<char>)
    ensures
        count_keyless(s.push(p), key) == count_keyless(s, key) + if page_keyless(p, key) {
            1int
        } else {
            0int
        },
{
    assert(s.push(p).drop_last() =~= s);
    assert(s.push(p).last() == p);
}

/// Deleting the records that match `key = v` never touches a record that
/// lacks the key.
pub proof fn lemma_drop_matching_keyless(s: Seq<StoredPage>, key: Seq<char>, v: Seq<char>)
    ensures
        count_keyless(drop_matching(s, key, v), key) == count_keyless(s, key),
    decreases s.len(),
{
    if s.len() == 0 {
    } else {
        let dl = s.drop_last();
        let last = s.last();
        lemma_drop_matching_keyless(dl, key, v);
        if page_matches(last, key, v) {
            assert(!page_keyless(last, key));
        } else {
            lemma_keyless_push(drop_matching(dl, key, v), last, key);
        }
    }
}

/// Deletion only removes records: whatever remains was already there.
pub proof fn lemma_drop_matching_contains(
    s: Seq<StoredPage>,
    key: Seq<char>,
    v: Seq<char>,
    p: StoredPage,
)
    requires
        drop_matching(s, key, v).contains(p),
    ensures
        s.contains(p),
    decreases s.len(),
{
    if s.len() == 0 {
    } else {
        let dl = s.drop_last();
        let last = s.last();
        if page_matches(last, key, v) {
            lemma_drop_matching_contains(dl, key, v, p);
            let m = choose|m: int| 0 <= m < dl.len() && dl[m] == p;
            assert(s[m] == p);
        } else {
            if p == last {
                assert(s[s.len() - 1] == p);
            } else {
                let kept = drop_matching(dl, key, v);
                assert(kept.push(last).contains(p));
                let m = choose|m: int| 0 <= m < kept.push(last).len() && kept.push(last)[m] == p;
                assert(kept[m] == p);
                lemma_drop_matching_contains(dl, key, v, p);
                let m2 = choose|m2: int| 0 <= m2 < dl.len() && dl[m2] == p;
                assert(s[m2] == p);
            }
        }
    }
}

/// A match count is never negative.
pub proof fn lemma_count_nonneg(s: Seq<StoredPage>, key: Seq<char>, v: Seq<char>)
    ensures
        count_matching(s, key, v) >= 0,
    decreases s.len(),
{
    if s.len() == 0 {
    } else {
        lemma_count_nonneg(s.drop_last(), key, v);
    }
}

/// A collection that contains a record matching `key = v` has a positive
/// match count for `v`.
pub proof fn lemma_contains_matching_count(
    s: Seq<StoredPage>,
    key: Seq<char>,
    v: Seq<char>,
    p: StoredPage,
)
    requires
        s.contains(p),
        page_matches(p, key, v),
    ensures
        count_matching(s, key, v) >= 1,
    decreases s.len(),
{
    if s.len() == 0 {
    } else {
        let dl = s.drop_last();
        if p == s.last() {
            lemma_count_nonneg(dl, key, v);
        } else {
            let m = choose|m: int| 0 <= m < s.len() && s[m] == p;
            assert(dl[m] == p);
            lemma_contains_matching_count(dl, key, v, p);
        }
    }
}

/// Whether a stored record matches `key = value_json`, decided executably.
fn page_matches_exec(p: &StoredPage, key: &String, value_json: &String) -> (r: bool)
    ensures
        r == page_matches(*p, key@, value_json@),
{
    match get_prop(&p.record, key) {
        Some(v) => {
            let s = to_json_string(v);
            s == *value_json
        },
        None => false,
    }
}

impl ModelStore {
    /// An empty collection with the given identifier.
    pub fn new(db_id: String) -> (r: ModelStore)
        ensures
            r.db_id == db_id,
            r.pages@.len() == 0,
            r.last_edited_time == 0,
    {
        ModelStore { db_id, last_edited_time: 0, next_id: 0, pages: Vec::new() }
    }

    /// The store advances the collection's last-modification stamp on every
    /// mutation (saturating at the representable maximum).
    fn touch(&mut self)
        ensures
            final(self).db_id == old(self).db_id,
            final(self).next_id == old(self).next_id,
            final(self).pages == old(self).pages,
            old(self).last_edited_time <= final(self).last_edited_time,
            old(self).last_edited_time < i64::MAX ==> old(self).last_edited_time
                < final(self).last_edited_time,
    {
        if self.last_edited_time < i64::MAX {
            self.last_edited_time = self.last_edited_time + 1;
        }
    }

    /// The collection's current fingerprint (a read; no mutation).
    pub fn version(&self) -> (r: Version)
        ensures
            r@ == version_of(*self),
    {
        Version { id: self.db_id.clone(), last_edited_time: self.last_edited_time }
    }

    /// Copies of all records, in the order the store reports them.
    pub fn records(&self) -> (r: Vec<Record>)
        ensures
            r@.len() == self.pages@.len(),
            forall|j: int|
                0 <= j < r@.len() ==> (#[trigger] r@[j]).props@ == self.pages@[j].record.props@,
    {
        let mut out: Vec<Record> = Vec::new();
        let n = self.pages.len();
        let mut i: usize = 0;
        while i < n
            invariant
                n == self.pages@.len(),
                out@.len() == i,
                0 <= i <= n,
                forall|j: int|
                    0 <= j < i ==> (#[trigger] out@[j]).props@ == self.pages@[j].record.props@,
            decreases n - i,
        {
            out.push(clone_record(&self.pages[i].record));
            i += 1;
        }
        out
    }

    /// Creates a record: it is appended with a fresh identifier and exactly
    /// the properties supplied.
    pub fn create(&mut self, rec: &Record)
        ensures
            final(self).pages@ == old(self).pages@.push(final(self).pages@.last()),
            final(self).pages@.len() == old(self).pages@.len() + 1,
            forall|j: int| 0 <= j < old(self).pages@.len() ==> final(self).pages@[j] == old(
                self,
            ).pages@[j],
            final(self).pages@.last().record.props@ == rec.props@,
            final(self).pages@.last().id == old(self).next_id,
            final(self).db_id == old(self).db_id,
            old(self).last_edited_time <= final(self).last_edited_time,
            old(self).last_edited_time < i64::MAX ==> old(self).last_edited_time
                < final(self).last_edited_time,
    {
        let page = StoredPage { id: self.next_id, record: clone_record(rec) };
        self.pages.push(page);
        if self.next_id < u64::MAX {
            self.next_id = self.next_id + 1;
        }
        self.touch();
    }

    /// Deletes every record in the collection.
    pub fn clear(&mut self)
        ensures
            final(self).pages@.len() == 0,
            final(self).db_id == old(self).db_id,
            old(self).last_edited_time <= final(self).last_edited_time,
    {
        self.pages = Vec::new();
        self.touch();
    }

    /// Deletes every record whose value at `key` renders to `value_json`:
    /// the store-side filter query followed by deletion of each match.
    pub fn delete_matching(&mut self, key: &String, value_json: &String)
        ensures
            final(self).pages@ == drop_matching(old(self).pages@, key@, value_json@),
            final(self).db_id == old(self).db_id,
            final(self).next_id == old(self).next_id,
            old(self).last_edited_time <= final(self).last_edited_time,
    {
        let mut kept: Vec<StoredPage> = Vec::new();
        while self.pages.len() > 0
            invariant
                self.db_id == old(self).db_id,
                self.next_id == old(self).next_id,
                self.last_edited_time == old(self).last_edited_time,
                drop_matching(old(self).pages@, key@, value_json@) == drop_matching(
                    self.pages@,
                    key@,
                    value_json@,
                ) + kept@,
            decreases self.pages@.len(),
        {
            let ghost cur = self.pages@;
            let p = match self.pages.pop() {
                Some(p) => p,
                None => {
                    return ;  // unreachable: the loop condition gives a non-empty vector
                },
            };
            proof {
                assert(self.pages@ =~= cur.drop_last());
                assert(p == cur.last());
            }
            let ghost kept_before = kept@;
            if !page_matches_exec(&p, key, value_json) {
                kept.insert(0, p);
                proof {
                    assert(kept@ =~= seq![p] + kept_before);
                    assert(drop_matching(cur, key@, value_json@) == drop_matching(
                        cur.drop_last(),
                        key@,
                        value_json@,
                    ).push(p));
                    assert(drop_matching(cur.drop_last(), key@, value_json@).push(p) + kept_before
                        =~= drop_matching(cur.drop_last(), key@, value_json@) + (seq![p]
                        + kept_before));
                }
            } else {
                proof {
                    assert(drop_matching(cur, key@, value_json@) == drop_matching(
                        cur.drop_last(),
                        key@,
                        value_json@,
                    ));
                }
            }
        }
        proof {
            assert(drop_matching(self.pages@, key@, value_json@) =~= Seq::<StoredPage>::empty());
            assert(Seq::<StoredPage>::empty() + kept@ =~= kept@);
        }
        self.pages = kept;
        self.touch();
    }
}

/// The CHECK verb against the model: derive the current fingerprint.
/// Read-only, so checking twice without an interleaving mutation yields
/// equal fingerprints.
pub fn run_check(store: &ModelStore) -> (r: Version)
    ensures
        r@ == version_of(*store),
{
    store.version()
}

/// Two fingerprints derived from the same collection state are equal: CHECK
/// is idempotent while no remote mutation occurs.
pub proof fn lemma_check_idempotent(s: ModelStore, v1: Version, v2: Version)
    requires
        v1@ == version_of(s),
        v2@ == version_of(s),
    ensures
        v1@ == v2@,
{
}

/// The IN verb against the model: re-derive the fingerprint, refuse to read
/// under a mismatch, otherwise return every record unmodified.
pub fn run_retrieve(store: &ModelStore, expected: &Version) -> (r: Result<Vec<Record>, RecError>)
    ensures
        match r {
            Ok(recs) => {
                &&& expected@ == version_of(*store)
                &&& recs@.len() == store.pages@.len()
                &&& forall|j: int|
                    0 <= j < recs@.len() ==> (#[trigger] recs@[j]).props@
                        == store.pages@[j].record.props@
            },
            Err(e) => e matches RecError::ConcurrentModification && expected@ != version_of(
                *store,
            ),
        },
{
    let current = store.version();
    match retrieve_decide(expected, &current) {
        Ok(()) => Ok(store.records()),
        Err(e) => Err(e),
    }
}

/// Append round trip: a retrieval after a successful append returns, after
/// the prior records, every batch record's properties unmodified.
pub proof fn lemma_append_round_trip(
    pre: Seq<StoredPage>,
    post: Seq<StoredPage>,
    recs: Seq<Record>,
    got: Seq<Record>,
)
    requires
        append_post(pre, post, recs),
        got.len() == post.len(),
        forall|m: int| 0 <= m < got.len() ==> (#[trigger] got[m]).props@ == post[m].record.props@,
    ensures
        forall|j: int|
            0 <= j < recs.len() ==> got[pre.len() + j].props@ == (#[trigger] recs[j]).props@,
{
    assert forall|j: int| 0 <= j < recs.len() implies got[pre.len() + j].props@ == (
    #[trigger] recs[j]).props@ by {
        assert(got[pre.len() + j].props@ == post[pre.len() + j].record.props@);
    }
}

/// After an append: the prior records stand untouched, followed by one new
/// record per batch entry, with exactly the properties supplied.
pub open spec fn append_post(pre: Seq<StoredPage>, post: Seq<StoredPage>, recs: Seq<Record>) -> bool {
    &&& post.len() == pre.len() + recs.len()
    &&& (forall|j: int| 0 <= j < pre.len() ==> post[j] == pre[j])
    &&& (forall|j: int|
        0 <= j < recs.len() ==> (#[trigger] post[pre.len() + j]).record.props@ == recs[j].props@)
}

/// After a replace: the collection holds exactly the batch, in order,
/// whatever it held before.
pub open spec fn replace_post(post: Seq<StoredPage>, recs: Seq<Record>) -> bool {
    &&& post.len() == recs.len()
    &&& (forall|j: int| 0 <= j < recs.len() ==> (#[trigger] post[j]).record.props@ == recs[j].props@)
}

/// Whether no batch record after `j` and before `upto` shares record `j`'s
/// key value: record `j` has the final say for that key in the prefix.
pub open spec fn last_key_before(recs: Seq<Record>, key: Seq<char>, j: int, upto: int) -> bool {
    forall|l: int|
        j < l < upto ==> rec_key_json(#[trigger] recs[l], key) != rec_key_json(recs[j], key)
}

/// After a successful update: every batch record had the key property; the
/// collection holds exactly one record per distinct key value of the batch;
/// records whose key value is not a batch key value, and records lacking
/// the key property, are as numerous as before — the update touched nothing
/// else.
pub open spec fn update_ok_post(
    pre: Seq<StoredPage>,
    post: Seq<StoredPage>,
    recs: Seq<Record>,
    key: Seq<char>,
) -> bool {
    &&& (forall|j: int| 0 <= j < recs.len() ==> rec_has_key(#[trigger] recs[j], key))
    &&& (forall|j: int|
        0 <= j < recs.len() ==> count_matching(post, key, rec_key_json(#[trigger] recs[j], key))
            == 1)
    &&& (forall|v2: Seq<char>|
        !batch_key(recs, key, v2) ==> #[trigger] count_matching(post, key, v2) == count_matching(
            pre,
            key,
            v2,
        ))
    &&& count_keyless(post, key) == count_keyless(pre, key)
    &&& (forall|j: int, m: int|
        0 <= j < recs.len() && last_key_before(recs, key, j, recs.len() as int) && 0 <= m
            < post.len() && page_matches(
            #[trigger] post[m],
            key,
            rec_key_json(#[trigger] recs[j], key),
        ) ==> post[m].record.props@ == recs[j].props@)
}

/// After a failed update: the error names the first record lacking the key
/// property and lists that record's property names; the records before it
/// stay reconciled (one match per key value), with no rollback.
pub open spec fn update_err_post(
    e: RecError,
    pre: Seq<StoredPage>,
    post: Seq<StoredPage>,
    recs: Seq<Record>,
    key: Seq<char>,
) -> bool {
    match e {
        RecError::MissingKeyProperty { index, property, available } => {
            let i = index as int;
            &&& 0 <= i < recs.len()
            &&& !rec_has_key(recs[i], key)
            &&& (forall|j: int| 0 <= j < i ==> rec_has_key(#[trigger] recs[j], key))
            &&& property@ == key
            &&& available@.len() == recs[i].props@.len()
            &&& (forall|m: int|
                0 <= m < available@.len() ==> available@[m]@ == recs[i].props@[m].name@)
            &&& (forall|j: int|
                0 <= j < i ==> count_matching(post, key, rec_key_json(#[trigger] recs[j], key))
                    == 1)
            &&& (forall|v2: Seq<char>|
                !batch_key(recs.subrange(0, i), key, v2) ==> #[trigger] count_matching(
                    post,
                    key,
                    v2,
                ) == count_matching(pre, key, v2))
            &&& count_keyless(post, key) == count_keyless(pre, key)
            &&& (forall|j: int, m: int|
                0 <= j < i && last_key_before(recs, key, j, i) && 0 <= m < post.len()
                    && page_matches(
                    #[trigger] post[m],
                    key,
                    rec_key_json(#[trigger] recs[j], key),
                ) ==> post[m].record.props@ == recs[j].props@)
        },
        _ => false,
    }
}

/// Append mode: create each batch record, in input order, deleting nothing.
pub fn reconcile_append(store: &mut ModelStore, records: &Vec<Record>)
    ensures
        final(store).db_id == old(store).db_id,
        append_post(old(store).pages@, final(store).pages@, records@),
{
    let n = records.len();
    let mut i: usize = 0;
    while i < n
        invariant
            n == records@.len(),
            0 <= i <= n,
            store.db_id == old(store).db_id,
            append_post(old(store).pages@, store.pages@, records@.subrange(0, i as int)),
        decreases n - i,
    {
        store.create(&records[i]);
        i += 1;
    }
    proof {
        assert(records@.subrange(0, n as int) =~= records@);
    }
}

/// Update mode: per record, in input order, read the key value (failing on
/// absence with the record's property names), delete the records matching
/// it, then create the record. Records before a failing one stay
/// reconciled.
pub fn reconcile_update(store: &mut ModelStore, records: &Vec<Record>, key: &String) -> (r: Result<
    (),
    RecError,
>)
    ensures
        final(store).db_id == old(store).db_id,
        match r {
            Ok(()) => update_ok_post(old(store).pages@, final(store).pages@, records@, key@),
            Err(e) => update_err_post(
                e,
                old(store).pages@,
                final(store).pages@,
                records@,
                key@,
            ),
        },
{
    let n = records.len();
    let mut i: usize = 0;
    while i < n
        invariant
            n == records@.len(),
            0 <= i <= n,
            store.db_id == old(store).db_id,
            forall|j: int| 0 <= j < i ==> rec_has_key(#[trigger] records@[j], key@),
            forall|j: int|
                0 <= j < i ==> count_matching(
                    store.pages@,
                    key@,
                    rec_key_json(#[trigger] records@[j], key@),
                ) == 1,
            forall|v2: Seq<char>|
                (forall|j: int| 0 <= j < i ==> rec_key_json(#[trigger] records@[j], key@) != v2)
                    ==> #[trigger] count_matching(store.pages@, key@, v2) == count_matching(
                    old(store).pages@,
                    key@,
                    v2,
                ),
            count_keyless(store.pages@, key@) == count_keyless(old(store).pages@, key@),
            forall|j: int, m: int|
                0 <= j < i && last_key_before(records@, key@, j, i as int) && 0 <= m
                    < store.pages@.len() && page_matches(
                    #[trigger] store.pages@[m],
                    key@,
                    rec_key_json(#[trigger] records@[j], key@),
                ) ==> store.pages@[m].record.props@ == records@[j].props@,
        decreases n - i,
    {
        let vj_opt: Option<String> = match get_prop(&records[i], key) {
            Some(v) => Some(to_json_string(v)),
            None => None,
        };
        match vj_opt {
            None => {
                let available = prop_names(&records[i]);
                proof {
                    assert forall|v2: Seq<char>|
                        !batch_key(
                            records@.subrange(0, i as int),
                            key@,
                            v2,
                        ) implies #[trigger] count_matching(store.pages@, key@, v2)
                        == count_matching(old(store).pages@, key@, v2) by {
                        assert forall|j: int| 0 <= j < i implies rec_key_json(
                            #[trigger] records@[j],
                            key@,
                        ) != v2 by {
                            assert(records@.subrange(0, i as int)[j] == records@[j]);
                        }
                    }
                }
                return Err(
                    RecError::MissingKeyProperty { index: i, property: key.clone(), available },
                );
            },
            Some(vj) => {
                proof {
                    assert(rec_key_json(records@[i as int], key@) == vj@);
                }
                let ghost before = store.pages@;
                store.delete_matching(key, &vj);
                proof {
                    lemma_drop_matching_counts(before, key@, vj@);
                }
                let ghost after_del = store.pages@;
                store.create(&records[i]);
                let ghost last = store.pages@.last();
                proof {
                    assert(find_val(last.record.props@, key@) == find_val(
                        records@[i as int].props@,
                        key@,
                    ));
                    assert forall|j: int| 0 <= j < i + 1 implies count_matching(
                        store.pages@,
                        key@,
                        rec_key_json(records@[j], key@),
                    ) == 1 by {
                        let v2 = rec_key_json(records@[j], key@);
                        lemma_count_push(after_del, last, key@, v2);
                        if v2 == vj@ {
                            assert(count_matching(after_del, key@, v2) == 0);
                            assert(page_matches(last, key@, v2));
                        } else {
                            assert(count_matching(after_del, key@, v2) == count_matching(
                                before,
                                key@,
                                v2,
                            ));
                            assert(!page_matches(last, key@, v2));
                        }
                    }
                    assert forall|v2: Seq<char>|
                        (forall|j: int|
                            0 <= j < i + 1 ==> rec_key_json(#[trigger] records@[j], key@)
                                != v2) implies #[trigger] count_matching(store.pages@, key@, v2)
                        == count_matching(old(store).pages@, key@, v2) by {
                        assert(rec_key_json(records@[i as int], key@) != v2);
                        assert(count_matching(after_del, key@, v2) == count_matching(
                            before,
                            key@,
                            v2,
                        ));
                        lemma_count_push(after_del, last, key@, v2);
                        assert(!page_matches(last, key@, v2));
                    }
                    lemma_drop_matching_keyless(before, key@, vj@);
                    lemma_keyless_push(after_del, last, key@);
                    assert(!page_keyless(last, key@));
                    assert forall|j: int, m: int|
                        0 <= j < i + 1 && last_key_before(records@, key@, j, i + 1) && 0 <= m
                            < store.pages@.len() && page_matches(
                            store.pages@[m],
                            key@,
                            rec_key_json(records@[j], key@),
                        ) implies store.pages@[m].record.props@ == records@[j].props@ by {
                        let vj2 = rec_key_json(records@[j], key@);
                        if m == store.pages@.len() - 1 {
                            assert(store.pages@[m] == last);
                            if j < i {
                                assert(rec_key_json(records@[i as int], key@) != vj2);
                                assert(page_matches(last, key@, vj@));
                                assert(false);
                            }
                        } else {
                            let p = after_del[m];
                            assert(store.pages@[m] == p);
                            if vj2 == vj@ {
                                assert(after_del.contains(p));
                                lemma_contains_matching_count(after_del, key@, vj@, p);
                                assert(false);
                            } else {
                                assert(j < i);
                                lemma_drop_matching_contains(before, key@, vj@, p);
                                let m2 = choose|m2: int|
                                    0 <= m2 < before.len() && before[m2] == p;
                                assert(last_key_before(records@, key@, j, i as int));
                                assert(page_matches(
                                    before[m2],
                                    key@,
                                    rec_key_json(records@[j], key@),
                                ));
                                assert(before[m2].record.props@ == records@[j].props@);
                            }
                        }
                    }
                }
                i += 1;
            },
        }
    }
    proof {
        assert forall|v2: Seq<char>| !batch_key(records@, key@, v2) implies #[trigger] count_matching(
            store.pages@,
            key@,
            v2,
        ) == count_matching(old(store).pages@, key@, v2) by {
            assert(forall|j: int|
                0 <= j < n ==> rec_key_json(#[trigger] records@[j], key@) != v2);
        }
    }
    Ok(())
}

/// One OUT invocation against the model: reject an empty batch, apply the
/// selected mode, then re-derive the fingerprint with a fresh read.
pub fn run_reconcile(store: &mut ModelStore, records: &Vec<Record>, mode: &crate::data::Mode) -> (r:
    Result<Version, RecError>)
    ensures
        final(store).db_id == old(store).db_id,
        match r {
            Ok(v) => {
                &&& records@.len() > 0
                &&& v@ == version_of(*final(store))
                &&& match *mode {
                    crate::data::Mode::Append => append_post(
                        old(store).pages@,
                        final(store).pages@,
                        records@,
                    ),
                    crate::data::Mode::Replace => replace_post(final(store).pages@, records@),
                    crate::data::Mode::Update { primary_id_property } => update_ok_post(
                        old(store).pages@,
                        final(store).pages@,
                        records@,
                        primary_id_property@,
                    ),
                }
            },
            Err(e) => {
                ||| (records@.len() == 0 && (e matches RecError::NothingToUpdate)
                    && *final(store) == *old(store))
                ||| (records@.len() > 0 && (*mode matches crate::data::Mode::Update {
                    primary_id_property,
                } && update_err_post(
                    e,
                    old(store).pages@,
                    final(store).pages@,
                    records@,
                    primary_id_property@,
                )))
            },
        },
{
    if records.len() == 0 {
        return Err(RecError::NothingToUpdate);
    }
    let outcome: Result<(), RecError> = match mode {
        crate::data::Mode::Append => {
            reconcile_append(store, records);
            Ok(())
        },
        crate::data::Mode::Replace => {
            store.clear();
            let ghost cleared = store.pages@;
            reconcile_append(store, records);
            proof {
                assert forall|j: int| 0 <= j < records@.len() implies (
                #[trigger] store.pages@[j]).record.props@ == records@[j].props@ by {
                    assert(store.pages@[cleared.len() + j].record.props@ == records@[j].props@);
                }
            }
            Ok(())
        },
        crate::data::Mode::Update { primary_id_property } => {
            reconcile_update(store, records, primary_id_property)
        },
    };
    match outcome {
        Ok(()) => Ok(store.version()),
        Err(e) => Err(e),
    }
}

/// Update-mode idempotence: after reconciling the same batch with the same
/// key twice in succession, the collection holds exactly one record per
/// distinct key value of the batch — the intermediate state after the first
/// run does not matter.
pub proof fn lemma_update_idempotent(
    pre: Seq<StoredPage>,
    mid: Seq<StoredPage>,
    post: Seq<StoredPage>,
    recs: Seq<Record>,
    key: Seq<char>,
)
    requires
        update_ok_post(pre, mid, recs, key),
        update_ok_post(mid, post, recs, key),
    ensures
        forall|j: int|
            0 <= j < recs.len() ==> count_matching(post, key, rec_key_json(#[trigger] recs[j], key))
                == 1,
{
}

} // verus!
