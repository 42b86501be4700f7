//! Pending whitelist requests and the store that owns them.
//!
//! The store keeps at most one live record per request identifier, and the
//! record's presence is the sole signal that the request is still pending.
//! `claim` reads and removes a record in one operation on the exclusively
//! borrowed store; it is the only de-duplication primitive the lifecycle
//! coordinator relies on, so that of many racing decisions only the one that
//! claims the record may act.
//!
//! The store lives in this process's memory: it carries the whole contract of
//! the pending-request table — create, fetch, and the atomic claim — but not
//! its durability. Pending requests do not survive a restart and are not
//! shared with other processes; an embedding application that needs either
//! must mirror the records in storage of its own.

use vstd::prelude::*;

verus! {

/// A pending whitelist request.
pub struct WhitelistRequest {
    /// Unique identifier, the external correlation token for decision events.
    pub id: String,
    /// Identifier of the target server configuration.
    pub server_id: String,
    /// Platform identity of the original requester.
    pub discord_id: String,
    /// Game-account username to be whitelisted.
    pub minecraft_username: String,
    /// Creation time in seconds since the epoch, informational only.
    pub created_at: Option<i64>,
}

/// Mathematical image of a [`WhitelistRequest`].
pub struct RequestData {
    pub id: Seq<char>,
    pub server_id: Seq<char>,
    pub discord_id: Seq<char>,
    pub minecraft_username: Seq<char>,
    pub created_at: Option<i64>,
}

impl View for WhitelistRequest {
    type V = RequestData;

    open spec fn view(&self) -> RequestData {
        RequestData {
            id: self.id@,
            server_id: self.server_id@,
            discord_id: self.discord_id@,
            minecraft_username: self.minecraft_username@,
            created_at: self.created_at,
        }
    }
}

impl Clone for WhitelistRequest {
    fn clone(&self) -> (r: Self)
        ensures
            r@ == self@,
    {
        WhitelistRequest {
            id: self.id.clone(),
            server_id: self.server_id.clone(),
            discord_id: self.discord_id.clone(),
            minecraft_username: self.minecraft_username.clone(),
            created_at: self.created_at,
        }
    }
}

/// The mathematical images of a sequence of records.
pub open spec fn rows_data(rows: Seq<WhitelistRequest>) -> Seq<RequestData> {
    Seq::new(rows.len(), |i: int| rows[i]@)
}

/// No two records share an identifier.
pub open spec fn rows_unique(rows: Seq<RequestData>) -> bool {
    forall|i: int, j: int| 0 <= i < j < rows.len() ==> rows[i].id != rows[j].id
}

/// The records of a sequence, keyed by identifier.
pub open spec fn rows_as_map(rows: Seq<RequestData>) -> Map<Seq<char>, RequestData>
    decreases rows.len(),
{
    if rows.len() == 0 {
        Map::empty()
    } else {
        rows_as_map(rows.drop_last()).insert(rows.last().id, rows.last())
    }
}

proof fn lemma_rows_as_map_membership(rows: Seq<RequestData>, k: Seq<char>)
    ensures
        rows_as_map(rows).contains_key(k) <==> exists|i: int| 0 <= i < rows.len() && rows[i].id == k,
    decreases rows.len(),
{
    if rows.len() > 0 {
        lemma_rows_as_map_membership(rows.drop_last(), k);
        if rows.last().id == k {
            assert(rows[rows.len() - 1].id == k);
        } else if rows_as_map(rows).contains_key(k) {
            let i = choose|i: int| 0 <= i < rows.drop_last().len() && rows.drop_last()[i].id == k;
            assert(rows[i].id == k);
        } else if exists|i: int| 0 <= i < rows.len() && rows[i].id == k {
            let i = choose|i: int| 0 <= i < rows.len() && rows[i].id == k;
            assert(rows.drop_last()[i].id == k);
        }
    }
}

proof fn lemma_rows_as_map_index(rows: Seq<RequestData>, i: int)
    requires
        rows_unique(rows),
        0 <= i < rows.len(),
    ensures
        rows_as_map(rows).contains_key(rows[i].id),
        rows_as_map(rows)[rows[i].id] == rows[i],
    decreases rows.len(),
{
    if i == rows.len() - 1 {
        lemma_rows_as_map_membership(rows, rows[i].id);
    } else {
        lemma_rows_as_map_index(rows.drop_last(), i);
        assert(rows.drop_last()[i] == rows[i]);
        assert(rows.last().id != rows[i].id);
    }
}

proof fn lemma_rows_unique_remove(rows: Seq<RequestData>, i: int)
    requires
        rows_unique(rows),
        0 <= i < rows.len(),
    ensures
        rows_unique(rows.remove(i)),
{
    let cut = rows.remove(i);
    assert forall|p: int, q: int| 0 <= p < q < cut.len() implies cut[p].id != cut[q].id by {
        let p0: int = if p < i {
            p
        } else {
            p + 1
        };
        let q0: int = if q < i {
            q
        } else {
            q + 1
        };
        assert(cut[p] == rows[p0]);
        assert(cut[q] == rows[q0]);
    }
}

proof fn lemma_rows_as_map_remove(rows: Seq<RequestData>, i: int)
    requires
        rows_unique(rows),
        0 <= i < rows.len(),
    ensures
        rows_as_map(rows.remove(i)) == rows_as_map(rows).remove(rows[i].id),
    decreases rows.len(),
{
    let k = rows[i].id;
    if i == rows.len() - 1 {
        assert(rows.remove(i) =~= rows.drop_last());
        lemma_rows_as_map_membership(rows.drop_last(), k);
        assert(forall|j: int| 0 <= j < rows.drop_last().len() ==> rows.drop_last()[j] == rows[j]);
        assert(!rows_as_map(rows.drop_last()).contains_key(k));
        assert(rows_as_map(rows.drop_last()).insert(k, rows.last()).remove(k) =~= rows_as_map(
            rows.drop_last(),
        ));
    } else {
        let shorter = rows.drop_last();
        lemma_rows_as_map_remove(shorter, i);
        assert(rows.remove(i).drop_last() =~= shorter.remove(i));
        assert(rows.remove(i).last() == rows.last());
        assert(rows.last().id != k);
        assert(rows_as_map(shorter).remove(k).insert(rows.last().id, rows.last()) =~= rows_as_map(
            shorter,
        ).insert(rows.last().id, rows.last()).remove(k));
    }
}

proof fn lemma_rows_as_map_push(rows: Seq<RequestData>, r: RequestData)
    ensures
        rows_as_map(rows.push(r)) == rows_as_map(rows).insert(r.id, r),
{
    assert(rows.push(r).drop_last() =~= rows);
    assert(rows.push(r).last() == r);
}

/// The durable set of pending requests, keyed by request identifier.
///
/// Abstractly the store is a map from identifier to record; the concrete
/// record list never holds two records with the same identifier.
pub struct RequestStore {
    rows: Vec<WhitelistRequest>,
}

impl View for RequestStore {
    type V = Map<Seq<char>, RequestData>;

    closed spec fn view(&self) -> Map<Seq<char>, RequestData> {
        rows_as_map(rows_data(self.rows@))
    }
}

impl RequestStore {
    #[verifier::type_invariant]
    spec fn wf(&self) -> bool {
        rows_unique(rows_data(self.rows@))
    }

    /// An empty store.
    pub fn new() -> (r: Self)
        ensures
            r@ == Map::<Seq<char>, RequestData>::empty(),
    {
        let r = RequestStore { rows: Vec::new() };
        proof {
            assert(rows_data(r.rows@) =~= Seq::<RequestData>::empty());
        }
        r
    }

    /// Inserts a new pending record. The caller supplies a pre-generated
    /// identifier; an identifier that is already live is refused and the
    /// store is left unchanged.
    pub fn create(&mut self, request: WhitelistRequest) -> (r: Result<(), ()>)
        ensures
            old(self)@.contains_key(request@.id) ==> r is Err && final(self)@ == old(self)@,
            !old(self)@.contains_key(request@.id) ==> r is Ok && final(self)@ == old(self)@.insert(
                request@.id,
                request@,
            ),
    {
        proof {
            use_type_invariant(&*self);
        }
        let ghost rows0 = rows_data(self.rows@);
        if let Some(i) = self.find_index(request.id.as_str()) {
            proof {
                assert(rows0[i as int].id == request@.id);
                lemma_rows_as_map_membership(rows0, request@.id);
            }
            Err(())
        } else {
            proof {
                lemma_rows_as_map_membership(rows0, request@.id);
            }
            let ghost req_data = request@;
            let mut rows: Vec<WhitelistRequest> = Vec::new();
            core::mem::swap(&mut rows, &mut self.rows);
            rows.push(request);
            proof {
                assert(rows_data(rows@) =~= rows0.push(req_data));
                lemma_rows_as_map_push(rows0, req_data);
            }
            self.rows = rows;
            Ok(())
        }
    }

    /// Read-only lookup, meant for display; whether to act is decided by
    /// [`Self::claim`] alone, never by a lookup followed by a removal.
    pub fn fetch(&self, id: &str) -> (r: Option<&WhitelistRequest>)
        ensures
            match r {
                Some(req) => self@.contains_key(id@) && req@ == self@[id@],
                None => !self@.contains_key(id@),
            },
    {
        proof {
            use_type_invariant(&*self);
        }
        let ghost rows0 = rows_data(self.rows@);
        proof {
            lemma_rows_as_map_membership(rows0, id@);
        }
        match self.find_index(id) {
            Some(i) => {
                proof {
                    lemma_rows_as_map_index(rows0, i as int);
                }
                Some(&self.rows[i])
            },
            None => None,
        }
    }

    /// Atomically reads and removes the record with the given identifier.
    ///
    /// Returns the record if it was live, and `None` if it was not — already
    /// claimed by a concurrent decision, never created, or long gone; these
    /// are indistinguishable on purpose. Of many callers racing on one
    /// identifier, exactly the first to run here receives the record.
    pub fn claim(&mut self, id: &str) -> (r: Option<WhitelistRequest>)
        ensures
            match r {
                Some(req) => old(self)@.contains_key(id@) && req@ == old(self)@[id@]
                    && final(self)@ == old(self)@.remove(id@),
                None => !old(self)@.contains_key(id@) && final(self)@ == old(self)@,
            },
    {
        proof {
            use_type_invariant(&*self);
        }
        let ghost rows0 = rows_data(self.rows@);
        proof {
            lemma_rows_as_map_membership(rows0, id@);
        }
        match self.find_index(id) {
            Some(i) => {
                proof {
                    lemma_rows_as_map_index(rows0, i as int);
                    lemma_rows_as_map_remove(rows0, i as int);
                    lemma_rows_unique_remove(rows0, i as int);
                }
                let mut rows: Vec<WhitelistRequest> = Vec::new();
                core::mem::swap(&mut rows, &mut self.rows);
                let req = rows.remove(i);
                proof {
                    assert(rows_data(rows@) =~= rows0.remove(i as int));
                }
                self.rows = rows;
                Some(req)
            },
            None => None,
        }
    }

    /// Index of the record with the given identifier, if any.
    fn find_index(&self, id: &str) -> (r: Option<usize>)
        ensures
            match r {
                Some(i) => i < self.rows@.len() && rows_data(self.rows@)[i as int].id == id@,
                None => forall|j: int|
                    0 <= j < self.rows@.len() ==> rows_data(self.rows@)[j].id != id@,
            },
    {
        let mut i: usize = 0;
        while i < self.rows.len()
            invariant
                i <= self.rows@.len(),
                forall|j: int| 0 <= j < i ==> rows_data(self.rows@)[j].id != id@,
            decreases self.rows@.len() - i,
        {
            if crate::text::str_eq(self.rows[i].id.as_str(), id) {
                proof {
                    assert(rows_data(self.rows@)[i as int].id == id@);
                }
                return Some(i);
            }
            i = i + 1;
        }
        None
    }
}

} // verus!
