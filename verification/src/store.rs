//! Wallet-state store: at most one wallet blob per username, written
//! with upsert semantics and read back by username.
//!
//! Each record keeps the wallet state as a hex string, exactly as the
//! swappable backends persist it; the store's model is the map from
//! username to decoded wallet bytes.

use vstd::prelude::*;

use crate::hexcodec::{bytes_of_hex, hex_decode, hex_encode, is_valid_hex, lemma_hex_round_trip};

verus! {

/// One stored record: a username and the hex-encoded wallet state.
pub struct MurmurDbObject {
    pub mmr: String,
    pub username: String,
}

/// A storage fault. The variants mirror what a backend can hit:
/// a transport fault, a hex-decoding fault, a blob-decoding fault.
/// The in-memory backend proves it never produces one.
#[derive(Debug)]
pub enum Error {
    Db,
    Hex,
    Codec,
}

/// The message a store fault carries.
pub open spec fn error_message_spec(e: Error) -> Seq<char> {
    match e {
        Error::Db => "Db error"@,
        Error::Hex => "Hex error"@,
        Error::Codec => "Codec error"@,
    }
}

impl Error {
    /// A readable description of the fault.
    pub fn message(&self) -> (r: String)
        ensures
            r@ == error_message_spec(*self),
    {
        match self {
            Error::Db => String::from_str("Db error"),
            Error::Hex => String::from_str("Hex error"),
            Error::Codec => String::from_str("Codec error"),
        }
    }
}

/// No two records share a username, and every stored blob is valid hex.
pub open spec fn wf_records(recs: Seq<MurmurDbObject>) -> bool {
    &&& forall|i: int, j: int|
        0 <= i < j < recs.len() ==> recs[i].username@ != recs[j].username@
    &&& forall|i: int| 0 <= i < recs.len() ==> is_valid_hex(#[trigger] recs[i].mmr@)
}

/// Whether some record holds the given username.
pub open spec fn records_contain(recs: Seq<MurmurDbObject>, u: Seq<char>) -> bool {
    exists|i: int| 0 <= i < recs.len() && recs[i].username@ == u
}

/// The index of the record holding the given username.
pub open spec fn record_index(recs: Seq<MurmurDbObject>, u: Seq<char>) -> int {
    choose|i: int| 0 <= i < recs.len() && recs[i].username@ == u
}

/// The map from username to decoded wallet state that a record
/// sequence stands for.
pub open spec fn records_view(recs: Seq<MurmurDbObject>) -> Map<Seq<char>, Seq<u8>> {
    Map::new(
        |u: Seq<char>| records_contain(recs, u),
        |u: Seq<char>| bytes_of_hex(recs[record_index(recs, u)].mmr@),
    )
}

/// With distinct usernames, the record index of a matching record is
/// that record's own index.
proof fn lemma_record_index_unique(recs: Seq<MurmurDbObject>, u: Seq<char>, i: int)
    requires
        wf_records(recs),
        0 <= i < recs.len(),
        recs[i].username@ == u,
    ensures
        record_index(recs, u) == i,
{
    assert(records_contain(recs, u));
    let j = record_index(recs, u);
    assert(0 <= j < recs.len() && recs[j].username@ == u);
}

/// The wallet-state store. This backend keeps its records in memory;
/// its contract is the one every backend must meet: `write` upserts by
/// username, `load` returns the stored state or nothing.
pub struct Store {
    records: Vec<MurmurDbObject>,
}

impl View for Store {
    type V = Map<Seq<char>, Seq<u8>>;

    closed spec fn view(&self) -> Map<Seq<char>, Seq<u8>> {
        records_view(self.records@)
    }
}

impl Store {
    /// The store's internal invariant.
    pub closed spec fn wf(&self) -> bool {
        wf_records(self.records@)
    }

    /// An empty store.
    pub fn init() -> (s: Store)
        ensures
            s.wf(),
            s@ == Map::<Seq<char>, Seq<u8>>::empty(),
    {
        let s = Store { records: Vec::new() };
        proof {
            assert(s@ =~= Map::<Seq<char>, Seq<u8>>::empty());
        }
        s
    }

    /// The index of the record for `username`, if one exists.
    fn find_index(&self, username: &String) -> (r: Option<usize>)
        requires
            self.wf(),
        ensures
            r matches Some(i) ==> i < self.records@.len() && self.records@[i as int].username@
                == username@,
            r is None ==> !records_contain(self.records@, username@),
    {
        let mut j: usize = 0;
        while j < self.records.len()
            invariant
                j <= self.records@.len(),
                forall|k: int| 0 <= k < j ==> self.records@[k].username@ != username@,
            decreases self.records@.len() - j,
        {
            if self.records[j].username == *username {
                return Some(j);
            }
            j += 1;
        }
        None
    }

    /// Returns the wallet state stored for `username`, or `None` if no
    /// record exists. A missing record is not a fault.
    pub fn load(&self, username: &String) -> (r: Result<Option<Vec<u8>>, Error>)
        requires
            self.wf(),
        ensures
            self@.contains_key(username@) ==> (r matches Ok(w) && w matches Some(v) && v@
                == self@[username@]),
            !self@.contains_key(username@) ==> r == Ok::<Option<Vec<u8>>, Error>(None),
    {
        match self.find_index(username) {
            Some(i) => {
                proof {
                    lemma_record_index_unique(self.records@, username@, i as int);
                }
                let rec = &self.records[i];
                match hex_decode(rec.mmr.as_str()) {
                    Some(bytes) => Ok(Some(bytes)),
                    None => Err(Error::Hex),
                }
            },
            None => Ok(None),
        }
    }

    /// Persists `mmr` as the wallet state for `username`: the record
    /// for that username is replaced, or created if absent. No other
    /// record changes, so the model is a map insert.
    pub fn write(&mut self, username: String, mmr: &Vec<u8>) -> (r: Result<(), Error>)
        requires
            old(self).wf(),
        ensures
            final(self).wf(),
            r is Ok,
            final(self)@ == old(self)@.insert(username@, mmr@),
    {
        let encoded = hex_encode(mmr.as_slice());
        proof {
            lemma_hex_round_trip(mmr@);
        }
        match self.find_index(&username) {
            Some(i) => {
                proof {
                    lemma_record_index_unique(self.records@, username@, i as int);
                }
                let ghost old_recs = self.records@;
                let obj = MurmurDbObject { mmr: encoded, username };
                let ghost u = obj.username@;
                let ghost w = mmr@;
                self.records.set(i, obj);
                proof {
                    let recs = self.records@;
                    assert forall|v: Seq<char>| records_contain(recs, v) implies records_contain(
                        old_recs,
                        v,
                    ) by {
                        let k = choose|k: int|
                            0 <= k < recs.len() && recs[k].username@ == v;
                        assert(old_recs[k].username@ == v);
                    }
                    assert forall|v: Seq<char>| records_contain(old_recs, v) implies records_contain(
                        recs,
                        v,
                    ) by {
                        let k = choose|k: int|
                            0 <= k < old_recs.len() && old_recs[k].username@ == v;
                        assert(recs[k].username@ == v);
                    }
                    assert forall|a: int, b: int|
                        0 <= a < b < recs.len() implies recs[a].username@
                        != recs[b].username@ by {
                        assert(recs[a].username@ == old_recs[a].username@);
                        assert(recs[b].username@ == old_recs[b].username@);
                    }
                    assert(wf_records(recs));
                    assert forall|v: Seq<char>| records_contain(recs, v) implies records_view(
                        recs,
                    )[v] == records_view(old_recs).insert(u, w)[v] by {
                        let k = record_index(recs, v);
                        assert(0 <= k < recs.len() && recs[k].username@ == v);
                        if v == u {
                            lemma_record_index_unique(recs, v, i as int);
                            assert(records_view(recs)[v] == bytes_of_hex(recs[i as int].mmr@));
                        } else {
                            lemma_record_index_unique(old_recs, v, k);
                            assert(recs[k].mmr@ == old_recs[k].mmr@);
                        }
                    }
                    assert(records_view(recs) =~= records_view(old_recs).insert(u, w));
                }
                Ok(())
            },
            None => {
                let ghost old_recs = self.records@;
                let obj = MurmurDbObject { mmr: encoded, username };
                let ghost u = obj.username@;
                let ghost w = mmr@;
                self.records.push(obj);
                proof {
                    let recs = self.records@;
                    let n = old_recs.len() as int;
                    assert(recs[n].username@ == u);
                    assert forall|a: int, b: int|
                        0 <= a < b < recs.len() implies recs[a].username@
                        != recs[b].username@ by {
                        if b < n {
                            assert(recs[a].username@ == old_recs[a].username@);
                            assert(recs[b].username@ == old_recs[b].username@);
                        } else {
                            assert(recs[a].username@ == old_recs[a].username@);
                            assert(!records_contain(old_recs, u));
                        }
                    }
                    assert(wf_records(recs));
                    assert forall|v: Seq<char>| records_contain(recs, v) implies records_view(
                        recs,
                    )[v] == records_view(old_recs).insert(u, w)[v] by {
                        let k = record_index(recs, v);
                        assert(0 <= k < recs.len() && recs[k].username@ == v);
                        if v == u {
                            lemma_record_index_unique(recs, v, n);
                        } else {
                            assert(k < n);
                            lemma_record_index_unique(old_recs, v, k);
                            assert(recs[k].mmr@ == old_recs[k].mmr@);
                        }
                    }
                    assert forall|v: Seq<char>| records_contain(old_recs, v) implies records_contain(
                        recs,
                        v,
                    ) by {
                        let k = choose|k: int|
                            0 <= k < old_recs.len() && old_recs[k].username@ == v;
                        assert(recs[k].username@ == v);
                    }
                    assert forall|v: Seq<char>| records_contain(recs, v) implies (v == u
                        || records_contain(old_recs, v)) by {
                        let k = record_index(recs, v);
                        if k < n {
                            assert(old_recs[k].username@ == v);
                        }
                    }
                    assert(records_view(recs) =~= records_view(old_recs).insert(u, w));
                }
                Ok(())
            },
        }
    }
}

/// Law: writing a wallet state and then loading the same username
/// returns exactly the written state.
pub proof fn lemma_store_round_trip(m: Map<Seq<char>, Seq<u8>>, u: Seq<char>, w: Seq<u8>)
    ensures
        m.insert(u, w).contains_key(u),
        m.insert(u, w)[u] == w,
{
}

/// Law: two sequential writes for the same username leave exactly the
/// second state; no stale record is observable.
pub proof fn lemma_store_upsert(m: Map<Seq<char>, Seq<u8>>, u: Seq<char>, w1: Seq<u8>, w2: Seq<u8>)
    ensures
        m.insert(u, w1).insert(u, w2) == m.insert(u, w2),
{
    assert(m.insert(u, w1).insert(u, w2) =~= m.insert(u, w2));
}

/// Law: a username never written is absent from the store's model.
pub proof fn lemma_store_missing(u: Seq<char>)
    ensures
        !Map::<Seq<char>, Seq<u8>>::empty().contains_key(u),
{
}

} // verus!
