//! The statement cache: a mapping from a query's fingerprint — its rendered
//! SQL text — to an owned prepared-statement record. Entries are created
//! lazily on first execution of a cacheable query shape, live for the
//! connection's lifetime, and are never evicted.

use vstd::prelude::*;

verus! {

/// A prepared-statement record: the SQL text the statement was prepared
/// from. The native handle compiled this text when the record was built.
pub struct Statement {
    pub sql: String,
}

/// A statement handle returned to one call: either borrowed from the cache
/// — named by its slot, ownership stays with the cache — or freshly built
/// and owned by this call alone, because the query's shape is not safely
/// reusable.
pub enum MaybeCached {
    CannotCache(Statement),
    Cached(usize),
}

/// The cache: one slot per distinct fingerprint, in insertion order.
pub struct StatementCache {
    statements: Vec<Statement>,
}

/// The cache's contents after one lookup of `sql`: an uncacheable query
/// leaves it unchanged, a hit leaves it unchanged, a miss appends the new
/// fingerprint.
pub open spec fn cache_after(keys: Seq<Seq<char>>, sql: Seq<char>, cacheable: bool) -> Seq<
    Seq<char>,
> {
    if !cacheable {
        keys
    } else if keys.contains(sql) {
        keys
    } else {
        keys.push(sql)
    }
}

impl StatementCache {
    /// The cached fingerprints, in insertion order.
    pub closed spec fn keys(&self) -> Seq<Seq<char>> {
        self.statements@.map_values(|st: Statement| st.sql@)
    }

    /// No fingerprint occupies two slots.
    pub open spec fn wf(&self) -> bool {
        forall|i: int, j: int|
            0 <= i < j < self.keys().len() ==> self.keys()[i] != self.keys()[j]
    }

    pub fn new() -> (c: StatementCache)
        ensures
            c.keys() == Seq::<Seq<char>>::empty(),
            c.wf(),
    {
        let c = StatementCache { statements: Vec::new() };
        proof {
            assert(c.keys() =~= Seq::<Seq<char>>::empty());
        }
        c
    }

    /// Count of distinct cached fingerprints.
    pub fn len(&self) -> (n: usize)
        ensures
            n == self.keys().len(),
    {
        self.statements.len()
    }

    /// The slot holding `sql`, if any.
    pub fn position(&self, sql: &String) -> (r: Option<usize>)
        ensures
            match r {
                Some(i) => i < self.keys().len() && self.keys()[i as int] == sql@,
                None => !self.keys().contains(sql@),
            },
    {
        let n = self.statements.len();
        let mut i: usize = 0;
        while i < n
            invariant
                i <= n,
                n == self.keys().len(),
                forall|k: int| 0 <= k < i ==> self.keys()[k] != sql@,
            decreases n - i,
        {
            if self.statements[i].sql == *sql {
                return Some(i);
            }
            i = i + 1;
        }
        None
    }

    /// Inserts a freshly prepared statement under a fingerprint not yet
    /// present, and names the slot it went to.
    pub fn insert(&mut self, statement: Statement) -> (i: usize)
        requires
            old(self).wf(),
            !old(self).keys().contains(statement.sql@),
        ensures
            final(self).keys() == old(self).keys().push(statement.sql@),
            final(self).wf(),
            i == old(self).keys().len(),
    {
        let ghost old_keys = self.keys();
        let ghost key = statement.sql@;
        let i = self.statements.len();
        self.statements.push(statement);
        proof {
            assert(self.keys() =~= old_keys.push(key));
            assert forall|p: int, q: int| 0 <= p < q < self.keys().len() implies self.keys()[p]
                != self.keys()[q] by {
                if q == old_keys.len() {
                    assert(!old_keys.contains(key));
                    assert(old_keys[p] != key);
                }
            }
        }
        i
    }

    /// The SQL text in a given slot.
    pub fn statement_sql(&self, i: usize) -> (s: &String)
        requires
            i < self.keys().len(),
        ensures
            s@ == self.keys()[i as int],
    {
        &self.statements[i].sql
    }
}

/// Law: executing two queries with identical fingerprints and cacheable
/// shape leaves exactly one cache entry for that fingerprint: the first
/// lookup inserts it, the second finds it, and the cache does not grow
/// again.
pub proof fn lemma_cacheable_cached_once(keys: Seq<Seq<char>>, sql: Seq<char>)
    ensures
        cache_after(cache_after(keys, sql, true), sql, true) == cache_after(keys, sql, true),
        !keys.contains(sql) ==> cache_after(keys, sql, true).len() == keys.len() + 1,
        cache_after(keys, sql, true).contains(sql),
{
    let once = cache_after(keys, sql, true);
    if !keys.contains(sql) {
        assert(once == keys.push(sql));
        assert(once[keys.len() as int] == sql);
        assert(once.contains(sql));
    }
}

/// Law: an uncacheable query never changes the cache, however often it is
/// executed.
pub proof fn lemma_uncacheable_never_cached(keys: Seq<Seq<char>>, sql: Seq<char>)
    ensures
        cache_after(keys, sql, false) == keys,
{
}

/// Law: in a well-formed cache a fingerprint names one slot only, so every
/// execution with the same fingerprint is served by the same
/// prepared-statement resource.
pub proof fn lemma_fingerprint_slot_unique(c: StatementCache, i: int, j: int)
    requires
        c.wf(),
        0 <= i < c.keys().len(),
        0 <= j < c.keys().len(),
        c.keys()[i] == c.keys()[j],
    ensures
        i == j,
{
}

} // verus!
