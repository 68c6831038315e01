//! An in-memory store of short links and the shortener service over it.
//! The store keeps `id` as primary key and `url` unique, and refuses an
//! insert that would break either.
use crate::flow::{
    after_insert, after_lookup, after_lookup_with, after_validation, resolve_outcome, ShortenStep,
};
use crate::link::{is_short_id, ShortLink, ShortenError};
use crate::validation::{is_valid_url, url_parses};
use vstd::prelude::*;

verus! {

/// A table from id to url is valid when every id is a short id and no two
/// ids share a url.
pub open spec fn table_ok(m: Map<Seq<char>, Seq<char>>) -> bool {
    &&& forall|k: Seq<char>| #[trigger] m.contains_key(k) ==> is_short_id(k)
    &&& forall|k1: Seq<char>, k2: Seq<char>|
        #[trigger] m.contains_key(k1) && #[trigger] m.contains_key(k2) && m[k1] == m[k2] ==> k1 == k2
}

/// Some id of the table maps to `u`.
pub open spec fn has_url(m: Map<Seq<char>, Seq<char>>, u: Seq<char>) -> bool {
    exists|k: Seq<char>| #[trigger] m.contains_key(k) && m[k] == u
}

/// The url stored under `id`, if any.
pub open spec fn resolve_spec(m: Map<Seq<char>, Seq<char>>, id: Seq<char>) -> Option<Seq<char>> {
    if m.contains_key(id) {
        Some(m[id])
    } else {
        None
    }
}

/// What a shortening of `u` does to the table `old`, leaving `new` and
/// returning `r`, when `valid` tells whether `u` is a valid URL and `fresh`
/// is the id drawn for it. An invalid URL is refused and nothing changes; a
/// known URL gets its existing id back and nothing changes; an unknown one
/// gets `fresh`, inserted with it, unless `fresh` is already taken, which is
/// a store error with nothing changed.
pub open spec fn shorten_spec(
    old: Map<Seq<char>, Seq<char>>,
    u: Seq<char>,
    valid: bool,
    fresh: Seq<char>,
    r: Result<String, ShortenError>,
    new: Map<Seq<char>, Seq<char>>,
) -> bool {
    if !valid {
        r == Err::<String, ShortenError>(ShortenError::InvalidUrl) && new == old
    } else if has_url(old, u) {
        &&& r is Ok
        &&& old.contains_key(r->Ok_0@)
        &&& old[r->Ok_0@] == u
        &&& new == old
    } else if old.contains_key(fresh) {
        r is Err && r->Err_0 is StoreError && new == old
    } else {
        r is Ok && r->Ok_0@ == fresh && new == old.insert(fresh, u)
    }
}

/// A shortening with some drawn short id: the outcome for each id that the
/// generator may hand out.
pub open spec fn shorten_drawn(
    old: Map<Seq<char>, Seq<char>>,
    u: Seq<char>,
    valid: bool,
    r: Result<String, ShortenError>,
    new: Map<Seq<char>, Seq<char>>,
) -> bool {
    exists|fresh: Seq<char>| is_short_id(fresh) && #[trigger] shorten_spec(old, u, valid, fresh, r, new)
}

/// Where the drawn id plays no part (an invalid or a known URL), any short
/// id witnesses the outcome.
proof fn lemma_some_short_id_spec(
    old: Map<Seq<char>, Seq<char>>,
    u: Seq<char>,
    valid: bool,
    r: Result<String, ShortenError>,
    new: Map<Seq<char>, Seq<char>>,
)
    requires
        !valid || has_url(old, u),
        !valid ==> r == Err::<String, ShortenError>(ShortenError::InvalidUrl) && new == old,
        valid ==> r is Ok && old.contains_key(r->Ok_0@) && old[r->Ok_0@] == u && new == old,
    ensures
        shorten_drawn(old, u, valid, r, new),
{
    let w = seq!['A', 'A', 'A', 'A', 'A', 'A'];
    assert(is_short_id(w));
    assert(shorten_spec(old, u, valid, w, r, new));
}

/// The shortener service, holding its rows in memory.
pub struct ShortenerService {
    links: Vec<ShortLink>,
    table: Ghost<Map<Seq<char>, Seq<char>>>,
}

impl View for ShortenerService {
    type V = Map<Seq<char>, Seq<char>>;

    closed spec fn view(&self) -> Map<Seq<char>, Seq<char>> {
        self.table@
    }
}

impl ShortenerService {
    /// The rows agree with the table, and the table is valid.
    pub closed spec fn wf(&self) -> bool {
        &&& forall|i: int|
            0 <= i < self.links@.len() ==> #[trigger] self.table@.contains_key(self.links@[i].id@)
                && self.table@[self.links@[i].id@] == self.links@[i].url@
        &&& forall|k: Seq<char>|
            #[trigger] self.table@.contains_key(k) ==> exists|i: int|
                0 <= i < self.links@.len() && #[trigger] self.links@[i].id@ == k
        &&& table_ok(self.table@)
    }

    /// A service with no rows.
    pub fn new() -> (s: Self)
        ensures
            s.wf(),
            s@ == Map::<Seq<char>, Seq<char>>::empty(),
    {
        ShortenerService { links: Vec::new(), table: Ghost(Map::empty()) }
    }

    /// A well-formed service has a valid table.
    pub proof fn lemma_table_ok(&self)
        requires
            self.wf(),
        ensures
            table_ok(self@),
    {
    }

    /// The id whose url is exactly `url`, if there is one.
    pub fn find_by_url(&self, url: &str) -> (r: Option<String>)
        requires
            self.wf(),
        ensures
            match r {
                Some(id) => self@.contains_key(id@) && self@[id@] == url@,
                None => !has_url(self@, url@),
            },
    {
        let u = url.to_owned();
        let mut i: usize = 0;
        while i < self.links.len()
            invariant
                self.wf(),
                u@ == url@,
                i <= self.links@.len(),
                forall|j: int| 0 <= j < i ==> #[trigger] self.links@[j].url@ != url@,
            decreases self.links@.len() - i,
        {
            if self.links[i].url == u {
                let id = self.links[i].id.clone();
                assert(self.table@.contains_key(self.links@[i as int].id@));
                return Some(id);
            }
            i = i + 1;
        }
        assert forall|k: Seq<char>| #[trigger] self@.contains_key(k) implies self@[k] != url@ by {
            let j = choose|j: int| 0 <= j < self.links@.len() && #[trigger] self.links@[j].id@ == k;
            assert(self.table@.contains_key(self.links@[j].id@));
        }
        None
    }

    /// The url stored under `id`, if there is one.
    pub fn find_by_id(&self, id: &str) -> (r: Option<String>)
        requires
            self.wf(),
        ensures
            match r {
                Some(u) => self@.contains_key(id@) && self@[id@] == u@,
                None => !self@.contains_key(id@),
            },
    {
        let key = id.to_owned();
        let mut i: usize = 0;
        while i < self.links.len()
            invariant
                self.wf(),
                key@ == id@,
                i <= self.links@.len(),
                forall|j: int| 0 <= j < i ==> #[trigger] self.links@[j].id@ != id@,
            decreases self.links@.len() - i,
        {
            if self.links[i].id == key {
                let u = self.links[i].url.clone();
                assert(self.table@.contains_key(self.links@[i as int].id@));
                return Some(u);
            }
            i = i + 1;
        }
        proof {
            if self@.contains_key(id@) {
                let j = choose|j: int| 0 <= j < self.links@.len() && #[trigger] self.links@[j].id@ == id@;
                assert(self.links@[j].id@ != id@);
            }
        }
        None
    }

    /// Inserts the row (`id`, `url`). Fails, changing nothing, when `id` is
    /// already a key or `url` already has an id.
    pub fn insert(&mut self, id: String, url: &str) -> (r: Result<(), String>)
        requires
            old(self).wf(),
            is_short_id(id@),
        ensures
            final(self).wf(),
            r is Ok <==> !old(self)@.contains_key(id@) && !has_url(old(self)@, url@),
            r is Ok ==> final(self)@ == old(self)@.insert(id@, url@),
            r is Err ==> final(self)@ == old(self)@,
    {
        if self.find_by_id(id.as_str()).is_some() {
            return Err("duplicate key value violates unique constraint on id".to_owned());
        }
        if self.find_by_url(url).is_some() {
            return Err("duplicate key value violates unique constraint on url".to_owned());
        }
        let ghost t0 = self.table@;
        let ghost l0 = self.links@;
        let u = url.to_owned();
        self.links.push(ShortLink { id, url: u });
        self.table = Ghost(t0.insert(self.links@.last().id@, url@));
        assert forall|k: Seq<char>| #[trigger] self.table@.contains_key(k) implies exists|i: int|
            0 <= i < self.links@.len() && #[trigger] self.links@[i].id@ == k by {
            if k != self.links@.last().id@ {
                let j = choose|j: int| 0 <= j < l0.len() && #[trigger] l0[j].id@ == k;
                assert(self.links@[j] == l0[j]);
            } else {
                assert(self.links@[self.links@.len() - 1].id@ == k);
            }
        }
        assert forall|i: int| 0 <= i < self.links@.len() implies #[trigger] self.table@.contains_key(
            self.links@[i].id@) && self.table@[self.links@[i].id@] == self.links@[i].url@ by {
            if i < l0.len() {
                assert(self.links@[i] == l0[i]);
                assert(t0.contains_key(l0[i].id@));
            }
        }
        Ok(())
    }

    /// Shortens `url`, with `valid` telling whether it is a valid URL and
    /// `fresh` the id to give it if it is not known yet.
    pub fn shorten_with_id(&mut self, url: &str, valid: bool, fresh: String) -> (r: Result<
        String,
        ShortenError,
    >)
        requires
            old(self).wf(),
            is_short_id(fresh@),
        ensures
            final(self).wf(),
            shorten_spec(old(self)@, url@, valid, fresh@, r, final(self)@),
    {
        match after_validation(valid) {
            ShortenStep::FindByUrl => {
                let found = self.find_by_url(url);
                match after_lookup_with(Ok(found), fresh) {
                    ShortenStep::Insert(id) => {
                        let inserted = self.insert(id.clone(), url);
                        after_insert(id, inserted)
                    },
                    ShortenStep::Finish(r) => r,
                    ShortenStep::FindByUrl => Err(ShortenError::InvalidUrl),
                }
            },
            ShortenStep::Finish(r) => r,
            ShortenStep::Insert(_) => Err(ShortenError::InvalidUrl),
        }
    }

    /// Shortens `url`, with `valid` telling whether it is a valid URL: an
    /// invalid one is refused without touching the store; a known one gets
    /// its id back; for an unknown one a fresh id is drawn and inserted.
    pub fn shorten_checked(&mut self, url: &str, valid: bool) -> (r: Result<String, ShortenError>)
        requires
            old(self).wf(),
        ensures
            final(self).wf(),
            shorten_drawn(old(self)@, url@, valid, r, final(self)@),
    {
        let ghost t0 = self@;
        match after_validation(valid) {
            ShortenStep::FindByUrl => {
                let found = self.find_by_url(url);
                match after_lookup(Ok(found)) {
                    ShortenStep::Insert(id) => {
                        let inserted = self.insert(id.clone(), url);
                        let r = after_insert(id, inserted);
                        assert(shorten_spec(t0, url@, valid, id@, r, self@));
                        r
                    },
                    ShortenStep::Finish(r) => {
                        proof {
                            lemma_some_short_id_spec(t0, url@, valid, r, self@);
                        }
                        r
                    },
                    ShortenStep::FindByUrl => Err(ShortenError::InvalidUrl),
                }
            },
            ShortenStep::Finish(r) => {
                proof {
                    lemma_some_short_id_spec(t0, url@, valid, r, self@);
                }
                r
            },
            ShortenStep::Insert(_) => Err(ShortenError::InvalidUrl),
        }
    }

    /// Shortens `url`: validates it, then returns its existing id or a new one.
    pub fn shorten(&mut self, url: &str) -> (r: Result<String, ShortenError>)
        requires
            old(self).wf(),
        ensures
            final(self).wf(),
            shorten_drawn(old(self)@, url@, url_parses(url@), r, final(self)@),
    {
        let valid = is_valid_url(url);
        self.shorten_checked(url, valid)
    }

    /// Resolves `id` to its url; an id that was never issued gives `None`.
    pub fn redirect(&self, id: &str) -> (r: Result<Option<String>, ShortenError>)
        requires
            self.wf(),
        ensures
            r is Ok,
            match r {
                Ok(Some(u)) => resolve_spec(self@, id@) == Some(u@),
                Ok(None) => resolve_spec(self@, id@) == None::<Seq<char>>,
                Err(_) => false,
            },
    {
        resolve_outcome(Ok(self.find_by_id(id)))
    }
}

} // verus!
