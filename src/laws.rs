//! Properties of shortening and resolving, stated over the table that a
//! service holds and proved from the contract of a shortening.
use crate::link::{is_short_id, ShortenError};
use crate::store::{has_url, resolve_spec, shorten_drawn, shorten_spec, table_ok};
use vstd::prelude::*;

verus! {

/// Shortening keeps the table valid: ids stay short and no two ids share a
/// url.
pub proof fn shorten_keeps_table_ok(
    old: Map<Seq<char>, Seq<char>>,
    u: Seq<char>,
    valid: bool,
    r: Result<String, ShortenError>,
    new: Map<Seq<char>, Seq<char>>,
)
    requires
        table_ok(old),
        shorten_drawn(old, u, valid, r, new),
    ensures
        table_ok(new),
{
    let fresh = choose|f: Seq<char>| is_short_id(f) && #[trigger] shorten_spec(old, u, valid, f, r, new);
    if valid && !has_url(old, u) && r is Ok {
        let id = r->Ok_0@;
        assert(id == fresh);
        assert forall|k1: Seq<char>, k2: Seq<char>|
            #[trigger] new.contains_key(k1) && #[trigger] new.contains_key(k2) && new[k1] == new[k2]
            implies k1 == k2 by {
            if k1 != id && k2 == id {
                assert(old.contains_key(k1) && old[k1] == u);
            } else if k1 == id && k2 != id {
                assert(old.contains_key(k2) && old[k2] == u);
            } else if k1 != id && k2 != id {
                assert(old.contains_key(k1) && old.contains_key(k2));
            }
        }
    }
}

/// Every id that a shortening returns is six alphanumeric characters.
pub proof fn shorten_id_shape(
    old: Map<Seq<char>, Seq<char>>,
    u: Seq<char>,
    valid: bool,
    r: Result<String, ShortenError>,
    new: Map<Seq<char>, Seq<char>>,
)
    requires
        table_ok(old),
        shorten_drawn(old, u, valid, r, new),
        r is Ok,
    ensures
        is_short_id(r->Ok_0@),
{
    let fresh = choose|f: Seq<char>| is_short_id(f) && #[trigger] shorten_spec(old, u, valid, f, r, new);
}

/// Resolving the id that a shortening of `u` returned gives `u` back.
pub proof fn shorten_then_resolve(
    old: Map<Seq<char>, Seq<char>>,
    u: Seq<char>,
    valid: bool,
    r: Result<String, ShortenError>,
    new: Map<Seq<char>, Seq<char>>,
)
    requires
        shorten_drawn(old, u, valid, r, new),
        r is Ok,
    ensures
        resolve_spec(new, r->Ok_0@) == Some(u),
{
    let fresh = choose|f: Seq<char>| is_short_id(f) && #[trigger] shorten_spec(old, u, valid, f, r, new);
}

/// Shortening the same URL a second time returns the same id and adds no
/// row.
pub proof fn shorten_twice_same_id(
    s0: Map<Seq<char>, Seq<char>>,
    u: Seq<char>,
    valid: bool,
    r1: Result<String, ShortenError>,
    s1: Map<Seq<char>, Seq<char>>,
    r2: Result<String, ShortenError>,
    s2: Map<Seq<char>, Seq<char>>,
)
    requires
        table_ok(s0),
        shorten_drawn(s0, u, valid, r1, s1),
        shorten_drawn(s1, u, valid, r2, s2),
        r1 is Ok,
    ensures
        r2 is Ok,
        r2->Ok_0@ == r1->Ok_0@,
        s2 == s1,
{
    shorten_keeps_table_ok(s0, u, valid, r1, s1);
    shorten_then_resolve(s0, u, valid, r1, s1);
    let id1 = r1->Ok_0@;
    assert(s1.contains_key(id1) && s1[id1] == u);
    assert(has_url(s1, u));
    let f2 = choose|f: Seq<char>| is_short_id(f) && #[trigger] shorten_spec(s1, u, valid, f, r2, s2);
}

/// Two distinct URLs that both get an id, one after the other, get
/// distinct ids.
pub proof fn distinct_urls_distinct_ids(
    s0: Map<Seq<char>, Seq<char>>,
    u1: Seq<char>,
    valid1: bool,
    r1: Result<String, ShortenError>,
    s1: Map<Seq<char>, Seq<char>>,
    u2: Seq<char>,
    valid2: bool,
    r2: Result<String, ShortenError>,
    s2: Map<Seq<char>, Seq<char>>,
)
    requires
        table_ok(s0),
        shorten_drawn(s0, u1, valid1, r1, s1),
        shorten_drawn(s1, u2, valid2, r2, s2),
        u1 != u2,
        r1 is Ok,
        r2 is Ok,
    ensures
        r1->Ok_0@ != r2->Ok_0@,
{
    shorten_then_resolve(s0, u1, valid1, r1, s1);
    shorten_then_resolve(s1, u2, valid2, r2, s2);
    let id1 = r1->Ok_0@;
    assert(s1.contains_key(id1) && s1[id1] == u1);
    let f2 = choose|f: Seq<char>| is_short_id(f) && #[trigger] shorten_spec(s1, u2, valid2, f, r2, s2);
    assert(s2.contains_key(id1) && s2[id1] == u1);
}

} // verus!
