//! The `status.get` reply: the daemon's version and the health of each
//! provider adapter, listed in the order of their ids.

use vstd::prelude::*;

use crate::protocol::response::{
    AdapterHealth, AdapterStatus, KeyStoreStatus, MigrationStatus, ProtocolVersion, StatusResult,
};
use crate::text::{
    lemma_text_lt_asymmetric, lemma_text_lt_total, lemma_text_lt_transitive, str_eq, text_less,
    text_lt,
};

verus! {

/// An adapter's id and status, as plain values.
pub type HealthView = (Seq<char>, AdapterStatus);

/// The plain values of a health entry.
pub open spec fn health_view(h: AdapterHealth) -> HealthView {
    (h.id@, h.status)
}

/// The status a live check gives.
pub open spec fn status_of(live_available: bool) -> AdapterStatus {
    if live_available {
        AdapterStatus::Available
    } else {
        AdapterStatus::Unavailable
    }
}

/// Whether the catalog lists the offline fake provider.
pub open spec fn lists_fake(catalog: Seq<(String, bool)>) -> bool {
    exists|i: int| 0 <= i < catalog.len() && #[trigger] catalog[i].0@ == "fake"@
}

/// The entries a status reply lists, before ordering: one per catalog
/// provider, available when its live check passed, then the offline fake
/// when it is configured and the catalog does not list it.
pub open spec fn health_entries(catalog: Seq<(String, bool)>, fake_configured: bool) -> Seq<
    HealthView,
> {
    let listed = catalog.map_values(|e: (String, bool)| (e.0@, status_of(e.1)));
    if fake_configured && !lists_fake(catalog) {
        listed.push(("fake"@, AdapterStatus::Available))
    } else {
        listed
    }
}

/// Inserts an entry before the first entry whose id comes after its own.
pub open spec fn insert_by_id(s: Seq<HealthView>, x: HealthView) -> Seq<HealthView>
    decreases s.len(),
{
    if s.len() == 0 {
        seq![x]
    } else if text_lt(x.0, s[0].0) {
        seq![x] + s
    } else {
        seq![s[0]] + insert_by_id(s.drop_first(), x)
    }
}

/// The entries ordered by id; entries with the same id keep their order.
pub open spec fn sort_by_id(s: Seq<HealthView>) -> Seq<HealthView>
    decreases s.len(),
{
    if s.len() == 0 {
        Seq::empty()
    } else {
        insert_by_id(sort_by_id(s.drop_last()), s.last())
    }
}

/// No entry's id comes before the id of an entry listed earlier.
pub open spec fn sorted_by_id(s: Seq<HealthView>) -> bool {
    forall|i: int, j: int| 0 <= i < j < s.len() ==> !text_lt(#[trigger] s[j].0, #[trigger] s[i].0)
}

/// Where `insert_by_id` puts an entry: before the first entry whose id
/// comes after its own.
proof fn lemma_insert_at(s: Seq<HealthView>, x: HealthView, pos: int)
    requires
        0 <= pos <= s.len(),
        forall|j: int| 0 <= j < pos ==> !text_lt(x.0, #[trigger] s[j].0),
        pos < s.len() ==> text_lt(x.0, s[pos].0),
    ensures
        insert_by_id(s, x) == s.take(pos) + seq![x] + s.skip(pos),
    decreases s.len(),
{
    if s.len() == 0 {
        assert(s.take(pos) + seq![x] + s.skip(pos) =~= seq![x]);
    } else if pos == 0 {
        assert(s.take(0) + seq![x] + s.skip(0) =~= seq![x] + s);
    } else {
        let rest = s.drop_first();
        assert forall|j: int| 0 <= j < pos - 1 implies !text_lt(x.0, #[trigger] rest[j].0) by {
            assert(rest[j] == s[j + 1]);
        }
        if pos < s.len() {
            assert(rest[pos - 1] == s[pos]);
        }
        assert(!text_lt(x.0, s[0].0));
        lemma_insert_at(rest, x, pos - 1);
        assert(seq![s[0]] + (rest.take(pos - 1) + seq![x] + rest.skip(pos - 1)) =~= s.take(pos)
            + seq![x] + s.skip(pos));
    }
}

/// Inserting into an ordered list keeps it ordered and adds exactly the
/// entry.
pub proof fn insert_keeps_order(s: Seq<HealthView>, x: HealthView)
    requires
        sorted_by_id(s),
    ensures
        sorted_by_id(insert_by_id(s, x)),
        insert_by_id(s, x).to_multiset() == s.to_multiset().insert(x),
    decreases s.len(),
{
    if s.len() == 0 {
        assert(seq![x].to_multiset() =~= vstd::multiset::Multiset::empty().insert(x)) by {
            broadcast use vstd::seq_lib::group_seq_properties;
        }
        assert(s.to_multiset() =~= vstd::multiset::Multiset::empty()) by {
            broadcast use vstd::seq_lib::group_seq_properties;
        }
    } else {
        let rest = s.drop_first();
        assert(s =~= seq![s[0]] + rest);
        vstd::seq_lib::lemma_multiset_commutative(seq![s[0]], rest);
        if text_lt(x.0, s[0].0) {
            let r = seq![x] + s;
            assert forall|i: int, j: int| 0 <= i < j < r.len() implies !text_lt(
                #[trigger] r[j].0,
                #[trigger] r[i].0,
            ) by {
                if i == 0 {
                    assert(r[j] == s[j - 1]);
                    if j - 1 > 0 {
                        assert(!text_lt(s[j - 1].0, s[0].0));
                        if text_lt(s[j - 1].0, x.0) {
                            lemma_text_lt_transitive(s[j - 1].0, x.0, s[0].0);
                        }
                    } else {
                        lemma_text_lt_asymmetric(x.0, s[0].0);
                    }
                } else {
                    assert(r[i] == s[i - 1] && r[j] == s[j - 1]);
                }
            }
            vstd::seq_lib::lemma_multiset_commutative(seq![x], s);
            assert(seq![x].to_multiset() =~= vstd::multiset::Multiset::empty().insert(x)) by {
                broadcast use vstd::seq_lib::group_seq_properties;
            }
            assert(r.to_multiset() =~= s.to_multiset().insert(x)) by {
                broadcast use vstd::seq_lib::group_seq_properties;
            }
        } else {
            assert forall|i: int, j: int| 0 <= i < j < rest.len() implies !text_lt(
                #[trigger] rest[j].0,
                #[trigger] rest[i].0,
            ) by {
                assert(rest[i] == s[i + 1] && rest[j] == s[j + 1]);
            }
            insert_keeps_order(rest, x);
            let tail = insert_by_id(rest, x);
            let r = seq![s[0]] + tail;
            vstd::seq_lib::lemma_multiset_commutative(seq![s[0]], tail);
            assert forall|k: int| 0 <= k < tail.len() implies !text_lt(
                #[trigger] tail[k].0,
                s[0].0,
            ) by {
                let m = tail.to_multiset();
                assert(m.count(tail[k]) > 0) by {
                    broadcast use vstd::seq_lib::group_seq_properties;
                    assert(tail.contains(tail[k]));
                }
                assert(rest.to_multiset().insert(x).count(tail[k]) > 0);
                if tail[k] != x {
                    assert(rest.to_multiset().count(tail[k]) > 0);
                    assert(rest.contains(tail[k])) by {
                        broadcast use vstd::seq_lib::group_seq_properties;
                    }
                    let w = choose|w: int| 0 <= w < rest.len() && rest[w] == tail[k];
                    assert(rest[w] == s[w + 1]);
                }
            }
            assert forall|i: int, j: int| 0 <= i < j < r.len() implies !text_lt(
                #[trigger] r[j].0,
                #[trigger] r[i].0,
            ) by {
                if i == 0 {
                    assert(r[j] == tail[j - 1]);
                } else {
                    assert(r[i] == tail[i - 1] && r[j] == tail[j - 1]);
                }
            }
            assert(r.to_multiset() =~= s.to_multiset().insert(x)) by {
                broadcast use vstd::seq_lib::group_seq_properties;
            }
        }
    }
}

/// Ordering by id yields an ordered list of exactly the same entries.
pub proof fn sorting_keeps_every_entry(s: Seq<HealthView>)
    ensures
        sorted_by_id(sort_by_id(s)),
        sort_by_id(s).to_multiset() == s.to_multiset(),
    decreases s.len(),
{
    if s.len() == 0 {
        assert(sort_by_id(s) =~= s);
    } else {
        let init = s.drop_last();
        sorting_keeps_every_entry(init);
        insert_keeps_order(sort_by_id(init), s.last());
        assert(s =~= init.push(s.last()));
        assert(s.to_multiset() =~= init.to_multiset().insert(s.last())) by {
            broadcast use vstd::seq_lib::group_seq_properties;
        }
    }
}

/// Lists the adapters of a status reply: each catalog provider with the
/// result of its live check (made only for providers whose authentication
/// is available), then the offline fake when configured and not listed,
/// ordered by id.
pub fn adapter_health(catalog: &[(String, bool)], fake_configured: bool) -> (r: Vec<AdapterHealth>)
    ensures
        r@.map_values(|h: AdapterHealth| health_view(h)) == sort_by_id(
            health_entries(catalog@, fake_configured),
        ),
{
    let mut entries: Vec<AdapterHealth> = Vec::new();
    let n = catalog.len();
    let mut listed_fake = false;
    let mut i: usize = 0;
    while i < n
        invariant
            n == catalog@.len(),
            i <= n,
            entries@.map_values(|h: AdapterHealth| health_view(h)) == catalog@.take(
                i as int,
            ).map_values(|e: (String, bool)| (e.0@, status_of(e.1))),
            listed_fake == lists_fake(catalog@.take(i as int)),
        decreases n - i,
    {
        let status = if catalog[i].1 {
            AdapterStatus::Available
        } else {
            AdapterStatus::Unavailable
        };
        if str_eq(catalog[i].0.as_str(), "fake") {
            listed_fake = true;
        }
        let ghost before = entries@;
        let item = AdapterHealth { id: catalog[i].0.clone(), status };
        assert(health_view(item) == (catalog@[i as int].0@, status_of(catalog@[i as int].1)));
        entries.push(item);
        proof {
            assert(entries@ == before.push(item));
            assert(entries@.map_values(|h: AdapterHealth| health_view(h)) =~= before.map_values(
                |h: AdapterHealth| health_view(h),
            ).push(health_view(item)));
            let t = catalog@.take(i + 1);
            assert(t.drop_last() =~= catalog@.take(i as int));
            assert(t.last() == catalog@[i as int]);
            assert(entries@.map_values(|h: AdapterHealth| health_view(h)) =~= t.map_values(
                |e: (String, bool)| (e.0@, status_of(e.1)),
            ));
            if lists_fake(t) && !lists_fake(catalog@.take(i as int)) {
                let w = choose|w: int| 0 <= w < t.len() && #[trigger] t[w].0@ == "fake"@;
                if w < i {
                    assert(catalog@.take(i as int)[w] == t[w]);
                }
            }
            if lists_fake(catalog@.take(i as int)) {
                let w = choose|w: int|
                    0 <= w < i && #[trigger] catalog@.take(i as int)[w].0@ == "fake"@;
                assert(t[w] == catalog@.take(i as int)[w]);
            }
            if catalog@[i as int].0@ == "fake"@ {
                assert(t[i as int].0@ == "fake"@);
            }
        }
        i += 1;
    }
    assert(catalog@.take(n as int) =~= catalog@);
    if fake_configured && !listed_fake {
        entries.push(AdapterHealth { id: "fake".to_owned(), status: AdapterStatus::Available });
        proof {
            reveal_strlit("fake");
        }
    }
    let ghost expected = health_entries(catalog@, fake_configured);
    assert(entries@.map_values(|h: AdapterHealth| health_view(h)) =~= expected);
    let mut sorted: Vec<AdapterHealth> = Vec::new();
    let m = entries.len();
    let mut k: usize = 0;
    while k < m
        invariant
            m == entries@.len(),
            k <= m,
            expected == entries@.map_values(|h: AdapterHealth| health_view(h)),
            sorted@.map_values(|h: AdapterHealth| health_view(h)) == sort_by_id(
                expected.take(k as int),
            ),
        decreases m - k,
    {
        let ghost before = sorted@.map_values(|h: AdapterHealth| health_view(h));
        let ghost x = health_view(entries@[k as int]);
        let mut pos: usize = 0;
        while pos < sorted.len() && !text_less(entries[k].id.as_str(), sorted[pos].id.as_str())
            invariant
                before == sorted@.map_values(|h: AdapterHealth| health_view(h)),
                x == health_view(entries@[k as int]),
                k < m,
                m == entries@.len(),
                pos <= sorted@.len(),
                forall|j: int| 0 <= j < pos ==> !text_lt(x.0, #[trigger] before[j].0),
            decreases sorted@.len() - pos,
        {
            pos += 1;
        }
        let item = AdapterHealth { id: entries[k].id.clone(), status: entries[k].status };
        sorted.insert(pos, item);
        proof {
            lemma_insert_at(before, x, pos as int);
            let t = expected.take(k + 1);
            assert(t.drop_last() =~= expected.take(k as int));
            assert(t.last() == x);
            assert(sorted@.map_values(|h: AdapterHealth| health_view(h)) =~= before.take(pos as int)
                + seq![x] + before.skip(pos as int));
        }
        k += 1;
    }
    assert(expected.take(m as int) =~= expected);
    sorted
}

/// Builds the `status.get` reply.
pub fn status_result(
    daemon_version: String,
    active_sessions: usize,
    catalog: &[(String, bool)],
    fake_configured: bool,
) -> (r: StatusResult)
    ensures
        r.daemon_version == daemon_version,
        r.protocol == ProtocolVersion::V1,
        r.storage_schema_version == 1,
        r.key_store == KeyStoreStatus::Available,
        r.migration == MigrationStatus::Ready,
        r.active_sessions == active_sessions,
        r.adapters@.map_values(|h: AdapterHealth| health_view(h)) == sort_by_id(
            health_entries(catalog@, fake_configured),
        ),
{
    StatusResult {
        daemon_version,
        protocol: ProtocolVersion::V1,
        storage_schema_version: 1,
        key_store: KeyStoreStatus::Available,
        migration: MigrationStatus::Ready,
        active_sessions: active_sessions as u64,
        adapters: adapter_health(catalog, fake_configured),
    }
}

} // verus!
