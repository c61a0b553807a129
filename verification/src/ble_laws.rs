use vstd::prelude::*;
use vstd::assert_sets_equal;
use crate::ble::{
    SeenDevice, known, unique_ids, ids_match, fresh_pred, expired_pred, is_expired, data_for, elapsed_nanos,
    SERVICE_UUID_SHARING, BLE_TIMEOUT_SECS, NANOS_PER_SEC,
};
use crate::endpoint::EndpointInfo;

verus! {

broadcast use vstd::seq_lib::group_filter_ensures, vstd::seq_lib::group_seq_properties;

/// What discovery sends about a device: its id, and whether the device is
/// announced (`true`, present) or withdrawn (`false`).
pub open spec fn emission(e: EndpointInfo) -> (Seq<char>, bool) {
    (e.id@, e.present == Some(true))
}

pub open spec fn emissions(v: Seq<EndpointInfo>) -> Seq<(Seq<char>, bool)> {
    v.map_values(|e: EndpointInfo| emission(e))
}

pub open spec fn opt_emissions(r: Option<EndpointInfo>) -> Seq<(Seq<char>, bool)> {
    match r {
        Some(e) => seq![emission(e)],
        None => Seq::empty(),
    }
}

/// A withdrawal of each device, in order.
pub open spec fn withdrawals(s: Seq<SeenDevice>) -> Seq<(Seq<char>, bool)> {
    s.map_values(|d: SeenDevice| (d.id@, false))
}

/// The ids of the stored devices: those announced and not withdrawn.
pub open spec fn ids_of(s: Seq<SeenDevice>) -> Set<Seq<char>> {
    Set::new(|id: Seq<char>| known(s, id))
}

/// The announced ids after one more emission.
pub open spec fn apply_emission(out: Set<Seq<char>>, m: (Seq<char>, bool)) -> Set<Seq<char>> {
    if m.1 {
        out.insert(m.0)
    } else {
        out.remove(m.0)
    }
}

/// An announcement of an id that is not announced, or a withdrawal of one
/// that is.
pub open spec fn emission_ok(out: Set<Seq<char>>, m: (Seq<char>, bool)) -> bool {
    if m.1 {
        !out.contains(m.0)
    } else {
        out.contains(m.0)
    }
}

/// The announced ids after the emissions `em`, starting from `out`.
pub open spec fn outstanding_after(out: Set<Seq<char>>, em: Seq<(Seq<char>, bool)>) -> Set<Seq<char>>
    decreases em.len(),
{
    if em.len() == 0 {
        out
    } else {
        apply_emission(outstanding_after(out, em.drop_last()), em.last())
    }
}

/// Starting from the announced ids `out`, every emission announces an id
/// that is not announced or withdraws one that is: for each id, its
/// emissions alternate between announcement and withdrawal.
pub open spec fn alternates(out: Set<Seq<char>>, em: Seq<(Seq<char>, bool)>) -> bool
    decreases em.len(),
{
    if em.len() == 0 {
        true
    } else {
        alternates(out, em.drop_last()) && emission_ok(outstanding_after(out, em.drop_last()), em.last())
    }
}

/// One step of discovery: from the stored devices `old` to `new`, sending
/// `em`, which alternates per id and leaves announced exactly the ids of
/// `new`.
pub open spec fn tracker_step(old: Seq<SeenDevice>, new: Seq<SeenDevice>, em: Seq<(Seq<char>, bool)>) -> bool {
    &&& alternates(ids_of(old), em)
    &&& outstanding_after(ids_of(old), em) == ids_of(new)
}

pub proof fn lemma_emissions_concat(out: Set<Seq<char>>, a: Seq<(Seq<char>, bool)>, b: Seq<(Seq<char>, bool)>)
    ensures
        outstanding_after(out, a + b) == outstanding_after(outstanding_after(out, a), b),
        alternates(out, a + b) == (alternates(out, a) && alternates(outstanding_after(out, a), b)),
    decreases b.len(),
{
    if b.len() == 0 {
        assert(a + b =~= a);
    } else {
        assert((a + b).drop_last() =~= a + b.drop_last());
        assert((a + b).last() == b.last());
        lemma_emissions_concat(out, a, b.drop_last());
    }
}

/// Replacing a device by one with the same id keeps the ids.
pub proof fn lemma_ids_update(s: Seq<SeenDevice>, k: int, d: SeenDevice)
    requires
        0 <= k < s.len(),
        d.id@ == s[k].id@,
    ensures
        ids_of(s.update(k, d)) == ids_of(s),
{
    let t = s.update(k, d);
    assert_sets_equal!(ids_of(t), ids_of(s), id => {
        if known(t, id) {
            let j = choose|j: int| 0 <= j < t.len() && #[trigger] t[j].id@ == id;
            assert(s[j].id@ == id);
        }
        if known(s, id) {
            let j = choose|j: int| 0 <= j < s.len() && #[trigger] s[j].id@ == id;
            assert(t[j].id@ == id);
        }
    });
}

/// Announcing a device that is not stored, and storing it.
pub proof fn lemma_step_announce(s: Seq<SeenDevice>, d: SeenDevice, e: EndpointInfo)
    requires
        !known(s, d.id@),
        e.id@ == d.id@,
        e.present == Some(true),
    ensures
        tracker_step(s, s.push(d), opt_emissions(Some(e))),
{
    let t = s.push(d);
    assert_sets_equal!(ids_of(t), ids_of(s).insert(d.id@), id => {
        if known(t, id) {
            let j = choose|j: int| 0 <= j < t.len() && #[trigger] t[j].id@ == id;
            if j < s.len() {
                assert(s[j].id@ == id);
            }
        }
        if known(s, id) {
            let j = choose|j: int| 0 <= j < s.len() && #[trigger] s[j].id@ == id;
            assert(t[j].id@ == id);
        }
        if id == d.id@ {
            assert(t[s.len() as int].id@ == id);
        }
    });
    let em = opt_emissions(Some(e));
    let none = Seq::<(Seq<char>, bool)>::empty();
    assert(em.drop_last() =~= none);
    assert(em.last() == (d.id@, true));
    assert(outstanding_after(ids_of(s), none) == ids_of(s));
    assert(alternates(ids_of(s), none));
    assert(outstanding_after(ids_of(s), em) == ids_of(s).insert(d.id@));
}

/// Withdrawing devices with distinct announced ids, one by one, takes
/// exactly their ids out.
pub proof fn lemma_withdraw_all(out: Set<Seq<char>>, s: Seq<SeenDevice>)
    requires
        unique_ids(s),
        forall|k: int| 0 <= k < s.len() ==> out.contains(#[trigger] s[k].id@),
    ensures
        alternates(out, withdrawals(s)),
        outstanding_after(out, withdrawals(s)) == out.difference(ids_of(s)),
    decreases s.len(),
{
    let w = withdrawals(s);
    if s.len() == 0 {
        assert_sets_equal!(out, out.difference(ids_of(s)));
    } else {
        let r = s.drop_last();
        assert(unique_ids(r)) by {
            assert forall|i: int, j: int| 0 <= i < j < r.len() implies #[trigger] r[i].id@
                != #[trigger] r[j].id@ by {
                assert(r[i] == s[i] && r[j] == s[j]);
            }
        }
        assert forall|k: int| 0 <= k < r.len() implies out.contains(#[trigger] r[k].id@) by {
            assert(r[k] == s[k]);
        }
        lemma_withdraw_all(out, r);
        assert(w.drop_last() =~= withdrawals(r));
        let last = s.last();
        assert(w.last() == (last.id@, false));
        assert(!known(r, last.id@)) by {
            if known(r, last.id@) {
                let j = choose|j: int| 0 <= j < r.len() && #[trigger] r[j].id@ == last.id@;
                assert(s[j].id@ != s[s.len() - 1].id@);
            }
        }
        assert(out.contains(s[s.len() - 1].id@));
        assert_sets_equal!(out.difference(ids_of(r)).remove(last.id@), out.difference(ids_of(s)), id => {
            if known(s, id) {
                let j = choose|j: int| 0 <= j < s.len() && #[trigger] s[j].id@ == id;
                if j < r.len() {
                    assert(r[j].id@ == id);
                }
            }
            if known(r, id) {
                let j = choose|j: int| 0 <= j < r.len() && #[trigger] r[j].id@ == id;
                assert(s[j].id@ == id);
            }
            if id == last.id@ {
                assert(s[s.len() - 1].id@ == id);
            }
        });
    }
}

/// Expiry: of the stored ids, those of the expired devices leave and those
/// of the fresh ones stay.
pub proof fn lemma_expire_ids(s: Seq<SeenDevice>, now: u64)
    requires
        unique_ids(s),
    ensures
        ids_of(s).difference(ids_of(s.filter(expired_pred(now)))) == ids_of(s.filter(fresh_pred(now))),
{
    let f = s.filter(fresh_pred(now));
    let x = s.filter(expired_pred(now));
    assert_sets_equal!(ids_of(s).difference(ids_of(x)), ids_of(f), id => {
        if known(f, id) {
            let i = choose|i: int| 0 <= i < f.len() && #[trigger] f[i].id@ == id;
            assert(fresh_pred(now)(f[i]));
            s.lemma_filter_contains_rev(fresh_pred(now), f[i]);
            let a = choose|a: int| 0 <= a < s.len() && s[a] == f[i];
            assert(s[a].id@ == id);
            if known(x, id) {
                let j = choose|j: int| 0 <= j < x.len() && #[trigger] x[j].id@ == id;
                assert(expired_pred(now)(x[j]));
                s.lemma_filter_contains_rev(expired_pred(now), x[j]);
                let b = choose|b: int| 0 <= b < s.len() && s[b] == x[j];
                assert(s[b].id@ == id);
                if a < b {
                    assert(s[a].id@ != s[b].id@);
                } else if b < a {
                    assert(s[b].id@ != s[a].id@);
                }
            }
        }
        if known(s, id) && !known(x, id) {
            let a = choose|a: int| 0 <= a < s.len() && #[trigger] s[a].id@ == id;
            if is_expired(s[a], now) {
                assert(expired_pred(now)(s[a]));
                s.lemma_filter_contains(expired_pred(now), a);
                let j = choose|j: int| 0 <= j < x.len() && x[j] == s[a];
                assert(x[j].id@ == id);
            } else {
                assert(fresh_pred(now)(s[a]));
                s.lemma_filter_contains(fresh_pred(now), a);
                let j = choose|j: int| 0 <= j < f.len() && f[j] == s[a];
                assert(f[j].id@ == id);
            }
        }
    });
}

/// Filtering keeps every device's endpoint under its own id.
pub proof fn lemma_filter_ids_match(s: Seq<SeenDevice>, p: spec_fn(SeenDevice) -> bool)
    requires
        ids_match(s),
    ensures
        ids_match(s.filter(p)),
{
    let f = s.filter(p);
    assert forall|k: int| 0 <= k < f.len() implies (#[trigger] f[k]).endpoint.id@ == f[k].id@ by {
        assert(p(f[k]));
        s.lemma_filter_contains_rev(p, f[k]);
    }
}

pub proof fn lemma_chain(states: Seq<Seq<SeenDevice>>, ems: Seq<Seq<(Seq<char>, bool)>>)
    requires
        states.len() == ems.len() + 1,
        forall|i: int| 0 <= i < ems.len() ==> tracker_step(#[trigger] states[i], states[i + 1], ems[i]),
    ensures
        alternates(ids_of(states[0]), ems.flatten()),
        outstanding_after(ids_of(states[0]), ems.flatten()) == ids_of(states.last()),
    decreases ems.len(),
{
    if ems.len() > 0 {
        let sd = states.drop_last();
        let ed = ems.drop_last();
        assert forall|i: int| 0 <= i < ed.len() implies tracker_step(#[trigger] sd[i], sd[i + 1], ed[i]) by {
            assert(sd[i] == states[i] && sd[i + 1] == states[i + 1] && ed[i] == ems[i]);
            assert(tracker_step(states[i], states[i + 1], ems[i]));
        }
        lemma_chain(sd, ed);
        assert(ems =~= ed.push(ems.last()));
        ed.lemma_flatten_push(ems.last());
        lemma_emissions_concat(ids_of(states[0]), ed.flatten(), ems.last());
        let n = ems.len() - 1;
        assert(tracker_step(states[n], states[n + 1], ems[n]));
    }
}

/// Discovery announces and withdraws each device in strict alternation:
/// over any run of tracker steps from an empty tracker, every announcement
/// is of an id that is not announced and every withdrawal is of one that
/// is, and what is left announced is exactly what the tracker stores.
pub proof fn law_announcements_alternate(states: Seq<Seq<SeenDevice>>, ems: Seq<Seq<(Seq<char>, bool)>>)
    requires
        states.len() == ems.len() + 1,
        states[0].len() == 0,
        forall|i: int| 0 <= i < ems.len() ==> tracker_step(#[trigger] states[i], states[i + 1], ems[i]),
    ensures
        alternates(Set::empty(), ems.flatten()),
        outstanding_after(Set::empty(), ems.flatten()) == ids_of(states.last()),
{
    lemma_chain(states, ems);
    assert_sets_equal!(ids_of(states[0]), Set::<Seq<char>>::empty());
}

/// Whether a service-data advertisement `sd` heard at `now` alerts, the
/// last alert having been at `last`: it must carry sharing data and come
/// more than the timeout after the last alert.
pub open spec fn alert_step(last: u64, sd: Seq<(u128, Vec<u8>)>, now: u64) -> bool {
    data_for(sd, SERVICE_UUID_SHARING) is Some && elapsed_nanos(now, last) > BLE_TIMEOUT_SECS * NANOS_PER_SEC
}

/// The time of the last alert after the advertisements `ads` (each its
/// service data and arrival time), starting from `last0`.
pub open spec fn last_alert_after(last0: u64, ads: Seq<(Seq<(u128, Vec<u8>)>, u64)>) -> u64
    decreases ads.len(),
{
    if ads.len() == 0 {
        last0
    } else {
        let last = last_alert_after(last0, ads.drop_last());
        if alert_step(last, ads.last().0, ads.last().1) {
            ads.last().1
        } else {
            last
        }
    }
}

/// Whether the advertisement at index `i` alerts.
pub open spec fn alerted(last0: u64, ads: Seq<(Seq<(u128, Vec<u8>)>, u64)>, i: int) -> bool {
    alert_step(last_alert_after(last0, ads.take(i)), ads[i].0, ads[i].1)
}

pub proof fn lemma_last_alert_step(last0: u64, ads: Seq<(Seq<(u128, Vec<u8>)>, u64)>, m: int)
    requires
        0 <= m < ads.len(),
    ensures
        last_alert_after(last0, ads.take(m + 1)) == (if alerted(last0, ads, m) {
            ads[m].1
        } else {
            last_alert_after(last0, ads.take(m))
        }),
{
    assert(ads.take(m + 1).drop_last() =~= ads.take(m));
    assert(ads.take(m + 1).last() == ads[m]);
}

/// The last alert never moves back: an alert comes after the last one.
pub proof fn lemma_last_alert_monotone(last0: u64, ads: Seq<(Seq<(u128, Vec<u8>)>, u64)>, p: int, m: int)
    requires
        0 <= p <= m <= ads.len(),
    ensures
        last_alert_after(last0, ads.take(p)) <= last_alert_after(last0, ads.take(m)),
    decreases m - p,
{
    if p < m {
        lemma_last_alert_monotone(last0, ads, p, m - 1);
        lemma_last_alert_step(last0, ads, m - 1);
    }
}

pub proof fn lemma_last_alert_at_alert(last0: u64, ads: Seq<(Seq<(u128, Vec<u8>)>, u64)>, p: int, m: int)
    requires
        0 <= p < m <= ads.len(),
        alerted(last0, ads, p),
        forall|k: int| p < k < m ==> !alerted(last0, ads, k),
    ensures
        last_alert_after(last0, ads.take(m)) == ads[p].1,
    decreases m - p,
{
    lemma_last_alert_step(last0, ads, m - 1);
    if m - 1 > p {
        lemma_last_alert_at_alert(last0, ads, p, m - 1);
    }
}

pub proof fn lemma_last_alert_none(last0: u64, ads: Seq<(Seq<(u128, Vec<u8>)>, u64)>, m: int)
    requires
        0 <= m <= ads.len(),
        forall|k: int| 0 <= k < m ==> !alerted(last0, ads, k),
    ensures
        last_alert_after(last0, ads.take(m)) == last0,
    decreases m,
{
    if m == 0 {
        assert(ads.take(0) =~= Seq::<(Seq<(u128, Vec<u8>)>, u64)>::empty());
    } else {
        lemma_last_alert_step(last0, ads, m - 1);
        lemma_last_alert_none(last0, ads, m - 1);
    }
}

/// Of the advertisements before `m`, the last one that alerted.
pub proof fn lemma_latest_alert(last0: u64, ads: Seq<(Seq<(u128, Vec<u8>)>, u64)>, m: int) -> (p: int)
    requires
        0 <= m <= ads.len(),
        exists|p: int| 0 <= p < m && #[trigger] alerted(last0, ads, p),
    ensures
        0 <= p < m,
        alerted(last0, ads, p),
        forall|k: int| p < k < m ==> !alerted(last0, ads, k),
    decreases m,
{
    if alerted(last0, ads, m - 1) {
        m - 1
    } else {
        let w = choose|p: int| 0 <= p < m && #[trigger] alerted(last0, ads, p);
        assert(w < m - 1);
        lemma_latest_alert(last0, ads, m - 1)
    }
}

/// The nearby-sharing alert fires only for an advertisement with sharing
/// service data, and any two alerts are more than the timeout apart,
/// whatever the clock does between them.
pub proof fn law_alerts_spaced(ads: Seq<(Seq<(u128, Vec<u8>)>, u64)>)
    ensures
        forall|i: int|
            0 <= i < ads.len() && #[trigger] alerted(0, ads, i) ==> data_for(ads[i].0, SERVICE_UUID_SHARING) is Some,
        forall|i: int, j: int|
            0 <= i < j < ads.len() && #[trigger] alerted(0, ads, i) && #[trigger] alerted(0, ads, j) ==> ads[j].1
                - ads[i].1 > BLE_TIMEOUT_SECS * NANOS_PER_SEC,
{
    assert forall|i: int, j: int|
        0 <= i < j < ads.len() && #[trigger] alerted(0, ads, i) && #[trigger] alerted(0, ads, j) implies ads[j].1
        - ads[i].1 > BLE_TIMEOUT_SECS * NANOS_PER_SEC by {
        lemma_last_alert_monotone(0, ads, i + 1, j);
        lemma_last_alert_step(0, ads, i);
    }
}

/// An advertisement with sharing service data alerts when it comes more
/// than the timeout after the previous alert, or, before any alert, more
/// than the timeout after the start of the clock.
pub proof fn law_alert_after_quiet(ads: Seq<(Seq<(u128, Vec<u8>)>, u64)>, j: int)
    requires
        0 <= j < ads.len(),
        data_for(ads[j].0, SERVICE_UUID_SHARING) is Some,
        (forall|k: int| 0 <= k < j ==> !alerted(0, ads, k)) ==> ads[j].1 > BLE_TIMEOUT_SECS * NANOS_PER_SEC,
        forall|p: int|
            0 <= p < j && #[trigger] alerted(0, ads, p) && (forall|k: int| p < k < j ==> !alerted(0, ads, k))
                ==> ads[j].1 - ads[p].1 > BLE_TIMEOUT_SECS * NANOS_PER_SEC,
    ensures
        alerted(0, ads, j),
{
    if exists|p: int| 0 <= p < j && #[trigger] alerted(0, ads, p) {
        let p = lemma_latest_alert(0, ads, j);
        lemma_last_alert_at_alert(0, ads, p, j);
    } else {
        lemma_last_alert_none(0, ads, j);
    }
}

} // verus!
