use vstd::prelude::*;
use vstd::string::*;
use vstd::assert_sets_equal;
use crate::channel::DeviceType;
use crate::endpoint::{EndpointInfo, EndpointTransport, build_endpoint};
use crate::text::{strip_prefixes, trim_start_matches};
use crate::ble_laws::{
    tracker_step, opt_emissions, emissions, withdrawals, ids_of, lemma_ids_update, lemma_step_announce,
    lemma_withdraw_all, lemma_expire_ids, lemma_filter_ids_match, alert_step,
};

verus! {

broadcast use vstd::seq_lib::group_filter_ensures, vstd::seq_lib::group_seq_properties;

/// The Nearby Share service UUID, `0000fe2c-0000-1000-8000-00805f9b34fb`.
pub const SERVICE_UUID_SHARING: u128 = 0x0000fe2c_0000_1000_8000_00805f9b34fb;

/// Seconds without an advertisement after which a device counts as gone.
pub const BLE_TIMEOUT_SECS: u64 = 30;

/// Nanoseconds in a second; times are counted in nanoseconds.
pub const NANOS_PER_SEC: u64 = 1_000_000_000;

/// The device type in Nearby Share service data: bits 4..2 of the first
/// byte, unknown when there is no byte.
pub open spec fn ble_device_type(data: Seq<u8>) -> DeviceType {
    if data.len() == 0 {
        DeviceType::Unknown
    } else {
        DeviceType::of_raw((data[0] >> 2u8) & 7u8)
    }
}

pub fn parse_ble_device_type(data: &[u8]) -> (t: DeviceType)
    ensures
        t == ble_device_type(data@),
{
    if data.len() == 0 {
        return DeviceType::Unknown;
    }
    DeviceType::from_raw_value((data[0] >> 2) & 0x7)
}

/// The service data that an advertisement carries for `key` (the first
/// pair with that key).
pub open spec fn data_for(sd: Seq<(u128, Vec<u8>)>, key: u128) -> Option<Seq<u8>>
    decreases sd.len(),
{
    if sd.len() == 0 {
        None
    } else if sd[0].0 == key {
        Some(sd[0].1@)
    } else {
        data_for(sd.drop_first(), key)
    }
}

/// Index of the service data for `key`.
pub fn find_service_data(sd: &Vec<(u128, Vec<u8>)>, key: u128) -> (r: Option<usize>)
    ensures
        r is None <==> data_for(sd@, key) is None,
        r matches Some(i) ==> i < sd@.len() && data_for(sd@, key) == Some(sd@[i as int].1@),
{
    let n = sd.len();
    let mut i: usize = 0;
    assert(sd@.skip(0) =~= sd@);
    while i < n
        invariant
            n == sd@.len(),
            i <= n,
            data_for(sd@, key) == data_for(sd@.skip(i as int), key),
        decreases n - i,
    {
        assert(sd@.skip(i as int)[0] == sd@[i as int]);
        if sd[i].0 == key {
            return Some(i);
        }
        assert(sd@.skip(i as int).drop_first() =~= sd@.skip(i + 1));
        i = i + 1;
    }
    None
}

fn contains_key(v: &Vec<u128>, key: u128) -> (b: bool)
    ensures
        b == v@.contains(key),
{
    let n = v.len();
    let mut i: usize = 0;
    while i < n
        invariant
            n == v@.len(),
            i <= n,
            forall|j: int| 0 <= j < i ==> v@[j] != key,
        decreases n - i,
    {
        if v[i] == key {
            return true;
        }
        i = i + 1;
    }
    false
}

/// A device offers Quick Share when it lists the service or carries
/// service data for it.
pub open spec fn advertises_sharing(services: Seq<u128>, sd: Seq<(u128, Vec<u8>)>) -> bool {
    services.contains(SERVICE_UUID_SHARING) || data_for(sd, SERVICE_UUID_SHARING) is Some
}

/// The device type that the sharing service data announces, unknown
/// without such data.
pub open spec fn sharing_type(sd: Seq<(u128, Vec<u8>)>) -> DeviceType {
    match data_for(sd, SERVICE_UUID_SHARING) {
        Some(d) => ble_device_type(d),
        None => DeviceType::Unknown,
    }
}

/// The name a discovered device is shown with: its advertised name, or
/// `Bluetooth (<address>)`.
pub open spec fn display_name_of(name: Option<String>, addr: Seq<char>) -> Seq<char> {
    match name {
        Some(n) => n@,
        None => "Bluetooth ("@ + addr + ")"@,
    }
}

fn display_name(name: Option<String>, addr: &str) -> (d: String)
    ensures
        d@ == display_name_of(name, addr@),
{
    match name {
        Some(n) => n,
        None => {
            let mut d = String::from_str("Bluetooth (");
            d.append(addr);
            d.append(")");
            d
        },
    }
}

/// The endpoint id of a BLE peripheral: `ble:` and its address.
pub fn peripheral_endpoint_id(addr: &str) -> (id: String)
    ensures
        id@ == "ble:"@ + addr@,
{
    let mut id = String::from_str("ble:");
    id.append(addr);
    id
}

/// An endpoint as BLE discovery reports a device.
pub open spec fn is_ble_endpoint(e: EndpointInfo, id: Seq<char>, display: Seq<char>, t: DeviceType) -> bool {
    &&& e.fullname@ == id
    &&& e.id@ == id
    &&& e.name matches Some(n) && n@ == display
    &&& e.ip is None
    &&& e.port is None
    &&& e.rtype == Some(t)
    &&& e.present == Some(true)
    &&& e.transport == Some(EndpointTransport::BleDiscovery)
    &&& e.wifi_direct_peer_path is None
    &&& e.wifi_direct_peer_mac is None
}

/// A device that discovery has announced, with the time it was last heard.
#[derive(Debug)]
pub struct SeenDevice {
    pub id: String,
    pub endpoint: EndpointInfo,
    /// Nanoseconds on the monotonic clock.
    pub last_seen: u64,
}

impl SeenDevice {
    pub fn duplicate(&self) -> (r: SeenDevice)
        ensures
            r == *self,
    {
        SeenDevice { id: self.id.clone(), endpoint: self.endpoint.duplicate(), last_seen: self.last_seen }
    }
}

/// No two devices share an id.
pub open spec fn unique_ids(s: Seq<SeenDevice>) -> bool {
    forall|i: int, j: int| 0 <= i < j < s.len() ==> #[trigger] s[i].id@ != #[trigger] s[j].id@
}

/// Every device's endpoint carries the device's id.
pub open spec fn ids_match(s: Seq<SeenDevice>) -> bool {
    forall|k: int| 0 <= k < s.len() ==> (#[trigger] s[k]).endpoint.id@ == s[k].id@
}

pub open spec fn known(s: Seq<SeenDevice>, id: Seq<char>) -> bool {
    exists|k: int| 0 <= k < s.len() && #[trigger] s[k].id@ == id
}

/// Whole seconds from `last` to `now`, zero when `last` is later.
pub open spec fn elapsed_secs(now: u64, last: u64) -> int {
    (if now >= last {
        now - last
    } else {
        0
    }) / (NANOS_PER_SEC as int)
}

/// A device is gone once more than the timeout has passed since it was
/// last heard.
pub open spec fn is_expired(d: SeenDevice, now: u64) -> bool {
    elapsed_secs(now, d.last_seen) > BLE_TIMEOUT_SECS
}

pub open spec fn fresh_pred(now: u64) -> spec_fn(SeenDevice) -> bool {
    |d: SeenDevice| !is_expired(d, now)
}

pub open spec fn expired_pred(now: u64) -> spec_fn(SeenDevice) -> bool {
    |d: SeenDevice| is_expired(d, now)
}

/// Filtering keeps ids apart.
pub proof fn lemma_filter_unique(s: Seq<SeenDevice>, p: spec_fn(SeenDevice) -> bool)
    requires
        unique_ids(s),
    ensures
        unique_ids(s.filter(p)),
    decreases s.len(),
{
    reveal(Seq::filter);
    if s.len() > 0 {
        let rest = s.drop_last();
        assert(unique_ids(rest)) by {
            assert forall|i: int, j: int| 0 <= i < j < rest.len() implies #[trigger] rest[i].id@
                != #[trigger] rest[j].id@ by {
                assert(rest[i] == s[i] && rest[j] == s[j]);
            }
        }
        lemma_filter_unique(rest, p);
        let f = rest.filter(p);
        if p(s.last()) {
            assert forall|i: int| 0 <= i < f.len() implies #[trigger] f[i].id@ != s.last().id@ by {
                rest.lemma_filter_contains_rev(p, f[i]);
                let k = choose|k: int| 0 <= k < rest.len() && rest[k] == f[i];
                assert(s[k] == rest[k]);
                assert(s[k].id@ != s[s.len() - 1].id@);
            }
            let g = f.push(s.last());
            assert forall|i: int, j: int| 0 <= i < j < g.len() implies #[trigger] g[i].id@
                != #[trigger] g[j].id@ by {
                if j == g.len() - 1 {
                    assert(g[i] == f[i]);
                    assert(g[j] == s.last());
                    assert(f[i].id@ != s.last().id@);
                } else {
                    assert(g[i] == f[i] && g[j] == f[j]);
                }
            }
        }
    }
}

/// The devices that BLE discovery has announced and not yet withdrawn.
pub struct BleTracker {
    pub seen: Vec<SeenDevice>,
}

impl BleTracker {
    pub open spec fn wf(&self) -> bool {
        unique_ids(self.seen@) && ids_match(self.seen@)
    }

    pub fn new() -> (t: BleTracker)
        ensures
            t.seen@.len() == 0,
            t.wf(),
    {
        BleTracker { seen: Vec::new() }
    }

    /// Index of the device with this id.
    pub fn find(&self, id: &str) -> (r: Option<usize>)
        ensures
            r matches Some(i) ==> i < self.seen@.len() && self.seen@[i as int].id@ == id@,
            r is None <==> !known(self.seen@, id@),
    {
        let n = self.seen.len();
        let mut i: usize = 0;
        while i < n
            invariant
                n == self.seen@.len(),
                i <= n,
                forall|k: int| 0 <= k < i ==> #[trigger] self.seen@[k].id@ != id@,
            decreases n - i,
        {
            if crate::text::str_eq(self.seen[i].id.as_str(), id) {
                return Some(i);
            }
            i = i + 1;
        }
        None
    }

    fn set_last_seen(&mut self, k: usize, now: u64)
        requires
            k < old(self).seen@.len(),
            old(self).wf(),
        ensures
            final(self).seen@ == old(self).seen@.update(
                k as int,
                SeenDevice { last_seen: now, ..old(self).seen@[k as int] },
            ),
            final(self).wf(),
    {
        let mut d = self.seen.remove(k);
        d.last_seen = now;
        self.seen.insert(k, d);
        assert(self.seen@ =~= old(self).seen@.update(
            k as int,
            SeenDevice { last_seen: now, ..old(self).seen@[k as int] },
        ));
        assert forall|i: int, j: int| 0 <= i < j < self.seen@.len() implies #[trigger] self.seen@[i].id@
            != #[trigger] self.seen@[j].id@ by {
            assert(self.seen@[i].id == old(self).seen@[i].id);
            assert(self.seen@[j].id == old(self).seen@[j].id);
        }
        assert forall|i: int| 0 <= i < self.seen@.len() implies (#[trigger] self.seen@[i]).endpoint.id@
            == self.seen@[i].id@ by {
            assert(old(self).seen@[i].endpoint.id@ == old(self).seen@[i].id@);
        }
    }

    /// Notes that a known device was heard again; returns whether it is known.
    pub fn refresh(&mut self, id: &str, now: u64) -> (was_known: bool)
        requires
            old(self).wf(),
        ensures
            final(self).wf(),
            was_known == known(old(self).seen@, id@),
            was_known ==> exists|k: int|
                0 <= k < old(self).seen@.len() && #[trigger] old(self).seen@[k].id@ == id@
                    && final(self).seen@ == old(self).seen@.update(
                    k,
                    SeenDevice { last_seen: now, ..old(self).seen@[k] },
                ),
            !was_known ==> final(self).seen@ == old(self).seen@,
            tracker_step(old(self).seen@, final(self).seen@, Seq::empty()),
    {
        match self.find(id) {
            Some(k) => {
                self.set_last_seen(k, now);
                proof {
                    lemma_ids_update(
                        old(self).seen@,
                        k as int,
                        SeenDevice { last_seen: now, ..old(self).seen@[k as int] },
                    );
                }
                true
            },
            None => false,
        }
    }

    /// Stores a device under its id, as a map insert does: a known id has
    /// its entry replaced, a new one is added at the end.
    fn record(&mut self, id: String, endpoint: EndpointInfo, now: u64)
        requires
            old(self).wf(),
            endpoint.id@ == id@,
        ensures
            final(self).wf(),
            known(old(self).seen@, id@) ==> exists|k: int|
                0 <= k < old(self).seen@.len() && #[trigger] old(self).seen@[k].id@ == id@
                    && final(self).seen@ == old(self).seen@.update(
                    k,
                    SeenDevice { id: old(self).seen@[k].id, endpoint, last_seen: now },
                ),
            !known(old(self).seen@, id@) ==> final(self).seen@ == old(self).seen@.push(
                SeenDevice { id, endpoint, last_seen: now },
            ),
    {
        match self.find(id.as_str()) {
            Some(k) => {
                let d = self.seen.remove(k);
                let nd = SeenDevice { id: d.id, endpoint, last_seen: now };
                self.seen.insert(k, nd);
                assert(self.seen@ =~= old(self).seen@.update(
                    k as int,
                    SeenDevice { id: old(self).seen@[k as int].id, endpoint, last_seen: now },
                ));
                assert forall|i: int, j: int| 0 <= i < j < self.seen@.len() implies #[trigger] self.seen@[i].id@
                    != #[trigger] self.seen@[j].id@ by {
                    assert(self.seen@[i].id == old(self).seen@[i].id);
                    assert(self.seen@[j].id == old(self).seen@[j].id);
                }
                assert forall|i: int| 0 <= i < self.seen@.len() implies (#[trigger] self.seen@[i]).endpoint.id@
                    == self.seen@[i].id@ by {
                    assert(old(self).seen@[i].endpoint.id@ == old(self).seen@[i].id@);
                }
            },
            None => {
                self.seen.push(SeenDevice { id, endpoint, last_seen: now });
                assert forall|i: int, j: int| 0 <= i < j < self.seen@.len() implies #[trigger] self.seen@[i].id@
                    != #[trigger] self.seen@[j].id@ by {
                    if j < old(self).seen@.len() {
                        assert(self.seen@[i] == old(self).seen@[i]);
                        assert(self.seen@[j] == old(self).seen@[j]);
                    } else {
                        assert(self.seen@[i] == old(self).seen@[i]);
                    }
                }
                assert forall|i: int| 0 <= i < self.seen@.len() implies (#[trigger] self.seen@[i]).endpoint.id@
                    == self.seen@[i].id@ by {
                    if i < old(self).seen@.len() {
                        assert(self.seen@[i] == old(self).seen@[i]);
                    }
                }
            },
        }
    }

    /// A sharing advertisement (service data under the Nearby Share UUID)
    /// from the peripheral `ep_id`, named `name` if it has a name. A known
    /// device is only marked as heard; a new one is stored and returned to
    /// be announced.
    pub fn on_service_data(&mut self, ep_id: String, name: Option<String>, data: &[u8], now: u64) -> (r:
        Option<EndpointInfo>)
        requires
            old(self).wf(),
        ensures
            final(self).wf(),
            r is None <==> known(old(self).seen@, ep_id@),
            r is None ==> exists|k: int|
                0 <= k < old(self).seen@.len() && #[trigger] old(self).seen@[k].id@ == ep_id@
                    && final(self).seen@ == old(self).seen@.update(
                    k,
                    SeenDevice { last_seen: now, ..old(self).seen@[k] },
                ),
            r matches Some(e) ==> is_ble_endpoint(
                e,
                ep_id@,
                display_name_of(name, strip_prefixes(ep_id@, "ble:"@)),
                ble_device_type(data@),
            ) && final(self).seen@ == old(self).seen@.push(
                SeenDevice { id: ep_id, endpoint: e, last_seen: now },
            ),
            tracker_step(old(self).seen@, final(self).seen@, opt_emissions(r)),
    {
        if self.refresh(ep_id.as_str(), now) {
            return None;
        }
        let device_type = parse_ble_device_type(data);
        let addr = trim_start_matches(ep_id.as_str(), "ble:");
        let display = display_name(name, addr.as_str());
        let e = build_endpoint(ep_id.clone(), display, device_type);
        let ghost stored = SeenDevice { id: ep_id, endpoint: e, last_seen: now };
        self.record(ep_id, e.duplicate(), now);
        proof {
            lemma_step_announce(old(self).seen@, stored, e);
        }
        Some(e)
    }

    /// The properties of the peripheral at `addr`. When it offers Quick
    /// Share it is stored (replacing what was stored under its id) and
    /// returned to be announced; otherwise nothing changes.
    pub fn on_properties(
        &mut self,
        addr: &str,
        local_name: Option<String>,
        services: &Vec<u128>,
        service_data: &Vec<(u128, Vec<u8>)>,
        now: u64,
    ) -> (r: Option<EndpointInfo>)
        requires
            old(self).wf(),
        ensures
            final(self).wf(),
            r is Some <==> advertises_sharing(services@, service_data@),
            r is None ==> final(self).seen@ == old(self).seen@,
            r matches Some(e) ==> is_ble_endpoint(
                e,
                "ble:"@ + addr@,
                display_name_of(local_name, addr@),
                sharing_type(service_data@),
            ) && (known(old(self).seen@, e.id@) ==> exists|k: int|
                0 <= k < old(self).seen@.len() && #[trigger] old(self).seen@[k].id@ == e.id@
                    && final(self).seen@ == old(self).seen@.update(
                    k,
                    SeenDevice { id: old(self).seen@[k].id, endpoint: e, last_seen: now },
                )) && (!known(old(self).seen@, e.id@) ==> final(self).seen@ == old(self).seen@.push(
                SeenDevice { id: e.id, endpoint: e, last_seen: now },
            )),
            !known(old(self).seen@, "ble:"@ + addr@) ==> tracker_step(
                old(self).seen@,
                final(self).seen@,
                opt_emissions(r),
            ),
    {
        let data_index = find_service_data(service_data, SERVICE_UUID_SHARING);
        if !contains_key(services, SERVICE_UUID_SHARING) && data_index.is_none() {
            return None;
        }
        let device_type = match data_index {
            Some(i) => parse_ble_device_type(service_data[i].1.as_slice()),
            None => DeviceType::Unknown,
        };
        let ep_id = peripheral_endpoint_id(addr);
        let display = display_name(local_name, addr);
        let e = build_endpoint(ep_id.clone(), display, device_type);
        let ghost stored = SeenDevice { id: e.id, endpoint: e, last_seen: now };
        self.record(ep_id, e.duplicate(), now);
        proof {
            if !known(old(self).seen@, e.id@) {
                lemma_step_announce(old(self).seen@, stored, e);
            }
        }
        Some(e)
    }

    /// Withdraws every device not heard for longer than the timeout and
    /// returns a notice for each, in stored order.
    pub fn expire(&mut self, now: u64) -> (notices: Vec<EndpointInfo>)
        requires
            old(self).wf(),
        ensures
            final(self).wf(),
            final(self).seen@ == old(self).seen@.filter(fresh_pred(now)),
            notices@.len() == old(self).seen@.filter(expired_pred(now)).len(),
            forall|k: int|
                0 <= k < notices@.len() ==> (#[trigger] notices@[k]).is_absent_notice(
                    old(self).seen@.filter(expired_pred(now))[k].endpoint.id@,
                ),
            tracker_step(old(self).seen@, final(self).seen@, emissions(notices@)),
    {
        let ghost olds = self.seen@;
        let ghost fp = fresh_pred(now);
        let ghost ep = expired_pred(now);
        let n = self.seen.len();
        let mut kept: Vec<SeenDevice> = Vec::new();
        let mut notices: Vec<EndpointInfo> = Vec::new();
        let mut i: usize = 0;
        while i < n
            invariant
                n == self.seen@.len(),
                self.seen@ == olds,
                i <= n,
                fp == fresh_pred(now),
                ep == expired_pred(now),
                kept@ == olds.take(i as int).filter(fp),
                notices@.len() == olds.take(i as int).filter(ep).len(),
                forall|k: int|
                    0 <= k < notices@.len() ==> (#[trigger] notices@[k]).is_absent_notice(
                        olds.take(i as int).filter(ep)[k].endpoint.id@,
                    ),
            decreases n - i,
        {
            let d = &self.seen[i];
            let elapsed: u64 = if now >= d.last_seen {
                now - d.last_seen
            } else {
                0
            };
            proof {
                olds.take(i as int).lemma_filter_push(olds[i as int], fp);
                olds.take(i as int).lemma_filter_push(olds[i as int], ep);
                assert(olds.take(i as int).push(olds[i as int]) =~= olds.take(i + 1));
            }
            if elapsed / NANOS_PER_SEC > BLE_TIMEOUT_SECS {
                let ghost before = notices@;
                notices.push(EndpointInfo::absent(d.endpoint.id.clone()));
                assert forall|k: int| 0 <= k < notices@.len() implies (#[trigger] notices@[k]).is_absent_notice(
                    olds.take(i + 1).filter(ep)[k].endpoint.id@,
                ) by {
                    if k < before.len() {
                        assert(notices@[k] == before[k]);
                    }
                }
            } else {
                kept.push(d.duplicate());
            }
            i = i + 1;
        }
        proof {
            assert(olds.take(n as int) =~= olds);
            lemma_filter_unique(olds, fp);
            lemma_filter_ids_match(olds, fp);
            let x = olds.filter(ep);
            lemma_filter_unique(olds, ep);
            lemma_filter_ids_match(olds, ep);
            assert forall|k: int| 0 <= k < x.len() implies ids_of(olds).contains(#[trigger] x[k].id@) by {
                assert(ep(x[k]));
                olds.lemma_filter_contains_rev(ep, x[k]);
                let a = choose|a: int| 0 <= a < olds.len() && olds[a] == x[k];
                assert(olds[a].id@ == x[k].id@);
            }
            lemma_withdraw_all(ids_of(olds), x);
            lemma_expire_ids(olds, now);
            assert(emissions(notices@) =~= withdrawals(x));
        }
        self.seen = kept;
        notices
    }

    /// Withdraws every device when discovery stops: one notice per stored
    /// device, in stored order.
    pub fn finish(&self) -> (notices: Vec<EndpointInfo>)
        requires
            self.wf(),
        ensures
            notices@.len() == self.seen@.len(),
            forall|k: int|
                0 <= k < notices@.len() ==> (#[trigger] notices@[k]).is_absent_notice(
                    self.seen@[k].endpoint.id@,
                ),
            tracker_step(self.seen@, Seq::empty(), emissions(notices@)),
    {
        let n = self.seen.len();
        let mut notices: Vec<EndpointInfo> = Vec::new();
        let mut i: usize = 0;
        while i < n
            invariant
                n == self.seen@.len(),
                i <= n,
                notices@.len() == i,
                forall|k: int|
                    0 <= k < i ==> (#[trigger] notices@[k]).is_absent_notice(
                        self.seen@[k].endpoint.id@,
                    ),
            decreases n - i,
        {
            notices.push(EndpointInfo::absent(self.seen[i].endpoint.id.clone()));
            i = i + 1;
        }
        proof {
            let s = self.seen@;
            assert forall|k: int| 0 <= k < s.len() implies ids_of(s).contains(#[trigger] s[k].id@) by {
                assert(known(s, s[k].id@));
            }
            lemma_withdraw_all(ids_of(s), s);
            assert(emissions(notices@) =~= withdrawals(s));
            assert_sets_equal!(ids_of(s).difference(ids_of(s)), ids_of(Seq::<SeenDevice>::empty()));
        }
        notices
    }
}

/// After expiry, every device still stored was heard within the timeout,
/// and every device heard within the timeout is still stored.
pub proof fn law_expire_keeps_exactly_fresh(seen: Seq<SeenDevice>, now: u64)
    ensures
        forall|k: int|
            0 <= k < seen.filter(fresh_pred(now)).len() ==> !is_expired(
                #[trigger] seen.filter(fresh_pred(now))[k],
                now,
            ),
        forall|k: int|
            0 <= k < seen.len() && !is_expired(seen[k], now) ==> seen.filter(
                fresh_pred(now),
            ).contains(#[trigger] seen[k]),
{
    assert forall|k: int| 0 <= k < seen.filter(fresh_pred(now)).len() implies !is_expired(
        #[trigger] seen.filter(fresh_pred(now))[k],
        now,
    ) by {
        assert(fresh_pred(now)(seen.filter(fresh_pred(now))[k]));
    }
    assert forall|k: int| 0 <= k < seen.len() && !is_expired(seen[k], now) implies seen.filter(
        fresh_pred(now),
    ).contains(#[trigger] seen[k]) by {
        assert(fresh_pred(now)(seen[k]));
        seen.lemma_filter_contains(fresh_pred(now), k);
    }
}

/// Rate limit of the nearby-sharing alert: the last alert, in nanoseconds
/// since the Unix epoch (zero before the first).
pub struct BleListenerState {
    pub last_alert: u64,
}

/// Nanoseconds from `last` to `now`, zero when `last` is later.
pub open spec fn elapsed_nanos(now: u64, last: u64) -> int {
    if now >= last {
        now - last
    } else {
        0
    }
}

impl BleListenerState {
    pub fn new() -> (s: BleListenerState)
        ensures
            s.last_alert == 0,
    {
        BleListenerState { last_alert: 0 }
    }

    /// A service-data advertisement arrived at `now`. The alert fires when
    /// the advertisement carries data for the sharing service and more than
    /// the timeout has passed since the last alert.
    pub fn on_advertisement(&mut self, service_data: &Vec<(u128, Vec<u8>)>, now: u64) -> (alert: bool)
        ensures
            alert == alert_step(old(self).last_alert, service_data@, now),
            final(self).last_alert == (if alert {
                now
            } else {
                old(self).last_alert
            }),
    {
        if find_service_data(service_data, SERVICE_UUID_SHARING).is_none() {
            return false;
        }
        let elapsed: u64 = if now >= self.last_alert {
            now - self.last_alert
        } else {
            0
        };
        if elapsed <= BLE_TIMEOUT_SECS * NANOS_PER_SEC {
            return false;
        }
        self.last_alert = now;
        true
    }
}

} // verus!
