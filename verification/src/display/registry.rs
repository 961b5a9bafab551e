//! The device's picture of the host: the playback devices, the applications
//! playing on each device and the application ids listed per device. It is
//! kept up to date from the host's replies.
use vstd::prelude::*;
use crate::display::keyed_list::{
    KeyedList, key_lt, keys_sorted, map_of, has_key, lemma_map_of_index, lemma_key_lt_total, lemma_map_of_finite,
    lemma_bytes_lt_transitive,
};
use crate::protocol::{ChangeType, Envelope, Identifier, Response, UpdateChange};
use crate::vtype::{AppIdentifier, AudioApplication, AudioDevice, AudioVolume, DeviceIdentifier, ProcessInfo};

verus! {

/// The least index at which `p` holds, or `-1` when it holds nowhere.
pub open spec fn first_index<A>(s: Seq<A>, p: spec_fn(A) -> bool) -> int {
    if exists|i: int| 0 <= i < s.len() && #[trigger] p(s[i]) {
        choose|i: int| 0 <= i < s.len() && #[trigger] p(s[i]) && forall|j: int| 0 <= j < i ==> !p(#[trigger] s[j])
    } else {
        -1
    }
}

pub proof fn lemma_first_index_at<A>(s: Seq<A>, p: spec_fn(A) -> bool, i: int)
    requires
        0 <= i < s.len(),
        p(s[i]),
        forall|j: int| 0 <= j < i ==> !p(#[trigger] s[j]),
    ensures
        first_index(s, p) == i,
{
    let c = first_index(s, p);
    assert(0 <= c < s.len() && p(s[c]) && forall|j: int| 0 <= j < c ==> !p(#[trigger] s[j]));
    if c < i {
        assert(!p(s[c]));
    } else if c > i {
        assert(!p(s[i]));
    }
}

pub proof fn lemma_first_index_none<A>(s: Seq<A>, p: spec_fn(A) -> bool)
    requires
        forall|j: int| 0 <= j < s.len() ==> !p(#[trigger] s[j]),
    ensures
        first_index(s, p) == -1,
{
}

/// Matches applications by process id.
pub open spec fn app_has_id(id: AppIdentifier) -> spec_fn(AudioApplication) -> bool {
    |a: AudioApplication| a.process.id == id
}

/// Matches applications whose process id differs from `id`.
pub open spec fn app_lacks_id(id: AppIdentifier) -> spec_fn(AudioApplication) -> bool {
    |a: AudioApplication| a.process.id != id
}

/// Matches devices by id.
pub open spec fn device_has_id(id: Seq<char>) -> spec_fn(AudioDevice) -> bool {
    |d: AudioDevice| d.id@ == id
}

/// `apps` with the volume of the first application of process `id` set to `volume`.
pub open spec fn with_app_volume(apps: Seq<AudioApplication>, id: AppIdentifier, volume: AudioVolume) -> Seq<AudioApplication> {
    let i = first_index(apps, app_has_id(id));
    if i >= 0 {
        apps.update(i, AudioApplication { volume: volume, ..apps[i] })
    } else {
        apps
    }
}

/// `apps` with the path of the first application of process `id` set to `path`.
pub open spec fn with_app_path(apps: Seq<AudioApplication>, id: AppIdentifier, path: String) -> Seq<AudioApplication> {
    let i = first_index(apps, app_has_id(id));
    if i >= 0 {
        apps.update(i, AudioApplication { process: ProcessInfo { path: Some(path), ..apps[i].process }, ..apps[i] })
    } else {
        apps
    }
}

/// `devices` with the volume of the first device with id `id` set to `volume`.
pub open spec fn with_device_volume(devices: Seq<AudioDevice>, id: Seq<char>, volume: AudioVolume) -> Seq<AudioDevice> {
    let i = first_index(devices, device_has_id(id));
    if i >= 0 {
        devices.update(i, AudioDevice { volume: volume, ..devices[i] })
    } else {
        devices
    }
}

/// Whether device `k` lists application `app`.
pub open spec fn lists_app(ids: Map<Seq<char>, Seq<AppIdentifier>>, k: Seq<char>, app: AppIdentifier) -> bool {
    ids.dom().contains(k) && ids[k].contains(app)
}

/// The device under which application `app` is listed; where several list it,
/// the one whose id comes first in string order.
pub open spec fn device_of(ids: Map<Seq<char>, Seq<AppIdentifier>>, app: AppIdentifier) -> Option<Seq<char>> {
    if exists|k: Seq<char>| #[trigger] lists_app(ids, k, app) {
        Some(choose|k: Seq<char>| #[trigger] lists_app(ids, k, app) && forall|k2: Seq<char>|
            #[trigger] lists_app(ids, k2, app) ==> k2 == k || key_lt(k, k2))
    } else {
        None
    }
}

pub open spec fn opt_string_view(o: Option<String>) -> Option<Seq<char>> {
    match o {
        Some(s) => Some(s@),
        None => None,
    }
}

/// The device id that an application's updates are filed under: the device
/// that lists it, or the empty id when none does.
pub open spec fn filing_device(ids: Map<Seq<char>, Seq<AppIdentifier>>, app: AppIdentifier) -> Seq<char> {
    match device_of(ids, app) {
        Some(d) => d,
        None => Seq::empty(),
    }
}


/// The applications table after the host's `response`.
pub open spec fn applications_after(
    apps: Map<Seq<char>, Seq<AudioApplication>>,
    ids: Map<Seq<char>, Seq<AppIdentifier>>,
    response: Response,
) -> Map<Seq<char>, Seq<AudioApplication>> {
    match response {
        Response::Volume { id: Identifier::App(a), volume } => {
            let d = filing_device(ids, a);
            if apps.dom().contains(d) {
                apps.insert(d, with_app_volume(apps[d], a, volume))
            } else {
                apps
            }
        },
        Response::Application(app) => match device_of(ids, app.process.id) {
            Some(d) => {
                let old_list = if apps.dom().contains(d) { apps[d] } else { Seq::empty() };
                apps.insert(d, old_list.filter(app_lacks_id(app.process.id)).push(app))
            },
            None => apps,
        },
        Response::Icon { app_id, data } => {
            let d = filing_device(ids, app_id);
            if apps.dom().contains(d) {
                apps.insert(d, with_app_path(apps[d], app_id, data))
            } else {
                apps
            }
        },
        _ => apps,
    }
}

/// The per-device application id lists after the host's `response`.
pub open spec fn application_ids_after(
    ids: Map<Seq<char>, Seq<AppIdentifier>>,
    response: Response,
) -> Map<Seq<char>, Seq<AppIdentifier>> {
    match response {
        Response::ApplicationList { device_id, apps } => ids.insert(device_id@, apps@),
        _ => ids,
    }
}

/// The device list after the host's `response`.
pub open spec fn devices_after(devices: Seq<AudioDevice>, response: Response) -> Seq<AudioDevice> {
    match response {
        Response::Volume { id: Identifier::Device(d), volume } => with_device_volume(devices, d@, volume),
        Response::DeviceList(list) => list@,
        _ => devices,
    }
}

/// The registry of devices and applications.
pub struct DeviceRegistry {
    devices: Vec<AudioDevice>,
    applications: KeyedList<Vec<AudioApplication>>,
    application_ids: KeyedList<Vec<AppIdentifier>>,
}

impl DeviceRegistry {
    #[verifier::type_invariant]
    spec fn inv(self) -> bool {
        self.applications.wf() && self.application_ids.wf()
    }

    /// The playback devices, in the order the host listed them.
    pub closed spec fn spec_devices(&self) -> Seq<AudioDevice> {
        self.devices@
    }

    /// The applications known per device id.
    pub closed spec fn spec_applications(&self) -> Map<Seq<char>, Seq<AudioApplication>> {
        vec_map_view(self.applications)
    }

    /// The application ids listed per device id.
    pub closed spec fn spec_application_ids(&self) -> Map<Seq<char>, Seq<AppIdentifier>> {
        vec_map_view(self.application_ids)
    }

    /// An empty registry.
    pub fn new() -> (r: Self)
        ensures
            r.spec_devices() == Seq::<AudioDevice>::empty(),
            r.spec_applications() == Map::<Seq<char>, Seq<AudioApplication>>::empty(),
            r.spec_application_ids() == Map::<Seq<char>, Seq<AppIdentifier>>::empty(),
    {
        let r = DeviceRegistry {
            devices: Vec::new(),
            applications: KeyedList::new(),
            application_ids: KeyedList::new(),
        };
        assert(r.spec_applications() =~= Map::<Seq<char>, Seq<AudioApplication>>::empty());
        assert(r.spec_application_ids() =~= Map::<Seq<char>, Seq<AppIdentifier>>::empty());
        r
    }


    /// Files the host's `response`: volume and icon updates go to the
    /// matching application or device, application lists and device lists
    /// replace what was stored, an application record replaces the records of
    /// the same process under the device that lists it, and errors change
    /// nothing.
    pub fn update_response(&mut self, response: Response)
        ensures
            final(self).spec_devices() == devices_after(old(self).spec_devices(), response),
            final(self).spec_applications() == applications_after(
                old(self).spec_applications(),
                old(self).spec_application_ids(),
                response,
            ),
            final(self).spec_application_ids() == application_ids_after(
                old(self).spec_application_ids(),
                response,
            ),
    {
        proof {
            use_type_invariant(&*self);
        }
        let mut devices: Vec<AudioDevice> = Vec::new();
        let mut applications: KeyedList<Vec<AudioApplication>> = KeyedList::new();
        let mut application_ids: KeyedList<Vec<AppIdentifier>> = KeyedList::new();
        std::mem::swap(&mut devices, &mut self.devices);
        std::mem::swap(&mut applications, &mut self.applications);
        std::mem::swap(&mut application_ids, &mut self.application_ids);
        apply_response(&mut devices, &mut applications, &mut application_ids, response);
        self.devices = devices;
        self.applications = applications;
        self.application_ids = application_ids;
    }

    /// Files a message from the host: a response is filed as
    /// `update_response` does; commands (outgoing only) and change events
    /// leave the registry as it is.
    pub fn update_information(&mut self, envelope: Envelope)
        ensures
            match envelope {
                Envelope::Response(response) => {
                    &&& final(self).spec_devices() == devices_after(old(self).spec_devices(), response)
                    &&& final(self).spec_applications() == applications_after(
                        old(self).spec_applications(),
                        old(self).spec_application_ids(),
                        response,
                    )
                    &&& final(self).spec_application_ids() == application_ids_after(
                        old(self).spec_application_ids(),
                        response,
                    )
                },
                _ => {
                    &&& final(self).spec_devices() == old(self).spec_devices()
                    &&& final(self).spec_applications() == old(self).spec_applications()
                    &&& final(self).spec_application_ids() == old(self).spec_application_ids()
                },
            },
    {
        match envelope {
            Envelope::Command(_) => {},
            Envelope::Response(response) => self.update_response(response),
            Envelope::Event(update_change) => self.update_event(update_change),
        }
    }

    /// A change notification from the host; none of its kinds is acted on
    /// yet, so the registry stays as it is.
    pub fn update_event(&mut self, event: UpdateChange)
        ensures
            final(self).spec_devices() == old(self).spec_devices(),
            final(self).spec_applications() == old(self).spec_applications(),
            final(self).spec_application_ids() == old(self).spec_application_ids(),
    {
        match event.change {
            ChangeType::AudioVolume => {},
            ChangeType::IconPathChange => {},
            ChangeType::NameChange => {},
            ChangeType::StateChange => {},
        }
    }

    /// The playback devices, in the order the host listed them.
    pub fn devices(&self) -> (r: &Vec<AudioDevice>)
        ensures
            r@ == self.spec_devices(),
    {
        &self.devices
    }

    /// The first playback device with id `device_id`, if there is one.
    pub fn device_by_id(&self, device_id: &String) -> (r: Option<&AudioDevice>)
        ensures
            match r {
                Some(d) => {
                    let i = first_index(self.spec_devices(), device_has_id(device_id@));
                    0 <= i && *d == self.spec_devices()[i]
                },
                None => first_index(self.spec_devices(), device_has_id(device_id@)) == -1,
            },
    {
        let mut i: usize = 0;
        while i < self.devices.len()
            invariant
                i <= self.devices@.len(),
                forall|j: int| 0 <= j < i ==> !device_has_id(device_id@)(#[trigger] self.devices@[j]),
            decreases self.devices@.len() - i,
        {
            if self.devices[i].id == *device_id {
                proof {
                    lemma_first_index_at(self.devices@, device_has_id(device_id@), i as int);
                }
                return Some(&self.devices[i]);
            }
            i = i + 1;
        }
        proof {
            lemma_first_index_none(self.devices@, device_has_id(device_id@));
        }
        None
    }

    /// The applications stored under `device_id`, if the host has sent any.
    pub fn applications_of(&self, device_id: &String) -> (r: Option<&Vec<AudioApplication>>)
        ensures
            match r {
                Some(list) => self.spec_applications().dom().contains(device_id@)
                    && list@ == self.spec_applications()[device_id@],
                None => !self.spec_applications().dom().contains(device_id@),
            },
    {
        proof {
            use_type_invariant(self);
        }
        self.applications.get(device_id)
    }

    /// The registry's tables have finitely many device ids.
    pub proof fn lemma_tables_finite(&self)
        ensures
            self.spec_applications().dom().finite(),
            self.spec_application_ids().dom().finite(),
    {
        lemma_map_of_finite(self.applications@);
        lemma_map_of_finite(self.application_ids@);
        assert(self.spec_applications().dom() =~= map_of(self.applications@).dom());
        assert(self.spec_application_ids().dom() =~= map_of(self.application_ids@).dom());
    }

    /// The device under which application `app_id` is listed (the first such
    /// device in string order), if any.
    pub fn find_application_device(&self, app_id: AppIdentifier) -> (r: Option<DeviceIdentifier>)
        ensures
            opt_string_view(r) == device_of(self.spec_application_ids(), app_id),
    {
        proof {
            use_type_invariant(self);
        }
        device_for(&self.application_ids, app_id)
    }
}

/// The device under which application `app_id` is listed (the first such
/// device in string order), if any.
fn device_for(ids: &KeyedList<Vec<AppIdentifier>>, app_id: AppIdentifier) -> (r: Option<DeviceIdentifier>)
    requires
        ids.wf(),
    ensures
        opt_string_view(r) == device_of(vec_map_view(*ids), app_id),
{
    let ghost s = ids@;
    let ghost m = vec_map_view(*ids);
    let n = ids.len();
    let mut i: usize = 0;
    while i < n
        invariant
            s == ids@,
            m == vec_map_view(*ids),
            m == map_of(s).map_values(|v: Vec<AppIdentifier>| v@),
            keys_sorted(s),
            n == s.len(),
            i <= n,
            forall|j: int| 0 <= j < i ==> !(#[trigger] s[j]).1@.contains(app_id),
        decreases n - i,
    {
        let list = ids.value_at(i);
        if contains_id(list, app_id) {
            let key = ids.key_at(i).clone();
            proof {
                let k = s[i as int].0;
                lemma_map_of_index(s, i as int);
                assert(lists_app(m, k, app_id));
                assert forall|k2: Seq<char>| #[trigger] lists_app(m, k2, app_id) implies k2 == k || key_lt(k, k2) by {
                    let j = choose|j: int| 0 <= j < s.len() && #[trigger] s[j].0 == k2;
                    lemma_map_of_index(s, j);
                    if j > i {
                        assert(key_lt(s[i as int].0, s[j].0));
                    } else if j < i {
                        assert(!s[j].1@.contains(app_id));
                    }
                }
                let c = choose|c: Seq<char>| #[trigger] lists_app(m, c, app_id) && forall|k2: Seq<char>|
                    #[trigger] lists_app(m, k2, app_id) ==> k2 == c || key_lt(c, k2);
                assert(lists_app(m, c, app_id));
                if c != k {
                    assert(key_lt(k, c));
                    assert(key_lt(c, k));
                    lemma_bytes_lt_transitive(
                        vstd::utf8::encode_utf8(k), vstd::utf8::encode_utf8(c), vstd::utf8::encode_utf8(k));
                    lemma_key_lt_total(k, k);
                }
            }
            return Some(key);
        }
        i = i + 1;
    }
    proof {
        assert forall|k2: Seq<char>| !#[trigger] lists_app(m, k2, app_id) by {
            if lists_app(m, k2, app_id) {
                let j = choose|j: int| 0 <= j < s.len() && #[trigger] s[j].0 == k2;
                lemma_map_of_index(s, j);
                assert(!s[j].1@.contains(app_id));
            }
        }
    }
    None
}

/// A record of an application that a device lists replaces the records of
/// the same process under that device: afterwards the device's list ends with
/// the new record and holds no other record of that process, and the lists of
/// other devices are as they were.
pub proof fn application_record_replaces_older(
    apps: Map<Seq<char>, Seq<AudioApplication>>,
    ids: Map<Seq<char>, Seq<AppIdentifier>>,
    app: AudioApplication,
)
    requires
        device_of(ids, app.process.id) is Some,
    ensures
        ({
            let d = device_of(ids, app.process.id)->0;
            let after = applications_after(apps, ids, Response::Application(app));
            &&& after.dom().contains(d)
            &&& after[d].len() > 0
            &&& after[d].last() == app
            &&& forall|i: int| 0 <= i < after[d].len() - 1 ==> (#[trigger] after[d][i]).process.id != app.process.id
            &&& forall|k: Seq<char>| k != d ==> (#[trigger] after.dom().contains(k) <==> apps.dom().contains(k))
            &&& forall|k: Seq<char>| k != d && apps.dom().contains(k) ==> #[trigger] after[k] == apps[k]
        }),
{
    let id = app.process.id;
    let d = device_of(ids, id)->0;
    let old_list = if apps.dom().contains(d) { apps[d] } else { Seq::<AudioApplication>::empty() };
    let kept = old_list.filter(app_lacks_id(id));
    let after = applications_after(apps, ids, Response::Application(app));
    assert(after[d] == kept.push(app));
    assert forall|i: int| 0 <= i < after[d].len() - 1 implies (#[trigger] after[d][i]).process.id != id by {
        old_list.lemma_filter_pred(app_lacks_id(id), i);
        assert(after[d][i] == kept[i]);
    }
}

/// Whether record `i` of `apps` is the first record of process `id`.
pub open spec fn is_first_record(apps: Seq<AudioApplication>, id: AppIdentifier, i: int) -> bool {
    &&& apps[i].process.id == id
    &&& forall|k: int| 0 <= k < i ==> (#[trigger] apps[k]).process.id != id
}

/// Some record that matches `p` has no matching record before it.
proof fn lemma_first_match_exists<A>(s: Seq<A>, p: spec_fn(A) -> bool, i: int)
    requires
        0 <= i < s.len(),
        p(s[i]),
    ensures
        exists|m: int| 0 <= m <= i && p(s[m]) && forall|k: int| 0 <= k < m ==> !p(#[trigger] s[k]),
    decreases i,
{
    if exists|k: int| 0 <= k < i && p(#[trigger] s[k]) {
        let k = choose|k: int| 0 <= k < i && p(#[trigger] s[k]);
        lemma_first_match_exists(s, p, k);
    } else {
        assert(forall|k: int| 0 <= k < i ==> !p(#[trigger] s[k]));
    }
}

/// A volume reply for an application reaches exactly one record: under the
/// device the application is filed under, the first record of that process
/// takes the new volume and keeps everything else, every other record of
/// that device (those of other processes among them) is unchanged, the list
/// keeps its length, and the lists of the other devices are untouched.
pub proof fn app_volume_reply_sets_only_that_record(
    apps: Map<Seq<char>, Seq<AudioApplication>>,
    ids: Map<Seq<char>, Seq<AppIdentifier>>,
    a: AppIdentifier,
    volume: AudioVolume,
)
    ensures
        ({
            let d = filing_device(ids, a);
            let after = applications_after(apps, ids, Response::Volume { id: Identifier::App(a), volume });
            &&& after.dom() == apps.dom()
            &&& forall|k: Seq<char>| k != d && #[trigger] apps.dom().contains(k) ==> after[k] == apps[k]
            &&& apps.dom().contains(d) ==> {
                &&& after[d].len() == apps[d].len()
                &&& forall|i: int| 0 <= i < apps[d].len() ==> (#[trigger] after[d][i]) == (if is_first_record(apps[d], a, i) {
                    AudioApplication { volume: volume, ..apps[d][i] }
                } else {
                    apps[d][i]
                })
                &&& forall|i: int| 0 <= i < apps[d].len() && apps[d][i].process.id != a ==> #[trigger] after[d][i] == apps[d][i]
            }
        }),
{
    let d = filing_device(ids, a);
    let after = applications_after(apps, ids, Response::Volume { id: Identifier::App(a), volume });
    if apps.dom().contains(d) {
        let l = apps[d];
        let p = app_has_id(a);
        assert(after[d] == with_app_volume(l, a, volume));
        if exists|i: int| 0 <= i < l.len() && #[trigger] p(l[i]) {
            let i0 = choose|i: int| 0 <= i < l.len() && #[trigger] p(l[i]);
            lemma_first_match_exists(l, p, i0);
            let m = choose|m: int| 0 <= m <= i0 && p(l[m]) && forall|k: int| 0 <= k < m ==> !p(#[trigger] l[k]);
            lemma_first_index_at(l, p, m);
            assert forall|i: int| 0 <= i < l.len() implies (#[trigger] after[d][i]) == (if is_first_record(l, a, i) {
                AudioApplication { volume: volume, ..l[i] }
            } else {
                l[i]
            }) by {
                if is_first_record(l, a, i) && i != m {
                    if i < m {
                        assert(!p(l[i]));
                    } else {
                        assert(l[m].process.id != a);
                    }
                }
                if i == m {
                    assert(is_first_record(l, a, i)) by {
                        assert forall|k: int| 0 <= k < i implies (#[trigger] l[k]).process.id != a by {
                            assert(!p(l[k]));
                        }
                    }
                }
            }
        } else {
            lemma_first_index_none(l, p);
            assert forall|i: int| 0 <= i < l.len() implies (#[trigger] after[d][i]) == (if is_first_record(l, a, i) {
                AudioApplication { volume: volume, ..l[i] }
            } else {
                l[i]
            }) by {
                assert(!p(l[i]));
            }
        }
    }
    assert(after.dom() =~= apps.dom());
}

/// Whether `k` comes before every other device that lists `app`.
pub open spec fn least_listing(ids: Map<Seq<char>, Seq<AppIdentifier>>, app: AppIdentifier, k: Seq<char>) -> bool {
    &&& lists_app(ids, k, app)
    &&& forall|k2: Seq<char>| #[trigger] lists_app(ids, k2, app) ==> k2 == k || key_lt(k, k2)
}

/// Among the finitely many devices of `ids`, one that lists `app` comes
/// before all others that do, whenever some device lists it.
proof fn lemma_least_listing_exists(ids: Map<Seq<char>, Seq<AppIdentifier>>, app: AppIdentifier, candidates: Set<Seq<char>>)
    requires
        candidates.finite(),
        candidates.len() > 0,
        forall|k: Seq<char>| #[trigger] candidates.contains(k) ==> lists_app(ids, k, app),
    ensures
        exists|k: Seq<char>| candidates.contains(k) && forall|k2: Seq<char>|
            #[trigger] candidates.contains(k2) ==> k2 == k || key_lt(k, k2),
    decreases candidates.len(),
{
    let x = candidates.choose();
    let rest = candidates.remove(x);
    if rest.len() == 0 {
        assert forall|k2: Seq<char>| #[trigger] candidates.contains(k2) implies k2 == x || key_lt(x, k2) by {
            if k2 != x {
                assert(rest.contains(k2));
            }
        }
    } else {
        lemma_least_listing_exists(ids, app, rest);
        let m = choose|k: Seq<char>| rest.contains(k) && forall|k2: Seq<char>|
            #[trigger] rest.contains(k2) ==> k2 == k || key_lt(k, k2);
        lemma_key_lt_total(x, m);
        if key_lt(x, m) {
            assert forall|k2: Seq<char>| #[trigger] candidates.contains(k2) implies k2 == x || key_lt(x, k2) by {
                if k2 != x {
                    assert(rest.contains(k2));
                    if k2 != m {
                        lemma_bytes_lt_transitive(
                            vstd::utf8::encode_utf8(x), vstd::utf8::encode_utf8(m), vstd::utf8::encode_utf8(k2));
                    }
                }
            }
        } else {
            assert forall|k2: Seq<char>| #[trigger] candidates.contains(k2) implies k2 == m || key_lt(m, k2) by {
                if k2 != m && k2 != x {
                    assert(rest.contains(k2));
                }
            }
        }
    }
}

/// An application that a device's list names is found afterwards: the
/// device reported for it is that device, or one whose id comes before it in
/// string order that lists it too.
pub proof fn listed_application_is_found(
    ids: Map<Seq<char>, Seq<AppIdentifier>>,
    device_id: DeviceIdentifier,
    listed: Vec<AppIdentifier>,
    app: AppIdentifier,
)
    requires
        ids.dom().finite(),
        listed@.contains(app),
    ensures
        ({
            let after = application_ids_after(ids, Response::ApplicationList { device_id, apps: listed });
            match device_of(after, app) {
                Some(k) => lists_app(after, k, app) && (k == device_id@ || key_lt(k, device_id@)),
                None => false,
            }
        }),
{
    let after = ids.insert(device_id@, listed@);
    assert(lists_app(after, device_id@, app));
    let candidates = after.dom().filter(|k: Seq<char>| lists_app(after, k, app));
    assert(after.dom() =~= ids.dom().insert(device_id@));
    assert(candidates.contains(device_id@));
    lemma_least_listing_exists(after, app, candidates);
    let m = choose|k: Seq<char>| candidates.contains(k) && forall|k2: Seq<char>|
        #[trigger] candidates.contains(k2) ==> k2 == k || key_lt(k, k2);
    assert(least_listing(after, app, m)) by {
        assert forall|k2: Seq<char>| #[trigger] lists_app(after, k2, app) implies k2 == m || key_lt(m, k2) by {
            assert(candidates.contains(k2));
        }
    }
    let c = device_of(after, app)->0;
    assert(least_listing(after, app, c));
    assert(candidates.contains(device_id@));
}

/// A change to one application record.
pub enum ApplicationEdit {
    Volume(AudioVolume),
    Path(String),
}

pub open spec fn edit_applied(apps: Seq<AudioApplication>, id: AppIdentifier, edit: ApplicationEdit) -> Seq<AudioApplication> {
    match edit {
        ApplicationEdit::Volume(v) => with_app_volume(apps, id, v),
        ApplicationEdit::Path(p) => with_app_path(apps, id, p),
    }
}

/// The per-key views of a table of vectors.
pub open spec fn vec_map_view<A>(l: KeyedList<Vec<A>>) -> Map<Seq<char>, Seq<A>> {
    l.spec_map().map_values(|v: Vec<A>| v@)
}

/// Applies the host's `response` to the three tables.
fn apply_response(
    devices: &mut Vec<AudioDevice>,
    applications: &mut KeyedList<Vec<AudioApplication>>,
    application_ids: &mut KeyedList<Vec<AppIdentifier>>,
    response: Response,
)
    requires
        old(applications).wf(),
        old(application_ids).wf(),
    ensures
        final(applications).wf(),
        final(application_ids).wf(),
        final(devices)@ == devices_after(old(devices)@, response),
        vec_map_view(*final(applications)) == applications_after(
            vec_map_view(*old(applications)),
            vec_map_view(*old(application_ids)),
            response,
        ),
        vec_map_view(*final(application_ids)) == application_ids_after(
            vec_map_view(*old(application_ids)),
            response,
        ),
{
    let ghost old_apps = vec_map_view(*applications);
    let ghost old_ids = vec_map_view(*application_ids);
    let ghost resp = response;
    match response {
        Response::Volume { id, volume } => match id {
            Identifier::App(app_id) => {
                let device_id = match device_for(application_ids, app_id) {
                    Some(d) => d,
                    None => String::new(),
                };
                update_application(applications, &device_id, app_id, ApplicationEdit::Volume(volume));
            },
            Identifier::Device(device_id) => {
                set_device_volume(devices, &device_id, volume);
            },
        },
        Response::ApplicationList { device_id, apps } => {
            let ghost k = device_id@;
            let ghost v = apps@;
            let _ = application_ids.remove(&device_id);
            let _ = application_ids.insert(device_id, apps);
            assert(vec_map_view(*application_ids) =~= old_ids.insert(k, v));
        },
        Response::Application(application) => {
            let app_id = application.process.id;
            match device_for(application_ids, app_id) {
                Some(device_id) => {
                    let old_list = match applications.remove(&device_id) {
                        Some(l) => l,
                        None => Vec::new(),
                    };
                    let new_list = replace_application(old_list, application);
                    let _ = applications.insert(device_id, new_list);
                    assert(vec_map_view(*applications) =~= applications_after(old_apps, old_ids, resp));
                },
                None => {},
            }
        },
        Response::Icon { app_id, data } => {
            let device_id = match device_for(application_ids, app_id) {
                Some(d) => d,
                None => String::new(),
            };
            update_application(applications, &device_id, app_id, ApplicationEdit::Path(data));
        },
        Response::DeviceList(device_list) => {
            *devices = device_list;
        },
        Response::Error { .. } => {},
    }
}

/// Applies `edit` to the first application of process `app_id` stored under
/// `device_id`, if the device and the application are there.
fn update_application(
    applications: &mut KeyedList<Vec<AudioApplication>>,
    device_id: &String,
    app_id: AppIdentifier,
    edit: ApplicationEdit,
)
    requires
        old(applications).wf(),
    ensures
        final(applications).wf(),
        vec_map_view(*final(applications)) == (if vec_map_view(*old(applications)).dom().contains(device_id@) {
            vec_map_view(*old(applications)).insert(
                device_id@,
                edit_applied(vec_map_view(*old(applications))[device_id@], app_id, edit),
            )
        } else {
            vec_map_view(*old(applications))
        }),
{
    let ghost old_apps = vec_map_view(*applications);
    match applications.remove(device_id) {
        Some(mut list) => {
            match edit {
                ApplicationEdit::Volume(volume) => set_app_volume(&mut list, app_id, volume),
                ApplicationEdit::Path(path) => set_app_path(&mut list, app_id, path),
            }
            let ghost nl = list@;
            let _ = applications.insert(device_id.clone(), list);
            assert(vec_map_view(*applications) =~= old_apps.insert(device_id@, nl));
        },
        None => {
            assert(vec_map_view(*applications) =~= old_apps);
        },
    }
}

/// The index of the first application of process `id` in `list`.
fn find_app(list: &Vec<AudioApplication>, id: AppIdentifier) -> (r: Option<usize>)
    ensures
        match r {
            Some(i) => i < list@.len() && i == first_index(list@, app_has_id(id)),
            None => first_index(list@, app_has_id(id)) == -1,
        },
{
    let mut i: usize = 0;
    while i < list.len()
        invariant
            i <= list@.len(),
            forall|j: int| 0 <= j < i ==> !app_has_id(id)(#[trigger] list@[j]),
        decreases list@.len() - i,
    {
        if list[i].process.id == id {
            proof {
                lemma_first_index_at(list@, app_has_id(id), i as int);
            }
            return Some(i);
        }
        i = i + 1;
    }
    proof {
        lemma_first_index_none(list@, app_has_id(id));
    }
    None
}

fn set_app_volume(list: &mut Vec<AudioApplication>, id: AppIdentifier, volume: AudioVolume)
    ensures
        final(list)@ == with_app_volume(old(list)@, id, volume),
{
    match find_app(list, id) {
        Some(i) => {
            let mut app = list.remove(i);
            app.volume = volume;
            list.insert(i, app);
            assert(list@ =~= with_app_volume(old(list)@, id, volume));
        },
        None => {},
    }
}

fn set_app_path(list: &mut Vec<AudioApplication>, id: AppIdentifier, path: String)
    ensures
        final(list)@ == with_app_path(old(list)@, id, path),
{
    match find_app(list, id) {
        Some(i) => {
            let mut app = list.remove(i);
            app.process.path = Some(path);
            list.insert(i, app);
            assert(list@ =~= with_app_path(old(list)@, id, path));
        },
        None => {},
    }
}

fn set_device_volume(devices: &mut Vec<AudioDevice>, id: &String, volume: AudioVolume)
    ensures
        final(devices)@ == with_device_volume(old(devices)@, id@, volume),
{
    let mut i: usize = 0;
    while i < devices.len()
        invariant
            i <= devices@.len(),
            devices@ == old(devices)@,
            forall|j: int| 0 <= j < i ==> !device_has_id(id@)(#[trigger] devices@[j]),
        decreases devices@.len() - i,
    {
        if devices[i].id == *id {
            proof {
                lemma_first_index_at(devices@, device_has_id(id@), i as int);
            }
            let mut d = devices.remove(i);
            d.volume = volume;
            devices.insert(i, d);
            assert(devices@ =~= with_device_volume(old(devices)@, id@, volume));
            return;
        }
        i = i + 1;
    }
    proof {
        lemma_first_index_none(devices@, device_has_id(id@));
    }
}

/// `list` without the records of `application`'s process, followed by `application`.
fn replace_application(list: Vec<AudioApplication>, application: AudioApplication) -> (r: Vec<AudioApplication>)
    ensures
        r@ == list@.filter(app_lacks_id(application.process.id)).push(application),
{
    let id = application.process.id;
    let ghost orig = list@;
    let mut rest = list;
    let mut kept: Vec<AudioApplication> = Vec::new();
    let mut k: usize = 0;
    let _ = rest.len();
    reveal(Seq::filter);
    assert(orig.take(0).filter(app_lacks_id(id)) =~= Seq::<AudioApplication>::empty());
    while rest.len() > 0
        invariant
            k <= orig.len(),
            k + rest@.len() == orig.len(),
            orig.len() <= usize::MAX,
            rest@ == orig.skip(k as int),
            kept@ == orig.take(k as int).filter(app_lacks_id(id)),
        decreases rest@.len(),
    {
        let e = rest.remove(0);
        proof {
            reveal(Seq::filter);
            let t = orig.take(k + 1);
            assert(t.drop_last() =~= orig.take(k as int));
            assert(t.last() == e);
            assert(t.len() > 0);
            assert(t.filter(app_lacks_id(id)) == (if app_lacks_id(id)(t.last()) {
                t.drop_last().filter(app_lacks_id(id)).push(t.last())
            } else {
                t.drop_last().filter(app_lacks_id(id))
            }));
            assert(orig.take(k + 1).filter(app_lacks_id(id)) == (if app_lacks_id(id)(e) {
                orig.take(k as int).filter(app_lacks_id(id)).push(e)
            } else {
                orig.take(k as int).filter(app_lacks_id(id))
            }));
        }
        if e.process.id != id {
            kept.push(e);
        }
        k = k + 1;
        assert(rest@ =~= orig.skip(k as int));
    }
    assert(orig.take(k as int) =~= orig);
    kept.push(application);
    kept
}

/// Whether `list` holds `id`.
fn contains_id(list: &Vec<AppIdentifier>, id: AppIdentifier) -> (r: bool)
    ensures
        r == list@.contains(id),
{
    let mut i: usize = 0;
    while i < list.len()
        invariant
            i <= list@.len(),
            forall|j: int| 0 <= j < i ==> list@[j] != id,
        decreases list@.len() - i,
    {
        if list[i] == id {
            return true;
        }
        i = i + 1;
    }
    false
}

} // verus!
