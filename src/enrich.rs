use vstd::prelude::*;
use crate::monument::{Monument, Coordinate};
use crate::flickr::{Photo, PhotoInfo, FindByLatLonError, image_url, image_address};
use crate::domain::{Picture, PictureView, LicenseIndex, License, license_map, lemma_license_map_source};
use crate::store::InsertOutcome;

verus! {

/// What the enrichment reads of a monument.
pub struct Target {
    pub id: String,
    pub site: Option<String>,
    pub latitude: Option<Coordinate>,
    pub longitude: Option<Coordinate>,
}

pub open spec fn target_of(m: Monument) -> Target {
    Target { id: m.id, site: m.site, latitude: m.latitude, longitude: m.longitude }
}

fn copy_text(o: &Option<String>) -> (r: Option<String>)
    ensures
        r == *o,
{
    match o {
        Some(s) => Some(s.clone()),
        None => None,
    }
}

fn copy_coordinate(o: &Option<Coordinate>) -> (r: Option<Coordinate>)
    ensures
        r == *o,
{
    match o {
        Some(c) => Some(c.copy()),
        None => None,
    }
}

fn target(m: &Monument) -> (t: Target)
    ensures
        t == target_of(*m),
{
    Target {
        id: m.id.clone(),
        site: copy_text(&m.site),
        latitude: copy_coordinate(&m.latitude),
        longitude: copy_coordinate(&m.longitude),
    }
}

/// What the enrichment waits for.
#[derive(Clone, Copy, Debug, PartialEq, Eq, Structural)]
pub enum Phase {
    /// The place at the monument's coordinates.
    AwaitPlace,
    /// The photos found for the monument.
    AwaitPhotos,
    /// Whether the current photo is stored already.
    AwaitStored,
    /// The details of the current photo.
    AwaitInfo,
    /// The outcome of storing the current photo's picture.
    AwaitSave,
    /// Nothing: every monument is done.
    Finished,
    /// Nothing: the enrichment failed.
    Failed,
}

/// Why the enrichment stopped.
pub enum EnrichError {
    /// The place lookup failed (other than by finding no place).
    Place(String),
    /// Both photo searches failed.
    Search(String),
    /// The details of a photo could not be had.
    PhotoInfo(String),
    /// A photo's license is not among the stored licenses.
    UnknownLicense(i32),
    /// Storing a picture failed (other than by a uniqueness conflict).
    Storage(String),
    /// An event came that the enrichment was not waiting for.
    UnexpectedEvent,
}

/// The outcome of the outside work that an action asked for.
pub enum Event {
    /// The outcome of `FindPlace`.
    Place(Result<String, FindByLatLonError>),
    /// The outcome of `SearchPhotos`.
    Photos(Result<Vec<Photo>, String>),
    /// The answer to `CheckStored`.
    Stored(bool),
    /// The outcome of `FetchInfo`.
    Info(Result<PhotoInfo, String>),
    /// The outcome of `Store`.
    Saved(Result<InsertOutcome, String>),
}

/// The outside work that the enrichment asks for next.
pub enum Action {
    /// Look up the place at the coordinates.
    FindPlace { latitude: Coordinate, longitude: Coordinate },
    /// Search photos of the site, within the place if there is one.
    SearchPhotos { text: String, place_id: Option<String> },
    /// Tell whether a picture of the photo is stored.
    CheckStored { photo_id: String },
    /// Fetch the details of the photo.
    FetchInfo { photo_id: String },
    /// Store the picture.
    Store { picture: Picture },
    /// Nothing more: every monument is done.
    Finished,
    /// Nothing more: the enrichment failed.
    Failed { error: EnrichError },
}

/// An action in the terms of the contracts: a picture is seen apart from
/// its storage id and timestamps.
pub enum ActionView {
    FindPlace(Coordinate, Coordinate),
    SearchPhotos(String, Option<String>),
    CheckStored(String),
    FetchInfo(String),
    Store(PictureView),
    Finished,
    Failed(EnrichError),
}

pub open spec fn action_view(a: Action) -> ActionView {
    match a {
        Action::FindPlace { latitude, longitude } => ActionView::FindPlace(latitude, longitude),
        Action::SearchPhotos { text, place_id } => ActionView::SearchPhotos(text, place_id),
        Action::CheckStored { photo_id } => ActionView::CheckStored(photo_id),
        Action::FetchInfo { photo_id } => ActionView::FetchInfo(photo_id),
        Action::Store { picture } => ActionView::Store(picture@),
        Action::Finished => ActionView::Finished,
        Action::Failed { error } => ActionView::Failed(error),
    }
}

/// The state of the enrichment: the monuments, the license index, the
/// current monument and what is waited for, the place found for it, its
/// photos and the current photo.
pub struct SyncState {
    pub targets: Seq<Target>,
    pub licenses: Map<int, Seq<char>>,
    pub current: int,
    pub phase: Phase,
    pub place_id: Option<String>,
    pub photos: Seq<Photo>,
    pub next_photo: int,
}

/// Starts on the monument `m`: look up its place when it has both
/// coordinates, else search its photos when it has a name; a monument with
/// neither is passed over. Past the last monument the enrichment is done.
pub open spec fn begin(s: SyncState, m: int) -> (SyncState, ActionView)
    decreases s.targets.len() - m,
{
    if m < 0 || m >= s.targets.len() {
        (SyncState { current: m, phase: Phase::Finished, ..s }, ActionView::Finished)
    } else {
        let t = s.targets[m];
        if t.latitude is Some && t.longitude is Some {
            (
                SyncState { current: m, phase: Phase::AwaitPlace, place_id: None, ..s },
                ActionView::FindPlace(t.latitude->0, t.longitude->0),
            )
        } else if t.site is Some {
            (
                SyncState { current: m, phase: Phase::AwaitPhotos, place_id: None, ..s },
                ActionView::SearchPhotos(t.site->0, None),
            )
        } else {
            begin(s, m + 1)
        }
    }
}

/// Searches photos of the current monument within the place `place_id`,
/// or passes on to the next monument when it has no name.
pub open spec fn search_at(s: SyncState, place_id: Option<String>) -> (SyncState, ActionView) {
    let t = s.targets[s.current];
    if t.site is Some {
        (
            SyncState { phase: Phase::AwaitPhotos, place_id, ..s },
            ActionView::SearchPhotos(t.site->0, place_id),
        )
    } else {
        begin(s, s.current + 1)
    }
}

/// Turns to the photo `p` of the current monument, or to the next monument
/// after the last photo.
pub open spec fn photo_at(s: SyncState, p: int) -> (SyncState, ActionView) {
    if 0 <= p < s.photos.len() {
        (
            SyncState { phase: Phase::AwaitStored, next_photo: p, ..s },
            ActionView::CheckStored(s.photos[p].id),
        )
    } else {
        begin(s, s.current + 1)
    }
}

pub open spec fn fail(s: SyncState, e: EnrichError) -> (SyncState, ActionView) {
    (SyncState { phase: Phase::Failed, ..s }, ActionView::Failed(e))
}

/// The picture of the current photo, from its details, if its license is
/// known.
pub open spec fn picture_of(s: SyncState, info: PhotoInfo) -> PictureView {
    let photo = s.photos[s.next_photo];
    PictureView {
        flickr_id: info.id@,
        monument_id: s.targets[s.current].id@,
        license_id: s.licenses[info.license as int],
        author: info.owner.username@,
        url: image_url(photo.farm as int, photo.server@, photo.id@, info.originalsecret@),
    }
}

/// One move of the enrichment: the next state and the next action, given
/// the outcome of the last action.
pub open spec fn next(s: SyncState, e: Event) -> (SyncState, ActionView) {
    match (s.phase, e) {
        (Phase::AwaitPlace, Event::Place(r)) => match r {
            Ok(pid) => search_at(s, Some(pid)),
            Err(FindByLatLonError::NoMatchingPlace) => search_at(s, None),
            Err(FindByLatLonError::RequestError(m)) => fail(s, EnrichError::Place(m)),
        },
        (Phase::AwaitPhotos, Event::Photos(r)) => match r {
            Ok(ps) => photo_at(SyncState { photos: ps@, ..s }, 0),
            Err(m) => fail(s, EnrichError::Search(m)),
        },
        (Phase::AwaitStored, Event::Stored(stored)) => {
            if stored {
                photo_at(s, s.next_photo + 1)
            } else {
                (
                    SyncState { phase: Phase::AwaitInfo, ..s },
                    ActionView::FetchInfo(s.photos[s.next_photo].id),
                )
            }
        },
        (Phase::AwaitInfo, Event::Info(r)) => match r {
            Ok(info) => {
                if s.licenses.contains_key(info.license as int) {
                    (SyncState { phase: Phase::AwaitSave, ..s }, ActionView::Store(picture_of(s, info)))
                } else {
                    fail(s, EnrichError::UnknownLicense(info.license))
                }
            },
            Err(m) => fail(s, EnrichError::PhotoInfo(m)),
        },
        (Phase::AwaitSave, Event::Saved(r)) => match r {
            Ok(_) => photo_at(s, s.next_photo + 1),
            Err(m) => fail(s, EnrichError::Storage(m)),
        },
        _ => fail(s, EnrichError::UnexpectedEvent),
    }
}

/// The enrichment of monuments with pictures of their photos. Each action
/// names outside work; its outcome, handed to `step`, decides the next.
pub struct PictureSync {
    targets: Vec<Target>,
    licenses: LicenseIndex,
    current: usize,
    phase: Phase,
    place_id: Option<String>,
    photos: Vec<Photo>,
    next_photo: usize,
}

impl View for PictureSync {
    type V = SyncState;

    closed spec fn view(&self) -> SyncState {
        SyncState {
            targets: self.targets@,
            licenses: self.licenses@,
            current: self.current as int,
            phase: self.phase,
            place_id: self.place_id,
            photos: self.photos@,
            next_photo: self.next_photo as int,
        }
    }
}

/// The state from which the enrichment of `targets` starts.
pub open spec fn initial(targets: Seq<Target>, licenses: Map<int, Seq<char>>) -> SyncState {
    SyncState {
        targets,
        licenses,
        current: 0,
        phase: Phase::Finished,
        place_id: None,
        photos: Seq::empty(),
        next_photo: 0,
    }
}

/// Whether the enrichment has work for the monument: a place to look up
/// or a name to search.
fn has_work(t: &Target) -> (r: bool)
    ensures
        r == ((t.latitude is Some && t.longitude is Some) || t.site is Some),
{
    (t.latitude.is_some() && t.longitude.is_some()) || t.site.is_some()
}

impl PictureSync {
    #[verifier::type_invariant]
    spec fn well_formed(&self) -> bool {
        &&& self.current <= self.targets.len()
        &&& (self.phase == Phase::AwaitPlace || self.phase == Phase::AwaitPhotos || self.phase == Phase::AwaitStored
            || self.phase == Phase::AwaitInfo || self.phase == Phase::AwaitSave) ==> self.current < self.targets.len()
        &&& (self.phase == Phase::AwaitStored || self.phase == Phase::AwaitInfo || self.phase == Phase::AwaitSave)
            ==> self.next_photo < self.photos.len()
    }

    /// Starts the enrichment of `monuments`, with the stored licenses
    /// indexed by `licenses`; returns it with its first action.
    pub fn start(monuments: &Vec<Monument>, licenses: LicenseIndex) -> (r: (PictureSync, Action))
        ensures
            (r.0@, action_view(r.1)) == begin(
                initial(monuments@.map_values(|m: Monument| target_of(m)), licenses@),
                0,
            ),
    {
        let mut targets: Vec<Target> = Vec::new();
        let mut i: usize = 0;
        while i < monuments.len()
            invariant
                i <= monuments@.len(),
                targets@ == monuments@.take(i as int).map_values(|m: Monument| target_of(m)),
            decreases monuments.len() - i,
        {
            targets.push(target(&monuments[i]));
            assert(monuments@.take(i + 1) == monuments@.take(i as int).push(monuments@[i as int]));
            i = i + 1;
        }
        assert(monuments@.take(i as int) == monuments@);
        let mut sync = PictureSync {
            targets,
            licenses,
            current: 0,
            phase: Phase::Finished,
            place_id: None,
            photos: Vec::new(),
            next_photo: 0,
        };
        let a = sync.begin_at(0);
        (sync, a)
    }

    fn begin_at(&mut self, m: usize) -> (a: Action)
        requires
            m <= old(self).targets@.len(),
        ensures
            (final(self)@, action_view(a)) == begin(old(self)@, m as int),
    {
        proof {
            use_type_invariant(&*self);
        }
        let ghost s0 = self@;
        let n = self.targets.len();
        let mut k = m;
        while k < n && !has_work(&self.targets[k])
            invariant
                n == self.targets@.len(),
                m <= k <= n,
                self@ == s0,
                begin(s0, m as int) == begin(s0, k as int),
            decreases n - k,
        {
            k = k + 1;
        }
        if k == n {
            self.phase = Phase::Finished;
            self.current = n;
            return Action::Finished;
        }
        let a = match (&self.targets[k].latitude, &self.targets[k].longitude) {
            (Some(lat), Some(lon)) => Action::FindPlace { latitude: lat.copy(), longitude: lon.copy() },
            _ => match &self.targets[k].site {
                Some(site) => Action::SearchPhotos { text: site.clone(), place_id: None },
                None => Action::Finished,
            },
        };
        self.current = k;
        self.place_id = None;
        match a {
            Action::FindPlace { .. } => {
                self.phase = Phase::AwaitPlace;
            },
            _ => {
                self.phase = Phase::AwaitPhotos;
            },
        }
        a
    }

    fn search_at(&mut self, place_id: Option<String>) -> (a: Action)
        requires
            old(self).current < old(self).targets@.len(),
        ensures
            (final(self)@, action_view(a)) == search_at(old(self)@, place_id),
    {
        proof {
            use_type_invariant(&*self);
        }
        let c = self.current;
        match &self.targets[c].site {
            Some(site) => {
                let a = Action::SearchPhotos { text: site.clone(), place_id: copy_text(&place_id) };
                self.phase = Phase::AwaitPhotos;
                self.place_id = place_id;
                a
            },
            None => self.begin_at(c + 1),
        }
    }

    fn photo_at(&mut self, p: usize) -> (a: Action)
        requires
            old(self).current < old(self).targets@.len(),
        ensures
            (final(self)@, action_view(a)) == photo_at(old(self)@, p as int),
    {
        proof {
            use_type_invariant(&*self);
        }
        if p < self.photos.len() {
            let a = Action::CheckStored { photo_id: self.photos[p].id.clone() };
            self.next_photo = p;
            self.phase = Phase::AwaitStored;
            a
        } else {
            let c = self.current;
            self.begin_at(c + 1)
        }
    }

    fn fail(&mut self, error: EnrichError) -> (a: Action)
        ensures
            (final(self)@, action_view(a)) == fail(old(self)@, error),
    {
        proof {
            use_type_invariant(&*self);
        }
        self.phase = Phase::Failed;
        Action::Failed { error }
    }

    /// Takes the outcome of the last action; returns the next action.
    pub fn step(&mut self, e: Event) -> (a: Action)
        ensures
            (final(self)@, action_view(a)) == next(old(self)@, e),
    {
        proof {
            use_type_invariant(&*self);
        }
        let ghost s = self@;
        match (self.phase, e) {
            (Phase::AwaitPlace, Event::Place(r)) => match r {
                Ok(pid) => self.search_at(Some(pid)),
                Err(FindByLatLonError::NoMatchingPlace) => self.search_at(None),
                Err(FindByLatLonError::RequestError(m)) => self.fail(EnrichError::Place(m)),
            },
            (Phase::AwaitPhotos, Event::Photos(r)) => match r {
                Ok(ps) => {
                    self.photos = ps;
                    self.photo_at(0)
                },
                Err(m) => self.fail(EnrichError::Search(m)),
            },
            (Phase::AwaitStored, Event::Stored(stored)) => {
                if stored {
                    let p = self.next_photo;
                    self.photo_at(p + 1)
                } else {
                    let a = Action::FetchInfo { photo_id: self.photos[self.next_photo].id.clone() };
                    self.phase = Phase::AwaitInfo;
                    a
                }
            },
            (Phase::AwaitInfo, Event::Info(r)) => match r {
                Ok(info) => match self.licenses.get(info.license) {
                    Some(license_id) => {
                        let photo = &self.photos[self.next_photo];
                        let url = image_address(photo.farm, photo.server.as_str(), photo.id.as_str(), info.originalsecret.as_str());
                        let monument_id = self.targets[self.current].id.clone();
                        let ghost i = info;
                        let picture = Picture::new(info.id, monument_id, license_id, info.owner.username, url);
                        self.phase = Phase::AwaitSave;
                        assert(picture@ == picture_of(s, i));
                        Action::Store { picture }
                    },
                    None => self.fail(EnrichError::UnknownLicense(info.license)),
                },
                Err(m) => self.fail(EnrichError::PhotoInfo(m)),
            },
            (Phase::AwaitSave, Event::Saved(r)) => match r {
                Ok(_) => {
                    let p = self.next_photo;
                    self.photo_at(p + 1)
                },
                Err(m) => self.fail(EnrichError::Storage(m)),
            },
            _ => self.fail(EnrichError::UnexpectedEvent),
        }
    }
}

/// The actions of the enrichment from the state `s` on, given the outcomes
/// `events` of the actions, one outcome per action.
pub open spec fn run(s: SyncState, events: Seq<Event>) -> Seq<ActionView>
    decreases events.len(),
{
    if events.len() == 0 {
        Seq::empty()
    } else {
        let (t, a) = next(s, events[0]);
        seq![a] + run(t, events.drop_first())
    }
}

proof fn lemma_run_len(s: SyncState, events: Seq<Event>)
    ensures
        run(s, events).len() == events.len(),
    decreases events.len(),
{
    if events.len() > 0 {
        lemma_run_len(next(s, events[0]).0, events.drop_first());
    }
}

/// Whether the enrichment is in the middle of storing a picture.
pub open spec fn storing(s: SyncState) -> bool {
    s.phase == Phase::AwaitInfo || s.phase == Phase::AwaitSave
}

proof fn lemma_begin_stores_nothing(s: SyncState, m: int)
    ensures
        !storing(begin(s, m).0),
        !(begin(s, m).1 is Store),
        begin(s, m).0.licenses == s.licenses,
    decreases s.targets.len() - m,
{
    if 0 <= m < s.targets.len() {
        lemma_begin_stores_nothing(s, m + 1);
    }
}

proof fn lemma_step_basics(s: SyncState, e: Event)
    ensures
        next(s, e).0.licenses == s.licenses,
        next(s, e).1 matches ActionView::Store(p) ==> {
            &&& e matches Event::Info(Ok(info))
            &&& s.licenses.contains_key(info.license as int)
            &&& p.license_id == s.licenses[info.license as int]
        },
        !storing(s) && (e matches Event::Stored(b) ==> b) ==> !storing(next(s, e).0) && !(next(s, e).1 is Store),
{
    lemma_begin_stores_nothing(s, s.current + 1);
    match e {
        Event::Photos(Ok(ps)) => {
            lemma_begin_stores_nothing(SyncState { photos: ps@, ..s }, s.current + 1);
        },
        _ => {},
    }
}

/// The enrichment starts afresh outside the storing of a picture, with the
/// license index that it was given.
pub proof fn lemma_start_not_storing(targets: Seq<Target>, licenses: Map<int, Seq<char>>)
    ensures
        !storing(begin(initial(targets, licenses), 0).0),
        !(begin(initial(targets, licenses), 0).1 is Store),
        begin(initial(targets, licenses), 0).0.licenses == licenses,
{
    lemma_begin_stores_nothing(initial(targets, licenses), 0);
}

/// Photo dedup: when the store answers that each photo it is asked about is
/// stored already, the enrichment stores no picture, whatever the other
/// outcomes, from any state outside the storing of a picture (as the start
/// is).
pub proof fn lemma_known_photos_not_stored(s: SyncState, events: Seq<Event>)
    requires
        !storing(s),
        forall|i: int| 0 <= i < events.len() ==> (#[trigger] events[i] matches Event::Stored(b) ==> b),
    ensures
        forall|j: int| 0 <= j < run(s, events).len() ==> !(#[trigger] run(s, events)[j] is Store),
    decreases events.len(),
{
    if events.len() > 0 {
        let (t, a) = next(s, events[0]);
        lemma_step_basics(s, events[0]);
        let rest = events.drop_first();
        assert forall|i: int| 0 <= i < rest.len() implies (#[trigger] rest[i] matches Event::Stored(b) ==> b) by {
            assert(rest[i] == events[i + 1]);
        }
        lemma_known_photos_not_stored(t, rest);
        let out = run(s, events);
        assert forall|j: int| 0 <= j < out.len() implies !(#[trigger] out[j] is Store) by {
            if j > 0 {
                assert(out[j] == run(t, rest)[j - 1]);
            }
        }
    }
}

/// License mapping completeness: when the license index was built from the
/// stored licenses `rows`, each picture that the enrichment stores answers
/// a photo's details, and carries the storage id of a stored license whose
/// Flickr id is the license that the details report.
pub proof fn lemma_stored_license(s: SyncState, events: Seq<Event>, rows: Seq<License>)
    requires
        s.licenses == license_map(rows),
    ensures
        forall|j: int| 0 <= j < run(s, events).len() ==> (#[trigger] run(s, events)[j] matches ActionView::Store(p) ==> {
            &&& events[j] matches Event::Info(Ok(info))
            &&& exists|i: int| 0 <= i < rows.len() && rows[i].flickr_id == info.license
                && rows[i].id@ == p.license_id
        }),
    decreases events.len(),
{
    if events.len() > 0 {
        let (t, a) = next(s, events[0]);
        lemma_step_basics(s, events[0]);
        let rest = events.drop_first();
        lemma_stored_license(t, rest, rows);
        lemma_run_len(s, events);
        let out = run(s, events);
        assert forall|j: int| 0 <= j < out.len() implies (#[trigger] out[j] matches ActionView::Store(p) ==> {
            &&& events[j] matches Event::Info(Ok(info))
            &&& exists|i: int| 0 <= i < rows.len() && rows[i].flickr_id == info.license
                && rows[i].id@ == p.license_id
        }) by {
            if j > 0 {
                assert(out[j] == run(t, rest)[j - 1]);
                assert(events[j] == rest[j - 1]);
            } else if let ActionView::Store(p) = out[0] {
                if let Event::Info(Ok(info)) = events[0] {
                    lemma_license_map_source(rows, info.license as int);
                }
            }
        }
    }
}

} // verus!
