//! The profile store: one profile per organization, and the name of the
//! profile that is used when a command names none.

use crate::clock::Timestamp;
use crate::error::MoonenvError;
use vstd::prelude::*;

verus! {

/// The characters of an optional string.
pub open spec fn text(s: Option<String>) -> Option<Seq<char>> {
    match s {
        Some(t) => Some(t@),
        None => None,
    }
}

/// The characters of a string result; an error stands for itself.
pub open spec fn outcome(r: Result<String, MoonenvError>) -> Result<Seq<char>, MoonenvError> {
    match r {
        Ok(t) => Ok(t@),
        Err(e) => Err(e),
    }
}

/// A copy of an optional string.
pub fn clone_text(s: &Option<String>) -> (r: Option<String>)
    ensures
        text(r) == text(*s),
{
    match s {
        Some(t) => Some(t.clone()),
        None => None,
    }
}

/// What a profile says, with each string as its sequence of characters.
pub struct ProfileView {
    pub url: Option<Seq<char>>,
    pub org: Seq<char>,
    pub device_code: Option<Seq<char>>,
    pub access_token: Option<Seq<char>>,
    pub access_token_expires_at: Option<Timestamp>,
    pub refresh_token: Option<Seq<char>>,
    pub client_id: Option<Seq<char>>,
}

impl ProfileView {
    /// A stored access token comes with the instant at which it expires.
    pub open spec fn token_has_expiry(self) -> bool {
        self.access_token is Some ==> self.access_token_expires_at is Some
    }

    /// The profile after a login or a refresh handed out `token`, valid until `expires_at`.
    pub open spec fn with_token(self, token: Seq<char>, expires_at: Timestamp) -> ProfileView {
        ProfileView {
            access_token: Some(token),
            access_token_expires_at: Some(expires_at),
            ..self
        }
    }
}

/// The profile that a fresh store is seeded with.
pub open spec fn seed_profile() -> ProfileView {
    ProfileView {
        url: Some("www.moonenv.app"@),
        org: "moonenv"@,
        device_code: None,
        access_token: None,
        access_token_expires_at: None,
        refresh_token: None,
        client_id: None,
    }
}

/// The configuration of one organization.
#[derive(Debug, PartialEq, Eq)]
pub struct IndividualConfig {
    /// URL of the server API.
    pub url: Option<String>,
    /// The profile's name; the key by which the store finds it.
    pub org: String,
    /// The device code that the last login was issued; needed to refresh.
    pub device_code: Option<String>,
    /// The bearer token for the server's endpoints.
    pub access_token: Option<String>,
    /// The instant at which `access_token` expires.
    pub access_token_expires_at: Option<Timestamp>,
    /// The long-lived token that buys a new access token.
    pub refresh_token: Option<String>,
    /// The client ID registered with the OAuth server.
    pub client_id: Option<String>,
}

impl View for IndividualConfig {
    type V = ProfileView;

    open spec fn view(&self) -> ProfileView {
        ProfileView {
            url: text(self.url),
            org: self.org@,
            device_code: text(self.device_code),
            access_token: text(self.access_token),
            access_token_expires_at: self.access_token_expires_at,
            refresh_token: text(self.refresh_token),
            client_id: text(self.client_id),
        }
    }
}

impl Clone for IndividualConfig {
    fn clone(&self) -> (r: Self)
        ensures
            r@ == self@,
    {
        IndividualConfig {
            url: clone_text(&self.url),
            org: self.org.clone(),
            device_code: clone_text(&self.device_code),
            access_token: clone_text(&self.access_token),
            access_token_expires_at: self.access_token_expires_at,
            refresh_token: clone_text(&self.refresh_token),
            client_id: clone_text(&self.client_id),
        }
    }
}

impl Default for IndividualConfig {
    fn default() -> (r: Self)
        ensures
            r@ == seed_profile(),
    {
        IndividualConfig {
            url: Some("www.moonenv.app".to_owned()),
            org: "moonenv".to_owned(),
            device_code: None,
            access_token: None,
            access_token_expires_at: None,
            refresh_token: None,
            client_id: None,
        }
    }
}

/// What a store says: the default's name and the profiles in their order.
pub struct StoreView {
    pub default: Option<Seq<char>>,
    pub profiles: Seq<ProfileView>,
}

impl StoreView {
    /// Some profile is named `org`.
    pub open spec fn holds(self, org: Seq<char>) -> bool {
        exists|i: int| 0 <= i < self.profiles.len() && (#[trigger] self.profiles[i]).org == org
    }

    /// The profile at `i` is the first one named `org`.
    pub open spec fn is_first(self, org: Seq<char>, i: int) -> bool {
        &&& 0 <= i < self.profiles.len()
        &&& self.profiles[i].org == org
        &&& forall|j: int| 0 <= j < i ==> (#[trigger] self.profiles[j]).org != org
    }

    /// Where the first profile named `org` stands, if there is one.
    pub open spec fn position(self, org: Seq<char>) -> int {
        choose|i: int| self.is_first(org, i)
    }

    /// The first profile named `org`.
    pub open spec fn get(self, org: Seq<char>) -> Option<ProfileView> {
        if self.holds(org) {
            Some(self.profiles[self.position(org)])
        } else {
            None
        }
    }

    /// The store after `profile` was written: it takes the place of the first
    /// profile of its name, or goes to the end if there is none.
    pub open spec fn upsert(self, profile: ProfileView) -> StoreView {
        if self.holds(profile.org) {
            StoreView {
                default: self.default,
                profiles: self.profiles.update(self.position(profile.org), profile),
            }
        } else {
            StoreView { default: self.default, profiles: self.profiles.push(profile) }
        }
    }

    /// The store with `name` as its default.
    pub open spec fn with_default(self, name: Seq<char>) -> StoreView {
        StoreView { default: Some(name), profiles: self.profiles }
    }

    /// The organization that a command works on: the one it names, else the default.
    pub open spec fn resolve(self, explicit: Option<Seq<char>>) -> Result<Seq<char>, MoonenvError> {
        match explicit {
            Some(org) => Ok(org),
            None => match self.default {
                Some(org) => Ok(org),
                None => Err(MoonenvError::MissingOrg),
            },
        }
    }

    /// The profile named `org`, or why there is none.
    pub open spec fn profile_of(self, org: Seq<char>) -> Result<ProfileView, MoonenvError> {
        match self.get(org) {
            Some(p) => Ok(p),
            None => Err(MoonenvError::ProfileNotFound),
        }
    }

    /// The URL of the profile named `org`, or why there is none.
    pub open spec fn url_of(self, org: Seq<char>) -> Result<Seq<char>, MoonenvError> {
        match self.get(org) {
            None => Err(MoonenvError::ProfileNotFound),
            Some(p) => match p.url {
                Some(u) => Ok(u),
                None => Err(MoonenvError::UrlNotConfigured),
            },
        }
    }

    /// The client ID of the profile named `org`, or why there is none.
    pub open spec fn client_id_of(self, org: Seq<char>) -> Result<Seq<char>, MoonenvError> {
        match self.get(org) {
            None => Err(MoonenvError::ProfileNotFound),
            Some(p) => match p.client_id {
                Some(c) => Ok(c),
                None => Err(MoonenvError::ClientIdNotConfigured),
            },
        }
    }

    /// No two profiles share a name.
    pub open spec fn unique(self) -> bool {
        forall|i: int, j: int|
            0 <= i < j < self.profiles.len() ==> (#[trigger] self.profiles[i]).org != (
            #[trigger] self.profiles[j]).org
    }

    /// Every stored access token comes with the instant at which it expires.
    pub open spec fn tokens_have_expiry(self) -> bool {
        forall|i: int|
            0 <= i < self.profiles.len() ==> (#[trigger] self.profiles[i]).token_has_expiry()
    }

    /// The store is as it should be: names are distinct, and every access
    /// token comes with its instant of expiry.
    pub open spec fn wf(self) -> bool {
        self.unique() && self.tokens_have_expiry()
    }

    /// A first profile named `org` is the only first one, and `position` finds it.
    pub proof fn lemma_first(self, org: Seq<char>, i: int)
        requires
            self.is_first(org, i),
        ensures
            self.holds(org),
            self.position(org) == i,
            self.get(org) == Some(self.profiles[i]),
    {
        let p = self.position(org);
        assert(self.is_first(org, p));
        if p < i {
            assert(self.profiles[p].org != org);
        }
        if i < p {
            assert(self.profiles[i].org != org);
        }
    }

    /// Where a profile is named `org`, there is a first such profile.
    pub proof fn lemma_holds(self, org: Seq<char>)
        requires
            self.holds(org),
        ensures
            self.is_first(org, self.position(org)),
    {
        let k = choose|k: int|
            0 <= k < self.profiles.len() && (#[trigger] self.profiles[k]).org == org;
        self.lemma_first_at_or_before(org, k);
    }

    proof fn lemma_first_at_or_before(self, org: Seq<char>, k: int)
        requires
            0 <= k < self.profiles.len(),
            self.profiles[k].org == org,
        ensures
            exists|i: int| self.is_first(org, i),
        decreases k,
    {
        if exists|j: int| 0 <= j < k && (#[trigger] self.profiles[j]).org == org {
            let j = choose|j: int| 0 <= j < k && (#[trigger] self.profiles[j]).org == org;
            self.lemma_first_at_or_before(org, j);
        } else {
            assert(self.is_first(org, k));
        }
    }

    /// Where `profile` stands once it was written: in the place of the first
    /// profile of its name, else behind the last profile.
    pub open spec fn written_at(self, profile: ProfileView) -> int {
        if self.holds(profile.org) {
            self.position(profile.org)
        } else {
            self.profiles.len() as int
        }
    }

    /// Once written, `profile` is the first profile of its name, and it
    /// stands at `written_at`.
    pub proof fn lemma_upsert_is_first(self, profile: ProfileView)
        ensures
            self.upsert(profile).is_first(profile.org, self.written_at(profile)),
            self.upsert(profile).position(profile.org) == self.written_at(profile),
            self.upsert(profile).profiles[self.written_at(profile)] == profile,
            self.holds(profile.org) ==> self.is_first(profile.org, self.position(profile.org)),
    {
        let after = self.upsert(profile);
        let at = self.written_at(profile);
        if self.holds(profile.org) {
            self.lemma_holds(profile.org);
        }
        assert forall|j: int| 0 <= j < at implies (#[trigger] after.profiles[j]).org
            != profile.org by {
            assert(after.profiles[j] == self.profiles[j]);
        }
        after.lemma_first(profile.org, at);
    }
}

/// A profile that was written is the one that is read back under its name.
pub proof fn law_upsert_then_get(store: StoreView, profile: ProfileView)
    ensures
        store.upsert(profile).get(profile.org) == Some(profile),
{
    store.lemma_upsert_is_first(profile);
    store.upsert(profile).lemma_first(profile.org, store.written_at(profile));
}

/// Writing a profile whose name the store holds puts it in the place of the
/// first profile of that name and leaves the number of profiles, and every
/// other profile, as they were. Writing one whose name it does not hold puts
/// it behind the others, which makes one profile more.
pub proof fn law_upsert_in_place_or_append(store: StoreView, profile: ProfileView)
    ensures
        store.upsert(profile).default == store.default,
        store.holds(profile.org) ==> {
            let i = store.position(profile.org);
            &&& 0 <= i < store.profiles.len()
            &&& store.upsert(profile).profiles.len() == store.profiles.len()
            &&& store.upsert(profile).profiles[i] == profile
            &&& store.upsert(profile).position(profile.org) == i
            &&& forall|j: int|
                0 <= j < store.profiles.len() && j != i ==> #[trigger] store.upsert(
                    profile,
                ).profiles[j] == store.profiles[j]
        },
        !store.holds(profile.org) ==> {
            &&& store.upsert(profile).profiles.len() == store.profiles.len() + 1
            &&& store.upsert(profile).profiles.last() == profile
            &&& forall|j: int|
                0 <= j < store.profiles.len() ==> #[trigger] store.upsert(profile).profiles[j]
                    == store.profiles[j]
        },
{
    store.lemma_upsert_is_first(profile);
}

/// Writing a profile leaves every profile of another name to be read as before.
pub proof fn law_upsert_keeps_others(store: StoreView, profile: ProfileView, org: Seq<char>)
    requires
        org != profile.org,
    ensures
        store.upsert(profile).get(org) == store.get(org),
{
    let after = store.upsert(profile);
    if store.holds(profile.org) {
        store.lemma_holds(profile.org);
    }
    if store.holds(org) {
        store.lemma_holds(org);
        let k = store.position(org);
        assert(after.profiles[k] == store.profiles[k]);
        assert(after.is_first(org, k)) by {
            assert forall|j: int| 0 <= j < k implies (#[trigger] after.profiles[j]).org
                != org by {
                if after.profiles[j] != store.profiles[j] {
                    assert(after.profiles[j] == profile);
                }
            }
        }
        after.lemma_first(org, k);
    } else {
        if after.holds(org) {
            let k = choose|k: int|
                0 <= k < after.profiles.len() && (#[trigger] after.profiles[k]).org == org;
            if k < store.profiles.len() {
                assert(store.profiles[k].org == org);
            }
        }
    }
}

/// Writing a profile keeps the names in a store distinct.
pub proof fn law_upsert_keeps_unique(store: StoreView, profile: ProfileView)
    requires
        store.unique(),
    ensures
        store.upsert(profile).unique(),
{
    let after = store.upsert(profile);
    if store.holds(profile.org) {
        store.lemma_holds(profile.org);
        assert forall|i: int, j: int| 0 <= i < j < after.profiles.len() implies (
        #[trigger] after.profiles[i]).org != (#[trigger] after.profiles[j]).org by {
            assert(after.profiles[i].org == store.profiles[i].org);
            assert(after.profiles[j].org == store.profiles[j].org);
        }
    } else {
        assert forall|i: int, j: int| 0 <= i < j < after.profiles.len() implies (
        #[trigger] after.profiles[i]).org != (#[trigger] after.profiles[j]).org by {
            if j < store.profiles.len() {
                assert(after.profiles[i] == store.profiles[i]);
                assert(after.profiles[j] == store.profiles[j]);
            } else {
                assert(after.profiles[i] == store.profiles[i]);
            }
        }
    }
}

/// Writing a profile whose access token, if it has one, comes with its
/// instant of expiry keeps a well-formed store well-formed.
pub proof fn law_upsert_keeps_wf(store: StoreView, profile: ProfileView)
    requires
        store.wf(),
        profile.token_has_expiry(),
    ensures
        store.upsert(profile).wf(),
{
    law_upsert_keeps_unique(store, profile);
    let after = store.upsert(profile);
    if store.holds(profile.org) {
        store.lemma_holds(profile.org);
    }
    assert forall|i: int| 0 <= i < after.profiles.len() implies (
    #[trigger] after.profiles[i]).token_has_expiry() by {
        if after.profiles[i] != profile {
            assert(after.profiles[i] == store.profiles[i]);
        }
    }
}

/// A command that names no organization works on the default one, and fails
/// with `MissingOrg` where the store has no default; one that names an
/// organization works on that one.
pub proof fn law_resolve(store: StoreView, explicit: Option<Seq<char>>)
    ensures
        explicit matches Some(org) ==> store.resolve(explicit) == Ok::<Seq<char>, MoonenvError>(
            org,
        ),
        explicit is None ==> (store.default matches Some(org) ==> store.resolve(explicit) == Ok::<
            Seq<char>,
            MoonenvError,
        >(org)),
        explicit is None && store.default is None ==> store.resolve(explicit) == Err::<
            Seq<char>,
            MoonenvError,
        >(MoonenvError::MissingOrg),
{
}

/// Once `name` was made the default, a command that names no organization
/// works on `name`, whether or not the store holds a profile of that name.
pub proof fn law_default_then_resolve(store: StoreView, name: Seq<char>)
    ensures
        store.with_default(name).resolve(None) == Ok::<Seq<char>, MoonenvError>(name),
        store.with_default(name).profiles == store.profiles,
{
}

/// What a fresh store holds: the seed profile, which is also the default.
pub open spec fn seed_store() -> StoreView {
    StoreView { default: Some("moonenv"@), profiles: seq![seed_profile()] }
}

/// The configuration: the default profile's name and every profile there is.
#[derive(Debug, PartialEq, Eq)]
pub struct MoonenvConfig {
    /// The profile that is used where a command names no organization.
    pub default: Option<String>,
    /// The profiles, in the order in which they were first written.
    pub profiles: Vec<IndividualConfig>,
}

impl View for MoonenvConfig {
    type V = StoreView;

    open spec fn view(&self) -> StoreView {
        StoreView {
            default: text(self.default),
            profiles: self.profiles@.map_values(|p: IndividualConfig| p@),
        }
    }
}

impl Clone for MoonenvConfig {
    fn clone(&self) -> (r: Self)
        ensures
            r@ == self@,
    {
        let mut profiles: Vec<IndividualConfig> = Vec::new();
        let mut i: usize = 0;
        while i < self.profiles.len()
            invariant
                0 <= i <= self.profiles.len(),
                profiles.len() == i,
                forall|k: int| 0 <= k < i ==> (#[trigger] profiles[k])@ == self.profiles[k]@,
            decreases self.profiles.len() - i,
        {
            profiles.push(self.profiles[i].clone());
            i = i + 1;
        }
        let r = MoonenvConfig { default: clone_text(&self.default), profiles };
        assert(r@.profiles =~= self@.profiles);
        r
    }
}

impl Default for MoonenvConfig {
    fn default() -> (r: Self)
        ensures
            r@ == seed_store(),
            r@.wf(),
    {
        let mut profiles: Vec<IndividualConfig> = Vec::new();
        profiles.push(IndividualConfig::default());
        let r = MoonenvConfig { default: Some("moonenv".to_owned()), profiles };
        assert(r@.profiles =~= seed_store().profiles);
        r
    }
}

impl MoonenvConfig {
    /// The store that holds what was loaded: `default` and `profiles` as they are.
    pub fn new(default: Option<String>, profiles: Vec<IndividualConfig>) -> (r: Self)
        ensures
            r.default == default,
            r.profiles == profiles,
    {
        MoonenvConfig { default, profiles }
    }

    /// The index of the first profile named `org`.
    fn find(&self, org: &str) -> (r: Option<usize>)
        ensures
            match r {
                Some(i) => self@.is_first(org@, i as int),
                None => !self@.holds(org@),
            },
    {
        let name: String = org.to_owned();
        let mut i: usize = 0;
        while i < self.profiles.len()
            invariant
                0 <= i <= self.profiles.len(),
                name@ == org@,
                forall|j: int| 0 <= j < i ==> (#[trigger] self@.profiles[j]).org != org@,
            decreases self.profiles.len() - i,
        {
            assert(self@.profiles[i as int] == self.profiles[i as int]@);
            if self.profiles[i].org == name {
                return Some(i);
            }
            i = i + 1;
        }
        None
    }

    /// Writes `new_config`: over the profile of the same name where there is
    /// one, else behind the last profile. Nothing else changes.
    pub fn change_config(&mut self, new_config: IndividualConfig)
        ensures
            final(self)@ == old(self)@.upsert(new_config@),
            old(self)@.unique() ==> final(self)@.unique(),
            old(self)@.wf() && new_config@.token_has_expiry() ==> final(self)@.wf(),
    {
        proof {
            if old(self)@.unique() {
                law_upsert_keeps_unique(old(self)@, new_config@);
            }
            if old(self)@.wf() && new_config@.token_has_expiry() {
                law_upsert_keeps_wf(old(self)@, new_config@);
            }
        }
        let found = self.find(new_config.org.as_str());
        match found {
            Some(i) => {
                proof {
                    self@.lemma_first(new_config@.org, i as int);
                }
                self.profiles.set(i, new_config);
                assert(self@.profiles =~= old(self)@.profiles.update(i as int, new_config@));
            },
            None => {
                self.profiles.push(new_config);
                assert(self@.profiles =~= old(self)@.profiles.push(new_config@));
            },
        }
    }

    /// Makes `name` the default, whether or not a profile of that name exists.
    pub fn set_config_name_as_default(&mut self, name: String)
        ensures
            final(self)@ == old(self)@.with_default(name@),
            old(self)@.wf() ==> final(self)@.wf(),
    {
        self.default = Some(name);
    }

    /// A copy of the profile named `org`; `ProfileNotFound` where there is none.
    pub fn get_config(&self, org: &str) -> (r: Result<IndividualConfig, MoonenvError>)
        ensures
            match r {
                Ok(p) => self@.profile_of(org@) == Ok::<ProfileView, MoonenvError>(p@),
                Err(e) => self@.profile_of(org@) == Err::<ProfileView, MoonenvError>(e),
            },
    {
        match self.find(org) {
            Some(i) => {
                proof {
                    self@.lemma_first(org@, i as int);
                }
                Ok(self.profiles[i].clone())
            },
            None => Err(MoonenvError::ProfileNotFound),
        }
    }

    /// The organization to work on: `org` where it is given, else the default;
    /// `MissingOrg` where there is neither.
    pub fn get_org(&self, org: Option<String>) -> (r: Result<String, MoonenvError>)
        ensures
            outcome(r) == self@.resolve(text(org)),
    {
        match org {
            Some(name) => Ok(name),
            None => match &self.default {
                Some(name) => Ok(name.clone()),
                None => Err(MoonenvError::MissingOrg),
            },
        }
    }

    /// The URL of the profile named `org`; `ProfileNotFound` where there is no
    /// such profile, `UrlNotConfigured` where it has no URL.
    pub fn get_url(&self, org: &str) -> (r: Result<String, MoonenvError>)
        ensures
            outcome(r) == self@.url_of(org@),
    {
        match self.get_config(org) {
            Err(e) => Err(e),
            Ok(config) => match config.url {
                Some(url) => Ok(url),
                None => Err(MoonenvError::UrlNotConfigured),
            },
        }
    }

    /// The client ID of the profile named `org`; `ProfileNotFound` where there
    /// is no such profile, `ClientIdNotConfigured` where it has no client ID.
    pub fn get_client_id(&self, org: &str) -> (r: Result<String, MoonenvError>)
        ensures
            outcome(r) == self@.client_id_of(org@),
    {
        match self.get_config(org) {
            Err(e) => Err(e),
            Ok(config) => match config.client_id {
                Some(id) => Ok(id),
                None => Err(MoonenvError::ClientIdNotConfigured),
            },
        }
    }
}

} // verus!
