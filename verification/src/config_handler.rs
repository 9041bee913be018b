//! The store's operations as free functions, for callers that hold the store
//! and pass it along.

use crate::error::MoonenvError;
use crate::moonenv_config::{outcome, IndividualConfig, MoonenvConfig, ProfileView, StoreView};
use vstd::prelude::*;

verus! {

/// The profile that the default names: `MissingOrg` where the store has no
/// default, `ProfileNotFound` where the default names no profile.
pub open spec fn default_profile(store: StoreView) -> Result<ProfileView, MoonenvError> {
    match store.default {
        None => Err(MoonenvError::MissingOrg),
        Some(name) => store.profile_of(name),
    }
}

/// The name of the profile that the default names, where there is such a profile.
pub open spec fn default_org(store: StoreView) -> Result<Seq<char>, MoonenvError> {
    match default_profile(store) {
        Ok(p) => Ok(p.org),
        Err(e) => Err(e),
    }
}

/// Writes `new_config` into `store`: over the profile of the same name where
/// there is one, else behind the last profile.
pub fn change_config(store: &mut MoonenvConfig, new_config: IndividualConfig)
    ensures
        final(store)@ == old(store)@.upsert(new_config@),
        old(store)@.unique() ==> final(store)@.unique(),
        old(store)@.wf() && new_config@.token_has_expiry() ==> final(store)@.wf(),
{
    store.change_config(new_config);
}

/// Makes `name` the default of `store`.
pub fn set_config_name_as_default(store: &mut MoonenvConfig, name: String)
    ensures
        final(store)@ == old(store)@.with_default(name@),
        old(store)@.wf() ==> final(store)@.wf(),
{
    store.set_config_name_as_default(name);
}

/// A copy of the profile that the default names.
pub fn get_default_config(store: &MoonenvConfig) -> (r: Result<IndividualConfig, MoonenvError>)
    ensures
        match r {
            Ok(p) => default_profile(store@) == Ok::<ProfileView, MoonenvError>(p@),
            Err(e) => default_profile(store@) == Err::<ProfileView, MoonenvError>(e),
        },
{
    match &store.default {
        None => Err(MoonenvError::MissingOrg),
        Some(name) => store.get_config(name.as_str()),
    }
}

/// The name of the profile that the default names. Where it succeeds, that is
/// the default itself.
pub fn get_default_org(store: &MoonenvConfig) -> (r: Result<String, MoonenvError>)
    ensures
        outcome(r) == default_org(store@),
        r matches Ok(name) ==> store@.default == Some(name@),
{
    match get_default_config(store) {
        Ok(config) => {
            proof {
                store@.lemma_holds(store@.default->Some_0);
            }
            Ok(config.org)
        },
        Err(e) => Err(e),
    }
}

/// A copy of the profile named `org`; `ProfileNotFound` where there is none.
pub fn get_config(store: &MoonenvConfig, org: &str) -> (r: Result<IndividualConfig, MoonenvError>)
    ensures
        match r {
            Ok(p) => store@.profile_of(org@) == Ok::<ProfileView, MoonenvError>(p@),
            Err(e) => store@.profile_of(org@) == Err::<ProfileView, MoonenvError>(e),
        },
{
    store.get_config(org)
}

/// The organization to work on: `org` where it is given, else the default;
/// `MissingOrg` where there is neither.
pub fn get_org(store: &MoonenvConfig, org: Option<String>) -> (r: Result<String, MoonenvError>)
    ensures
        outcome(r) == store@.resolve(crate::moonenv_config::text(org)),
{
    store.get_org(org)
}

/// The URL of the profile named `org`.
pub fn get_url(store: &MoonenvConfig, org: &str) -> (r: Result<String, MoonenvError>)
    ensures
        outcome(r) == store@.url_of(org@),
{
    store.get_url(org)
}

/// The client ID of the profile named `org`.
pub fn get_client_id(store: &MoonenvConfig, org: &str) -> (r: Result<String, MoonenvError>)
    ensures
        outcome(r) == store@.client_id_of(org@),
{
    store.get_client_id(org)
}

} // verus!
