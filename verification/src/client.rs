//! Client-side state that needs no network: the builder's options, the
//! city directory, and the decision how to load it.

use vstd::prelude::*;
use crate::resy_data::{spec_city_matches, RestaurantCityConfig};

verus! {

/// The options a client is built from. The network layer turns them into
/// an HTTP client with the credential headers set.
pub struct ResyClientBuilder {
    pub api_key: String,
    pub auth_key: String,
    pub no_cache: bool,
    pub strict_match: bool,
}

impl ResyClientBuilder {
    pub fn new(api_key: String, auth_key: String) -> (r: ResyClientBuilder)
        ensures
            r.api_key == api_key,
            r.auth_key == auth_key,
            r.no_cache == false,
            r.strict_match == false,
    {
        ResyClientBuilder { api_key, auth_key, no_cache: false, strict_match: false }
    }

    /// Asks the client to skip the on-disk city directory cache.
    pub fn no_cache(self) -> (r: ResyClientBuilder)
        ensures
            r.no_cache == true,
            r.api_key == self.api_key,
            r.auth_key == self.auth_key,
            r.strict_match == self.strict_match,
    {
        ResyClientBuilder {
            api_key: self.api_key,
            auth_key: self.auth_key,
            no_cache: true,
            strict_match: self.strict_match,
        }
    }

    /// Asks the client to match restaurant names exactly when searching.
    pub fn strict_match(self) -> (r: ResyClientBuilder)
        ensures
            r.strict_match == true,
            r.api_key == self.api_key,
            r.auth_key == self.auth_key,
            r.no_cache == self.no_cache,
    {
        ResyClientBuilder {
            api_key: self.api_key,
            auth_key: self.auth_key,
            no_cache: self.no_cache,
            strict_match: true,
        }
    }
}

impl Default for ResyClientBuilder {
    fn default() -> (r: ResyClientBuilder)
        ensures
            r.api_key@.len() == 0,
            r.auth_key@.len() == 0,
            r.no_cache == false,
            r.strict_match == false,
    {
        ResyClientBuilder {
            api_key: String::new(),
            auth_key: String::new(),
            no_cache: false,
            strict_match: false,
        }
    }
}

/// Where the city directory should come from, given the builder's cache
/// option and whether a cache file is already on disk.
pub enum ConfigSource {
    /// Fetch from the service and keep nothing.
    RemoteOnly,
    /// Read the cache file.
    CacheFile,
    /// Fetch from the service and write the cache file.
    RemoteThenSave,
}

/// The loading decision of the city directory: caching switched off means
/// fetch and forget; otherwise an existing cache file is read, and a
/// missing one is filled from the service.
pub fn config_load_plan(no_cache: bool, cache_file_exists: bool) -> (s: ConfigSource)
    ensures
        no_cache ==> s is RemoteOnly,
        !no_cache && cache_file_exists ==> s is CacheFile,
        !no_cache && !cache_file_exists ==> s is RemoteThenSave,
{
    if no_cache {
        ConfigSource::RemoteOnly
    } else if cache_file_exists {
        ConfigSource::CacheFile
    } else {
        ConfigSource::RemoteThenSave
    }
}

/// The city directory: every city of the service's network that later
/// queries can resolve a restaurant in.
pub struct RestaurantDirectory {
    pub restaurants: Vec<RestaurantCityConfig>,
}

impl RestaurantDirectory {
    /// An empty directory.
    pub fn new() -> (r: RestaurantDirectory)
        ensures
            r.restaurants@.len() == 0,
    {
        RestaurantDirectory { restaurants: Vec::new() }
    }

    /// Takes loaded city records into the directory, after what it already
    /// holds.
    pub fn extend(&mut self, mut more: Vec<RestaurantCityConfig>)
        ensures
            final (self).restaurants@ == old(self).restaurants@ + more@,
    {
        self.restaurants.append(&mut more);
    }

    /// The first city record answering a city/country query, if any does.
    pub fn get_restaurant_city_config(&self, city: &str, country: &str) -> (r: Option<
        RestaurantCityConfig,
    >)
        ensures
            match r {
                Some(c) => exists|i: int|
                    0 <= i < self.restaurants@.len() && c@ == self.restaurants@[i]@
                        && spec_city_matches(#[trigger] self.restaurants@[i]@, city@, country@)
                        && forall|j: int|
                        0 <= j < i ==> !spec_city_matches(
                            #[trigger] self.restaurants@[j]@,
                            city@,
                            country@,
                        ),
                None => forall|i: int|
                    0 <= i < self.restaurants@.len() ==> !spec_city_matches(
                        #[trigger] self.restaurants@[i]@,
                        city@,
                        country@,
                    ),
            },
    {
        let n = self.restaurants.len();
        let mut i: usize = 0;
        while i < n
            invariant
                n == self.restaurants@.len(),
                i <= n,
                forall|j: int|
                    0 <= j < i ==> !spec_city_matches(
                        #[trigger] self.restaurants@[j]@,
                        city@,
                        country@,
                    ),
            decreases n - i,
        {
            if self.restaurants[i].is_match(city, country) {
                return Some(self.restaurants[i].clone());
            }
            i += 1;
        }
        None
    }
}

} // verus!
