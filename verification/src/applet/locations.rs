//! Location choice, detection, bookmarks and units by country.
use crate::config::{Config, SavedLocation};
use crate::state::{
    Tempest, Effect, MAX_SAVED_LOCATIONS, Place, config_at_place, config_with_units,
    post_auto_location_off, post_auto_location_on, post_city_search_result, post_location_detected,
    post_remove_saved, post_save_location, post_save_under_cap, post_select_location,
    post_switch_location, post_toggle_auto_location, unit_effects,
};
use crate::text::last_segment_trimmed;
use crate::units::units_for_country;
use vstd::prelude::*;
use vstd::string::*;

verus! {

impl Tempest {

    /// Applies the units of `country` when automatic units are on, and asks
    /// for the unit selectors to follow.
    #[verifier::spinoff_prover]
    pub(crate) fn apply_units_for_country(&mut self, country: &str) -> (fx: Vec<Effect>)
        ensures
            *final(self) == (Tempest {
                config: config_with_units(old(self).config, country@),
                ..*old(self)
            }),
            fx@ == unit_effects(old(self).config),
    {
        let mut fx: Vec<Effect> = Vec::new();
        if self.config.auto_units {
            let (t, m, p) = units_for_country(country);
            self.config.temperature_unit = t;
            self.config.measurement_system = m;
            self.config.pressure_unit = p;
            fx.push(Effect::RebuildUnitModels);
        }
        fx
    }

    /// Makes a place the manual location: active coordinates and name, the
    /// persisted manual copies, auto-location off.
    #[verifier::spinoff_prover]
    pub(crate) fn set_manual_location(&mut self, latitude: u64, longitude: u64, name: &String)
        ensures
            *final(self) == (Tempest { config: final(self).config, ..*old(self) }),
            config_at_place(
                final(self).config,
                (Config { country: final(self).config.country, ..old(self).config }),
                name@,
                latitude,
                longitude,
            ),
            final(self).config.country == old(self).config.country,
    {
        self.config.latitude = latitude;
        self.config.longitude = longitude;
        self.config.location_name = name.clone();
        self.config.manual_latitude = Some(latitude);
        self.config.manual_longitude = Some(longitude);
        self.config.manual_location_name = Some(name.clone());
        self.config.use_auto_location = false;
    }

    /// Picks a location from the search results and refreshes.
    #[verifier::spinoff_prover]
    pub fn handle_select_location(&mut self, idx: usize) -> (fx: Vec<Effect>)
        ensures
            post_select_location(*old(self), *final(self), fx@, idx),
    {
        if idx >= self.search_results.len() {
            return Vec::new();
        }
        let ghost s = *self;
        let name = self.search_results[idx].display_name.clone();
        let country = self.search_results[idx].country.clone();
        let latitude = self.search_results[idx].latitude;
        let longitude = self.search_results[idx].longitude;
        self.set_manual_location(latitude, longitude, &name);
        self.config.country = Some(country.clone());
        let ghost m = self.config;
        let mut fx = self.apply_units_for_country(country.as_str());
        self.city_input = String::new();
        self.search_results = Vec::new();
        fx.push(Effect::SaveConfig);
        fx.push(Effect::RefreshWeather);
        proof {
            assert(config_at_place(m, s.config, name@, latitude, longitude));
            assert(self.config == config_with_units(m, country@));
        }
        fx
    }

    /// Applies an automatically detected location and refreshes.
    #[verifier::spinoff_prover]
    pub fn handle_location_detected(&mut self, result: Option<Place>) -> (fx: Vec<Effect>)
        ensures
            post_location_detected(*old(self), *final(self), fx@, result),
    {
        match result {
            Some(place) => {
                self.config.latitude = place.latitude;
                self.config.longitude = place.longitude;
                self.config.location_name = place.display_name;
                self.config.country = Some(place.country.clone());
                let mut fx = self.apply_units_for_country(place.country.as_str());
                fx.push(Effect::SaveConfig);
                fx.push(Effect::RefreshWeather);
                fx
            },
            None => Vec::new(),
        }
    }

    /// Switches between auto-detect (keeping the current location as the
    /// manual fallback) and manual mode (restoring the kept location).
    #[verifier::spinoff_prover]
    pub fn handle_toggle_auto_location(&mut self) -> (fx: Vec<Effect>)
        ensures
            post_toggle_auto_location(*old(self), *final(self), fx@),
    {
        if self.config.use_auto_location {
            self.auto_location_off()
        } else {
            self.auto_location_on()
        }
    }

    /// Keeps the current location as the manual one and starts a detection.
    #[verifier::spinoff_prover]
    pub(crate) fn auto_location_on(&mut self) -> (fx: Vec<Effect>)
        ensures
            post_auto_location_on(*old(self), *final(self), fx@),
    {
        let name = self.config.location_name.clone();
        self.config.use_auto_location = true;
        self.config.manual_latitude = Some(self.config.latitude);
        self.config.manual_longitude = Some(self.config.longitude);
        self.config.manual_location_name = Some(name);
        let mut fx: Vec<Effect> = Vec::new();
        fx.push(Effect::SaveConfig);
        fx.push(Effect::DetectLocation);
        fx
    }

    /// Restores the kept manual location and refreshes.
    #[verifier::spinoff_prover]
    pub(crate) fn auto_location_off(&mut self) -> (fx: Vec<Effect>)
        ensures
            post_auto_location_off(*old(self), *final(self), fx@),
    {
        let (latitude, longitude, name) = match (
            self.config.manual_latitude,
            self.config.manual_longitude,
            &self.config.manual_location_name,
        ) {
            (Some(lat), Some(lon), Some(n)) => (lat, lon, n.clone()),
            _ => (self.config.latitude, self.config.longitude, self.config.location_name.clone()),
        };
        self.config.use_auto_location = false;
        self.config.latitude = latitude;
        self.config.longitude = longitude;
        self.config.location_name = name;
        let mut fx: Vec<Effect> = Vec::new();
        fx.push(Effect::SaveConfig);
        fx.push(Effect::RefreshWeather);
        fx
    }

    /// Switches to a bookmarked location and refreshes.
    #[verifier::spinoff_prover]
    pub fn handle_switch_location(&mut self, idx: usize) -> (fx: Vec<Effect>)
        ensures
            post_switch_location(*old(self), *final(self), fx@, idx),
    {
        if idx >= self.config.saved_locations.len() {
            return Vec::new();
        }
        let name = self.config.saved_locations[idx].name.clone();
        let latitude = self.config.saved_locations[idx].latitude;
        let longitude = self.config.saved_locations[idx].longitude;
        let country = last_segment_trimmed(name.as_str());
        self.set_manual_location(latitude, longitude, &name);
        self.config.country = Some(country);
        self.showing_locations = false;
        let mut fx: Vec<Effect> = Vec::new();
        fx.push(Effect::SaveConfig);
        fx.push(Effect::RefreshWeather);
        fx
    }

    /// Bookmarks a search result, deduplicated by coordinates, capped at
    /// eight bookmarks.
    #[verifier::spinoff_prover]
    pub fn handle_save_location(&mut self, idx: usize, already_saved: bool) -> (fx: Vec<Effect>)
        ensures
            post_save_location(*old(self), *final(self), fx@, idx, already_saved),
    {
        if idx < self.search_results.len() && self.config.saved_locations.len()
            >= MAX_SAVED_LOCATIONS {
            self.saved_locations_full = true;
            return Vec::new();
        }
        self.save_location_under_cap(idx, already_saved)
    }

    /// Bookmarks below the cap, or only clears the search.
    #[verifier::spinoff_prover]
    pub(crate) fn save_location_under_cap(&mut self, idx: usize, already_saved: bool) -> (fx: Vec<Effect>)
        requires
            !(idx < old(self).search_results@.len() && old(self).config.saved_locations@.len()
                >= MAX_SAVED_LOCATIONS),
        ensures
            post_save_under_cap(*old(self), *final(self), fx@, idx, already_saved),
    {
        if idx < self.search_results.len() && !already_saved {
            self.append_bookmark(idx)
        } else {
            self.keep_bookmarks(idx, already_saved)
        }
    }

    /// Clears the search without bookmarking.
    #[verifier::spinoff_prover]
    pub(crate) fn keep_bookmarks(&mut self, idx: usize, already_saved: bool) -> (fx: Vec<Effect>)
        requires
            !(idx < old(self).search_results@.len() && !already_saved),
        ensures
            post_save_under_cap(*old(self), *final(self), fx@, idx, already_saved),
    {
        self.saved_locations_full = false;
        self.search_results = Vec::new();
        self.city_input = String::new();
        Vec::new()
    }

    /// Appends the search result as a bookmark and clears the search.
    #[verifier::spinoff_prover]
    pub(crate) fn append_bookmark(&mut self, idx: usize) -> (fx: Vec<Effect>)
        requires
            idx < old(self).search_results@.len(),
        ensures
            post_save_under_cap(*old(self), *final(self), fx@, idx, false),
    {
        let saved = self.bookmark_of(idx);
        let ghost before = self.config.saved_locations@;
        self.config.saved_locations.push(saved);
        assert(self.config.saved_locations@.drop_last() =~= before);
        self.clear_search();
        let mut fx: Vec<Effect> = Vec::new();
        fx.push(Effect::SaveConfig);
        fx
    }

    /// Clears the cap flag, the search results and the search text.
    #[verifier::spinoff_prover]
    pub(crate) fn clear_search(&mut self)
        ensures
            *final(self) == (Tempest {
                saved_locations_full: false,
                search_results: final(self).search_results,
                city_input: final(self).city_input,
                ..*old(self)
            }),
            final(self).search_results@.len() == 0,
            final(self).city_input@.len() == 0,
    {
        self.saved_locations_full = false;
        self.search_results = Vec::new();
        self.city_input = String::new();
    }

    /// Replaces the search results; a failed search empties them.
    #[verifier::spinoff_prover]
    pub(crate) fn city_search_result(&mut self, result: Option<Vec<Place>>) -> (fx: Vec<Effect>)
        ensures
            post_city_search_result(*old(self), *final(self), fx@, result),
    {
        match result {
            Some(r) => {
                self.search_results = r;
            },
            None => {
                self.search_results = Vec::new();
            },
        }
        Vec::new()
    }

    /// Removes a bookmark by position.
    #[verifier::spinoff_prover]
    pub fn remove_saved_location(&mut self, idx: usize) -> (fx: Vec<Effect>)
        ensures
            post_remove_saved(*old(self), *final(self), fx@, idx),
    {
        if idx < self.config.saved_locations.len() {
            self.remove_bookmark_at(idx)
        } else {
            Vec::new()
        }
    }

    /// Removes the bookmark at a valid position.
    #[verifier::spinoff_prover]
    pub(crate) fn remove_bookmark_at(&mut self, idx: usize) -> (fx: Vec<Effect>)
        requires
            idx < old(self).config.saved_locations@.len(),
        ensures
            post_remove_saved(*old(self), *final(self), fx@, idx),
    {
        self.drop_bookmark(idx);
        let mut fx: Vec<Effect> = Vec::new();
        fx.push(Effect::SaveConfig);
        fx
    }

    /// Drops the bookmark at `idx`.
    #[verifier::spinoff_prover]
    fn drop_bookmark(&mut self, idx: usize)
        requires
            idx < old(self).config.saved_locations@.len(),
        ensures
            *final(self) == (Tempest {
                config: Config { saved_locations: final(self).config.saved_locations, ..old(self).config },
                ..*old(self)
            }),
            final(self).config.saved_locations@ == old(self).config.saved_locations@.remove(idx as int),
    {
        self.config.saved_locations.remove(idx);
    }

    /// The bookmark for a search result.
    #[verifier::spinoff_prover]
    pub(crate) fn bookmark_of(&self, idx: usize) -> (r: SavedLocation)
        requires
            idx < self.search_results@.len(),
        ensures
            r.name@ == self.search_results@[idx as int].display_name@,
            r.latitude == self.search_results@[idx as int].latitude,
            r.longitude == self.search_results@[idx as int].longitude,
    {
        SavedLocation {
            name: self.search_results[idx].display_name.clone(),
            latitude: self.search_results[idx].latitude,
            longitude: self.search_results[idx].longitude,
        }
    }
}

} // verus!
