//! Weather refreshes and the results of the fetches.

use super::{backoff_seconds, contains_prefix, contains_str, is_current_generation, refresh_effects};
use crate::state::{
    Tempest, AqiStandard, Effect, MAX_RETRIES, PanelLabel, PollenFetch, PollenState,
    alert_notifications, distinct, lemma_distinct_contains, post_air_quality_updated,
    post_alerts_updated, post_network_connected, post_pollen_updated, post_refresh,
    post_system_resumed, post_tick, post_weather_updated, views,
};
use vstd::prelude::*;
use vstd::string::*;

verus! {

impl Tempest {

    /// Starts a refresh: bumps the request generation and asks for every
    /// fetch tagged with it (alerts only when enabled).
    #[verifier::spinoff_prover]
    pub fn handle_refresh_weather(&mut self) -> (fx: Vec<Effect>)
        requires
            old(self).fetch_generation < u64::MAX,
        ensures
            post_refresh(*old(self), *final(self), fx@),
    {
        self.is_loading = true;
        self.weather_error = false;
        self.fetch_generation = self.fetch_generation + 1;
        let generation = self.fetch_generation;
        let mut fx: Vec<Effect> = Vec::new();
        fx.push(Effect::FetchWeather { generation });
        fx.push(Effect::FetchAirQuality { generation });
        if self.config.alerts_enabled {
            fx.push(Effect::FetchAlerts { generation });
        }
        fx.push(Effect::FetchPollen { generation });
        fx
    }

    /// Applies a weather result, or schedules a retry with backoff
    /// (5, 15, 30, 60 seconds) on failure.
    #[verifier::spinoff_prover]
    pub fn handle_weather_updated(&mut self, generation: u64, ok: bool, now: i64) -> (fx: Vec<Effect>)
        ensures
            post_weather_updated(*old(self), *final(self), fx@, generation, ok, now),
    {
        if !is_current_generation(self.fetch_generation, generation) {
            return Vec::new();
        }
        if ok {
            self.weather_succeeded(now)
        } else {
            self.weather_failed()
        }
    }

    /// Keeps a good reading: resets the retry schedule and stamps the time.
    #[verifier::spinoff_prover]
    pub(crate) fn weather_succeeded(&mut self, now: i64) -> (fx: Vec<Effect>)
        ensures
            post_weather_updated(*old(self), *final(self), fx@, old(self).fetch_generation, true, now),
    {
        self.is_loading = false;
        self.retry_count = 0;
        self.panel_label = PanelLabel::Temperature(self.config.temperature_unit);
        self.has_weather = true;
        self.weather_error = false;
        self.refresh_failed = false;
        self.config.last_updated = Some(now);
        let mut fx: Vec<Effect> = Vec::new();
        fx.push(Effect::StoreWeather);
        fx.push(Effect::ClearMeteogramCache);
        fx.push(Effect::UpdateTimestampDisplay);
        fx.push(Effect::SaveConfig);
        fx
    }

    /// Marks a failed fetch and schedules the next retry while retries remain.
    #[verifier::spinoff_prover]
    pub(crate) fn weather_failed(&mut self) -> (fx: Vec<Effect>)
        ensures
            forall|now: i64|
                post_weather_updated(*old(self), *final(self), fx@, old(self).fetch_generation, false, now),
    {
        self.is_loading = false;
        if self.has_weather {
            self.refresh_failed = true;
        } else {
            self.panel_label = PanelLabel::Error;
            self.weather_error = true;
        }
        let mut fx: Vec<Effect> = Vec::new();
        if self.retry_count < MAX_RETRIES {
            let delay = backoff_seconds(self.retry_count);
            self.retry_count = self.retry_count + 1;
            fx.push(Effect::RetryAfter { seconds: delay });
        }
        fx
    }

    /// Applies an air-quality result of the current generation; a failure
    /// keeps the last good reading.
    #[verifier::spinoff_prover]
    pub fn air_quality_updated(&mut self, generation: u64, result: Option<(i32, AqiStandard)>) -> (fx: Vec<Effect>)
        ensures
            post_air_quality_updated(*old(self), *final(self), fx@, generation, result),
    {
        let mut fx: Vec<Effect> = Vec::new();
        if !is_current_generation(self.fetch_generation, generation) {
            return fx;
        }
        match result {
            Some(reading) => {
                self.current_aqi = Some(reading);
                self.has_air_quality = true;
                fx.push(Effect::StoreAirQuality);
            },
            None => {},
        }
        fx
    }

    /// Applies an alerts result of the current generation: notifies each alert
    /// not notified before, keeps the batch, and bounds the seen set to it.
    #[verifier::spinoff_prover]
    pub fn alerts_updated(&mut self, generation: u64, result: Option<Vec<String>>) -> (fx: Vec<Effect>)
        ensures
            post_alerts_updated(*old(self), *final(self), fx@, generation, result),
    {
        let mut fx: Vec<Effect> = Vec::new();
        if !is_current_generation(self.fetch_generation, generation) {
            return fx;
        }
        let ids = match result {
            Some(ids) => ids,
            None => {
                return fx;
            },
        };
        let ghost seen = views(self.seen_alert_ids@);
        let ghost idv = views(ids@);
        let mut new_seen: Vec<String> = Vec::new();
        let mut i: usize = 0;
        while i < ids.len()
            invariant
                i <= ids@.len(),
                seen == views(self.seen_alert_ids@),
                idv == views(ids@),
                fx@ == alert_notifications(seen, idv.take(i as int)),
                views(new_seen@) == distinct(idv.take(i as int)),
            decreases ids@.len() - i,
        {
            let ghost pre = idv.take(i as int);
            assert(idv.take(i + 1).drop_last() =~= pre);
            assert(idv.take(i + 1).last() == ids@[i as int]@);
            let in_seen = contains_str(&self.seen_alert_ids, &ids[i]);
            let earlier = contains_prefix(&ids, i, &ids[i]);
            proof {
                assert(pre =~= views(ids@.take(i as int)));
                lemma_distinct_contains(pre, ids@[i as int]@);
            }
            if !in_seen && !earlier {
                fx.push(Effect::NotifyAlert { index: i });
            }
            if !earlier {
                new_seen.push(ids[i].clone());
                assert(views(new_seen@) =~= views(new_seen@).drop_last().push(ids@[i as int]@));
                assert(views(new_seen@).drop_last() =~= views(new_seen@.drop_last()));
            }
            i = i + 1;
        }
        assert(idv.take(ids@.len() as int) =~= idv);
        fx.push(Effect::StoreAlerts);
        self.alert_ids = ids;
        self.seen_alert_ids = new_seen;
        fx
    }

    /// Applies a pollen result of the current generation; anything but a
    /// forecast (no coverage, a failure) shows as no pollen data.
    #[verifier::spinoff_prover]
    pub fn pollen_updated(&mut self, generation: u64, result: PollenFetch) -> (fx: Vec<Effect>)
        ensures
            post_pollen_updated(*old(self), *final(self), fx@, generation, result),
    {
        if is_current_generation(self.fetch_generation, generation) {
            self.pollen = match result {
                PollenFetch::Forecast(d) => PollenState::Forecast(d),
                _ => PollenState::Unavailable,
            };
        }
        Vec::new()
    }

    /// Hourly tick: fresh retry schedule, chart redrawn, weather refreshed.
    #[verifier::spinoff_prover]
    pub fn tick(&mut self) -> (fx: Vec<Effect>)
        ensures
            post_tick(*old(self), *final(self), fx@),
    {
        self.retry_count = 0;
        let mut fx: Vec<Effect> = Vec::new();
        fx.push(Effect::ClearMeteogramCache);
        fx.push(Effect::RefreshWeather);
        fx
    }

    /// Connectivity came back: fresh retry schedule and a refresh.
    #[verifier::spinoff_prover]
    pub fn network_connected(&mut self) -> (fx: Vec<Effect>)
        ensures
            post_network_connected(*old(self), *final(self), fx@),
    {
        self.retry_count = 0;
        refresh_effects()
    }

    /// The system woke from suspend: the HTTP pool is reset, fresh retry
    /// schedule and a refresh.
    #[verifier::spinoff_prover]
    pub fn system_resumed(&mut self) -> (fx: Vec<Effect>)
        ensures
            post_system_resumed(*old(self), *final(self), fx@),
    {
        self.retry_count = 0;
        let mut fx: Vec<Effect> = Vec::new();
        fx.push(Effect::ResetHttpClient);
        fx.push(Effect::RefreshWeather);
        fx
    }
}

} // verus!
