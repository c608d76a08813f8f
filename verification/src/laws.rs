//! Properties that span several operations of the applet.
use crate::config::{Config, PopupTab};
use crate::state::{
    Tempest, Effect, Message, MAX_SAVED_LOCATIONS, PanelItem, PanelLabel, alert_notifications, distinct,
    lemma_distinct_contains, lemma_distinct_no_duplicates, panel_flag, post_commit_pending,
    post_toggle_panel, post_update, with_panel_flag, views, well_formed,
};
use vstd::prelude::*;

verus! {

/// Every message keeps the state well-formed: the notified alert ids never
/// repeat, and the retry counter never passes the number of scheduled
/// retries.
#[verifier::rlimit(100)]
#[verifier::spinoff_prover]
pub proof fn lemma_update_keeps_well_formed(s: Tempest, t: Tempest, fx: Seq<Effect>, e: Message)
    requires
        well_formed(s),
        post_update(s, t, fx, e),
    ensures
        well_formed(t),
{
    match e {
        Message::AlertsUpdated { generation, result } => {
            match result {
                Some(ids) => {
                    if generation == s.fetch_generation {
                        lemma_distinct_no_duplicates(views(ids@));
                        assert(views(t.seen_alert_ids@) =~= distinct(views(ids@)));
                    }
                },
                None => {},
            }
        },
        Message::TogglePopup => {
            reveal(post_commit_pending);
        },
        Message::PopupClosed { .. } => {
            reveal(post_commit_pending);
        },
        _ => {},
    }
}

/// A fetch result tagged with another generation than the current one is
/// dropped: the state is unchanged and no work is asked for.
pub proof fn stale_results_change_nothing(s: Tempest, t: Tempest, fx: Seq<Effect>, m: Message)
    requires
        post_update(s, t, fx, m),
        match m {
            Message::WeatherUpdated { generation, .. } => generation != s.fetch_generation,
            Message::AirQualityUpdated { generation, .. } => generation != s.fetch_generation,
            Message::AlertsUpdated { generation, .. } => generation != s.fetch_generation,
            Message::PollenUpdated { generation, .. } => generation != s.fetch_generation,
            _ => false,
        },
    ensures
        t == s,
        fx.len() == 0,
{
}

/// A refresh supersedes every request made before it: a result that carries
/// the generation current before the refresh changes nothing afterwards.
pub proof fn refresh_supersedes_earlier_results(
    s0: Tempest,
    s1: Tempest,
    fx1: Seq<Effect>,
    s2: Tempest,
    fx2: Seq<Effect>,
    m: Message,
)
    requires
        s0.fetch_generation < u64::MAX,
        post_update(s0, s1, fx1, Message::RefreshWeather),
        post_update(s1, s2, fx2, m),
        match m {
            Message::WeatherUpdated { generation, .. } => generation == s0.fetch_generation,
            Message::AirQualityUpdated { generation, .. } => generation == s0.fetch_generation,
            Message::AlertsUpdated { generation, .. } => generation == s0.fetch_generation,
            Message::PollenUpdated { generation, .. } => generation == s0.fetch_generation,
            _ => false,
        },
    ensures
        s2 == s1,
        fx2.len() == 0,
{
    stale_results_change_nothing(s1, s2, fx2, m);
}

/// Failed weather fetches back off: from a fresh schedule, four consecutive
/// failures of the current request ask for retries after 5, 15, 30 and 60
/// seconds, and a fifth asks for none.
pub proof fn failed_fetches_back_off(
    s: Seq<Tempest>,
    fx: Seq<Seq<Effect>>,
    now: Seq<i64>,
)
    requires
        s.len() == 6,
        fx.len() == 5,
        now.len() == 5,
        s[0].retry_count == 0,
        forall|i: int|
            0 <= i < 5 ==> post_update(
                #[trigger] s[i],
                s[i + 1],
                fx[i],
                Message::WeatherUpdated { generation: s[i].fetch_generation, ok: false, now: now[i] },
            ),
    ensures
        fx[0] == seq![Effect::RetryAfter { seconds: 5 }],
        fx[1] == seq![Effect::RetryAfter { seconds: 15 }],
        fx[2] == seq![Effect::RetryAfter { seconds: 30 }],
        fx[3] == seq![Effect::RetryAfter { seconds: 60 }],
        fx[4].len() == 0,
{
    assert(post_update(s[0], s[1], fx[0], Message::WeatherUpdated { generation: s[0].fetch_generation, ok: false, now: now[0] }));
    assert(post_update(s[1], s[2], fx[1], Message::WeatherUpdated { generation: s[1].fetch_generation, ok: false, now: now[1] }));
    assert(post_update(s[2], s[3], fx[2], Message::WeatherUpdated { generation: s[2].fetch_generation, ok: false, now: now[2] }));
    assert(post_update(s[3], s[4], fx[3], Message::WeatherUpdated { generation: s[3].fetch_generation, ok: false, now: now[3] }));
    assert(post_update(s[4], s[5], fx[4], Message::WeatherUpdated { generation: s[4].fetch_generation, ok: false, now: now[4] }));
}

/// An alert is notified once: when the next alerts result of the current
/// request carries the same ids, nothing is notified again.
pub proof fn alerts_are_notified_once(
    s0: Tempest,
    s1: Tempest,
    fx1: Seq<Effect>,
    s2: Tempest,
    fx2: Seq<Effect>,
    ids1: Vec<String>,
    ids2: Vec<String>,
)
    requires
        post_update(
            s0,
            s1,
            fx1,
            Message::AlertsUpdated { generation: s0.fetch_generation, result: Some(ids1) },
        ),
        post_update(
            s1,
            s2,
            fx2,
            Message::AlertsUpdated { generation: s1.fetch_generation, result: Some(ids2) },
        ),
        views(ids2@) == views(ids1@),
    ensures
        fx2 == seq![Effect::StoreAlerts],
{
    let seen = views(s1.seen_alert_ids@);
    assert(seen =~= distinct(views(ids1@)));
    assert forall|x: Seq<char>| views(ids2@).contains(x) implies seen.contains(x) by {
        lemma_distinct_contains(views(ids1@), x);
    }
    lemma_no_new_alerts(seen, views(ids2@));
}

/// No notification for a batch whose ids were all seen.
proof fn lemma_no_new_alerts(seen: Seq<Seq<char>>, ids: Seq<Seq<char>>)
    requires
        forall|x: Seq<char>| ids.contains(x) ==> seen.contains(x),
    ensures
        alert_notifications(seen, ids).len() == 0,
    decreases ids.len(),
{
    if ids.len() > 0 {
        assert(ids.contains(ids.last()));
        assert forall|x: Seq<char>| ids.drop_last().contains(x) implies seen.contains(x) by {
            let j = choose|j: int| 0 <= j < ids.drop_last().len() && ids.drop_last()[j] == x;
            assert(ids[j] == x);
        }
        lemma_no_new_alerts(seen, ids.drop_last());
    }
}

/// Toggling a panel item twice restores the settings and state.
pub proof fn panel_toggle_twice_restores(
    s0: Tempest,
    s1: Tempest,
    fx1: Seq<Effect>,
    s2: Tempest,
    fx2: Seq<Effect>,
    item: PanelItem,
)
    requires
        post_toggle_panel(s0, s1, fx1, item),
        post_toggle_panel(s1, s2, fx2, item),
    ensures
        s2 == s0,
{
    match item {
        PanelItem::Aqi => lemma_toggle_twice_aqi(s0, s1, fx1, s2, fx2),
        PanelItem::Icon => lemma_toggle_twice_icon(s0, s1, fx1, s2, fx2),
        PanelItem::Pressure => lemma_toggle_twice_pressure(s0, s1, fx1, s2, fx2),
        PanelItem::DewPoint => lemma_toggle_twice_dew_point(s0, s1, fx1, s2, fx2),
        PanelItem::SunriseSunset => lemma_toggle_twice_sunrise_sunset(s0, s1, fx1, s2, fx2),
    }
}

/// Sending the same panel-item toggle twice gives back the state.
#[verifier::spinoff_prover]
pub proof fn panel_message_twice_restores(
    s0: Tempest,
    s1: Tempest,
    fx1: Seq<Effect>,
    s2: Tempest,
    fx2: Seq<Effect>,
    m: Message,
)
    requires
        m is ToggleShowAqiInPanel || m is ToggleShowIconInPanel || m is ToggleShowPressureInPanel
            || m is ToggleShowDewPointInPanel || m is ToggleShowSunriseSunsetInPanel,
        post_update(s0, s1, fx1, m),
        post_update(s1, s2, fx2, m),
    ensures
        s2 == s0,
{
    let item = match m {
        Message::ToggleShowAqiInPanel => PanelItem::Aqi,
        Message::ToggleShowIconInPanel => PanelItem::Icon,
        Message::ToggleShowPressureInPanel => PanelItem::Pressure,
        Message::ToggleShowDewPointInPanel => PanelItem::DewPoint,
        _ => PanelItem::SunriseSunset,
    };
    assert(post_toggle_panel(s0, s1, fx1, item));
    assert(post_toggle_panel(s1, s2, fx2, item));
    panel_toggle_twice_restores(s0, s1, fx1, s2, fx2, item);
}

/// Toggling the AQI in the panel twice gives back the state.
proof fn lemma_toggle_twice_aqi(s0: Tempest, s1: Tempest, fx1: Seq<Effect>, s2: Tempest, fx2: Seq<Effect>)
    requires
        post_toggle_panel(s0, s1, fx1, PanelItem::Aqi),
        post_toggle_panel(s1, s2, fx2, PanelItem::Aqi),
    ensures
        s2 == s0,
{
    lemma_flip_twice_aqi(s0.config);
}

/// Flipping the AQI flag twice gives back the settings.
proof fn lemma_flip_twice_aqi(c: Config)
    ensures
        with_panel_flag(
            with_panel_flag(c, PanelItem::Aqi, !panel_flag(c, PanelItem::Aqi)),
            PanelItem::Aqi,
            !panel_flag(with_panel_flag(c, PanelItem::Aqi, !panel_flag(c, PanelItem::Aqi)), PanelItem::Aqi),
        ) == c,
{
    reveal(with_panel_flag);
}

/// Toggling the weather icon in the panel twice gives back the state.
proof fn lemma_toggle_twice_icon(s0: Tempest, s1: Tempest, fx1: Seq<Effect>, s2: Tempest, fx2: Seq<Effect>)
    requires
        post_toggle_panel(s0, s1, fx1, PanelItem::Icon),
        post_toggle_panel(s1, s2, fx2, PanelItem::Icon),
    ensures
        s2 == s0,
{
    lemma_flip_twice_icon(s0.config);
}

/// Flipping the weather icon flag twice gives back the settings.
proof fn lemma_flip_twice_icon(c: Config)
    ensures
        with_panel_flag(
            with_panel_flag(c, PanelItem::Icon, !panel_flag(c, PanelItem::Icon)),
            PanelItem::Icon,
            !panel_flag(with_panel_flag(c, PanelItem::Icon, !panel_flag(c, PanelItem::Icon)), PanelItem::Icon),
        ) == c,
{
    reveal(with_panel_flag);
}

/// Toggling the pressure in the panel twice gives back the state.
proof fn lemma_toggle_twice_pressure(s0: Tempest, s1: Tempest, fx1: Seq<Effect>, s2: Tempest, fx2: Seq<Effect>)
    requires
        post_toggle_panel(s0, s1, fx1, PanelItem::Pressure),
        post_toggle_panel(s1, s2, fx2, PanelItem::Pressure),
    ensures
        s2 == s0,
{
    lemma_flip_twice_pressure(s0.config);
}

/// Flipping the pressure flag twice gives back the settings.
proof fn lemma_flip_twice_pressure(c: Config)
    ensures
        with_panel_flag(
            with_panel_flag(c, PanelItem::Pressure, !panel_flag(c, PanelItem::Pressure)),
            PanelItem::Pressure,
            !panel_flag(with_panel_flag(c, PanelItem::Pressure, !panel_flag(c, PanelItem::Pressure)), PanelItem::Pressure),
        ) == c,
{
    reveal(with_panel_flag);
}

/// Toggling the dew point in the panel twice gives back the state.
proof fn lemma_toggle_twice_dew_point(s0: Tempest, s1: Tempest, fx1: Seq<Effect>, s2: Tempest, fx2: Seq<Effect>)
    requires
        post_toggle_panel(s0, s1, fx1, PanelItem::DewPoint),
        post_toggle_panel(s1, s2, fx2, PanelItem::DewPoint),
    ensures
        s2 == s0,
{
    lemma_flip_twice_dew_point(s0.config);
}

/// Flipping the dew point flag twice gives back the settings.
proof fn lemma_flip_twice_dew_point(c: Config)
    ensures
        with_panel_flag(
            with_panel_flag(c, PanelItem::DewPoint, !panel_flag(c, PanelItem::DewPoint)),
            PanelItem::DewPoint,
            !panel_flag(with_panel_flag(c, PanelItem::DewPoint, !panel_flag(c, PanelItem::DewPoint)), PanelItem::DewPoint),
        ) == c,
{
    reveal(with_panel_flag);
}

/// Toggling the sunrise/sunset in the panel twice gives back the state.
proof fn lemma_toggle_twice_sunrise_sunset(s0: Tempest, s1: Tempest, fx1: Seq<Effect>, s2: Tempest, fx2: Seq<Effect>)
    requires
        post_toggle_panel(s0, s1, fx1, PanelItem::SunriseSunset),
        post_toggle_panel(s1, s2, fx2, PanelItem::SunriseSunset),
    ensures
        s2 == s0,
{
    lemma_flip_twice_sunrise_sunset(s0.config);
}

/// Flipping the sunrise/sunset flag twice gives back the settings.
proof fn lemma_flip_twice_sunrise_sunset(c: Config)
    ensures
        with_panel_flag(
            with_panel_flag(c, PanelItem::SunriseSunset, !panel_flag(c, PanelItem::SunriseSunset)),
            PanelItem::SunriseSunset,
            !panel_flag(with_panel_flag(c, PanelItem::SunriseSunset, !panel_flag(c, PanelItem::SunriseSunset)), PanelItem::SunriseSunset),
        ) == c,
{
    reveal(with_panel_flag);
}

/// Switching auto-location on and then off again comes back to the location
/// that was active before.
pub proof fn auto_location_round_trip(
    s0: Tempest,
    s1: Tempest,
    fx1: Seq<Effect>,
    s2: Tempest,
    fx2: Seq<Effect>,
)
    requires
        !s0.config.use_auto_location,
        post_update(s0, s1, fx1, Message::ToggleAutoLocation),
        post_update(s1, s2, fx2, Message::ToggleAutoLocation),
    ensures
        !s2.config.use_auto_location,
        s2.config.latitude == s0.config.latitude,
        s2.config.longitude == s0.config.longitude,
        s2.config.location_name@ == s0.config.location_name@,
{
}

/// Turning the meteogram off never leaves the Graph tab active or as the tab
/// to reopen.
pub proof fn meteogram_off_leaves_graph(s: Tempest, t: Tempest, fx: Seq<Effect>)
    requires
        s.config.show_meteogram,
        post_update(s, t, fx, Message::ToggleShowMeteogram),
    ensures
        !t.config.show_meteogram,
        t.active_tab != PopupTab::Graph,
        t.config.default_tab != PopupTab::Graph,
{
}

/// Saving a search result never takes the bookmarks past eight.
pub proof fn bookmarks_stay_within_cap(
    s: Tempest,
    t: Tempest,
    fx: Seq<Effect>,
    index: usize,
    already_saved: bool,
)
    requires
        s.config.saved_locations@.len() <= MAX_SAVED_LOCATIONS,
        post_update(s, t, fx, Message::SaveLocation { index, already_saved }),
    ensures
        t.config.saved_locations@.len() <= MAX_SAVED_LOCATIONS,
{
}

/// The persisted refresh interval only ever changes to a number of minutes
/// from 1 to 1440 (one day).
pub proof fn committed_interval_in_range(s: Tempest, t: Tempest, fx: Seq<Effect>, m: Message)
    requires
        m is CommitRefreshInterval || m is TogglePopup || m is PopupClosed,
        post_update(s, t, fx, m),
    ensures
        t.config.refresh_interval_minutes == s.config.refresh_interval_minutes || 1
            <= t.config.refresh_interval_minutes <= 1440,
{
    reveal(post_commit_pending);
}

/// With alerts switched off, a refresh asks for no alerts.
pub proof fn alerts_off_stops_alert_fetches(
    s0: Tempest,
    s1: Tempest,
    fx1: Seq<Effect>,
    s2: Tempest,
    fx2: Seq<Effect>,
)
    requires
        s0.config.alerts_enabled,
        post_update(s0, s1, fx1, Message::ToggleAlertsEnabled),
        post_update(s1, s2, fx2, Message::RefreshWeather),
    ensures
        s1.alert_ids@.len() == 0,
        forall|i: int| 0 <= i < fx2.len() ==> !(#[trigger] fx2[i] is FetchAlerts),
{
}

/// An alert that cleared re-notifies when it is issued again: an id absent
/// from one alerts result is notified when the next result carries it (at
/// its first position there).
pub proof fn cleared_alert_renotifies(
    s0: Tempest,
    s1: Tempest,
    fx1: Seq<Effect>,
    s2: Tempest,
    fx2: Seq<Effect>,
    ids1: Vec<String>,
    ids2: Vec<String>,
    i: int,
)
    requires
        post_update(
            s0,
            s1,
            fx1,
            Message::AlertsUpdated { generation: s0.fetch_generation, result: Some(ids1) },
        ),
        post_update(
            s1,
            s2,
            fx2,
            Message::AlertsUpdated { generation: s1.fetch_generation, result: Some(ids2) },
        ),
        0 <= i < ids2@.len(),
        !views(ids1@).contains(ids2@[i]@),
        !views(ids2@).take(i).contains(ids2@[i]@),
    ensures
        fx2.contains(Effect::NotifyAlert { index: i as usize }),
{
    let seen = views(s1.seen_alert_ids@);
    let idv = views(ids2@);
    assert(seen =~= distinct(views(ids1@)));
    lemma_distinct_contains(views(ids1@), idv[i]);
    lemma_notified_at(seen, idv, i);
    let n = alert_notifications(seen, idv);
    let j = choose|j: int| 0 <= j < n.len() && n[j] == Effect::NotifyAlert { index: i as usize };
    assert(fx2[j] == Effect::NotifyAlert { index: i as usize });
}

/// The alert at position `i` is notified when its id was not seen and does
/// not occur earlier in the batch.
proof fn lemma_notified_at(seen: Seq<Seq<char>>, ids: Seq<Seq<char>>, i: int)
    requires
        0 <= i < ids.len(),
        !seen.contains(ids[i]),
        !ids.take(i).contains(ids[i]),
    ensures
        alert_notifications(seen, ids).contains(Effect::NotifyAlert { index: i as usize }),
    decreases ids.len(),
{
    let n = alert_notifications(seen, ids);
    if i == ids.len() - 1 {
        assert(ids.drop_last() =~= ids.take(i));
        assert(n.last() == Effect::NotifyAlert { index: i as usize });
        assert(n[n.len() - 1] == Effect::NotifyAlert { index: i as usize });
    } else {
        let p = ids.drop_last();
        assert(p[i] == ids[i]);
        assert(p.take(i) =~= ids.take(i));
        lemma_notified_at(seen, p, i);
        let m = alert_notifications(seen, p);
        let j = choose|j: int| 0 <= j < m.len() && m[j] == Effect::NotifyAlert { index: i as usize };
        assert(n[j] == m[j]);
    }
}

/// A failed weather result of the current request keeps a held reading on
/// the panel: the label and the error view are left as they were, and only the
/// stale marker is set.
pub proof fn failure_keeps_held_reading(s: Tempest, t: Tempest, fx: Seq<Effect>, now: i64)
    requires
        s.has_weather,
        post_update(
            s,
            t,
            fx,
            Message::WeatherUpdated { generation: s.fetch_generation, ok: false, now },
        ),
    ensures
        t.panel_label == s.panel_label,
        t.weather_error == s.weather_error,
        t.refresh_failed,
        t.has_weather,
{
}

/// After a good reading, a failed refresh still shows that reading's
/// temperature on the panel, marked stale, with no error view.
pub proof fn reading_survives_a_failed_refresh(
    s: Seq<Tempest>,
    fx: Seq<Seq<Effect>>,
    now: i64,
    later: i64,
)
    requires
        s.len() == 5,
        fx.len() == 4,
        s[0].fetch_generation < u64::MAX - 1,
        post_update(s[0], s[1], fx[0], Message::RefreshWeather),
        post_update(
            s[1],
            s[2],
            fx[1],
            Message::WeatherUpdated { generation: s[1].fetch_generation, ok: true, now },
        ),
        post_update(s[2], s[3], fx[2], Message::RefreshWeather),
        post_update(
            s[3],
            s[4],
            fx[3],
            Message::WeatherUpdated { generation: s[3].fetch_generation, ok: false, now: later },
        ),
    ensures
        s[4].panel_label == PanelLabel::Temperature(s[0].config.temperature_unit),
        s[4].refresh_failed,
        !s[4].weather_error,
        s[4].config.last_updated == Some(now),
{
    failure_keeps_held_reading(s[3], s[4], fx[3], later);
}

/// Every refresh starts the next request generation and asks, tagged with it,
/// for the weather, the air quality and exactly one pollen fetch whatever the
/// alerts setting; alerts are asked for exactly when they are enabled, and
/// nothing else is asked for.
pub proof fn refresh_asks_for_every_source(s: Tempest, t: Tempest, fx: Seq<Effect>)
    requires
        s.fetch_generation < u64::MAX,
        post_update(s, t, fx, Message::RefreshWeather),
    ensures
        t.fetch_generation == s.fetch_generation + 1,
        fx.contains(Effect::FetchWeather { generation: t.fetch_generation }),
        fx.contains(Effect::FetchAirQuality { generation: t.fetch_generation }),
        fx.contains(Effect::FetchPollen { generation: t.fetch_generation }),
        forall|i: int, j: int|
            0 <= i < fx.len() && 0 <= j < fx.len() && fx[i] is FetchPollen && fx[j] is FetchPollen
                ==> i == j,
        fx.contains(Effect::FetchAlerts { generation: t.fetch_generation })
            <==> s.config.alerts_enabled,
        forall|i: int|
            0 <= i < fx.len() ==> (#[trigger] fx[i] == Effect::FetchWeather {
                generation: t.fetch_generation,
            } || fx[i] == Effect::FetchAirQuality { generation: t.fetch_generation } || fx[i]
                == Effect::FetchAlerts { generation: t.fetch_generation } || fx[i]
                == Effect::FetchPollen { generation: t.fetch_generation }),
{
    let g = t.fetch_generation;
    if s.config.alerts_enabled {
        assert(fx[0] == Effect::FetchWeather { generation: g });
        assert(fx[1] == Effect::FetchAirQuality { generation: g });
        assert(fx[2] == Effect::FetchAlerts { generation: g });
        assert(fx[3] == Effect::FetchPollen { generation: g });
    } else {
        assert(fx[0] == Effect::FetchWeather { generation: g });
        assert(fx[1] == Effect::FetchAirQuality { generation: g });
        assert(fx[2] == Effect::FetchPollen { generation: g });
        if fx.contains(Effect::FetchAlerts { generation: g }) {
            let k = choose|k: int| 0 <= k < fx.len() && fx[k] == Effect::FetchAlerts { generation: g };
            assert(false);
        }
    }
}

/// Removing the bookmark at a valid position removes exactly that bookmark:
/// the ones before it stay where they were, the ones after it move up by
/// one, and the change is saved.
pub proof fn removal_drops_exactly_the_chosen_bookmark(
    s: Tempest,
    t: Tempest,
    fx: Seq<Effect>,
    idx: usize,
)
    requires
        idx < s.config.saved_locations@.len(),
        post_update(s, t, fx, Message::RemoveSavedLocation(idx)),
    ensures
        t.config.saved_locations@.len() == s.config.saved_locations@.len() - 1,
        forall|j: int| 0 <= j < idx ==> t.config.saved_locations@[j] == s.config.saved_locations@[j],
        forall|j: int|
            idx <= j < t.config.saved_locations@.len() ==> t.config.saved_locations@[j]
                == s.config.saved_locations@[j + 1],
        fx == seq![Effect::SaveConfig],
{
}

} // verus!
