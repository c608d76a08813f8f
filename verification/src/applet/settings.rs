//! Display settings, tabs and sub-views.
use crate::config::{
    Config, MeasurementSystem, PopupTab, PressureUnit, TemperatureUnit, TimeAppletConfig,
};
use crate::state::{
    Tempest, Effect, PanelItem, config_with_units, post_measurement_system, post_pressure_unit,
    post_select_tab, post_system_time, post_tab_activated, post_temperature_unit,
    post_toggle_alerts, post_toggle_auto_units, post_toggle_meteogram, post_toggle_panel,
    post_toggle_pride, with_panel_flag, unit_effects,
};
use vstd::prelude::*;
use vstd::string::*;

verus! {

impl Tempest {

    /// Closes every sub-view overlay.
    #[verifier::spinoff_prover]
    pub(crate) fn leave_subviews(&mut self)
        ensures
            *final(self) == (Tempest {
                showing_pollutants: false,
                showing_pollen: false,
                showing_locations: false,
                ..*old(self)
            }),
    {
        self.showing_pollutants = false;
        self.showing_pollen = false;
        self.showing_locations = false;
    }

    /// Selects a tab and closes any sub-view overlay.
    #[verifier::spinoff_prover]
    pub(crate) fn select_tab(&mut self, tab: PopupTab)
        ensures
            *final(self) == (Tempest {
                active_tab: tab,
                showing_pollutants: false,
                showing_pollen: false,
                showing_locations: false,
                ..*old(self)
            }),
    {
        self.active_tab = tab;
        self.leave_subviews();
    }

    /// Replaces the settings' alerts switch.
    #[verifier::spinoff_prover]
    fn set_alerts_enabled(&mut self, on: bool)
        ensures
            *final(self) == (Tempest {
                config: Config { alerts_enabled: on, ..old(self).config },
                ..*old(self)
            }),
    {
        self.config.alerts_enabled = on;
    }

    /// Turns weather alerts on or off.
    #[verifier::spinoff_prover]
    pub fn toggle_alerts_enabled(&mut self) -> (fx: Vec<Effect>)
        ensures
            post_toggle_alerts(*old(self), *final(self), fx@),
    {
        let on = !self.config.alerts_enabled;
        self.set_alerts_enabled(on);
        let mut fx: Vec<Effect> = Vec::new();
        if !on {
            self.alert_ids = Vec::new();
            fx.push(Effect::ClearAlerts);
        }
        fx.push(Effect::SaveConfig);
        fx.push(Effect::RefreshWeather);
        fx
    }

    /// Replaces the settings' automatic-units switch.
    #[verifier::spinoff_prover]
    fn set_auto_units(&mut self, on: bool)
        ensures
            *final(self) == (Tempest {
                config: Config { auto_units: on, ..old(self).config },
                ..*old(self)
            }),
    {
        self.config.auto_units = on;
    }

    /// Applies the stored country's units when automatic units are on and a
    /// country is known; otherwise changes nothing.
    #[verifier::spinoff_prover]
    fn units_from_stored_country(&mut self) -> (fx: Vec<Effect>)
        ensures
            match old(self).config.country {
                Some(c) if old(self).config.auto_units => {
                    &&& *final(self) == (Tempest {
                        config: config_with_units(old(self).config, c@),
                        ..*old(self)
                    })
                    &&& fx@ == unit_effects(old(self).config)
                },
                _ => *final(self) == *old(self) && fx@ =~= Seq::<Effect>::empty(),
            },
    {
        let country = match &self.config.country {
            Some(c) => Some(c.clone()),
            None => None,
        };
        match country {
            Some(c) => {
                if self.config.auto_units {
                    self.apply_units_for_country(c.as_str())
                } else {
                    Vec::new()
                }
            },
            None => Vec::new(),
        }
    }

    /// Turns automatic units on or off; on applies the stored country's units.
    #[verifier::spinoff_prover]
    pub fn toggle_auto_units(&mut self) -> (fx: Vec<Effect>)
        ensures
            post_toggle_auto_units(*old(self), *final(self), fx@),
    {
        let on = !self.config.auto_units;
        self.set_auto_units(on);
        let mut fx = self.units_from_stored_country();
        fx.push(Effect::SaveConfig);
        fx.push(Effect::RefreshWeather);
        fx
    }

    /// Sets whether the panel shows an item.
    #[verifier::spinoff_prover]
    fn set_panel_flag(&mut self, item: PanelItem, v: bool)
        ensures
            *final(self) == (Tempest {
                config: with_panel_flag(old(self).config, item, v),
                ..*old(self)
            }),
    {
        let c = &self.config;
        let (aqi, icon, pressure, dew_point, sun) = match item {
            PanelItem::Aqi => (v, c.show_icon_in_panel, c.show_pressure_in_panel, c.show_dew_point_in_panel, c.show_sunrise_sunset_in_panel),
            PanelItem::Icon => (c.show_aqi_in_panel, v, c.show_pressure_in_panel, c.show_dew_point_in_panel, c.show_sunrise_sunset_in_panel),
            PanelItem::Pressure => (c.show_aqi_in_panel, c.show_icon_in_panel, v, c.show_dew_point_in_panel, c.show_sunrise_sunset_in_panel),
            PanelItem::DewPoint => (c.show_aqi_in_panel, c.show_icon_in_panel, c.show_pressure_in_panel, v, c.show_sunrise_sunset_in_panel),
            PanelItem::SunriseSunset => (c.show_aqi_in_panel, c.show_icon_in_panel, c.show_pressure_in_panel, c.show_dew_point_in_panel, v),
        };
        self.config.show_aqi_in_panel = aqi;
        self.config.show_icon_in_panel = icon;
        self.config.show_pressure_in_panel = pressure;
        self.config.show_dew_point_in_panel = dew_point;
        self.config.show_sunrise_sunset_in_panel = sun;
        proof {
            reveal(with_panel_flag);
        }
    }

    /// Shows or hides a panel item.
    #[verifier::spinoff_prover]
    pub fn toggle_panel_item(&mut self, item: PanelItem) -> (fx: Vec<Effect>)
        ensures
            post_toggle_panel(*old(self), *final(self), fx@, item),
    {
        let shown = match item {
            PanelItem::Aqi => self.config.show_aqi_in_panel,
            PanelItem::Icon => self.config.show_icon_in_panel,
            PanelItem::Pressure => self.config.show_pressure_in_panel,
            PanelItem::DewPoint => self.config.show_dew_point_in_panel,
            PanelItem::SunriseSunset => self.config.show_sunrise_sunset_in_panel,
        };
        self.set_panel_flag(item, !shown);
        let mut fx: Vec<Effect> = Vec::new();
        fx.push(Effect::SaveConfig);
        fx
    }

    /// Replaces the meteogram switch, the tab to reopen and the active tab.
    #[verifier::spinoff_prover]
    fn set_meteogram_tabs(&mut self, on: bool, default_tab: PopupTab, active: PopupTab)
        ensures
            *final(self) == (Tempest {
                config: Config { show_meteogram: on, default_tab, ..old(self).config },
                active_tab: active,
                ..*old(self)
            }),
    {
        self.config.show_meteogram = on;
        self.config.default_tab = default_tab;
        self.active_tab = active;
    }

    /// Turns the meteogram on or off; off moves a Graph tab to Current.
    #[verifier::spinoff_prover]
    pub fn toggle_show_meteogram(&mut self) -> (fx: Vec<Effect>)
        ensures
            post_toggle_meteogram(*old(self), *final(self), fx@),
    {
        let on = !self.config.show_meteogram;
        let reset = !on && (self.active_tab == PopupTab::Graph || self.config.default_tab
            == PopupTab::Graph);
        let active = if reset {
            PopupTab::Current
        } else {
            self.active_tab
        };
        let default_tab = if reset {
            PopupTab::Current
        } else {
            self.config.default_tab
        };
        self.set_meteogram_tabs(on, default_tab, active);
        let mut fx: Vec<Effect> = Vec::new();
        fx.push(Effect::RebuildTabModel);
        fx.push(Effect::SaveConfig);
        fx
    }

    /// Replaces the Pride accent switch.
    #[verifier::spinoff_prover]
    fn set_pride_accent(&mut self, on: bool)
        ensures
            *final(self) == (Tempest {
                config: Config { pride_accent: on, ..old(self).config },
                ..*old(self)
            }),
    {
        self.config.pride_accent = on;
    }

    /// Turns the June Pride accent on or off.
    #[verifier::spinoff_prover]
    pub fn toggle_pride_accent(&mut self) -> (fx: Vec<Effect>)
        ensures
            post_toggle_pride(*old(self), *final(self), fx@),
    {
        let on = !self.config.pride_accent;
        self.set_pride_accent(on);
        let mut fx: Vec<Effect> = Vec::new();
        fx.push(Effect::SaveConfig);
        fx
    }

    /// Selects a tab from a header button and rebuilds the tab bar.
    #[verifier::spinoff_prover]
    pub(crate) fn select_tab_rebuilding(&mut self, tab: PopupTab) -> (fx: Vec<Effect>)
        ensures
            post_select_tab(*old(self), *final(self), fx@, tab),
    {
        self.active_tab = tab;
        self.showing_pollutants = false;
        self.showing_pollen = false;
        self.showing_locations = false;
        let mut fx: Vec<Effect> = Vec::new();
        fx.push(Effect::RebuildTabModel);
        fx
    }

    /// A tab-bar segment was activated (the bar already shows it).
    #[verifier::spinoff_prover]
    pub(crate) fn tab_activated(&mut self, tab: Option<PopupTab>) -> (fx: Vec<Effect>)
        ensures
            post_tab_activated(*old(self), *final(self), fx@, tab),
    {
        match tab {
            Some(t) => self.select_tab(t),
            None => {},
        }
        Vec::new()
    }

    /// Replaces the temperature unit.
    #[verifier::spinoff_prover]
    fn set_temperature_unit(&mut self, u: TemperatureUnit)
        ensures
            *final(self) == (Tempest {
                config: Config { temperature_unit: u, ..old(self).config },
                ..*old(self)
            }),
    {
        self.config.temperature_unit = u;
    }

    /// Replaces the measurement system.
    #[verifier::spinoff_prover]
    fn set_measurement_system(&mut self, m: MeasurementSystem)
        ensures
            *final(self) == (Tempest {
                config: Config { measurement_system: m, ..old(self).config },
                ..*old(self)
            }),
    {
        self.config.measurement_system = m;
    }

    /// Replaces the pressure unit.
    #[verifier::spinoff_prover]
    fn set_pressure_unit(&mut self, p: PressureUnit)
        ensures
            *final(self) == (Tempest {
                config: Config { pressure_unit: p, ..old(self).config },
                ..*old(self)
            }),
    {
        self.config.pressure_unit = p;
    }

    /// A temperature unit was chosen in the settings.
    #[verifier::spinoff_prover]
    pub(crate) fn temperature_unit_activated(&mut self, unit: Option<TemperatureUnit>) -> (fx: Vec<Effect>)
        ensures
            post_temperature_unit(*old(self), *final(self), fx@, unit),
    {
        match unit {
            Some(u) => {
                self.set_temperature_unit(u);
                let mut fx: Vec<Effect> = Vec::new();
                fx.push(Effect::SaveConfig);
                fx.push(Effect::RefreshWeather);
                fx
            },
            None => Vec::new(),
        }
    }

    /// A measurement system was chosen in the settings.
    #[verifier::spinoff_prover]
    pub(crate) fn measurement_activated(&mut self, system: Option<MeasurementSystem>) -> (fx: Vec<Effect>)
        ensures
            post_measurement_system(*old(self), *final(self), fx@, system),
    {
        match system {
            Some(m) => {
                self.set_measurement_system(m);
                let mut fx: Vec<Effect> = Vec::new();
                fx.push(Effect::SaveConfig);
                fx.push(Effect::RefreshWeather);
                fx
            },
            None => Vec::new(),
        }
    }

    /// A pressure unit was chosen in the settings.
    #[verifier::spinoff_prover]
    pub(crate) fn pressure_unit_activated(&mut self, unit: Option<PressureUnit>) -> (fx: Vec<Effect>)
        ensures
            post_pressure_unit(*old(self), *final(self), fx@, unit),
    {
        match unit {
            Some(p) => {
                self.set_pressure_unit(p);
                let mut fx: Vec<Effect> = Vec::new();
                fx.push(Effect::SaveConfig);
                fx
            },
            None => Vec::new(),
        }
    }

    /// The desktop switched between 12- and 24-hour time.
    #[verifier::spinoff_prover]
    pub fn handle_system_time_config(&mut self, c: TimeAppletConfig) -> (fx: Vec<Effect>)
        ensures
            post_system_time(*old(self), *final(self), fx@, c),
    {
        self.military_time = c.military_time;
        let mut fx: Vec<Effect> = Vec::new();
        fx.push(Effect::ClearMeteogramCache);
        if self.config.last_updated.is_some() {
            fx.push(Effect::UpdateTimestampDisplay);
        }
        fx
    }

    /// Shows or hides the pollutants sub-view.
    #[verifier::spinoff_prover]
    pub(crate) fn set_showing_pollutants(&mut self, v: bool) -> (fx: Vec<Effect>)
        ensures
            *final(self) == (Tempest { showing_pollutants: v, ..*old(self) }),
            fx@ =~= Seq::<Effect>::empty(),
    {
        self.showing_pollutants = v;
        Vec::new()
    }

    /// Shows or hides the pollen sub-view.
    #[verifier::spinoff_prover]
    pub(crate) fn set_showing_pollen(&mut self, v: bool) -> (fx: Vec<Effect>)
        ensures
            *final(self) == (Tempest { showing_pollen: v, ..*old(self) }),
            fx@ =~= Seq::<Effect>::empty(),
    {
        self.showing_pollen = v;
        Vec::new()
    }

    /// Shows or hides the bookmarks sub-view.
    #[verifier::spinoff_prover]
    pub(crate) fn set_showing_locations(&mut self, v: bool) -> (fx: Vec<Effect>)
        ensures
            *final(self) == (Tempest { showing_locations: v, ..*old(self) }),
            fx@ =~= Seq::<Effect>::empty(),
    {
        self.showing_locations = v;
        Vec::new()
    }
}

} // verus!
