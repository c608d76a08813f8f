//! Text-field edits, their commit, and the popup window.

use crate::state::{
    Tempest, Effect, post_commit_pending, post_commit_refresh, post_commit_token,
    post_popup_closed, post_toggle_popup, refresh_input_valid, token_matches,
};
use crate::text::{decimal_string, parse_u64, trim_str, trimmed, u64_from_str, u64_to_decimal};
use vstd::prelude::*;
use vstd::string::*;

verus! {

impl Tempest {

    /// The refresh interval a commit keeps, and the text the buffer shows
    /// afterwards: the parsed number when it is in 1..=1440 (the buffer as it
    /// is), otherwise the persisted interval (rendered in the buffer).
    #[verifier::spinoff_prover]
    pub(crate) fn committed_refresh(&self) -> (r: (bool, u64, String))
        ensures
            r.0 == refresh_input_valid(*self),
            r.0 ==> r.1 == u64_from_str(self.refresh_input@)->0 && r.2 == self.refresh_input,
            !r.0 ==> r.1 == self.config.refresh_interval_minutes && r.2@ == decimal_string(
                self.config.refresh_interval_minutes as nat,
            ),
    {
        let parsed = parse_u64(self.refresh_input.as_str());
        match parsed {
            Some(interval) => {
                if 1 <= interval && interval <= 1440 {
                    return (true, interval, self.refresh_input.clone());
                }
            },
            None => {},
        }
        (
            false,
            self.config.refresh_interval_minutes,
            u64_to_decimal(self.config.refresh_interval_minutes),
        )
    }

    /// The token a commit stores and the text the buffer shows afterwards.
    #[verifier::spinoff_prover]
    pub(crate) fn committed_token(&self) -> (r: (Option<String>, String))
        ensures
            token_matches(r.0, self.aqicn_token_input@),
            r.1@ == trimmed(self.aqicn_token_input@),
    {
        let trimmed_str = trim_str(self.aqicn_token_input.as_str());
        let token = if trimmed_str.unicode_len() == 0 {
            None
        } else {
            Some(String::from_str(trimmed_str))
        };
        (token, String::from_str(trimmed_str))
    }

    /// Commits the refresh-interval buffer: a number of minutes in 1..=1440
    /// is persisted; anything else reverts the buffer to the persisted value.
    #[verifier::spinoff_prover]
    pub fn commit_refresh_interval(&mut self) -> (fx: Vec<Effect>)
        ensures
            post_commit_refresh(*old(self), *final(self), fx@),
    {
        let (valid, interval, input) = self.committed_refresh();
        self.config.refresh_interval_minutes = interval;
        self.refresh_input = input;
        let mut fx: Vec<Effect> = Vec::new();
        if valid {
            fx.push(Effect::SaveConfig);
        }
        fx
    }

    /// Commits the AQI-token buffer: empty after trimming clears the token,
    /// otherwise the trimmed text is stored; the buffer is normalized to it.
    #[verifier::spinoff_prover]
    pub fn commit_aqicn_token(&mut self) -> (fx: Vec<Effect>)
        ensures
            post_commit_token(*old(self), *final(self), fx@),
    {
        let (token, input) = self.committed_token();
        self.config.aqicn_token = token;
        self.aqicn_token_input = input;
        let mut fx: Vec<Effect> = Vec::new();
        fx.push(Effect::SaveConfig);
        fx
    }

    /// Commits every pending edit when the popup closes: refresh interval,
    /// AQI token, and the active tab as the one to reopen.
    #[verifier::spinoff_prover]
    pub fn commit_pending_edits(&mut self) -> (fx: Vec<Effect>)
        ensures
            post_commit_pending(*old(self), *final(self), fx@),
    {
        reveal(post_commit_pending);
        let (valid, interval, refresh_input) = self.committed_refresh();
        let (token, token_input) = self.committed_token();
        self.config.refresh_interval_minutes = interval;
        self.refresh_input = refresh_input;
        self.config.aqicn_token = token;
        self.aqicn_token_input = token_input;
        self.config.default_tab = self.active_tab;
        let mut fx: Vec<Effect> = Vec::new();
        if valid {
            fx.push(Effect::SaveConfig);
        }
        fx.push(Effect::SaveConfig);
        fx.push(Effect::SaveConfig);
        fx
    }

    /// Opens the popup, or closes it after committing the pending edits.
    #[verifier::spinoff_prover]
    pub fn handle_toggle_popup(&mut self) -> (fx: Vec<Effect>)
        ensures
            post_toggle_popup(*old(self), *final(self), fx@),
    {
        if self.popup_open {
            self.popup_open = false;
            let mut fx = self.commit_pending_edits();
            let ghost f = fx@;
            fx.push(Effect::ClosePopup);
            assert(fx@.drop_last() =~= f);
            fx
        } else {
            self.popup_open = true;
            let mut fx: Vec<Effect> = Vec::new();
            fx.push(Effect::OpenPopup);
            fx.push(Effect::QueryScreenResolution);
            fx
        }
    }

    /// A popup window closed: when it is the open popup, the overlays are
    /// reset so a reopen lands on the tab, and the pending edits committed.
    #[verifier::spinoff_prover]
    pub fn popup_closed(&mut self, is_current: bool) -> (fx: Vec<Effect>)
        ensures
            post_popup_closed(*old(self), *final(self), fx@, is_current),
    {
        if self.popup_open && is_current {
            self.popup_open = false;
            self.showing_pollutants = false;
            self.showing_pollen = false;
            self.showing_locations = false;
            self.commit_pending_edits()
        } else {
            Vec::new()
        }
    }

    /// Records the search text; editing it clears the full-bookmarks notice.
    #[verifier::spinoff_prover]
    pub(crate) fn update_city_input(&mut self, v: String) -> (fx: Vec<Effect>)
        ensures
            *final(self) == (Tempest { city_input: v, saved_locations_full: false, ..*old(self) }),
            fx@ =~= Seq::<Effect>::empty(),
    {
        self.city_input = v;
        self.saved_locations_full = false;
        Vec::new()
    }

    /// Starts a city search for the typed text, when there is any.
    #[verifier::spinoff_prover]
    pub fn search_city(&self) -> (fx: Vec<Effect>)
        ensures
            fx@ =~= (if self.city_input@.len() > 0 {
                seq![Effect::SearchCity(self.city_input)]
            } else {
                Seq::<Effect>::empty()
            }),
    {
        let mut fx: Vec<Effect> = Vec::new();
        if self.city_input.as_str().unicode_len() > 0 {
            fx.push(Effect::SearchCity(self.city_input.clone()));
        }
        fx
    }

    /// Records the refresh-interval text; it is committed later.
    #[verifier::spinoff_prover]
    pub(crate) fn update_refresh_input(&mut self, v: String) -> (fx: Vec<Effect>)
        ensures
            *final(self) == (Tempest { refresh_input: v, ..*old(self) }),
            fx@ =~= Seq::<Effect>::empty(),
    {
        self.refresh_input = v;
        Vec::new()
    }

    /// Records the AQI-token text; it is committed later.
    #[verifier::spinoff_prover]
    pub(crate) fn update_token_input(&mut self, v: String) -> (fx: Vec<Effect>)
        ensures
            *final(self) == (Tempest { aqicn_token_input: v, ..*old(self) }),
            fx@ =~= Seq::<Effect>::empty(),
    {
        self.aqicn_token_input = v;
        Vec::new()
    }
}

} // verus!
