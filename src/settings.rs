//! Settings: the server URL and whether the settings dialog is open.

use vstd::prelude::*;
use vstd::string::*;
use crate::app_state::DEFAULT_SERVER_URL;
use crate::events::AppEvent;

verus! {

/// The settings feature's state.
#[derive(Debug)]
pub struct SettingsState {
    pub server_url: String,
    pub modal_open: bool,
}

impl SettingsState {
    /// The default URL, dialog closed.
    pub fn new() -> (r: Self)
        ensures
            r.server_url@ == DEFAULT_SERVER_URL@,
            !r.modal_open,
    {
        SettingsState { server_url: DEFAULT_SERVER_URL.to_string(), modal_open: false }
    }

    /// The server URL.
    pub fn server_url(&self) -> (r: String)
        ensures
            r == self.server_url,
    {
        self.server_url.clone()
    }

    /// Whether the dialog is open.
    pub fn is_modal_open(&self) -> (r: bool)
        ensures
            r == self.modal_open,
    {
        self.modal_open
    }

    /// Sets the server URL.
    pub fn set_server_url(&mut self, url: String)
        ensures
            final(self).server_url == url,
            final(self).modal_open == old(self).modal_open,
    {
        self.server_url = url;
    }

    /// Opens the dialog.
    pub fn open_modal(&mut self)
        ensures
            final(self).modal_open,
            final(self).server_url == old(self).server_url,
    {
        self.modal_open = true;
    }

    /// Closes the dialog.
    pub fn close_modal(&mut self)
        ensures
            !final(self).modal_open,
            final(self).server_url == old(self).server_url,
    {
        self.modal_open = false;
    }

    /// Opens the dialog if closed, closes it if open.
    pub fn toggle_modal(&mut self)
        ensures
            final(self).modal_open == !old(self).modal_open,
            final(self).server_url == old(self).server_url,
    {
        self.modal_open = !self.modal_open;
    }

    /// Sets a new server URL and closes the dialog; the returned event asks
    /// for a full disconnect and reconnect to that URL.
    pub fn update_server_url(&mut self, url: String) -> (r: AppEvent)
        ensures
            final(self).server_url == url,
            !final(self).modal_open,
            r == AppEvent::ServerUrlChanged(url),
    {
        let event = AppEvent::ServerUrlChanged(url.clone());
        self.server_url = url;
        self.modal_open = false;
        event
    }

    /// Applies an event from the bus to the settings feature.
    pub fn apply_event(&mut self, event: &AppEvent)
        ensures
            event matches AppEvent::SettingsModalToggled(open) ==> final(self).modal_open == open,
            !(event is SettingsModalToggled) ==> final(self).modal_open == old(self).modal_open,
            final(self).server_url == old(self).server_url,
    {
        match event {
            AppEvent::SettingsModalToggled(open) => {
                if *open {
                    self.open_modal();
                } else {
                    self.close_modal();
                }
            },
            _ => {},
        }
    }
}

} // verus!
