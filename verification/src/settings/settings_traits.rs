//! Anything which implements this trait wants to know about the configuration and any changes to it

use crate::settings::settings_structs::NovaSettings;
use vstd::prelude::*;

verus! {

pub trait ConfigListener {
    /// Tells the listeners that there has been a change in the configuration
    ///
    /// This method is called throughout the renderer's lifetime whenever a configuration value
    /// changes. This method should handle changing configuration values such as the size of
    /// the window and what shaderpack the user has loaded
    ///
    /// Note that this method only receives the read-write config values (the 'settings' node)
    fn on_config_change(&self, new_config: &NovaSettings);

    /// Tells listeners that the configuration has been loaded
    ///
    /// When the renderer starts up, this method is called on all config listeners, then
    /// on_config_change is called. on_config_change should be used to listen for any config
    /// values that change throughout the program's life, so then this method should be used
    /// for any initial configuration whose values will not change throughout the program's
    /// lifetime
    fn on_config_loaded(&self, config: &NovaSettings);
}

} // verus!
