//! Status shapes the host shell reports: plugin service status, plugin UI
//! descriptors, and the outcome of opening a webview panel.

use vstd::prelude::*;

verus! {

/// The state of the plugin service.
#[derive(Debug, Clone)]
pub struct PluginServiceStatus {
    pub enabled: bool,
    pub plugin_count: usize,
    pub plugins_dir: String,
}

/// One plugin that offers a user interface.
#[derive(Debug, Clone)]
pub struct PluginUIInfo {
    pub plugin_id: String,
    pub name: String,
    pub description: String,
    pub icon: String,
    /// Where the interface may appear.
    pub surfaces: Vec<String>,
}

/// The outcome of opening a webview panel.
#[derive(Debug, Clone)]
pub struct CreateWebviewResponse {
    pub success: bool,
    pub panel_id: String,
    pub error: Option<String>,
}

impl CreateWebviewResponse {
    /// A panel opened under this id.
    pub fn opened(panel_id: String) -> (r: Self)
        ensures
            r.success,
            r.panel_id@ == panel_id@,
            r.error is None,
    {
        CreateWebviewResponse { success: true, panel_id, error: None }
    }

    /// Opening the panel failed.
    pub fn failed(panel_id: String, error: String) -> (r: Self)
        ensures
            !r.success,
            r.panel_id@ == panel_id@,
            match r.error {
                Some(e) => e@ == error@,
                None => false,
            },
    {
        CreateWebviewResponse { success: false, panel_id, error: Some(error) }
    }
}

} // verus!
