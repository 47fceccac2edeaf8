//! The Studio plugin that is handed out, and what is said after its installation.
use vstd::prelude::*;

use crate::text::concat3;

verus! {

/// The file that holds the Studio plugin.
pub struct PluginBundle {
    bytes: Vec<u8>,
}

impl View for PluginBundle {
    type V = Seq<u8>;

    closed spec fn view(&self) -> Seq<u8> {
        self.bytes@
    }
}

impl PluginBundle {
    /// The bundle that consists of `bytes`.
    pub fn new(bytes: Vec<u8>) -> (bundle: Self)
        ensures
            bundle@ == bytes@,
    {
        PluginBundle { bytes }
    }
}

/// The bytes of the plugin file.
pub fn plugin_bytes(bundle: &PluginBundle) -> (bytes: &[u8])
    ensures
        bytes@ == bundle@,
{
    bundle.bytes.as_slice()
}

/// What stands before the report on the plugin integration.
pub const READY_TEXT: &'static str = "clockp MCP Studio plugin is ready.\nPlease restart Studio to apply the plugin changes.\n\nTools included:\n- run_code\n- insert_model\n- get_console_output\n- launch_studio_session\n- start_stop_play\n- run_script_in_play_mode\n- get_studio_mode\n\nPlugin integration:\n";

/// What stands after the report on the plugin integration.
pub const NOTE_TEXT: &'static str = "\n\nNote: clock-p platform users should access Roblox Studio through clock-p skills and high-level scripts, not by configuring this server directly as an LLM MCP client.\nTo uninstall, delete the MCPStudioPlugin.rbxm from your Plugins directory.";

/// What is said after an installation.
pub fn get_message(successes: &str) -> (message: String)
    ensures
        message@ == READY_TEXT@ + successes@ + NOTE_TEXT@,
{
    concat3(READY_TEXT, successes, NOTE_TEXT)
}

} // verus!
