use vstd::prelude::*;

use crate::i18n::{lookup, I18n};

verus! {

/// The `/abort` command: stops the agent's current turn.
pub struct AbortCommand;

/// The `/clear` command: drops the channel's session and its saved history.
pub struct ClearCommand;

/// The `/config` command: shows and changes the channel's settings.
pub struct ConfigCommand;

/// The `/skill` command: loads a named skill into the agent.
pub struct SkillCommand;

impl AbortCommand {
    pub fn name(&self) -> (r: &'static str)
        ensures
            r@ == "abort"@,
    {
        "abort"
    }

    pub fn description(&self, i18n: &I18n) -> (r: String)
        ensures
            r@ == lookup(i18n@, "cmd_abort_desc"@),
    {
        i18n.get("cmd_abort_desc")
    }
}

impl ClearCommand {
    pub fn name(&self) -> (r: &'static str)
        ensures
            r@ == "clear"@,
    {
        "clear"
    }

    pub fn description(&self, i18n: &I18n) -> (r: String)
        ensures
            r@ == lookup(i18n@, "cmd_clear_desc"@),
    {
        i18n.get("cmd_clear_desc")
    }
}

impl ConfigCommand {
    pub fn name(&self) -> (r: &'static str)
        ensures
            r@ == "config"@,
    {
        "config"
    }

    pub fn description(&self, i18n: &I18n) -> (r: String)
        ensures
            r@ == lookup(i18n@, "cmd_config_desc"@),
    {
        i18n.get("cmd_config_desc")
    }
}

impl SkillCommand {
    pub fn name(&self) -> (r: &'static str)
        ensures
            r@ == "skill"@,
    {
        "skill"
    }

    pub fn description(&self, i18n: &I18n) -> (r: String)
        ensures
            r@ == lookup(i18n@, "cmd_skill_desc"@),
    {
        i18n.get("cmd_skill_desc")
    }
}

} // verus!
