use job_monitor::profiles::built_in_agent_profiles;
use job_monitor::profiles::find_agent_profile;
use job_monitor::profiles::find_agent_profile_by_instructions;
use job_monitor::profiles::find_agent_profile_role_config;
use job_monitor::profiles::profile_has_capability;
use job_monitor::profiles::ProfileCapability;
use job_monitor::profiles::DEFAULT_AGENT_PROFILE_ID;
use job_monitor::profiles::SCIENTIFIC_ALGORITHM_PROFILE_ID;
use job_monitor::profiles::SCIENTIFIC_ALGORITHM_PROMPT;
use job_monitor::profiles::SCIENTIFIC_BRAINSTORMS_PROFILE_ID;
use job_monitor::profiles::SCIENTIFIC_MEASUREMENTS_PROFILE_ID;
use job_monitor::profiles::SCIENTIFIC_SIMULATIONS_PROFILE_ID;

#[test]
fn default_profile_keeps_shipped_instructions() {
    let default = find_agent_profile(DEFAULT_AGENT_PROFILE_ID).expect("default profile");
    assert_eq!(default.display_name, "Default Codex");
    assert_eq!(default.base_instructions, None);
    assert!(default.roles.is_empty());
    for profile in built_in_agent_profiles().iter().skip(1) {
        assert!(profile.base_instructions.is_some(), "{} replaces instructions", profile.id);
    }
    assert_eq!(built_in_agent_profiles()[0].id, DEFAULT_AGENT_PROFILE_ID);
}

#[test]
fn scientific_prompts_identify_their_profiles() {
    for profile in built_in_agent_profiles() {
        if let Some(text) = profile.base_instructions {
            let found = find_agent_profile_by_instructions(text).expect("prompt is known");
            assert_eq!(found.id, profile.id);
        }
    }
    assert!(SCIENTIFIC_ALGORITHM_PROMPT.starts_with("You are FermiLink Scientific Algorithm Codex"));
    assert_eq!(find_agent_profile_by_instructions("You are Codex"), None);
    assert_eq!(find_agent_profile("no-such-profile"), None);
}

#[test]
fn job_monitor_capability_follows_the_profile() {
    assert!(profile_has_capability(SCIENTIFIC_ALGORITHM_PROFILE_ID, ProfileCapability::JobMonitor));
    assert!(profile_has_capability(SCIENTIFIC_SIMULATIONS_PROFILE_ID, ProfileCapability::JobMonitor));
    assert!(profile_has_capability(SCIENTIFIC_MEASUREMENTS_PROFILE_ID, ProfileCapability::JobMonitor));
    assert!(!profile_has_capability(DEFAULT_AGENT_PROFILE_ID, ProfileCapability::JobMonitor));
    assert!(!profile_has_capability(SCIENTIFIC_BRAINSTORMS_PROFILE_ID, ProfileCapability::JobMonitor));
    assert!(!profile_has_capability("unknown", ProfileCapability::JobMonitor));
}

#[test]
fn role_configs_resolve_by_virtual_path() {
    for profile in built_in_agent_profiles() {
        for role in profile.roles {
            let contents = find_agent_profile_role_config(role.config_path).expect("role config");
            assert_eq!(contents, role.config_contents);
            assert!(role.config_path.starts_with(&format!("agent_profile/{}/", profile.id)));
        }
    }
    assert_eq!(
        find_agent_profile_role_config("agent_profile/scientific-algorithm/gpu_implementer.toml"),
        Some("model = \"terra\"\nmodel_reasoning_effort = \"high\"\n")
    );
    assert_eq!(find_agent_profile_role_config("agents/unknown.toml"), None);
}

#[test]
fn compact_before_wake_defaults_per_profile() {
    let on = |id: &str| find_agent_profile(id).map(|p| p.compact_before_wake);
    assert_eq!(on(SCIENTIFIC_SIMULATIONS_PROFILE_ID), Some(true));
    assert_eq!(on(SCIENTIFIC_MEASUREMENTS_PROFILE_ID), Some(true));
    assert_eq!(on(SCIENTIFIC_ALGORITHM_PROFILE_ID), Some(false));
}

#[test]
fn picker_marks_current_and_default() {
    let items = job_monitor::profiles::profile_picker_items(SCIENTIFIC_SIMULATIONS_PROFILE_ID);
    assert_eq!(items.len(), built_in_agent_profiles().len());
    assert_eq!(items[0].name, "Default Codex");
    assert!(items[0].is_default && !items[0].is_current);
    let current: Vec<&str> = items.iter().filter(|i| i.is_current).map(|i| i.id).collect();
    assert_eq!(current, vec![SCIENTIFIC_SIMULATIONS_PROFILE_ID]);
}

#[test]
fn picker_waits_for_the_session() {
    assert_eq!(
        job_monitor::profiles::profile_picker(false, DEFAULT_AGENT_PROFILE_ID).err(),
        Some("Profile selection is disabled until startup completes.")
    );
    let items = job_monitor::profiles::profile_picker(true, DEFAULT_AGENT_PROFILE_ID).expect("items");
    assert!(items[0].is_current && items[0].is_default);
}
