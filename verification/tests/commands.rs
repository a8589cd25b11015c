use creature_simulation::commands::{
    command_help, help_listing, interpret_get, interpret_kill, interpret_set, interpret_spawn,
    interpret_time, parse_bool, parse_u32, parse_usize, unknown_help, KillTarget, SetRequest,
    Setting, SpawnKind, SpawnRequest, TimeRequest,
};

fn strings(xs: &[&str]) -> Vec<String> {
    xs.iter().map(|s| s.to_string()).collect()
}

#[test]
fn parse_u32_like_std() {
    for s in ["0", "42", "+42", "0042", "4294967295", "4294967296", "", "+", "-1", "1a", " 1", "١"] {
        assert_eq!(parse_u32(s), s.parse::<u32>().ok(), "input {:?}", s);
    }
}

#[test]
fn parse_usize_like_std() {
    for s in ["0", "7", "+18446744073709551615", "18446744073709551616", "x", "--1"] {
        assert_eq!(parse_usize(s), s.parse::<usize>().ok(), "input {:?}", s);
    }
}

#[test]
fn parse_bool_like_std() {
    for s in ["true", "false", "True", "", "1", "false "] {
        assert_eq!(parse_bool(s), s.parse::<bool>().ok(), "input {:?}", s);
    }
}

#[test]
fn spawn_arguments() {
    assert_eq!(
        interpret_spawn(&strings(&["food"])),
        Err("Usage: spawn <type> <count> [x] [y]".to_string())
    );
    assert_eq!(interpret_spawn(&strings(&["food", "many"])), Err("Invalid count".to_string()));
    assert_eq!(
        interpret_spawn(&strings(&["rock", "2"])),
        Err("Unknown entity type: 'rock'".to_string())
    );
    assert_eq!(
        interpret_spawn(&strings(&["creature", "3", "10", "20"])),
        Ok(SpawnRequest { kind: SpawnKind::Creature, count: 3 })
    );
    assert_eq!(
        interpret_spawn(&strings(&["water", "1"])),
        Ok(SpawnRequest { kind: SpawnKind::Water, count: 1 })
    );
    // The count is checked before the type
    assert_eq!(interpret_spawn(&strings(&["rock", "x"])), Err("Invalid count".to_string()));
}

#[test]
fn kill_arguments() {
    assert_eq!(
        interpret_kill(&strings(&[])),
        Err("Usage: kill <all|creatures|resources|entity_id>".to_string())
    );
    assert_eq!(interpret_kill(&strings(&["all"])), Ok(KillTarget::All));
    assert_eq!(interpret_kill(&strings(&["creatures"])), Ok(KillTarget::Creatures));
    assert_eq!(interpret_kill(&strings(&["resources"])), Ok(KillTarget::Resources));
    assert_eq!(interpret_kill(&strings(&["12"])), Ok(KillTarget::Entity(12)));
    assert_eq!(
        interpret_kill(&strings(&["twelve"])),
        Err("Invalid entity ID: 'twelve'".to_string())
    );
}

#[test]
fn set_arguments() {
    assert_eq!(
        interpret_set(&strings(&["timescale"])),
        Err("Usage: set <variable> <value>".to_string())
    );
    assert_eq!(
        interpret_set(&strings(&["timescale", "2.5"])),
        Ok(SetRequest::Timescale("2.5".to_string()))
    );
    assert_eq!(
        interpret_set(&strings(&["creature_speed", "40"])),
        Ok(SetRequest::CreatureSpeed("40".to_string()))
    );
    assert_eq!(interpret_set(&strings(&["debug_mode", "true"])), Ok(SetRequest::DebugMode(true)));
    assert_eq!(
        interpret_set(&strings(&["debug_mode", "yes"])),
        Err("Invalid boolean value (use true/false)".to_string())
    );
    assert_eq!(
        interpret_set(&strings(&["gravity", "1"])),
        Err("Unknown variable: 'gravity'. Available: timescale, creature_speed, debug_mode".to_string())
    );
}

#[test]
fn get_arguments() {
    assert_eq!(interpret_get(&strings(&[])), Err("Usage: get <variable>".to_string()));
    assert_eq!(interpret_get(&strings(&["debug_mode"])), Ok(Setting::DebugMode));
    assert_eq!(interpret_get(&strings(&["timescale"])), Ok(Setting::Timescale));
    assert_eq!(interpret_get(&strings(&["x"])), Err("Unknown variable: 'x'".to_string()));
}

#[test]
fn time_arguments() {
    assert_eq!(interpret_time(&strings(&[])), TimeRequest::Show);
    assert_eq!(interpret_time(&strings(&["pause"])), TimeRequest::Pause);
    assert_eq!(interpret_time(&strings(&["resume"])), TimeRequest::Resume);
    assert_eq!(interpret_time(&strings(&["4"])), TimeRequest::Speed("4".to_string()));
}

#[test]
fn help_listing_format() {
    let listing = help_listing(&strings(&["clear", "help"]));
    assert!(listing.contains("Available commands"));
    assert_eq!(
        listing,
        "Available commands:\n  clear\n  help\n\nType 'help <command>' for more information."
    );
    assert_eq!(command_help("Clear the console output", "clear"), "Clear the console output\nUsage: clear");
    assert_eq!(unknown_help("fly"), "Unknown command: 'fly'");
}
