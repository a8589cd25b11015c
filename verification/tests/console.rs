use creature_simulation::commands::{command_help, help_listing};
use creature_simulation::console::{DebugConsole, MessageLevel, MAX_HISTORY, MAX_OUTPUT_LINES};

fn strings(xs: &[&str]) -> Vec<String> {
    xs.iter().map(|s| s.to_string()).collect()
}

#[test]
fn test_console_toggle() {
    let mut console: DebugConsole<f32> = DebugConsole::new();
    assert!(!console.visible);
    console.toggle();
    assert!(console.visible);
    console.toggle();
    assert!(!console.visible);
}

#[test]
fn toggle_on_clears_input_and_navigation() {
    let mut console: DebugConsole<f32> = DebugConsole::new();
    console.input = "half typed".to_string();
    console.history_index = Some(0);
    console.toggle();
    assert_eq!(console.input, "");
    assert_eq!(console.history_index, None);
    console.input = "kept".to_string();
    console.toggle();
    assert_eq!(console.input, "kept");
}

#[test]
fn test_console_log() {
    let mut console: DebugConsole<f32> = DebugConsole::new();
    console.log("Test message".to_string(), MessageLevel::Info, 0.0);
    assert_eq!(console.output.len(), 1);
    assert_eq!(console.output[0].text, "Test message");
    for i in 0..MAX_OUTPUT_LINES + 10 {
        console.log(format!("Message {}", i), MessageLevel::Info, i as f32);
    }
    assert_eq!(console.output.len(), MAX_OUTPUT_LINES);
}

#[test]
fn log_keeps_the_newest_lines() {
    let mut console: DebugConsole<u32> = DebugConsole::new();
    for i in 0..60u32 {
        console.log(format!("Message {}", i), MessageLevel::Warning, i);
    }
    assert_eq!(console.output.len(), 50);
    assert_eq!(console.output[0].text, "Message 10");
    assert_eq!(console.output[49].text, "Message 59");
    assert_eq!(console.output[49].timestamp, 59);
    assert_eq!(console.output[49].level, MessageLevel::Warning);
}

#[test]
fn test_command_history() {
    let mut console: DebugConsole<f32> = DebugConsole::new();
    console.history.push_back("help".to_string());
    console.history.push_back("clear".to_string());
    assert_eq!(console.history.len(), 2);
    assert_eq!(console.history[0], "help");
    assert_eq!(console.history[1], "clear");
    for i in 0..MAX_HISTORY + 10 {
        console.history.push_back(format!("command{}", i));
    }
    while console.history.len() > MAX_HISTORY {
        console.history.pop_front();
    }
    assert_eq!(console.history.len(), MAX_HISTORY);
}

#[test]
fn push_history_is_bounded() {
    let mut console: DebugConsole<f32> = DebugConsole::new();
    for i in 0..MAX_HISTORY + 10 {
        console.push_history(format!("command{}", i));
    }
    assert_eq!(console.history.len(), MAX_HISTORY);
    assert_eq!(console.history[0], "command10");
    assert_eq!(console.history[MAX_HISTORY - 1], "command109");
}

#[test]
fn history_navigation() {
    let mut console: DebugConsole<f32> = DebugConsole::new();
    // Nothing to navigate yet
    console.history_up();
    assert_eq!(console.history_index, None);
    console.history_down();
    assert_eq!(console.history_index, None);

    console.push_history("first".to_string());
    console.push_history("second".to_string());
    console.history_up();
    assert_eq!(console.history_index, Some(1));
    assert_eq!(console.input, "second");
    console.history_up();
    assert_eq!(console.history_index, Some(0));
    assert_eq!(console.input, "first");
    console.history_up(); // stays at the oldest entry
    assert_eq!(console.history_index, Some(0));
    console.history_down();
    assert_eq!(console.history_index, Some(1));
    assert_eq!(console.input, "second");
    console.history_down(); // past the newest: leaves the history
    assert_eq!(console.history_index, None);
    assert_eq!(console.input, "");
}

#[test]
fn submit_echoes_records_and_splits() {
    let mut console: DebugConsole<f32> = DebugConsole::new();
    let line = console.submit("  spawn food 3  ".to_string(), 1.5).unwrap();
    assert_eq!(line.name, "spawn");
    assert_eq!(line.args, strings(&["food", "3"]));
    assert_eq!(console.output.len(), 1);
    assert_eq!(console.output[0].text, ">   spawn food 3  ");
    assert_eq!(console.output[0].level, MessageLevel::Info);
    assert_eq!(console.output[0].timestamp, 1.5);
    assert_eq!(console.history.len(), 1);
    assert_eq!(console.history[0], "  spawn food 3  ");
}

#[test]
fn blank_submission_is_echoed_only() {
    let mut console: DebugConsole<f32> = DebugConsole::new();
    assert!(console.submit("   ".to_string(), 0.0).is_none());
    assert_eq!(console.output.len(), 1);
    assert_eq!(console.output[0].text, ">    ");
    assert!(console.history.is_empty());
}

#[test]
fn reports_are_logged_by_outcome() {
    let mut console: DebugConsole<f32> = DebugConsole::new();
    console.report(Ok("Console cleared".to_string()), 2.0);
    console.report(Err("Usage: get <variable>".to_string()), 3.0);
    console.report_unknown("fly", 4.0);
    assert_eq!(console.output[0].level, MessageLevel::Success);
    assert_eq!(console.output[0].text, "Console cleared");
    assert_eq!(console.output[1].level, MessageLevel::Error);
    assert_eq!(console.output[2].level, MessageLevel::Error);
    assert_eq!(
        console.output[2].text,
        "Unknown command: 'fly'. Type 'help' for available commands."
    );
}

#[test]
fn unicode_whitespace_separates_words() {
    let mut console: DebugConsole<f32> = DebugConsole::new();
    let line = console.submit("\u{3000}kill\u{a0}all\t".to_string(), 0.0).unwrap();
    assert_eq!(line.name, "kill");
    assert_eq!(line.args, strings(&["all"]));
    assert_eq!(console.history.len(), 1);
    assert!(console.submit("\t\n\u{2028} ".to_string(), 1.0).is_none());
    assert_eq!(console.history.len(), 1);
    assert_eq!(console.output.len(), 2);
}

#[test]
fn test_help_command() {
    let names = strings(&["clear", "help", "kill", "spawn"]);
    let listing = help_listing(&names);
    assert!(listing.contains("Available commands"));
    let clear = command_help("Clear the console output", "clear");
    assert_eq!(clear, "Clear the console output\nUsage: clear");
}

#[test]
fn test_clear_command() {
    let mut console: DebugConsole<f32> = DebugConsole::new();
    console.log("Message 1".to_string(), MessageLevel::Info, 0.0);
    console.log("Message 2".to_string(), MessageLevel::Info, 0.0);
    assert_eq!(console.output.len(), 2);
    console.clear_output();
    assert_eq!(console.output.len(), 0);
}
