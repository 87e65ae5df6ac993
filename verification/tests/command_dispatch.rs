use volnita::command::command_handler::{CommandCallback, CommandHandler};
use volnita::command::construct_handler::handler_create_callbacks;

#[test]
fn empty_line_matches_nothing() {
    let handler = CommandHandler::default();
    assert_eq!(handler.call_handler(""), None);
}

#[test]
fn whitespace_only_line_matches_nothing() {
    let handler = CommandHandler::default();
    assert_eq!(handler.call_handler("   "), None);
}

#[test]
fn builtin_quit_requests_termination() {
    let handler = CommandHandler::default();
    assert_eq!(handler.call_handler("quit"), Some(false));
}

#[test]
fn quit_with_arguments_still_dispatches() {
    let handler = CommandHandler::default();
    assert_eq!(handler.call_handler("quit now please"), Some(false));
}

#[test]
fn leading_whitespace_is_ignored() {
    let handler = CommandHandler::default();
    assert_eq!(handler.call_handler("  quit"), Some(false));
}

#[test]
fn tabs_delimit_tokens_like_spaces() {
    let handler = CommandHandler::default();
    assert_eq!(handler.call_handler("\tquit\targ"), Some(false));
    assert_eq!(handler.call_handler("\t \n"), None);
}

#[test]
fn unknown_command_matches_nothing() {
    let handler = CommandHandler::default();
    assert_eq!(handler.call_handler("unknown-cmd arg1"), None);
}

#[test]
fn constructed_table_matches_default() {
    let handler = handler_create_callbacks();
    assert_eq!(handler.call_handler("quit"), Some(false));
    assert_eq!(handler.call_handler("proceed"), None);
}

#[test]
fn later_registration_for_a_name_wins() {
    let mut handler = CommandHandler::default();
    handler.add_handler("quit", CommandCallback::Proceed);
    assert_eq!(handler.call_handler("quit"), Some(true));
}

#[test]
fn registered_command_is_dispatched() {
    let mut handler = CommandHandler::default();
    handler.add_handler("stay", CommandCallback::Proceed);
    assert_eq!(handler.call_handler("stay"), Some(true));
    assert_eq!(handler.call_handler("quit"), Some(false));
}
