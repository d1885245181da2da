use wl_keys::args::{AutoCmd, Command, DaemonCmd, ModCmd, Task, UiCmd};
use wl_keys::daemon::Rpc;
use wl_keys::error::Error;
use wl_keys::ipc::{send_key, send_stop, IPC_DIR, IPC_PATH};
use wl_keys::modifiers::Modifier;
use wl_keys::msg::Msg;

#[test]
fn daemon_commands_become_tasks() {
    assert_eq!(Command::Daemon(DaemonCmd::Start).task(), Ok(Task::StartDaemon));
    assert_eq!(Command::Daemon(DaemonCmd::Stop).task(), Ok(Task::Call(Rpc::Stop)));
    assert_eq!(Command::Daemon(DaemonCmd::Protocols).task(), Ok(Task::Call(Rpc::GetProtocols)));
}

#[test]
fn auto_commands_become_calls() {
    assert_eq!(Command::Auto(AutoCmd::Enable).task(), Ok(Task::Call(Rpc::AutoEnable)));
    assert_eq!(Command::Auto(AutoCmd::Disable).task(), Ok(Task::Call(Rpc::AutoDisable)));
    assert_eq!(Command::Auto(AutoCmd::Toggle).task(), Ok(Task::Call(Rpc::AutoToggle)));
    assert_eq!(Command::Auto(AutoCmd::Query).task(), Ok(Task::Call(Rpc::AutoQuery)));
    assert_eq!(AutoCmd::Query.rpc(), Rpc::AutoQuery);
}

#[test]
fn ui_commands_stay_in_the_process() {
    assert_eq!(Command::Ui(UiCmd::Open).task(), Ok(Task::Panel(UiCmd::Open)));
    assert_eq!(Command::Ui(UiCmd::Close).task(), Ok(Task::Panel(UiCmd::Close)));
    assert_eq!(Command::Ui(UiCmd::Toggle).task(), Ok(Task::Panel(UiCmd::Toggle)));
}

#[test]
fn mod_commands_become_calls() {
    let m = "ALT".to_string();
    assert_eq!(
        Command::Mod(ModCmd::Press { modifier: m.clone() }).task(),
        Ok(Task::Call(Rpc::ModPress(Modifier::Alt)))
    );
    assert_eq!(
        Command::Mod(ModCmd::Release { modifier: m.clone() }).task(),
        Ok(Task::Call(Rpc::ModRelease(Modifier::Alt)))
    );
    assert_eq!(
        Command::Mod(ModCmd::Toggle { modifier: m.clone() }).task(),
        Ok(Task::Call(Rpc::ModToggle(Modifier::Alt)))
    );
    assert_eq!(
        Command::Mod(ModCmd::Query { modifier: m }).task(),
        Ok(Task::Call(Rpc::ModQuery(Modifier::Alt)))
    );
}

#[test]
fn unknown_modifier_name_is_an_invalid_argument() {
    for name in ["", "alt", "META"] {
        let m = name.to_string();
        assert_eq!(
            Command::Mod(ModCmd::Press { modifier: m.clone() }).task(),
            Err(Error::InvalidArgument)
        );
        assert_eq!(ModCmd::Release { modifier: m.clone() }.task(), Err(Error::InvalidArgument));
        assert_eq!(ModCmd::Toggle { modifier: m.clone() }.task(), Err(Error::InvalidArgument));
        assert_eq!(ModCmd::Query { modifier: m }.task(), Err(Error::InvalidArgument));
    }
}

#[test]
fn key_command_becomes_a_tap() {
    assert_eq!(
        Command::Key { key: "b".to_string() }.task(),
        Ok(Task::Call(Rpc::SendKey { key: 48 }))
    );
    assert_eq!(
        Command::Key { key: "BACKSPACE".to_string() }.task(),
        Ok(Task::Call(Rpc::SendKey { key: 14 }))
    );
}

#[test]
fn unknown_key_command_is_refused() {
    assert_eq!(Command::Key { key: "B".to_string() }.task(), Err(Error::UnknownKey));
    assert_eq!(Command::Key { key: "".to_string() }.task(), Err(Error::UnknownKey));
}

#[test]
fn send_key_makes_the_key_message() {
    assert_eq!(send_key("a"), Ok(Msg::Key(30)));
    assert_eq!(send_key("0"), Ok(Msg::Key(11)));
    assert_eq!(send_key("SPACE"), Ok(Msg::Key(57)));
    assert_eq!(send_key("space"), Err(Error::UnknownKey));
}

#[test]
fn send_stop_makes_the_stop_message() {
    assert_eq!(send_stop(), Msg::Stop);
}

#[test]
fn messages_ask_for_their_calls() {
    assert_eq!(Msg::Key(30).rpc(), Rpc::SendKey { key: 30 });
    assert_eq!(Msg::AutoEnable.rpc(), Rpc::AutoEnable);
    assert_eq!(Msg::AutoDisable.rpc(), Rpc::AutoDisable);
    assert_eq!(Msg::AutoToggle.rpc(), Rpc::AutoToggle);
    assert_eq!(Msg::Stop.rpc(), Rpc::Stop);
}

#[test]
fn socket_lies_in_its_directory() {
    assert_eq!(IPC_DIR, "/tmp/wl_keys");
    assert_eq!(IPC_PATH, "/tmp/wl_keys/socket.sock");
}
