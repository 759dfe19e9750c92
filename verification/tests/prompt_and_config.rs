use gossip_chat::config::Config;
use gossip_chat::message::Notice;
use gossip_chat::setup::{Setup, SetupAction, SetupEvent, SetupStage};

#[test]
fn config_default_is_empty() {
    let c = Config::default();
    assert_eq!(c.get_user(), "");
    assert_eq!(c.get_network(), None);
}

#[test]
fn config_user_then_network() {
    let mut c = Config::default();
    c.user("alice");
    assert_eq!(c.get_user(), "alice");
    assert_eq!(c.get_network(), None);
    c.network(Some("/ip4/127.0.0.1/tcp/4001"));
    assert_eq!(c.get_user(), "alice");
    assert_eq!(c.get_network().map(|s| s.as_str()), Some("/ip4/127.0.0.1/tcp/4001"));
    c.network(None);
    assert_eq!(c.get_network(), None);
    assert_eq!(c.get_user(), "alice");
}

#[test]
fn setup_new_network_path() {
    let mut s = Setup::new();
    assert_eq!(s.stage(), SetupStage::AskName);
    assert_eq!(s.step(SetupEvent::SubmitName("bob".to_string())), SetupAction::ShowNetworkChoice);
    assert_eq!(s.stage(), SetupStage::ChooseNetwork);
    assert_eq!(s.step(SetupEvent::NewNetwork), SetupAction::Quit);
    assert!(s.is_finished());
    let c = s.into_config();
    assert_eq!(c.get_user(), "bob");
    assert_eq!(c.get_network(), None);
}

#[test]
fn setup_join_network_path() {
    let mut s = Setup::new();
    assert_eq!(s.step(SetupEvent::SubmitName("carol".to_string())), SetupAction::ShowNetworkChoice);
    assert_eq!(s.step(SetupEvent::JoinNetwork), SetupAction::ShowNetworkForm);
    assert_eq!(s.stage(), SetupStage::AskNetwork);
    assert_eq!(
        s.step(SetupEvent::SubmitNetwork("/ip4/10.0.0.2/tcp/7000".to_string())),
        SetupAction::Quit
    );
    assert!(s.is_finished());
    assert_eq!(s.config().get_user(), "carol");
    assert_eq!(s.config().get_network().map(|s| s.as_str()), Some("/ip4/10.0.0.2/tcp/7000"));
}

#[test]
fn setup_refuses_empty_name_and_address() {
    let mut s = Setup::new();
    assert_eq!(
        s.step(SetupEvent::SubmitName(String::new())),
        SetupAction::Notify(Notice::NameRequired)
    );
    assert_eq!(s.stage(), SetupStage::AskName);
    assert_eq!(s.config().get_user(), "");
    s.step(SetupEvent::SubmitName("dave".to_string()));
    s.step(SetupEvent::JoinNetwork);
    assert_eq!(
        s.step(SetupEvent::SubmitNetwork(String::new())),
        SetupAction::Notify(Notice::NetworkAddressRequired)
    );
    assert_eq!(s.stage(), SetupStage::AskNetwork);
    assert_eq!(s.config().get_network(), None);
}

#[test]
fn setup_ignores_events_out_of_place() {
    let mut s = Setup::new();
    assert_eq!(s.step(SetupEvent::NewNetwork), SetupAction::Ignore);
    assert_eq!(s.step(SetupEvent::JoinNetwork), SetupAction::Ignore);
    assert_eq!(s.step(SetupEvent::SubmitNetwork("x".to_string())), SetupAction::Ignore);
    assert_eq!(s.stage(), SetupStage::AskName);
    s.step(SetupEvent::SubmitName("erin".to_string()));
    assert_eq!(s.step(SetupEvent::SubmitName("frank".to_string())), SetupAction::Ignore);
    assert_eq!(s.config().get_user(), "erin");
    s.step(SetupEvent::NewNetwork);
    assert_eq!(s.step(SetupEvent::JoinNetwork), SetupAction::Ignore);
    assert_eq!(s.step(SetupEvent::SubmitName("gina".to_string())), SetupAction::Ignore);
    assert_eq!(s.stage(), SetupStage::Done);
    assert_eq!(s.config().get_user(), "erin");
}

#[test]
fn notice_texts() {
    assert_eq!(Notice::NameRequired.text(), "Please enter a name");
    assert_eq!(Notice::NetworkAddressRequired.text(), "Please enter network addr");
    assert_eq!(Notice::MessageRequired.text(), "Please enter a message!");
    assert_eq!(Notice::PublishFailed.text(), "Error Publishing!");
}
