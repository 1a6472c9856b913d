use ledger_client::command::Command;
use ledger_client::text::{push_decimal, str_eq};

#[test]
fn command_words_map_to_commands() {
    assert_eq!(Command::from_name("getinfo", false), Some(Command::GetInfo));
    assert_eq!(Command::from_name("getinfo", true), Some(Command::GetInfo));
    assert_eq!(Command::from_name("genuinecheck", false), Some(Command::GenuineCheck));
    assert_eq!(Command::from_name("installapp", false), Some(Command::InstallMainApp));
    assert_eq!(Command::from_name("installapp", true), Some(Command::InstallTestApp));
    assert_eq!(Command::from_name("updateapp", false), Some(Command::UpdateMainApp));
    assert_eq!(Command::from_name("updateapp", true), Some(Command::UpdateTestApp));
    assert_eq!(Command::from_name("openapp", false), Some(Command::OpenMainApp));
    assert_eq!(Command::from_name("openapp", true), Some(Command::OpenTestApp));
    assert_eq!(Command::from_name("updatefirm", false), Some(Command::UpdateeFirmware));
}

#[test]
fn unknown_command_words_map_to_nothing() {
    assert_eq!(Command::from_name("", false), None);
    assert_eq!(Command::from_name("getinf", false), None);
    assert_eq!(Command::from_name("GETINFO", true), None);
}

#[test]
fn string_equality_compares_characters() {
    assert!(str_eq("", ""));
    assert!(str_eq("bulk", "bulk"));
    assert!(!str_eq("bulk", "bulks"));
    assert!(!str_eq("bulk", "bulj"));
    assert!(str_eq("naïve", "naïve"));
    assert!(!str_eq("naïve", "naive"));
}

#[test]
fn decimal_text_of_numbers() {
    let mut s = String::new();
    push_decimal(&mut s, 0);
    assert_eq!(s, "0");
    let mut s = String::from("n=");
    push_decimal(&mut s, 1050);
    assert_eq!(s, "n=1050");
    let mut s = String::new();
    push_decimal(&mut s, u32::MAX);
    assert_eq!(s, "4294967295");
}
