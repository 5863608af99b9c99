use workxgoam::flag::{app_dir_name, data_dir_variable, flag_file_name, FlagError, FlagFile, TempFlagHandler};

#[test]
fn write_then_read_then_clear() {
    let mut f = TempFlagHandler::observed(FlagFile::Missing);
    f.write("/tmp/out".to_string());
    assert_eq!(f.read(), Ok("/tmp/out".to_string()));
    assert_eq!(f.contents(), Some("/tmp/out".to_string()));
    f.clear();
    assert_eq!(f.read(), Err(FlagError::FlagNotFound));
    assert_eq!(f.contents(), None);
}

#[test]
fn new_flag_holds_the_directory() {
    let f = TempFlagHandler::new("C:\\Users\\me\\out");
    assert_eq!(f.read(), Ok("C:\\Users\\me\\out".to_string()));
}

#[test]
fn unreadable_flag_is_reported() {
    let f = TempFlagHandler::observed(FlagFile::Unreadable("stream did not contain valid UTF-8".to_string()));
    assert_eq!(f.read(), Err(FlagError::FlagUnreadable("stream did not contain valid UTF-8".to_string())));
    assert_eq!(f.monitor_dir(), Err(FlagError::FlagUnreadable("stream did not contain valid UTF-8".to_string())));
    assert_eq!(f.contents(), None);
}

#[test]
fn read_is_verbatim_but_monitor_dir_is_trimmed() {
    let f = TempFlagHandler::observed(FlagFile::Holds("  /tmp/out\r\n".to_string()));
    assert_eq!(f.read(), Ok("  /tmp/out\r\n".to_string()));
    assert_eq!(f.monitor_dir(), Ok("/tmp/out".to_string()));
    assert_eq!(TempFlagHandler::observed(FlagFile::Missing).monitor_dir(), Err(FlagError::FlagNotFound));
}

#[test]
fn empty_flag_reads_as_empty() {
    let f = TempFlagHandler::observed(FlagFile::Holds(String::new()));
    assert_eq!(f.read(), Ok(String::new()));
    assert_eq!(f.monitor_dir(), Ok(String::new()));
}

#[test]
fn flag_location_names() {
    assert_eq!(data_dir_variable(), "LOCALAPPDATA");
    assert_eq!(app_dir_name(), "WorkXGoAm");
    assert_eq!(flag_file_name(), "running_flag.tmp");
}
