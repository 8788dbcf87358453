use os_locale::platform::linux::_get_user_locale;
use os_locale::unix::Posix;
use os_locale::{current_locale, ErrorKind, OsLocaleError};

#[test]
fn lib_parse_runtime_locale() {
    let locale = current_locale::<Posix>(Ok("en_US.UTF-8".to_string()));

    match locale {
        Ok(locale) => println!("Got locale code {}", locale),
        Err(error) => match error.kind() {
            ErrorKind::NotIetfCompliant(s) => {
                panic!("Got locale code {} but it is not IETF compliant!", s)
            }

            ErrorKind::LookupFailed => panic!("Failed to look up locale code from the OS!"),
        },
    }
}

#[test]
fn mod_parse_runtime_locale() {
    let locale = _get_user_locale(Some("en_US.UTF-8".to_string()));

    match locale {
        Ok(locale) => println!("Got locale code {}", locale),
        Err(error) => match error {
            OsLocaleError::NotIetfCompliant(s) => {
                panic!("Got locale code {} but it is not IETF compliant!", s)
            }
            OsLocaleError::OsLookupFailure => panic!("Failed to look up locale code from the OS!"),
        },
    }
}
