use cchmod::cli::{cli, convert, output_as_num, try_parse, Opts, Parsed};
use cchmod::{Mode, Perm};

#[test]
fn test_output_as_num() {
    assert_eq!(Ok(true), output_as_num(true, false));
    assert_eq!(Ok(false), output_as_num(false, true));

    assert_eq!(
        Err("--num and --sym are exclusive".to_string()),
        output_as_num(true, true)
    );
    assert_eq!(
        Err("--num or --sym must be supplied".to_string()),
        output_as_num(false, false)
    );
}

#[test]
fn test_try_parse() {
    assert_eq!(
        Some(Parsed::Mode(Mode {
            user: Perm {
                read: true,
                write: true,
                execute: true
            },
            group: Perm {
                read: true,
                write: true,
                execute: true
            },
            other: Perm {
                read: true,
                write: true,
                execute: true
            }
        })),
        try_parse("rwxrwxrwx")
    );
    assert_eq!(
        Some(Parsed::Mode(Mode {
            user: Perm {
                read: true,
                write: true,
                execute: true
            },
            group: Perm {
                read: true,
                write: true,
                execute: true
            },
            other: Perm {
                read: true,
                write: true,
                execute: true
            }
        })),
        try_parse("777")
    );
    assert_eq!(
        Some(Parsed::Perm(Perm {
            read: true,
            write: true,
            execute: true
        })),
        try_parse("rwx")
    );
    assert_eq!(
        Some(Parsed::Perm(Perm {
            read: true,
            write: true,
            execute: true
        })),
        try_parse("7")
    );

    assert_eq!(None, try_parse(""));
    assert_eq!(None, try_parse("rx"));
    assert_eq!(None, try_parse("rwxx"));
    assert_eq!(None, try_parse("rwxrwx"));
    assert_eq!(None, try_parse("8"));
    assert_eq!(None, try_parse("77"));
    assert_eq!(None, try_parse("585"));
    assert_eq!(None, try_parse("4444"));
}

#[test]
fn test_convert() {
    let m = Mode::from_num("755").unwrap();
    assert_eq!("755", convert(&m, true));
    assert_eq!("rwxr-xr-x", convert(&m, false));

    let p = Perm::from_sym_full("rw-").unwrap();
    assert_eq!("6", convert(&p, true));
    assert_eq!("rw-", convert(&p, false));
}

#[test]
fn test_cli_converts_mode() {
    let opts = Opts {
        input: "755".to_string(),
        num: false,
        sym: true,
    };
    assert_eq!(Ok("rwxr-xr-x".to_string()), cli(&opts));

    let opts = Opts {
        input: "rwxr-xr-x".to_string(),
        num: true,
        sym: false,
    };
    assert_eq!(Ok("755".to_string()), cli(&opts));
}

#[test]
fn test_cli_converts_perm() {
    let opts = Opts {
        input: "rw-".to_string(),
        num: true,
        sym: false,
    };
    assert_eq!(Ok("6".to_string()), cli(&opts));

    let opts = Opts {
        input: "6".to_string(),
        num: false,
        sym: true,
    };
    assert_eq!(Ok("rw-".to_string()), cli(&opts));
}

#[test]
fn test_cli_reports_flag_misuse() {
    let opts = Opts {
        input: "755".to_string(),
        num: true,
        sym: true,
    };
    assert_eq!(Err("--num and --sym are exclusive".to_string()), cli(&opts));

    let opts = Opts {
        input: "755".to_string(),
        num: false,
        sym: false,
    };
    assert_eq!(
        Err("--num or --sym must be supplied".to_string()),
        cli(&opts)
    );
}

#[test]
fn test_cli_reports_malformed_input() {
    let opts = Opts {
        input: "bogus".to_string(),
        num: true,
        sym: false,
    };
    assert_eq!(
        Err("bogus: malformed permission or mode".to_string()),
        cli(&opts)
    );
}
