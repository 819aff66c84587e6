use cchmod::{DiffOp, Mode, ParseError, Perm, PermDiff};

#[test]
fn test_perm_num() {
    let rwx = Perm::new(true, true, true);
    assert_eq!("7", rwx.as_num());
    assert_eq!(rwx, Perm::from_num("7").unwrap());

    let rw = Perm::new(true, true, false);
    assert_eq!("6", rw.as_num());
    assert_eq!(rw, Perm::from_num("6").unwrap());

    let rx = Perm::new(true, false, true);
    assert_eq!("5", rx.as_num());
    assert_eq!(rx, Perm::from_num("5").unwrap());

    let r = Perm::new(true, false, false);
    assert_eq!("4", r.as_num());
    assert_eq!(r, Perm::from_num("4").unwrap());

    let wx = Perm::new(false, true, true);
    assert_eq!("3", wx.as_num());
    assert_eq!(wx, Perm::from_num("3").unwrap());

    let w = Perm::new(false, true, false);
    assert_eq!("2", w.as_num());
    assert_eq!(w, Perm::from_num("2").unwrap());

    let x = Perm::new(false, false, true);
    assert_eq!("1", x.as_num());
    assert_eq!(x, Perm::from_num("1").unwrap());

    let empty = Perm::new(false, false, false);
    assert_eq!("0", empty.as_num());
    assert_eq!(empty, Perm::from_num("0").unwrap());
}

#[test]
fn test_perm_sym() {
    let rwx = Perm::new(true, true, true);
    assert_eq!("rwx", rwx.as_sym());
    assert_eq!("rwx", rwx.as_sym_full());
    assert_eq!(rwx, Perm::from_sym_full("rwx").unwrap());

    let rw = Perm::new(true, true, false);
    assert_eq!("rw", rw.as_sym());
    assert_eq!("rw-", rw.as_sym_full());
    assert_eq!(rw, Perm::from_sym_full("rw-").unwrap());

    let rx = Perm::new(true, false, true);
    assert_eq!("rx", rx.as_sym());
    assert_eq!("r-x", rx.as_sym_full());
    assert_eq!(rx, Perm::from_sym_full("r-x").unwrap());

    let r = Perm::new(true, false, false);
    assert_eq!("r", r.as_sym());
    assert_eq!("r--", r.as_sym_full());
    assert_eq!(r, Perm::from_sym_full("r--").unwrap());

    let wx = Perm::new(false, true, true);
    assert_eq!("wx", wx.as_sym());
    assert_eq!("-wx", wx.as_sym_full());
    assert_eq!(wx, Perm::from_sym_full("-wx").unwrap());

    let w = Perm::new(false, true, false);
    assert_eq!("w", w.as_sym());
    assert_eq!("-w-", w.as_sym_full());
    assert_eq!(w, Perm::from_sym_full("-w-").unwrap());

    let x = Perm::new(false, false, true);
    assert_eq!("x", x.as_sym());
    assert_eq!("--x", x.as_sym_full());
    assert_eq!(x, Perm::from_sym_full("--x").unwrap());

    let empty = Perm::new(false, false, false);
    assert_eq!("", empty.as_sym());
    assert_eq!("---", empty.as_sym_full());
    assert_eq!(empty, Perm::from_sym_full("---").unwrap());

    assert_eq!(
        ParseError::UnexpectedEoi { pos: 0 },
        Perm::from_sym_full("").unwrap_err()
    );
    assert_eq!(
        ParseError::UnexpectedEoi { pos: 1 },
        Perm::from_sym_full("r").unwrap_err()
    );
    assert_eq!(
        ParseError::UnexpectedEoi { pos: 2 },
        Perm::from_sym_full("rw").unwrap_err()
    );
    assert_eq!(
        ParseError::UnexpectedChar {
            pos: 0,
            c: 'x',
            expected: Some(vec!['r', '-'])
        },
        Perm::from_sym_full("x").unwrap_err()
    );
    assert_eq!(
        ParseError::UnexpectedChar {
            pos: 1,
            c: 'r',
            expected: Some(vec!['w', '-'])
        },
        Perm::from_sym_full("rr").unwrap_err()
    );
    assert_eq!(
        ParseError::UnexpectedChar {
            pos: 3,
            c: 'r',
            expected: None
        },
        Perm::from_sym_full("rwxr").unwrap_err()
    );
}

#[test]
fn test_mode_num() {
    let m777 = Mode::new(
        Perm::new(true, true, true),
        Perm::new(true, true, true),
        Perm::new(true, true, true),
    );
    assert_eq!("777", m777.as_num());
    assert_eq!(m777, Mode::from_num("777").unwrap());

    let m755 = Mode::new(
        Perm::new(true, true, true),
        Perm::new(true, false, true),
        Perm::new(true, false, true),
    );
    assert_eq!("755", m755.as_num());
    assert_eq!(m755, Mode::from_num("755").unwrap());

    let m666 = Mode::new(
        Perm::new(true, true, false),
        Perm::new(true, true, false),
        Perm::new(true, true, false),
    );
    assert_eq!("666", m666.as_num());
    assert_eq!(m666, Mode::from_num("666").unwrap());

    let m644 = Mode::new(
        Perm::new(true, true, false),
        Perm::new(true, false, false),
        Perm::new(true, false, false),
    );
    assert_eq!("644", m644.as_num());
    assert_eq!(m644, Mode::from_num("644").unwrap());

    let m400 = Mode::new(
        Perm::new(true, false, false),
        Perm::new(false, false, false),
        Perm::new(false, false, false),
    );
    assert_eq!("400", m400.as_num());
    assert_eq!(m400, Mode::from_num("400").unwrap());
}

#[test]
fn test_mode_sym() {
    let m777 = Mode::new(
        Perm::new(true, true, true),
        Perm::new(true, true, true),
        Perm::new(true, true, true),
    );
    assert_eq!("rwxrwxrwx", m777.as_sym());
    assert_eq!(m777, Mode::from_sym("rwxrwxrwx").unwrap());

    let m755 = Mode::new(
        Perm::new(true, true, true),
        Perm::new(true, false, true),
        Perm::new(true, false, true),
    );
    assert_eq!("rwxr-xr-x", m755.as_sym());
    assert_eq!(m755, Mode::from_sym("rwxr-xr-x").unwrap());

    let m666 = Mode::new(
        Perm::new(true, true, false),
        Perm::new(true, true, false),
        Perm::new(true, true, false),
    );
    assert_eq!("rw-rw-rw-", m666.as_sym());
    assert_eq!(m666, Mode::from_sym("rw-rw-rw-").unwrap());

    let m644 = Mode::new(
        Perm::new(true, true, false),
        Perm::new(true, false, false),
        Perm::new(true, false, false),
    );
    assert_eq!("rw-r--r--", m644.as_sym());
    assert_eq!(m644, Mode::from_sym("rw-r--r--").unwrap());

    let m400 = Mode::new(
        Perm::new(true, false, false),
        Perm::new(false, false, false),
        Perm::new(false, false, false),
    );
    assert_eq!("r--------", m400.as_sym());
    assert_eq!(m400, Mode::from_sym("r--------").unwrap());

    assert_eq!(
        ParseError::UnexpectedEoi { pos: 1 },
        Mode::from_sym("r").unwrap_err()
    );
    assert_eq!(
        ParseError::UnexpectedEoi { pos: 3 },
        Mode::from_sym("rwx").unwrap_err()
    );
    assert_eq!(
        ParseError::UnexpectedChar {
            pos: 4,
            c: 'x',
            expected: Some(vec!['w', '-'])
        },
        Mode::from_sym("rwxrx").unwrap_err()
    );
    assert_eq!(
        ParseError::UnexpectedChar {
            pos: 9,
            c: '-',
            expected: None
        },
        Mode::from_sym("rwxr-xr-x-").unwrap_err()
    );
}

#[test]
fn test_perm_diff() {
    assert_eq!(
        PermDiff {
            read: DiffOp::Minus,
            write: DiffOp::Minus,
            execute: DiffOp::Minus
        },
        Perm::new(true, true, true).diff(&Perm::new(false, false, false))
    );
    assert_eq!(
        PermDiff {
            read: DiffOp::Plus,
            write: DiffOp::Same,
            execute: DiffOp::Plus
        },
        Perm::new(false, true, false).diff(&Perm::new(true, true, true))
    );
    assert_eq!(
        PermDiff {
            read: DiffOp::Minus,
            write: DiffOp::Plus,
            execute: DiffOp::Same
        },
        Perm::new(true, false, false).diff(&Perm::new(false, true, false))
    );
    assert_eq!(
        PermDiff {
            read: DiffOp::Same,
            write: DiffOp::Same,
            execute: DiffOp::Same
        },
        Perm::new(false, false, true).diff(&Perm::new(false, false, true))
    );
}
