use balsa_flakegen::generate::tidy;

#[test]
fn collapses_blank_runs_and_trims_line_ends() {
    assert_eq!(tidy("a  \n\n\n\nb\t\n"), "a\n\nb\n");
    assert_eq!(tidy(""), "");
    assert_eq!(tidy("\n"), "\n");
    assert_eq!(tidy("\n\n\n"), "\n");
    assert_eq!(tidy("x"), "x\n");
    assert_eq!(tidy("x\r\ny \r\n"), "x\ny\n");
    assert_eq!(tidy("  \n \nz"), "\nz\n");
}

#[test]
fn tidying_twice_changes_nothing() {
    for s in ["a  \n\n\n\nb\t\n", "\n\n x \n\n", "p\n \n \nq", "", "tail  "] {
        let once = tidy(s);
        assert_eq!(tidy(&once), once);
    }
}

#[test]
fn unicode_whitespace_is_trimmed() {
    assert_eq!(tidy("a\u{a0}\u{3000}\nb"), "a\nb\n");
}
