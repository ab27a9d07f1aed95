use balsa_flakegen::generate::nix_escape;

#[test]
fn escapes_what_breaks_nix_strings() {
    assert_eq!(nix_escape(r#"a"b"#), r#"a\"b"#);
    assert_eq!(nix_escape(r"c:\x"), r"c:\\x");
    assert_eq!(nix_escape("${pkgs.bash}"), "\\${pkgs.bash}");
    assert_eq!(nix_escape("a\nb"), "a\\nb");
}

/// The four `str::replace` calls the escaping stands for, applied in turn.
fn by_replacing(s: &str) -> String {
    s.replace('\\', "\\\\")
        .replace('"', "\\\"")
        .replace("${", "\\${")
        .replace('\n', "\\n")
}

#[test]
fn escaping_matches_replacing_in_turn() {
    for s in [
        "",
        "plain text",
        "$",
        "$$",
        "$${x}",
        "${",
        "\\${",
        "a\\\"b\n${c}$d{",
        "ünïcödé ${ü}\n",
        "\\\\\\",
    ] {
        assert_eq!(nix_escape(s), by_replacing(s), "{s:?}");
    }
}

#[test]
fn dollar_without_brace_stays() {
    assert_eq!(nix_escape("$HOME {x}"), "$HOME {x}");
    assert_eq!(nix_escape("$${a}"), "$\\${a}");
}

/// Reads escaped text back: `\` takes the next character literally, `\n` is a newline.
fn unescape(t: &str) -> String {
    let mut out = String::new();
    let mut it = t.chars();
    while let Some(c) = it.next() {
        if c == '\\' {
            match it.next() {
                Some('n') => out.push('\n'),
                Some(d) => out.push(d),
                None => out.push('\\'),
            }
        } else {
            out.push(c);
        }
    }
    out
}

#[test]
fn escaped_text_reads_back_unchanged() {
    for s in ["", "a\"b", "c:\\x", "${pkgs.bash}", "a\nb", "$${}\\n\\", "é\"${\n"] {
        assert_eq!(unescape(&nix_escape(s)), s);
    }
}

/// Whether the backslashes right before byte `i` form an odd run.
fn odd_run_before(t: &[char], i: usize) -> bool {
    t[..i].iter().rev().take_while(|c| **c == '\\').count() % 2 == 1
}

#[test]
fn escaped_quotes_and_interpolations_are_all_escaped() {
    for s in ["\"${a}\"", "\\\"", "\\${x}", "$${y}\n\"", "\\\\${z}"] {
        let t: Vec<char> = nix_escape(s).chars().collect();
        assert!(!t.contains(&'\n'));
        for i in 0..t.len() {
            if t[i] == '"' || (t[i] == '$' && t.get(i + 1) == Some(&'{')) {
                assert!(odd_run_before(&t, i), "{s:?} at {i}");
            }
        }
    }
}
